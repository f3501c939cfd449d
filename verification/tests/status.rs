use fused_reader::error::{reader_dropped_error, writer_dropped_error};
use fused_reader::{fuse, FuseGuard, FuseStatus};
use std::io::{Cursor, Error, ErrorKind};
use std::sync::{Mutex, PoisonError, TryLockError};

#[test]
fn new_fuse_is_unarmed() {
    let (mut reader, _fuse) = fuse(Cursor::new(vec![1u8]));
    assert!(matches!(reader.check_fuse(), FuseStatus::Unarmed));
    assert!(matches!(reader.check_fuse(), FuseStatus::Unarmed));
}

#[test]
fn held_guard_is_armed() {
    let (mut reader, fuse) = fuse(Cursor::new(vec![1u8]));
    let guard = fuse.arm().unwrap();
    assert!(matches!(reader.check_fuse(), FuseStatus::Armed));
    assert!(matches!(reader.check_fuse(), FuseStatus::Armed));
    drop(guard);
    assert!(matches!(reader.check_fuse(), FuseStatus::Unarmed));
}

#[test]
fn blown_is_reported_once() {
    let (mut reader, fuse) = fuse(Cursor::new(vec![1u8]));
    fuse.arm().unwrap().blow(Error::new(ErrorKind::BrokenPipe, "boom!"));

    match reader.check_fuse() {
        FuseStatus::Blown(error) => {
            assert_eq!(error.kind(), ErrorKind::BrokenPipe);
            assert_eq!(error.to_string(), "boom!");
        }
        other => panic!("expected a blown fuse, got {:?}", other),
    }
    assert!(matches!(reader.check_fuse(), FuseStatus::Unarmed));
    assert!(matches!(reader.check_fuse(), FuseStatus::Unarmed));
}

#[test]
fn second_blow_replaces_the_first() {
    let (mut reader, fuse) = fuse(Cursor::new(vec![1u8]));
    fuse.arm().unwrap().blow(Error::new(ErrorKind::Other, "first"));
    fuse.arm().unwrap().blow(Error::new(ErrorKind::InvalidData, "second"));

    match reader.check_fuse() {
        FuseStatus::Blown(error) => {
            assert_eq!(error.kind(), ErrorKind::InvalidData);
            assert_eq!(error.to_string(), "second");
        }
        other => panic!("expected a blown fuse, got {:?}", other),
    }
    assert!(matches!(reader.check_fuse(), FuseStatus::Unarmed));
}

#[test]
fn fuse_arms_again_after_release() {
    let (mut reader, fuse) = fuse(Cursor::new(vec![1u8]));
    for _ in 0..3 {
        let guard = fuse.arm().unwrap();
        assert!(matches!(reader.check_fuse(), FuseStatus::Armed));
        drop(guard);
        assert!(matches!(reader.check_fuse(), FuseStatus::Unarmed));
    }
}

#[test]
fn rearmed_fuse_hides_the_error_until_release() {
    let (mut reader, fuse) = fuse(Cursor::new(vec![1u8]));
    fuse.arm().unwrap().blow(Error::new(ErrorKind::Other, "kept"));
    let guard = fuse.arm().unwrap();
    assert!(matches!(reader.check_fuse(), FuseStatus::Armed));
    drop(guard);
    match reader.check_fuse() {
        FuseStatus::Blown(error) => assert_eq!(error.to_string(), "kept"),
        other => panic!("expected a blown fuse, got {:?}", other),
    }
}

#[test]
fn drain_takes_the_error_out_of_the_slot() {
    let mut slot: Result<(), Error> = Err(Error::new(ErrorKind::NotFound, "gone"));
    match FuseStatus::drain(&mut slot) {
        FuseStatus::Blown(error) => {
            assert_eq!(error.kind(), ErrorKind::NotFound);
            assert_eq!(error.to_string(), "gone");
        }
        other => panic!("expected a blown fuse, got {:?}", other),
    }
    assert!(slot.is_ok());
    assert!(matches!(FuseStatus::drain(&mut slot), FuseStatus::Unarmed));
    assert!(slot.is_ok());
}

#[test]
fn attempt_that_gets_an_empty_cell_is_unarmed() {
    let cell: Mutex<Result<(), Error>> = Mutex::new(Ok(()));
    assert!(matches!(FuseStatus::of_attempt(cell.try_lock()), FuseStatus::Unarmed));
    assert!(cell.try_lock().unwrap().is_ok());
}

#[test]
fn attempt_that_gets_an_error_drains_it() {
    let cell: Mutex<Result<(), Error>> = Mutex::new(Err(Error::new(ErrorKind::Other, "kept")));
    match FuseStatus::of_attempt(cell.try_lock()) {
        FuseStatus::Blown(error) => assert_eq!(error.to_string(), "kept"),
        other => panic!("expected a blown fuse, got {:?}", other),
    }
    assert!(cell.try_lock().unwrap().is_ok());
    assert!(matches!(FuseStatus::of_attempt(cell.try_lock()), FuseStatus::Unarmed));
}

#[test]
fn attempt_that_would_wait_is_armed() {
    let cell: Mutex<Result<(), Error>> = Mutex::new(Err(Error::new(ErrorKind::Other, "kept")));
    let guard = cell.lock().unwrap();
    assert!(matches!(FuseStatus::of_attempt(cell.try_lock()), FuseStatus::Armed));
    assert!(matches!(FuseStatus::of_attempt(Err(TryLockError::WouldBlock)), FuseStatus::Armed));
    assert!(guard.is_err());
}

#[test]
fn poisoned_attempt_is_poisoned_and_keeps_the_slot() {
    let cell: Mutex<Result<(), Error>> = Mutex::new(Err(Error::new(ErrorKind::Other, "kept")));
    let attempt = Err(TryLockError::Poisoned(PoisonError::new(cell.lock().unwrap())));
    assert!(matches!(FuseStatus::of_attempt(attempt), FuseStatus::Poisoned));
    assert!(cell.try_lock().unwrap().is_err());
}

#[test]
fn end_of_stream_stands_unless_blown_or_poisoned() {
    assert_eq!(FuseStatus::Unarmed.at_end_of_stream().unwrap(), 0);
    assert_eq!(FuseStatus::Armed.at_end_of_stream().unwrap(), 0);
}

#[test]
fn blown_end_of_stream_is_the_error() {
    let status = FuseStatus::Blown(Error::new(ErrorKind::ConnectionReset, "reset"));
    let error = status.at_end_of_stream().unwrap_err();
    assert_eq!(error.kind(), ErrorKind::ConnectionReset);
    assert_eq!(error.to_string(), "reset");
}

#[test]
fn poisoned_end_of_stream_is_a_broken_pipe() {
    let error = FuseStatus::Poisoned.at_end_of_stream().unwrap_err();
    assert_eq!(error.kind(), ErrorKind::BrokenPipe);
    assert_eq!(error.to_string(), "writer end dropped due to panic");
}

#[test]
fn poisoned_attempt_ends_the_stream_with_a_broken_pipe() {
    let cell: Mutex<Result<(), Error>> = Mutex::new(Ok(()));
    let attempt = Err(TryLockError::Poisoned(PoisonError::new(cell.lock().unwrap())));
    let error = FuseStatus::of_attempt(attempt).at_end_of_stream().unwrap_err();
    assert_eq!(error.kind(), ErrorKind::BrokenPipe);
    assert_eq!(error.to_string(), "writer end dropped due to panic");
}

#[test]
fn arming_a_free_lock_gives_a_guard_over_its_slot() {
    let cell: Mutex<Result<(), Error>> = Mutex::new(Ok(()));
    let guard = FuseGuard::of_attempt(cell.lock()).unwrap();
    assert!(matches!(FuseStatus::of_attempt(cell.try_lock()), FuseStatus::Armed));
    guard.blow(Error::new(ErrorKind::BrokenPipe, "boom!"));
    match FuseStatus::of_attempt(cell.try_lock()) {
        FuseStatus::Blown(error) => {
            assert_eq!(error.kind(), ErrorKind::BrokenPipe);
            assert_eq!(error.to_string(), "boom!");
        }
        other => panic!("expected a blown fuse, got {:?}", other),
    }
}

#[test]
fn arming_a_poisoned_lock_is_a_broken_pipe() {
    let cell: Mutex<Result<(), Error>> = Mutex::new(Ok(()));
    let attempt = Err(PoisonError::new(cell.lock().unwrap()));
    let error = FuseGuard::of_attempt(attempt).unwrap_err();
    assert_eq!(error.kind(), ErrorKind::BrokenPipe);
    assert_eq!(error.to_string(), "reader end dropped due to panic");
    assert!(cell.try_lock().is_ok());
}

#[test]
fn errors_of_the_fuse_are_broken_pipes() {
    let error = writer_dropped_error();
    assert_eq!(error.kind(), ErrorKind::BrokenPipe);
    assert_eq!(error.to_string(), "writer end dropped due to panic");
    assert_eq!(error.get_ref().unwrap().to_string(), "writer end dropped due to panic");

    let error = reader_dropped_error();
    assert_eq!(error.kind(), ErrorKind::BrokenPipe);
    assert_eq!(error.to_string(), "reader end dropped due to panic");
    assert_eq!(error.get_ref().unwrap().to_string(), "reader end dropped due to panic");
}

#[test]
fn handles_and_statuses_can_be_printed() {
    let (reader, fuse) = fuse(Cursor::new(vec![1u8]));
    assert!(format!("{:?}", reader).starts_with("FusedReader"));
    assert!(format!("{:?}", fuse).starts_with("Fuse"));
    let guard = fuse.arm().unwrap();
    assert!(format!("{:?}", guard).starts_with("FuseGuard"));
    assert_eq!(format!("{:?}", FuseStatus::Unarmed), "Unarmed");
    assert_eq!(format!("{:?}", FuseStatus::Armed), "Armed");
    assert_eq!(format!("{:?}", FuseStatus::Poisoned), "Poisoned");
    let blown = FuseStatus::Blown(Error::new(ErrorKind::BrokenPipe, "boom!"));
    assert!(format!("{:?}", blown).starts_with("Blown"));
}

#[test]
fn guard_is_a_guard_of_its_own_fuse() {
    let (mut first_reader, first_fuse) = fuse(Cursor::new(vec![1u8]));
    let (mut second_reader, second_fuse) = fuse(Cursor::new(vec![2u8]));

    let guard = first_fuse.arm().unwrap();
    assert!(matches!(first_reader.check_fuse(), FuseStatus::Armed));
    assert!(matches!(second_reader.check_fuse(), FuseStatus::Unarmed));

    guard.blow(Error::new(ErrorKind::BrokenPipe, "boom!"));
    assert!(matches!(second_reader.check_fuse(), FuseStatus::Unarmed));
    match first_reader.check_fuse() {
        FuseStatus::Blown(error) => assert_eq!(error.to_string(), "boom!"),
        other => panic!("expected a blown fuse, got {:?}", other),
    }

    let guard = second_fuse.arm().unwrap();
    assert!(matches!(first_reader.check_fuse(), FuseStatus::Unarmed));
    assert!(matches!(second_reader.check_fuse(), FuseStatus::Armed));
    drop(guard);
    assert!(matches!(second_reader.check_fuse(), FuseStatus::Unarmed));
}
