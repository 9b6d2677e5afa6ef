//! The native integer encodings and the interpretation of native return
//! codes, with the values this library assumes pinned against the `libc`
//! crate where it exports them for this target.

use ptmutex::attr;
use ptmutex::errors;
use ptmutex::errors::Error;
use ptmutex::mutex;
use ptmutex::mutex::LockStatus;
use ptmutex::protocol::Protocol;

#[test]
fn native_codes_match_libc() {
    assert_eq!(errors::EOWNERDEAD, libc::EOWNERDEAD);
    assert_eq!(errors::EDEADLK, libc::EDEADLK);
    assert_eq!(errors::ENOTSUP, libc::EOPNOTSUPP);
}

#[test]
fn protocol_encoding_round_trips() {
    let protocols = [Protocol::PrioNone, Protocol::Inherit, Protocol::Protect];
    for &p in &protocols {
        assert_eq!(Protocol::from_raw(p.to_raw()), Some(p));
    }
    assert_eq!(Protocol::PrioNone.to_raw(), 0);
    assert_eq!(Protocol::Inherit.to_raw(), 1);
    assert_eq!(Protocol::Protect.to_raw(), 2);
}

#[test]
fn protocol_decode_rejects_unknown() {
    assert_eq!(Protocol::from_raw(3), None);
    assert_eq!(Protocol::from_raw(-1), None);
    assert_eq!(Protocol::from_raw(i32::MAX), None);
}

#[test]
fn mode_encodings() {
    assert_eq!(attr::MutexAttr::shared_to_raw(true), attr::PTHREAD_PROCESS_SHARED);
    assert_eq!(attr::MutexAttr::shared_to_raw(false), attr::PTHREAD_PROCESS_PRIVATE);
    assert_eq!(attr::MutexAttr::robust_to_raw(true), attr::PTHREAD_MUTEX_ROBUST);
    assert_eq!(attr::MutexAttr::robust_to_raw(false), attr::PTHREAD_MUTEX_STALLED);
    assert_eq!(attr::PTHREAD_PROCESS_PRIVATE, 0);
    assert_eq!(attr::PTHREAD_PROCESS_SHARED, 1);
    assert_eq!(attr::PTHREAD_MUTEX_STALLED, 0);
    assert_eq!(attr::PTHREAD_MUTEX_ROBUST, 1);
}

#[test]
fn init_outcome_maps_codes() {
    assert_eq!(errors::init_outcome(0), Ok(()));
    assert_eq!(errors::init_outcome(errors::ENOMEM), Err(Error::InitError));
    assert_eq!(errors::init_outcome(errors::EAGAIN), Err(Error::InitError));
}

#[test]
fn syscall_outcome_maps_results() {
    assert_eq!(errors::syscall_outcome(5, 0), Ok(5));
    assert_eq!(errors::syscall_outcome(0, 0), Ok(0));
    assert_eq!(
        errors::syscall_outcome(-1, errors::EAGAIN),
        Err(Error::Os(errors::EAGAIN))
    );
}

#[test]
fn destroy_outcome_maps_codes() {
    assert_eq!(errors::destroy_outcome(0), Ok(()));
    assert_eq!(errors::destroy_outcome(errors::EBUSY), Err(Error::Os(errors::EBUSY)));
}

#[test]
fn attr_op_outcome_maps_codes() {
    assert_eq!(attr::attr_op_outcome(0), Ok(()));
    assert_eq!(attr::attr_op_outcome(errors::EINVAL), Err(Error::Unsupported));
    assert_eq!(attr::attr_op_outcome(errors::ENOTSUP), Err(Error::Unsupported));
    assert_eq!(attr::attr_op_outcome(errors::ENOMEM), Err(Error::Os(errors::ENOMEM)));
}

#[test]
fn attr_getter_outcomes_decode_values() {
    assert_eq!(attr::get_shared_outcome(0, attr::PTHREAD_PROCESS_SHARED), Ok(true));
    assert_eq!(attr::get_shared_outcome(0, attr::PTHREAD_PROCESS_PRIVATE), Ok(false));
    assert_eq!(attr::get_shared_outcome(errors::EINVAL, 0), Err(Error::Unsupported));
    assert_eq!(attr::get_robust_outcome(0, attr::PTHREAD_MUTEX_ROBUST), Ok(true));
    assert_eq!(attr::get_robust_outcome(0, attr::PTHREAD_MUTEX_STALLED), Ok(false));
    assert_eq!(attr::get_protocol_outcome(0, 1), Ok(Protocol::Inherit));
    assert_eq!(attr::get_protocol_outcome(0, 7), Err(Error::Unsupported));
    assert_eq!(
        attr::get_protocol_outcome(errors::EPERM, 0),
        Err(Error::Os(errors::EPERM))
    );
}

#[test]
fn lock_outcome_maps_codes() {
    assert_eq!(mutex::lock_outcome(0), Ok(LockStatus::Acquired));
    assert_eq!(mutex::lock_outcome(errors::EOWNERDEAD), Ok(LockStatus::OwnerDied));
    assert_eq!(
        mutex::lock_outcome(errors::EDEADLK),
        Err(Error::Os(errors::EDEADLK))
    );
}

#[test]
fn try_lock_outcome_maps_codes() {
    assert_eq!(mutex::try_lock_outcome(0), Ok(true));
    assert_eq!(mutex::try_lock_outcome(errors::EBUSY), Ok(false));
    assert_eq!(
        mutex::try_lock_outcome(errors::EINVAL),
        Err(Error::Os(errors::EINVAL))
    );
}

#[test]
fn unlock_outcome_maps_codes() {
    assert_eq!(mutex::unlock_outcome(0), Ok(()));
    assert_eq!(mutex::unlock_outcome(errors::EPERM), Err(Error::NotOwner));
    assert_eq!(
        mutex::unlock_outcome(errors::EINVAL),
        Err(Error::Os(errors::EINVAL))
    );
}
