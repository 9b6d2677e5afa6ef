//! Error taxonomy of the lock layer, and the interpretation of the native
//! return codes that every pthread call in this layer can produce.
//!
//! The pthread calls report failure by returning an error number directly
//! (they do not use the thread-local `errno` cell).  Each call site of the
//! raw layer hands that code, untouched, to one of the outcome functions
//! below; the functions are total, so every native outcome is mapped.

use vstd::prelude::*;

verus! {

/// `EPERM`: the caller does not hold the lock it tried to release.
pub const EPERM: i32 = 1;
/// `EAGAIN`: a resource limit was hit while initializing.
pub const EAGAIN: i32 = 11;
/// `ENOMEM`: the platform could not allocate lock state.
pub const ENOMEM: i32 = 12;
/// `EBUSY`: the lock is currently held by someone else.
pub const EBUSY: i32 = 16;
/// `EINVAL`: the platform rejected an argument or mode.
pub const EINVAL: i32 = 22;
/// `EDEADLK`: the platform detected that blocking would deadlock.
pub const EDEADLK: i32 = 35;
/// `ENOTSUP`: the requested mode is not supported on this platform.
pub const ENOTSUP: i32 = 95;
/// `EOWNERDEAD`: a robust lock was acquired, but its previous holder died
/// while holding it and the protected state needs consistency repair.
pub const EOWNERDEAD: i32 = 130;

/// Failures surfaced by the lock layer.
///
/// `WouldBlock` has no variant here on purpose: a contended `try_lock` is
/// reported in its boolean result, never as an error.  The "owner died"
/// condition of robust locks is not an error either: it is the distinguished
/// success [`crate::mutex::LockStatus::OwnerDied`].
#[derive(Clone, Copy, Debug, PartialEq, Eq, Structural)]
pub enum Error {
    /// A native initialization call failed; typically resource exhaustion.
    InitError,
    /// The requested attribute mode (process-shared, robust, or a priority
    /// protocol) cannot be represented on this platform or build.
    Unsupported,
    /// The native layer reported that the caller released a lock it did not
    /// hold.
    NotOwner,
    /// Any other native failure, with the underlying code.
    Os(i32),
}

/// Interprets the return code of a native initialization call — of an
/// attribute object or of a mutex.  Zero is success; every failure of an
/// initialization call is resource exhaustion and maps to `InitError`.
pub fn init_outcome(code: i32) -> (r: Result<(), Error>)
    ensures
        r == (if code == 0 {
            Ok::<(), Error>(())
        } else {
            Err::<(), Error>(Error::InitError)
        }),
{
    if code == 0 {
        Ok(())
    } else {
        Err(Error::InitError)
    }
}

/// Interprets the result of a plain syscall that reports failure through
/// the thread-local error cell: a result of `-1` means the call failed and
/// the cell holds the code; any other result is the call's value.  The
/// descriptor-creating calls around the lock layer (event descriptors,
/// process descriptors) all follow this convention.
pub fn syscall_outcome(res: i64, errno: i32) -> (r: Result<i64, Error>)
    ensures
        r == (if res == -1 {
            Err::<i64, Error>(Error::Os(errno))
        } else {
            Ok::<i64, Error>(res)
        }),
{
    if res == -1 {
        Err(Error::Os(errno))
    } else {
        Ok(res)
    }
}

/// Interprets the return code of a native teardown call — of an attribute
/// object or of a mutex.  Failure here reaches a scope-exit path with no
/// caller left to receive it; the raw layer fails loudly on it rather than
/// leak silently.
pub fn destroy_outcome(code: i32) -> (r: Result<(), Error>)
    ensures
        r == (if code == 0 {
            Ok::<(), Error>(())
        } else {
            Err::<(), Error>(Error::Os(code))
        }),
{
    if code == 0 {
        Ok(())
    } else {
        Err(Error::Os(code))
    }
}

} // verus!
