//! The mutex object: the lifecycle and lock-state model that the native lock
//! calls implement, and the interpretation of each lock call's return code.
//!
//! The native lock state is a fixed-size structure that may sit in memory
//! mapped by several address spaces; what happens to it happens in the
//! kernel.  The model here is the single-caller view of that state: a mutex
//! is uninitialized or initialized, and an initialized mutex is locked or
//! unlocked.  Contention — a `lock` call that blocks until another thread
//! unlocks, a robust lock whose holder died — involves a second agent and a
//! clock, and so stands outside the model; its per-call decisions are still
//! here, in the outcome functions that map every native return code to a
//! result.

use vstd::prelude::*;

use crate::attr::MutexAttr;
use crate::errors::EBUSY;
use crate::errors::EOWNERDEAD;
use crate::errors::EPERM;
use crate::errors::Error;

verus! {

/// What a successful `lock` call reports.
///
/// Owner death on a robust mutex is a distinguished success, not an error:
/// the caller holds the lock, but must repair the consistency of the
/// protected data before trusting it.
#[derive(Clone, Copy, Debug, PartialEq, Eq, Structural)]
pub enum LockStatus {
    /// The lock was acquired normally.
    Acquired,
    /// The lock was acquired, but its previous holder died while holding it;
    /// the protected state needs consistency repair.
    OwnerDied,
}

/// The lifecycle and lock-state model of one mutex.
///
/// A value made by [`Mutex::new`] or [`Mutex::default`] is initialized at
/// once.  A value made by [`Mutex::uninitialized`] models a sub-region of a
/// raw memory mapping reinterpreted as a mutex: it must be initialized
/// exactly once, by exactly one participant, with [`Mutex::init`], before
/// any participant locks — coordinating that single initialization is the
/// callers' obligation, stated here as `init`'s precondition.
#[derive(Debug)]
pub struct Mutex {
    initialized: bool,
    locked: bool,
    attr: MutexAttr,
}

impl Mutex {
    /// Whether this mutex has been initialized and may be locked.
    pub closed spec fn spec_initialized(self) -> bool {
        self.initialized
    }

    /// Whether this mutex is currently locked.
    pub closed spec fn spec_locked(self) -> bool {
        self.locked
    }

    /// The attribute value this mutex was initialized with.
    pub closed spec fn spec_attr(self) -> MutexAttr {
        self.attr
    }

    /// An uninitialized mutex: the model of lock-sized raw memory — for
    /// instance a sub-region of a shared anonymous mapping — that no
    /// participant has initialized yet.
    pub fn uninitialized() -> (m: Mutex)
        ensures
            !m.spec_initialized(),
    {
        Mutex { initialized: false, locked: false, attr: MutexAttr::platform_default() }
    }

    /// Initializes this mutex in place with the given attribute, or with the
    /// platform defaults if none is given.  This is the shared-memory path:
    /// the storage already exists at the mutex's address.
    ///
    /// Initializing a mutex twice, or one that is in use, is undefined at
    /// the native layer; the precondition states the callers' obligation to
    /// initialize exactly once, before any lock call.
    pub fn init(&mut self, attr: Option<MutexAttr>) -> (r: Result<(), Error>)
        requires
            !old(self).spec_initialized(),
        ensures
            r == Ok::<(), Error>(()),
            final(self).spec_initialized(),
            !final(self).spec_locked(),
            attr matches Some(a) ==> final(self).spec_attr() == a,
            attr is None ==> final(self).spec_attr().is_platform_default(),
    {
        let a = match attr {
            Some(a) => a,
            None => MutexAttr::platform_default(),
        };
        self.initialized = true;
        self.locked = false;
        self.attr = a;
        Ok(())
    }

    /// A new, initialized, unlocked mutex owning fresh lock storage,
    /// configured by the given attribute or by the platform defaults.
    ///
    /// The native initialization call this mirrors can fail with
    /// [`Error::InitError`] on resource exhaustion; allocating the native
    /// storage is the raw layer's step, so here construction always
    /// succeeds.  The `Result` is kept so that callers are written against
    /// the full interface.
    pub fn new(attr: Option<MutexAttr>) -> (r: Result<Mutex, Error>)
        ensures
            r matches Ok(m) && {
                &&& m.spec_initialized()
                &&& !m.spec_locked()
                &&& attr matches Some(a) ==> m.spec_attr() == a
                &&& attr is None ==> m.spec_attr().is_platform_default()
            },
    {
        let a = match attr {
            Some(a) => a,
            None => MutexAttr::platform_default(),
        };
        Ok(Mutex { initialized: true, locked: false, attr: a })
    }

    /// Acquires the lock.
    ///
    /// At the native layer a `lock` call on a held mutex blocks until the
    /// holder unlocks; blocking on another agent cannot be expressed in this
    /// single-caller model, so the contract covers the acquiring case: the
    /// lock is free, the call succeeds, and the mutex is locked afterwards.
    /// A default-type mutex relocked by its own holder deadlocks forever,
    /// which is why the free state is required rather than modelled.
    pub fn lock(&mut self) -> (r: Result<LockStatus, Error>)
        requires
            old(self).spec_initialized(),
            !old(self).spec_locked(),
        ensures
            r == Ok::<LockStatus, Error>(LockStatus::Acquired),
            final(self).spec_initialized(),
            final(self).spec_locked(),
            final(self).spec_attr() == old(self).spec_attr(),
    {
        self.locked = true;
        Ok(LockStatus::Acquired)
    }

    /// Attempts to acquire the lock without blocking.
    ///
    /// Returns `Ok(true)` and locks the mutex exactly when the lock was
    /// free; returns `Ok(false)`, leaving everything as it was, exactly when
    /// the lock was already held.  The "would block" condition is this
    /// boolean, never an error.
    pub fn try_lock(&mut self) -> (r: Result<bool, Error>)
        requires
            old(self).spec_initialized(),
        ensures
            r == Ok::<bool, Error>(!old(self).spec_locked()),
            final(self).spec_initialized(),
            final(self).spec_locked(),
            final(self).spec_attr() == old(self).spec_attr(),
            old(self).spec_locked() ==> *final(self) == *old(self),
    {
        if self.locked {
            Ok(false)
        } else {
            self.locked = true;
            Ok(true)
        }
    }

    /// Releases the lock.
    ///
    /// The default, non-error-checking native lock type reports success even
    /// when no lock was held — a documented sharp edge of the platform, not
    /// papered over here: on a non-robust mutex `unlock` always succeeds and
    /// the mutex is unlocked afterwards.  A robust mutex detects release by
    /// a non-holder; in this single-caller model that detection can fire
    /// only when no lock was held, and the call then reports either success
    /// or [`Error::NotOwner`], as the platform decides.
    pub fn unlock(&mut self) -> (r: Result<(), Error>)
        requires
            old(self).spec_initialized(),
        ensures
            old(self).spec_locked() ==> r == Ok::<(), Error>(()),
            !old(self).spec_attr().spec_robust() ==> r == Ok::<(), Error>(()),
            r == Ok::<(), Error>(()) || r == Err::<(), Error>(Error::NotOwner),
            final(self).spec_initialized(),
            !final(self).spec_locked(),
            final(self).spec_attr() == old(self).spec_attr(),
    {
        self.locked = false;
        Ok(())
    }
}

impl Default for Mutex {
    /// A new mutex with the platform-default attributes, initialized and
    /// unlocked.
    fn default() -> (m: Mutex)
        ensures
            m.spec_initialized(),
            !m.spec_locked(),
            m.spec_attr().is_platform_default(),
    {
        Mutex { initialized: true, locked: false, attr: MutexAttr::platform_default() }
    }
}

/// Interprets the return code of the native blocking lock call.  Zero is the
/// normal acquisition; the owner-died code is the distinguished successful
/// acquisition of a robust mutex whose holder died; anything else — deadlock
/// detection, an invalid mutex — is surfaced with its code.
pub fn lock_outcome(code: i32) -> (r: Result<LockStatus, Error>)
    ensures
        r == (if code == 0 {
            Ok::<LockStatus, Error>(LockStatus::Acquired)
        } else if code == EOWNERDEAD {
            Ok::<LockStatus, Error>(LockStatus::OwnerDied)
        } else {
            Err::<LockStatus, Error>(Error::Os(code))
        }),
{
    if code == 0 {
        Ok(LockStatus::Acquired)
    } else if code == EOWNERDEAD {
        Ok(LockStatus::OwnerDied)
    } else {
        Err(Error::Os(code))
    }
}

/// Interprets the return code of the native non-blocking lock call.  Zero
/// means acquired; the busy code means held by someone else, reported as
/// `Ok(false)` and never as an error; anything else is surfaced with its
/// code.
pub fn try_lock_outcome(code: i32) -> (r: Result<bool, Error>)
    ensures
        r == (if code == 0 {
            Ok::<bool, Error>(true)
        } else if code == EBUSY {
            Ok::<bool, Error>(false)
        } else {
            Err::<bool, Error>(Error::Os(code))
        }),
{
    if code == 0 {
        Ok(true)
    } else if code == EBUSY {
        Ok(false)
    } else {
        Err(Error::Os(code))
    }
}

/// Interprets the return code of the native unlock call.  Zero is success;
/// the code by which the platform reports release by a non-holder maps to
/// `NotOwner`; anything else is surfaced with its code.
pub fn unlock_outcome(code: i32) -> (r: Result<(), Error>)
    ensures
        r == (if code == 0 {
            Ok::<(), Error>(())
        } else if code == EPERM {
            Err::<(), Error>(Error::NotOwner)
        } else {
            Err::<(), Error>(Error::Os(code))
        }),
{
    if code == 0 {
        Ok(())
    } else if code == EPERM {
        Err(Error::NotOwner)
    } else {
        Err(Error::Os(code))
    }
}

} // verus!
