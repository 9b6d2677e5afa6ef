//! The mutex attribute object: the logical configuration — process-shared,
//! robust, priority protocol — that a mutex is initialized with, together
//! with the native encodings of the two boolean modes and the interpretation
//! of the native attribute calls' return codes.

use vstd::prelude::*;

use crate::errors::EINVAL;
use crate::errors::ENOTSUP;
use crate::errors::Error;
use crate::protocol::Protocol;

verus! {

/// Native encoding of a process-private attribute on Linux.
pub const PTHREAD_PROCESS_PRIVATE: i32 = 0;
/// Native encoding of a process-shared attribute on Linux.
pub const PTHREAD_PROCESS_SHARED: i32 = 1;
/// Native encoding of a non-robust ("stalling") attribute on Linux.
pub const PTHREAD_MUTEX_STALLED: i32 = 0;
/// Native encoding of a robust attribute on Linux.
pub const PTHREAD_MUTEX_ROBUST: i32 = 1;

/// The logical value of a mutex attribute object.
///
/// The native attribute structure is opaque; what it holds, as far as this
/// lock layer reads or writes it, is exactly these three fields.  The raw
/// layer materializes a value of this type into a native attribute object by
/// encoding each field with the encoders below and handing the integers to
/// the native setter calls; it owns the native object's allocation and
/// teardown, which is why the constructors here cannot themselves fail.
#[derive(Clone, Copy, Debug, PartialEq, Eq, Structural)]
pub struct MutexAttr {
    shared: bool,
    robust: bool,
    protocol: Protocol,
}

impl MutexAttr {
    /// Whether a mutex initialized with this attribute is visible across
    /// process boundaries.
    pub closed spec fn spec_shared(self) -> bool {
        self.shared
    }

    /// Whether a mutex initialized with this attribute recovers, rather than
    /// deadlocks, when its holder dies without unlocking.
    pub closed spec fn spec_robust(self) -> bool {
        self.robust
    }

    /// The priority-inversion-avoidance protocol of a mutex initialized with
    /// this attribute.
    pub closed spec fn spec_protocol(self) -> Protocol {
        self.protocol
    }

    /// This attribute value with the process-shared mode replaced.
    pub closed spec fn spec_with_shared(self, shared: bool) -> MutexAttr {
        MutexAttr { shared, ..self }
    }

    /// This attribute value with the robustness mode replaced.
    pub closed spec fn spec_with_robust(self, robust: bool) -> MutexAttr {
        MutexAttr { robust, ..self }
    }

    /// This attribute value with the priority protocol replaced.
    pub closed spec fn spec_with_protocol(self, protocol: Protocol) -> MutexAttr {
        MutexAttr { protocol, ..self }
    }

    /// The platform-default attribute value: process-private, non-robust, no
    /// priority protocol.
    pub open spec fn is_platform_default(self) -> bool {
        &&& !self.spec_shared()
        &&& !self.spec_robust()
        &&& self.spec_protocol() == Protocol::PrioNone
    }

    /// A new attribute object with the platform defaults.
    ///
    /// The native initialization call this mirrors can fail with
    /// [`Error::InitError`] on resource exhaustion; allocating the native
    /// object is the raw layer's step, so here construction always succeeds.
    /// The `Result` is kept so that callers are written against the full
    /// interface.
    pub fn new() -> (r: Result<MutexAttr, Error>)
        ensures
            r matches Ok(a) && a.is_platform_default(),
    {
        Ok(MutexAttr { shared: false, robust: false, protocol: Protocol::PrioNone })
    }

    /// The platform-default attribute value, directly.
    pub(crate) fn platform_default() -> (a: MutexAttr)
        ensures
            a.is_platform_default(),
    {
        MutexAttr { shared: false, robust: false, protocol: Protocol::PrioNone }
    }

    /// Queries the process-shared mode.
    pub fn get_shared(&self) -> (r: Result<bool, Error>)
        ensures
            r == Ok::<bool, Error>(self.spec_shared()),
    {
        Ok(self.shared)
    }

    /// Sets the process-shared mode, leaving the other fields as they were.
    pub fn set_shared(&mut self, shared: bool) -> (r: Result<(), Error>)
        ensures
            r == Ok::<(), Error>(()),
            *final(self) == old(self).spec_with_shared(shared),
            final(self).spec_shared() == shared,
            final(self).spec_robust() == old(self).spec_robust(),
            final(self).spec_protocol() == old(self).spec_protocol(),
    {
        self.shared = shared;
        Ok(())
    }

    /// Queries the robustness mode.
    pub fn get_robust(&self) -> (r: Result<bool, Error>)
        ensures
            r == Ok::<bool, Error>(self.spec_robust()),
    {
        Ok(self.robust)
    }

    /// Sets the robustness mode, leaving the other fields as they were.
    pub fn set_robust(&mut self, robust: bool) -> (r: Result<(), Error>)
        ensures
            r == Ok::<(), Error>(()),
            *final(self) == old(self).spec_with_robust(robust),
            final(self).spec_robust() == robust,
            final(self).spec_shared() == old(self).spec_shared(),
            final(self).spec_protocol() == old(self).spec_protocol(),
    {
        self.robust = robust;
        Ok(())
    }

    /// Queries the priority protocol.
    pub fn get_protocol(&self) -> (r: Result<Protocol, Error>)
        ensures
            r == Ok::<Protocol, Error>(self.spec_protocol()),
    {
        Ok(self.protocol)
    }

    /// Sets the priority protocol, leaving the other fields as they were.
    pub fn set_protocol(&mut self, protocol: Protocol) -> (r: Result<(), Error>)
        ensures
            r == Ok::<(), Error>(()),
            *final(self) == old(self).spec_with_protocol(protocol),
            final(self).spec_protocol() == protocol,
            final(self).spec_shared() == old(self).spec_shared(),
            final(self).spec_robust() == old(self).spec_robust(),
    {
        self.protocol = protocol;
        Ok(())
    }

    /// Encodes the process-shared mode as the native integer.
    pub fn shared_to_raw(shared: bool) -> (r: i32)
        ensures
            r == (if shared {
                PTHREAD_PROCESS_SHARED
            } else {
                PTHREAD_PROCESS_PRIVATE
            }),
    {
        if shared {
            PTHREAD_PROCESS_SHARED
        } else {
            PTHREAD_PROCESS_PRIVATE
        }
    }

    /// Encodes the robustness mode as the native integer.
    pub fn robust_to_raw(robust: bool) -> (r: i32)
        ensures
            r == (if robust {
                PTHREAD_MUTEX_ROBUST
            } else {
                PTHREAD_MUTEX_STALLED
            }),
    {
        if robust {
            PTHREAD_MUTEX_ROBUST
        } else {
            PTHREAD_MUTEX_STALLED
        }
    }
}

impl Default for MutexAttr {
    /// The default attribute object: the platform defaults with the
    /// process-shared mode set, so that a mutex built from it is safe to
    /// place in shared memory.
    fn default() -> (a: MutexAttr)
        ensures
            a.spec_shared() == true,
            a.spec_robust() == false,
            a.spec_protocol() == Protocol::PrioNone,
    {
        MutexAttr { shared: true, robust: false, protocol: Protocol::PrioNone }
    }
}

/// Law: attribute round trip.  Setting the process-shared mode, the
/// robustness mode and the protocol, starting from any attribute value, gives
/// an attribute whose getters report exactly the three values set.
pub proof fn lemma_attr_round_trip(a: MutexAttr, shared: bool, robust: bool, protocol: Protocol)
    ensures
        ({
            let b = a.spec_with_shared(shared).spec_with_robust(robust).spec_with_protocol(
                protocol,
            );
            &&& b.spec_shared() == shared
            &&& b.spec_robust() == robust
            &&& b.spec_protocol() == protocol
        }),
{
}

/// Interprets the return code of a native attribute setter or getter call.
/// Zero is success; the codes by which the platform rejects a mode it cannot
/// represent map to `Unsupported`; anything else is surfaced with its code.
pub fn attr_op_outcome(code: i32) -> (r: Result<(), Error>)
    ensures
        r == (if code == 0 {
            Ok::<(), Error>(())
        } else if code == EINVAL || code == ENOTSUP {
            Err::<(), Error>(Error::Unsupported)
        } else {
            Err::<(), Error>(Error::Os(code))
        }),
{
    if code == 0 {
        Ok(())
    } else if code == EINVAL || code == ENOTSUP {
        Err(Error::Unsupported)
    } else {
        Err(Error::Os(code))
    }
}

/// Interprets the outcome of the native process-shared getter: its return
/// code, and the integer it stored.  On success the mode is process-shared
/// exactly if the stored integer is the process-shared encoding.
pub fn get_shared_outcome(code: i32, raw: i32) -> (r: Result<bool, Error>)
    ensures
        r == (if code == 0 {
            Ok::<bool, Error>(raw == PTHREAD_PROCESS_SHARED)
        } else if code == EINVAL || code == ENOTSUP {
            Err::<bool, Error>(Error::Unsupported)
        } else {
            Err::<bool, Error>(Error::Os(code))
        }),
{
    match attr_op_outcome(code) {
        Ok(()) => Ok(raw == PTHREAD_PROCESS_SHARED),
        Err(e) => Err(e),
    }
}

/// Interprets the outcome of the native robustness getter, as
/// [`get_shared_outcome`] does for the process-shared getter.
pub fn get_robust_outcome(code: i32, raw: i32) -> (r: Result<bool, Error>)
    ensures
        r == (if code == 0 {
            Ok::<bool, Error>(raw == PTHREAD_MUTEX_ROBUST)
        } else if code == EINVAL || code == ENOTSUP {
            Err::<bool, Error>(Error::Unsupported)
        } else {
            Err::<bool, Error>(Error::Os(code))
        }),
{
    match attr_op_outcome(code) {
        Ok(()) => Ok(raw == PTHREAD_MUTEX_ROBUST),
        Err(e) => Err(e),
    }
}

/// Interprets the outcome of the native protocol getter.  On success the
/// stored integer is decoded; an integer outside the closed protocol set is
/// one this library cannot represent, and is reported as `Unsupported`.
pub fn get_protocol_outcome(code: i32, raw: i32) -> (r: Result<Protocol, Error>)
    ensures
        r == (if code == 0 {
            match Protocol::spec_from_raw(raw) {
                Some(p) => Ok::<Protocol, Error>(p),
                None => Err::<Protocol, Error>(Error::Unsupported),
            }
        } else if code == EINVAL || code == ENOTSUP {
            Err::<Protocol, Error>(Error::Unsupported)
        } else {
            Err::<Protocol, Error>(Error::Os(code))
        }),
{
    match attr_op_outcome(code) {
        Ok(()) => match Protocol::from_raw(raw) {
            Some(p) => Ok(p),
            None => Err(Error::Unsupported),
        },
        Err(e) => Err(e),
    }
}

} // verus!
