//! The closed set of priority-inversion-avoidance protocols a mutex can be
//! configured with, and its lossless native integer encoding.

use vstd::prelude::*;

verus! {

/// Native encoding of [`Protocol::PrioNone`] on Linux.
pub const PTHREAD_PRIO_NONE: i32 = 0;
/// Native encoding of [`Protocol::Inherit`] on Linux.
pub const PTHREAD_PRIO_INHERIT: i32 = 1;
/// Native encoding of [`Protocol::Protect`] on Linux.
pub const PTHREAD_PRIO_PROTECT: i32 = 2;

/// Priority-inversion-avoidance policy applied while a mutex is held.
///
/// The set is closed; a protocol is chosen once per attribute object and
/// round-trips losslessly through the native integer encoding
/// ([`lemma_protocol_round_trip`]).
#[derive(Clone, Copy, Debug, PartialEq, Eq, Structural)]
pub enum Protocol {
    /// No priority adjustment while the mutex is held.
    PrioNone,
    /// Priority inheritance: the holder runs at the highest priority among
    /// the waiters.
    Inherit,
    /// Priority ceiling: the holder runs at the ceiling priority configured
    /// for the mutex.
    Protect,
}

impl Protocol {
    /// The native integer this protocol is encoded as.
    pub open spec fn spec_to_raw(self) -> i32 {
        match self {
            Protocol::PrioNone => PTHREAD_PRIO_NONE,
            Protocol::Inherit => PTHREAD_PRIO_INHERIT,
            Protocol::Protect => PTHREAD_PRIO_PROTECT,
        }
    }

    /// The protocol a native integer decodes to, if any.
    pub open spec fn spec_from_raw(raw: i32) -> Option<Protocol> {
        if raw == PTHREAD_PRIO_NONE {
            Some(Protocol::PrioNone)
        } else if raw == PTHREAD_PRIO_INHERIT {
            Some(Protocol::Inherit)
        } else if raw == PTHREAD_PRIO_PROTECT {
            Some(Protocol::Protect)
        } else {
            None
        }
    }

    /// Encodes this protocol as the native integer the platform expects.
    pub fn to_raw(self) -> (r: i32)
        ensures
            r == self.spec_to_raw(),
    {
        match self {
            Protocol::PrioNone => PTHREAD_PRIO_NONE,
            Protocol::Inherit => PTHREAD_PRIO_INHERIT,
            Protocol::Protect => PTHREAD_PRIO_PROTECT,
        }
    }

    /// Decodes a native integer; `None` exactly on the integers that encode
    /// no protocol.
    pub fn from_raw(raw: i32) -> (r: Option<Protocol>)
        ensures
            r == Protocol::spec_from_raw(raw),
    {
        if raw == PTHREAD_PRIO_NONE {
            Some(Protocol::PrioNone)
        } else if raw == PTHREAD_PRIO_INHERIT {
            Some(Protocol::Inherit)
        } else if raw == PTHREAD_PRIO_PROTECT {
            Some(Protocol::Protect)
        } else {
            None
        }
    }
}

/// Law: every protocol round-trips losslessly through its native integer
/// encoding.
pub proof fn lemma_protocol_round_trip(p: Protocol)
    ensures
        Protocol::spec_from_raw(p.spec_to_raw()) == Some(p),
{
}

/// Law: on the integers that decode at all, decoding and re-encoding gives
/// the integer back, so the encoding is a bijection between the protocol set
/// and its three native integers.
pub proof fn lemma_raw_round_trip(raw: i32)
    requires
        Protocol::spec_from_raw(raw) is Some,
    ensures
        Protocol::spec_from_raw(raw) matches Some(p) && p.spec_to_raw() == raw,
{
}

} // verus!
