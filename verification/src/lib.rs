//! The verified logic of a process-aware mutual-exclusion primitive built on
//! the platform's native (pthread) locks.
//!
//! The native lock calls themselves cannot be verified: they are unsafe
//! foreign calls whose state lives in the kernel and, for process-shared
//! mutexes, in memory mapped by several address spaces.  Everything around
//! those calls is ordinary logic, and it lives here with full contracts:
//!
//! * the closed set of priority protocols and its lossless integer encoding
//!   ([`protocol`]),
//! * the logical attribute object — process-shared, robust, protocol — with
//!   its setters, getters and defaults ([`attr`]),
//! * the interpretation of every native return code as a result of the
//!   library's error taxonomy ([`errors`], [`attr`], [`mutex`]),
//! * the mutex lifecycle and lock-state model that the native calls
//!   implement ([`mutex`]).
//!
//! The thin raw layer that makes the actual foreign calls consumes these
//! functions unchanged: it encodes attribute values with the encoders here,
//! hands every return code to the outcome functions here, and so contains no
//! decision of its own.

pub mod attr;
pub mod errors;
pub mod mutex;
pub mod protocol;

pub use attr::MutexAttr;
pub use errors::Error;
pub use mutex::LockStatus;
pub use mutex::Mutex;
pub use protocol::Protocol;
