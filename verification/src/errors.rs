//! The error taxonomy of the registry.  Every boundary-facing operation
//! reports failure through one of these kinds; none aborts the process and
//! none leaves the registry partially mutated.

use vstd::prelude::*;

verus! {

/// The structured errors a boundary operation can signal.
#[derive(Clone, Debug)]
pub enum RegistryError {
    /// An object name was absent from the farm on a plain lookup or removal.
    NotFound,
    /// Dispatch was asked for an object name absent from the farm; carries
    /// the requested name.
    ObjectNotFound(String),
    /// Dispatch was asked for a capability name absent from the capability
    /// table; carries the requested name.
    UnknownCapability(String),
    /// A string crossing the boundary was not a null-terminated, valid UTF-8
    /// byte sequence.
    InvalidEncoding,
    /// An operation used a registry token after `destroy_registry`, or
    /// destroyed it twice.
    UseAfterDestroy,
    /// The invoked capability entry itself reported failure; wraps whatever
    /// the entry communicated.
    CapabilityInvocationFailed(String),
}

} // verus!
