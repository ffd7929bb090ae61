//! Opaque object handles and the two interfaces the host runtime implements:
//! the native objects themselves and the capability entries invoked on them.

use vstd::prelude::*;

verus! {

/// A non-owning reference to a registered object, passed across the boundary
/// as a raw address.  The registry stores and returns handles but never
/// allocates or frees the memory they point to; ownership stays with whoever
/// created the object.
#[derive(Clone, Copy, PartialEq, Eq, Structural, Debug, Hash)]
pub struct Handle {
    /// The raw address of the object on the host side.
    pub addr: u64,
}

/// A native object that can be registered on a farm.  The host runtime
/// implements this for each of its object kinds; the registry itself never
/// calls these methods, it only routes handles to capability entries.
pub trait Animal {
    /// The name the object answers to.
    fn get_name(&self) -> String;

    /// The object's one capability: respond to a message.
    fn speak(&self, msg: String) -> String;
}

/// An invocable entry of a capability table, supplied by the host at
/// registry-creation time.  The dispatch driver calls `call` with the handle
/// of the object the capability is invoked on and the invocation payload.
/// What happens inside the entry is the host's business: an `Err` is
/// surfaced to the caller as `CapabilityInvocationFailed`, never swallowed.
pub trait CapabilityEntry {
    /// Invoke the capability on the object behind `target` with `payload`.
    fn call(&self, target: Handle, payload: &str) -> Result<String, String>;
}

} // verus!
