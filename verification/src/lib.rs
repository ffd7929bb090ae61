//! A cross-language capability registry: a native-side store that registers
//! opaque object handles under string names and dispatches named capabilities
//! on them through a caller-supplied capability table.
//!
//! The registry never owns a registered object: a [`Handle`](animal::Handle)
//! is a plain non-owning address, and whoever created the object keeps
//! ownership for its whole lifetime.  The registry itself is addressed across
//! the boundary by a [`RegistryToken`](registry::RegistryToken) into an
//! explicitly destroyed [`RegistryStore`](registry::RegistryStore).
//!
//! Mutating operations take the store by `&mut`, so all reads and writes of
//! one store are serialized; a host whose callers arrive concurrently puts
//! one lock around the store and holds it for the duration of each call.

use vstd::prelude::*;

pub mod animal;
pub mod encoding;
pub mod errors;
pub mod farm;
pub mod namemap;
pub mod registry;
pub mod table;

pub use animal::Animal;
pub use animal::CapabilityEntry;
pub use animal::Handle;
pub use errors::RegistryError;
pub use farm::Farm;
pub use registry::complete_invocation;
pub use registry::RegistryStore;
pub use registry::RegistryToken;
pub use table::CapabilityTable;

verus! {

/// The one capability a farm object is expected to answer: "speak".
pub open spec fn speak_capability() -> Seq<char> {
    "speak"@
}

/// Boundary operation: inserts or overwrites the mapping for `name`; never
/// fails and takes no ownership of the object behind `handle`.
pub fn add_animal(farm: &mut Farm, name: String, handle: Handle)
    ensures
        final(farm)@ == old(farm)@.insert(name@, handle),
{
    farm.add_animal(name, handle);
}

/// Boundary operation: removes the mapping for `animal_name` if present; a
/// no-op if absent.
pub fn remove_animal(farm: &mut Farm, animal_name: &str)
    ensures
        final(farm)@ == old(farm)@.remove(animal_name@),
{
    farm.remove_animal(animal_name);
}

/// Boundary operation: returns the handle registered under `animal_name`, or
/// `NotFound` if the name is absent.  The read is non-destructive — the entry
/// stays on the farm, so the call is repeatable — and an absent name is an
/// error value, never a panic.
pub fn get_animal(farm: &Farm, animal_name: &str) -> (r: Result<Handle, RegistryError>)
    ensures
        match r {
            Ok(handle) => farm@.contains_key(animal_name@) && farm@[animal_name@] == handle,
            Err(e) => !farm@.contains_key(animal_name@) && e == RegistryError::NotFound,
        },
{
    match farm.lookup(animal_name) {
        Some(handle) => Ok(handle),
        None => Err(RegistryError::NotFound),
    }
}

/// Boundary operation: a fresh, empty farm.
pub fn create_farm() -> (farm: Farm)
    ensures
        farm@ == Map::<Seq<char>, Handle>::empty(),
{
    Farm::new()
}

/// Boundary operation: dispatches the "speak" capability on the object
/// registered under `animal_name` in the registry behind `token`, passing
/// `message` as the payload.  A missing object or a table without "speak" is
/// a distinct error and calls no entry; a dead token is `UseAfterDestroy`.
pub fn native_speak<E: CapabilityEntry>(
    store: &RegistryStore<E>,
    token: RegistryToken,
    animal_name: &str,
    message: &str,
) -> (r: Result<String, RegistryError>)
    ensures
        ({
            if !store.live(token) {
                r == Err::<String, RegistryError>(RegistryError::UseAfterDestroy)
            } else if !store.farm_at(token).contains_key(animal_name@) {
                r matches Err(RegistryError::ObjectNotFound(n)) && n@ == animal_name@
            } else if !store.table_at(token).contains_key(speak_capability()) {
                r matches Err(RegistryError::UnknownCapability(n)) && n@ == speak_capability()
            } else {
                (r matches Ok(_)) || (r matches Err(RegistryError::CapabilityInvocationFailed(_)))
            }
        }),
{
    store.invoke_capability(token, animal_name, "speak", message)
}

} // verus!
