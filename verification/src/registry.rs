//! The registry lifecycle manager and the dispatch driver.
//!
//! A registry — a farm of object handles plus the capability table it was
//! created with — lives in a slot of a [`RegistryStore`] and is addressed
//! across the boundary by a [`RegistryToken`].  A registry is created by one
//! explicit call and destroyed by exactly one explicit call; every other
//! operation borrows it for the duration of that call only.  Slots are never
//! reused, so a token whose registry was destroyed stays dead forever and
//! every later operation on it reports `UseAfterDestroy` instead of touching
//! freed state.

use vstd::prelude::*;

use crate::animal::CapabilityEntry;
use crate::animal::Handle;
use crate::errors::RegistryError;
use crate::farm::Farm;
use crate::table::CapabilityTable;

verus! {

/// The stable, non-owning reference to one registry in a store.  Tokens are
/// minted by `create_registry`, index a slot that is never reused, and are
/// borrowed — never consumed — by every other operation.
#[derive(Clone, Copy, PartialEq, Eq, Structural, Debug)]
pub struct RegistryToken {
    idx: usize,
}

impl RegistryToken {
    /// The slot the token addresses.
    pub closed spec fn id(&self) -> nat {
        self.idx as nat
    }
}

/// One registry: the handle farm together with the capability table supplied
/// at creation, which is never mutated afterwards.
struct Registry<E> {
    farm: Farm,
    table: CapabilityTable<E>,
}

/// The explicitly destroyed store that owns every registry.  The host keeps
/// one store for the lifetime of the process and reaches registries in it
/// only through tokens.
pub struct RegistryStore<E> {
    slots: Vec<Option<Registry<E>>>,
}

impl<E> RegistryStore<E> {
    /// How many tokens the store has ever minted.
    pub closed spec fn token_count(&self) -> nat {
        self.slots@.len()
    }

    /// True while the registry behind `token` exists: after its creation and
    /// before its destruction.
    pub closed spec fn live(&self, token: RegistryToken) -> bool {
        token.id() < self.slots@.len() && self.slots@[token.id() as int] is Some
    }

    /// The name-to-handle mapping of the registry behind `token`.
    pub closed spec fn farm_at(&self, token: RegistryToken) -> Map<Seq<char>, Handle> {
        if token.id() < self.slots@.len() {
            match self.slots@[token.id() as int] {
                Some(reg) => reg.farm@,
                None => Map::empty(),
            }
        } else {
            Map::empty()
        }
    }

    /// The capability table of the registry behind `token`.
    pub closed spec fn table_at(&self, token: RegistryToken) -> Map<Seq<char>, E> {
        if token.id() < self.slots@.len() {
            match self.slots@[token.id() as int] {
                Some(reg) => reg.table@,
                None => Map::empty(),
            }
        } else {
            Map::empty()
        }
    }

    /// An empty store: no token ever minted.
    pub fn new() -> (store: RegistryStore<E>)
        ensures
            store.token_count() == 0,
            forall|t: RegistryToken| !store.live(t),
    {
        RegistryStore { slots: Vec::new() }
    }

    /// Creates a registry bound to `table` and returns the fresh token that
    /// addresses it.  The token's slot was never used before, and every
    /// existing registry — live or destroyed — is untouched.
    pub fn create_registry(&mut self, table: CapabilityTable<E>) -> (token: RegistryToken)
        ensures
            token.id() == old(self).token_count(),
            final(self).token_count() == old(self).token_count() + 1,
            final(self).live(token),
            final(self).farm_at(token) == Map::<Seq<char>, Handle>::empty(),
            final(self).table_at(token) == table@,
            preserves_other_registries(*old(self), *final(self), token),
    {
        let idx = self.slots.len();
        let farm = Farm::new();
        self.slots.push(Some(Registry { farm, table }));
        RegistryToken { idx }
    }

    /// Inserts or overwrites the mapping for `name` in the registry behind
    /// `token`; takes no ownership of the object behind `handle`.  On a
    /// destroyed or never-minted token it reports `UseAfterDestroy` and
    /// touches nothing.
    pub fn register_object(&mut self, token: RegistryToken, name: String, handle: Handle) -> (r:
        Result<(), RegistryError>)
        ensures
            ({
                if old(self).live(token) {
                    &&& r == Ok::<(), RegistryError>(())
                    &&& final(self).live(token)
                    &&& final(self).farm_at(token) == old(self).farm_at(token).insert(
                        name@,
                        handle,
                    )
                    &&& final(self).table_at(token) == old(self).table_at(token)
                    &&& preserves_other_registries(*old(self), *final(self), token)
                } else {
                    &&& r == Err::<(), RegistryError>(RegistryError::UseAfterDestroy)
                    &&& store_unchanged(*old(self), *final(self))
                }
            }),
    {
        if token.idx >= self.slots.len() {
            return Err(RegistryError::UseAfterDestroy);
        }
        let slot = &mut self.slots[token.idx];
        match slot {
            Some(reg) => {
                reg.farm.add_animal(name, handle);
                Ok(())
            },
            None => Err(RegistryError::UseAfterDestroy),
        }
    }

    /// Removes the mapping for `name` in the registry behind `token`.  An
    /// absent name reports `NotFound` and an invalid token `UseAfterDestroy`;
    /// in both cases nothing is touched.
    pub fn unregister_object(&mut self, token: RegistryToken, name: &str) -> (r: Result<
        (),
        RegistryError,
    >)
        ensures
            ({
                if !old(self).live(token) {
                    &&& r == Err::<(), RegistryError>(RegistryError::UseAfterDestroy)
                    &&& store_unchanged(*old(self), *final(self))
                } else if !old(self).farm_at(token).contains_key(name@) {
                    &&& r == Err::<(), RegistryError>(RegistryError::NotFound)
                    &&& store_unchanged(*old(self), *final(self))
                } else {
                    &&& r == Ok::<(), RegistryError>(())
                    &&& final(self).live(token)
                    &&& final(self).farm_at(token) == old(self).farm_at(token).remove(name@)
                    &&& final(self).table_at(token) == old(self).table_at(token)
                    &&& preserves_other_registries(*old(self), *final(self), token)
                }
            }),
    {
        if token.idx >= self.slots.len() {
            return Err(RegistryError::UseAfterDestroy);
        }
        let slot = &mut self.slots[token.idx];
        match slot {
            Some(reg) => {
                match reg.farm.lookup(name) {
                    Some(_) => {
                        reg.farm.remove_animal(name);
                        Ok(())
                    },
                    None => Err(RegistryError::NotFound),
                }
            },
            None => Err(RegistryError::UseAfterDestroy),
        }
    }

    /// Destroys the registry behind `token`.  Destruction happens exactly
    /// once per token: the second destroy, like every other operation on a
    /// destroyed token, reports `UseAfterDestroy`, and the slot is never
    /// reused, so the token can never come back to life.
    pub fn destroy_registry(&mut self, token: RegistryToken) -> (r: Result<(), RegistryError>)
        ensures
            ({
                if old(self).live(token) {
                    &&& r == Ok::<(), RegistryError>(())
                    &&& !final(self).live(token)
                    &&& preserves_other_registries(*old(self), *final(self), token)
                } else {
                    &&& r == Err::<(), RegistryError>(RegistryError::UseAfterDestroy)
                    &&& store_unchanged(*old(self), *final(self))
                }
            }),
    {
        if token.idx >= self.slots.len() {
            return Err(RegistryError::UseAfterDestroy);
        }
        let slot = &mut self.slots[token.idx];
        match slot {
            Some(_) => {
                *slot = None;
                Ok(())
            },
            None => Err(RegistryError::UseAfterDestroy),
        }
    }

    /// The dispatch driver: looks `object_name` up in the registry behind
    /// `token`, resolves `capability_name` in its table, and calls the
    /// resolved entry once with the object's handle and the payload.  On a
    /// miss it reports which of the two names failed and calls no entry; it
    /// never mutates the registry.  The entry call is synchronous, and a
    /// failure inside the entry propagates as `CapabilityInvocationFailed`
    /// through [`complete_invocation`].
    pub fn invoke_capability(
        &self,
        token: RegistryToken,
        object_name: &str,
        capability_name: &str,
        payload: &str,
    ) -> (r: Result<String, RegistryError>) where E: CapabilityEntry
        ensures
            ({
                if !self.live(token) {
                    r == Err::<String, RegistryError>(RegistryError::UseAfterDestroy)
                } else if !self.farm_at(token).contains_key(object_name@) {
                    r matches Err(RegistryError::ObjectNotFound(n)) && n@ == object_name@
                } else if !self.table_at(token).contains_key(capability_name@) {
                    r matches Err(RegistryError::UnknownCapability(n)) && n@ == capability_name@
                } else {
                    (r matches Ok(_)) || (r matches Err(
                        RegistryError::CapabilityInvocationFailed(_),
                    ))
                }
            }),
    {
        if token.idx >= self.slots.len() {
            return Err(RegistryError::UseAfterDestroy);
        }
        match &self.slots[token.idx] {
            None => Err(RegistryError::UseAfterDestroy),
            Some(reg) => {
                match reg.farm.lookup(object_name) {
                    None => Err(RegistryError::ObjectNotFound(object_name.to_owned())),
                    Some(handle) => {
                        match reg.table.resolve(capability_name) {
                            Err(e) => Err(e),
                            Ok(entry) => complete_invocation(entry.call(handle, payload)),
                        }
                    },
                }
            },
        }
    }
}

/// True when `post` holds exactly the registries of `pre`, with the one
/// behind `changed` allowed to differ: no token is minted or revived, and no
/// other registry's farm or table moves.
pub open spec fn preserves_other_registries<E>(
    pre: RegistryStore<E>,
    post: RegistryStore<E>,
    changed: RegistryToken,
) -> bool {
    &&& post.token_count() == pre.token_count() || (post.token_count() == pre.token_count() + 1
        && changed.id() == pre.token_count())
    &&& forall|t: RegistryToken|
        #![auto]
        t.id() != changed.id() && t.id() < pre.token_count() ==> {
            &&& (post.live(t) <==> pre.live(t))
            &&& post.farm_at(t) == pre.farm_at(t)
            &&& post.table_at(t) == pre.table_at(t)
        }
}

/// True when `post` is observably the same store as `pre`.
pub open spec fn store_unchanged<E>(pre: RegistryStore<E>, post: RegistryStore<E>) -> bool {
    &&& post.token_count() == pre.token_count()
    &&& forall|t: RegistryToken|
        #![auto]
        {
            &&& (post.live(t) <==> pre.live(t))
            &&& post.farm_at(t) == pre.farm_at(t)
            &&& post.table_at(t) == pre.table_at(t)
        }
}

/// Law: destruction is final.  A token whose slot was once minted and is dead
/// stays dead across every operation of the store: each operation's contract
/// preserves the registries of all other tokens
/// ([`preserves_other_registries`]), and the one token an operation may
/// change is either left dead by it (destroy) or shares no slot with the dead
/// token — fresh tokens always take a slot beyond every token minted before.
/// Together with each operation's `UseAfterDestroy` clause, a destroyed
/// token's every later use reports `UseAfterDestroy`.
pub proof fn lemma_dead_token_stays_dead<E>(
    pre: RegistryStore<E>,
    post: RegistryStore<E>,
    dead: RegistryToken,
    changed: RegistryToken,
)
    requires
        dead.id() < pre.token_count(),
        !pre.live(dead),
        preserves_other_registries(pre, post, changed),
        changed.id() == dead.id() ==> !post.live(changed),
    ensures
        !post.live(dead),
{
    if changed.id() == dead.id() {
        assert(post.live(dead) == post.live(changed));
    }
}

/// Turns what a capability entry communicated into the driver's result: a
/// success passes through untouched, and a failure is wrapped as
/// `CapabilityInvocationFailed` rather than swallowed.
pub fn complete_invocation(outcome: Result<String, String>) -> (r: Result<String, RegistryError>)
    ensures
        outcome matches Ok(msg) ==> r == Ok::<String, RegistryError>(msg),
        outcome matches Err(reason) ==> r matches Err(
            RegistryError::CapabilityInvocationFailed(m),
        ) && m == reason,
{
    match outcome {
        Ok(msg) => Ok(msg),
        Err(reason) => Err(RegistryError::CapabilityInvocationFailed(reason)),
    }
}

} // verus!
