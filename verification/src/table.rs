//! The capability table: an immutable-after-construction mapping from
//! capability name to an invocable entry, supplied once by the host when a
//! registry is created.  Every name resolves to exactly one entry; an unknown
//! name is a distinct failure, never a silent no-op.

use vstd::prelude::*;

use crate::errors::RegistryError;
use crate::namemap::lemma_map_of_remove_name;
use crate::namemap::map_of;
use crate::namemap::remove_name;
use crate::namemap::find_last;
use crate::namemap::remove_entries;

verus! {

/// A name-keyed table of capability entries.  The host builds it with
/// [`CapabilityTable::bind`] and hands it to registry creation, after which
/// no operation mutates it: resolution is a pure read.
pub struct CapabilityTable<E> {
    entries: Vec<(String, E)>,
}

impl<E> View for CapabilityTable<E> {
    type V = Map<Seq<char>, E>;

    /// The table abstractly is a map from capability names to entries.
    closed spec fn view(&self) -> Map<Seq<char>, E> {
        map_of(self.entries@)
    }
}

impl<E> CapabilityTable<E> {
    /// An empty table.
    pub fn new() -> (table: CapabilityTable<E>)
        ensures
            table@ == Map::<Seq<char>, E>::empty(),
    {
        CapabilityTable { entries: Vec::new() }
    }

    /// Binds `name` to `entry`, overwriting any earlier binding of the same
    /// name, so that every name resolves to exactly one entry.
    pub fn bind(&mut self, name: String, entry: E)
        ensures
            final(self)@ == old(self)@.insert(name@, entry),
    {
        let ghost before: Seq<(String, E)> = self.entries@;
        let mut entries: Vec<(String, E)> = Vec::new();
        core::mem::swap(&mut entries, &mut self.entries);
        let mut entries = remove_entries(entries, name.as_str());
        proof {
            lemma_map_of_remove_name(before, name@);
        }
        entries.push((name, entry));
        proof {
            assert(remove_name(before, name@).push((name, entry)).drop_last() =~= remove_name(
                before,
                name@,
            ));
            assert(map_of(before).remove(name@).insert(name@, entry) =~= map_of(before).insert(
                name@,
                entry,
            ));
        }
        self.entries = entries;
    }

    /// Returns the entry bound to `name`, or signals `UnknownCapability`
    /// carrying the requested name.  Resolution mutates nothing.
    pub fn resolve(&self, name: &str) -> (r: Result<&E, RegistryError>)
        ensures
            match r {
                Ok(entry) => self@.contains_key(name@) && *entry == self@[name@],
                Err(e) => {
                    &&& !self@.contains_key(name@)
                    &&& e matches RegistryError::UnknownCapability(n) && n@ == name@
                },
            },
    {
        match find_last(&self.entries, name) {
            Some(i) => Ok(&self.entries[i].1),
            None => Err(RegistryError::UnknownCapability(name.to_owned())),
        }
    }
}

} // verus!
