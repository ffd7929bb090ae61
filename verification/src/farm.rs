//! The handle registry ("farm"): a mutable mapping from object name to an
//! opaque, non-owning [`Handle`].  Keys are unique in the denoted map;
//! registering a name that already exists overwrites the prior mapping and
//! never destroys the old object, because the farm owns no object at all.

use vstd::prelude::*;

use crate::animal::Handle;
use crate::namemap::lemma_map_of_remove_name;
use crate::namemap::map_of;
use crate::namemap::remove_name;
use crate::namemap::find_last;
use crate::namemap::remove_entries;

verus! {

/// The name-to-handle mapping of a registry.
pub struct Farm {
    animals: Vec<(String, Handle)>,
}

impl View for Farm {
    type V = Map<Seq<char>, Handle>;

    /// The farm abstractly is a map from object names to handles.
    closed spec fn view(&self) -> Map<Seq<char>, Handle> {
        map_of(self.animals@)
    }
}

impl Farm {
    /// An empty farm.
    pub fn new() -> (farm: Farm)
        ensures
            farm@ == Map::<Seq<char>, Handle>::empty(),
    {
        Farm { animals: Vec::new() }
    }

    /// Inserts or overwrites the mapping for `name`; never fails and takes no
    /// ownership of the object behind `handle`.
    pub fn add_animal(&mut self, name: String, handle: Handle)
        ensures
            final(self)@ == old(self)@.insert(name@, handle),
    {
        let ghost before: Seq<(String, Handle)> = self.animals@;
        let mut entries: Vec<(String, Handle)> = Vec::new();
        core::mem::swap(&mut entries, &mut self.animals);
        let mut entries = remove_entries(entries, name.as_str());
        proof {
            lemma_map_of_remove_name(before, name@);
        }
        entries.push((name, handle));
        proof {
            assert(remove_name(before, name@).push((name, handle)).drop_last() =~= remove_name(
                before,
                name@,
            ));
            assert(map_of(before).remove(name@).insert(name@, handle) =~= map_of(before).insert(
                name@,
                handle,
            ));
        }
        self.animals = entries;
    }

    /// Returns the handle currently mapped to `name`, or `None` if the name
    /// is absent.  Lookup borrows the farm: it never removes the entry, so it
    /// is idempotent and repeatable.
    pub fn lookup(&self, name: &str) -> (r: Option<Handle>)
        ensures
            match r {
                Some(handle) => self@.contains_key(name@) && self@[name@] == handle,
                None => !self@.contains_key(name@),
            },
    {
        match find_last(&self.animals, name) {
            Some(i) => Some(self.animals[i].1),
            None => None,
        }
    }

    /// Removes the mapping for `name` if present; a no-op if absent.
    pub fn remove_animal(&mut self, name: &str)
        ensures
            final(self)@ == old(self)@.remove(name@),
    {
        let ghost before: Seq<(String, Handle)> = self.animals@;
        let mut entries: Vec<(String, Handle)> = Vec::new();
        core::mem::swap(&mut entries, &mut self.animals);
        self.animals = remove_entries(entries, name);
        proof {
            lemma_map_of_remove_name(before, name@);
        }
    }
}

/// Law: after registering a handle under a name, looking the name up returns
/// exactly that handle, and keeps doing so however often lookup runs — lookup
/// mutates nothing — until the name is overwritten or unregistered; every
/// other name keeps its prior mapping.
pub proof fn lemma_register_then_lookup(
    farm: Map<Seq<char>, Handle>,
    name: Seq<char>,
    handle: Handle,
)
    ensures
        farm.insert(name, handle).contains_key(name),
        farm.insert(name, handle)[name] == handle,
        forall|other: Seq<char>|
            other != name ==> (farm.insert(name, handle).contains_key(other)
                <==> farm.contains_key(other)),
        forall|other: Seq<char>|
            other != name && farm.contains_key(other) ==> farm.insert(name, handle)[other]
                == farm[other],
{
}

/// Law: a second register with the same name overwrites the mapping — the
/// farm afterwards is exactly what one register of the second handle gives —
/// and the first handle is merely forgotten, never destroyed: the farm holds
/// plain non-owning handles, so the object behind the first one is untouched.
pub proof fn lemma_register_overwrites(
    farm: Map<Seq<char>, Handle>,
    name: Seq<char>,
    first: Handle,
    second: Handle,
)
    ensures
        farm.insert(name, first).insert(name, second) =~= farm.insert(name, second),
        farm.insert(name, first).insert(name, second)[name] == second,
{
}

} // verus!
