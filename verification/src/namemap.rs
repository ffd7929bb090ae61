//! The mathematical model shared by the farm and the capability table: both
//! are name-keyed mappings kept as vectors of `(String, value)` pairs.  The
//! abstraction function [`map_of`] folds such a vector into a `Map` in which
//! a later pair with the same name overwrites an earlier one.

use vstd::prelude::*;

verus! {

/// The mapping a pair vector denotes: pairs are folded front to back, so the
/// latest pair with a given name wins.
pub open spec fn map_of<V>(s: Seq<(String, V)>) -> Map<Seq<char>, V>
    decreases s.len(),
{
    if s.len() == 0 {
        Map::empty()
    } else {
        map_of(s.drop_last()).insert(s.last().0@, s.last().1)
    }
}

/// The pair vector with every pair named `name` taken out.
pub open spec fn remove_name<V>(s: Seq<(String, V)>, name: Seq<char>) -> Seq<(String, V)>
    decreases s.len(),
{
    if s.len() == 0 {
        Seq::empty()
    } else if s.last().0@ == name {
        remove_name(s.drop_last(), name)
    } else {
        remove_name(s.drop_last(), name).push(s.last())
    }
}

/// Taking a name out of the pair vector takes it out of the denoted map and
/// changes nothing else.
pub proof fn lemma_map_of_remove_name<V>(s: Seq<(String, V)>, name: Seq<char>)
    ensures
        map_of(remove_name(s, name)) =~= map_of(s).remove(name),
    decreases s.len(),
{
    if s.len() == 0 {
    } else {
        lemma_map_of_remove_name(s.drop_last(), name);
        if s.last().0@ == name {
            assert(map_of(s).remove(name) =~= map_of(s.drop_last()).remove(name));
        } else {
            let q = remove_name(s.drop_last(), name);
            assert(q.push(s.last()).drop_last() =~= q);
            assert(map_of(remove_name(s, name)) == map_of(q).insert(s.last().0@, s.last().1));
            assert(map_of(s.drop_last()).remove(name).insert(s.last().0@, s.last().1)
                =~= map_of(s).remove(name));
        }
    }
}

/// A pair at `i` whose name nothing after it repeats is the one the denoted
/// map holds for that name.
pub proof fn lemma_map_of_last_match<V>(s: Seq<(String, V)>, i: int)
    requires
        0 <= i < s.len(),
        forall|j: int| i < j < s.len() ==> s[j].0@ != s[i].0@,
    ensures
        map_of(s).contains_key(s[i].0@),
        map_of(s)[s[i].0@] == s[i].1,
    decreases s.len(),
{
    if i == s.len() - 1 {
    } else {
        lemma_map_of_last_match(s.drop_last(), i);
    }
}

/// A name no pair carries is absent from the denoted map.
pub proof fn lemma_map_of_no_match<V>(s: Seq<(String, V)>, name: Seq<char>)
    requires
        forall|j: int| 0 <= j < s.len() ==> s[j].0@ != name,
    ensures
        !map_of(s).contains_key(name),
    decreases s.len(),
{
    if s.len() == 0 {
    } else {
        lemma_map_of_no_match(s.drop_last(), name);
    }
}

/// The index of the last pair named `name`, scanned back to front so that the
/// pair found is the one the denoted map holds.
pub fn find_last<V>(entries: &Vec<(String, V)>, name: &str) -> (r: Option<usize>)
    ensures
        match r {
            Some(i) => {
                &&& i < entries@.len()
                &&& entries@[i as int].0@ == name@
                &&& map_of(entries@).contains_key(name@)
                &&& map_of(entries@)[name@] == entries@[i as int].1
            },
            None => !map_of(entries@).contains_key(name@),
        },
{
    let key: String = name.to_owned();
    let mut i: usize = entries.len();
    while i > 0
        invariant
            i <= entries@.len(),
            key@ == name@,
            forall|j: int| i <= j < entries@.len() ==> entries@[j].0@ != name@,
        decreases i,
    {
        i = i - 1;
        if entries[i].0 == key {
            proof {
                lemma_map_of_last_match(entries@, i as int);
            }
            return Some(i);
        }
    }
    proof {
        lemma_map_of_no_match(entries@, name@);
    }
    None
}

/// The pair vector with every pair named `name` taken out, rebuilt in place.
pub fn remove_entries<V>(entries: Vec<(String, V)>, name: &str) -> (r: Vec<(String, V)>)
    ensures
        r@ == remove_name(entries@, name@),
{
    let key: String = name.to_owned();
    let ghost orig: Seq<(String, V)> = entries@;
    let mut rest: Vec<(String, V)> = entries;
    let mut out: Vec<(String, V)> = Vec::new();
    while rest.len() > 0
        invariant
            key@ == name@,
            remove_name(orig, name@) == remove_name(rest@, name@) + out@,
        decreases rest.len(),
    {
        let ghost before: Seq<(String, V)> = rest@;
        let pair = rest.pop().unwrap();
        if pair.0 == key {
            proof {
                assert(remove_name(before, name@) + out@ =~= remove_name(rest@, name@) + out@);
            }
        } else {
            let ghost out_before: Seq<(String, V)> = out@;
            out.insert(0, pair);
            proof {
                assert(remove_name(before, name@) + out_before =~= remove_name(rest@, name@)
                    + out@);
            }
        }
    }
    proof {
        assert(remove_name(orig, name@) =~= out@);
    }
    out
}

} // verus!
