use vstd::prelude::*;
use std::collections::HashSet;
use vstd::std_specs::iter::IteratorSpec;

verus! {

broadcast use vstd::std_specs::hash::group_hash_axioms;

/// `list` holds each member of `s` exactly once.
pub open spec fn lists_members(s: Set<u64>, list: Seq<u64>) -> bool {
    list.no_duplicates() && list.to_set() == s
}

/// The members of `s`, each once, in the set's iteration order.
pub fn members(s: &HashSet<u64>) -> (list: Vec<u64>)
    ensures
        lists_members(s@, list@),
        list@.len() == s@.len(),
{
    let mut list: Vec<u64> = Vec::new();
    let ghost all: Seq<u64> = s.iter().remaining().unref();
    proof {
        assert forall|i: int, j: int| 0 <= i < j < all.len() implies all[i] != all[j] by {
            assert(s.iter().remaining()[i] != s.iter().remaining()[j]);
        }
    }
    for x in it: s.iter()
        invariant
            it.seq().unref() == all,
            list@ == all.take(it.index() as int),
    {
        proof {
            assert(all.take(it.index() as int + 1) == all.take(it.index() as int).push(*x));
        }
        list.push(*x);
    }
    proof {
        assert(all.take(all.len() as int) == all);
    }
    list
}

/// Empties `s` and hands back its members, each once.
pub fn take_members(s: &mut HashSet<u64>) -> (list: Vec<u64>)
    ensures
        final(s)@ == Set::<u64>::empty(),
        lists_members(old(s)@, list@),
        list@.len() == old(s)@.len(),
{
    let list = members(s);
    s.clear();
    list
}

} // verus!
