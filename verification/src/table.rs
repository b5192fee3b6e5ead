use vstd::prelude::*;
use std::collections::HashMap;
use vstd::std_specs::iter::IteratorSpec;

verus! {

broadcast use vstd::std_specs::hash::group_hash_axioms;

/// `handles` holds the handle of each key of `m` once: it is the handles of
/// some listing of the keys of `m` in which each key appears exactly once.
pub open spec fn lists_handles(m: Map<u128, u64>, handles: Seq<u64>) -> bool {
    exists|keys: Seq<u128>|
        {
            &&& keys.no_duplicates()
            &&& keys.to_set() == m.dom()
            &&& keys.len() == handles.len()
            &&& forall|i: int| 0 <= i < keys.len() ==> #[trigger] handles[i] == m[keys[i]]
        }
}

/// What a listing of the handles of a map says: one handle for each key, the
/// handle of every key appears, and every handle listed is one of the map's.
pub proof fn lemma_lists_handles(m: Map<u128, u64>, handles: Seq<u64>)
    requires
        m.dom().finite(),
        lists_handles(m, handles),
    ensures
        handles.len() == m.dom().len(),
        forall|k: u128| m.contains_key(k) ==> handles.contains(#[trigger] m[k]),
        forall|i: int| 0 <= i < handles.len() ==> m.contains_value(#[trigger] handles[i]),
{
    let keys = choose|keys: Seq<u128>|
        {
            &&& keys.no_duplicates()
            &&& keys.to_set() == m.dom()
            &&& keys.len() == handles.len()
            &&& forall|i: int| 0 <= i < keys.len() ==> #[trigger] handles[i] == m[keys[i]]
        };
    keys.unique_seq_to_set();
    assert forall|k: u128| m.contains_key(k) implies handles.contains(#[trigger] m[k]) by {
        assert(keys.to_set().contains(k));
        let i = choose|i: int| 0 <= i < keys.len() && keys[i] == k;
        assert(handles[i] == m[k]);
    }
    assert forall|i: int| 0 <= i < handles.len() implies m.contains_value(#[trigger] handles[i]) by {
        assert(keys.to_set().contains(keys[i]));
        assert(m.contains_key(keys[i]) && m[keys[i]] == handles[i]);
    }
}

/// The handles of `m`, one for each key, in the map's iteration order.
pub fn handles(m: &HashMap<u128, u64>) -> (handles: Vec<u64>)
    ensures
        lists_handles(m@, handles@),
{
    let mut handles: Vec<u64> = Vec::new();
    let iter = m.iter();
    let ghost entries: Seq<(u128, u64)> = iter.remaining().unref();
    let ghost keys: Seq<u128> = entries.map_values(|e: (u128, u64)| e.0);
    proof {
        assert forall|i: int, j: int| 0 <= i < j < keys.len() implies keys[i] != keys[j] by {
            let v = iter.remaining();
            if keys[i] == keys[j] {
                assert(m@.contains_key(*v[i].0) && m@.contains_key(*v[j].0));
                assert(*v[i].1 == *v[j].1);
                assert(v[i] == v[j]);
                assert(v.no_duplicates());
            }
        }
        assert forall|k: u128| #[trigger] keys.to_set().contains(k) == m@.dom().contains(k) by {
            if m@.contains_key(k) {
                assert(m.iter().remaining().contains((&k, &m@[k])));
                let i = choose|i: int| 0 <= i < entries.len() && m.iter().remaining()[i] == (&k, &m@[k]);
                assert(keys[i] == k);
            }
            if keys.to_set().contains(k) {
                let i = choose|i: int| 0 <= i < keys.len() && keys[i] == k;
                assert(m@.contains_key(*m.iter().remaining()[i].0));
            }
        }
        assert(keys.to_set() =~= m@.dom());
    }
    for e in it: iter
        invariant
            it.seq().unref() == entries,
            keys == entries.map_values(|e: (u128, u64)| e.0),
            forall|i: int| 0 <= i < entries.len() ==> m@.contains_key(entries[i].0) && m@[entries[i].0] == entries[i].1,
            handles@.len() == it.index(),
            forall|i: int| 0 <= i < it.index() ==> #[trigger] handles@[i] == entries[i].1,
    {
        handles.push(*e.1);
    }
    proof {
        assert(keys.no_duplicates());
        assert forall|i: int| 0 <= i < keys.len() implies #[trigger] handles@[i] == m@[keys[i]] by {
            assert(m@[entries[i].0] == entries[i].1);
        }
    }
    handles
}

/// Empties `m` and hands back its handles, one for each key it held.
pub fn take_handles(m: &mut HashMap<u128, u64>) -> (handles: Vec<u64>)
    ensures
        final(m)@ == Map::<u128, u64>::empty(),
        lists_handles(old(m)@, handles@),
{
    let handles = handles(m);
    m.clear();
    handles
}

} // verus!
