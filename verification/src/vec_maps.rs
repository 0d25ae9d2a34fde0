//! The maps from identifiers to definitions that a session definition holds:
//! `vec_map::VecMap`, keyed by channel or process identifier.
//!
//! What is stated here of `VecMap` is read from its source: a map is a vector
//! of optional values indexed by key; `new` is empty, `insert` fills the
//! slot of its key and hands back the value that it held, `get` reads the slot
//! of its key, and `keys` visits the filled slots in ascending order.

use vstd::prelude::*;
use vec_map::VecMap;
use crate::channel;
use crate::process;

verus! {

/// `vec_map::VecMap`, opaque to the proofs.
#[verifier::external_type_specification]
#[verifier::external_body]
#[verifier::reject_recursive_types(V)]
pub struct ExVecMap<V>(VecMap<V>);

/// The largest key that these maps are given: keys are the indices of the
/// variants of an identifier enum, and a larger key would have `insert`
/// allocate a vector beyond what it can hold.
pub const MAX_KEY: usize = 0xffff_ffff;

/// What a map of channel definitions holds, each definition by its value.
pub uninterp spec fn channel_def_entries(m: VecMap<channel::Def>) -> Map<usize, channel::DefView>;

/// What a map of process definitions holds, each definition by its value.
pub uninterp spec fn process_def_entries(m: VecMap<process::Def>) -> Map<usize, process::DefView>;

/// The keys of a map in ascending order, each once.
pub open spec fn ascending_keys(keys: Seq<usize>, dom: Set<usize>) -> bool {
    &&& forall|i: int, j: int| 0 <= i < j < keys.len() ==> keys[i] < keys[j]
    &&& forall|k: usize| dom.contains(k) <==> keys.contains(k)
}

/// The keys of a finite set of keys in ascending order.
pub open spec fn sorted_keys(dom: Set<usize>) -> Seq<usize> {
    choose|s: Seq<usize>| ascending_keys(s, dom)
}

/// There is one ascending sequence of the keys of a set.
pub proof fn lemma_ascending_keys_unique(s1: Seq<usize>, s2: Seq<usize>, dom: Set<usize>)
    requires
        ascending_keys(s1, dom),
        ascending_keys(s2, dom),
    ensures
        s1 == s2,
    decreases s1.len(),
{
    if s1.len() == 0 {
        if s2.len() > 0 {
            assert(s2.contains(s2[0]));
            assert(dom.contains(s2[0]));
            assert(false);
        }
        assert(s1 =~= s2);
    } else {
        assert(s1.contains(s1[0]));
        assert(s2.len() > 0) by {
            assert(dom.contains(s1[0]));
        }
        assert(s2.contains(s2[0]));
        let x = s1[0];
        assert(x == s2[0]) by {
            assert(s2.contains(x));
            assert(s1.contains(s2[0]));
            let i = choose|i: int| 0 <= i < s2.len() && s2[i] == x;
            let j = choose|j: int| 0 <= j < s1.len() && s1[j] == s2[0];
            assert(s2[0] <= s2[i]);
            assert(s1[0] <= s1[j]);
        }
        let t1 = s1.drop_first();
        let t2 = s2.drop_first();
        let rest = dom.remove(x);
        assert forall|k: usize| rest.contains(k) <==> t1.contains(k) by {
            if t1.contains(k) {
                let i = choose|i: int| 0 <= i < t1.len() && t1[i] == k;
                assert(s1[i + 1] == k);
                assert(s1.contains(k));
            }
            if rest.contains(k) {
                assert(s1.contains(k));
                let i = choose|i: int| 0 <= i < s1.len() && s1[i] == k;
                assert(i != 0);
                assert(t1[i - 1] == k);
            }
        }
        assert forall|k: usize| rest.contains(k) <==> t2.contains(k) by {
            if t2.contains(k) {
                let i = choose|i: int| 0 <= i < t2.len() && t2[i] == k;
                assert(s2[i + 1] == k);
                assert(s2.contains(k));
            }
            if rest.contains(k) {
                assert(s2.contains(k));
                let i = choose|i: int| 0 <= i < s2.len() && s2[i] == k;
                assert(i != 0);
                assert(t2[i - 1] == k);
            }
        }
        lemma_ascending_keys_unique(t1, t2, rest);
        assert(s1 =~= s2) by {
            assert forall|i: int| 0 <= i < s1.len() implies s1[i] == s2[i] by {
                if i > 0 {
                    assert(t1[i - 1] == t2[i - 1]);
                }
            }
        }
    }
}

/// An ascending sequence of the keys of a set is its sorted keys.
pub proof fn lemma_sorted_keys(s: Seq<usize>, dom: Set<usize>)
    requires
        ascending_keys(s, dom),
    ensures
        s == sorted_keys(dom),
{
    let t = sorted_keys(dom);
    assert(ascending_keys(t, dom));
    lemma_ascending_keys_unique(s, t, dom);
}

/// `VecMap::new` for channel definitions: an empty map.
#[verifier::external_body]
pub(crate) fn channel_def_map_new() -> (r: VecMap<channel::Def>)
    ensures
        channel_def_entries(r).dom() == Set::<usize>::empty(),
{
    VecMap::new()
}

/// `VecMap::insert` for channel definitions: the key now holds the value, the
/// other keys are unchanged, and the value that the key held comes back.
#[verifier::external_body]
pub(crate) fn channel_def_map_insert(m: &mut VecMap<channel::Def>, key: usize, value: channel::Def) -> (r:
    Option<channel::Def>)
    requires
        key <= MAX_KEY,
    ensures
        channel_def_entries(*final(m)) == channel_def_entries(*old(m)).insert(key, value@),
        r is Some <==> channel_def_entries(*old(m)).contains_key(key),
        r matches Some(v) ==> v@ == channel_def_entries(*old(m))[key],
{
    m.insert(key, value)
}

/// `VecMap::get` for channel definitions: the value that the key holds, if
/// any.
#[verifier::external_body]
pub(crate) fn channel_def_map_get(m: &VecMap<channel::Def>, key: usize) -> (r: Option<&channel::Def>)
    ensures
        r is Some <==> channel_def_entries(*m).contains_key(key),
        r matches Some(v) ==> v@ == channel_def_entries(*m)[key],
{
    m.get(key)
}

/// `VecMap::keys` for channel definitions, collected: the keys in ascending
/// order.
#[verifier::external_body]
pub(crate) fn channel_def_map_keys(m: &VecMap<channel::Def>) -> (r: Vec<usize>)
    ensures
        ascending_keys(r@, channel_def_entries(*m).dom()),
{
    m.keys().collect()
}

/// `VecMap::new` for process definitions: an empty map.
#[verifier::external_body]
pub(crate) fn process_def_map_new() -> (r: VecMap<process::Def>)
    ensures
        process_def_entries(r).dom() == Set::<usize>::empty(),
{
    VecMap::new()
}

/// `VecMap::insert` for process definitions: the key now holds the value, the
/// other keys are unchanged, and the value that the key held comes back.
#[verifier::external_body]
pub(crate) fn process_def_map_insert(m: &mut VecMap<process::Def>, key: usize, value: process::Def) -> (r:
    Option<process::Def>)
    requires
        key <= MAX_KEY,
    ensures
        process_def_entries(*final(m)) == process_def_entries(*old(m)).insert(key, value@),
        r is Some <==> process_def_entries(*old(m)).contains_key(key),
        r matches Some(v) ==> v@ == process_def_entries(*old(m))[key],
{
    m.insert(key, value)
}

/// `VecMap::get` for process definitions: the value that the key holds, if
/// any.
#[verifier::external_body]
pub(crate) fn process_def_map_get(m: &VecMap<process::Def>, key: usize) -> (r: Option<&process::Def>)
    ensures
        r is Some <==> process_def_entries(*m).contains_key(key),
        r matches Some(v) ==> v@ == process_def_entries(*m)[key],
{
    m.get(key)
}

/// `VecMap::keys` for process definitions, collected: the keys in ascending
/// order.
#[verifier::external_body]
pub(crate) fn process_def_map_keys(m: &VecMap<process::Def>) -> (r: Vec<usize>)
    ensures
        ascending_keys(r@, process_def_entries(*m).dom()),
{
    m.keys().collect()
}

} // verus!
