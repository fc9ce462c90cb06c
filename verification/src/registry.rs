//! The concurrent ordered map that every level of the registry keeps its
//! children in, and what the registry relies on of it.
//!
//! The map is shared: any thread may insert or remove while another reads.
//! So nothing here speaks of what the map holds. A call is answered from the
//! state the map is in at some moment of the call, and the next call may meet
//! another state. What is stated holds whatever that state is.

use crate::text::text_before;
use crossbeam_skiplist::SkipMap;
use std::sync::Arc;
use vstd::prelude::*;

verus! {

/// `SkipMap` of `crossbeam_skiplist`: an ordered map that threads share
/// without a lock.
#[verifier::external_type_specification]
#[verifier::external_body]
#[verifier::reject_recursive_types(K)]
#[verifier::reject_recursive_types(V)]
pub struct ExSkipMap<K, V>(SkipMap<K, V>);

/// Whether each number is smaller than every number after it.
pub open spec fn strictly_ascending(keys: Seq<u64>) -> bool {
    forall|i: int, j: int| 0 <= i < j < keys.len() ==> keys[i] < keys[j]
}

/// Whether each text comes before every text after it.
pub open spec fn texts_ascending(names: Seq<Seq<char>>) -> bool {
    forall|i: int, j: int| 0 <= i < j < names.len() ==> text_before(names[i], names[j])
}

/// The keys of entries keyed by numbers, in the entries' order.
pub open spec fn numbers_of<V>(pairs: Seq<(u64, Arc<V>)>) -> Seq<u64> {
    Seq::new(pairs.len(), |i: int| pairs[i].0)
}

/// The keys of entries keyed by texts, in the entries' order.
pub open spec fn names_of<V>(pairs: Seq<(String, Arc<V>)>) -> Seq<Seq<char>> {
    Seq::new(pairs.len(), |i: int| pairs[i].0@)
}

/// The texts that the strings hold, in the strings' order.
pub open spec fn texts_of(names: Seq<String>) -> Seq<Seq<char>> {
    Seq::new(names.len(), |i: int| names[i]@)
}

/// Makes another handle to the value with `Arc::clone`.
#[verifier::external_body]
pub(crate) fn share<V>(handle: &Arc<V>) -> (again: Arc<V>)
    ensures
        again == *handle,
{
    Arc::clone(handle)
}

/// Makes a map with `SkipMap::new`.
#[verifier::external_body]
pub(crate) fn empty_map<K, V>() -> (map: SkipMap<K, V>) {
    SkipMap::new()
}

/// Looks `key` up with `SkipMap::get` and clones the handle stored under it.
/// Whether the key is there is for the map to say.
#[verifier::external_body]
pub(crate) fn find<K: Ord, V>(map: &SkipMap<K, Arc<V>>, key: &K) -> (found: Option<Arc<V>>) {
    match map.get(key) {
        Some(entry) => Some(Arc::clone(entry.value())),
        None => None,
    }
}

/// Calls `SkipMap::get_or_insert`, which stores `candidate` under `key` unless
/// the key is taken, and clones the handle that the map then holds under the
/// key. Which of the two it is, is for the map to say.
#[verifier::external_body]
pub(crate) fn find_or_insert<K: Ord, V>(map: &SkipMap<K, Arc<V>>, key: K, candidate: Arc<V>) -> (kept: Arc<
    V,
>) {
    Arc::clone(map.get_or_insert(key, candidate).value())
}

/// Calls `SkipMap::remove` and clones the handle of the entry that it
/// removed, if it removed one. Whether the key was there is for the map to
/// say.
#[verifier::external_body]
pub(crate) fn discard<K: Ord + Send + 'static, V: Send + Sync + 'static>(
    map: &SkipMap<K, Arc<V>>,
    key: &K,
) -> (removed: Option<Arc<V>>) {
    match map.remove(key) {
        Some(entry) => Some(Arc::clone(entry.value())),
        None => None,
    }
}

/// Calls `SkipMap::len`: the number of entries, an estimate while other
/// threads insert or remove.
#[verifier::external_body]
pub(crate) fn entry_count<K, V>(map: &SkipMap<K, V>) -> (count: usize) {
    map.len()
}

/// Walks the map with `SkipMap::iter` and clones each entry met, key and
/// handle. Nothing is claimed of the order, which is the keys' own.
#[verifier::external_body]
pub(crate) fn entries<K: Ord + Clone, V>(map: &SkipMap<K, Arc<V>>) -> (pairs: Vec<(K, Arc<V>)>) {
    map.iter().map(|entry| (entry.key().clone(), Arc::clone(entry.value()))).collect()
}

/// Walks a map keyed by numbers with `SkipMap::iter` and clones each entry
/// met. The walk moves from each entry to one with a larger key, whatever
/// other threads do meanwhile, so the keys come out strictly ascending.
#[verifier::external_body]
pub(crate) fn numbered_entries<V>(map: &SkipMap<u64, Arc<V>>) -> (pairs: Vec<(u64, Arc<V>)>)
    ensures
        strictly_ascending(numbers_of(pairs@)),
{
    map.iter().map(|entry| (*entry.key(), Arc::clone(entry.value()))).collect()
}

/// Walks a map keyed by texts with `SkipMap::iter` and clones each entry met.
/// The walk moves from each entry to one with a larger key, whatever other
/// threads do meanwhile, and `String` orders texts by their bytes, which is
/// the order of their characters: the names come out strictly ascending.
#[verifier::external_body]
pub(crate) fn named_entries<V>(map: &SkipMap<String, Arc<V>>) -> (pairs: Vec<(String, Arc<V>)>)
    ensures
        texts_ascending(names_of(pairs@)),
{
    map.iter().map(|entry| (entry.key().clone(), Arc::clone(entry.value()))).collect()
}

/// Entries left in their order after some are taken out still ascend.
pub proof fn kept_names_ascend<V>(pairs: Seq<(String, Arc<V>)>, keep: spec_fn((String, Arc<V>)) -> bool)
    requires
        texts_ascending(names_of(pairs)),
    ensures
        texts_ascending(names_of(pairs.filter(keep))),
    decreases pairs.len(),
{
    reveal(Seq::filter);
    if pairs.len() > 0 {
        let before = pairs.drop_last();
        assert forall|i: int, j: int| 0 <= i < j < before.len() implies text_before(
            names_of(before)[i],
            names_of(before)[j],
        ) by {
            assert(text_before(names_of(pairs)[i], names_of(pairs)[j]));
        }
        kept_names_ascend(before, keep);
        let kept = before.filter(keep);
        if keep(pairs.last()) {
            assert forall|i: int| 0 <= i < kept.len() implies text_before(
                names_of(kept)[i],
                pairs.last().0@,
            ) by {
                assert(kept.contains(kept[i]));
                before.lemma_filter_contains_rev(keep, kept[i]);
                let at = choose|at: int| 0 <= at < before.len() && before[at] == kept[i];
                assert(text_before(names_of(pairs)[at], names_of(pairs)[pairs.len() - 1]));
            }
            assert forall|i: int, j: int| 0 <= i < j < kept.push(pairs.last()).len() implies text_before(
                names_of(kept.push(pairs.last()))[i],
                names_of(kept.push(pairs.last()))[j],
            ) by {
                if j < kept.len() {
                    assert(text_before(names_of(kept)[i], names_of(kept)[j]));
                } else {
                    assert(text_before(names_of(kept)[i], pairs.last().0@));
                }
            }
        }
    }
}

} // verus!
