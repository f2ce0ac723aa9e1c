//! The search engine's best-known-ticks bookkeeping: a hash map from
//! state-equivalence keys (three fixed-point integers) to tick counts,
//! backed by a hashbrown hash map behind a small trusted surface.

use vstd::prelude::*;

verus! {

/// A hash map from deduplication keys to nonnegative counters.
///
/// The container itself is hashbrown's `HashMap`; Verus sees it only
/// through `map_entries` and the contracts below.
#[verifier::external_body]
pub struct StateMap {
    inner: hashbrown::HashMap<(i64, i64, i64), usize>,
}

/// What a `StateMap` holds: the key/value pairs of the underlying hash
/// map, as a mathematical map over plain integers.
pub uninterp spec fn map_entries(m: StateMap) -> Map<(int, int, int), int>;

/// The mathematical view of one key.
pub open spec fn key_view(k: (i64, i64, i64)) -> (int, int, int) {
    (k.0 as int, k.1 as int, k.2 as int)
}

/// Relies on hashbrown's `HashMap::new`: a freshly created map holds no
/// entries.
#[verifier::external_body]
pub fn new_state_map() -> (r: StateMap)
    ensures
        forall|k2: (int, int, int)| !map_entries(r).contains_key(k2),
{
    StateMap { inner: hashbrown::HashMap::new() }
}

impl StateMap {
    /// Relies on hashbrown's `HashMap::insert`: after the call the key
    /// maps to exactly this value and every other entry is unchanged
    /// (an existing value under the same key is replaced).
    #[verifier::external_body]
    pub fn insert(&mut self, k: (i64, i64, i64), v: usize)
        ensures
            map_entries(*final(self)) == map_entries(*old(self)).insert(key_view(k), v as int),
    {
        self.inner.insert(k, v);
    }

    /// Relies on hashbrown's `HashMap::get`: returns the value stored
    /// under the key exactly when one is present.
    #[verifier::external_body]
    pub fn get(&self, k: (i64, i64, i64)) -> (r: Option<usize>)
        ensures
            match r {
                Some(v) => map_entries(*self).contains_key(key_view(k)) && map_entries(*self)[
                    key_view(k)
                ] == v as int,
                None => !map_entries(*self).contains_key(key_view(k)),
            },
    {
        self.inner.get(&k).copied()
    }
}

/// Record a candidate best tick count for a key: the entry is written
/// only when it strictly improves on what the map already holds.
///
/// The last clause is the heart of the engine's bookkeeping discipline:
/// no call ever raises the recorded value of any key, so the best-known
/// tick count of every equivalence class is non-increasing over a whole
/// search run.
pub fn record_best(m: &mut StateMap, k: (i64, i64, i64), ticks: usize) -> (updated: bool)
    ensures
        updated == (!map_entries(*old(m)).contains_key(key_view(k)) || (ticks as int)
            < map_entries(*old(m))[key_view(k)]),
        updated ==> map_entries(*final(m)) == map_entries(*old(m)).insert(
            key_view(k),
            ticks as int,
        ),
        !updated ==> map_entries(*final(m)) == map_entries(*old(m)),
        forall|k2: (int, int, int)|
            map_entries(*old(m)).contains_key(k2) ==> map_entries(*final(m)).contains_key(k2)
                && map_entries(*final(m))[k2] <= map_entries(*old(m))[k2],
{
    let updated = match m.get(k) {
        Some(best) => ticks < best,
        None => true,
    };
    if updated {
        m.insert(k, ticks);
    }
    updated
}

} // verus!
