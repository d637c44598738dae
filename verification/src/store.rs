use crate::entry::CachedEntry;
use crate::entry::EntryView;
use std::sync::Arc;
use vstd::prelude::*;

verus! {

/// The cache store: `moka`'s synchronous cache, a bounded concurrent map
/// whose eviction policy (capacity-driven) is its own affair.
#[verifier::external_type_specification]
#[verifier::external_body]
#[verifier::reject_recursive_types(K)]
#[verifier::reject_recursive_types(V)]
#[verifier::reject_recursive_types(S)]
pub struct ExCache<K, V, S>(moka::sync::Cache<K, V, S>);

/// The store as this library instantiates it: identifiers name entries, and
/// each entry is held behind a shared handle so that hits are cheap.
pub type Store = moka::sync::Cache<String, Arc<CachedEntry>>;

/// What the cache currently holds: the map of entries that a lookup at this
/// state would serve, keyed by resource identifier. The store may shed any
/// of these at any operation (capacity eviction), so the contracts below
/// only ever bound the contents from above.
pub uninterp spec fn cache_contents(cache: Store) -> Map<Seq<char>, EntryView>;

/// The capacity bound the store was created with. It never changes over the
/// store's life. A bound of zero disables the store outright, so only a
/// positive bound obliges it to retain a freshly written entry.
pub uninterp spec fn cache_bound(cache: Store) -> u64;

/// Relies on `moka::sync::Cache::new`: a freshly constructed cache, bounded
/// by `max_capacity`, holds no entries.
#[verifier::external_body]
pub(crate) fn cache_new(max_capacity: u64) -> (cache: Store)
    ensures
        cache_contents(cache) =~= Map::empty(),
        cache_bound(cache) == max_capacity,
{
    moka::sync::Cache::new(max_capacity)
}

/// Relies on `moka::sync::Cache::get`: it returns a clone of the value held
/// for the key, or nothing when no entry for the key is held; the lookup
/// reads the table before any housekeeping the call itself may run. A lookup
/// never adds entries; housekeeping run during the call may evict some.
#[verifier::external_body]
pub(crate) fn cache_get(cache: &mut Store, id: &String) -> (r: Option<Arc<CachedEntry>>)
    ensures
        cache_contents(*final(cache)).submap_of(cache_contents(*old(cache))),
        cache_bound(*final(cache)) == cache_bound(*old(cache)),
        r matches Some(e) ==> cache_contents(*old(cache)).contains_pair(id@, e@),
        r is None ==> !cache_contents(*old(cache)).dom().contains(id@),
{
    cache.get(id)
}

/// Relies on `moka::sync::Cache::insert`: it writes the new pair into the
/// hash table before it returns, replacing any previous value for the key,
/// and the admission and eviction work it queues is never applied within the
/// same call (the call's own op is queued only after any housekeeping it
/// runs, and an older queued op cannot remove a fresher entry — the entry
/// generation would not match). So with a positive bound the cache holds the
/// new pair when `insert` returns, though a later operation may still evict
/// it; with a bound of zero the store is disabled and holds nothing. Entries
/// under other keys are at most evicted, never changed.
#[verifier::external_body]
pub(crate) fn cache_insert(cache: &mut Store, id: &String, e: &Arc<CachedEntry>)
    ensures
        cache_contents(*final(cache)).submap_of(cache_contents(*old(cache)).insert(id@, e@)),
        cache_bound(*final(cache)) == cache_bound(*old(cache)),
        cache_bound(*old(cache)) > 0 ==> cache_contents(*final(cache)).contains_pair(id@, e@),
{
    cache.insert(id.clone(), e.clone());
}

} // verus!
