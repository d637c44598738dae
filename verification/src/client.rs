use crate::entry::CachedEntry;
use crate::entry::EntryView;
use crate::store::Store;
use crate::store::cache_bound;
use crate::store::cache_contents;
use crate::store::cache_get;
use crate::store::cache_insert;
use crate::store::cache_new;
use freedom_config::Config;
use std::sync::Arc;
use vstd::prelude::*;

verus! {

/// The configuration the upstream client works from; this library only
/// carries it, opaque, between the caller and the upstream.
#[verifier::external_type_specification]
#[verifier::external_body]
pub struct ExConfig(freedom_config::Config);

/// What a client operation can fail with. The cache itself never fails: any
/// error surfaced here came from the upstream, unchanged.
#[derive(Clone, Copy, Debug, PartialEq, Eq, Structural)]
pub enum ClientError {
    /// The upstream could not be reached, or its response could not be read.
    Transport,
    /// A write payload could not be encoded for the upstream.
    Serialization,
}

/// A client that caches reads. It exposes the upstream client's operation
/// surface; reads are served from a bounded in-memory store when an entry
/// for the identifier is held and delegated upstream otherwise, with the
/// fetched result then filling the store. Deletes and writes pass through
/// untouched, and never disturb what is cached.
///
/// The upstream call itself is the caller's to perform: a read begins with
/// [`CachingClient::begin_read`], and on a miss the upstream's outcome is
/// handed to [`CachingClient::finish_read`].
pub struct CachingClient {
    cache: Store,
    config: Config,
}

impl CachingClient {
    /// The entries the cache currently holds, as a map from resource
    /// identifier to the (payload, status) pair stored for it.
    pub closed spec fn cached(&self) -> Map<Seq<char>, EntryView> {
        cache_contents(self.cache)
    }

    /// The configuration this client carries for its upstream.
    pub closed spec fn config_state(&self) -> Config {
        self.config
    }

    /// The capacity bound the cache was created with. It never changes; a
    /// positive bound obliges the cache to retain each fresh fill, a zero
    /// bound disables the store and every read goes upstream.
    pub closed spec fn capacity(&self) -> u64 {
        cache_bound(self.cache)
    }

    /// A fresh client caches nothing; every first read must go upstream.
    pub fn new(config: Config, max_capacity: u64) -> (client: CachingClient)
        ensures
            client.cached() =~= Map::empty(),
            client.capacity() == max_capacity,
            client.config_state() == config,
    {
        CachingClient { cache: cache_new(max_capacity), config }
    }

    /// Serve a read from the cache when possible. A hit returns exactly the
    /// stored entry — whatever its status code, success or not — and calls
    /// for no upstream work. A miss means the cache holds nothing for `id`:
    /// the caller fetches upstream and hands the outcome to `finish_read`.
    /// Nothing is ever added to the cache here, and the configuration is
    /// untouched.
    pub fn begin_read(&mut self, id: &String) -> (hit: Option<Arc<CachedEntry>>)
        ensures
            final(self).cached().submap_of(old(self).cached()),
            final(self).capacity() == old(self).capacity(),
            final(self).config_state() == old(self).config_state(),
            hit matches Some(e) ==> old(self).cached().contains_pair(id@, e@),
            hit is None ==> !old(self).cached().dom().contains(id@),
    {
        cache_get(&mut self.cache, id)
    }

    /// Complete a read that missed the cache, given the upstream's outcome.
    /// A successful fetch fills the cache under `id`, unconditionally: with
    /// a positive capacity the entry is then held, so the next read of `id`
    /// hits, and the store never serves anything else for `id` than that
    /// entry whole. The caller receives a shared handle to the very entry
    /// fetched, whatever its status code. A failed fetch leaves no trace:
    /// the client is exactly as it was, and the error is passed on unchanged.
    pub fn finish_read(&mut self, id: &String, fetched: Result<CachedEntry, ClientError>) -> (r:
        Result<Arc<CachedEntry>, ClientError>)
        ensures
            final(self).capacity() == old(self).capacity(),
            final(self).config_state() == old(self).config_state(),
            fetched matches Ok(e) ==> final(self).cached().submap_of(
                old(self).cached().insert(id@, e@),
            ),
            fetched matches Ok(e) ==> (old(self).capacity() > 0 ==> final(self).cached(
            ).contains_pair(id@, e@)),
            fetched matches Ok(e) ==> r matches Ok(h) && h@ == e@,
            fetched matches Err(f) ==> *final(self) == *old(self) && (r matches Err(g) && g == f),
    {
        match fetched {
            Ok(e) => {
                let handle = Arc::new(e);
                cache_insert(&mut self.cache, id, &handle);
                Ok(handle)
            },
            Err(f) => Err(f),
        }
    }

    /// A delete passes through to the upstream untouched by the cache: the
    /// identifier is forwarded as given, and no cache entry is created,
    /// changed or removed — an entry cached for `id` stays served as before.
    pub fn delete(&mut self, id: String) -> (forward: String)
        ensures
            *final(self) == *old(self),
            forward == id,
    {
        id
    }

    /// A write passes through to the upstream untouched by the cache: the
    /// identifier and the message are forwarded as given — the upstream, not
    /// this client, serializes the message — and no cache entry is created,
    /// changed or removed.
    pub fn post<S>(&mut self, id: String, msg: S) -> (forward: (String, S))
        ensures
            *final(self) == *old(self),
            forward.0 == id && forward.1 == msg,
    {
        (id, msg)
    }

    /// Read access to the configuration; the cache plays no part in it.
    pub fn config(&self) -> (r: &Config)
        ensures
            *r == self.config_state(),
    {
        &self.config
    }

    /// Write access to the configuration. Whatever the caller does through
    /// the returned reference changes the configuration alone: the cached
    /// entries stay exactly as they were.
    pub fn config_mut(&mut self) -> (r: &mut Config)
        ensures
            *r == old(self).config_state(),
            final(self).config_state() == *final(r),
            final(self).cached() == old(self).cached(),
            final(self).capacity() == old(self).capacity(),
    {
        &mut self.config
    }
}

/// Law: after a miss-fill for `id` that the store kept, a read of `id` is a
/// hit and serves the byte-identical entry — payload and status code alike,
/// whether the status marks success or not — so the second read makes zero
/// upstream calls. (The store may evict between the two reads; this speaks
/// of the states where it did not.)
pub proof fn lemma_filled_read_hits(cached: Map<Seq<char>, EntryView>, id: Seq<char>, e: EntryView)
    ensures
        cached.insert(id, e).dom().contains(id),
        cached.insert(id, e)[id] == e,
{
}

/// Law: a failed read changes nothing, so a later read of the identifier it
/// missed on misses again and retries upstream — no phantom failure is ever
/// served from the cache.
pub proof fn lemma_failed_read_retries(
    before: Map<Seq<char>, EntryView>,
    after: Map<Seq<char>, EntryView>,
    id: Seq<char>,
)
    requires
        !before.dom().contains(id),
        after == before,
    ensures
        !after.dom().contains(id),
{
}

/// Law: when two reads of one uncached identifier overlap, each fills the
/// cache with its own upstream result and the last fill wins: the entry then
/// served is the second result whole, never a blend, while entries under
/// other identifiers are not disturbed by either fill.
pub proof fn lemma_last_fill_wins(
    cached: Map<Seq<char>, EntryView>,
    id: Seq<char>,
    first: EntryView,
    second: EntryView,
)
    ensures
        cached.insert(id, first).insert(id, second).dom().contains(id),
        cached.insert(id, first).insert(id, second)[id] == second,
        forall|other: Seq<char>|
            other != id && cached.dom().contains(other) ==> cached.insert(id, first).insert(
                id,
                second,
            )[other] == cached[other],
{
}

/// Law: two hits for one identifier against one cache state serve one entry:
/// the two handles hold the same payload and status, so decoding either
/// yields the same value and neither caller pays a refetch.
pub proof fn lemma_hits_agree(
    cached: Map<Seq<char>, EntryView>,
    id: Seq<char>,
    e1: EntryView,
    e2: EntryView,
)
    requires
        cached.contains_pair(id, e1),
        cached.contains_pair(id, e2),
    ensures
        e1 == e2,
{
}

} // verus!
