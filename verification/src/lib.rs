//! A caching layer for a remote data-access client.
//!
//! Reads are served from a bounded in-memory store when an entry for the
//! requested identifier is held, and are otherwise delegated to the upstream
//! client, whose successful result then fills the store. Deletes and writes
//! pass through to the upstream untouched. The store itself is a `moka`
//! cache; what it holds is modelled as a map from identifiers to entries,
//! and every operation of the client is specified against that map.

mod client;
mod entry;
mod store;

pub use client::CachingClient;
pub use client::ClientError;
pub use client::lemma_failed_read_retries;
pub use client::lemma_filled_read_hits;
pub use client::lemma_hits_agree;
pub use client::lemma_last_fill_wins;
pub use entry::CachedEntry;
pub use entry::EntryView;
pub use entry::entry_into_inner;
