use std::sync::Arc;
use vstd::prelude::*;

verus! {

/// The mathematical value of a cached entry: the exact bytes the upstream
/// returned for an identifier, together with the status code it came with.
pub ghost struct EntryView {
    pub payload: Seq<u8>,
    pub status: u16,
}

/// One cached response: the byte payload and the status code that the
/// upstream client returned for a resource identifier, kept verbatim.
///
/// An entry is immutable once stored; the cache hands out shared handles
/// (`Arc<CachedEntry>`) to it, so a hit never copies the payload.
#[derive(Clone, Debug)]
pub struct CachedEntry {
    pub payload: Vec<u8>,
    pub status: u16,
}

impl View for CachedEntry {
    type V = EntryView;

    open spec fn view(&self) -> EntryView {
        EntryView { payload: self.payload@, status: self.status }
    }
}

impl CachedEntry {
    pub fn new(payload: Vec<u8>, status: u16) -> (r: CachedEntry)
        ensures
            r@ == (EntryView { payload: payload@, status }),
    {
        CachedEntry { payload, status }
    }
}

/// Relies on std's `Arc::unwrap_or_clone`: the sole outstanding handle gives
/// up its value directly; when other handles are live the value is cloned
/// instead, and `CachedEntry`'s derived clone copies both fields. Either way
/// the caller receives the handle's entry unchanged, and never an error.
#[verifier::external_body]
pub fn entry_into_inner(handle: Arc<CachedEntry>) -> (r: CachedEntry)
    ensures
        r@ == handle@,
{
    Arc::unwrap_or_clone(handle)
}

} // verus!
