//! Trusted boundary to dashmap: the concurrency-safe packument cache,
//! a mapping from metadata URL to previously retrieved packument.
//!
//! dashmap provides the lock-striped map that lets many simultaneous
//! readers and writers share the cache without an external lock; the
//! contracts here describe it as a map from URL to packument view, with
//! whole-value insertion and cloned reads.

use vstd::prelude::*;
use crate::packument::{Packument, PackumentView};

verus! {

#[verifier::external_type_specification]
#[verifier::external_body]
#[verifier::reject_recursive_types(K)]
#[verifier::reject_recursive_types(V)]
#[verifier::reject_recursive_types(S)]
pub struct ExDashMap<K, V, S>(dashmap::DashMap<K, V, S>);

/// What the cache holds: the packument stored under each metadata URL.
pub uninterp spec fn cache_model(m: dashmap::DashMap<String, Packument>) -> Map<Seq<char>, PackumentView>;

/// The contents of a cache with nothing in it.
pub open spec fn cache_empty() -> Map<Seq<char>, PackumentView> {
    Map::empty()
}

/// Relies on dashmap::DashMap::new: the new map is empty.
#[verifier::external_body]
pub fn cache_new() -> (r: dashmap::DashMap<String, Packument>)
    ensures
        cache_model(r) == cache_empty(),
{
    dashmap::DashMap::new()
}

/// Relies on dashmap::DashMap::get: returns the entry stored under `url`,
/// if any, as a clone of the stored packument.
#[verifier::external_body]
pub fn cache_get(m: &dashmap::DashMap<String, Packument>, url: &String) -> (r: Option<Packument>)
    ensures
        r is Some <==> cache_model(*m).contains_key(url@),
        r matches Some(p) ==> p@ == cache_model(*m)[url@],
{
    m.get(url).map(|e| e.value().clone())
}

/// Relies on dashmap::DashMap::insert: whole-value replacement of the
/// entry under `url`.
#[verifier::external_body]
pub fn cache_insert(m: &mut dashmap::DashMap<String, Packument>, url: &String, p: &Packument)
    ensures
        cache_model(*final(m)) == cache_model(*old(m)).insert(url@, p@),
{
    m.insert(url.clone(), p.clone());
}

} // verus!
