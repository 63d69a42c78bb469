//! General properties of the fetch layer, stated and proved over the same
//! spec functions the executable contracts use.

use vstd::prelude::*;
use crate::error::FetchError;
use crate::npm::{
    spec_default_registry, spec_lookup_scope, spec_packument_outcome, spec_pick_registry,
    FetcherView,
};
use crate::package_spec::{spec_display_name, spec_registry_request, spec_target, PackageSpec};
use crate::packument::Packument;

verus! {

/// Registry fallback: for an empty router table, every lookup — scoped or
/// not — yields the hard-coded default registry.
pub proof fn lemma_registry_fallback(scope: Option<Seq<char>>)
    ensures
        spec_pick_registry(Seq::empty(), scope) == spec_default_registry(),
{
}

/// Scope override: with a router table holding an empty-scope entry for
/// `a` and an entry for one named scope routed to `b`, that scope resolves
/// to `b`, while any other scope and the scopeless lookup fall back to
/// `a`.
pub proof fn lemma_scope_override(
    scoped: Seq<char>,
    a: Seq<char>,
    b: Seq<char>,
    other: Seq<char>,
)
    requires
        scoped != Seq::<char>::empty(),
        other != scoped,
        other != Seq::<char>::empty(),
    ensures
        spec_pick_registry(seq![(Seq::<char>::empty(), a), (scoped, b)], Some(scoped)) == b,
        spec_pick_registry(seq![(Seq::<char>::empty(), a), (scoped, b)], Some(other)) == a,
        spec_pick_registry(seq![(Seq::<char>::empty(), a), (scoped, b)], None) == a,
{
    let regs = seq![(Seq::<char>::empty(), a), (scoped, b)];
    let tail = seq![(scoped, b)];
    assert(regs.drop_first() =~= tail);
    assert(tail.drop_first() =~= Seq::<(Seq<char>, Seq<char>)>::empty());
    assert(spec_lookup_scope(Seq::<(Seq<char>, Seq<char>)>::empty(), other) is None);
    assert(spec_lookup_scope(tail, scoped) == Some(b));
    assert(spec_lookup_scope(tail, other) is None);
    assert(spec_lookup_scope(regs, scoped) == Some(b));
    assert(spec_lookup_scope(regs, other) is None);
    assert(spec_lookup_scope(regs, Seq::<char>::empty()) == Some(a));
}

/// One success is enough: after a packument retrieval for a scope and
/// name succeeds, a second retrieval for the same scope and name succeeds
/// with a packument equal to the first, and changes nothing in the
/// fetcher — the cache answers it.
pub proof fn lemma_second_retrieval_served_from_cache(
    pre: FetcherView,
    mid: FetcherView,
    post: FetcherView,
    scope: Option<Seq<char>>,
    name: Seq<char>,
    r1: Result<Packument, FetchError>,
    r2: Result<Packument, FetchError>,
)
    requires
        spec_packument_outcome(pre, mid, scope, name, r1),
        spec_packument_outcome(mid, post, scope, name, r2),
        r1 is Ok,
    ensures
        r2 is Ok,
        r1 matches Ok(p1) ==> (r2 matches Ok(p2) && p2@ == p1@),
        post == mid,
{
}

/// An alias resolves its target, not itself: the registry request directed
/// by an alias is exactly the one its target directs, while the display
/// name stays the alias's own.
pub proof fn lemma_alias_resolves_target(alias: PackageSpec)
    requires
        alias is Alias,
        spec_target(alias) is Npm,
    ensures
        spec_registry_request(alias) == spec_registry_request(spec_target(alias)),
        spec_display_name(alias) == (match alias {
            PackageSpec::Alias { name, .. } => Some(name@),
            _ => None,
        }),
{
}

} // verus!
