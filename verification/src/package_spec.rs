//! How a dependency was requested: by registry name, by alias to another
//! spec, or by source kinds this fetcher does not handle.

use vstd::prelude::*;

verus! {

/// A caller-supplied description of a desired dependency.
///
/// `Npm` resolves via a registry; `Alias` carries the logical name the
/// consumer sees plus the real spec to fetch. `Dir` and `Git` exist so that
/// the registry fetcher can reject them explicitly instead of
/// mis-dispatching.
#[derive(Debug, PartialEq, Eq)]
pub enum PackageSpec {
    Npm { scope: Option<String>, name: String },
    Alias { name: String, package: Box<PackageSpec> },
    Dir { path: String },
    Git { url: String },
}

/// The logical name a consumer sees for a spec, when the registry fetcher
/// can name it at all.
pub open spec fn spec_display_name(s: PackageSpec) -> Option<Seq<char>> {
    match s {
        PackageSpec::Npm { name, .. } => Some(name@),
        PackageSpec::Alias { name, .. } => Some(name@),
        PackageSpec::Dir { .. } => None,
        PackageSpec::Git { .. } => None,
    }
}

/// The spec whose packument must actually be fetched: an alias is unwrapped
/// once to its target, anything else stands for itself.
pub open spec fn spec_target(s: PackageSpec) -> PackageSpec {
    match s {
        PackageSpec::Alias { package, .. } => *package,
        _ => s,
    }
}

/// The (scope, name) pair a registry lookup would use for a spec, if the
/// spec (after alias unwrapping) is registry-backed at all.
pub open spec fn spec_registry_request(s: PackageSpec) -> Option<(Option<Seq<char>>, Seq<char>)> {
    match spec_target(s) {
        PackageSpec::Npm { scope, name } => Some((opt_string_view(scope), name@)),
        _ => None,
    }
}

/// View of an optional owned string as an optional character sequence.
pub open spec fn opt_string_view(o: Option<String>) -> Option<Seq<char>> {
    match o {
        Some(s) => Some(s@),
        None => None,
    }
}

} // verus!
