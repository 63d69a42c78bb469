//! Resolutions: the concrete outcome of matching a spec against a
//! packument, and the package unit handed to metadata/tarball retrieval.

use vstd::prelude::*;
use crate::package_spec::PackageSpec;

verus! {

/// The result of version selection: a chosen version plus the artifact
/// location needed to retrieve it. Only the registry-backed variant is
/// handled by this fetcher; others exist so that handing one to the wrong
/// backend is an explicit contract violation, not a silent assumption.
#[derive(Debug, PartialEq, Eq)]
pub enum PackageResolution {
    Npm { version: String, tarball: String },
    Dir { path: String },
}

/// The unit passed to metadata and tarball retrieval once a spec has been
/// resolved to one specific version: the originating spec plus the chosen
/// resolution.
#[derive(Debug, PartialEq, Eq)]
pub struct Package {
    pub from: PackageSpec,
    pub resolved: PackageResolution,
}

/// The version string of a registry-backed resolution.
pub open spec fn spec_npm_version(r: PackageResolution) -> String
    recommends
        r is Npm,
{
    match r {
        PackageResolution::Npm { version, .. } => version,
        PackageResolution::Dir { path } => path,
    }
}

/// The tarball URL of a registry-backed resolution.
pub open spec fn spec_npm_tarball(r: PackageResolution) -> String
    recommends
        r is Npm,
{
    match r {
        PackageResolution::Npm { tarball, .. } => tarball,
        PackageResolution::Dir { path } => path,
    }
}

} // verus!
