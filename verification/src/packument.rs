//! Packuments: the metadata document a registry returns for a package
//! name, mapping version strings to per-version metadata.

use vstd::prelude::*;
use crate::package_spec::opt_string_view;

verus! {

/// Per-version manifest fields, at minimum the version string and the
/// artifact location and integrity data when the registry supplies them.
#[derive(Debug, PartialEq, Eq)]
pub struct VersionMetadata {
    pub version: String,
    pub tarball: Option<String>,
    pub integrity: Option<String>,
    pub shasum: Option<String>,
}

/// Mathematical view of a [`VersionMetadata`].
pub struct VersionView {
    pub version: Seq<char>,
    pub tarball: Option<Seq<char>>,
    pub integrity: Option<Seq<char>>,
    pub shasum: Option<Seq<char>>,
}

impl View for VersionMetadata {
    type V = VersionView;

    open spec fn view(&self) -> VersionView {
        VersionView {
            version: self.version@,
            tarball: opt_string_view(self.tarball),
            integrity: opt_string_view(self.integrity),
            shasum: opt_string_view(self.shasum),
        }
    }
}

impl Clone for VersionMetadata {
    fn clone(&self) -> (res: Self)
        ensures
            res == *self,
    {
        VersionMetadata {
            version: self.version.clone(),
            tarball: clone_opt_string(&self.tarball),
            integrity: clone_opt_string(&self.integrity),
            shasum: clone_opt_string(&self.shasum),
        }
    }
}

/// Clones an optional string; the result is the very same value.
fn clone_opt_string(o: &Option<String>) -> (res: Option<String>)
    ensures
        res == *o,
{
    match o {
        Some(s) => Some(s.clone()),
        None => None,
    }
}

/// The metadata document for one package name. The version entries keep the
/// order the registry body presented them in; entry keys are unique within
/// one well-formed document, but nothing here depends on that.
#[derive(Debug, PartialEq, Eq)]
pub struct Packument {
    pub name: Option<String>,
    pub versions: Vec<VersionMetadata>,
}

/// Mathematical view of a [`Packument`].
pub struct PackumentView {
    pub name: Option<Seq<char>>,
    pub versions: Seq<VersionView>,
}

impl View for Packument {
    type V = PackumentView;

    open spec fn view(&self) -> PackumentView {
        PackumentView {
            name: opt_string_view(self.name),
            versions: self.versions@.map_values(|v: VersionMetadata| v@),
        }
    }
}

impl Clone for Packument {
    fn clone(&self) -> (res: Self)
        ensures
            res@ == self@,
    {
        let mut versions: Vec<VersionMetadata> = Vec::new();
        let n = self.versions.len();
        let mut i: usize = 0;
        while i < n
            invariant
                n == self.versions.len(),
                i <= n,
                versions@.len() == i,
                forall|j: int| 0 <= j < i ==> versions@[j] == self.versions@[j],
            decreases n - i,
        {
            versions.push(self.versions[i].clone());
            i = i + 1;
        }
        let res = Packument { name: clone_opt_string(&self.name), versions };
        proof {
            assert(res@.versions =~= self@.versions);
        }
        res
    }
}

/// First entry of `vs` whose version string is `wanted`, if any.
pub open spec fn spec_find_version(vs: Seq<VersionView>, wanted: Seq<char>) -> Option<VersionView>
    decreases vs.len(),
{
    if vs.len() == 0 {
        None
    } else if vs[0].version == wanted {
        Some(vs[0])
    } else {
        spec_find_version(vs.drop_first(), wanted)
    }
}

/// A found version entry carries the version string it was looked up by.
pub proof fn lemma_find_version_matches(vs: Seq<VersionView>, wanted: Seq<char>)
    ensures
        spec_find_version(vs, wanted) matches Some(v) ==> v.version == wanted,
    decreases vs.len(),
{
    if vs.len() != 0 {
        lemma_find_version_matches(vs.drop_first(), wanted);
    }
}

impl Packument {
    /// Looks up the entry for one version string, exactly as
    /// [`spec_find_version`] describes.
    pub fn version(&self, wanted: &String) -> (r: Option<&VersionMetadata>)
        ensures
            match r {
                Some(v) => spec_find_version(self@.versions, wanted@) == Some(v@),
                None => spec_find_version(self@.versions, wanted@) is None,
            },
    {
        let n = self.versions.len();
        let mut i: usize = 0;
        proof {
            assert(self@.versions.skip(0) =~= self@.versions);
        }
        while i < n
            invariant
                n == self.versions.len(),
                i <= n,
                spec_find_version(self@.versions, wanted@)
                    == spec_find_version(self@.versions.skip(i as int), wanted@),
            decreases n - i,
        {
            proof {
                assert(self@.versions.skip(i as int)[0] == self@.versions[i as int]);
                assert(self@.versions.skip(i as int).drop_first()
                    =~= self@.versions.skip(i + 1));
            }
            if self.versions[i].version == *wanted {
                return Some(&self.versions[i]);
            }
            i = i + 1;
        }
        proof {
            assert(self@.versions.skip(n as int).len() == 0);
        }
        None
    }
}

} // verus!
