//! The registry-backed fetcher: scope-routed registry selection, the
//! packument cache, content negotiation, and version/tarball lookup.

use vstd::prelude::*;
use vstd::string::StringExecFns;
use crate::cache::{cache_empty, cache_get, cache_insert, cache_model, cache_new};
use crate::error::FetchError;
use crate::extract::{parse_packument, spec_parse_packument};
use crate::package_spec::{
    opt_string_view, spec_display_name, spec_registry_request, spec_target, PackageSpec,
};
use crate::packument::{
    lemma_find_version_matches, spec_find_version, Packument, PackumentView, VersionMetadata,
};
use crate::resolution::{spec_npm_tarball, spec_npm_version, Package, PackageResolution};
use crate::urls::{packument_url, spec_packument_url};

verus! {

/// The network collaborator: issues one GET and hands back the response
/// body, or a transport-level error message. Implementations decide
/// nothing about packuments; whatever they return, the fetcher's own
/// contracts say what happens with it.
pub trait Transport {
    /// GET `url` with the given Accept header, returning the body text.
    fn get(&self, url: &String, accept: &String) -> Result<String, String>;

    /// GET `url`, returning the raw body bytes.
    fn get_bytes(&self, url: &String) -> Result<Vec<u8>, String>;
}

/// View of a router table: scope and registry base URL of each entry, in
/// order.
pub open spec fn regs_view(rs: Seq<(String, String)>) -> Seq<(Seq<char>, Seq<char>)> {
    rs.map_values(|p: (String, String)| (p.0@, p.1@))
}

/// First entry of `regs` under `key`, if any.
pub open spec fn spec_lookup_scope(
    regs: Seq<(Seq<char>, Seq<char>)>,
    key: Seq<char>,
) -> Option<Seq<char>>
    decreases regs.len(),
{
    if regs.len() == 0 {
        None
    } else if regs[0].0 == key {
        Some(regs[0].1)
    } else {
        spec_lookup_scope(regs.drop_first(), key)
    }
}

/// The hard-coded default registry.
pub open spec fn spec_default_registry() -> Seq<char> {
    "https://registry.npmjs.org/"@
}

/// The three-tier registry routing policy: a scoped lookup first, then the
/// empty-scope entry, then the hard-coded default.
pub open spec fn spec_pick_registry(
    regs: Seq<(Seq<char>, Seq<char>)>,
    scope: Option<Seq<char>>,
) -> Seq<char> {
    let unscoped = match spec_lookup_scope(regs, Seq::<char>::empty()) {
        Some(u) => u,
        None => spec_default_registry(),
    };
    match scope {
        Some(sc) => match spec_lookup_scope(regs, sc) {
            Some(u) => u,
            None => unscoped,
        },
        None => unscoped,
    }
}

/// The compact ("corgi") Accept header.
pub open spec fn spec_corgi_accept() -> Seq<char> {
    "application/vnd.npm.install-v1+json; q=1.0, application/json; q=0.8, */*"@
}

/// The full-packument Accept header.
pub open spec fn spec_full_accept() -> Seq<char> {
    "application/json"@
}

/// The Accept header sent for a packument request, per the fetcher's
/// corgi flag.
pub open spec fn spec_accept_header(use_corgi: bool) -> Seq<char> {
    if use_corgi {
        spec_corgi_accept()
    } else {
        spec_full_accept()
    }
}

/// Mathematical view of an [`NpmFetcher`].
pub struct FetcherView {
    pub use_corgi: bool,
    pub registries: Seq<(Seq<char>, Seq<char>)>,
    pub packuments: Map<Seq<char>, PackumentView>,
}

/// The registry-backed fetcher: content-negotiation flag and router table
/// fixed at construction, plus the packument cache, which lives exactly as
/// long as the fetcher.
#[derive(Debug)]
pub struct NpmFetcher {
    /// Corgis are a compressed kind of packument that omits fields
    /// unnecessary for installation, negotiated via the Accept header.
    use_corgi: bool,
    registries: Vec<(String, String)>,
    packuments: dashmap::DashMap<String, Packument>,
}

impl View for NpmFetcher {
    type V = FetcherView;

    closed spec fn view(&self) -> FetcherView {
        FetcherView {
            use_corgi: self.use_corgi,
            registries: regs_view(self.registries@),
            packuments: cache_model(self.packuments),
        }
    }
}

/// The outcome of a cache consultation: either the cached packument, or
/// everything needed to fetch it (the metadata URL and the Accept header).
pub enum CacheLookup {
    Hit(Packument),
    Miss { url: String, accept: String },
}

/// What one packument retrieval does to the fetcher and returns, as a
/// relation between the state before (`pre`) and after (`post`):
/// a name that forms no valid URL is rejected; a cached URL is answered
/// from the cache, which it leaves unchanged; otherwise the result, if
/// successful, is a parsed packument, now cached under its URL, and a
/// failure names the package and leaves the cache unchanged.
pub open spec fn spec_packument_outcome(
    pre: FetcherView,
    post: FetcherView,
    scope: Option<Seq<char>>,
    name: Seq<char>,
    r: Result<Packument, FetchError>,
) -> bool {
    let u = spec_packument_url(spec_pick_registry(pre.registries, scope), name);
    &&& post.use_corgi == pre.use_corgi
    &&& post.registries == pre.registries
    &&& (u is None ==> post.packuments == pre.packuments
        && (r matches Err(e) && (e matches FetchError::InvalidPackageName { name: n }
            && n@ == name)))
    &&& (match u {
        Some(us) => {
            if pre.packuments.contains_key(us) {
                post.packuments == pre.packuments
                    && (r matches Ok(p) && p@ == pre.packuments[us])
            } else {
                match r {
                    Ok(p) => post.packuments == pre.packuments.insert(us, p@)
                        && (exists|b: Seq<char>| spec_parse_packument(b) == Some(p@)),
                    Err(e) => post.packuments == pre.packuments && match e {
                        FetchError::FetchFailed { name: n, message: _ } => n@ == name,
                        FetchError::MetadataParseError {
                            name: n,
                            raw_body: _,
                            cause: _,
                        } => n@ == name,
                        _ => false,
                    },
                }
            }
        },
        None => true,
    })
}

impl NpmFetcher {
    /// A fetcher with the given content-negotiation flag and router table,
    /// and an empty cache.
    pub fn new(use_corgi: bool, registries: Vec<(String, String)>) -> (r: Self)
        ensures
            r@.use_corgi == use_corgi,
            r@.registries == regs_view(registries@),
            r@.packuments == cache_empty(),
    {
        NpmFetcher { use_corgi, registries, packuments: cache_new() }
    }

    /// The registry base URL for a scope, per the three-tier policy of
    /// [`spec_pick_registry`].
    pub fn pick_registry(&self, scope: &Option<String>) -> (r: String)
        ensures
            r@ == spec_pick_registry(self@.registries, opt_string_view(*scope)),
    {
        match scope {
            Some(sc) => match lookup_registry(&self.registries, sc) {
                Some(u) => u,
                None => self.unscoped_registry(),
            },
            None => self.unscoped_registry(),
        }
    }

    /// The registry used when no scoped entry applies: the empty-scope
    /// entry, or the hard-coded default.
    fn unscoped_registry(&self) -> (r: String)
        ensures
            r@ == (match spec_lookup_scope(self@.registries, Seq::<char>::empty()) {
                Some(u) => u,
                None => spec_default_registry(),
            }),
    {
        let empty_key = String::new();
        match lookup_registry(&self.registries, &empty_key) {
            Some(u) => u,
            None => default_registry(),
        }
    }

    /// The Accept header this fetcher sends for packument requests.
    pub fn accept_header(&self) -> (r: String)
        ensures
            r@ == spec_accept_header(self@.use_corgi),
    {
        if self.use_corgi {
            String::from_str(
                "application/vnd.npm.install-v1+json; q=1.0, application/json; q=0.8, */*",
            )
        } else {
            String::from_str("application/json")
        }
    }

    /// Consults the cache for a package: either the cached packument, or
    /// the URL and Accept header a fetch must use; a name that cannot form
    /// a valid URL is rejected.
    pub fn packument_lookup(&self, scope: &Option<String>, name: &String) -> (r: Result<
        CacheLookup,
        FetchError,
    >)
        ensures
            ({
                let u = spec_packument_url(
                    spec_pick_registry(self@.registries, opt_string_view(*scope)),
                    name@,
                );
                match r {
                    Err(e) => u is None && e == (FetchError::InvalidPackageName {
                        name: *name,
                    }),
                    Ok(l) => match l {
                        CacheLookup::Hit(p) => u matches Some(us)
                            && self@.packuments.contains_key(us)
                            && p@ == self@.packuments[us],
                        CacheLookup::Miss { url, accept } => u == Some(url@)
                            && !self@.packuments.contains_key(url@)
                            && accept@ == spec_accept_header(self@.use_corgi),
                    },
                }
            }),
    {
        let base = self.pick_registry(scope);
        match packument_url(&base, name) {
            None => Err(FetchError::InvalidPackageName { name: name.clone() }),
            Some(url) => match cache_get(&self.packuments, &url) {
                Some(p) => Ok(CacheLookup::Hit(p)),
                None => Ok(CacheLookup::Miss { url, accept: self.accept_header() }),
            },
        }
    }

    /// Parses a fetched body and fills the cache: on success the parsed
    /// packument is stored under `url` (whole-value insertion, last write
    /// wins) and returned; a body that is not a packument leaves the cache
    /// unchanged and surfaces the raw body in the error.
    pub fn packument_store(&mut self, url: &String, name: &String, body: &String) -> (r: Result<
        Packument,
        FetchError,
    >)
        ensures
            final(self)@.use_corgi == old(self)@.use_corgi,
            final(self)@.registries == old(self)@.registries,
            ({
                match r {
                    Ok(p) => spec_parse_packument(body@) == Some(p@)
                        && final(self)@.packuments == old(self)@.packuments.insert(url@, p@),
                    Err(e) => spec_parse_packument(body@) is None
                        && final(self)@.packuments == old(self)@.packuments
                        && (e matches FetchError::MetadataParseError {
                            name: n,
                            raw_body: b,
                            cause: _,
                        } && n@ == name@ && b@ == body@),
                }
            }),
    {
        match parse_packument(body, name) {
            Err(e) => Err(e),
            Ok(p) => {
                cache_insert(&mut self.packuments, url, &p);
                Ok(p)
            },
        }
    }

    /// Retrieves the packument for a (scope, name) pair: the cache
    /// short-circuits a repeated lookup; otherwise one GET is issued
    /// through `client` and the parsed result fills the cache, exactly as
    /// [`spec_packument_outcome`] says.
    pub fn packument_from_name<T: Transport>(
        &mut self,
        client: &T,
        scope: &Option<String>,
        name: &String,
    ) -> (r: Result<Packument, FetchError>)
        ensures
            spec_packument_outcome(old(self)@, final(self)@, opt_string_view(*scope), name@, r),
    {
        match self.packument_lookup(scope, name) {
            Err(e) => Err(e),
            Ok(CacheLookup::Hit(p)) => Ok(p),
            Ok(CacheLookup::Miss { url, accept }) => match client.get(&url, &accept) {
                Err(message) => Err(FetchError::FetchFailed { name: name.clone(), message }),
                Ok(body) => {
                    let r = self.packument_store(&url, name, &body);
                    proof {
                        if r is Ok {
                            assert(spec_parse_packument(body@) == Some(r->Ok_0@));
                        }
                    }
                    r
                },
            },
        }
    }

    /// The package's logical name: for registry and alias specs the
    /// contained name, without a network call; anything else is an
    /// [`FetchError::UnsupportedSpec`].
    pub fn name(&self, pkg_spec: &PackageSpec) -> (r: Result<String, FetchError>)
        ensures
            match spec_display_name(*pkg_spec) {
                Some(n) => r matches Ok(s) && s@ == n,
                None => r matches Err(e) && e == FetchError::UnsupportedSpec,
            },
    {
        match pkg_spec {
            PackageSpec::Npm { name, .. } => Ok(name.clone()),
            PackageSpec::Alias { name, .. } => Ok(name.clone()),
            _ => Err(FetchError::UnsupportedSpec),
        }
    }

    /// Retrieves the packument for a spec. An alias fetches the packument
    /// of its aliased target name, not its own display name; a spec that
    /// is not registry-backed (even after alias unwrapping) is an
    /// [`FetchError::UnsupportedSpec`].
    pub fn packument<T: Transport>(&mut self, client: &T, pkg_spec: &PackageSpec) -> (r: Result<
        Packument,
        FetchError,
    >)
        ensures
            spec_registry_request(*pkg_spec) is None ==> final(self)@ == old(self)@
                && (r matches Err(e) && e == FetchError::UnsupportedSpec),
            spec_registry_request(*pkg_spec) matches Some(req) ==> spec_packument_outcome(
                old(self)@,
                final(self)@,
                req.0,
                req.1,
                r,
            ),
    {
        let target: &PackageSpec = match pkg_spec {
            PackageSpec::Alias { package, .. } => &**package,
            _ => pkg_spec,
        };
        proof {
            assert(*target == spec_target(*pkg_spec));
        }
        match target {
            PackageSpec::Npm { scope, name } => self.packument_from_name(client, scope, name),
            _ => Err(FetchError::UnsupportedSpec),
        }
    }

    /// Looks the resolved version up in the packument of the package's
    /// originating spec. The resolution must be registry-backed: handing
    /// another backend's resolution to this fetcher is a programming
    /// error, excluded by precondition rather than reported.
    pub fn metadata<T: Transport>(&mut self, client: &T, pkg: &Package) -> (r: Result<
        VersionMetadata,
        FetchError,
    >)
        requires
            pkg.resolved is Npm,
        ensures
            final(self)@.use_corgi == old(self)@.use_corgi,
            final(self)@.registries == old(self)@.registries,
            spec_registry_request(pkg.from) is None ==> final(self)@ == old(self)@
                && (r matches Err(e) && e == FetchError::UnsupportedSpec),
            r matches Ok(m) ==> m@.version == spec_npm_version(pkg.resolved)@,
            r matches Err(e) ==> (e matches FetchError::VersionNotFound { version: v }
                ==> v@ == spec_npm_version(pkg.resolved)@),
            ({
                let req = spec_registry_request(pkg.from);
                let wanted = spec_npm_version(pkg.resolved)@;
                req matches Some(rq) ==> ({
                    let u = spec_packument_url(
                        spec_pick_registry(old(self)@.registries, rq.0),
                        rq.1,
                    );
                    match u {
                        Some(us) => old(self)@.packuments.contains_key(us) ==> ({
                            let pv = old(self)@.packuments[us];
                            match spec_find_version(pv.versions, wanted) {
                                Some(v) => r matches Ok(m) && m@ == v,
                                None => r matches Err(e)
                                    && (e matches FetchError::VersionNotFound { version: vv }
                                        && vv@ == wanted),
                            }
                        }),
                        None => true,
                    }
                })
            }),
    {
        let wanted = match &pkg.resolved {
            PackageResolution::Npm { version, .. } => version.clone(),
            PackageResolution::Dir { .. } => {
                proof {
                    assert(false);
                }
                String::new()
            },
        };
        match self.packument(client, &pkg.from) {
            Err(e) => Err(e),
            Ok(p) => match p.version(&wanted) {
                Some(m) => {
                    proof {
                        lemma_find_version_matches(p@.versions, wanted@);
                    }
                    Ok(m.clone())
                },
                None => Err(FetchError::VersionNotFound { version: wanted }),
            },
        }
    }

    /// Fetches the resolved tarball through `client`, from the URL the
    /// resolution carries (never re-derived from the packument). The
    /// resolution must be registry-backed, as for `metadata`. A transport
    /// failure surfaces as [`FetchError::FetchFailed`] carrying the
    /// tarball URL for diagnostics.
    pub fn tarball<T: Transport>(&self, client: &T, pkg: &Package) -> (r: Result<
        Vec<u8>,
        FetchError,
    >)
        requires
            pkg.resolved is Npm,
        ensures
            r matches Err(e) ==> (e matches FetchError::FetchFailed { name: n, message: _ }
                && n@ == spec_npm_tarball(pkg.resolved)@),
    {
        let url = tarball_url(pkg);
        match client.get_bytes(&url) {
            Ok(b) => Ok(b),
            Err(message) => Err(FetchError::FetchFailed { name: url, message }),
        }
    }
}

/// The tarball URL a registry-backed resolution carries.
pub fn tarball_url(pkg: &Package) -> (r: String)
    requires
        pkg.resolved is Npm,
    ensures
        r@ == spec_npm_tarball(pkg.resolved)@,
{
    match &pkg.resolved {
        PackageResolution::Npm { tarball, .. } => tarball.clone(),
        PackageResolution::Dir { .. } => {
            proof {
                assert(false);
            }
            String::new()
        },
    }
}

/// The hard-coded default registry URL.
pub fn default_registry() -> (r: String)
    ensures
        r@ == spec_default_registry(),
{
    String::from_str("https://registry.npmjs.org/")
}

/// Linear scan of the router table, exactly as [`spec_lookup_scope`] says.
fn lookup_registry(regs: &Vec<(String, String)>, key: &String) -> (r: Option<String>)
    ensures
        match r {
            Some(u) => spec_lookup_scope(regs_view(regs@), key@) == Some(u@),
            None => spec_lookup_scope(regs_view(regs@), key@) is None,
        },
{
    let ghost rv = regs_view(regs@);
    let n = regs.len();
    let mut i: usize = 0;
    proof {
        assert(rv.skip(0) =~= rv);
    }
    while i < n
        invariant
            n == regs@.len(),
            i <= n,
            rv == regs_view(regs@),
            rv.len() == n,
            spec_lookup_scope(rv, key@) == spec_lookup_scope(rv.skip(i as int), key@),
        decreases n - i,
    {
        proof {
            assert(rv[i as int] == (regs@[i as int].0@, regs@[i as int].1@));
            assert(rv.skip(i as int)[0] == rv[i as int]);
            assert(rv.skip(i as int).drop_first() =~= rv.skip(i + 1));
        }
        let entry = &regs[i];
        if entry.0 == *key {
            return Some(entry.1.clone());
        }
        i = i + 1;
    }
    proof {
        assert(rv.skip(n as int).len() == 0);
    }
    None
}

} // verus!
