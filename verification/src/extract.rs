//! The packument wire schema: how a parsed registry body becomes a
//! [`Packument`], stated as spec functions over [`JsonModel`] and
//! implemented by verified code walking the parsed document.
//!
//! Schema: the body must be a JSON object. `name`, when present, must be a
//! string. `versions`, when present, must be an object; each of its values
//! must be an object, whose optional `dist` field must in turn be an object
//! with optional string fields `tarball`, `integrity` and `shasum`. The
//! version string of an entry is its key. Anything else in the body passes
//! through unread.

use vstd::prelude::*;
use vstd::string::StringExecFns;
use crate::error::FetchError;
use crate::json::{
    json_as_str, json_error_message, json_get, json_is_object, json_model, json_obj_entries,
    parse_json, spec_obj_lookup, spec_parse_json, JsonModel,
};
use crate::package_spec::opt_string_view;
use crate::packument::{Packument, PackumentView, VersionMetadata, VersionView};

verus! {

/// An optional string field of an object: `None` for a schema violation
/// (the field is there but not a string), otherwise the field's content if
/// it is present at all.
pub open spec fn spec_opt_str_field(j: JsonModel, key: Seq<char>) -> Option<Option<Seq<char>>> {
    match spec_obj_lookup(j, key) {
        None => Some(None),
        Some(f) => match f {
            JsonModel::Str(s) => Some(Some(s)),
            _ => None,
        },
    }
}

/// One entry of the `versions` object, keyed by `key`: `None` for a schema
/// violation, otherwise the per-version metadata it describes.
pub open spec fn spec_version_entry(key: Seq<char>, j: JsonModel) -> Option<VersionView> {
    if !(j is Obj) {
        None
    } else {
        match spec_obj_lookup(j, "dist"@) {
            None => Some(
                VersionView { version: key, tarball: None, integrity: None, shasum: None },
            ),
            Some(d) => match (
                spec_opt_str_field(d, "tarball"@),
                spec_opt_str_field(d, "integrity"@),
                spec_opt_str_field(d, "shasum"@),
            ) {
                (Some(t), Some(n), Some(h)) => if d is Obj {
                    Some(VersionView { version: key, tarball: t, integrity: n, shasum: h })
                } else {
                    None
                },
                _ => None,
            },
        }
    }
}

/// The first `n` entries of a `versions` object, in order; `None` as soon
/// as one of them violates the schema.
pub open spec fn spec_versions_prefix(
    es: Seq<(Seq<char>, JsonModel)>,
    n: int,
) -> Option<Seq<VersionView>>
    decreases n,
{
    if n <= 0 {
        Some(Seq::empty())
    } else {
        match spec_versions_prefix(es, n - 1) {
            None => None,
            Some(acc) => match spec_version_entry(es[n - 1].0, es[n - 1].1) {
                None => None,
                Some(v) => Some(acc.push(v)),
            },
        }
    }
}

/// What a parsed registry body describes: `None` for a schema violation,
/// otherwise the packument.
pub open spec fn spec_extract(j: JsonModel) -> Option<PackumentView> {
    if !(j is Obj) {
        None
    } else {
        match spec_opt_str_field(j, "name"@) {
            None => None,
            Some(nm) => match spec_obj_lookup(j, "versions"@) {
                None => Some(PackumentView { name: nm, versions: Seq::empty() }),
                Some(vs) => match vs {
                    JsonModel::Obj(es) => match spec_versions_prefix(es, es.len() as int) {
                        None => None,
                        Some(views) => Some(PackumentView { name: nm, versions: views }),
                    },
                    _ => None,
                },
            },
        }
    }
}

/// Parsing then extraction, as one function of the body text.
pub open spec fn spec_parse_packument(body: Seq<char>) -> Option<PackumentView> {
    match spec_parse_json(body) {
        None => None,
        Some(j) => spec_extract(j),
    }
}

/// Reads an optional string field, exactly as [`spec_opt_str_field`] says.
fn get_opt_str_field(v: &serde_json::Value, key: &str) -> (r: Option<Option<String>>)
    ensures
        match r {
            Some(o) => spec_opt_str_field(json_model(*v), key@) == Some(opt_string_view(o)),
            None => spec_opt_str_field(json_model(*v), key@) is None,
        },
{
    match json_get(v, key) {
        None => Some(None),
        Some(f) => match json_as_str(f) {
            Some(s) => Some(Some(s)),
            None => None,
        },
    }
}

/// Reads one entry of the `versions` object, exactly as
/// [`spec_version_entry`] says.
fn get_version_entry(key: &String, v: &serde_json::Value) -> (r: Option<VersionMetadata>)
    ensures
        match r {
            Some(m) => spec_version_entry(key@, json_model(*v)) == Some(m@),
            None => spec_version_entry(key@, json_model(*v)) is None,
        },
{
    if !json_is_object(v) {
        return None;
    }
    match json_get(v, "dist") {
        None => Some(
            VersionMetadata {
                version: key.clone(),
                tarball: None,
                integrity: None,
                shasum: None,
            },
        ),
        Some(d) => {
            if !json_is_object(d) {
                return None;
            }
            let tarball = match get_opt_str_field(d, "tarball") {
                Some(t) => t,
                None => {
                    return None;
                },
            };
            let integrity = match get_opt_str_field(d, "integrity") {
                Some(n) => n,
                None => {
                    return None;
                },
            };
            let shasum = match get_opt_str_field(d, "shasum") {
                Some(h) => h,
                None => {
                    return None;
                },
            };
            Some(VersionMetadata { version: key.clone(), tarball, integrity, shasum })
        },
    }
}

/// Extracts a packument from a parsed body, exactly as [`spec_extract`]
/// says.
pub fn packument_from_value(v: &serde_json::Value) -> (r: Option<Packument>)
    ensures
        match r {
            Some(p) => spec_extract(json_model(*v)) == Some(p@),
            None => spec_extract(json_model(*v)) is None,
        },
{
    if !json_is_object(v) {
        return None;
    }
    let name = match get_opt_str_field(v, "name") {
        Some(n) => n,
        None => {
            return None;
        },
    };
    match json_get(v, "versions") {
        None => {
            let p = Packument { name, versions: Vec::new() };
            proof {
                assert(p@.versions =~= Seq::<VersionView>::empty());
            }
            Some(p)
        },
        Some(vs) => {
            let entries = match json_obj_entries(vs) {
                Some(es) => es,
                None => {
                    return None;
                },
            };
            let ghost m = json_model(*vs)->Obj_0;
            let n = entries.len();
            let mut versions: Vec<VersionMetadata> = Vec::new();
            let mut i: usize = 0;
            while i < n
                invariant
                    n == entries@.len(),
                    i <= n,
                    json_model(*v) is Obj,
                    spec_opt_str_field(json_model(*v), "name"@)
                        == Some(opt_string_view(name)),
                    spec_obj_lookup(json_model(*v), "versions"@) == Some(JsonModel::Obj(m)),
                    json_model(*vs) == JsonModel::Obj(m),
                    entries@.len() == m.len(),
                    forall|j: int|
                        #![trigger m[j]]
                        0 <= j < m.len() ==> entries@[j].0@ == m[j].0
                            && json_model(entries@[j].1) == m[j].1,
                    spec_versions_prefix(m, i as int)
                        == Some(versions@.map_values(|vm: VersionMetadata| vm@)),
                decreases n - i,
            {
                let entry = &entries[i];
                match get_version_entry(&entry.0, &entry.1) {
                    Some(vm) => {
                        let ghost prev = versions@;
                        let ghost vm_view = vm@;
                        versions.push(vm);
                        proof {
                            assert(versions@.map_values(|x: VersionMetadata| x@)
                                =~= prev.map_values(|x: VersionMetadata| x@).push(vm_view));
                        }
                    },
                    None => {
                        proof {
                            assert(entries@[i as int].0@ == m[i as int].0
                                && json_model(entries@[i as int].1) == m[i as int].1);
                            assert(spec_version_entry(m[i as int].0, m[i as int].1) is None);
                            lemma_versions_prefix_fails(m, i as int, m.len() as int);
                        }
                        return None;
                    },
                }
                i = i + 1;
            }
            let p = Packument { name, versions };
            Some(p)
        },
    }
}

/// Once one entry violates the schema, every longer prefix does too.
proof fn lemma_versions_prefix_fails(es: Seq<(Seq<char>, JsonModel)>, i: int, n: int)
    requires
        0 <= i < n,
        spec_version_entry(es[i].0, es[i].1) is None || spec_versions_prefix(es, i) is None,
    ensures
        spec_versions_prefix(es, n) is None,
    decreases n,
{
    if i == n - 1 {
    } else {
        lemma_versions_prefix_fails(es, i, n - 1);
    }
}

/// Parses a registry body into a packument, exactly as
/// [`spec_parse_packument`] says; a failure keeps the raw body for
/// diagnostics.
pub fn parse_packument(body: &String, name: &String) -> (r: Result<Packument, FetchError>)
    ensures
        match r {
            Ok(p) => spec_parse_packument(body@) == Some(p@),
            Err(e) => spec_parse_packument(body@) is None
                && (e matches FetchError::MetadataParseError { name: n, raw_body: b, cause: _ }
                    && n@ == name@ && b@ == body@),
        },
{
    match parse_json(body) {
        Err(e) => Err(
            FetchError::MetadataParseError {
                name: name.clone(),
                raw_body: body.clone(),
                cause: json_error_message(&e),
            },
        ),
        Ok(v) => match packument_from_value(&v) {
            Some(p) => Ok(p),
            None => Err(
                FetchError::MetadataParseError {
                    name: name.clone(),
                    raw_body: body.clone(),
                    cause: schema_mismatch_message(),
                },
            ),
        },
    }
}

/// Diagnostic text for a body that is JSON but not a packument.
fn schema_mismatch_message() -> String {
    String::from_str("body does not match the packument schema")
}

} // verus!
