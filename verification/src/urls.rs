//! Trusted boundary to the url crate: building the metadata URL for a
//! package name by joining it onto a registry base, with the percent
//! encoding and validation that URL resolution implies.

use vstd::prelude::*;

verus! {

#[verifier::external_type_specification]
#[verifier::external_body]
pub struct ExUrl(url::Url);

#[verifier::external_type_specification]
#[verifier::external_body]
pub struct ExParseError(url::ParseError);

/// The serialization of a parsed URL; a URL value is determined by it.
pub uninterp spec fn url_serialization(u: url::Url) -> Seq<char>;

/// What URL parsing yields for a string: `None` when the string is not an
/// absolute URL, otherwise the serialization of the parsed URL.
pub uninterp spec fn spec_parse_url(s: Seq<char>) -> Option<Seq<char>>;

/// What resolving `input` against a base URL with the given serialization
/// yields: `None` when no valid URL can be formed, otherwise the resulting
/// serialization.
pub uninterp spec fn spec_join_url(base: Seq<char>, input: Seq<char>) -> Option<Seq<char>>;

/// Relies on url::Url::parse: the outcome is a function of the input
/// alone, and fixes the parsed URL's serialization.
#[verifier::external_body]
pub fn parse_url(s: &String) -> (r: Result<url::Url, url::ParseError>)
    ensures
        r is Ok <==> spec_parse_url(s@) is Some,
        r matches Ok(u) ==> Some(url_serialization(u)) == spec_parse_url(s@),
{
    url::Url::parse(s)
}

/// Relies on url::Url::join: resolves `input` against the base URL,
/// percent-encoding and validating it; the outcome is a function of the
/// base's serialization and the input alone.
#[verifier::external_body]
pub fn join_url(base: &url::Url, input: &String) -> (r: Result<url::Url, url::ParseError>)
    ensures
        r is Ok <==> spec_join_url(url_serialization(*base), input@) is Some,
        r matches Ok(u) ==> Some(url_serialization(u))
            == spec_join_url(url_serialization(*base), input@),
{
    base.join(input)
}

/// Relies on url::Url::as_str: returns the URL's serialization.
#[verifier::external_body]
pub fn url_to_string(u: &url::Url) -> (r: String)
    ensures
        r@ == url_serialization(*u),
{
    u.as_str().to_string()
}

/// The metadata URL for a package: the registry base parsed, then the name
/// joined onto it; `None` when either step cannot form a valid URL.
pub open spec fn spec_packument_url(base: Seq<char>, name: Seq<char>) -> Option<Seq<char>> {
    match spec_parse_url(base) {
        None => None,
        Some(b) => spec_join_url(b, name),
    }
}

/// Builds the metadata URL for a package name, exactly as
/// [`spec_packument_url`] says.
pub fn packument_url(base: &String, name: &String) -> (r: Option<String>)
    ensures
        match r {
            Some(u) => spec_packument_url(base@, name@) == Some(u@),
            None => spec_packument_url(base@, name@) is None,
        },
{
    match parse_url(base) {
        Err(_) => None,
        Ok(b) => match join_url(&b, name) {
            Err(_) => None,
            Ok(u) => Some(url_to_string(&u)),
        },
    }
}

} // verus!
