//! Error taxonomy for the fetch layer.
//!
//! Every recoverable failure carries the full context it was raised with
//! (package name, raw body where applicable); nothing is logged and
//! swallowed, and no partial value is ever substituted for failed metadata.

use vstd::prelude::*;

verus! {

/// A recoverable failure of the fetch layer.
///
/// Contract violations (a non-registry resolution handed to the registry
/// fetcher) are not represented here: the functions that would hit them
/// exclude those inputs by precondition instead.
#[derive(Debug, PartialEq, Eq)]
pub enum FetchError {
    /// The fetcher was invoked with a spec variant it cannot handle.
    UnsupportedSpec,
    /// The package name cannot be embedded in a well-formed registry URL.
    InvalidPackageName { name: String },
    /// Transport error or non-success status from the network collaborator.
    FetchFailed { name: String, message: String },
    /// The response body does not match the packument schema; the raw body
    /// is retained for diagnostics.
    MetadataParseError { name: String, raw_body: String, cause: String },
    /// The requested version is absent from a successfully retrieved
    /// packument.
    VersionNotFound { version: String },
}

} // verus!
