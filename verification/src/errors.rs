//! The error taxonomy of the library: every fallible operation returns one
//! of these values, and no operation panics on caller-reachable input.

use vstd::prelude::*;

verus! {

/// Why an operation failed.
///
/// - `ParseError`: the response text is not well-formed JSON, or a required
///   field of the matched variant is missing or has the wrong shape; the
///   payload names the offending field, or is `"json"` for a syntax error.
/// - `UnsupportedFeatureType`: the discriminator value is not one of the
///   four recognized tags; the payload is the offending tag.
/// - `InvalidExpandOption`: the caller supplied an expand value outside the
///   recognized set; the payload is the offending value.
/// - `FetchFailed`: the transport collaborator failed; produced by the
///   caller of the library, never by the library itself.
#[derive(Debug, Clone, PartialEq, Eq)]
pub enum FeatureError {
    ParseError(String),
    UnsupportedFeatureType(String),
    InvalidExpandOption(String),
    FetchFailed(String),
}

/// The mathematical image of a `FeatureError`: the same variants over
/// character sequences.
#[verifier::ext_equal]
pub enum FeatureErrorV {
    ParseError(Seq<char>),
    UnsupportedFeatureType(Seq<char>),
    InvalidExpandOption(Seq<char>),
    FetchFailed(Seq<char>),
}

impl View for FeatureError {
    type V = FeatureErrorV;

    open spec fn view(&self) -> FeatureErrorV {
        match self {
            FeatureError::ParseError(s) => FeatureErrorV::ParseError(s@),
            FeatureError::UnsupportedFeatureType(s) => FeatureErrorV::UnsupportedFeatureType(s@),
            FeatureError::InvalidExpandOption(s) => FeatureErrorV::InvalidExpandOption(s@),
            FeatureError::FetchFailed(s) => FeatureErrorV::FetchFailed(s@),
        }
    }
}

impl DeepView for FeatureError {
    type V = FeatureErrorV;

    open spec fn deep_view(&self) -> FeatureErrorV {
        self.view()
    }
}

} // verus!
