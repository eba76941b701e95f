//! The verified part of the lookup operation: translating the caller's
//! expand option into the `0`/`1` code that the request embeds. Building
//! the request URL and performing the transfer belong to the caller.

use vstd::prelude::*;

use crate::errors::{FeatureError, FeatureErrorV};
use crate::text::str_eq;

verus! {

broadcast use vstd::string::group_string_axioms;

/// Whether `s` is an expand option that requests child records.
pub open spec fn is_expand_on(s: Seq<char>) -> bool {
    s == "all"@ || s == "a"@ || s == "canonical"@ || s == "c"@
}

/// Whether `s` is an expand option that declines child records.
pub open spec fn is_expand_off(s: Seq<char>) -> bool {
    s == "false"@ || s == "f"@
}

/// The numeric code that an expand option maps to, if it is recognized.
pub open spec fn spec_expand_code(s: Seq<char>) -> Option<u8> {
    if is_expand_on(s) {
        Some(1u8)
    } else if is_expand_off(s) {
        Some(0u8)
    } else {
        None
    }
}

/// Maps an expand option to the numeric code embedded in a lookup request:
/// `1` when child records are requested, `0` when not, and
/// `InvalidExpandOption` for any other value.
pub fn expand_code(expand: &str) -> (r: Result<u8, FeatureError>)
    ensures
        spec_expand_code(expand@) matches Some(c) ==> r == Ok::<u8, FeatureError>(c),
        spec_expand_code(expand@) is None ==> (r matches Err(e) && e@
            == FeatureErrorV::InvalidExpandOption(expand@)),
{
    if str_eq(expand, "all") || str_eq(expand, "a") || str_eq(expand, "canonical") || str_eq(
        expand,
        "c",
    ) {
        Ok(1)
    } else if str_eq(expand, "false") || str_eq(expand, "f") {
        Ok(0)
    } else {
        Err(FeatureError::InvalidExpandOption(expand.to_owned()))
    }
}

} // verus!
