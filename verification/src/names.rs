//! Package-name validation and normalization.
//!
//! Package names are validated and case-normalized by the conda type
//! library; the exact character rule and the lowercase normalization are
//! stated here so that the recipe builder's contract is precise.

use vstd::prelude::*;

verus! {

/// The characters a package name may contain: ASCII alphanumerics, `-`, `_`
/// and `.`.
pub open spec fn is_package_name_char(c: char) -> bool {
    ('a' <= c && c <= 'z') || ('A' <= c && c <= 'Z') || ('0' <= c && c <= '9') || c == '-' || c
        == '_' || c == '.'
}

/// A string is a valid package name when every character is allowed.
pub open spec fn valid_package_name(s: Seq<char>) -> bool {
    forall|i: int| 0 <= i < s.len() ==> is_package_name_char(#[trigger] s[i])
}

/// ASCII lowercase of one character.
pub open spec fn lower_char(c: char) -> char {
    if 'A' <= c && c <= 'Z' {
        ((c as u32 + 32) as u32) as char
    } else {
        c
    }
}

/// ASCII lowercase of a string, character by character.
pub open spec fn ascii_lower(s: Seq<char>) -> Seq<char> {
    s.map_values(|c: char| lower_char(c))
}

/// Relies on `rattler_conda_types::PackageName::from_str`, which accepts a
/// name exactly when every byte is ASCII alphanumeric, `-`, `_` or `.`, and
/// on `PackageName::as_normalized`, which returns the ASCII-lowercase form
/// of the accepted name.
#[verifier::external_body]
pub(crate) fn normalize_package_name(s: &String) -> (r: Option<String>)
    ensures
        r is Some <==> valid_package_name(s@),
        r is Some ==> r->0@ == ascii_lower(s@),
{
    match <rattler_conda_types::PackageName as core::str::FromStr>::from_str(s.as_str()) {
        Ok(name) => Some(name.as_normalized().to_string()),
        Err(_) => None,
    }
}

} // verus!
