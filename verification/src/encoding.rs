//! Telling text from other bytes.

use vstd::prelude::*;
use vstd::utf8::valid_utf8;

verus! {

/// Tells whether `bytes` are well-formed UTF-8.
///
/// Trusted, not proved: the body calls `core::str::from_utf8`, and the
/// contract claims that this function accepts exactly the byte strings that
/// `valid_utf8` describes, which are the well-formed ones of the Unicode
/// standard: no stray or missing continuation bytes, no overlong forms, no
/// surrogates, nothing above U+10FFFF.
#[verifier::external_body]
pub(crate) fn is_utf8(bytes: &[u8]) -> (valid: bool)
    ensures
        valid == valid_utf8(bytes@),
{
    std::str::from_utf8(bytes).is_ok()
}

} // verus!
