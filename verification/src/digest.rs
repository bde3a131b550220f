//! SHA-256 digests of caller tokens.

use vstd::prelude::*;

verus! {

/// The SHA-256 digest of the UTF-8 bytes of `text`, written as lower-case
/// hexadecimal digits.
pub uninterp spec fn sha256_hex(text: Seq<char>) -> Seq<char>;

/// `sha256::digest` on a string slice: hashes the bytes of the text with
/// SHA-256 and returns the digest hex-encoded. The result is named
/// [`sha256_hex`]; it depends on the text alone.
#[verifier::external_body]
pub(crate) fn sha256_digest(text: &str) -> (hex: String)
    ensures
        hex@ == sha256_hex(text@),
{
    sha256::digest(text)
}

} // verus!
