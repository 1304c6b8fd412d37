//! SHA-256 content checksums.
//!
//! Every "signature" in this crate (entry hashes, secure timestamps, clock
//! and report signatures) is the lowercase-hex SHA-256 digest of a canonical
//! string. The digest itself is computed by the `sha2` crate; its value is
//! named by the uninterpreted function `sha256_hex_of`, so contracts can say
//! exactly *which* string a checksum covers without restating SHA-256.

use vstd::prelude::*;
use sha2::Digest;
use sha2::Sha256;

verus! {

/// The lowercase hexadecimal SHA-256 digest of a string's UTF-8 bytes.
pub uninterp spec fn sha256_hex_of(s: Seq<char>) -> Seq<char>;

/// Whether a character is a lowercase hexadecimal digit.
pub open spec fn is_lower_hex_digit(c: char) -> bool {
    ('0' as int <= c as int <= '9' as int) || ('a' as int <= c as int <= 'f' as int)
}

/// Relies on sha2::Sha256 (via the Digest trait): the digest is a pure
/// function of the input bytes alone, 32 bytes long, formatted here as 64
/// lowercase hexadecimal digits (two per byte, leading zeros kept).
#[verifier::external_body]
pub(crate) fn sha256_hex(s: &str) -> (r: String)
    ensures
        r@ == sha256_hex_of(s@),
        r@.len() == 64,
        forall|i: int| 0 <= i < r@.len() ==> is_lower_hex_digit(#[trigger] r@[i]),
{
    let mut hasher = Sha256::new();
    hasher.update(s.as_bytes());
    format!("{:x}", hasher.finalize())
}

} // verus!
