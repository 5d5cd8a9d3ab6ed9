//! The calls that token derivation and comparison make into rust-crypto and
//! into the system clock.

use crypto::digest::Digest;
use vstd::prelude::*;

verus! {

/// The lowercase hexadecimal SHA-256 digest of the UTF-8 bytes of a string.
pub uninterp spec fn sha256_hex_of(s: Seq<char>) -> Seq<char>;

/// Relies on `crypto::sha2::Sha256` with `Digest::input_str` and
/// `Digest::result_str`: the hex rendering of a 256-bit digest, two digits per
/// byte, which depends on the input alone.
#[verifier::external_body]
pub(crate) fn sha256_hex(input: &str) -> (r: String)
    ensures
        r@ == sha256_hex_of(input@),
        r@.len() == 64,
{
    let mut hasher = crypto::sha2::Sha256::new();
    hasher.input_str(input);
    hasher.result_str()
}

/// Relies on `crypto::util::fixed_time_eq`: true exactly when the two byte
/// strings are equal, compared in a number of steps that depends on the length
/// alone. It reads the first byte of each side unchecked, and answers false on
/// two empty strings, so `lhs` is not empty.
#[verifier::external_body]
pub(crate) fn fixed_time_eq(lhs: &str, rhs: &str) -> (r: bool)
    requires
        lhs@.len() > 0,
    ensures
        r == (lhs@ == rhs@),
{
    crypto::util::fixed_time_eq(lhs.as_bytes(), rhs.as_bytes())
}

/// Relies on `std::time::SystemTime::now`, rendered with its `Debug` format.
/// Nothing is promised of the text: it depends on the clock.
#[verifier::external_body]
pub(crate) fn clock_text() -> (r: String)
{
    format!("{:?}", std::time::SystemTime::now())
}

} // verus!
