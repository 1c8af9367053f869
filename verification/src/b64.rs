//! Base64 text for binary payloads.
//!
//! What the standard alphabet encodes a byte string to is a pure
//! function of the bytes, so it is carried here as the named result
//! `base64_of`, with `base64_unof` naming the decoding direction; the
//! two invert each other on encoder output.

use vstd::prelude::*;
use base64::Engine;
use base64::engine::general_purpose::STANDARD;

verus! {

pub uninterp spec fn base64_of(b: Seq<u8>) -> Seq<char>;

pub uninterp spec fn base64_unof(s: Seq<char>) -> Seq<u8>;

/// Relies on base64's STANDARD engine encode: a padded encoding of the
/// bytes alone, four characters for every started group of three
/// bytes, which the engine's decode inverts.
#[verifier::external_body]
pub fn base64_encode(b: &Vec<u8>) -> (r: String)
    ensures
        r@ == base64_of(b@),
        base64_unof(r@) == b@,
        base64_of(base64_unof(r@)) == r@,
        r@.len() == 4 * ((b@.len() + 2) / 3),
{
    STANDARD.encode(b)
}

/// Relies on base64's STANDARD engine decode: on any text the encode
/// side produced it succeeds and returns the bytes that encoded to it.
#[verifier::external_body]
pub fn base64_decode(s: &str) -> (r: Option<Vec<u8>>)
    ensures
        r matches Some(v) ==> v@ == base64_unof(s@),
        base64_of(base64_unof(s@)) == s@ ==> r is Some,
{
    STANDARD.decode(s).ok()
}

} // verus!
