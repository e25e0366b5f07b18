//! Webhook authenticity: an inbound provider event is trusted only when the
//! hex-encoded HMAC-SHA512 of its raw body under the shared secret equals
//! the signature header the provider sent.

use vstd::prelude::*;
use vstd::utf8::encode_utf8;

verus! {

/// The lowercase hex digit for a nibble.
pub open spec fn hex_digit(v: u8) -> char
    recommends
        v < 16,
{
    if v < 10 {
        (v + 48) as char
    } else {
        (v + 87) as char
    }
}

/// Lowercase hex encoding: two digits per byte, high nibble first.
pub open spec fn hex_of(bytes: Seq<u8>) -> Seq<char> {
    Seq::new(
        bytes.len() * 2,
        |i: int|
            if i % 2 == 0 {
                hex_digit(bytes[i / 2] >> 4u8)
            } else {
                hex_digit(bytes[i / 2] & 0x0fu8)
            },
    )
}

/// The HMAC-SHA512 tag of `data` under `key`: a fixed function of its
/// arguments whose definition (64 bytes of keyed SHA-512 output) lives in
/// the crypto library, not here.
pub uninterp spec fn hmac_sha512_of(key: Seq<u8>, data: Seq<u8>) -> Seq<u8>;

/// Relies on `ring::hmac::Key::new` and `ring::hmac::sign` with the
/// `HMAC_SHA512` algorithm: the tag is a function of key and data alone,
/// and a SHA-512 tag is 64 bytes.
#[verifier::external_body]
fn hmac_sha512(key: &[u8], data: &[u8]) -> (r: Vec<u8>)
    ensures
        r@ == hmac_sha512_of(key@, data@),
        r@.len() == 64,
{
    let k = ring::hmac::Key::new(ring::hmac::HMAC_SHA512, key);
    ring::hmac::sign(&k, data).as_ref().to_vec()
}

/// Relies on `hex::encode`: lowercase hex, two digits per byte, high nibble
/// first.
#[verifier::external_body]
fn hex_encode(bytes: &[u8]) -> (r: String)
    ensures
        r@ == hex_of(bytes@),
{
    hex::encode(bytes)
}

/// Whether `signature` is the hex-encoded HMAC-SHA512 of `payload` under
/// `secret`: the provider webhook authenticity check.
pub fn validate_signature(payload: &String, signature: &String, secret: &String) -> (r: bool)
    ensures
        r == (hex_of(hmac_sha512_of(encode_utf8(secret@), encode_utf8(payload@))) == signature@),
{
    let tag = hmac_sha512(secret.as_str().as_bytes(), payload.as_str().as_bytes());
    let hash = hex_encode(tag.as_slice());
    hash.eq(signature)
}

} // verus!
