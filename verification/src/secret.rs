use vstd::prelude::*;
use base64::Engine;
use crate::encoding::b64_of;
use crate::encoding::b64_wellformed;
use crate::encoding::hex_alphabet;
use crate::encoding::hex_of;
use crate::encoding::lemma_b64_of_len;
use crate::encoding::lemma_b64_of_wellformed;
use crate::encoding::lemma_hex_of_chars;
use crate::encoding::lemma_hex_of_len;

verus! {

/// How a drawn secret is rendered: lowercase hex or standard padded base64.
pub enum SecretEncoding {
    Hex,
    Base64,
}

/// The rendering of secret bytes under each encoding.
pub open spec fn spec_secret_encoding(b: Seq<u8>, e: SecretEncoding) -> Seq<char> {
    match e {
        SecretEncoding::Hex => hex_of(b),
        SecretEncoding::Base64 => b64_of(b),
    }
}

/// Relies on hex::encode: lowercase hex, two digits per byte, high nibble
/// first.
#[verifier::external_body]
fn hex_encode(bytes: &Vec<u8>) -> (r: String)
    ensures
        r@ == hex_of(bytes@),
{
    hex::encode(bytes)
}

/// Relies on base64::engine::general_purpose::STANDARD (through
/// base64::Engine::encode): standard alphabet, '=' padding.
#[verifier::external_body]
fn base64_encode(bytes: &Vec<u8>) -> (r: String)
    ensures
        r@ == b64_of(bytes@),
{
    base64::engine::general_purpose::STANDARD.encode(bytes)
}

/// Renders already-drawn secret bytes under the requested encoding.
pub fn encode_secret_bytes(bytes: &Vec<u8>, encoding: &SecretEncoding) -> (r: String)
    ensures
        r@ == spec_secret_encoding(bytes@, *encoding),
{
    match encoding {
        SecretEncoding::Hex => hex_encode(bytes),
        SecretEncoding::Base64 => base64_encode(bytes),
    }
}

/// Draws `length` cryptographically random bytes and renders them under the
/// requested encoding: hex gives two lowercase hex digits per byte, base64
/// gives a well-formed standard encoding of exactly `length` bytes.
pub fn generate_secret(length: usize, encoding: SecretEncoding) -> (r: String)
    ensures
        exists|b: Seq<u8>|
            b.len() == length && r@ == #[trigger] spec_secret_encoding(b, encoding),
        encoding is Hex ==> {
            &&& r@.len() == 2 * length
            &&& forall|i: int| 0 <= i < r@.len() ==> hex_alphabet().contains(#[trigger] r@[i])
        },
        encoding is Base64 ==> {
            &&& r@.len() == 4 * ((length + 2) / 3)
            &&& b64_wellformed(r@)
        },
{
    let key = crate::rng::random_bytes(length);
    let r = encode_secret_bytes(&key, &encoding);
    proof {
        assert(key@.len() == length && r@ == spec_secret_encoding(key@, encoding));
        lemma_hex_of_len(key@);
        lemma_hex_of_chars(key@);
        lemma_b64_of_len(key@);
        lemma_b64_of_wellformed(key@);
    }
    r
}

} // verus!
