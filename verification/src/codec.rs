//! The wire codec for binary payloads: standard base64 with padding, as
//! the JSON protocol carries image bytes.

use vstd::prelude::*;

verus! {

/// The standard base64 encoding (with padding) of a byte sequence.
pub uninterp spec fn b64_encode_of(bytes: Seq<u8>) -> Seq<char>;

/// Relies on the base64 crate's `STANDARD` engine `encode`: the output
/// is the RFC 4648 base64 encoding of the input bytes, a function of
/// those bytes alone, four characters for every started group of three
/// bytes (the padded form). `encode` sizes its buffer with checked
/// arithmetic and panics on overflow, so inputs near the address-space
/// limit are excluded.
#[verifier::external_body]
fn b64_encode(data: &[u8]) -> (r: String)
    requires
        4 * data@.len() <= usize::MAX,
    ensures
        r@ == b64_encode_of(data@),
        r@.len() == 4 * ((data@.len() + 2) / 3),
{
    base64::Engine::encode(&base64::engine::general_purpose::STANDARD, data)
}

/// Whether a string is in the canonical padded RFC 4648 base64 form
/// that the base64 crate's `STANDARD` engine accepts.
pub uninterp spec fn b64_valid(s: Seq<char>) -> bool;

/// Relies on the base64 crate's `STANDARD` engine `decode`, the inverse
/// of `encode`: it succeeds exactly on the canonical padded base64
/// strings, a property of the input alone (named `b64_valid`), and
/// decoding the encoding of any byte sequence returns that sequence.
/// On failure the crate's error is handed back as its debug text.
#[verifier::external_body]
fn b64_decode(s: &str) -> (r: Result<Vec<u8>, String>)
    ensures
        (r is Ok) == b64_valid(s@),
        forall|b: Seq<u8>| s@ == b64_encode_of(b) ==> r is Ok && r.unwrap()@ == b,
{
    match base64::Engine::decode(&base64::engine::general_purpose::STANDARD, s) {
        Ok(v) => Ok(v),
        Err(e) => Err(format!("{e:?}")),
    }
}

/// Encodes bytes for the JSON wire format: four characters for every
/// started group of three bytes, so the result is empty exactly for
/// empty input.
pub fn encode_base64(data: &Vec<u8>) -> (r: String)
    requires
        4 * data@.len() <= usize::MAX,
    ensures
        r@ == b64_encode_of(data@),
        r@.len() == 4 * ((data@.len() + 2) / 3),
        (r@.len() == 0) == (data@.len() == 0),
{
    let r = b64_encode(data.as_slice());
    proof {
        if data@.len() > 0 {
            assert((data@.len() + 2) / 3 >= 1);
        }
    }
    r
}

/// Decodes a base64 field of the JSON wire format. Decoding succeeds
/// exactly on the canonical padded base64 strings and inverts encoding:
/// whenever `s` is the encoding of some byte sequence, that sequence
/// comes back. A failure's description opens with `failure: `, followed
/// by the decoder's account of what was wrong.
pub fn decode_base64(s: &str) -> (r: Result<Vec<u8>, String>)
    ensures
        (r is Ok) == b64_valid(s@),
        forall|b: Seq<u8>| s@ == b64_encode_of(b) ==> r is Ok && r.unwrap()@ == b,
        r is Err ==> r->Err_0@.subrange(0, 9) == "failure: "@,
{
    match b64_decode(s) {
        Ok(bytes) => Ok(bytes),
        Err(detail) => {
            let msg = String::from_str("failure: ").concat(detail.as_str());
            proof {
                reveal_strlit("failure: ");
                assert(msg@.subrange(0, 9) =~= "failure: "@);
            }
            Err(msg)
        },
    }
}

/// Encoding a byte sequence and decoding the result returns the
/// original bytes, for every byte sequence the encoder accepts.
pub fn base64_round_trip(data: &Vec<u8>) -> (r: Vec<u8>)
    requires
        4 * data@.len() <= usize::MAX,
    ensures
        r@ == data@,
{
    let encoded = encode_base64(data);
    match decode_base64(encoded.as_str()) {
        Ok(decoded) => decoded,
        Err(_) => vstd::pervasive::unreached(),
    }
}

} // verus!
