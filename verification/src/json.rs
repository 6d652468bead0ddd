//! The schema-aware text codec: JSON through `serde_json`. Each payload shape
//! the transport carries gets one encoding function and one decoding function;
//! the encoded and decoded forms are named by uninterpreted functions, and
//! each encoder is trusted to produce bytes the matching decoder inverts.
use crate::errors::TransitError;
use vstd::prelude::*;

verus! {

/// The `serde_json` error type, carried only between a codec call and its
/// translation into `TransitError`.
#[verifier::external_type_specification]
#[verifier::external_body]
pub struct ExJsonError(serde_json::Error);

/// The JSON encoding of one unsigned byte value.
pub uninterp spec fn json_byte_enc(v: u8) -> Seq<u8>;

/// The JSON encoding of one string value.
pub uninterp spec fn json_text_enc(s: Seq<char>) -> Seq<u8>;

/// The JSON encoding of one byte-sequence value.
pub uninterp spec fn json_blob_enc(b: Seq<u8>) -> Seq<u8>;

/// The JSON encoding of one tag-and-string pair.
pub uninterp spec fn json_pair_enc(tag: u32, text: Seq<char>) -> Seq<u8>;

/// What JSON bytes decode to when read as one unsigned byte value.
pub uninterp spec fn json_byte_dec(b: Seq<u8>) -> Option<u8>;

/// What JSON bytes decode to when read as one string value.
pub uninterp spec fn json_text_dec(b: Seq<u8>) -> Option<Seq<char>>;

/// What JSON bytes decode to when read as one byte-sequence value.
pub uninterp spec fn json_blob_dec(b: Seq<u8>) -> Option<Seq<u8>>;

/// What JSON bytes decode to when read as one tag-and-string pair.
pub uninterp spec fn json_pair_dec(b: Seq<u8>) -> Option<(u32, Seq<char>)>;

/// Relies on `serde_json::to_vec` and `serde_json::from_slice`: the encoding
/// of a number depends on its value alone, serializing a number cannot fail,
/// the bytes produced are its decimal digits (at most three for a byte), and
/// they decode back to exactly that number.
#[verifier::external_body]
pub(crate) fn json_encode_byte(v: u8) -> (r: Result<Vec<u8>, serde_json::Error>)
    ensures
        r is Ok,
        r matches Ok(out) ==> out@ == json_byte_enc(v),
        r matches Ok(out) ==> out@.len() <= 3,
        r matches Ok(out) ==> json_byte_dec(out@) == Some(v),
{
    serde_json::to_vec(&v)
}

/// Relies on `serde_json::to_vec` and `serde_json::from_slice`: the encoding
/// of a string depends on its characters alone, serializing a string cannot
/// fail, and the bytes produced decode back to exactly that string — and are
/// rejected when read as a number, a JSON string not being one. The output is
/// the quoted string, each character taking at most six bytes once escaped.
#[verifier::external_body]
pub(crate) fn json_encode_text(s: &str) -> (r: Result<Vec<u8>, serde_json::Error>)
    ensures
        r is Ok,
        r matches Ok(out) ==> out@ == json_text_enc(s@),
        r matches Ok(out) ==> out@.len() <= 2 + 6 * s@.len(),
        r matches Ok(out) ==> json_text_dec(out@) == Some(s@),
        r matches Ok(out) ==> json_byte_dec(out@) is None,
{
    serde_json::to_vec(s)
}

/// Relies on `serde_json::to_vec` and `serde_json::from_slice`: the encoding
/// of a byte sequence (a JSON array of numbers) depends on its elements alone,
/// serializing it cannot fail, and the bytes produced decode back to exactly
/// that sequence. The output is the bracketed list, each element taking at
/// most four bytes (three digits and a comma).
#[verifier::external_body]
pub(crate) fn json_encode_blob(b: &[u8]) -> (r: Result<Vec<u8>, serde_json::Error>)
    ensures
        r is Ok,
        r matches Ok(out) ==> out@ == json_blob_enc(b@),
        r matches Ok(out) ==> out@.len() <= 2 + 4 * b@.len(),
        r matches Ok(out) ==> json_blob_dec(out@) == Some(b@),
{
    serde_json::to_vec(b)
}

/// Relies on `serde_json::to_vec` and `serde_json::from_slice`: the encoding
/// of a tag-and-string pair (a JSON array of two elements) depends on the pair
/// alone, serializing it cannot fail, and the bytes produced decode back to
/// exactly that pair. The output is the bracketed pair: at most ten digits of
/// the tag, a comma, the quoted string at six bytes per character, and the
/// brackets.
#[verifier::external_body]
pub(crate) fn json_encode_pair(tag: u32, text: &str) -> (r: Result<Vec<u8>, serde_json::Error>)
    ensures
        r is Ok,
        r matches Ok(out) ==> out@ == json_pair_enc(tag, text@),
        r matches Ok(out) ==> out@.len() <= 15 + 6 * text@.len(),
        r matches Ok(out) ==> json_pair_dec(out@) == Some((tag, text@)),
{
    serde_json::to_vec(&(tag, text))
}

/// Relies on `serde_json::from_slice`: success and the decoded number depend
/// on the input bytes alone.
#[verifier::external_body]
pub(crate) fn json_decode_byte(b: &[u8]) -> (r: Result<u8, serde_json::Error>)
    ensures
        r is Ok <==> json_byte_dec(b@) is Some,
        r matches Ok(v) ==> json_byte_dec(b@) == Some(v),
{
    serde_json::from_slice(b)
}

/// Relies on `serde_json::from_slice`: success and the decoded string depend
/// on the input bytes alone.
#[verifier::external_body]
pub(crate) fn json_decode_text(b: &[u8]) -> (r: Result<String, serde_json::Error>)
    ensures
        r is Ok <==> json_text_dec(b@) is Some,
        r matches Ok(s) ==> json_text_dec(b@) == Some(s@),
{
    serde_json::from_slice(b)
}

/// Relies on `serde_json::from_slice`: success and the decoded byte sequence
/// depend on the input bytes alone.
#[verifier::external_body]
pub(crate) fn json_decode_blob(b: &[u8]) -> (r: Result<Vec<u8>, serde_json::Error>)
    ensures
        r is Ok <==> json_blob_dec(b@) is Some,
        r matches Ok(v) ==> json_blob_dec(b@) == Some(v@),
{
    serde_json::from_slice(b)
}

/// Relies on `serde_json::from_slice`: success and the decoded pair depend on
/// the input bytes alone.
#[verifier::external_body]
pub(crate) fn json_decode_pair(b: &[u8]) -> (r: Result<(u32, String), serde_json::Error>)
    ensures
        r is Ok <==> json_pair_dec(b@) is Some,
        r matches Ok(p) ==> json_pair_dec(b@) == Some((p.0, p.1@)),
{
    serde_json::from_slice(b)
}

/// Translates a `serde_json` failure into the transport's unified error type:
/// the generic variant, because `serde_json` reports encode and decode causes
/// through one error type.
pub(crate) fn from_json_error(e: &serde_json::Error) -> (r: TransitError)
    ensures
        r is Error,
{
    TransitError::Error(e.to_string())
}

} // verus!
