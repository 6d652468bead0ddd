//! The schema-aware binary codec: MessagePack through `rmp_serde`. Each
//! payload shape the transport carries gets one encoding function and one
//! decoding function; the encoded and decoded forms are named by
//! uninterpreted functions, and each encoder is trusted to produce bytes the
//! matching decoder inverts.
use crate::errors::TransitError;
use vstd::prelude::*;
use vstd::string::StringSliceAdditionalSpecFns;

verus! {

/// The `rmp_serde` encode error type, carried only between a codec call and
/// its translation into `TransitError`.
#[verifier::external_type_specification]
#[verifier::external_body]
pub struct ExMpEncodeError(rmp_serde::encode::Error);

/// The `rmp_serde` decode error type, carried only between a codec call and
/// its translation into `TransitError`.
#[verifier::external_type_specification]
#[verifier::external_body]
pub struct ExMpDecodeError(rmp_serde::decode::Error);

/// The MessagePack encoding of one unsigned byte value.
pub uninterp spec fn mp_byte_enc(v: u8) -> Seq<u8>;

/// The MessagePack encoding of one string value.
pub uninterp spec fn mp_text_enc(s: Seq<char>) -> Seq<u8>;

/// The MessagePack encoding of one byte-sequence value.
pub uninterp spec fn mp_blob_enc(b: Seq<u8>) -> Seq<u8>;

/// The MessagePack encoding of one tag-and-string pair.
pub uninterp spec fn mp_pair_enc(tag: u32, text: Seq<char>) -> Seq<u8>;

/// What MessagePack bytes decode to when read as one unsigned byte value.
pub uninterp spec fn mp_byte_dec(b: Seq<u8>) -> Option<u8>;

/// What MessagePack bytes decode to when read as one string value.
pub uninterp spec fn mp_text_dec(b: Seq<u8>) -> Option<Seq<char>>;

/// What MessagePack bytes decode to when read as one byte-sequence value.
pub uninterp spec fn mp_blob_dec(b: Seq<u8>) -> Option<Seq<u8>>;

/// What MessagePack bytes decode to when read as one tag-and-string pair.
pub uninterp spec fn mp_pair_dec(b: Seq<u8>) -> Option<(u32, Seq<char>)>;

/// Relies on `rmp_serde::to_vec` and `rmp_serde::from_slice`: the encoding of
/// a number depends on its value alone, serializing a number into a byte
/// vector cannot fail, the bytes produced are one fixint byte or a marker and
/// the value, and they decode back to exactly that number.
#[verifier::external_body]
pub(crate) fn mp_encode_byte(v: u8) -> (r: Result<Vec<u8>, rmp_serde::encode::Error>)
    ensures
        r is Ok,
        r matches Ok(out) ==> out@ == mp_byte_enc(v),
        r matches Ok(out) ==> out@.len() <= 2,
        r matches Ok(out) ==> mp_byte_dec(out@) == Some(v),
{
    rmp_serde::to_vec(&v)
}

/// Relies on `rmp_serde::to_vec` and `rmp_serde::from_slice`: the encoding of
/// a string depends on its characters alone, serializing a string into a byte
/// vector cannot fail, the bytes produced are a header of at most five bytes
/// and the string's UTF-8 bytes, and they decode back to exactly that string —
/// and are rejected when read as a number, a MessagePack string marker not
/// being an integer marker. The string's byte length must fit the format's
/// 32-bit length header, which the encoder would otherwise truncate silently.
#[verifier::external_body]
pub(crate) fn mp_encode_text(s: &str) -> (r: Result<Vec<u8>, rmp_serde::encode::Error>)
    requires
        s.spec_bytes().len() <= 0xffff_ffff,
    ensures
        r is Ok,
        r matches Ok(out) ==> out@ == mp_text_enc(s@),
        r matches Ok(out) ==> out@.len() <= 5 + s.spec_bytes().len(),
        r matches Ok(out) ==> mp_text_dec(out@) == Some(s@),
        r matches Ok(out) ==> mp_byte_dec(out@) is None,
{
    rmp_serde::to_vec(s)
}

/// Relies on `rmp_serde::to_vec` and `rmp_serde::from_slice`: the encoding of
/// a byte sequence (a MessagePack array of integers) depends on its elements
/// alone, serializing it into a byte vector cannot fail, the bytes produced
/// are a header of at most five bytes and at most two bytes per element, and
/// they decode back to exactly that sequence. The sequence's length must fit
/// the format's 32-bit length header, which the encoder would otherwise
/// truncate silently.
#[verifier::external_body]
pub(crate) fn mp_encode_blob(b: &[u8]) -> (r: Result<Vec<u8>, rmp_serde::encode::Error>)
    requires
        b@.len() <= 0xffff_ffff,
    ensures
        r is Ok,
        r matches Ok(out) ==> out@ == mp_blob_enc(b@),
        r matches Ok(out) ==> out@.len() <= 5 + 2 * b@.len(),
        r matches Ok(out) ==> mp_blob_dec(out@) == Some(b@),
{
    rmp_serde::to_vec(b)
}

/// Relies on `rmp_serde::to_vec` and `rmp_serde::from_slice`: the encoding of
/// a tag-and-string pair (a MessagePack array of two elements) depends on the
/// pair alone, serializing it into a byte vector cannot fail, the bytes
/// produced are the pair's array byte, at most five bytes of tag, and the
/// string at a five-byte header plus its UTF-8 bytes, and they decode back to
/// exactly that pair. The string's byte length must fit the format's 32-bit
/// length header, which the encoder would otherwise truncate silently.
#[verifier::external_body]
pub(crate) fn mp_encode_pair(tag: u32, text: &str) -> (r: Result<
    Vec<u8>,
    rmp_serde::encode::Error,
>)
    requires
        text.spec_bytes().len() <= 0xffff_ffff,
    ensures
        r is Ok,
        r matches Ok(out) ==> out@ == mp_pair_enc(tag, text@),
        r matches Ok(out) ==> out@.len() <= 11 + text.spec_bytes().len(),
        r matches Ok(out) ==> mp_pair_dec(out@) == Some((tag, text@)),
{
    rmp_serde::to_vec(&(tag, text))
}

/// Relies on `rmp_serde::from_slice`: success and the decoded number depend on
/// the input bytes alone.
#[verifier::external_body]
pub(crate) fn mp_decode_byte(b: &[u8]) -> (r: Result<u8, rmp_serde::decode::Error>)
    ensures
        r is Ok <==> mp_byte_dec(b@) is Some,
        r matches Ok(v) ==> mp_byte_dec(b@) == Some(v),
{
    rmp_serde::from_slice(b)
}

/// Relies on `rmp_serde::from_slice`: success and the decoded string depend on
/// the input bytes alone.
#[verifier::external_body]
pub(crate) fn mp_decode_text(b: &[u8]) -> (r: Result<String, rmp_serde::decode::Error>)
    ensures
        r is Ok <==> mp_text_dec(b@) is Some,
        r matches Ok(s) ==> mp_text_dec(b@) == Some(s@),
{
    rmp_serde::from_slice(b)
}

/// Relies on `rmp_serde::from_slice`: success and the decoded byte sequence
/// depend on the input bytes alone.
#[verifier::external_body]
pub(crate) fn mp_decode_blob(b: &[u8]) -> (r: Result<Vec<u8>, rmp_serde::decode::Error>)
    ensures
        r is Ok <==> mp_blob_dec(b@) is Some,
        r matches Ok(v) ==> mp_blob_dec(b@) == Some(v@),
{
    rmp_serde::from_slice(b)
}

/// Relies on `rmp_serde::from_slice`: success and the decoded pair depend on
/// the input bytes alone.
#[verifier::external_body]
pub(crate) fn mp_decode_pair(b: &[u8]) -> (r: Result<(u32, String), rmp_serde::decode::Error>)
    ensures
        r is Ok <==> mp_pair_dec(b@) is Some,
        r matches Ok(p) ==> mp_pair_dec(b@) == Some((p.0, p.1@)),
{
    rmp_serde::from_slice(b)
}

/// Translates an `rmp_serde` encode failure into the transport's unified
/// error type.
pub(crate) fn from_mp_encode_error(e: &rmp_serde::encode::Error) -> (r: TransitError)
    ensures
        r is SerializeError,
{
    TransitError::SerializeError(e.to_string())
}

/// Translates an `rmp_serde` decode failure into the transport's unified
/// error type.
pub(crate) fn from_mp_decode_error(e: &rmp_serde::decode::Error) -> (r: TransitError)
    ensures
        r is DeserializeError,
{
    TransitError::DeserializeError(e.to_string())
}

} // verus!
