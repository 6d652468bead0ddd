//! The codec strategy: how a payload value is converted to and from the byte
//! contents of one datagram.
use crate::buffer::MAX_UDP_SIZE;
use crate::errors::TransitError;
use vstd::prelude::*;

verus! {

/// The strategies a transport can be constructed with. Exactly one is chosen
/// per transport, at construction.
///
/// Guarantee level per strategy: `Json` and `MsgPack` are schema-aware — bytes
/// that do not match the requested payload shape are rejected on decode.
/// `MsgPack` failures separate into `SerializeError` / `DeserializeError`;
/// `Json` failures all surface as the generic `Error` variant, because the
/// underlying codec reports encode and decode causes through one error type.
/// `Raw` transmits a value's own byte view and cannot detect a cross-type
/// decode by construction; its only decode check is the validity the payload
/// type itself requires (UTF-8 well-formedness for text).
#[derive(Clone, Copy, PartialEq, Eq, Structural, Debug)]
pub enum Codec {
    Json,
    MsgPack,
    Raw,
}

/// The error variant a failed decode surfaces under each codec.
pub open spec fn decode_failure(c: Codec, e: TransitError) -> bool {
    match c {
        Codec::Json => e is Error,
        Codec::MsgPack => e is DeserializeError,
        Codec::Raw => e is DeserializeError,
    }
}

/// The capability pair every payload type offers the transport: encode to the
/// bytes of one datagram and decode back from them. Implementations never
/// reinterpret a value's memory; they delegate the byte work to the chosen
/// codec.
pub trait Wire: Sized {
    /// Payloads that carry the same value.
    spec fn wire_eq(self, other: Self) -> bool;

    /// Whether this value has an encoded form under codec `c`.
    spec fn encodable(self, c: Codec) -> bool;

    /// The encoded form of this value under codec `c`, when it has one.
    spec fn enc(self, c: Codec) -> Seq<u8>;

    /// A bound on the value itself under which its encoded form is known to
    /// fit one datagram. It lets a caller settle, before encoding, that a
    /// send of a small value succeeds.
    spec fn enc_fits(self, c: Codec) -> bool;

    /// Whether the bytes `b` decode to a value of this type under codec `c`.
    /// It depends on `b` and `c` alone.
    spec fn dec_ok(b: Seq<u8>, c: Codec) -> bool;

    /// Whether `v` is the value the bytes `b` decode to under codec `c`.
    spec fn dec_is(b: Seq<u8>, c: Codec, v: Self) -> bool;

    /// Encodes this value into the bytes of one datagram. Round trip: the
    /// bytes produced decode, and only to a payload carrying the same value.
    fn encode(&self, c: Codec) -> (r: Result<Vec<u8>, TransitError>)
        ensures
            r is Ok <==> self.encodable(c),
            r matches Ok(v) ==> v@ == self.enc(c),
            r matches Ok(v) ==> Self::dec_ok(v@, c),
            r matches Ok(v) ==> (forall|w: Self| Self::dec_is(v@, c, w) ==> w.wire_eq(*self)),
            self.encodable(c) && self.enc_fits(c) ==> self.enc(c).len() <= MAX_UDP_SIZE,
            r matches Err(e) ==> e is SerializeError,
    ;

    /// Decodes the bytes of one datagram. Success, and the value on success,
    /// depend on `b` and `c` alone.
    fn decode(b: &[u8], c: Codec) -> (r: Result<Self, TransitError>)
        ensures
            r is Ok <==> Self::dec_ok(b@, c),
            r matches Ok(w) ==> Self::dec_is(b@, c, w),
            r matches Err(e) ==> decode_failure(c, e),
    ;
}

} // verus!
