//! The payload types the transport carries, each with its capability pair:
//! encode to the bytes of one datagram, decode back from them.
use crate::codec::{Codec, Wire};
use crate::errors::TransitError;
use crate::json::{
    from_json_error, json_decode_blob, json_decode_byte, json_decode_pair, json_decode_text,
    json_encode_blob, json_encode_byte, json_encode_pair, json_encode_text, json_blob_dec,
    json_blob_enc, json_byte_dec, json_byte_enc, json_pair_dec, json_pair_enc, json_text_dec,
    json_text_enc,
};
use crate::msgpack::{
    from_mp_decode_error, from_mp_encode_error, mp_decode_blob, mp_decode_byte, mp_decode_pair,
    mp_decode_text, mp_encode_blob, mp_encode_byte, mp_encode_pair, mp_encode_text, mp_blob_dec,
    mp_blob_enc, mp_byte_dec, mp_byte_enc, mp_pair_dec, mp_pair_enc, mp_text_dec, mp_text_enc,
};
use crate::buffer::MAX_UDP_SIZE;
use crate::raw::utf8_to_str;
use vstd::prelude::*;
use vstd::slice::slice_to_vec;
use vstd::string::{StrSliceExecFns, StringSliceAdditionalSpecFns};
use vstd::utf8::{encode_utf8, encode_utf8_decode_utf8, encode_utf8_valid_utf8, valid_utf8};

verus! {

/// The UTF-8 encoding of a character sequence takes at most four bytes per
/// character.
proof fn lemma_encode_utf8_len(chars: Seq<char>)
    ensures
        encode_utf8(chars).len() <= 4 * chars.len(),
    decreases chars.len(),
{
    if chars.len() == 0 {
    } else {
        lemma_encode_utf8_len(chars.drop_first());
    }
}

/// A sample record payload carrying one small number. Under the schema-aware
/// codecs its wire form is that number; it has no raw byte view.
#[derive(Clone, PartialEq, Eq, Structural, Debug)]
pub struct Test {
    pub ten: u8,
}

/// A sample record payload carrying one string. Under the schema-aware codecs
/// its wire form is that string; it has no raw byte view.
#[derive(Clone, PartialEq, Debug)]
pub struct Another {
    pub data: String,
}

/// A sample enum payload. Under the schema-aware codecs its wire form is a
/// tag-and-string pair: the variant's tag and the carried string, empty for
/// the unit variant. It has no raw byte view.
#[derive(Clone, PartialEq, Debug)]
pub enum Custom {
    First,
    Second(String),
}

impl Custom {
    /// The tag naming this value's variant on the wire.
    pub open spec fn tag(self) -> u32 {
        match self {
            Custom::First => 0,
            Custom::Second(_) => 1,
        }
    }

    /// The string this value carries on the wire: empty for the unit variant.
    pub open spec fn text(self) -> Seq<char> {
        match self {
            Custom::First => ""@,
            Custom::Second(s) => s@,
        }
    }
}

impl Wire for Test {
    open spec fn wire_eq(self, other: Test) -> bool {
        self.ten == other.ten
    }

    open spec fn encodable(self, c: Codec) -> bool {
        c != Codec::Raw
    }

    open spec fn enc_fits(self, c: Codec) -> bool {
        true
    }

    open spec fn enc(self, c: Codec) -> Seq<u8> {
        match c {
            Codec::Json => json_byte_enc(self.ten),
            Codec::MsgPack => mp_byte_enc(self.ten),
            Codec::Raw => Seq::empty(),
        }
    }

    open spec fn dec_ok(b: Seq<u8>, c: Codec) -> bool {
        match c {
            Codec::Json => json_byte_dec(b) is Some,
            Codec::MsgPack => mp_byte_dec(b) is Some,
            Codec::Raw => false,
        }
    }

    open spec fn dec_is(b: Seq<u8>, c: Codec, v: Test) -> bool {
        match c {
            Codec::Json => json_byte_dec(b) == Some(v.ten),
            Codec::MsgPack => mp_byte_dec(b) == Some(v.ten),
            Codec::Raw => false,
        }
    }

    fn encode(&self, c: Codec) -> (r: Result<Vec<u8>, TransitError>) {
        match c {
            Codec::Json => match json_encode_byte(self.ten) {
                Ok(out) => Ok(out),
                Err(e) => Err(from_json_error(&e)),
            },
            Codec::MsgPack => match mp_encode_byte(self.ten) {
                Ok(out) => Ok(out),
                Err(e) => Err(from_mp_encode_error(&e)),
            },
            Codec::Raw => Err(
                TransitError::SerializeError("record has no raw byte form".to_owned()),
            ),
        }
    }

    fn decode(b: &[u8], c: Codec) -> (r: Result<Test, TransitError>) {
        match c {
            Codec::Json => match json_decode_byte(b) {
                Ok(v) => Ok(Test { ten: v }),
                Err(e) => Err(from_json_error(&e)),
            },
            Codec::MsgPack => match mp_decode_byte(b) {
                Ok(v) => Ok(Test { ten: v }),
                Err(e) => Err(from_mp_decode_error(&e)),
            },
            Codec::Raw => Err(
                TransitError::DeserializeError("record has no raw byte form".to_owned()),
            ),
        }
    }
}

/// Encodes an `Another` value under codec `c`, with the cross-type rejection
/// guarantee of the schema-aware codecs made explicit: the bytes produced
/// never decode as a `Test`, whose wire form is a number where `Another`'s is
/// a string.
pub fn encode_another(a: &Another, c: Codec) -> (r: Result<Vec<u8>, TransitError>)
    ensures
        r is Ok <==> a.encodable(c),
        r matches Ok(out) ==> out@ == a.enc(c),
        r matches Ok(out) ==> <Another as Wire>::dec_ok(out@, c),
        r matches Ok(out) ==> (forall|w: Another|
            <Another as Wire>::dec_is(out@, c, w) ==> w.wire_eq(*a)),
        a.encodable(c) && a.enc_fits(c) ==> a.enc(c).len() <= MAX_UDP_SIZE,
        r matches Ok(out) ==> !<Test as Wire>::dec_ok(out@, c),
        r matches Err(e) ==> e is SerializeError,
{
    match c {
        Codec::Json => match json_encode_text(a.data.as_str()) {
            Ok(out) => Ok(out),
            Err(e) => Err(from_json_error(&e)),
        },
        Codec::MsgPack => {
            if a.data.as_str().as_bytes().len() <= 0xffff_ffff {
                let res = mp_encode_text(a.data.as_str());
                proof {
                    lemma_encode_utf8_len(a.data@);
                }
                match res {
                    Ok(out) => Ok(out),
                    Err(e) => Err(from_mp_encode_error(&e)),
                }
            } else {
                Err(
                    TransitError::SerializeError(
                        "string exceeds the codec length limit".to_owned(),
                    ),
                )
            }
        },
        Codec::Raw => Err(TransitError::SerializeError("record has no raw byte form".to_owned())),
    }
}

impl Wire for Another {
    open spec fn wire_eq(self, other: Another) -> bool {
        self.data@ == other.data@
    }

    open spec fn encodable(self, c: Codec) -> bool {
        match c {
            Codec::Json => true,
            Codec::MsgPack => encode_utf8(self.data@).len() <= 0xffff_ffff,
            Codec::Raw => false,
        }
    }

    open spec fn enc_fits(self, c: Codec) -> bool {
        16 + 6 * self.data@.len() <= MAX_UDP_SIZE
    }

    open spec fn enc(self, c: Codec) -> Seq<u8> {
        match c {
            Codec::Json => json_text_enc(self.data@),
            Codec::MsgPack => mp_text_enc(self.data@),
            Codec::Raw => Seq::empty(),
        }
    }

    open spec fn dec_ok(b: Seq<u8>, c: Codec) -> bool {
        match c {
            Codec::Json => json_text_dec(b) is Some,
            Codec::MsgPack => mp_text_dec(b) is Some,
            Codec::Raw => false,
        }
    }

    open spec fn dec_is(b: Seq<u8>, c: Codec, v: Another) -> bool {
        match c {
            Codec::Json => json_text_dec(b) == Some(v.data@),
            Codec::MsgPack => mp_text_dec(b) == Some(v.data@),
            Codec::Raw => false,
        }
    }

    fn encode(&self, c: Codec) -> (r: Result<Vec<u8>, TransitError>) {
        encode_another(self, c)
    }

    fn decode(b: &[u8], c: Codec) -> (r: Result<Another, TransitError>) {
        match c {
            Codec::Json => match json_decode_text(b) {
                Ok(s) => Ok(Another { data: s }),
                Err(e) => Err(from_json_error(&e)),
            },
            Codec::MsgPack => match mp_decode_text(b) {
                Ok(s) => Ok(Another { data: s }),
                Err(e) => Err(from_mp_decode_error(&e)),
            },
            Codec::Raw => Err(
                TransitError::DeserializeError("record has no raw byte form".to_owned()),
            ),
        }
    }
}

impl Wire for Custom {
    open spec fn wire_eq(self, other: Custom) -> bool {
        self.tag() == other.tag() && self.text() == other.text()
    }

    open spec fn encodable(self, c: Codec) -> bool {
        match c {
            Codec::Json => true,
            Codec::MsgPack => encode_utf8(self.text()).len() <= 0xffff_ffff,
            Codec::Raw => false,
        }
    }

    open spec fn enc_fits(self, c: Codec) -> bool {
        16 + 6 * self.text().len() <= MAX_UDP_SIZE
    }

    open spec fn enc(self, c: Codec) -> Seq<u8> {
        match c {
            Codec::Json => json_pair_enc(self.tag(), self.text()),
            Codec::MsgPack => mp_pair_enc(self.tag(), self.text()),
            Codec::Raw => Seq::empty(),
        }
    }

    open spec fn dec_ok(b: Seq<u8>, c: Codec) -> bool {
        match c {
            Codec::Json => json_pair_dec(b) matches Some(p) && p.0 <= 1,
            Codec::MsgPack => mp_pair_dec(b) matches Some(p) && p.0 <= 1,
            Codec::Raw => false,
        }
    }

    open spec fn dec_is(b: Seq<u8>, c: Codec, v: Custom) -> bool {
        match c {
            Codec::Json => json_pair_dec(b) matches Some(p) && p.0 == v.tag() && (v.tag() == 1
                ==> p.1 == v.text()),
            Codec::MsgPack => mp_pair_dec(b) matches Some(p) && p.0 == v.tag() && (v.tag() == 1
                ==> p.1 == v.text()),
            Codec::Raw => false,
        }
    }

    fn encode(&self, c: Codec) -> (r: Result<Vec<u8>, TransitError>) {
        let tag: u32 = match self {
            Custom::First => 0,
            Custom::Second(_) => 1,
        };
        let text: &str = match self {
            Custom::First => "",
            Custom::Second(s) => s.as_str(),
        };
        match c {
            Codec::Json => match json_encode_pair(tag, text) {
                Ok(out) => Ok(out),
                Err(e) => Err(from_json_error(&e)),
            },
            Codec::MsgPack => {
                if text.as_bytes().len() <= 0xffff_ffff {
                    let res = mp_encode_pair(tag, text);
                    proof {
                        lemma_encode_utf8_len(self.text());
                    }
                    match res {
                        Ok(out) => Ok(out),
                        Err(e) => Err(from_mp_encode_error(&e)),
                    }
                } else {
                    Err(
                        TransitError::SerializeError(
                            "string exceeds the codec length limit".to_owned(),
                        ),
                    )
                }
            },
            Codec::Raw => Err(
                TransitError::SerializeError("enum has no raw byte form".to_owned()),
            ),
        }
    }

    fn decode(b: &[u8], c: Codec) -> (r: Result<Custom, TransitError>) {
        match c {
            Codec::Json => match json_decode_pair(b) {
                Ok(p) => {
                    if p.0 == 0 {
                        Ok(Custom::First)
                    } else if p.0 == 1 {
                        Ok(Custom::Second(p.1))
                    } else {
                        Err(TransitError::Error("unknown variant tag".to_owned()))
                    }
                },
                Err(e) => Err(from_json_error(&e)),
            },
            Codec::MsgPack => match mp_decode_pair(b) {
                Ok(p) => {
                    if p.0 == 0 {
                        Ok(Custom::First)
                    } else if p.0 == 1 {
                        Ok(Custom::Second(p.1))
                    } else {
                        Err(TransitError::DeserializeError("unknown variant tag".to_owned()))
                    }
                },
                Err(e) => Err(from_mp_decode_error(&e)),
            },
            Codec::Raw => Err(
                TransitError::DeserializeError("enum has no raw byte form".to_owned()),
            ),
        }
    }
}

impl Wire for String {
    open spec fn wire_eq(self, other: String) -> bool {
        self@ == other@
    }

    open spec fn encodable(self, c: Codec) -> bool {
        match c {
            Codec::Json => true,
            Codec::MsgPack => encode_utf8(self@).len() <= 0xffff_ffff,
            Codec::Raw => true,
        }
    }

    open spec fn enc_fits(self, c: Codec) -> bool {
        16 + 6 * self@.len() <= MAX_UDP_SIZE
    }

    open spec fn enc(self, c: Codec) -> Seq<u8> {
        match c {
            Codec::Json => json_text_enc(self@),
            Codec::MsgPack => mp_text_enc(self@),
            Codec::Raw => encode_utf8(self@),
        }
    }

    open spec fn dec_ok(b: Seq<u8>, c: Codec) -> bool {
        match c {
            Codec::Json => json_text_dec(b) is Some,
            Codec::MsgPack => mp_text_dec(b) is Some,
            Codec::Raw => valid_utf8(b),
        }
    }

    open spec fn dec_is(b: Seq<u8>, c: Codec, v: String) -> bool {
        match c {
            Codec::Json => json_text_dec(b) == Some(v@),
            Codec::MsgPack => mp_text_dec(b) == Some(v@),
            Codec::Raw => valid_utf8(b) && encode_utf8(v@) == b,
        }
    }

    fn encode(&self, c: Codec) -> (r: Result<Vec<u8>, TransitError>) {
        match c {
            Codec::Json => match json_encode_text(self.as_str()) {
                Ok(out) => Ok(out),
                Err(e) => Err(from_json_error(&e)),
            },
            Codec::MsgPack => {
                if self.as_str().as_bytes().len() <= 0xffff_ffff {
                    let res = mp_encode_text(self.as_str());
                    proof {
                        lemma_encode_utf8_len(self@);
                    }
                    match res {
                        Ok(out) => Ok(out),
                        Err(e) => Err(from_mp_encode_error(&e)),
                    }
                } else {
                    Err(
                        TransitError::SerializeError(
                            "string exceeds the codec length limit".to_owned(),
                        ),
                    )
                }
            },
            Codec::Raw => {
                let out = self.as_str().as_bytes_vec();
                proof {
                    broadcast use encode_utf8_valid_utf8;

                    lemma_encode_utf8_len(self@);
                    assert forall|w: String| Self::dec_is(out@, c, w) implies w.wire_eq(
                        *self,
                    ) by {
                        encode_utf8_decode_utf8(w@);
                        encode_utf8_decode_utf8(self@);
                    }
                }
                Ok(out)
            },
        }
    }

    fn decode(b: &[u8], c: Codec) -> (r: Result<String, TransitError>) {
        match c {
            Codec::Json => match json_decode_text(b) {
                Ok(s) => Ok(s),
                Err(e) => Err(from_json_error(&e)),
            },
            Codec::MsgPack => match mp_decode_text(b) {
                Ok(s) => Ok(s),
                Err(e) => Err(from_mp_decode_error(&e)),
            },
            Codec::Raw => match utf8_to_str(b) {
                Some(s) => Ok(s.to_owned()),
                None => Err(
                    TransitError::DeserializeError("datagram is not valid UTF-8".to_owned()),
                ),
            },
        }
    }
}

impl Wire for Vec<u8> {
    open spec fn wire_eq(self, other: Vec<u8>) -> bool {
        self@ == other@
    }

    open spec fn encodable(self, c: Codec) -> bool {
        match c {
            Codec::Json => true,
            Codec::MsgPack => self@.len() <= 0xffff_ffff,
            Codec::Raw => true,
        }
    }

    open spec fn enc_fits(self, c: Codec) -> bool {
        5 + 4 * self@.len() <= MAX_UDP_SIZE
    }

    open spec fn enc(self, c: Codec) -> Seq<u8> {
        match c {
            Codec::Json => json_blob_enc(self@),
            Codec::MsgPack => mp_blob_enc(self@),
            Codec::Raw => self@,
        }
    }

    open spec fn dec_ok(b: Seq<u8>, c: Codec) -> bool {
        match c {
            Codec::Json => json_blob_dec(b) is Some,
            Codec::MsgPack => mp_blob_dec(b) is Some,
            Codec::Raw => true,
        }
    }

    open spec fn dec_is(b: Seq<u8>, c: Codec, v: Vec<u8>) -> bool {
        match c {
            Codec::Json => json_blob_dec(b) == Some(v@),
            Codec::MsgPack => mp_blob_dec(b) == Some(v@),
            Codec::Raw => v@ == b,
        }
    }

    fn encode(&self, c: Codec) -> (r: Result<Vec<u8>, TransitError>) {
        match c {
            Codec::Json => match json_encode_blob(self.as_slice()) {
                Ok(out) => Ok(out),
                Err(e) => Err(from_json_error(&e)),
            },
            Codec::MsgPack => {
                if self.len() <= 0xffff_ffff {
                    match mp_encode_blob(self.as_slice()) {
                        Ok(out) => Ok(out),
                        Err(e) => Err(from_mp_encode_error(&e)),
                    }
                } else {
                    Err(
                        TransitError::SerializeError(
                            "byte sequence exceeds the codec length limit".to_owned(),
                        ),
                    )
                }
            },
            Codec::Raw => Ok(slice_to_vec(self.as_slice())),
        }
    }

    fn decode(b: &[u8], c: Codec) -> (r: Result<Vec<u8>, TransitError>) {
        match c {
            Codec::Json => match json_decode_blob(b) {
                Ok(v) => Ok(v),
                Err(e) => Err(from_json_error(&e)),
            },
            Codec::MsgPack => match mp_decode_blob(b) {
                Ok(v) => Ok(v),
                Err(e) => Err(from_mp_decode_error(&e)),
            },
            Codec::Raw => Ok(slice_to_vec(b)),
        }
    }
}

} // verus!
