//! Exact wire bytes per codec: each payload shape has one known encoding, so
//! a codec that altered, padded or passed bytes through unchanged would be
//! caught here.
use transit::codec::Codec;
use transit::errors::TransitError;
use transit::udp::{SocketAddress, Transit};
use transit::wire::{Custom, Test};

fn endpoint() -> SocketAddress {
    SocketAddress::new(String::from("127.0.0.1"), 0)
}

#[test]
fn json_wire_bytes() {
    let mut records: Transit<Test> = Transit::new(Codec::Json);
    assert_eq!(records.send_to(&Test { ten: 10 }).unwrap(), 2);
    assert_eq!(records.outgoing(), b"10");

    let mut texts: Transit<String> = Transit::new(Codec::Json);
    assert_eq!(texts.send_to(&String::from("hello")).unwrap(), 7);
    assert_eq!(texts.outgoing(), b"\"hello\"");

    let mut blobs: Transit<Vec<u8>> = Transit::new(Codec::Json);
    assert_eq!(blobs.send_to(&vec![9u8]).unwrap(), 3);
    assert_eq!(blobs.outgoing(), b"[9]");

    let mut enums: Transit<Custom> = Transit::new(Codec::Json);
    assert!(enums.send_to(&Custom::Second(String::from("Hello"))).is_ok());
    assert_eq!(enums.outgoing(), b"[1,\"Hello\"]");

    assert!(enums.send_to(&Custom::First).is_ok());
    assert_eq!(enums.outgoing(), b"[0,\"\"]");
}

#[test]
fn msgpack_wire_bytes() {
    let mut records: Transit<Test> = Transit::new(Codec::MsgPack);
    assert_eq!(records.send_to(&Test { ten: 10 }).unwrap(), 1);
    assert_eq!(records.outgoing(), &[0x0au8]);

    let mut texts: Transit<String> = Transit::new(Codec::MsgPack);
    assert_eq!(texts.send_to(&String::from("hello")).unwrap(), 6);
    assert_eq!(texts.outgoing(), &[0xa5u8, b'h', b'e', b'l', b'l', b'o']);

    let mut blobs: Transit<Vec<u8>> = Transit::new(Codec::MsgPack);
    assert_eq!(blobs.send_to(&vec![9u8]).unwrap(), 2);
    assert_eq!(blobs.outgoing(), &[0x91u8, 0x09]);

    let mut enums: Transit<Custom> = Transit::new(Codec::MsgPack);
    assert!(enums.send_to(&Custom::Second(String::from("Hi"))).is_ok());
    assert_eq!(enums.outgoing(), &[0x92u8, 0x01, 0xa2, b'H', b'i']);
}

#[test]
fn decode_accepts_only_matching_shapes() {
    // A JSON number is not a string: the text decoder must reject what the
    // byte decoder accepts, and the other way round.
    let mut records: Transit<Test> = Transit::new(Codec::Json);
    let mut texts: Transit<String> = Transit::new(Codec::Json);
    assert!(records.recv_from(b"10", endpoint()).is_ok());
    assert!(texts.recv_from(b"10", endpoint()).is_err());
    assert!(texts.recv_from(b"\"10\"", endpoint()).is_ok());
    assert!(records.recv_from(b"\"10\"", endpoint()).is_err());
}

#[test]
fn decoded_value_comes_from_the_bytes() {
    let mut t: Transit<Test> = Transit::new(Codec::MsgPack);
    let res: Result<(Test, _), TransitError> = t.recv_from(&[0x2au8], endpoint());
    let (data, _) = res.unwrap();
    assert_eq!(data.ten, 42);
}

#[test]
fn fresh_transport_stages_nothing() {
    let t: Transit<Test> = Transit::new(Codec::Json);
    assert_eq!(t.outgoing(), b"");
}
