//! The transport's stated guarantees on concrete inputs: oversize rejection,
//! buffer non-leak, cross-type rejection, and the raw codec's validation.
use transit::codec::Codec;
use transit::errors::TransitError;
use transit::udp::{SocketAddress, Transit};
use transit::wire::{encode_another, Another, Custom, Test};

fn endpoint() -> SocketAddress {
    SocketAddress::new(String::from("127.0.0.1"), 0)
}

#[test]
fn oversize_datagram_is_a_serialize_error() {
    // 70000 raw bytes exceed the 65535-byte buffer; nothing may be truncated.
    let mut t = Transit::new(Codec::Raw);
    let big = vec![7u8; 70000];
    let res = t.send_to(&big);
    assert!(matches!(res, Err(TransitError::SerializeError(_))));
    // Nothing is staged for transmission after the failure.
    assert_eq!(t.outgoing().len(), 0);
}

#[test]
fn oversize_json_datagram_is_a_serialize_error() {
    // The JSON form of 65535 characters carries two quotes more.
    let mut t = Transit::new(Codec::Json);
    let big: String = "a".repeat(65535);
    let res = t.send_to(&big);
    assert!(matches!(res, Err(TransitError::SerializeError(_))));
}

#[test]
fn largest_fitting_datagram_is_sent_whole() {
    let mut t = Transit::new(Codec::Raw);
    let exact = vec![7u8; 65535];
    let res = t.send_to(&exact);
    assert_eq!(res.unwrap(), 65535);
    assert_eq!(t.outgoing().len(), 65535);
}

#[test]
fn short_datagram_after_long_leaks_nothing() {
    // The second, shorter datagram is decoded alone: no trailing bytes of the
    // first may reach the decoder.
    let mut sender = Transit::new(Codec::Raw);
    let mut receiver = Transit::new(Codec::Raw);

    assert!(sender.send_to(&String::from("a much longer first datagram")).is_ok());
    let first = sender.outgoing().to_vec();
    let (data, _): (String, _) = receiver.recv_from(&first, endpoint()).unwrap();
    assert_eq!(data, "a much longer first datagram");

    assert!(sender.send_to(&String::from("hi")).is_ok());
    let second = sender.outgoing().to_vec();
    assert_eq!(second.len(), 2);
    let (data, _): (String, _) = receiver.recv_from(&second, endpoint()).unwrap();
    assert_eq!(data, "hi");
}

#[test]
fn staged_bytes_are_exactly_the_new_datagram() {
    // After a long send, a short send stages only the short encoding.
    let mut t = Transit::new(Codec::Json);
    assert!(t.send_to(&String::from("a rather long payload")).is_ok());
    assert!(t.send_to(&String::from("hi")).is_ok());
    assert_eq!(t.outgoing(), b"\"hi\"");
}

#[test]
fn cross_type_rejected_under_json() {
    let mut sender = Transit::new(Codec::Json);
    let mut receiver = Transit::new(Codec::Json);
    let test = Another { data: String::from("Hello") };
    assert!(sender.send_to(&test).is_ok());
    let datagram = sender.outgoing().to_vec();
    let res: Result<(Test, _), TransitError> = receiver.recv_from(&datagram, endpoint());
    // serde_json reports decode causes through its one error type, so the
    // failure surfaces as the generic variant.
    assert!(matches!(res, Err(TransitError::Error(_))));
}

#[test]
fn cross_type_rejected_under_msgpack() {
    let mut sender = Transit::new(Codec::MsgPack);
    let mut receiver = Transit::new(Codec::MsgPack);
    let test = Another { data: String::from("Hello") };
    assert!(sender.send_to(&test).is_ok());
    let datagram = sender.outgoing().to_vec();
    let res: Result<(Test, _), TransitError> = receiver.recv_from(&datagram, endpoint());
    assert!(matches!(res, Err(TransitError::DeserializeError(_))));
}

#[test]
fn encode_another_matches_transport_bytes() {
    let a = Another { data: String::from("Hello") };
    let out = encode_another(&a, Codec::Json).unwrap();
    assert_eq!(out, b"\"Hello\"");
    let mut t = Transit::new(Codec::Json);
    assert!(t.send_to(&a).is_ok());
    assert_eq!(t.outgoing(), &out[..]);
}

#[test]
fn record_has_no_raw_form() {
    let mut records: Transit<Test> = Transit::new(Codec::Raw);
    let res = records.send_to(&Test { ten: 10 });
    assert!(matches!(res, Err(TransitError::SerializeError(_))));
    let mut strings: Transit<Another> = Transit::new(Codec::Raw);
    let res = strings.send_to(&Another { data: String::from("Hello") });
    assert!(matches!(res, Err(TransitError::SerializeError(_))));
    let mut enums: Transit<Custom> = Transit::new(Codec::Raw);
    let res = enums.send_to(&Custom::First);
    assert!(matches!(res, Err(TransitError::SerializeError(_))));
}

#[test]
fn raw_text_decode_requires_utf8() {
    let mut t = Transit::new(Codec::Raw);
    let res: Result<(String, _), TransitError> = t.recv_from(&[0xffu8, 0xfe], endpoint());
    assert!(matches!(res, Err(TransitError::DeserializeError(_))));
}

#[test]
fn raw_bytes_decode_is_the_datagram_itself() {
    let mut t = Transit::new(Codec::Raw);
    let (data, _): (Vec<u8>, _) = t.recv_from(&[0xffu8, 0xfe], endpoint()).unwrap();
    assert_eq!(data, vec![0xffu8, 0xfe]);
}

#[test]
fn unknown_enum_tag_is_rejected() {
    let mut t = Transit::new(Codec::Json);
    let res: Result<(Custom, _), TransitError> = t.recv_from(b"[7,\"x\"]", endpoint());
    assert!(matches!(res, Err(TransitError::Error(_))));

    let mut t = Transit::new(Codec::MsgPack);
    // A two-element array: tag 7 and the one-character string "x".
    let datagram = [0x92u8, 0x07, 0xa1, b'x'];
    let res: Result<(Custom, _), TransitError> = t.recv_from(&datagram, endpoint());
    assert!(matches!(res, Err(TransitError::DeserializeError(_))));
}

#[test]
fn garbage_datagram_is_rejected() {
    let mut t = Transit::new(Codec::Json);
    let res: Result<(String, _), TransitError> = t.recv_from(b"not json", endpoint());
    assert!(matches!(res, Err(TransitError::Error(_))));

    let mut t = Transit::new(Codec::MsgPack);
    let res: Result<(String, _), TransitError> = t.recv_from(&[0xc1u8], endpoint());
    assert!(matches!(res, Err(TransitError::DeserializeError(_))));
}
