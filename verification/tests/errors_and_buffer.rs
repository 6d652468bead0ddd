//! The error taxonomy's rendering and the buffer manager's counting.
use transit::buffer::{udp_buffer, ByteCounter};
use transit::errors::TransitError;

#[test]
fn error_rendering_delegates_to_the_cause() {
    let e = TransitError::IoError(String::from("address in use"));
    assert_eq!(e.description(), "address in use");
    assert_eq!(e.cause().unwrap(), "address in use");
    assert_eq!(e.message(), "IoError: address in use");

    let e = TransitError::SerializeError(String::from("too big"));
    assert_eq!(e.message(), "SerializeError: too big");

    let e = TransitError::DeserializeError(String::from("bad bytes"));
    assert_eq!(e.message(), "DeserializeError: bad bytes");
    assert_eq!(e.description(), "bad bytes");

    let e = TransitError::Error(String::from("odd"));
    assert_eq!(e.message(), "Error: odd");
    assert_eq!(e.cause().unwrap(), "odd");
}

#[test]
fn udp_buffer_is_the_full_datagram_range() {
    let buf = udp_buffer();
    assert_eq!(buf.len(), 65535);
    assert!(buf.iter().all(|b| *b == 0));
}

#[test]
fn byte_counter_counts_exactly() {
    let mut bc = ByteCounter::new(vec![0u8; 8]);
    assert_eq!(bc.write_count(), 0);
    assert_eq!(bc.write(&[1, 2, 3]), 3);
    assert_eq!(bc.write_count(), 3);
    assert_eq!(bc.write(&[4, 5]), 2);
    assert_eq!(bc.write_count(), 5);
    assert_eq!(bc.written_bytes(), &[1, 2, 3, 4, 5]);
}

#[test]
fn byte_counter_writes_only_what_fits() {
    let mut bc = ByteCounter::new(vec![0u8; 4]);
    assert_eq!(bc.write(&[1, 2, 3, 4, 5, 6]), 4);
    assert_eq!(bc.write_count(), 4);
    assert_eq!(bc.written_bytes(), &[1, 2, 3, 4]);
    assert_eq!(bc.write(&[7]), 0);
    assert_eq!(bc.write_count(), 4);
}

#[test]
fn byte_counter_reset_reuses_the_region() {
    let mut bc = ByteCounter::new(vec![0u8; 4]);
    assert_eq!(bc.write(&[9, 9, 9]), 3);
    bc.reset();
    assert_eq!(bc.write_count(), 0);
    assert_eq!(bc.write(&[1]), 1);
    assert_eq!(bc.written_bytes(), &[1]);
}
