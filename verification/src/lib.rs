//! A typed datagram transport core: values are converted to and from byte
//! datagrams by a pluggable codec, staged in one reusable bounded buffer, and
//! every failure is surfaced through one unified error type.
//!
//! Socket I/O itself is left to the caller: the library prepares the exact
//! bytes of an outgoing datagram and decodes the exact bytes of an incoming
//! one, so a thin layer around a bound UDP socket completes the transport.
pub mod buffer;
pub mod codec;
pub mod errors;
pub mod json;
pub mod msgpack;
pub mod raw;
pub mod udp;
pub mod wire;
