//! The transport: one reusable bounded buffer and one codec strategy, composed
//! into typed send and receive over the bytes of single datagrams. Socket I/O
//! stays with the caller: a send hands back the exact bytes to transmit, and a
//! receive takes the exact bytes one datagram carried.
use crate::buffer::{udp_buffer, ByteCounter, MAX_UDP_SIZE};
use crate::codec::{decode_failure, Codec, Wire};
use crate::errors::TransitError;
use vstd::prelude::*;

verus! {

/// An endpoint identifier: a host and a port. The caller resolves real socket
/// addresses to and from this form.
#[derive(Clone, Debug)]
pub struct SocketAddress {
    pub host: String,
    pub port: u16,
}

impl SocketAddress {
    /// Builds an endpoint identifier from its host text and port.
    pub fn new(host: String, port: u16) -> (r: SocketAddress)
        ensures
            r.host@ == host@,
            r.port == port,
    {
        SocketAddress { host, port }
    }
}

/// Sends and receives typed values over single datagrams, removing any
/// knowledge of buffers from the caller: one codec strategy, one reusable
/// buffer, and the payload type it carries, all fixed at construction. The
/// payload parameter is a compile-time marker only; it has no runtime
/// representation.
pub struct Transit<T: Wire> {
    codec: Codec,
    buffer: ByteCounter,
    payload: core::marker::PhantomData<T>,
}

impl<T: Wire> Transit<T> {
    /// The codec strategy this transport was constructed with.
    pub closed spec fn strategy(&self) -> Codec {
        self.codec
    }

    /// The bytes staged by the most recent successful send: the exact encoded
    /// datagram, never the whole buffer.
    pub closed spec fn staged(&self) -> Seq<u8> {
        self.buffer.written()
    }

    /// The transport is well formed when its buffer is, and the buffer has the
    /// full datagram capacity.
    pub closed spec fn wf(&self) -> bool {
        self.buffer.wf() && self.buffer.capacity() == MAX_UDP_SIZE
    }

    /// Builds a transport over the given codec strategy, allocating its
    /// reusable buffer once: a fresh transport has nothing staged.
    pub fn new(codec: Codec) -> (r: Transit<T>)
        ensures
            r.wf(),
            r.strategy() == codec,
            r.staged() == Seq::<u8>::empty(),
    {
        let r = Transit {
            codec,
            buffer: ByteCounter::new(udp_buffer()),
            payload: core::marker::PhantomData,
        };
        proof {
            assert(r.staged() =~= Seq::<u8>::empty());
        }
        r
    }

    /// Encodes `pkt` into the reusable buffer and records the exact encoded
    /// length, so a caller transmits only those bytes and never stale trailing
    /// bytes of an earlier, larger datagram. Fails with `SerializeError`, and
    /// stages nothing, exactly when the value cannot be encoded or its encoded
    /// form exceeds the buffer's capacity; it is never truncated. For a value
    /// within the payload type's size bound (`enc_fits`), success is owed.
    pub fn send_to(&mut self, pkt: &T) -> (r: Result<usize, TransitError>)
        requires
            old(self).wf(),
        ensures
            final(self).wf(),
            final(self).strategy() == old(self).strategy(),
            r is Ok <==> pkt.encodable(old(self).strategy()) && pkt.enc(
                old(self).strategy(),
            ).len() <= MAX_UDP_SIZE,
            r matches Ok(n) ==> n == pkt.enc(old(self).strategy()).len() && final(self).staged()
                == pkt.enc(old(self).strategy()),
            r matches Ok(n) ==> T::dec_ok(final(self).staged(), old(self).strategy()),
            r matches Ok(n) ==> (forall|w: T|
                T::dec_is(final(self).staged(), old(self).strategy(), w) ==> w.wire_eq(*pkt)),
            pkt.encodable(old(self).strategy()) && pkt.enc_fits(old(self).strategy()) ==> r is Ok,
            r matches Err(e) ==> e is SerializeError,
            r is Err ==> final(self).staged() == Seq::<u8>::empty(),
    {
        let encoded = match pkt.encode(self.codec) {
            Ok(v) => v,
            Err(e) => {
                self.buffer.reset();
                return Err(e);
            },
        };
        self.buffer.reset();
        let n: usize = self.buffer.write(encoded.as_slice());
        if n < encoded.len() {
            // Nothing of the oversize datagram may ever be transmitted.
            self.buffer.reset();
            return Err(
                TransitError::SerializeError(
                    "encoded datagram exceeds the transport buffer".to_owned(),
                ),
            );
        }
        proof {
            assert(self.buffer.written() =~= encoded@);
        }
        Ok(n)
    }

    /// The exact bytes staged by the most recent successful send: what a
    /// caller hands to one datagram transmission.
    pub fn outgoing(&self) -> (r: &[u8])
        requires
            self.wf(),
        ensures
            r@ == self.staged(),
    {
        self.buffer.written_bytes()
    }

    /// Takes the exact bytes one received datagram carried, stages them in the
    /// reusable buffer, and decodes only that range — residue of an earlier,
    /// larger datagram is never handed to the decoder. Returns the decoded
    /// value with the sender's endpoint; fails exactly when the bytes do not
    /// decode under the transport's codec. Success, and the value on success,
    /// depend on the datagram's bytes alone, never on the buffer's history.
    pub fn recv_from(&mut self, datagram: &[u8], sender: SocketAddress) -> (r: Result<
        (T, SocketAddress),
        TransitError,
    >)
        requires
            old(self).wf(),
            datagram@.len() <= MAX_UDP_SIZE,
        ensures
            final(self).wf(),
            final(self).strategy() == old(self).strategy(),
            r is Ok <==> T::dec_ok(datagram@, old(self).strategy()),
            r matches Ok(p) ==> T::dec_is(datagram@, old(self).strategy(), p.0) && p.1 == sender,
            r matches Err(e) ==> decode_failure(old(self).strategy(), e),
    {
        self.buffer.reset();
        let _n: usize = self.buffer.write(datagram);
        proof {
            assert(self.buffer.written() =~= datagram@);
        }
        match T::decode(self.buffer.written_bytes(), self.codec) {
            Ok(data) => Ok((data, sender)),
            Err(e) => Err(e),
        }
    }
}

/// The round-trip law, as one statement: when a send staged `staged` for the
/// payload `sent` (so the staged bytes decode, and only to a payload carrying
/// the sent value — `send_to`'s guarantee), and a receive of those same bytes
/// produced `received` (`recv_from`'s guarantee), then the received payload
/// carries exactly the sent value.
pub proof fn lemma_round_trip<T: Wire>(c: Codec, staged: Seq<u8>, sent: T, received: T)
    requires
        T::dec_ok(staged, c),
        forall|w: T| T::dec_is(staged, c, w) ==> w.wire_eq(sent),
        T::dec_is(staged, c, received),
    ensures
        received.wire_eq(sent),
{
}

} // verus!
