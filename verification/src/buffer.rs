//! The buffer manager: one contiguous byte region per transport, allocated
//! once and reused by every send and receive, with an exact count of the bytes
//! written by the most recent operation.
use vstd::prelude::*;
use vstd::slice::slice_subrange;

verus! {

/// The largest datagram the transport can carry: the maximum representable
/// UDP payload size.
pub const MAX_UDP_SIZE: u16 = 65535;

/// Allocates the reusable transport buffer: `MAX_UDP_SIZE` zeroed bytes.
pub fn udp_buffer() -> (r: Vec<u8>)
    ensures
        r@.len() == MAX_UDP_SIZE,
        forall|i: int| 0 <= i < r@.len() ==> r@[i] == 0u8,
{
    let mut buf: Vec<u8> = Vec::new();
    let mut i: usize = 0;
    while i < MAX_UDP_SIZE as usize
        invariant
            i <= MAX_UDP_SIZE,
            buf@.len() == i,
            forall|j: int| 0 <= j < i ==> buf@[j] == 0u8,
        decreases MAX_UDP_SIZE - i,
    {
        buf.push(0u8);
        i = i + 1;
    }
    buf
}

/// A length-tracking writer over a fixed byte region: bytes are copied in at
/// the front, and the exact count written so far is kept, so that a send can
/// transmit precisely the bytes of the current datagram and never stale
/// trailing bytes of an earlier, larger one.
pub struct ByteCounter {
    counter: usize,
    writer: Vec<u8>,
}

impl ByteCounter {
    /// The number of bytes written since the last reset.
    pub closed spec fn count(&self) -> nat {
        self.counter as nat
    }

    /// The full contents of the underlying byte region.
    pub closed spec fn region(&self) -> Seq<u8> {
        self.writer@
    }

    /// The capacity of the underlying byte region; it never changes.
    pub open spec fn capacity(&self) -> nat {
        self.region().len()
    }

    /// The writer is well formed when the count does not pass the end of the
    /// region.
    pub open spec fn wf(&self) -> bool {
        self.count() <= self.capacity()
    }

    /// The bytes written since the last reset: the prefix of the region of
    /// length `count`.
    pub open spec fn written(&self) -> Seq<u8> {
        self.region().subrange(0, self.count() as int)
    }

    /// Wraps a byte region in a fresh writer.
    pub fn new(writer: Vec<u8>) -> (r: ByteCounter)
        ensures
            r.count() == 0,
            r.region() == writer@,
            r.wf(),
    {
        ByteCounter { counter: 0, writer }
    }

    /// The exact number of bytes written since the last reset.
    pub fn write_count(&self) -> (r: usize)
        ensures
            r == self.count(),
    {
        self.counter
    }

    /// Forgets everything written so far; the region keeps its contents.
    pub fn reset(&mut self)
        ensures
            final(self).count() == 0,
            final(self).region() == old(self).region(),
    {
        self.counter = 0;
    }

    /// Copies as much of `data` as fits into the region at the current count
    /// and returns how many bytes were copied: all of `data` when there is
    /// room, only the remaining room otherwise. The region outside the copied
    /// range is untouched.
    pub fn write(&mut self, data: &[u8]) -> (n: usize)
        requires
            old(self).wf(),
        ensures
            final(self).wf(),
            final(self).capacity() == old(self).capacity(),
            n == if data@.len() <= old(self).capacity() - old(self).count() {
                data@.len() as int
            } else {
                old(self).capacity() - old(self).count()
            },
            final(self).count() == old(self).count() + n,
            final(self).written() == old(self).written() + data@.subrange(0, n as int),
            forall|i: int|
                final(self).count() <= i < final(self).capacity() ==> final(self).region()[i]
                    == old(self).region()[i],
    {
        let ghost orig = *self;
        let cap: usize = self.writer.len();
        let room: usize = cap - self.counter;
        let n: usize = if data.len() <= room {
            data.len()
        } else {
            room
        };
        let mut i: usize = 0;
        proof {
            assert(self.writer@.subrange(0, self.counter as int) =~= orig.written()
                + data@.subrange(0, 0));
        }
        while i < n
            invariant
                i <= n,
                n <= data@.len(),
                orig.count() + n <= cap,
                self.counter == orig.count() + i,
                self.writer@.len() == cap,
                self.writer@.subrange(0, self.counter as int) == orig.written() + data@.subrange(
                    0,
                    i as int,
                ),
                forall|k: int|
                    self.counter <= k < self.writer@.len() ==> self.writer@[k] == orig.region()[k],
            decreases n - i,
        {
            let c: usize = self.counter;
            let ghost wpre = self.writer@;
            self.writer.set(c, data[i]);
            self.counter = c + 1;
            i = i + 1;
            proof {
                assert(self.writer@.subrange(0, c as int) =~= wpre.subrange(0, c as int));
                assert(self.writer@.subrange(0, self.counter as int) =~= orig.written()
                    + data@.subrange(0, i as int));
            }
        }
        proof {
            assert(self.written() =~= orig.written() + data@.subrange(0, n as int));
        }
        n
    }

    /// The bytes written since the last reset, as a borrowed slice of the
    /// region.
    pub fn written_bytes(&self) -> (r: &[u8])
        requires
            self.wf(),
        ensures
            r@ == self.written(),
    {
        slice_subrange(self.writer.as_slice(), 0, self.counter)
    }
}

} // verus!
