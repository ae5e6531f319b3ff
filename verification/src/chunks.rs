//! Reassembly of a capture byte stream that arrives as arbitrary-sized
//! chunks. A producer pushes chunks in arrival order; the consumer takes
//! fixed-size sample blocks off the front, and whatever does not fit a block
//! stays buffered, so byte order is kept across reads whatever the backend's
//! chunking.

use vstd::prelude::*;
use crate::bytes::{i16_from_le, spec_pcm_samples};

verus! {

/// The bytes that have arrived and not yet been consumed, oldest first.
pub struct ChunkBuffer {
    pub data: Vec<u8>,
}

impl ChunkBuffer {
    /// An empty buffer.
    pub fn new() -> (r: ChunkBuffer)
        ensures
            r.data@ == Seq::<u8>::empty(),
    {
        ChunkBuffer { data: Vec::new() }
    }

    /// How many bytes are buffered.
    pub fn available(&self) -> (n: usize)
        ensures
            n == self.data@.len(),
    {
        self.data.len()
    }

    /// Appends one arrived chunk behind everything already buffered.
    pub fn push_chunk(&mut self, chunk: &Vec<u8>)
        ensures
            final(self).data@ == old(self).data@ + chunk@,
    {
        let mut i: usize = 0;
        while i < chunk.len()
            invariant
                i <= chunk@.len(),
                self.data@ == old(self).data@ + chunk@.take(i as int),
            decreases chunk@.len() - i,
        {
            self.data.push(chunk[i]);
            assert(self.data@ =~= old(self).data@ + chunk@.take(i as int + 1));
            i = i + 1;
        }
        assert(chunk@.take(chunk@.len() as int) =~= chunk@);
    }

    /// Takes `count` interleaved 16-bit samples off the front, two
    /// little-endian bytes each, if that many bytes are buffered; the rest
    /// stays, in order. With fewer bytes buffered nothing changes and `None`
    /// comes back.
    pub fn take_samples(&mut self, count: usize) -> (r: Option<Vec<i16>>)
        requires
            2 * count <= usize::MAX,
        ensures
            2 * count <= old(self).data@.len() ==> (r matches Some(v) && v@ == spec_pcm_samples(
                old(self).data@.take(2 * count as int),
            ) && final(self).data@ == old(self).data@.skip(2 * count as int)),
            2 * count > old(self).data@.len() ==> r is None && final(self).data@ == old(
                self,
            ).data@,
    {
        if count > self.data.len() / 2 {
            return None;
        }
        let mut out: Vec<i16> = Vec::new();
        let mut i: usize = 0;
        while i < count
            invariant
                i <= count,
                2 * count <= self.data@.len(),
                self.data@.len() <= usize::MAX,
                self.data@ == old(self).data@,
                out@.len() == i,
                forall|j: int|
                    0 <= j < out@.len() ==> out@[j] == spec_pcm_samples(
                        self.data@.take(2 * count as int),
                    )[j],
            decreases count - i,
        {
            let s = i16_from_le(self.data[2 * i], self.data[2 * i + 1]);
            out.push(s);
            i = i + 1;
        }
        let mut rest: Vec<u8> = Vec::new();
        let mut k: usize = 2 * count;
        while k < self.data.len()
            invariant
                2 * count <= k <= self.data@.len(),
                self.data@.len() <= usize::MAX,
                self.data@ == old(self).data@,
                rest@.len() == k - 2 * count,
                forall|j: int|
                    0 <= j < rest@.len() ==> rest@[j] == self.data@.skip(2 * count as int)[j],
            decreases self.data@.len() - k,
        {
            let b = self.data[k];
            rest.push(b);
            k = k + 1;
        }
        assert(out@ =~= spec_pcm_samples(old(self).data@.take(2 * count as int)));
        assert(rest@ =~= old(self).data@.skip(2 * count as int));
        self.data = rest;
        Some(out)
    }
}

} // verus!
