//! Fixed-capacity ring buffer for streaming audio samples to the output.
//!
//! This is the queue logic of the audio data path: non-blocking writes that
//! fail rather than overwrite when full, and non-blocking reads that yield
//! nothing rather than stale memory when empty. The cross-thread
//! producer/consumer handles that carry this queue between the mixer thread
//! and the hardware callback live outside the verified library.

use vstd::prelude::*;

use crate::StereoSample;

verus! {

/// The storage slot that holds logical element `i` of a queue whose oldest
/// element sits at `head` in a buffer of `cap` slots.
pub open spec fn slot(head: nat, i: nat, cap: nat) -> nat
    recommends
        head < cap,
        i < cap,
{
    if head + i < cap {
        head + i
    } else {
        (head + i - cap) as nat
    }
}

/// Ring buffer of `StereoSample` with fixed capacity chosen at creation.
pub struct AudioRingBuffer {
    buf: Vec<StereoSample>,
    head: usize,
    len: usize,
}

impl AudioRingBuffer {
    /// Capacity fixed at creation.
    pub closed spec fn capacity(&self) -> nat {
        self.buf@.len()
    }

    pub closed spec fn well_formed(&self) -> bool {
        &&& self.len <= self.capacity()
        &&& (self.head < self.capacity() || (self.capacity() == 0 && self.head == 0))
    }

    /// The queued samples, oldest first.
    pub closed spec fn contents(&self) -> Seq<StereoSample> {
        Seq::new(self.len as nat, |i: int| self.buf@[slot(self.head as nat, i as nat, self.capacity()) as int])
    }

    /// Create a ring buffer with the given capacity (in samples).
    pub fn new(capacity: usize) -> (r: AudioRingBuffer)
        ensures
            r.well_formed(),
            r.capacity() == capacity,
            r.contents() == Seq::<StereoSample>::empty(),
    {
        let mut buf: Vec<StereoSample> = Vec::new();
        let mut i: usize = 0;
        while i < capacity
            invariant
                i <= capacity,
                buf@.len() == i,
            decreases capacity - i,
        {
            buf.push(StereoSample::silence());
            i = i + 1;
        }
        let r = AudioRingBuffer { buf, head: 0, len: 0 };
        proof {
            assert(r.contents() =~= Seq::<StereoSample>::empty());
        }
        r
    }

    /// Push a sample. Fails (returns false) instead of blocking or
    /// overwriting when the buffer is full.
    pub fn push(&mut self, sample: StereoSample) -> (r: bool)
        requires
            old(self).well_formed(),
        ensures
            final(self).well_formed(),
            final(self).capacity() == old(self).capacity(),
            r == (old(self).contents().len() < old(self).capacity()),
            r ==> final(self).contents() == old(self).contents().push(sample),
            !r ==> final(self).contents() == old(self).contents(),
    {
        if self.len >= self.buf.len() {
            return false;
        }
        let cap = self.buf.len();
        let pos = if self.len < cap - self.head {
            self.head + self.len
        } else {
            self.len - (cap - self.head)
        };
        let ghost old_self = *self;
        self.buf.set(pos, sample);
        self.len = self.len + 1;
        proof {
            assert(pos as nat == slot(old_self.head as nat, old_self.len as nat, cap as nat));
            assert(self.contents() =~= old_self.contents().push(sample));
        }
        true
    }

    /// Pop the oldest sample; `None` when empty (underrun yields nothing,
    /// never garbage).
    pub fn pop(&mut self) -> (r: Option<StereoSample>)
        requires
            old(self).well_formed(),
        ensures
            final(self).well_formed(),
            final(self).capacity() == old(self).capacity(),
            old(self).contents().len() == 0 ==> r is None
                && final(self).contents() == old(self).contents(),
            old(self).contents().len() > 0 ==> r == Some(old(self).contents()[0])
                && final(self).contents() == old(self).contents().skip(1),
    {
        if self.len == 0 {
            return None;
        }
        let cap = self.buf.len();
        let ghost old_self = *self;
        let sample = self.buf[self.head];
        if self.head + 1 < cap {
            self.head = self.head + 1;
        } else {
            self.head = 0;
        }
        self.len = self.len - 1;
        proof {
            assert(self.contents() =~= old_self.contents().skip(1));
            assert(sample == old_self.contents()[0]);
        }
        Some(sample)
    }

    /// Push as many of `samples` as fit, in order; the count pushed.
    pub fn push_slice(&mut self, samples: &Vec<StereoSample>) -> (r: usize)
        requires
            old(self).well_formed(),
        ensures
            final(self).well_formed(),
            final(self).capacity() == old(self).capacity(),
            r == vstd::math::min(
                samples@.len() as int,
                old(self).capacity() - old(self).contents().len(),
            ),
            final(self).contents() == old(self).contents() + samples@.take(r as int),
    {
        let mut i: usize = 0;
        proof {
            assert(old(self).contents() + samples@.take(0) =~= old(self).contents());
        }
        while i < samples.len()
            invariant
                self.well_formed(),
                self.capacity() == old(self).capacity(),
                i <= samples@.len(),
                i <= old(self).capacity() - old(self).contents().len(),
                self.contents() == old(self).contents() + samples@.take(i as int),
                i < samples@.len() ==> self.contents().len() == old(self).contents().len() + i,
            decreases samples@.len() - i,
        {
            proof {
                assert((old(self).contents() + samples@.take(i as int)).push(samples@[i as int])
                    =~= old(self).contents() + samples@.take(i + 1));
            }
            if !self.push(samples[i]) {
                return i;
            }
            i = i + 1;
        }
        i
    }

    /// Pop up to `max` samples, oldest first, appending them to `out`; the
    /// count popped.
    pub fn pop_slice(&mut self, out: &mut Vec<StereoSample>, max: usize) -> (r: usize)
        requires
            old(self).well_formed(),
        ensures
            final(self).well_formed(),
            final(self).capacity() == old(self).capacity(),
            r == vstd::math::min(max as int, old(self).contents().len() as int),
            final(out)@ == old(out)@ + old(self).contents().take(r as int),
            final(self).contents() == old(self).contents().skip(r as int),
    {
        let mut i: usize = 0;
        proof {
            assert(old(out)@ + old(self).contents().take(0) =~= old(out)@);
            assert(old(self).contents().skip(0) =~= old(self).contents());
        }
        while i < max
            invariant
                self.well_formed(),
                self.capacity() == old(self).capacity(),
                i <= max,
                i <= old(self).contents().len(),
                out@ == old(out)@ + old(self).contents().take(i as int),
                self.contents() == old(self).contents().skip(i as int),
            decreases max - i,
        {
            match self.pop() {
                Some(sample) => {
                    proof {
                        assert(old(self).contents().skip(i as int)[0]
                            == old(self).contents()[i as int]);
                        assert((old(out)@ + old(self).contents().take(i as int)).push(
                            old(self).contents()[i as int],
                        ) =~= old(out)@ + old(self).contents().take(i + 1));
                        assert(old(self).contents().skip(i as int).skip(1)
                            =~= old(self).contents().skip(i + 1));
                    }
                    out.push(sample);
                    i = i + 1;
                },
                None => {
                    return i;
                },
            }
        }
        i
    }

    /// Number of samples queued. Advisory in the concurrent pipeline; exact
    /// for this single-owner queue.
    pub fn available(&self) -> (r: usize)
        ensures
            r == self.contents().len(),
    {
        self.len
    }

    /// Free space left.
    pub fn available_space(&self) -> (r: usize)
        requires
            self.well_formed(),
        ensures
            r == self.capacity() - self.contents().len(),
    {
        self.buf.len() - self.len
    }

    pub fn is_full(&self) -> (r: bool)
        ensures
            r == (self.contents().len() == self.capacity()),
    {
        self.len == self.buf.len()
    }

    pub fn is_empty(&self) -> (r: bool)
        ensures
            r == (self.contents().len() == 0),
    {
        self.len == 0
    }
}

/// One operation against the queue, for stating laws about whole histories.
pub enum RingOp {
    Push(StereoSample),
    Pop,
}

/// The queue, the number of successful pushes, and the number of pops that
/// yielded a sample, after running `ops` in order against an empty queue of
/// capacity `cap`.
pub open spec fn run_ring(cap: nat, ops: Seq<RingOp>) -> (Seq<StereoSample>, nat, nat)
    decreases ops.len(),
{
    if ops.len() == 0 {
        (Seq::empty(), 0, 0)
    } else {
        let (q, pushed, popped) = run_ring(cap, ops.drop_last());
        match ops.last() {
            RingOp::Push(x) => if q.len() < cap {
                (q.push(x), pushed + 1, popped)
            } else {
                (q, pushed, popped)
            },
            RingOp::Pop => if q.len() > 0 {
                (q.skip(1), pushed, popped + 1)
            } else {
                (q, pushed, popped)
            },
        }
    }
}

/// For every capacity and every interleaving of pushes and pops, the consumer
/// never takes out more samples than were successfully pushed, and exactly
/// the difference is still queued.
pub proof fn lemma_ring_conservation(cap: nat, ops: Seq<RingOp>)
    ensures
        run_ring(cap, ops).2 <= run_ring(cap, ops).1,
        run_ring(cap, ops).0.len() == run_ring(cap, ops).1 - run_ring(cap, ops).2,
        run_ring(cap, ops).0.len() <= cap,
    decreases ops.len(),
{
    if ops.len() > 0 {
        lemma_ring_conservation(cap, ops.drop_last());
    }
}

} // verus!
