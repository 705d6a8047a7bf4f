//! Sliding-window buffer for audio samples that drops the oldest samples once
//! its capacity is reached.

use vstd::prelude::*;
use std::collections::VecDeque;

verus! {

/// Sample rate of the mono audio the pipeline records, in Hz.
pub const TARGET_SAMPLE_RATE: u32 = 16000;

/// Sliding-window buffer of samples. The samples are generic; the recorder
/// stores 16 kHz mono samples in it.
pub struct RingBuffer<T> {
    buf: VecDeque<T>,
    capacity: usize,
}

/// One sample pushed: when the buffer holds `cap` samples or more the oldest
/// one is dropped first, so the buffer never grows past its capacity; a
/// buffer of capacity 0 keeps nothing.
pub open spec fn push_one<T>(b: Seq<T>, x: T, cap: nat) -> Seq<T> {
    if cap == 0 {
        b
    } else if b.len() >= cap {
        b.drop_first().push(x)
    } else {
        b.push(x)
    }
}

/// The samples `s`, pushed one after the other onto `b`.
pub open spec fn push_all<T>(b: Seq<T>, s: Seq<T>, cap: nat) -> Seq<T>
    decreases s.len(),
{
    if s.len() == 0 {
        b
    } else {
        push_one(push_all(b, s.drop_last(), cap), s.last(), cap)
    }
}

/// The newest `cap` elements of `q` (all of them if there are no more).
pub open spec fn keep_newest<T>(q: Seq<T>, cap: nat) -> Seq<T> {
    if q.len() <= cap {
        q
    } else {
        q.skip(q.len() - cap)
    }
}

impl<T> View for RingBuffer<T> {
    type V = Seq<T>;

    closed spec fn view(&self) -> Seq<T> {
        self.buf@
    }
}

impl<T> RingBuffer<T> {
    /// The capacity the buffer was made with.
    pub closed spec fn cap(&self) -> nat {
        self.capacity as nat
    }

    /// A buffer that holds `seconds` seconds of audio at `sample_rate`.
    pub fn with_seconds(seconds: u32, sample_rate: u32) -> (r: Self)
        requires
            seconds as int * sample_rate as int <= usize::MAX,
        ensures
            r@ == Seq::<T>::empty(),
            r.cap() == seconds as int * sample_rate as int,
    {
        Self::with_capacity((seconds as usize) * (sample_rate as usize))
    }

    /// An empty buffer of the given capacity.
    pub fn with_capacity(capacity: usize) -> (r: Self)
        ensures
            r@ == Seq::<T>::empty(),
            r.cap() == capacity,
    {
        RingBuffer { buf: VecDeque::with_capacity(capacity), capacity }
    }

    /// Appends the samples one by one; whenever the buffer is full the oldest
    /// sample is dropped to make room.
    pub fn push_samples(&mut self, samples: &[T])
        where T: Copy,
        ensures
            final(self)@ == push_all(old(self)@, samples@, old(self).cap()),
            final(self).cap() == old(self).cap(),
            old(self)@.len() <= old(self).cap() ==> final(self)@ == keep_newest(
                old(self)@ + samples@,
                old(self).cap(),
            ),
    {
        let ghost b0 = self.buf@;
        let mut i: usize = 0;
        assert(samples@.take(0) =~= Seq::<T>::empty());
        while i < samples.len()
            invariant
                i <= samples.len(),
                self.capacity == old(self).capacity,
                b0 == old(self)@,
                self.buf@ == push_all(b0, samples@.take(i as int), self.capacity as nat),
            decreases samples.len() - i,
        {
            let s = samples[i];
            if self.capacity != 0 {
                if self.buf.len() >= self.capacity {
                    self.buf.pop_front();
                }
                self.buf.push_back(s);
            }
            assert(samples@.take(i + 1).drop_last() =~= samples@.take(i as int));
            i = i + 1;
        }
        assert(samples@.take(samples.len() as int) =~= samples@);
        proof {
            if b0.len() <= self.capacity {
                lemma_push_all_keeps_newest(b0, samples@, self.capacity as nat);
            }
        }
    }

    /// Number of buffered samples.
    pub fn len(&self) -> (r: usize)
        ensures
            r == self@.len(),
    {
        self.buf.len()
    }

    /// Whether no sample is buffered.
    pub fn is_empty(&self) -> (r: bool)
        ensures
            r == (self@.len() == 0),
    {
        self.buf.len() == 0
    }

    /// Whether the buffer holds exactly its capacity.
    pub fn is_full(&self) -> (r: bool)
        ensures
            r == (self@.len() == self.cap()),
    {
        self.buf.len() == self.capacity
    }

    /// Takes out every buffered sample, oldest first.
    pub fn drain_to_vec(&mut self) -> (r: Vec<T>)
        ensures
            r@ == old(self)@,
            final(self)@ == Seq::<T>::empty(),
            final(self).cap() == old(self).cap(),
    {
        let mut out: Vec<T> = Vec::new();
        let ghost b0 = self.buf@;
        while self.buf.len() > 0
            invariant
                self.capacity == old(self).capacity,
                b0 == old(self)@,
                out@ + self.buf@ == b0,
            decreases self.buf@.len(),
        {
            let ghost before = self.buf@;
            match self.buf.pop_front() {
                Some(x) => {
                    out.push(x);
                    assert(out@ + self.buf@ =~= b0) by {
                        assert(before =~= seq![x] + self.buf@);
                    }
                },
                None => {},
            }
        }
        assert(self.buf@ =~= Seq::<T>::empty());
        assert(out@ + Seq::<T>::empty() =~= out@);
        out
    }

    /// Drops every buffered sample.
    pub fn clear(&mut self)
        ensures
            final(self)@ == Seq::<T>::empty(),
            final(self).cap() == old(self).cap(),
    {
        self.buf.clear();
    }
}

/// Pushing samples onto a buffer that is not over its capacity keeps exactly
/// the newest `cap` samples: the oldest are dropped once the capacity is
/// exceeded, and nothing else is lost or reordered. A buffer of capacity 0
/// keeps nothing.
pub proof fn lemma_push_all_keeps_newest<T>(b: Seq<T>, s: Seq<T>, cap: nat)
    requires
        b.len() <= cap,
    ensures
        push_all(b, s, cap) == keep_newest(b + s, cap),
        push_all(b, s, cap).len() <= cap,
    decreases s.len(),
{
    if s.len() == 0 {
        assert(b + s =~= b);
    } else {
        lemma_push_all_keeps_newest(b, s.drop_last(), cap);
        let p = push_all(b, s.drop_last(), cap);
        let q0 = b + s.drop_last();
        let q = b + s;
        let x = s.last();
        assert(q =~= q0.push(x));
        if cap == 0 {
            assert(p =~= keep_newest(q, cap));
        } else if p.len() == cap {
            assert(q0.len() >= cap);
            assert(push_one(p, x, cap) =~= keep_newest(q, cap));
        } else {
            assert(p == q0);
            assert(push_one(p, x, cap) =~= keep_newest(q, cap));
        }
    }
}


/// What pushing samples leaves in a buffer that is within its capacity,
/// element by element: the newest `min(cap, total)` of all samples (the old
/// ones followed by the pushed ones), in their original order. In
/// particular nothing is kept beyond the capacity, a buffer of capacity 0
/// keeps nothing, and the last sample pushed is the last one kept.
pub proof fn lemma_push_keeps_newest_suffix<T>(b: Seq<T>, s: Seq<T>, cap: nat)
    requires
        b.len() <= cap,
    ensures
        ({
            let q = b + s;
            let r = push_all(b, s, cap);
            &&& r.len() == if q.len() <= cap {
                q.len()
            } else {
                cap
            }
            &&& forall|i: int| 0 <= i < r.len() ==> #[trigger] r[i] == q[q.len() - r.len() + i]
            &&& cap > 0 && s.len() > 0 ==> r.last() == s.last()
        }),
{
    lemma_push_all_keeps_newest(b, s, cap);
}

} // verus!
