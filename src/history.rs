use std::collections::VecDeque;
use vstd::prelude::*;

use crate::probe::ProbeResult;

verus! {

/// `s` with `x` appended, the oldest entry evicted if the result would
/// exceed `cap`.
pub open spec fn pushed_window(s: Seq<u32>, x: u32, cap: nat) -> Seq<u32> {
    let t = s.push(x);
    if t.len() > cap {
        t.drop_first()
    } else {
        t
    }
}

/// The chart value of a tick: its latency on success, the sentinel zero on failure.
pub open spec fn chart_value(r: ProbeResult) -> u32 {
    if r.success {
        r.latency_us
    } else {
        0
    }
}

/// Bounded first-in first-out window of per-tick chart values, in microseconds.
pub struct History {
    samples: VecDeque<u32>,
    capacity: usize,
}

impl View for History {
    type V = Seq<u32>;

    closed spec fn view(&self) -> Seq<u32> {
        self.samples@
    }
}

impl History {
    pub closed spec fn capacity_spec(&self) -> nat {
        self.capacity as nat
    }

    /// The window never holds more than its capacity.
    pub open spec fn wf(&self) -> bool {
        self@.len() <= self.capacity_spec()
    }

    /// An empty window of the given capacity.
    pub fn new(capacity: usize) -> (h: History)
        ensures
            h.wf(),
            h@ == Seq::<u32>::empty(),
            h.capacity_spec() == capacity,
    {
        History { samples: VecDeque::new(), capacity }
    }

    pub fn capacity(&self) -> (r: usize)
        ensures
            r == self.capacity_spec(),
    {
        self.capacity
    }

    pub fn len(&self) -> (r: usize)
        ensures
            r == self@.len(),
    {
        self.samples.len()
    }

    /// The value at position `i`, oldest first.
    pub fn get(&self, i: usize) -> (r: u32)
        requires
            i < self@.len(),
        ensures
            r == self@[i as int],
    {
        self.samples[i]
    }

    /// Appends `x`, evicting the oldest value once the capacity is exceeded.
    pub fn push(&mut self, x: u32)
        requires
            old(self).wf(),
        ensures
            final(self).wf(),
            final(self).capacity_spec() == old(self).capacity_spec(),
            final(self)@ == pushed_window(old(self)@, x, old(self).capacity_spec()),
    {
        self.samples.push_back(x);
        if self.samples.len() > self.capacity {
            let _ = self.samples.pop_front();
        }
        assert(self@ =~= pushed_window(old(self)@, x, old(self).capacity_spec()));
    }

    /// Records one tick's chart value.
    pub fn record(&mut self, r: &ProbeResult)
        requires
            old(self).wf(),
        ensures
            final(self).wf(),
            final(self).capacity_spec() == old(self).capacity_spec(),
            final(self)@ == pushed_window(old(self)@, chart_value(*r), old(self).capacity_spec()),
    {
        let x: u32 = if r.success {
            r.latency_us
        } else {
            0
        };
        self.push(x);
    }

    /// The values, oldest first.
    pub fn to_vec(&self) -> (r: Vec<u32>)
        ensures
            r@ == self@,
    {
        let mut out: Vec<u32> = Vec::new();
        let n = self.samples.len();
        for i in 0..n
            invariant
                n == self@.len(),
                out@ == self@.subrange(0, i as int),
        {
            out.push(self.samples[i]);
            assert(out@ =~= self@.subrange(0, i + 1));
        }
        assert(out@ =~= self@);
        out
    }
}

/// Once the window is full, a push keeps it full and evicts exactly the
/// oldest value: what remains is the old window without its first value,
/// followed by the new one.
pub proof fn lemma_full_window_evicts_oldest(s: Seq<u32>, x: u32, cap: nat)
    requires
        s.len() == cap,
        cap > 0,
    ensures
        pushed_window(s, x, cap).len() == cap,
        pushed_window(s, x, cap) == s.drop_first().push(x),
{
    assert(pushed_window(s, x, cap) =~= s.drop_first().push(x));
}

/// A push never takes the window beyond its capacity.
pub proof fn lemma_window_bounded(s: Seq<u32>, x: u32, cap: nat)
    requires
        s.len() <= cap,
    ensures
        pushed_window(s, x, cap).len() <= cap,
{
}

} // verus!
