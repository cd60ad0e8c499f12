//! A single bounded time series: a named FIFO history of one numeric metric.

use vstd::prelude::*;
use crate::fifo::{queue_add, queue_elems, queue_len, queue_new, queue_remove};

verus! {

/// What one recording does to the retained samples: append the value, and
/// when the series is already at capacity, evict the single oldest sample
/// first (strict FIFO, one in, one out).
pub open spec fn push_evict(s: Seq<u64>, cap: nat, value: u64) -> Seq<u64> {
    if s.len() < cap {
        s.push(value)
    } else {
        s.drop_first().push(value)
    }
}

/// The samples a series of capacity `cap` retains out of a full recording
/// history: the `cap` most recent values, in recording order.
pub open spec fn retained(history: Seq<u64>, cap: nat) -> Seq<u64> {
    if history.len() <= cap {
        history
    } else {
        history.subrange(history.len() - cap, history.len() as int)
    }
}

/// The series contents after recording every value of `history` in order,
/// starting from contents `s`.
pub open spec fn record_all(s: Seq<u64>, cap: nat, history: Seq<u64>) -> Seq<u64>
    decreases history.len(),
{
    if history.len() == 0 {
        s
    } else {
        record_all(push_evict(s, cap, history[0]), cap, history.drop_first())
    }
}

/// A named history of one numeric metric with a fixed maximum length.
/// Samples are kept oldest first; once `capacity` samples are held, each
/// new sample evicts exactly the oldest one.
pub struct TimeSeries {
    name: String,
    capacity: usize,
    data: queues::Queue<u64>,
}

impl TimeSeries {
    /// The retained samples, oldest first.
    pub closed spec fn samples(&self) -> Seq<u64> {
        queue_elems(self.data)
    }

    /// The series name.
    pub closed spec fn spec_name(&self) -> Seq<char> {
        self.name@
    }

    /// The fixed maximum number of retained samples.
    pub closed spec fn spec_capacity(&self) -> nat {
        self.capacity as nat
    }

    /// Well-formedness: the capacity is positive and never exceeded.
    pub closed spec fn wf(&self) -> bool {
        &&& self.capacity >= 1
        &&& self.samples().len() <= self.capacity
    }

    /// What well-formedness guarantees to callers outside this module.
    pub proof fn lemma_wf(&self)
        requires
            self.wf(),
        ensures
            self.spec_capacity() >= 1,
            self.samples().len() <= self.spec_capacity(),
    {
    }

    /// A fresh, empty series with the given name and capacity.
    pub fn new(name: String, capacity: usize) -> (r: TimeSeries)
        requires
            capacity >= 1,
        ensures
            r.wf(),
            r.spec_name() == name@,
            r.spec_capacity() == capacity as nat,
            r.samples() == Seq::<u64>::empty(),
    {
        TimeSeries { name, capacity, data: queue_new() }
    }

    /// The series name, for lookup by the store.
    pub fn name(&self) -> (r: &String)
        ensures
            r@ == self.spec_name(),
    {
        &self.name
    }

    /// The fixed capacity.
    pub fn capacity(&self) -> (r: usize)
        ensures
            r as nat == self.spec_capacity(),
    {
        self.capacity
    }

    /// The number of retained samples.
    pub fn len(&self) -> (n: usize)
        ensures
            n == self.samples().len(),
    {
        queue_len(&self.data)
    }

    /// Append one sample, evicting the oldest first when already full.
    pub fn record(&mut self, value: u64)
        requires
            old(self).wf(),
        ensures
            final(self).wf(),
            final(self).spec_name() == old(self).spec_name(),
            final(self).spec_capacity() == old(self).spec_capacity(),
            final(self).samples() == push_evict(
                old(self).samples(),
                old(self).spec_capacity(),
                value,
            ),
    {
        let n = queue_len(&self.data);
        if n >= self.capacity {
            let _evicted = queue_remove(&mut self.data);
        }
        queue_add(&mut self.data, value);
    }

    /// A fresh copy of the current contents, oldest first. The series
    /// itself is left observably unchanged.
    pub fn read(&mut self) -> (out: Vec<u64>)
        requires
            old(self).wf(),
        ensures
            final(self).wf(),
            final(self).spec_name() == old(self).spec_name(),
            final(self).spec_capacity() == old(self).spec_capacity(),
            final(self).samples() == old(self).samples(),
            out@ == old(self).samples(),
    {
        let n = queue_len(&self.data);
        let ghost orig = queue_elems(self.data);
        let mut out: Vec<u64> = Vec::new();
        let mut i: usize = 0;
        while i < n
            invariant
                n == orig.len(),
                i <= n,
                n <= self.capacity,
                self.capacity == old(self).capacity,
                self.name == old(self).name,
                out@ == orig.subrange(0, i as int),
                queue_elems(self.data) == orig.subrange(i as int, n as int)
                    + orig.subrange(0, i as int),
            decreases n - i,
        {
            let r = queue_remove(&mut self.data);
            let v: u64 = match r {
                Some(v) => v,
                None => {
                    proof {
                        assert(false);
                    }
                    0
                },
            };
            queue_add(&mut self.data, v);
            out.push(v);
            proof {
                assert(queue_elems(self.data) =~= orig.subrange(i + 1, n as int)
                    + orig.subrange(0, i + 1));
                assert(out@ =~= orig.subrange(0, i + 1));
            }
            i = i + 1;
        }
        proof {
            assert(queue_elems(self.data) =~= orig);
            assert(out@ =~= orig);
        }
        out
    }
}

/// Law: recording any history into a well-formed series leaves exactly the
/// `cap` most recent of `s + history` as the contents, in original order.
pub proof fn lemma_record_all_retains(s: Seq<u64>, cap: nat, history: Seq<u64>)
    requires
        cap >= 1,
        s.len() <= cap,
    ensures
        record_all(s, cap, history) == retained(s + history, cap),
    decreases history.len(),
{
    if history.len() == 0 {
        assert(s + history =~= s);
    } else {
        let s2 = push_evict(s, cap, history[0]);
        lemma_record_all_retains(s2, cap, history.drop_first());
        assert(record_all(s, cap, history) == retained(s2 + history.drop_first(), cap));
        if s.len() < cap {
            assert(s2 + history.drop_first() =~= s + history);
        } else {
            let whole = s + history;
            let tail = s2 + history.drop_first();
            assert(tail =~= whole.drop_first());
            assert(whole.len() > cap);
            if tail.len() <= cap {
                assert(retained(tail, cap) =~= whole.subrange(
                    whole.len() - cap,
                    whole.len() as int,
                ));
            } else {
                assert(retained(tail, cap) =~= whole.subrange(
                    whole.len() - cap,
                    whole.len() as int,
                ));
            }
        }
    }
}

/// Law: for every sequence of recordings into an initially empty series of
/// capacity `cap`, the retained elements are exactly the `cap` most recently
/// recorded values, in recording order — so the length never exceeds `cap`.
pub proof fn lemma_bounded_history(cap: nat, history: Seq<u64>)
    requires
        cap >= 1,
    ensures
        record_all(Seq::<u64>::empty(), cap, history) == retained(history, cap),
        retained(history, cap).len() <= cap,
{
    lemma_record_all_retains(Seq::<u64>::empty(), cap, history);
    assert(Seq::<u64>::empty() + history =~= history);
}

} // verus!
