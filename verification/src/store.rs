//! The time-series store: a set of independently bounded series, looked up
//! by name. Creating a series is idempotent; recording into a name that was
//! never created is an error surfaced to the caller, never silently dropped.

use vstd::prelude::*;
use crate::series::{push_evict, TimeSeries};

verus! {

/// Misuse of the store, surfaced to the caller.
#[derive(Clone, Copy, Debug, PartialEq, Eq, Structural)]
pub enum StoreError {
    /// A recording named a series that was never created.
    UnknownSeries,
}

/// A collection of named bounded time series.
pub struct SeriesStore {
    series: Vec<TimeSeries>,
}

impl SeriesStore {
    /// The held series, in creation order.
    pub closed spec fn rows(&self) -> Seq<TimeSeries> {
        self.series@
    }

    /// Whether a series with this name exists.
    pub open spec fn has_series(&self, name: Seq<char>) -> bool {
        exists|i: int|
            0 <= i < self.rows().len() && (#[trigger] self.rows()[i]).spec_name() == name
    }

    /// The position of the series with this name (meaningful only when
    /// `has_series(name)` holds; unique by well-formedness).
    pub open spec fn index_of(&self, name: Seq<char>) -> int {
        choose|i: int|
            0 <= i < self.rows().len() && (#[trigger] self.rows()[i]).spec_name() == name
    }

    /// The samples currently retained under this name, oldest first.
    pub open spec fn view_of(&self, name: Seq<char>) -> Seq<u64> {
        self.rows()[self.index_of(name)].samples()
    }

    /// The fixed capacity of the series with this name.
    pub open spec fn cap_of(&self, name: Seq<char>) -> nat {
        self.rows()[self.index_of(name)].spec_capacity()
    }

    /// Well-formedness: every series is well formed and names are unique.
    pub open spec fn wf(&self) -> bool {
        &&& forall|i: int| 0 <= i < self.rows().len() ==> (#[trigger] self.rows()[i]).wf()
        &&& forall|i: int, j: int|
            0 <= i < j < self.rows().len() ==> (#[trigger] self.rows()[i]).spec_name() != (
            #[trigger] self.rows()[j]).spec_name()
    }

    /// In a well-formed store, any position whose series carries `name` is
    /// the position `index_of(name)` denotes.
    pub proof fn lemma_index_of(&self, name: Seq<char>, i: int)
        requires
            self.wf(),
            0 <= i < self.rows().len(),
            self.rows()[i].spec_name() == name,
        ensures
            self.has_series(name),
            self.index_of(name) == i,
    {
        assert(self.has_series(name));
        let j = self.index_of(name);
        if i < j {
            assert(self.rows()[i].spec_name() != self.rows()[j].spec_name());
        } else if j < i {
            assert(self.rows()[j].spec_name() != self.rows()[i].spec_name());
        }
    }

    /// An empty store.
    pub fn new() -> (r: SeriesStore)
        ensures
            r.wf(),
            r.rows().len() == 0,
    {
        SeriesStore { series: Vec::new() }
    }

    /// The position of the series with this name, if any.
    fn find(&self, name: &String) -> (r: Option<usize>)
        requires
            self.wf(),
        ensures
            match r {
                Some(i) => i < self.rows().len() && self.rows()[i as int].spec_name() == name@
                    && self.has_series(name@) && self.index_of(name@) == i,
                None => !self.has_series(name@),
            },
    {
        let mut i: usize = 0;
        while i < self.series.len()
            invariant
                i <= self.rows().len(),
                forall|j: int| 0 <= j < i ==> (#[trigger] self.rows()[j]).spec_name() != name@,
                self.wf(),
            decreases self.rows().len() - i,
        {
            if self.series[i].name().eq(name) {
                proof {
                    self.lemma_index_of(name@, i as int);
                }
                return Some(i);
            }
            i = i + 1;
        }
        None
    }

    /// Create the named series with the given capacity if it does not exist
    /// yet; an existing series (and its capacity) is left untouched.
    /// Returns whether a series was created.
    pub fn ensure_series(&mut self, name: String, capacity: usize) -> (created: bool)
        requires
            old(self).wf(),
            capacity >= 1,
        ensures
            final(self).wf(),
            final(self).has_series(name@),
            old(self).has_series(name@) ==> !created && *final(self) == *old(self),
            !old(self).has_series(name@) ==> created
                && final(self).rows().len() == old(self).rows().len() + 1
                && final(self).rows().subrange(0, old(self).rows().len() as int) == old(
                self,
            ).rows() && final(self).rows().last().spec_name() == name@
                && final(self).rows().last().spec_capacity() == capacity as nat
                && final(self).rows().last().samples() == Seq::<u64>::empty(),
    {
        match self.find(&name) {
            Some(_) => false,
            None => {
                let row = TimeSeries::new(name, capacity);
                self.series.push(row);
                proof {
                    let n = old(self).rows().len() as int;
                    assert(self.rows().subrange(0, n) =~= old(self).rows());
                    assert(self.rows()[n].spec_name() == self.rows().last().spec_name());
                    assert forall|i: int, j: int|
                        0 <= i < j < self.rows().len() implies (
                    #[trigger] self.rows()[i]).spec_name() != (#[trigger] self.rows()[j]).spec_name() by {
                        if j == n {
                            assert(!old(self).has_series(self.rows()[j].spec_name()));
                        }
                    }
                    self.lemma_index_of(self.rows().last().spec_name(), n);
                }
                true
            },
        }
    }

    /// Append one sample to the named series, evicting its oldest sample
    /// first when it is full. Recording into an unknown name changes
    /// nothing and reports `UnknownSeries`.
    pub fn record(&mut self, name: &String, value: u64) -> (r: Result<(), StoreError>)
        requires
            old(self).wf(),
        ensures
            final(self).wf(),
            match r {
                Ok(_) => {
                    &&& old(self).has_series(name@)
                    &&& final(self).rows().len() == old(self).rows().len()
                    &&& forall|i: int|
                        0 <= i < old(self).rows().len()
                            ==> (#[trigger] final(self).rows()[i]).spec_name()
                            == old(self).rows()[i].spec_name()
                            && final(self).rows()[i].spec_capacity()
                            == old(self).rows()[i].spec_capacity()
                    &&& forall|i: int|
                        0 <= i < old(self).rows().len() && i != old(self).index_of(name@)
                            ==> (#[trigger] final(self).rows()[i]).samples()
                            == old(self).rows()[i].samples()
                    &&& final(self).index_of(name@) == old(self).index_of(name@)
                    &&& final(self).view_of(name@) == push_evict(
                        old(self).view_of(name@),
                        old(self).cap_of(name@),
                        value,
                    )
                },
                Err(e) => {
                    &&& e == StoreError::UnknownSeries
                    &&& !old(self).has_series(name@)
                    &&& *final(self) == *old(self)
                },
            },
    {
        match self.find(name) {
            None => Err(StoreError::UnknownSeries),
            Some(i) => {
                let mut row = self.series.remove(i);
                row.record(value);
                self.series.insert(i, row);
                proof {
                    assert(self.rows() =~= old(self).rows().update(i as int, self.rows()[i as int]));
                    self.lemma_index_of(name@, i as int);
                }
                Ok(())
            },
        }
    }

    /// A fresh copy of the named series' samples, oldest first, or `None`
    /// for an unknown name. The store is observably unchanged: every series
    /// keeps its name, capacity and samples.
    pub fn read(&mut self, name: &String) -> (r: Option<Vec<u64>>)
        requires
            old(self).wf(),
        ensures
            final(self).wf(),
            final(self).rows().len() == old(self).rows().len(),
            forall|i: int|
                0 <= i < old(self).rows().len() ==> (#[trigger] final(self).rows()[i]).spec_name()
                    == old(self).rows()[i].spec_name() && final(self).rows()[i].spec_capacity()
                    == old(self).rows()[i].spec_capacity() && final(self).rows()[i].samples()
                    == old(self).rows()[i].samples(),
            match r {
                Some(v) => old(self).has_series(name@) && v@ == old(self).view_of(name@),
                None => !old(self).has_series(name@),
            },
    {
        match self.find(name) {
            None => None,
            Some(i) => {
                let mut row = self.series.remove(i);
                let out = row.read();
                self.series.insert(i, row);
                proof {
                    assert(self.rows() =~= old(self).rows().update(i as int, self.rows()[i as int]));
                    self.lemma_index_of(name@, i as int);
                }
                Some(out)
            },
        }
    }

    /// The number of series held.
    pub fn count(&self) -> (n: usize)
        ensures
            n == self.rows().len(),
    {
        self.series.len()
    }
}

} // verus!
