//! Change detection over sampled values: a cell that remembers the previous
//! and the current sample, and keeps both when a sample is missing.

use vstd::prelude::*;
use vstd::std_specs::cmp::PartialEqSpec;

verus! {

/// Two consecutive samples of one memory cell.
#[derive(Debug)]
pub struct Pair<T> {
    pub previous: T,
    pub current: T,
}

impl<T: Copy> Clone for Pair<T> {
    fn clone(&self) -> (copy: Self)
        ensures
            copy == *self,
    {
        *self
    }
}

impl<T: Copy> Copy for Pair<T> {

}

impl<T: Copy + PartialEq> Pair<T> {
    /// Whether the two samples differ.
    pub open spec fn differs(self) -> bool {
        !self.previous.eq_spec(&self.current)
    }

    /// Whether the samples are exactly `from`, then `to`.
    pub open spec fn went(self, from: T, to: T) -> bool {
        self.previous.eq_spec(&from) && self.current.eq_spec(&to)
    }

    /// `true` where the current sample is not equal to the previous one.
    pub fn changed(&self) -> (r: bool)
        ensures
            T::obeys_eq_spec() ==> r == self.differs(),
    {
        !(self.previous == self.current)
    }

    /// `true` where the previous sample equals `from` and the current one
    /// equals `to`.
    pub fn changed_from_to(&self, from: &T, to: &T) -> (r: bool)
        ensures
            T::obeys_eq_spec() ==> r == self.went(*from, *to),
    {
        self.previous == *from && self.current == *to
    }
}

/// A cell that is empty until its first sample and from then on holds the
/// last two samples.
#[derive(Debug)]
pub struct Watcher<T> {
    pub pair: Option<Pair<T>>,
}

impl<T: Copy> Clone for Watcher<T> {
    fn clone(&self) -> (copy: Self)
        ensures
            copy == *self,
    {
        *self
    }
}

impl<T: Copy> Copy for Watcher<T> {

}

impl<T: Copy> Watcher<T> {
    /// The pair that the watcher holds after it has taken `value`: the
    /// former current sample moves to `previous`; on the first sample both
    /// fields are `value`.
    pub open spec fn advanced(self, value: T) -> Pair<T> {
        match self.pair {
            Some(p) => Pair { previous: p.current, current: value },
            None => Pair { previous: value, current: value },
        }
    }

    /// The watcher after one call of `update` with `sample`.
    pub open spec fn updated(self, sample: Option<T>) -> Self {
        match sample {
            Some(value) => Watcher { pair: Some(self.advanced(value)) },
            None => self,
        }
    }

    /// The watcher after `samples` have been fed to `update` in order.
    pub open spec fn updated_all(self, samples: Seq<Option<T>>) -> Self
        decreases samples.len(),
    {
        if samples.len() == 0 {
            self
        } else {
            self.updated_all(samples.drop_last()).updated(samples.last())
        }
    }

    /// An empty watcher.
    pub fn new() -> (w: Self)
        ensures
            w.pair.is_none(),
    {
        Watcher { pair: None }
    }

    /// Feeds one sample. A missing sample leaves the watcher as it is; a
    /// present one advances it. Returns the pair held afterwards.
    pub fn update(&mut self, sample: Option<T>) -> (r: Option<Pair<T>>)
        ensures
            *final(self) == old(self).updated(sample),
            r == final(self).pair,
    {
        match sample {
            Some(value) => Some(self.update_infallible(value)),
            None => self.pair,
        }
    }

    /// Feeds one sample that is always present. Returns the pair held
    /// afterwards.
    pub fn update_infallible(&mut self, value: T) -> (r: Pair<T>)
        ensures
            r == old(self).advanced(value),
            final(self).pair == Some(r),
    {
        let next = match self.pair {
            Some(p) => Pair { previous: p.current, current: value },
            None => Pair { previous: value, current: value },
        };
        self.pair = Some(next);
        next
    }

    /// The current sample, if there is one.
    pub fn current_value(&self) -> (r: Option<T>)
        ensures
            r == match self.pair {
                Some(p) => Some(p.current),
                None => None,
            },
    {
        match self.pair {
            Some(p) => Some(p.current),
            None => None,
        }
    }

    /// The previous sample, if there is one.
    pub fn previous_value(&self) -> (r: Option<T>)
        ensures
            r == match self.pair {
                Some(p) => Some(p.previous),
                None => None,
            },
    {
        match self.pair {
            Some(p) => Some(p.previous),
            None => None,
        }
    }
}

/// A missing sample changes nothing: whatever was fed before, the watcher
/// after one more `update` with `None` is the watcher before it.
pub proof fn lemma_absent_sample_keeps_state<T: Copy>(start: Watcher<T>, samples: Seq<Option<T>>)
    requires
        samples.len() > 0,
        samples.last().is_none(),
    ensures
        start.updated_all(samples) == start.updated_all(samples.drop_last()),
{
}

/// Missing samples before the first present one leave the watcher empty.
pub proof fn lemma_absent_samples_keep_empty<T: Copy>(samples: Seq<Option<T>>)
    requires
        forall|i: int| 0 <= i < samples.len() ==> (#[trigger] samples[i]).is_none(),
    ensures
        (Watcher::<T> { pair: None }).updated_all(samples).pair.is_none(),
    decreases samples.len(),
{
    if samples.len() > 0 {
        lemma_absent_samples_keep_empty::<T>(samples.drop_last());
    }
}

/// Right after the first present sample both fields hold that sample, so
/// that the watcher reports no change, however many missing samples came
/// before it. This holds of every value that is equal to itself.
pub proof fn lemma_first_sample_is_no_change<T: Copy + PartialEq>(
    samples: Seq<Option<T>>,
    value: T,
)
    requires
        forall|i: int| 0 <= i < samples.len() ==> (#[trigger] samples[i]).is_none(),
        value.eq_spec(&value),
    ensures
        (Watcher::<T> { pair: None }).updated_all(samples.push(Some(value))).pair == Some(
            Pair { previous: value, current: value },
        ),
        !(Pair { previous: value, current: value }).differs(),
{
    let all = samples.push(Some(value));
    assert(all.drop_last() == samples);
    lemma_absent_samples_keep_empty::<T>(samples);
}

} // verus!
