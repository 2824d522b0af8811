//! Rolling histories for the performance monitor: each keeps only its
//! newest samples.
use std::collections::VecDeque;
use vstd::prelude::*;

verus! {

/// The newest `cap` samples of `s` (all of them when there are fewer).
pub open spec fn newest<T>(s: Seq<T>, cap: nat) -> Seq<T> {
    if s.len() > cap {
        s.skip(s.len() - cap)
    } else {
        s
    }
}

/// A history of samples that keeps at most `capacity` of the newest.
pub struct BoundedHistory<T> {
    samples: VecDeque<T>,
    capacity: usize,
}

impl<T> BoundedHistory<T> {
    /// The samples kept, oldest first.
    pub closed spec fn samples_view(&self) -> Seq<T> {
        self.samples@
    }

    /// How many samples are kept at most.
    pub closed spec fn cap(&self) -> nat {
        self.capacity as nat
    }

    /// An empty history keeping at most `capacity` samples.
    pub fn new(capacity: usize) -> (r: Self)
        ensures
            r.samples_view() == Seq::<T>::empty(),
            r.cap() == capacity,
    {
        BoundedHistory { samples: VecDeque::new(), capacity }
    }

    /// Appends a sample, dropping the oldest when the history is over its capacity.
    pub fn push_back(&mut self, sample: T)
        requires
            old(self).samples_view().len() <= old(self).cap(),
        ensures
            final(self).samples_view() == newest(old(self).samples_view().push(sample), old(self).cap()),
            final(self).samples_view().len() <= final(self).cap(),
            final(self).cap() == old(self).cap(),
    {
        broadcast use vstd::std_specs::vecdeque::group_vec_dequeue_axioms;

        let ghost s = self.samples@.push(sample);
        self.samples.push_back(sample);
        if self.samples.len() > self.capacity {
            let _ = self.samples.pop_front();
            assert(self.samples@ =~= s.skip(s.len() - self.capacity));
        }
    }

    /// Forgets every sample.
    pub fn clear(&mut self)
        ensures
            final(self).samples_view() == Seq::<T>::empty(),
            final(self).cap() == old(self).cap(),
    {
        self.samples.clear();
    }

    /// The samples, oldest first.
    pub fn samples(&self) -> (r: &VecDeque<T>)
        ensures
            r@ == self.samples_view(),
    {
        &self.samples
    }

    /// How many samples are kept.
    pub fn len(&self) -> (r: usize)
        ensures
            r == self.samples_view().len(),
    {
        broadcast use vstd::std_specs::vecdeque::group_vec_dequeue_axioms;

        self.samples.len()
    }
}

/// Whether the memory use is sampled on this frame: every 30th frame.
pub fn samples_memory(total_frames: u64) -> (r: bool)
    ensures
        r == (total_frames % 30 == 0),
{
    total_frames % 30 == 0
}

/// A history stays within its capacity and always ends with the newest sample.
pub proof fn law_history_keeps_newest<T>(s: Seq<T>, x: T, cap: nat)
    requires
        cap > 0,
        s.len() <= cap,
    ensures
        newest(s.push(x), cap).len() <= cap,
        newest(s.push(x), cap).last() == x,
{
}

} // verus!
