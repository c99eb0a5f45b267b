use vstd::prelude::*;

verus! {

/// A change-tracked sampled quantity: `previous` holds the value of the
/// last-but-one successful sample, `current` the value of the latest one.
/// A failed read never touches the pair, so both fields stay meaningful
/// while the target process yields garbage.
pub struct Pair<T> {
    pub previous: T,
    pub current: T,
}

/// One successful integer sample shifts `current` into `previous`.
pub open spec fn int_pair_updated(p: Pair<i32>, value: i32) -> Pair<i32> {
    Pair { previous: p.current, current: value }
}

/// The pair after a whole run of polls: `None` entries are failed reads
/// and leave the pair untouched.
pub open spec fn run_samples(p: Pair<i32>, samples: Seq<Option<i32>>) -> Pair<i32>
    decreases samples.len(),
{
    if samples.len() == 0 {
        p
    } else {
        let before = run_samples(p, samples.drop_last());
        match samples.last() {
            Some(v) => int_pair_updated(before, v),
            None => before,
        }
    }
}

/// The successfully sampled values of a run of polls, in order.
pub open spec fn successful(samples: Seq<Option<i32>>) -> Seq<i32>
    decreases samples.len(),
{
    if samples.len() == 0 {
        Seq::empty()
    } else {
        let rest = successful(samples.drop_last());
        match samples.last() {
            Some(v) => rest.push(v),
            None => rest,
        }
    }
}

/// After any run of polls, `current` is the last successfully sampled value
/// and `previous` the one sampled just before it; failed reads are no-ops.
pub proof fn lemma_pair_history(p: Pair<i32>, samples: Seq<Option<i32>>)
    ensures
        ({
            let vs = successful(samples);
            let q = run_samples(p, samples);
            &&& vs.len() >= 2 ==> q.previous == vs[vs.len() - 2] && q.current == vs[vs.len() - 1]
            &&& vs.len() == 1 ==> q.previous == p.current && q.current == vs[0]
            &&& vs.len() == 0 ==> q == p
        }),
    decreases samples.len(),
{
    if samples.len() > 0 {
        lemma_pair_history(p, samples.drop_last());
    }
}

impl Pair<i32> {
    /// Both fields did not change over the last poll.
    pub open spec fn spec_changed(self) -> bool {
        self.previous != self.current
    }

    /// The quantity grew over the last poll.
    pub open spec fn spec_increased(self) -> bool {
        self.current > self.previous
    }

    pub fn new(value: i32) -> (r: Self)
        ensures
            r.previous == value,
            r.current == value,
    {
        Pair { previous: value, current: value }
    }

    /// Record a successful sample: shift `current` into `previous`.
    pub fn update(&mut self, value: i32)
        ensures
            *final(self) == int_pair_updated(*old(self), value),
    {
        self.previous = self.current;
        self.current = value;
    }

    pub fn changed(&self) -> (r: bool)
        ensures
            r == self.spec_changed(),
    {
        self.previous != self.current
    }

    pub fn increased(&self) -> (r: bool)
        ensures
            r == self.spec_increased(),
    {
        self.current > self.previous
    }
}

impl Pair<String> {
    /// The tracked text changed over the last poll.
    pub open spec fn spec_changed(self) -> bool {
        self.previous@ != self.current@
    }

    pub fn new_empty() -> (r: Self)
        ensures
            r.previous@ == Seq::<char>::empty(),
            r.current@ == Seq::<char>::empty(),
    {
        Pair { previous: String::new(), current: String::new() }
    }

    /// Record a successful sample: shift `current` into `previous`.
    pub fn update(&mut self, value: String)
        ensures
            final(self).previous@ == old(self).current@,
            final(self).current@ == value@,
    {
        self.previous = self.current.clone();
        self.current = value;
    }

    pub fn changed(&self) -> (r: bool)
        ensures
            r == self.spec_changed(),
    {
        !(self.previous == self.current)
    }
}

} // verus!
