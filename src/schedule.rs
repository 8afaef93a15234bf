use vstd::prelude::*;
use crate::time::{Time, add_spec, at_or_before};

verus! {

/// When a leaf model last changed state, and when it next will on its own.
#[derive(Clone, Copy, PartialEq, Eq, Structural, Debug)]
pub struct Schedule {
    pub t_last: u64,
    pub t_next: Time,
}

/// The schedule agrees with the model's time advance `sigma`.
pub open spec fn consistent(s: Schedule, sigma: Time) -> bool {
    s.t_next == add_spec(s.t_last, sigma)
}

/// A leaf is imminent at `t` when its next event falls at `t`.
pub open spec fn imminent(s: Schedule, t: u64) -> bool {
    s.t_next == Time::Finite(t)
}

/// A leaf scheduled consistently with its time advance is imminent at `t`
/// exactly when the time elapsed since its last transition equals that time
/// advance.
pub proof fn lemma_imminent_iff_elapsed(s: Schedule, sigma: Time, t: u64)
    requires
        consistent(s, sigma),
        s.t_last <= t,
    ensures
        imminent(s, t) <==> sigma == Time::Finite((t - s.t_last) as u64),
{
}

/// No more than the time advance elapses before the leaf's next event.
pub proof fn lemma_elapsed_within(s: Schedule, sigma: Time, t: u64)
    requires
        consistent(s, sigma),
        s.t_last <= t,
        at_or_before(t, s.t_next),
    ensures
        sigma matches Time::Finite(d) ==> t - s.t_last <= d,
{
}

/// The schedule after a step at `t`: a leaf that changed state restarts its
/// time advance there; any other keeps its schedule.
pub open spec fn after_step(s: Schedule, changed: bool, t: u64, sigma: Time) -> Schedule {
    if changed {
        Schedule { t_last: t, t_next: add_spec(t, sigma) }
    } else {
        s
    }
}

impl Schedule {
    /// The schedule of a leaf that starts at `t` with time advance `sigma`.
    pub fn new(t: u64, sigma: Time) -> (r: Schedule)
        ensures
            r.t_last == t,
            consistent(r, sigma),
    {
        Schedule { t_last: t, t_next: sigma.after(t) }
    }

    pub fn is_imminent(&self, t: u64) -> (r: bool)
        ensures
            r == imminent(*self, t),
    {
        match self.t_next {
            Time::Finite(x) => x == t,
            Time::Infinite => false,
        }
    }

    /// Time elapsed at `t` since the last transition.
    pub fn elapsed(&self, t: u64) -> (r: u64)
        requires
            self.t_last <= t,
        ensures
            r == t - self.t_last,
    {
        t - self.t_last
    }

    /// Records the step at `t` for a leaf with new time advance `sigma`.
    pub fn update(&mut self, changed: bool, t: u64, sigma: Time)
        ensures
            *final(self) == after_step(*old(self), changed, t, sigma),
    {
        if changed {
            self.t_last = t;
            self.t_next = sigma.after(t);
        }
    }
}

} // verus!
