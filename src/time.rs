use vstd::prelude::*;

verus! {

/// Microseconds in one second: the resolution of virtual time.
pub const MICROS_PER_SEC: u64 = 1_000_000;

/// A time advance or an absolute event time: a finite number of
/// microseconds, or "never".
#[derive(Clone, Copy, PartialEq, Eq, Structural, Debug)]
pub enum Time {
    Finite(u64),
    Infinite,
}

/// `t + s`, where an event beyond the representable range is never reached.
pub open spec fn add_spec(t: u64, s: Time) -> Time {
    match s {
        Time::Finite(d) => if t + d <= u64::MAX {
            Time::Finite((t + d) as u64)
        } else {
            Time::Infinite
        },
        Time::Infinite => Time::Infinite,
    }
}

/// The earlier of two times.
pub open spec fn min_spec(a: Time, b: Time) -> Time {
    match (a, b) {
        (Time::Finite(x), Time::Finite(y)) => if x <= y {
            Time::Finite(x)
        } else {
            Time::Finite(y)
        },
        (Time::Finite(_), Time::Infinite) => a,
        _ => b,
    }
}

/// `s - e` for a time advance from which `e` has elapsed.
pub open spec fn sub_spec(s: Time, e: u64) -> Time {
    match s {
        Time::Finite(d) => Time::Finite((d - e) as u64),
        Time::Infinite => Time::Infinite,
    }
}

/// Whether `t` is at or before `b`.
pub open spec fn at_or_before(t: u64, b: Time) -> bool {
    match b {
        Time::Finite(x) => t <= x,
        Time::Infinite => true,
    }
}

impl Time {
    pub fn is_infinite(&self) -> (r: bool)
        ensures
            r == (*self is Infinite),
    {
        match self {
            Time::Finite(_) => false,
            Time::Infinite => true,
        }
    }

    /// The absolute time `t + self`.
    pub fn after(self, t: u64) -> (r: Time)
        ensures
            r == add_spec(t, self),
    {
        match self {
            Time::Finite(d) => match t.checked_add(d) {
                Some(x) => Time::Finite(x),
                None => Time::Infinite,
            },
            Time::Infinite => Time::Infinite,
        }
    }

    /// The earlier of `self` and `other`.
    pub fn min(self, other: Time) -> (r: Time)
        ensures
            r == min_spec(self, other),
    {
        match (self, other) {
            (Time::Finite(x), Time::Finite(y)) => if x <= y {
                Time::Finite(x)
            } else {
                Time::Finite(y)
            },
            (Time::Finite(_), Time::Infinite) => self,
            _ => other,
        }
    }

    /// The time advance left once `e` has elapsed of it.
    pub fn minus(self, e: u64) -> (r: Time)
        requires
            self matches Time::Finite(d) ==> e <= d,
        ensures
            r == sub_spec(self, e),
    {
        match self {
            Time::Finite(d) => Time::Finite(d - e),
            Time::Infinite => Time::Infinite,
        }
    }

    /// Whether the instant `t` is at or before `self`.
    pub fn reaches(self, t: u64) -> (r: bool)
        ensures
            r == at_or_before(t, self),
    {
        match self {
            Time::Finite(x) => t <= x,
            Time::Infinite => true,
        }
    }
}

} // verus!
