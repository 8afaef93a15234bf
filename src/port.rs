use vstd::prelude::*;

verus! {

/// The bag of a port was full: the value was not added.
#[derive(Clone, Copy, PartialEq, Eq, Structural, Debug)]
pub struct CapacityExceeded;

/// A port's bag: the values that went through it in the current step, in
/// order, bounded by the capacity the port was declared with.
pub struct Port<T> {
    values: Vec<T>,
    capacity: usize,
}

impl<T: Copy> Port<T> {
    /// The values in the bag, oldest first.
    pub closed spec fn view(&self) -> Seq<T> {
        self.values@
    }

    pub closed spec fn cap(&self) -> nat {
        self.capacity as nat
    }

    /// A bag never holds more values than its capacity, which is positive.
    pub closed spec fn wf(&self) -> bool {
        &&& self.capacity > 0
        &&& self.values@.len() <= self.capacity
    }

    /// A well-formed bag has a positive capacity and stays within it.
    pub proof fn lemma_wf(&self)
        requires
            self.wf(),
        ensures
            self.cap() > 0,
            self@.len() <= self.cap(),
    {
    }

    /// An empty port that holds at most `capacity` values; a capacity of zero
    /// is refused.
    pub fn new(capacity: usize) -> (r: Option<Port<T>>)
        ensures
            r is Some <==> capacity > 0,
            r matches Some(p) ==> p.wf() && p@.len() == 0 && p.cap() == capacity,
    {
        if capacity == 0 {
            None
        } else {
            Some(Port { values: Vec::new(), capacity })
        }
    }

    /// An empty port of the given positive capacity.
    pub fn with_capacity(capacity: usize) -> (r: Port<T>)
        requires
            capacity > 0,
        ensures
            r.wf(),
            r@.len() == 0,
            r.cap() == capacity,
    {
        Port { values: Vec::new(), capacity }
    }

    /// An empty port with no practical bound on its bag.
    pub fn unbounded() -> (r: Port<T>)
        ensures
            r.wf(),
            r@.len() == 0,
            r.cap() == usize::MAX,
    {
        Port { values: Vec::new(), capacity: usize::MAX }
    }

    pub fn capacity(&self) -> (r: usize)
        ensures
            r == self.cap(),
    {
        self.capacity
    }

    /// Appends `v` when the bag has room; otherwise reports it and leaves the
    /// bag as it was.
    pub fn add_value(&mut self, v: T) -> (r: Result<(), CapacityExceeded>)
        requires
            old(self).wf(),
        ensures
            final(self).wf(),
            final(self).cap() == old(self).cap(),
            r is Ok <==> old(self)@.len() < old(self).cap(),
            r is Ok ==> final(self)@ == old(self)@.push(v),
            r is Err ==> final(self)@ == old(self)@,
    {
        if self.values.len() < self.capacity {
            self.values.push(v);
            Ok(())
        } else {
            Err(CapacityExceeded)
        }
    }

    /// The values in the bag, oldest first.
    pub fn get_values(&self) -> (r: &[T])
        ensures
            r@ == self@,
    {
        self.values.as_slice()
    }

    /// The most recent value, if any.
    pub fn last(&self) -> (r: Option<T>)
        ensures
            self@.len() == 0 ==> r is None,
            self@.len() > 0 ==> r == Some(self@.last()),
    {
        let n = self.values.len();
        if n == 0 {
            None
        } else {
            Some(self.values[n - 1])
        }
    }

    pub fn len(&self) -> (r: usize)
        ensures
            r == self@.len(),
    {
        self.values.len()
    }

    pub fn is_empty(&self) -> (r: bool)
        ensures
            r == (self@.len() == 0),
    {
        self.values.len() == 0
    }

    /// Empties the bag; the capacity stays.
    pub fn clear(&mut self)
        requires
            old(self).wf(),
        ensures
            final(self).wf(),
            final(self)@.len() == 0,
            final(self).cap() == old(self).cap(),
    {
        self.values.clear();
    }

    /// Appends the values of `src` in order, as far as the bag has room, and
    /// returns how many of them did not fit.
    pub fn extend_from(&mut self, src: &Port<T>) -> (dropped: usize)
        requires
            old(self).wf(),
        ensures
            final(self).wf(),
            final(self).cap() == old(self).cap(),
            final(self)@ == old(self)@ + src@.take(
                (final(self)@.len() - old(self)@.len()) as int,
            ),
            final(self)@.len() == vstd::math::min(
                (old(self)@.len() + src@.len()) as int,
                old(self).cap() as int,
            ),
            dropped == old(self)@.len() + src@.len() - final(self)@.len(),
            old(self)@.len() + src@.len() <= old(self).cap() ==> final(self)@ == old(self)@ + src@
                && dropped == 0,
    {
        let n = src.values.len();
        let mut i: usize = 0;
        let mut dropped: usize = 0;
        while i < n
            invariant
                self.wf(),
                self.cap() == old(self).cap(),
                n == src@.len(),
                i <= n,
                self@.len() == vstd::math::min((old(self)@.len() + i) as int, old(self).cap() as int),
                self@ == old(self)@ + src@.take((self@.len() - old(self)@.len()) as int),
                dropped == old(self)@.len() + i - self@.len(),
            decreases n - i,
        {
            let v = src.values[i];
            if self.values.len() < self.capacity {
                proof {
                    assert(src@.take((self@.len() - old(self)@.len()) as int + 1) =~= src@.take(
                        (self@.len() - old(self)@.len()) as int,
                    ).push(v));
                }
                self.values.push(v);
                assert(self@ =~= old(self)@ + src@.take((self@.len() - old(self)@.len()) as int));
            } else {
                dropped = dropped + 1;
            }
            i = i + 1;
        }
        assert(src@.take(src@.len() as int) =~= src@);
        dropped
    }
}

} // verus!
