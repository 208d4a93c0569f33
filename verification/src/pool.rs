//! A resizable counting gate of admission permits.

use vstd::prelude::*;

verus! {

/// Upper bound on a pool capacity. It keeps every counter far from the
/// integer limit, so acquisition and resizing never overflow.
pub const MAX_CAPACITY: u64 = 1_000_000_000;

/// An admission token: the right to keep one request in flight.
///
/// A permit is created only by [`PermitPool::try_acquire`] and consumed by
/// [`PermitPool::release`], so each one is returned at most once.
#[derive(Debug)]
pub struct Permit {
    pool_was_full: bool,
}

impl Permit {
    /// Whether this permit took the last free slot, i.e. the pool was fully
    /// utilized the moment the permit was issued. The controller uses it as a
    /// proxy for "the limit is the binding constraint on throughput".
    pub closed spec fn spec_pool_was_full(self) -> bool {
        self.pool_was_full
    }

    /// Reads [`Permit::spec_pool_was_full`].
    pub fn pool_was_full(&self) -> (r: bool)
        ensures
            r == self.spec_pool_was_full(),
    {
        self.pool_was_full
    }
}

/// What a request for admission came back with.
#[derive(Debug)]
pub enum Acquired {
    /// Admission granted; the caller now holds the permit.
    Granted(Permit),
    /// Every slot is taken; the caller must wait for a release and ask again.
    Exhausted,
    /// The pool was shut down; admission will never be granted again.
    ShutDown,
}

/// A resizable counting gate: grants up to `capacity` permits at a time, and
/// on a shrink lets already-issued permits drain naturally instead of
/// revoking them.
#[derive(Debug)]
pub struct PermitPool {
    /// How many permits may be outstanding at once.
    pub capacity: u64,
    /// How many permits are outstanding now.
    pub issued: u64,
    /// The value of `issued` at the most recent shrink; zero before the first
    /// shrink. Bounds the transient overshoot a shrink may leave behind.
    pub issued_at_last_shrink: u64,
    /// Once set, no further permit is ever granted.
    pub shut_down: bool,
}

impl PermitPool {
    /// The pool's invariant: `issued` never exceeds the larger of the current
    /// capacity and the count outstanding at the most recent shrink, and all
    /// counters stay within [`MAX_CAPACITY`].
    pub open spec fn wf(self) -> bool {
        &&& self.capacity <= MAX_CAPACITY
        &&& self.issued_at_last_shrink <= MAX_CAPACITY
        &&& self.issued <= vstd::math::max(self.capacity as int, self.issued_at_last_shrink as int)
    }

    /// A fresh pool with the given capacity, no permit outstanding.
    pub fn new(capacity: u64) -> (pool: PermitPool)
        requires
            capacity <= MAX_CAPACITY,
        ensures
            pool.wf(),
            pool.capacity == capacity,
            pool.issued == 0,
            pool.issued_at_last_shrink == 0,
            !pool.shut_down,
    {
        PermitPool { capacity, issued: 0, issued_at_last_shrink: 0, shut_down: false }
    }

    /// Requests admission. Grants a permit and counts it when a slot is free;
    /// reports exhaustion, changing nothing, when every slot is taken; fails,
    /// changing nothing, once the pool is shut down. The granted permit
    /// records whether it took the last free slot.
    pub fn try_acquire(&mut self) -> (r: Acquired)
        requires
            old(self).wf(),
        ensures
            final(self).wf(),
            final(self).capacity == old(self).capacity,
            final(self).issued_at_last_shrink == old(self).issued_at_last_shrink,
            final(self).shut_down == old(self).shut_down,
            old(self).shut_down ==> r is ShutDown && final(self).issued == old(self).issued,
            !old(self).shut_down && old(self).issued < old(self).capacity ==> {
                &&& final(self).issued == old(self).issued + 1
                &&& r matches Acquired::Granted(p)
                    && p.spec_pool_was_full() == (final(self).issued == final(self).capacity)
            },
            !old(self).shut_down && old(self).issued >= old(self).capacity ==> r is Exhausted
                && final(self).issued == old(self).issued,
    {
        if self.shut_down {
            Acquired::ShutDown
        } else if self.issued < self.capacity {
            self.issued = self.issued + 1;
            Acquired::Granted(Permit { pool_was_full: self.issued == self.capacity })
        } else {
            Acquired::Exhausted
        }
    }

    /// Returns one permit: the only operation that lowers `issued`. A permit
    /// is consumed here, so it cannot be returned twice.
    pub fn release(&mut self, permit: Permit)
        requires
            old(self).wf(),
            old(self).issued >= 1,
        ensures
            final(self).wf(),
            final(self).issued == old(self).issued - 1,
            final(self).capacity == old(self).capacity,
            final(self).issued_at_last_shrink == old(self).issued_at_last_shrink,
            final(self).shut_down == old(self).shut_down,
    {
        let _ = permit;
        self.issued = self.issued - 1;
    }

    /// Changes the capacity. Growing immediately opens new slots; shrinking
    /// never revokes an issued permit — it records the outstanding count and
    /// merely withholds grants until releases drain `issued` under the new
    /// capacity.
    pub fn resize(&mut self, new_capacity: u64)
        requires
            old(self).wf(),
            new_capacity <= MAX_CAPACITY,
        ensures
            final(self).wf(),
            final(self).capacity == new_capacity,
            final(self).issued == old(self).issued,
            final(self).shut_down == old(self).shut_down,
            final(self).issued_at_last_shrink == (if new_capacity < old(self).capacity {
                old(self).issued
            } else {
                old(self).issued_at_last_shrink
            }),
    {
        if new_capacity < self.capacity {
            self.issued_at_last_shrink = self.issued;
        }
        self.capacity = new_capacity;
    }

    /// Tears the pool down: every later acquisition fails. Outstanding
    /// permits are unaffected and may still be released.
    pub fn shutdown(&mut self)
        requires
            old(self).wf(),
        ensures
            final(self).wf(),
            final(self).shut_down,
            final(self).capacity == old(self).capacity,
            final(self).issued == old(self).issued,
            final(self).issued_at_last_shrink == old(self).issued_at_last_shrink,
    {
        self.shut_down = true;
    }

    /// Reads the capacity.
    pub fn capacity(&self) -> (r: u64)
        ensures
            r == self.capacity,
    {
        self.capacity
    }

    /// Reads the count of outstanding permits.
    pub fn issued(&self) -> (r: u64)
        ensures
            r == self.issued,
    {
        self.issued
    }

    /// Whether the pool has been shut down.
    pub fn is_shut_down(&self) -> (r: bool)
        ensures
            r == self.shut_down,
    {
        self.shut_down
    }
}

} // verus!
