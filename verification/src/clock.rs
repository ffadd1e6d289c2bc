//! The logical clock primitives shared by every operator.
//!
//! A [`Capability`] is a token bound to a logical time: whoever holds it may
//! still emit data stamped at or after that time. Downgrading moves the bound
//! time forward; releasing it promises that nothing will ever be emitted at
//! or before the bound time again.
//!
//! A [`Frontier`] summarises one input path: the minimal logical time that is
//! still outstanding there, together with a close flag. Once the frontier has
//! passed a time `t` (or the input closed), every upstream capability bound
//! to a time at or before `t` has been released, so a notification for `t`
//! may safely fire.
//!
//! Logical times are milliseconds since the start of the run, represented as
//! plain `u64` values; they are totally ordered and never decrease.

use vstd::prelude::*;

verus! {

/// An exclusive token granting the right to emit at or after a logical time.
#[derive(Clone, Copy, Debug)]
pub struct Capability {
    /// The logical time the capability is bound to.
    pub time: u64,
    /// Whether the capability is still held.
    pub active: bool,
}

impl Capability {
    /// The logical time the capability is bound to.
    pub open spec fn spec_time(&self) -> u64 {
        self.time
    }

    /// Whether the capability is still held (not yet released).
    pub open spec fn is_active(&self) -> bool {
        self.active
    }

    /// The held capability bound to `time`, as a value of the model.
    pub open spec fn spec_at(time: u64) -> Capability {
        Capability { time, active: true }
    }

    /// The capability `c` after its release, as a value of the model.
    pub open spec fn spec_released(c: Capability) -> Capability {
        Capability { time: c.time, active: false }
    }

    /// Acquire a fresh capability bound to `time`.
    pub fn new(time: u64) -> (c: Capability)
        ensures
            c == Capability::spec_at(time),
            c.spec_time() == time,
            c.is_active(),
    {
        Capability { time, active: true }
    }

    /// The bound time, as a value.
    pub fn time(&self) -> (t: u64)
        ensures
            t == self.spec_time(),
    {
        self.time
    }

    /// Whether the capability is still held, as a value.
    pub fn active(&self) -> (a: bool)
        ensures
            a == self.is_active(),
    {
        self.active
    }

    /// Move the bound time forward: the holder gives up the right to emit
    /// before `time`.
    pub fn downgrade(&mut self, time: u64)
        requires
            old(self).is_active(),
            time >= old(self).spec_time(),
        ensures
            *final(self) == Capability::spec_at(time),
            final(self).spec_time() == time,
            final(self).is_active(),
    {
        self.time = time;
    }

    /// Release the capability: the holder will never emit at or before the
    /// bound time again.
    pub fn release(&mut self)
        ensures
            *final(self) == Capability::spec_released(*old(self)),
            final(self).spec_time() == old(self).spec_time(),
            !final(self).is_active(),
    {
        self.active = false;
    }
}

/// What the model constructors of [`Capability`] mean: a capability made by
/// `spec_at` is held and bound to the given time, and one made by
/// `spec_released` keeps its time but is no longer held.
pub broadcast proof fn lemma_capability_model(time: u64, c: Capability)
    ensures
        (#[trigger] Capability::spec_at(time)).spec_time() == time,
        Capability::spec_at(time).is_active(),
        (#[trigger] Capability::spec_released(c)).spec_time() == c.spec_time(),
        !Capability::spec_released(c).is_active(),
{
}

/// The completion state of one input path: the minimal outstanding logical
/// time, and whether the input has closed for good.
#[derive(Clone, Copy, Debug)]
pub struct Frontier {
    /// The minimal logical time still outstanding.
    pub min_time: u64,
    /// Whether the input has closed for good.
    pub closed: bool,
}

impl Frontier {
    /// The minimal logical time still outstanding on this input.
    pub open spec fn spec_min(&self) -> u64 {
        self.min_time
    }

    /// Whether the input has closed: no time is outstanding any more.
    pub open spec fn is_closed(&self) -> bool {
        self.closed
    }

    /// Everything at or before `t` has been retired on this input.
    pub open spec fn spec_passed(&self, t: u64) -> bool {
        self.is_closed() || self.spec_min() > t
    }

    /// A frontier whose minimal outstanding time is `time`.
    pub fn new(time: u64) -> (f: Frontier)
        ensures
            f.spec_min() == time,
            !f.is_closed(),
    {
        Frontier { min_time: time, closed: false }
    }

    /// The minimal outstanding time, as a value.
    pub fn min_time(&self) -> (t: u64)
        ensures
            t == self.spec_min(),
    {
        self.min_time
    }

    /// Whether the input has closed, as a value.
    pub fn closed(&self) -> (c: bool)
        ensures
            c == self.is_closed(),
    {
        self.closed
    }

    /// Whether everything at or before `t` has been retired.
    pub fn passed(&self, t: u64) -> (r: bool)
        ensures
            r == self.spec_passed(t),
    {
        self.closed || self.min_time > t
    }

    /// The clock advanced: the minimal outstanding time moves forward.
    pub fn advance_to(&mut self, time: u64)
        requires
            time >= old(self).spec_min(),
        ensures
            final(self).spec_min() == time,
            final(self).is_closed() == old(self).is_closed(),
    {
        self.min_time = time;
    }

    /// Close the input: nothing will arrive on it any more.
    pub fn close(&mut self)
        ensures
            final(self).spec_min() == old(self).spec_min(),
            final(self).is_closed(),
    {
        self.closed = true;
    }
}

} // verus!
