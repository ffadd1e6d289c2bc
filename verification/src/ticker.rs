//! The ticker: converts clock advances into paced "show the next image"
//! events.
//!
//! The ticker holds one retained capability. Whenever the input frontier has
//! moved past the retained time, it emits a single tick at that time, then
//! downgrades the capability by whole multiples of the configured delay until
//! it is back at or ahead of the frontier. Missed ticks are thereby skipped,
//! never bursted: a stalled caller receives one tick on resuming, not a
//! backlog. When the input closes, the capability is released and the ticker
//! stops emitting for good.

use vstd::prelude::*;

use crate::clock::{Capability, Frontier};

verus! {

broadcast use crate::clock::lemma_capability_model;

/// How far `time` still is from `min`, clamped at zero.
pub open spec fn time_left(time: int, min: int) -> int {
    if min - time >= 0 {
        min - time
    } else {
        0
    }
}

/// Advance `time` by whole multiples of `delay` until it is at or past `min`.
pub open spec fn catch_up(time: int, min: int, delay: int) -> int
    decreases time_left(time, min) when delay >= 1
{
    if time >= min {
        time
    } else {
        catch_up(time + delay, min, delay)
    }
}

/// Facts about `catch_up`: the result is past both `time` and `min`, was
/// reached in whole `delay` steps, and overshoots `min` by less than one
/// `delay` whenever the starting point did.
pub proof fn lemma_catch_up(time: int, min: int, delay: int)
    requires
        delay >= 1,
    ensures
        catch_up(time, min, delay) >= time,
        catch_up(time, min, delay) >= min,
        (catch_up(time, min, delay) - time) % delay == 0,
        time < min + delay ==> catch_up(time, min, delay) < min + delay,
    decreases time_left(time, min),
{
    if time >= min {
        assert((catch_up(time, min, delay) - time) % delay == 0) by (nonlinear_arith)
            requires
                catch_up(time, min, delay) == time,
                delay >= 1,
        ;
    } else {
        lemma_catch_up(time + delay, min, delay);
        let r = catch_up(time, min, delay);
        assert(r == catch_up(time + delay, min, delay));
        assert((r - (time + delay)) % delay == 0 ==> (r - time) % delay == 0)
            by (nonlinear_arith)
            requires
                delay >= 1,
        ;
    }
}

/// The paced source of tick events.
pub struct Ticker {
    /// The configured delay between ticks.
    pub delay: u64,
    /// The retained capability.
    pub cap: Capability,
    /// The time the ticker was started at.
    pub start: Ghost<u64>,
    /// The times of every tick emitted so far, in order of emission.
    pub ticks: Ghost<Seq<u64>>,
}

impl Ticker {
    /// The configured delay between ticks, in logical time units.
    pub open spec fn spec_delay(&self) -> u64 {
        self.delay
    }

    /// The time the ticker was started at.
    pub open spec fn spec_start(&self) -> u64 {
        self.start@
    }

    /// The time of the retained capability.
    pub open spec fn spec_retained(&self) -> u64 {
        self.cap.spec_time()
    }

    /// Whether the retained capability is still held.
    pub open spec fn is_active(&self) -> bool {
        self.cap.is_active()
    }

    /// The times of every tick emitted so far, in order of emission.
    pub open spec fn spec_ticks(&self) -> Seq<u64> {
        self.ticks@
    }

    /// The ticker's invariant: ticks are spaced at least one delay apart,
    /// the n-th tick fired no earlier than `start + (n - 1) * delay`, and the
    /// retained time lies at least one delay past the last tick.
    pub open spec fn wf(&self) -> bool {
        &&& self.spec_delay() >= 1
        &&& self.spec_retained() >= self.spec_start() + self.spec_ticks().len()
            * self.spec_delay()
        &&& forall|i: int|
            0 <= i < self.spec_ticks().len() ==> #[trigger] self.spec_ticks()[i]
                >= self.spec_start() + i * self.spec_delay()
        &&& forall|i: int|
            1 <= i < self.spec_ticks().len() ==> #[trigger] self.spec_ticks()[i]
                >= self.spec_ticks()[i - 1] + self.spec_delay()
        &&& self.spec_ticks().len() > 0 ==> self.spec_retained() >= self.spec_ticks().last()
            + self.spec_delay()
    }

    /// A ticker with delay `delay` whose first tick is due once the clock
    /// passes `now`.
    pub fn new(delay: u64, now: u64) -> (t: Ticker)
        requires
            delay >= 1,
        ensures
            t.wf(),
            t.spec_delay() == delay,
            t.spec_start() == now,
            t.spec_retained() == now,
            t.is_active(),
            t.spec_ticks().len() == 0,
    {
        Ticker { delay, cap: Capability::new(now), start: Ghost(now), ticks: Ghost(Seq::empty()) }
    }

    /// What one step does, as a function of the old state: the next state
    /// and the emitted tick, if one fired.
    pub open spec fn spec_step(self, frontier: Frontier) -> (Ticker, Option<u64>) {
        if frontier.is_closed() {
            (
                Ticker {
                    cap: Capability::spec_released(self.cap),
                    ..self
                },
                None,
            )
        } else if !self.is_active() || frontier.spec_min() <= self.spec_retained() {
            (self, None)
        } else {
            let fired = self.spec_retained();
            let next = catch_up(
                fired + self.spec_delay(),
                frontier.spec_min() as int,
                self.spec_delay() as int,
            );
            (
                Ticker {
                    cap: Capability::spec_at(next as u64),
                    ticks: Ghost(self.ticks@.push(fired)),
                    ..self
                },
                Some(fired),
            )
        }
    }

    /// Step the ticker against the current input frontier.
    ///
    /// At most one tick is emitted per step, whatever distance the clock
    /// jumped; afterwards the retained time is back at or ahead of the
    /// frontier, so the skipped ticks are gone for good.
    pub fn step(&mut self, frontier: &Frontier) -> (r: Option<u64>)
        requires
            old(self).wf(),
            frontier.spec_min() + old(self).spec_delay() <= u64::MAX,
        ensures
            final(self).wf(),
            (*final(self), r) == old(self).spec_step(*frontier),
            r is Some ==> final(self).spec_ticks() == old(self).spec_ticks().push(
                old(self).spec_retained(),
            ) && r == Some(old(self).spec_retained()),
            r is None ==> final(self).spec_ticks() == old(self).spec_ticks(),
            r is Some ==> final(self).spec_retained() >= frontier.spec_min(),
    {
        if frontier.closed() {
            self.cap.release();
            return None;
        }
        if !self.cap.active() {
            return None;
        }
        let min = frontier.min_time();
        let fired = self.cap.time();
        if min <= fired {
            return None;
        }
        let ghost target = catch_up(fired + self.delay, min as int, self.delay as int);
        proof {
            lemma_catch_up(fired + self.delay, min as int, self.delay as int);
        }
        let mut next = fired + self.delay;
        while next < min
            invariant
                self.delay >= 1,
                next >= fired + self.delay,
                next <= target,
                target == catch_up(next as int, min as int, self.delay as int),
                min + self.delay <= u64::MAX,
                target < min + self.delay,
            decreases time_left(next as int, min as int),
        {
            proof {
                lemma_catch_up(next + self.delay, min as int, self.delay as int);
            }
            next = next + self.delay;
        }
        self.cap.downgrade(next);
        self.ticks = Ghost(self.ticks@.push(fired));
        proof {
            assert(next == target);
            let ghost n = old(self).spec_ticks().len() as int;
            let ghost d = self.delay as int;
            assert(n * d + d == (n + 1) * d) by (nonlinear_arith);
            assert forall|i: int|
                0 <= i < self.ticks@.len() implies #[trigger] self.ticks@[i] >= self.start@ + i
                * self.delay by {
                if i < self.ticks@.len() - 1 {
                    assert(self.ticks@[i] == old(self).spec_ticks()[i]);
                }
            }
        }
        Some(fired)
    }
}

/// Tick pacing: the ticks a well-formed ticker has emitted are spaced at
/// least one delay apart, so the tick at position `j` fired no earlier than
/// `delay` times `j - i` after the tick at position `i`, and the tick at
/// position `n` fired no earlier than `start + n * delay`.
pub proof fn lemma_tick_pacing(t: &Ticker, i: int, j: int)
    requires
        t.wf(),
        0 <= i <= j < t.spec_ticks().len(),
    ensures
        t.spec_ticks()[j] >= t.spec_ticks()[i] + (j - i) * t.spec_delay(),
        t.spec_ticks()[j] >= t.spec_start() + j * t.spec_delay(),
    decreases j - i,
{
    if i < j {
        lemma_tick_pacing(t, i, j - 1);
        assert(t.spec_ticks()[j] >= t.spec_ticks()[j - 1] + t.spec_delay());
        assert((j - 1 - i) * t.spec_delay() + t.spec_delay() == (j - i) * t.spec_delay())
            by (nonlinear_arith);
    } else {
        assert((j - i) * t.spec_delay() == 0) by (nonlinear_arith)
            requires
                i == j,
        ;
    }
}

/// Catch-up skips, it does not burst: however far the clock jumped forward
/// in one step, exactly one tick is emitted, and a second step without a
/// further clock advance emits nothing.
pub proof fn lemma_catch_up_skip(t: Ticker, frontier: Frontier)
    requires
        t.wf(),
        t.is_active(),
        !frontier.is_closed(),
        frontier.spec_min() > t.spec_retained(),
        frontier.spec_min() + t.spec_delay() <= u64::MAX,
    ensures
        ({
            let (t2, r) = t.spec_step(frontier);
            &&& r == Some(t.spec_retained())
            &&& t2.spec_ticks().len() == t.spec_ticks().len() + 1
            &&& t2.spec_step(frontier).1 is None
        }),
{
    let (t2, r) = t.spec_step(frontier);
    lemma_catch_up(
        t.spec_retained() + t.spec_delay(),
        frontier.spec_min() as int,
        t.spec_delay() as int,
    );
    assert(t2.spec_retained() >= frontier.spec_min());
}

} // verus!
