use vstd::prelude::*;
use vstd::arithmetic::div_mod::lemma_fundamental_div_mod;

verus! {

pub const NANOS_PER_SEC: u64 = 1_000_000_000;

/// How long before a deadline the pacer stops sleeping and starts polling the
/// clock. Sleeping is coarse on most schedulers; the polling that follows
/// burns CPU for timing accuracy.
pub const SPIN_GUARD_NANOS: u64 = 1_000_000;

/// Length of one frame interval in nanoseconds, rounded down.
pub fn frame_interval_nanos(fps: u32) -> (r: u64)
    requires
        fps > 0,
    ensures
        r == NANOS_PER_SEC as int / fps as int,
{
    NANOS_PER_SEC / (fps as u64)
}

/// What the calling thread does next while waiting for a deadline.
#[derive(Clone, Copy, Debug, PartialEq, Eq, Structural)]
pub enum Wait {
    /// The deadline has been reached or passed.
    Ready,
    /// The deadline is within the guard interval: poll the clock again.
    Spin,
    /// Sleep this many nanoseconds, then ask again.
    Sleep(u64),
}

pub open spec fn wait_for(now: int, deadline: int) -> Wait {
    if now >= deadline {
        Wait::Ready
    } else if deadline - now > SPIN_GUARD_NANOS {
        Wait::Sleep((deadline - now - SPIN_GUARD_NANOS) as u64)
    } else {
        Wait::Spin
    }
}

/// Issues deadlines spaced by a fixed interval from a start time. Times are
/// nanoseconds on a monotonic clock.
pub struct Pacer {
    start: u64,
    interval: u64,
    next_deadline: u64,
    ticks: u64,
}

impl Pacer {
    pub closed spec fn spec_start(&self) -> int {
        self.start as int
    }

    pub closed spec fn spec_interval(&self) -> int {
        self.interval as int
    }

    pub closed spec fn spec_deadline(&self) -> int {
        self.next_deadline as int
    }

    pub closed spec fn spec_ticks(&self) -> int {
        self.ticks as int
    }

    /// The deadline of tick `k` depends on the start, the interval and `k`
    /// alone, never on when earlier ticks were taken.
    pub closed spec fn wf(&self) -> bool {
        &&& self.interval > 0
        &&& self.next_deadline == self.start + self.ticks * self.interval
    }

    /// A pacer for `fps` frames per second whose first deadline is `start`.
    pub fn new(start: u64, fps: u32) -> (r: Pacer)
        requires
            0 < fps <= NANOS_PER_SEC,
        ensures
            r.wf(),
            r.spec_start() == start,
            r.spec_interval() == NANOS_PER_SEC as int / fps as int,
            r.spec_deadline() == start,
            r.spec_ticks() == 0,
    {
        let interval = frame_interval_nanos(fps);
        assert(interval > 0) by {
            vstd::arithmetic::div_mod::lemma_div_non_zero(NANOS_PER_SEC as int, fps as int);
        }
        Pacer { start, interval, next_deadline: start, ticks: 0 }
    }

    pub fn next_deadline(&self) -> (r: u64)
        ensures
            r == self.spec_deadline(),
    {
        self.next_deadline
    }

    pub fn interval(&self) -> (r: u64)
        ensures
            r == self.spec_interval(),
    {
        self.interval
    }

    pub fn ticks(&self) -> (r: u64)
        ensures
            r == self.spec_ticks(),
    {
        self.ticks
    }

    /// What to do at time `now` to reach the current deadline: sleep until
    /// the guard interval before it, then poll until it has passed.
    pub fn wait(&self, now: u64) -> (r: Wait)
        ensures
            r == wait_for(now as int, self.spec_deadline()),
    {
        if now >= self.next_deadline {
            Wait::Ready
        } else if self.next_deadline - now > SPIN_GUARD_NANOS {
            Wait::Sleep(self.next_deadline - now - SPIN_GUARD_NANOS)
        } else {
            Wait::Spin
        }
    }

    /// Moves to the next deadline, one interval after the current one,
    /// however long the tick took.
    pub fn advance(&mut self)
        requires
            old(self).wf(),
            old(self).spec_deadline() + old(self).spec_interval() <= u64::MAX,
        ensures
            final(self).wf(),
            final(self).spec_start() == old(self).spec_start(),
            final(self).spec_interval() == old(self).spec_interval(),
            final(self).spec_ticks() == old(self).spec_ticks() + 1,
            final(self).spec_deadline() == old(self).spec_deadline() + old(self).spec_interval(),
            final(self).spec_deadline() == old(self).spec_start() + final(self).spec_ticks()
                * old(self).spec_interval(),
    {
        let ghost t = self.ticks as int;
        let ghost i = self.interval as int;
        assert(t <= t * i) by (nonlinear_arith)
            requires
                i >= 1,
                t >= 0,
        ;
        assert((t + 1) * i == t * i + i) by (nonlinear_arith);
        self.next_deadline = self.next_deadline + self.interval;
        self.ticks = self.ticks + 1;
    }
}

/// Pacing accuracy. With the interval derived from a rate of `rate` frames per
/// second (at most ten million), the ticks whose deadlines fall within the
/// first `dur` nanoseconds after the start (tick 0 and `dur / interval` more)
/// are at least `rate * dur / 10^9` and, past tick 0, at most one percent more.
/// Deadlines do not depend on how long tick bodies take, so slow ticks do not
/// change these counts.
pub proof fn lemma_pacing_accuracy(rate: nat, dur: nat)
    requires
        0 < rate <= 10_000_000,
    ensures
        ({
            let i = NANOS_PER_SEC as int / rate as int;
            let k = dur as int / i;
            &&& k * i <= dur < (k + 1) * i
            &&& rate * dur < (k + 1) * NANOS_PER_SEC
            &&& 100 * k * NANOS_PER_SEC <= 101 * rate * dur
        }),
{
    let e = NANOS_PER_SEC as int;
    let i = e / rate as int;
    let r = e % rate as int;
    lemma_fundamental_div_mod(e, rate as int);
    assert(e == rate * i + r);
    assert(0 <= r < rate);
    assert(i >= 100) by {
        assert(rate * 100 <= e) by (nonlinear_arith)
            requires
                rate <= 10_000_000,
                e == 1_000_000_000,
        ;
        if i < 100 {
            assert(rate * i <= rate * 99) by (nonlinear_arith)
                requires
                    i <= 99,
                    rate > 0,
            ;
        }
    }
    let k = dur as int / i;
    let m = dur as int % i;
    lemma_fundamental_div_mod(dur as int, i);
    assert(dur == k * i + m);
    assert(0 <= m < i);
    assert(k >= 0) by {
        vstd::arithmetic::div_mod::lemma_div_pos_is_pos(dur as int, i);
    }
    assert((k + 1) * i == k * i + i) by (nonlinear_arith);
    assert(rate * dur < (k + 1) * e) by (nonlinear_arith)
        requires
            dur == k * i + m,
            m < i,
            0 <= m,
            rate > 0,
            e == rate * i + r,
            r >= 0,
            k >= 0,
    ;
    assert(100 * k * e <= 101 * rate * dur) by (nonlinear_arith)
        requires
            dur == k * i + m,
            m >= 0,
            e == rate * i + r,
            0 <= r < rate,
            i >= 100,
            k >= 0,
            rate > 0,
    ;
}

} // verus!
