//! A discrete clock: accumulated elapsed time against a fixed lifespan,
//! advanced in fixed-size ticks. Time is a plain count of duration units, so
//! ticking is drift-free: `n` ticks from zero give `elapsed == n * tick_interval`.

use vstd::prelude::*;

verus! {

#[derive(Debug)]
pub struct Clock {
    /// The duration this clock must accumulate before it is done.
    pub lifespan: u64,
    /// The fixed amount added by each tick.
    pub tick_interval: u64,
    /// The accumulated duration so far.
    pub elapsed: u64,
}

/// The value of a clock after one tick.
pub open spec fn ticked_once(c: Clock) -> Clock {
    Clock { elapsed: (c.elapsed + c.tick_interval) as u64, ..c }
}

/// The value of a clock after `n` ticks.
pub open spec fn ticked(c: Clock, n: nat) -> Clock
    decreases n,
{
    if n == 0 {
        c
    } else {
        ticked_once(ticked(c, (n - 1) as nat))
    }
}

/// The least number of ticks that take a fresh clock to its lifespan:
/// the ceiling of `lifespan / tick_interval`.
pub open spec fn ticks_to_finish(lifespan: u64, tick_interval: u64) -> int
    recommends
        tick_interval > 0,
{
    (lifespan + tick_interval - 1) / (tick_interval as int)
}

impl Clock {
    /// A clock is done once it has accumulated at least its lifespan.
    /// Ticking past done is permitted, so `elapsed` may exceed `lifespan`
    /// by up to one `tick_interval`.
    pub open spec fn done(self) -> bool {
        self.elapsed >= self.lifespan
    }

    pub fn new(lifespan: u64, tick_interval: u64) -> (r: Clock)
        ensures
            r == (Clock { lifespan, tick_interval, elapsed: 0 }),
    {
        Clock { lifespan, tick_interval, elapsed: Self::initial_duration() }
    }

    pub fn initial_duration() -> (r: u64)
        ensures
            r == 0,
    {
        0
    }

    pub fn reset(&mut self)
        ensures
            *final(self) == (Clock { elapsed: 0, ..*old(self) }),
    {
        self.elapsed = Self::initial_duration();
    }

    pub fn tick(&mut self)
        requires
            old(self).elapsed + old(self).tick_interval <= u64::MAX,
        ensures
            *final(self) == ticked_once(*old(self)),
    {
        self.elapsed = self.elapsed + self.tick_interval;
    }

    pub fn is_done(&self) -> (r: bool)
        ensures
            r == self.done(),
    {
        self.elapsed >= self.lifespan
    }
}

/// Ticking accumulates exactly `n * tick_interval`: the time model is
/// drift-free.
pub proof fn lemma_ticked_elapsed(c: Clock, n: nat)
    requires
        c.elapsed + n * c.tick_interval <= u64::MAX,
    ensures
        ticked(c, n).lifespan == c.lifespan,
        ticked(c, n).tick_interval == c.tick_interval,
        ticked(c, n).elapsed == c.elapsed + n * c.tick_interval,
    decreases n,
{
    if n > 0 {
        let m = (n - 1) as nat;
        assert(m * c.tick_interval == n * c.tick_interval - c.tick_interval)
            by (nonlinear_arith)
            requires
                m == n - 1,
        ;
        lemma_ticked_elapsed(c, m);
        assert(ticked(c, n) == ticked_once(ticked(c, m)));
        assert(ticked(c, n).elapsed == c.elapsed + m * c.tick_interval + c.tick_interval);
    } else {
        assert(n * c.tick_interval == 0) by (nonlinear_arith)
            requires
                n == 0,
        ;
    }
}

/// A fresh clock becomes done after exactly the ceiling of
/// `lifespan / tick_interval` ticks: after that many it is done, after any
/// fewer it is not.
pub proof fn lemma_done_at_ceiling(c: Clock, n: nat)
    requires
        c.elapsed == 0,
        c.tick_interval > 0,
        n * c.tick_interval <= u64::MAX,
    ensures
        ticked(c, n).done() <==> n >= ticks_to_finish(c.lifespan, c.tick_interval),
{
    lemma_ticked_elapsed(c, n);
    let l = c.lifespan as int;
    let t = c.tick_interval as int;
    let q = ticks_to_finish(c.lifespan, c.tick_interval);
    vstd::arithmetic::div_mod::lemma_fundamental_div_mod(l + t - 1, t);
    let r = (l + t - 1) % t;
    vstd::arithmetic::div_mod::lemma_mod_bound(l + t - 1, t);
    assert(l + t - 1 == t * q + r);
    if n >= q {
        vstd::arithmetic::mul::lemma_mul_inequality(q, n as int, t);
        assert(q * t >= l) by (nonlinear_arith)
            requires
                l + t - 1 == t * q + r,
                0 <= r < t,
        ;
    } else {
        vstd::arithmetic::mul::lemma_mul_inequality(n as int, q - 1, t);
        assert((q - 1) * t < l) by (nonlinear_arith)
            requires
                l + t - 1 == t * q + r,
                0 <= r < t,
        ;
    }
}

/// Resetting restores a not-done clock whenever the lifespan is positive.
pub proof fn lemma_reset_not_done(c: Clock)
    requires
        c.lifespan > 0,
    ensures
        !(Clock { elapsed: 0, ..c }).done(),
{
}

} // verus!
