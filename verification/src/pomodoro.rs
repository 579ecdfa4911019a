//! The three-phase timer state machine: the current phase, one clock per
//! phase, per-phase completion counts, the long-break interval, the
//! continuous/step-mode flag, an optional cap on completed working cycles,
//! and the pause flag an external controller flips.

use vstd::prelude::*;

use crate::clock::{ticked_once, Clock};
use crate::counter::Counter;

verus! {

/// A clock the advancing loop can drive: each tick adds a positive amount,
/// and a tick taken while the clock is not done cannot overflow.
pub open spec fn clock_ok(c: Clock) -> bool {
    c.tick_interval >= 1 && c.lifespan + c.tick_interval <= u64::MAX
}

#[derive(Clone, Copy, PartialEq, Eq, Structural, Debug)]
pub enum Phase {
    Working,
    ShortBreak,
    LongBreak,
}

/// The state shared with an external controller: whether the machine is
/// paused. It starts paused; only `pause` and `resume` flip it.
pub struct Shared {
    pub paused: bool,
}

impl Shared {
    pub fn new() -> (r: Shared)
        ensures
            r == (Shared { paused: true }),
    {
        Shared { paused: true }
    }

    pub fn pause(&mut self)
        ensures
            *final(self) == (Shared { paused: true }),
    {
        self.paused = true
    }

    pub fn resume(&mut self)
        ensures
            *final(self) == (Shared { paused: false }),
    {
        self.paused = false
    }
}

/// A control signal sent by an external controller while the timer runs.
#[derive(Clone, Copy, PartialEq, Eq, Structural, Debug)]
pub enum Signal {
    Abort,
    Pause,
    Resume,
}

/// What one iteration of the advancing loop asks of its driver: stop the
/// loop, wait one tick of the current clock and then advance it, or nothing
/// further (a phase transition was just performed).
#[derive(Clone, Copy, PartialEq, Eq, Structural, Debug)]
pub enum StepAction {
    Stop,
    Wait,
    Advanced,
}

pub struct Pomodoro {
    pub working: Clock,
    pub short_break: Clock,
    pub long_break: Clock,
    pub long_break_interval: u8,
    pub counter: Counter,
    pub continuous: bool,
    pub until: Option<u8>,
    pub current_status: Phase,
    pub shared: Shared,
}

impl Pomodoro {
    /// A machine is well formed when the long-break interval is positive;
    /// an interval of zero would make the long-break divisibility check
    /// undefined, so construction rejects it.
    pub open spec fn wf(self) -> bool {
        self.long_break_interval > 0
    }

    /// The clock belonging to a phase.
    pub open spec fn clock_for(self, p: Phase) -> Clock {
        match p {
            Phase::Working => self.working,
            Phase::ShortBreak => self.short_break,
            Phase::LongBreak => self.long_break,
        }
    }

    /// The completion count belonging to a phase.
    pub open spec fn count_for(self, p: Phase) -> u8 {
        match p {
            Phase::Working => self.counter.working,
            Phase::ShortBreak => self.counter.short_break,
            Phase::LongBreak => self.counter.long_break,
        }
    }

    /// The cap on completed working cycles has been reached.
    pub open spec fn consumed(self) -> bool {
        match self.until {
            Some(u) => self.counter.working >= u,
            None => false,
        }
    }

    /// The machine advances only while it is not paused.
    pub open spec fn active(self) -> bool {
        !self.shared.paused
    }

    /// The working count, checked right after a working completion has
    /// incremented it, is a positive multiple of the long-break interval.
    pub open spec fn reached_long_break(self) -> bool {
        self.counter.working > 0 && self.counter.working as int % self.long_break_interval as int
            == 0
    }

    /// The phase that follows the current one: stay while the current clock
    /// is not done; insert a long break when leaving any phase but LongBreak
    /// with the long-break condition met; otherwise follow the fixed cycle
    /// Working -> ShortBreak -> Working, LongBreak -> Working.
    pub open spec fn next_phase(self) -> Phase {
        if !self.clock_for(self.current_status).done() {
            self.current_status
        } else if self.current_status != Phase::LongBreak && self.reached_long_break() {
            Phase::LongBreak
        } else {
            match self.current_status {
                Phase::Working => Phase::ShortBreak,
                Phase::ShortBreak => Phase::Working,
                Phase::LongBreak => Phase::Working,
            }
        }
    }

    /// The machine with one phase's clock replaced.
    pub open spec fn with_clock(self, p: Phase, c: Clock) -> Pomodoro {
        match p {
            Phase::Working => Pomodoro { working: c, ..self },
            Phase::ShortBreak => Pomodoro { short_break: c, ..self },
            Phase::LongBreak => Pomodoro { long_break: c, ..self },
        }
    }

    /// The machine with one phase's completion count raised by one.
    pub open spec fn with_count_bumped(self, p: Phase) -> Pomodoro {
        match p {
            Phase::Working => Pomodoro {
                counter: Counter {
                    working: (self.counter.working + 1) as u8,
                    ..self.counter
                },
                ..self
            },
            Phase::ShortBreak => Pomodoro {
                counter: Counter {
                    short_break: (self.counter.short_break + 1) as u8,
                    ..self.counter
                },
                ..self
            },
            Phase::LongBreak => Pomodoro {
                counter: Counter {
                    long_break: (self.counter.long_break + 1) as u8,
                    ..self.counter
                },
                ..self
            },
        }
    }

    /// The machine with the pause flag set to the given value.
    pub open spec fn with_paused(self, paused: bool) -> Pomodoro {
        Pomodoro { shared: Shared { paused }, ..self }
    }

    /// One completed phase transition: the current phase's count rises by
    /// one, the next phase is computed from the raised count, the clock of
    /// the phase being left is reset, and the next phase is committed.
    pub open spec fn next_cycle_spec(self) -> Pomodoro {
        let bumped = self.with_count_bumped(self.current_status);
        let cleared = bumped.with_clock(
            self.current_status,
            (Clock { elapsed: 0, ..self.clock_for(self.current_status) }),
        );
        Pomodoro { current_status: bumped.next_phase(), ..cleared }
    }

    pub fn new(
        working: Clock,
        short_break: Clock,
        long_break: Clock,
        long_break_interval: u8,
        continuous: bool,
        until: Option<u8>,
    ) -> (r: Pomodoro)
        requires
            long_break_interval > 0,
        ensures
            r == (Pomodoro {
                working,
                short_break,
                long_break,
                long_break_interval,
                counter: Counter { working: 0, short_break: 0, long_break: 0 },
                continuous,
                until,
                current_status: Phase::Working,
                shared: Shared { paused: true },
            }),
    {
        Pomodoro {
            working,
            short_break,
            long_break,
            long_break_interval,
            counter: Counter::new(),
            continuous,
            until,
            current_status: Phase::Working,
            shared: Shared::new(),
        }
    }

    pub fn is_consumed(&self) -> (r: bool)
        ensures
            r == self.consumed(),
    {
        match self.until {
            Some(u) => self.counter.working >= u,
            None => false,
        }
    }

    pub fn current_status(&self) -> (r: Phase)
        ensures
            r == self.current_status,
    {
        self.current_status
    }

    pub fn current_timer(&self) -> (r: &Clock)
        ensures
            *r == self.clock_for(self.current_status),
    {
        match self.current_status {
            Phase::Working => &self.working,
            Phase::ShortBreak => &self.short_break,
            Phase::LongBreak => &self.long_break,
        }
    }

    fn current_timer_mut(&mut self) -> (r: &mut Clock)
        ensures
            *r == old(self).clock_for(old(self).current_status),
            *final(self) == old(self).with_clock(old(self).current_status, *final(r)),
    {
        match self.current_status {
            Phase::Working => &mut self.working,
            Phase::ShortBreak => &mut self.short_break,
            Phase::LongBreak => &mut self.long_break,
        }
    }

    pub fn increment_current_status_counter(&mut self)
        requires
            old(self).count_for(old(self).current_status) < u8::MAX,
        ensures
            *final(self) == old(self).with_count_bumped(old(self).current_status),
    {
        match self.current_status() {
            Phase::Working => self.counter.increment_working(),
            Phase::ShortBreak => self.counter.increment_short_break(),
            Phase::LongBreak => self.counter.increment_long_break(),
        };
    }

    pub fn is_reached_long_break(&self) -> (r: bool)
        requires
            self.wf(),
        ensures
            r == self.reached_long_break(),
    {
        let v: u8 = self.counter.working;
        v > 0 && v % self.long_break_interval == 0
    }

    pub fn next_status(&mut self) -> (r: Phase)
        requires
            old(self).wf(),
        ensures
            *final(self) == *old(self),
            r == old(self).next_phase(),
    {
        if !self.current_timer().is_done() {
            return self.current_status();
        } else if self.current_status() != Phase::LongBreak && self.is_reached_long_break() {
            return Phase::LongBreak;
        }
        match self.current_status() {
            Phase::Working => Phase::ShortBreak,
            Phase::ShortBreak => Phase::Working,
            Phase::LongBreak => Phase::Working,
        }
    }

    pub fn is_active(&self) -> (r: bool)
        ensures
            r == self.active(),
    {
        let paused: bool = self.shared.paused;
        !paused
    }

    pub fn next_cycle(&mut self)
        requires
            old(self).wf(),
            old(self).count_for(old(self).current_status) < u8::MAX,
        ensures
            *final(self) == old(self).next_cycle_spec(),
    {
        self.increment_current_status_counter();
        let next_status = self.next_status();
        self.current_timer_mut().reset();
        self.current_status = next_status;
    }

    pub fn proceed(&mut self)
        requires
            old(self).clock_for(old(self).current_status).elapsed + old(self).clock_for(
                old(self).current_status,
            ).tick_interval <= u64::MAX,
        ensures
            *final(self) == old(self).with_clock(
                old(self).current_status,
                ticked_once(old(self).clock_for(old(self).current_status)),
            ),
    {
        self.current_timer_mut().tick();
    }

    /// The cap on completed working cycles, where one is set.
    pub open spec fn cap(self) -> u8 {
        match self.until {
            Some(u) => u,
            None => 0,
        }
    }

    pub open spec fn has_cap(self) -> bool {
        match self.until {
            Some(_) => true,
            None => false,
        }
    }

    /// What a completed phase transition leaves behind inside the advancing
    /// loop: the transition itself and, in step mode, an immediate pause so
    /// that every phase boundary needs an explicit resume.
    pub open spec fn advanced_spec(self) -> Pomodoro {
        if self.continuous {
            self.next_cycle_spec()
        } else {
            self.next_cycle_spec().with_paused(true)
        }
    }

    /// Configuration under which the advancing loop can run: a well-formed
    /// machine whose clocks advance by a positive amount without overflowing,
    /// and, in continuous mode, a cap (without one the loop would never end).
    pub open spec fn base_ok(self) -> bool {
        &&& self.wf()
        &&& clock_ok(self.working)
        &&& clock_ok(self.short_break)
        &&& clock_ok(self.long_break)
        &&& self.continuous ==> self.has_cap()
    }

    /// 1 while the machine is active; the advancing loop stops at 0.
    pub open spec fn active01(self) -> int {
        if self.active() {
            1
        } else {
            0
        }
    }

    /// Working completions still owed before the cap is reached.
    pub open spec fn work_left(self) -> int {
        if !self.continuous {
            0
        } else if self.counter.working < self.cap() {
            self.cap() - self.counter.working
        } else {
            0
        }
    }

    /// Distance of the current phase from Working along the cycle: a break
    /// leads back to Working, and a short break may pass through a long one.
    pub open spec fn phase_rank(self) -> int {
        match self.current_status {
            Phase::Working => 0,
            Phase::LongBreak => 1,
            Phase::ShortBreak => 2,
        }
    }

    /// Duration still missing from the current phase's clock.
    pub open spec fn time_left(self) -> int {
        let c = self.clock_for(self.current_status);
        if c.elapsed >= c.lifespan {
            0
        } else {
            c.lifespan - c.elapsed
        }
    }

    /// Headroom for the completion counts: while the machine is running,
    /// every count the loop may still raise stays below the counter's
    /// capacity. Each sum is preserved by every transition: a working
    /// completion converts one unit of remaining work into the break that
    /// follows it, and a break completion converts that unit into its count.
    /// Any freshly constructed machine satisfies both.
    pub open spec fn counters_ok(self) -> bool {
        if self.consumed() || !self.active() {
            true
        } else if self.continuous {
            &&& self.counter.short_break + self.work_left() + (
            if self.current_status == Phase::ShortBreak {
                1int
            } else {
                0int
            }) <= u8::MAX
            &&& self.counter.long_break + self.work_left() + (
            if self.current_status != Phase::Working {
                1int
            } else {
                0int
            }) <= u8::MAX
        } else {
            self.count_for(self.current_status) < u8::MAX
        }
    }

    /// No long break is owed while a short break runs: a machine in
    /// ShortBreak holds a working count that is not a positive multiple of
    /// the interval. A fresh machine satisfies this, and every transition
    /// keeps it.
    pub open spec fn no_pending_long_break(self) -> bool {
        self.current_status == Phase::ShortBreak ==> !self.reached_long_break()
    }

    /// The state in which the advancing loop, started on this machine,
    /// halts: ticking while the current phase's clock is not done,
    /// performing a transition when it is, until the machine is consumed
    /// or pauses.
    pub open spec fn run_spec(self) -> Pomodoro
        decreases self.active01(), self.work_left(), self.phase_rank(), self.time_left(),
            when self.base_ok() && self.counters_ok()
    {
        if self.consumed() || !self.active() {
            self
        } else if !self.clock_for(self.current_status).done() {
            self.with_clock(
                self.current_status,
                ticked_once(self.clock_for(self.current_status)),
            ).run_spec()
        } else {
            self.advanced_spec().run_spec()
        }
    }

    pub fn pause(&mut self)
        ensures
            *final(self) == old(self).with_paused(true),
    {
        self.shared.pause();
    }

    pub fn resume(&mut self)
        ensures
            *final(self) == old(self).with_paused(false),
    {
        self.shared.resume();
    }

    /// Apply one control signal: `Pause` and `Resume` flip the pause flag
    /// and leave the controller listening; `Abort` changes nothing and tells
    /// the controller to stop listening.
    pub fn apply_signal(&mut self, signal: Signal) -> (keep_listening: bool)
        ensures
            signal == Signal::Pause ==> *final(self) == old(self).with_paused(true)
                && keep_listening,
            signal == Signal::Resume ==> *final(self) == old(self).with_paused(false)
                && keep_listening,
            signal == Signal::Abort ==> *final(self) == *old(self) && !keep_listening,
    {
        match signal {
            Signal::Pause => {
                self.pause();
                true
            },
            Signal::Resume => {
                self.resume();
                true
            },
            Signal::Abort => false,
        }
    }

    /// One iteration boundary of the advancing loop. The pause flag and the
    /// cap are consulted first, so a machine that is paused or consumed is
    /// left untouched; otherwise the caller is asked to wait one tick of the
    /// current clock (and then advance it), or, when that clock is done, the
    /// phase transition is performed, pausing right away in step mode.
    pub fn step(&mut self) -> (r: StepAction)
        requires
            old(self).wf(),
            !old(self).consumed() && old(self).active() && old(self).clock_for(
                old(self).current_status,
            ).done() ==> old(self).count_for(old(self).current_status) < u8::MAX,
        ensures
            r == StepAction::Stop <==> (old(self).consumed() || !old(self).active()),
            r == StepAction::Wait <==> (!old(self).consumed() && old(self).active()
                && !old(self).clock_for(old(self).current_status).done()),
            r == StepAction::Advanced <==> (!old(self).consumed() && old(self).active()
                && old(self).clock_for(old(self).current_status).done()),
            r == StepAction::Advanced ==> *final(self) == old(self).advanced_spec(),
            r != StepAction::Advanced ==> *final(self) == *old(self),
    {
        if self.is_consumed() || !self.is_active() {
            return StepAction::Stop;
        }
        if !self.current_timer().is_done() {
            return StepAction::Wait;
        }
        self.next_cycle();
        if !self.continuous {
            self.pause();
        }
        StepAction::Advanced
    }

    /// Drive the machine forward: force a resume, then tick the current
    /// phase's clock until it is done and perform the transition, pausing at
    /// every phase boundary in step mode, until the machine is consumed or
    /// paused. The halting state is exactly `run_spec` of the resumed
    /// machine.
    pub fn run(&mut self)
        requires
            old(self).base_ok(),
            old(self).with_paused(false).counters_ok(),
        ensures
            *final(self) == old(self).with_paused(false).run_spec(),
    {
        self.resume();
        let ghost target = old(self).with_paused(false).run_spec();
        while !self.is_consumed() && self.is_active()
            invariant
                self.base_ok(),
                self.counters_ok(),
                self.run_spec() == target,
            decreases self.active01(), self.work_left(), self.phase_rank(), self.time_left(),
        {
            if !self.current_timer().is_done() {
                self.proceed();
                continue;
            }
            self.next_cycle();
            if !self.continuous {
                self.pause();
            }
        }
    }
}

/// A long break is never entered twice in a row: a completed long break
/// always hands the machine back to Working.
pub proof fn lemma_no_consecutive_long_break(s: Pomodoro)
    requires
        s.wf(),
        s.current_status == Phase::LongBreak,
        s.clock_for(Phase::LongBreak).done(),
    ensures
        s.next_cycle_spec().current_status == Phase::Working,
{
}

/// Leaving a completed Working phase enters LongBreak exactly when the
/// working count, having just risen by one, is a positive multiple of the
/// long-break interval; otherwise a short break follows.
pub proof fn lemma_long_break_exactly_on_interval(s: Pomodoro)
    requires
        s.wf(),
        s.current_status == Phase::Working,
        s.clock_for(Phase::Working).done(),
        s.counter.working < u8::MAX,
    ensures
        s.next_cycle_spec().counter.working == s.counter.working + 1,
        s.next_cycle_spec().current_status == Phase::LongBreak <==> (
        s.next_cycle_spec().counter.working > 0
            && s.next_cycle_spec().counter.working as int % s.long_break_interval as int == 0),
        s.next_cycle_spec().current_status == Phase::LongBreak
            || s.next_cycle_spec().current_status == Phase::ShortBreak,
{
}

/// A long break is never entered out of turn. A machine sitting in a short
/// break holds no pending long-break condition: its working count is not a
/// positive multiple of the interval. A fresh machine satisfies this (its
/// working count is zero), every transition preserves it, and under it a
/// transition reaches LongBreak only from Working — so a long break is
/// entered exactly when a working completion has just raised the count to a
/// positive multiple of the interval.
pub proof fn lemma_no_pending_long_break_preserved(s: Pomodoro)
    requires
        s.wf(),
        s.no_pending_long_break(),
        s.count_for(s.current_status) < u8::MAX,
    ensures
        s.next_cycle_spec().no_pending_long_break(),
{
}

/// Under the short-break invariant, a transition that enters LongBreak can
/// only leave a completed Working phase, with the just-raised working count a
/// positive multiple of the interval.
pub proof fn lemma_long_break_only_after_working(s: Pomodoro)
    requires
        s.wf(),
        s.no_pending_long_break(),
        s.clock_for(s.current_status).done(),
        s.next_cycle_spec().current_status == Phase::LongBreak,
    ensures
        s.current_status == Phase::Working,
        s.next_cycle_spec().counter.working > 0,
        s.next_cycle_spec().counter.working as int % s.long_break_interval as int == 0,
{
}

/// The advancing loop never disturbs the short-break invariant: whatever
/// state `run_spec` halts in still holds no pending long break.
pub proof fn lemma_run_preserves_no_pending_long_break(s: Pomodoro)
    requires
        s.base_ok(),
        s.counters_ok(),
        s.no_pending_long_break(),
    ensures
        s.run_spec().no_pending_long_break(),
    decreases s.active01(), s.work_left(), s.phase_rank(), s.time_left(),
{
    if s.consumed() || !s.active() {
    } else if !s.clock_for(s.current_status).done() {
        lemma_run_preserves_no_pending_long_break(
            s.with_clock(s.current_status, ticked_once(s.clock_for(s.current_status))),
        );
    } else {
        lemma_no_pending_long_break_preserved(s);
        lemma_run_preserves_no_pending_long_break(s.advanced_spec());
    }
}

/// The advancing loop halts only by reaching the cap or by pausing: the state
/// `run_spec` leaves behind is consumed or inactive. The configuration — the
/// long-break interval, the mode, the cap and each clock's lifespan and tick
/// size — comes through unchanged, still fit for another run.
pub proof fn lemma_run_halts_consumed_or_paused(s: Pomodoro)
    requires
        s.base_ok(),
        s.counters_ok(),
    ensures
        s.run_spec().consumed() || !s.run_spec().active(),
        s.run_spec().base_ok(),
        s.run_spec().long_break_interval == s.long_break_interval,
        s.run_spec().continuous == s.continuous,
        s.run_spec().until == s.until,
        s.run_spec().working.lifespan == s.working.lifespan,
        s.run_spec().working.tick_interval == s.working.tick_interval,
        s.run_spec().short_break.lifespan == s.short_break.lifespan,
        s.run_spec().short_break.tick_interval == s.short_break.tick_interval,
        s.run_spec().long_break.lifespan == s.long_break.lifespan,
        s.run_spec().long_break.tick_interval == s.long_break.tick_interval,
    decreases s.active01(), s.work_left(), s.phase_rank(), s.time_left(),
{
    if s.consumed() || !s.active() {
    } else if !s.clock_for(s.current_status).done() {
        lemma_run_halts_consumed_or_paused(
            s.with_clock(s.current_status, ticked_once(s.clock_for(s.current_status))),
        );
    } else {
        lemma_run_halts_consumed_or_paused(s.advanced_spec());
    }
}

/// A machine that is already paused makes no progress at all: the advancing
/// loop halts on it as it stands, counters and clocks untouched.
pub proof fn lemma_paused_machine_halts(s: Pomodoro)
    requires
        s.base_ok(),
        !s.active(),
    ensures
        s.run_spec() == s,
{
}

/// Resuming twice in a row has the same effect as resuming once.
pub proof fn lemma_resume_idempotent(s: Pomodoro)
    ensures
        s.with_paused(false).with_paused(false) == s.with_paused(false),
{
}

/// Pausing an already-paused machine changes nothing: the counters, clocks
/// and phase all keep their values.
pub proof fn lemma_pause_on_paused_is_identity(s: Pomodoro)
    requires
        !s.active(),
    ensures
        s.with_paused(true) == s,
{
}

} // verus!
