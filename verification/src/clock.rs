use std::time::{Duration, Instant};
use vstd::prelude::*;

verus! {

#[verifier::external_type_specification]
#[verifier::external_body]
pub struct ExInstant(Instant);

/// The whole number of nanoseconds in a duration, as `Duration::as_nanos` gives it.
pub uninterp spec fn duration_nanos(d: Duration) -> u128;

/// `Instant::now`: the current reading of the monotonic clock. Nothing is stated of it: it
/// rests on the time.
#[verifier::external_body]
fn instant_now() -> Instant {
    Instant::now()
}

/// The time from `earlier` to `later` (zero if `earlier` is the later one), as
/// `Instant - Instant` gives it.
pub uninterp spec fn instant_difference(later: Instant, earlier: Instant) -> Duration;

/// `Instant - Instant`: the time from `earlier` to `later`, zero if `earlier` is the later
/// one. It depends on the two instants alone; what it is for given instants is left to the
/// name `instant_difference`.
#[verifier::external_body]
fn instant_elapsed(later: Instant, earlier: Instant) -> (d: Duration)
    ensures
        d == instant_difference(later, earlier),
{
    later - earlier
}

/// The whole nanoseconds from `earlier` to `later`.
pub open spec fn nanos_between(later: Instant, earlier: Instant) -> u128 {
    duration_nanos(instant_difference(later, earlier))
}

/// `Duration::as_nanos`: the total number of nanoseconds in `d`.
#[verifier::external_body]
fn duration_as_nanos(d: Duration) -> (n: u128)
    ensures
        n == duration_nanos(d),
{
    d.as_nanos()
}

/// A fixed-step clock: time that passes while it runs is gathered in an accumulator, and
/// each step of the target length is taken out of it by `should_update`.
#[derive(Debug)]
pub struct Clock {
    label: &'static str,
    current_time: Instant,
    accumulator: u128,
    target_dt: u128,
    paused: bool,
}

/// What a clock's behaviour depends on: times in nanoseconds, and the last clock reading.
pub struct ClockState {
    /// Time gathered and not yet taken out in steps.
    pub accumulator: u128,
    /// The length of a step.
    pub target_dt: u128,
    /// Whether time passing is ignored.
    pub paused: bool,
    /// The reading from which the next gathering counts.
    pub last_reading: Instant,
}

impl View for Clock {
    type V = ClockState;

    closed spec fn view(&self) -> ClockState {
        ClockState {
            accumulator: self.accumulator,
            target_dt: self.target_dt,
            paused: self.paused,
            last_reading: self.current_time,
        }
    }
}

impl ClockState {
    /// `elapsed` nanoseconds added to the accumulator, which stops at `u128::MAX`.
    pub open spec fn gather(self, elapsed: u128) -> ClockState {
        ClockState {
            accumulator: if self.accumulator + elapsed > u128::MAX {
                u128::MAX
            } else {
                (self.accumulator + elapsed) as u128
            },
            ..self
        }
    }

    /// A tick reading `now`: a running clock gathers the time since its last reading and
    /// keeps `now` as its last reading; a paused clock is left as it is.
    pub open spec fn tick_at(self, now: Instant) -> ClockState {
        if self.paused {
            self
        } else {
            ClockState {
                last_reading: now,
                ..self.gather(nanos_between(now, self.last_reading))
            }
        }
    }

    /// Pausing with the reading `now`: the time since the last reading is gathered and the
    /// clock stops; the last reading stays.
    pub open spec fn pause_at(self, now: Instant) -> ClockState {
        ClockState { paused: true, ..self.gather(nanos_between(now, self.last_reading)) }
    }

    /// Restarting with the reading `now`: the clock runs and counts from `now`, so the time
    /// while it was stopped is not gathered.
    pub open spec fn unpause_at(self, now: Instant) -> ClockState {
        ClockState { paused: false, last_reading: now, ..self }
    }

    /// Whether a step is due: the clock runs and a full step has been gathered.
    pub open spec fn step_due(self) -> bool {
        !self.paused && self.accumulator >= self.target_dt
    }

    /// The state after asking for a step: a due step is taken out of the accumulator.
    pub open spec fn take_step(self) -> ClockState {
        if self.step_due() {
            ClockState { accumulator: (self.accumulator - self.target_dt) as u128, ..self }
        } else {
            self
        }
    }

    /// The state after asking for a step `k` times in a row.
    pub open spec fn take_steps(self, k: nat) -> ClockState
        decreases k,
    {
        if k == 0 {
            self
        } else {
            self.take_step().take_steps((k - 1) as nat)
        }
    }
}

impl Clock {
    /// A running clock that starts now, with an empty accumulator and steps of `target_dt`.
    /// The reading it starts from rests on the time.
    pub fn new(label: &'static str, target_dt: Duration) -> (c: Self)
        ensures
            exists|now: Instant| c@ == #[trigger] ClockState::started_at(target_dt, now),
            c.label() == label,
    {
        Self::new_at(label, target_dt, instant_now())
    }

    /// A running clock that starts from the reading `now`, with an empty accumulator and
    /// steps of `target_dt`.
    pub fn new_at(label: &'static str, target_dt: Duration, now: Instant) -> (c: Self)
        ensures
            c@ == ClockState::started_at(target_dt, now),
            c.label() == label,
    {
        Self {
            label,
            current_time: now,
            accumulator: 0,
            target_dt: duration_as_nanos(target_dt),
            paused: false,
        }
    }

    /// The name that the clock was made with.
    pub closed spec fn label(&self) -> &'static str {
        self.label
    }

    /// The name that the clock was made with.
    pub fn name(&self) -> (label: &'static str)
        ensures
            label == self.label(),
    {
        self.label
    }

    /// Gathers the time since the last reading, if the clock runs: it reads the clock and
    /// then acts as `tick_at` with that reading. A paused clock does not read the clock.
    pub fn tick(&mut self)
        ensures
            old(self)@.paused ==> final(self)@ == old(self)@,
            exists|now: Instant| final(self)@ == #[trigger] old(self)@.tick_at(now),
            final(self).label() == old(self).label(),
    {
        if !self.paused {
            let new_time = instant_now();
            self.tick_at(new_time);
        } else {
            assert(self@ == old(self)@.tick_at(self.current_time));
        }
    }

    /// A tick with the reading `now` (see `ClockState::tick_at`).
    pub fn tick_at(&mut self, now: Instant)
        ensures
            final(self)@ == old(self)@.tick_at(now),
            final(self).label() == old(self).label(),
    {
        if !self.paused {
            let elapsed = duration_as_nanos(instant_elapsed(now, self.current_time));
            self.accumulator = self.accumulator.saturating_add(elapsed);
            self.current_time = now;
        }
    }

    /// Whether a step is due; a due step is taken out of the accumulator. Nothing else
    /// changes.
    pub fn should_update(&mut self) -> (due: bool)
        ensures
            due == old(self)@.step_due(),
            final(self)@ == old(self)@.take_step(),
            final(self).label() == old(self).label(),
    {
        if !self.paused && self.accumulator >= self.target_dt {
            self.accumulator -= self.target_dt;
            true
        } else {
            false
        }
    }

    /// Stops the clock: it reads the clock and then acts as `pause_at` with that reading.
    pub fn pause(&mut self)
        ensures
            exists|now: Instant| final(self)@ == #[trigger] old(self)@.pause_at(now),
            final(self).label() == old(self).label(),
    {
        let now = instant_now();
        self.pause_at(now);
    }

    /// Stops the clock with the reading `now` (see `ClockState::pause_at`).
    pub fn pause_at(&mut self, now: Instant)
        ensures
            final(self)@ == old(self)@.pause_at(now),
            final(self).label() == old(self).label(),
    {
        let elapsed = duration_as_nanos(instant_elapsed(now, self.current_time));
        self.accumulator = self.accumulator.saturating_add(elapsed);
        self.paused = true;
    }

    /// Restarts the clock: it reads the clock and then acts as `unpause_at` with that
    /// reading.
    pub fn unpause(&mut self)
        ensures
            exists|now: Instant| final(self)@ == #[trigger] old(self)@.unpause_at(now),
            final(self).label() == old(self).label(),
    {
        let now = instant_now();
        self.unpause_at(now);
    }

    /// Restarts the clock with the reading `now` (see `ClockState::unpause_at`).
    pub fn unpause_at(&mut self, now: Instant)
        ensures
            final(self)@ == old(self)@.unpause_at(now),
            final(self).label() == old(self).label(),
    {
        self.current_time = now;
        self.paused = false;
    }
}

impl ClockState {
    /// A clock just made: running from the reading `now`, nothing gathered, steps of
    /// `target_dt`.
    pub open spec fn started_at(target_dt: Duration, now: Instant) -> ClockState {
        ClockState {
            accumulator: 0,
            target_dt: duration_nanos(target_dt),
            paused: false,
            last_reading: now,
        }
    }
}

} // verus!
