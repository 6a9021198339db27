//! A repeating, pausable timer with an adjustable period.
//!
//! All spans are whole nanoseconds. Clock readings are nanoseconds since the
//! timer's origin, the instant at which it was made or last set to a
//! period, so that the accounting is plain integer arithmetic.

use std::time::{Duration, Instant};
use vstd::prelude::*;

verus! {

/// `std::time::Instant`, carried through as an opaque value.
#[verifier::external_type_specification]
#[verifier::external_body]
pub struct ExInstant(std::time::Instant);

/// What an update of the timer reports.
#[derive(Clone, Copy, Debug, PartialEq, Eq, Structural)]
pub enum TimerState {
    /// The current period has not run out yet.
    Ongoing,
    /// A period boundary was crossed by this update.
    Finished,
    /// The timer is paused; no time was accounted.
    Paused,
}

/// The period of a timer for which none is chosen, in nanoseconds: 100 ms.
pub const DEFAULT_UPDATE_RATE: u128 = 100_000_000;

/// The mathematical state of a [`RepeatingTimer`].
pub struct TimerView {
    /// Length of one cycle.
    pub period: nat,
    /// Time remaining in the current cycle.
    pub time_left: nat,
    /// Clock reading taken by the latest update, counted from the origin.
    pub last_checked: nat,
    /// Whether updates currently ignore elapsed time.
    pub paused: bool,
    /// The instant from which clock readings are counted.
    pub origin: Instant,
}

impl TimerView {
    /// A running timer at the start of its first cycle, with readings
    /// counted from `origin`.
    pub open spec fn fresh(period: nat, origin: Instant) -> TimerView {
        TimerView { period, time_left: period, last_checked: 0, paused: false, origin }
    }

    /// The remaining time never exceeds the period.
    pub open spec fn wf(self) -> bool {
        self.time_left <= self.period
    }

    /// Whether `elapsed` reaches the end of the current cycle.
    pub open spec fn crosses_boundary(self, elapsed: nat) -> bool {
        elapsed >= self.time_left
    }

    /// The remaining time after `elapsed` has been accounted.
    ///
    /// Crossing the boundary starts the next cycle shortened by the
    /// overshoot; an overshoot of more than a whole period is dropped and
    /// the next cycle starts in full.
    pub open spec fn time_left_after(self, elapsed: nat) -> nat {
        if self.crosses_boundary(elapsed) {
            let overshoot = elapsed - self.time_left;
            if overshoot > self.period {
                self.period
            } else {
                (self.period - overshoot) as nat
            }
        } else {
            (self.time_left - elapsed) as nat
        }
    }

    /// The state after `elapsed` has been accounted.
    pub open spec fn advance(self, elapsed: nat) -> TimerView {
        TimerView { time_left: self.time_left_after(elapsed), ..self }
    }

    /// What accounting `elapsed` reports.
    pub open spec fn advance_state(self, elapsed: nat) -> TimerState {
        if self.crosses_boundary(elapsed) {
            TimerState::Finished
        } else {
            TimerState::Ongoing
        }
    }

    /// Time between the latest update and the reading `now`; a reading
    /// that lies before the latest update counts as no time at all.
    pub open spec fn elapsed_at(self, now: nat) -> nat {
        if now >= self.last_checked {
            (now - self.last_checked) as nat
        } else {
            0
        }
    }

    /// The state with `now` recorded as the latest reading.
    pub open spec fn observe(self, now: nat) -> TimerView {
        TimerView { last_checked: now, ..self }
    }

    /// The state after an update that reads the clock at `now`.
    pub open spec fn update_at(self, now: nat) -> TimerView {
        if self.paused {
            self.observe(now)
        } else {
            self.observe(now).advance(self.elapsed_at(now))
        }
    }

    /// What an update that reads the clock at `now` reports.
    pub open spec fn update_state_at(self, now: nat) -> TimerState {
        if self.paused {
            TimerState::Paused
        } else {
            self.advance_state(self.elapsed_at(now))
        }
    }

    /// The state after a checked update that reads the clock at `now`:
    /// the reading is recorded, and the time since the latest update is
    /// accounted unless the reading lies before it. Pausing plays no part.
    pub open spec fn checked_update_at(self, now: nat) -> TimerView {
        if now >= self.last_checked {
            self.observe(now).advance((now - self.last_checked) as nat)
        } else {
            self.observe(now)
        }
    }

    /// What a checked update that reads the clock at `now` reports.
    pub open spec fn checked_update_state_at(self, now: nat) -> Option<TimerState> {
        if now >= self.last_checked {
            Some(self.advance_state((now - self.last_checked) as nat))
        } else {
            None
        }
    }

    /// The state with the pause flag flipped.
    pub open spec fn toggle_pause(self) -> TimerView {
        TimerView { paused: !self.paused, ..self }
    }

    /// The state after each span of `spans` has been accounted in turn.
    pub open spec fn advance_all(self, spans: Seq<nat>) -> TimerView
        decreases spans.len(),
    {
        if spans.len() == 0 {
            self
        } else {
            self.advance(spans[0]).advance_all(spans.drop_first())
        }
    }

    /// How many of the spans of `spans`, accounted in turn, report
    /// `Finished`.
    pub open spec fn finishes_in(self, spans: Seq<nat>) -> nat
        decreases spans.len(),
    {
        if spans.len() == 0 {
            0
        } else {
            let first: nat = if self.crosses_boundary(spans[0]) {
                1
            } else {
                0
            };
            first + self.advance(spans[0]).finishes_in(spans.drop_first())
        }
    }
}

impl TimerView {
    /// The state after an update at each reading of `readings` in turn.
    pub open spec fn update_all_at(self, readings: Seq<nat>) -> TimerView
        decreases readings.len(),
    {
        if readings.len() == 0 {
            self
        } else {
            self.update_at(readings[0]).update_all_at(readings.drop_first())
        }
    }

    /// How many of the updates at the readings of `readings`, in turn,
    /// report `Finished`.
    pub open spec fn finishes_at(self, readings: Seq<nat>) -> nat
        decreases readings.len(),
    {
        if readings.len() == 0 {
            0
        } else {
            let first: nat = if self.update_state_at(readings[0]) == TimerState::Finished {
                1
            } else {
                0
            };
            first + self.update_at(readings[0]).finishes_at(readings.drop_first())
        }
    }
}

/// Whether the readings of a clock never go back, neither behind `start`
/// nor behind one another.
pub open spec fn never_go_back(start: nat, readings: Seq<nat>) -> bool
    decreases readings.len(),
{
    readings.len() == 0 || (start <= readings[0] && never_go_back(
        readings[0],
        readings.drop_first(),
    ))
}

/// The sum of `spans`.
pub open spec fn total_span(spans: Seq<nat>) -> nat
    decreases spans.len(),
{
    if spans.len() == 0 {
        0
    } else {
        spans[0] + total_span(spans.drop_first())
    }
}

/// Repeating timer over a monotonic clock.
pub struct RepeatingTimer {
    amount: u128,
    time_left: u128,
    last_checked: u128,
    paused: bool,
    origin: Instant,
}

/// `Instant::now`: reads the monotonic clock. Nothing is claimed of the
/// reading.
#[verifier::external_body]
fn clock_now() -> (now: Instant) {
    Instant::now()
}

/// `Instant::saturating_duration_since`: the time from `earlier` to `later`,
/// zero if `earlier` is the later one. Nothing is claimed of the span.
#[verifier::external_body]
fn span_between(later: &Instant, earlier: &Instant) -> (span: Duration) {
    later.saturating_duration_since(*earlier)
}

/// `Duration::as_nanos`: the span in whole nanoseconds. Nothing is claimed
/// of the number.
#[verifier::external_body]
fn whole_nanos(span: Duration) -> (nanos: u128) {
    span.as_nanos()
}

impl View for RepeatingTimer {
    type V = TimerView;

    closed spec fn view(&self) -> TimerView {
        TimerView {
            period: self.amount as nat,
            time_left: self.time_left as nat,
            last_checked: self.last_checked as nat,
            paused: self.paused,
            origin: self.origin,
        }
    }
}

impl RepeatingTimer {
    #[verifier::type_invariant]
    spec fn inv(&self) -> bool {
        self.time_left <= self.amount
    }

    /// Creates a running timer whose first cycle starts now. The origin
    /// of its readings is the instant that the clock gives.
    pub fn new(amount: u128) -> (timer: Self)
        ensures
            timer@ == TimerView::fresh(amount as nat, timer@.origin),
    {
        Self { amount, time_left: amount, last_checked: 0, paused: false, origin: clock_now() }
    }

    /// Nanoseconds on the monotonic clock since the origin of this timer.
    pub(crate) fn read_clock(&self) -> (now: u128) {
        let now = clock_now();
        let span = span_between(&now, &self.origin);
        whole_nanos(span)
    }

    /// Accounts `elapsed` nanoseconds against the current cycle.
    pub fn update_state(&mut self, elapsed: u128) -> (state: TimerState)
        ensures
            final(self)@ == old(self)@.advance(elapsed as nat),
            state == old(self)@.advance_state(elapsed as nat),
            final(self)@.origin == old(self)@.origin,
            final(self)@.wf(),
            elapsed > 2 * old(self)@.period ==> {
                &&& state == TimerState::Finished
                &&& final(self)@.time_left == final(self)@.period
            },
    {
        proof {
            use_type_invariant(&*self);
        }
        if elapsed >= self.time_left {
            let overshoot: u128 = elapsed - self.time_left;
            self.time_left = if overshoot > self.amount {
                self.amount
            } else {
                self.amount.saturating_sub(overshoot)
            };
            TimerState::Finished
        } else {
            self.time_left = self.time_left - elapsed;
            TimerState::Ongoing
        }
    }

    /// Updates the timer with the clock reading `now`, in nanoseconds since
    /// the timer was created. The reading is recorded even while paused, so
    /// that time spent paused is never accounted later.
    pub fn update_at(&mut self, now: u128) -> (state: TimerState)
        ensures
            final(self)@ == old(self)@.update_at(now as nat),
            state == old(self)@.update_state_at(now as nat),
            final(self)@.origin == old(self)@.origin,
            final(self)@.wf(),
    {
        proof {
            use_type_invariant(&*self);
        }
        let elapsed: u128 = now.saturating_sub(self.last_checked);
        self.last_checked = now;
        if self.paused {
            TimerState::Paused
        } else {
            self.update_state(elapsed)
        }
    }

    /// Updates the timer with the current time, returning whether a period
    /// has passed. What is reported depends on the clock: the outcome is
    /// that of [`update_at`](Self::update_at) for the reading taken.
    pub fn update(&mut self) -> (state: TimerState)
        ensures
            exists|now: nat|
                {
                    &&& final(self)@ == #[trigger] old(self)@.update_at(now)
                    &&& state == old(self)@.update_state_at(now)
                },
            state == TimerState::Paused <==> old(self)@.paused,
            final(self)@.period == old(self)@.period,
            final(self)@.paused == old(self)@.paused,
            final(self)@.origin == old(self)@.origin,
            old(self)@.paused ==> final(self)@.time_left == old(self)@.time_left,
            final(self)@.wf(),
    {
        let now = self.read_clock();
        self.update_at(now)
    }

    /// Like [`update_at`](Self::update_at), but reports `None` and accounts
    /// nothing when `now` lies before the latest reading. The pause flag is
    /// not consulted.
    pub fn checked_update_at(&mut self, now: u128) -> (state: Option<TimerState>)
        ensures
            final(self)@ == old(self)@.checked_update_at(now as nat),
            state == old(self)@.checked_update_state_at(now as nat),
            final(self)@.origin == old(self)@.origin,
            final(self)@.wf(),
    {
        proof {
            use_type_invariant(&*self);
        }
        let elapsed = now.checked_sub(self.last_checked);
        self.last_checked = now;
        match elapsed {
            Some(span) => Some(self.update_state(span)),
            None => None,
        }
    }

    /// Like [`update`](Self::update), but detects a clock that went
    /// backwards: the outcome is that of
    /// [`checked_update_at`](Self::checked_update_at) for the reading taken.
    pub fn checked_update(&mut self) -> (state: Option<TimerState>)
        ensures
            exists|now: nat|
                {
                    &&& final(self)@ == #[trigger] old(self)@.checked_update_at(now)
                    &&& state == old(self)@.checked_update_state_at(now)
                },
            state != Some(TimerState::Paused),
            final(self)@.period == old(self)@.period,
            final(self)@.paused == old(self)@.paused,
            final(self)@.origin == old(self)@.origin,
            final(self)@.wf(),
    {
        let now = self.read_clock();
        self.checked_update_at(now)
    }

    /// Pauses or unpauses the timer, depending on its current state.
    ///
    /// While paused, [`update`](Self::update) reports
    /// [`TimerState::Paused`] and the remaining time stands still.
    pub fn toggle_pause(&mut self)
        ensures
            final(self)@ == old(self)@.toggle_pause(),
            final(self)@.origin == old(self)@.origin,
            final(self)@.last_checked == old(self)@.last_checked,
            final(self)@.wf(),
    {
        proof {
            use_type_invariant(&*self);
        }
        self.paused = !self.paused;
    }

    /// Changes the period. The timer starts over as a new one would: a full
    /// cycle of the new length lies ahead, it runs, and its readings are
    /// counted from the instant of the change.
    pub fn set_period(&mut self, new_period: u128)
        ensures
            final(self)@ == TimerView::fresh(new_period as nat, final(self)@.origin),
            final(self)@.period == new_period,
            final(self)@.time_left == new_period,
    {
        *self = Self::new(new_period);
    }

    /// Returns the length of one cycle in nanoseconds.
    pub fn rate(&self) -> (period: u128)
        ensures
            period == self@.period,
    {
        self.amount
    }

    /// Returns the nanoseconds left in the current cycle.
    pub fn time_left(&self) -> (left: u128)
        ensures
            left == self@.time_left,
            left <= self@.period,
    {
        proof {
            use_type_invariant(self);
        }
        self.time_left
    }

    /// Returns whether the timer is paused.
    pub fn is_paused(&self) -> (paused: bool)
        ensures
            paused == self@.paused,
    {
        self.paused
    }
}

/// A new timer reports its period, and an update that comes before the
/// first cycle has run out reports `Ongoing` and takes exactly the time
/// read off the remaining time. A reading of zero leaves it untouched.
pub proof fn lemma_fresh_timer_waits(period: nat, origin: Instant, now: nat)
    requires
        period > 0,
        now < period,
    ensures
        TimerView::fresh(period, origin).period == period,
        TimerView::fresh(period, origin).update_state_at(now) == TimerState::Ongoing,
        TimerView::fresh(period, origin).update_at(now).time_left == period - now,
        TimerView::fresh(period, origin).update_state_at(0) == TimerState::Ongoing,
        TimerView::fresh(period, origin).update_at(0).time_left == period,
{
}

/// A new timer has its remaining time within the period, and every
/// transition keeps it there.
pub proof fn lemma_transitions_keep_bound(timer: TimerView, span: nat, now: nat, period: nat)
    requires
        timer.wf(),
    ensures
        TimerView::fresh(period, timer.origin).wf(),
        timer.advance(span).wf(),
        timer.update_at(now).wf(),
        timer.checked_update_at(now).wf(),
        timer.toggle_pause().wf(),
{
}

/// A stall of more than two periods finishes one cycle, not several: the
/// update reports `Finished` once and leaves a full period, so that the
/// update after it has nothing to catch up on.
pub proof fn lemma_long_stall_leaves_no_backlog(timer: TimerView, stall: nat, next: nat)
    requires
        timer.wf(),
        stall > 2 * timer.period,
        next < timer.period,
    ensures
        timer.advance_state(stall) == TimerState::Finished,
        timer.advance(stall).time_left == timer.period,
        timer.advance(stall).advance_state(next) == TimerState::Ongoing,
        timer.advance(stall).advance(next).time_left == timer.period - next,
{
}

/// Spans that add up to nothing neither finish a cycle nor change a timer
/// that still has time left.
proof fn lemma_empty_spans_change_nothing(timer: TimerView, spans: Seq<nat>)
    requires
        timer.time_left > 0,
        total_span(spans) == 0,
    ensures
        timer.finishes_in(spans) == 0,
        timer.advance_all(spans) == timer,
    decreases spans.len(),
{
    if spans.len() > 0 {
        lemma_empty_spans_change_nothing(timer, spans.drop_first());
    }
}

/// Spans that add up to exactly the time left in the cycle finish it once,
/// and leave a full period on the timer: nothing drifts, however the time
/// is cut up.
pub proof fn lemma_exact_spans_finish_once(timer: TimerView, spans: Seq<nat>)
    requires
        timer.wf(),
        timer.time_left > 0,
        total_span(spans) == timer.time_left,
    ensures
        timer.finishes_in(spans) == 1,
        timer.advance_all(spans).time_left == timer.period,
        timer.advance_all(spans).period == timer.period,
    decreases spans.len(),
{
    let first = spans[0];
    let rest = spans.drop_first();
    let next = timer.advance(first);
    if first == timer.time_left {
        lemma_empty_spans_change_nothing(next, rest);
    } else {
        lemma_exact_spans_finish_once(next, rest);
    }
}

/// Over one whole cycle, updates whose spans add up to exactly the period
/// report `Finished` exactly once and leave a full period on the timer.
pub proof fn lemma_exact_cycle_finishes_once(timer: TimerView, spans: Seq<nat>)
    requires
        timer.period > 0,
        timer.time_left == timer.period,
        total_span(spans) == timer.period,
    ensures
        timer.finishes_in(spans) == 1,
        timer.advance_all(spans).time_left == timer.period,
{
    lemma_exact_spans_finish_once(timer, spans);
}

/// Readings that never go back lie between where they start and where
/// they end.
proof fn lemma_readings_lie_between(start: nat, readings: Seq<nat>)
    requires
        readings.len() > 0,
        never_go_back(start, readings),
    ensures
        start <= readings[0] <= readings.last(),
    decreases readings.len(),
{
    let rest = readings.drop_first();
    if rest.len() > 0 {
        lemma_readings_lie_between(readings[0], rest);
    }
}

/// Updates at which the clock still reads what it read at the latest
/// update neither finish a cycle nor change a running timer that has
/// time left.
proof fn lemma_standing_clock_changes_nothing(timer: TimerView, readings: Seq<nat>)
    requires
        !timer.paused,
        timer.time_left > 0,
        never_go_back(timer.last_checked, readings),
        readings.len() > 0 ==> readings.last() == timer.last_checked,
    ensures
        timer.finishes_at(readings) == 0,
        timer.update_all_at(readings) == timer,
    decreases readings.len(),
{
    if readings.len() > 0 {
        let rest = readings.drop_first();
        lemma_readings_lie_between(timer.last_checked, readings);
        lemma_standing_clock_changes_nothing(timer, rest);
    }
}

/// Updates of a running timer by a clock that never goes back, the last
/// of them at the very moment at which the time left runs out, report
/// `Finished` exactly once and leave a full period on the timer.
pub proof fn lemma_exact_updates_finish_once(timer: TimerView, readings: Seq<nat>)
    requires
        timer.wf(),
        !timer.paused,
        timer.time_left > 0,
        readings.len() > 0,
        never_go_back(timer.last_checked, readings),
        readings.last() == timer.last_checked + timer.time_left,
    ensures
        timer.finishes_at(readings) == 1,
        timer.update_all_at(readings).time_left == timer.period,
        timer.update_all_at(readings).period == timer.period,
    decreases readings.len(),
{
    let first = readings[0];
    let rest = readings.drop_first();
    let next = timer.update_at(first);
    lemma_readings_lie_between(timer.last_checked, readings);
    if first == timer.last_checked + timer.time_left {
        lemma_standing_clock_changes_nothing(next, rest);
    } else {
        lemma_exact_updates_finish_once(next, rest);
    }
}

/// Over one whole cycle of a running timer, updates by a clock that never
/// goes back whose elapsed times add up to exactly the period, so that the
/// last of them comes one period after the cycle began, report `Finished`
/// exactly once and leave a full period on the timer.
pub proof fn lemma_exact_cycle_of_updates_finishes_once(timer: TimerView, readings: Seq<nat>)
    requires
        !timer.paused,
        timer.period > 0,
        timer.time_left == timer.period,
        readings.len() > 0,
        never_go_back(timer.last_checked, readings),
        readings.last() == timer.last_checked + timer.period,
    ensures
        timer.finishes_at(readings) == 1,
        timer.update_all_at(readings).time_left == timer.period,
{
    lemma_exact_updates_finish_once(timer, readings);
}

/// While paused, an update reports `Paused` whatever the clock reads and
/// leaves the remaining time alone. After unpausing, the next update
/// accounts only the time since that paused update, not the time that went
/// by before it.
pub proof fn lemma_pause_discards_time(timer: TimerView, during: nat, after: nat)
    requires
        !timer.paused,
    ensures
        timer.toggle_pause().update_state_at(during) == TimerState::Paused,
        timer.toggle_pause().update_at(during).time_left == timer.time_left,
        ({
            let resumed = timer.toggle_pause().update_at(during).toggle_pause();
            let since: nat = if after >= during {
                (after - during) as nat
            } else {
                0
            };
            &&& !resumed.paused
            &&& resumed.update_state_at(after) == timer.advance_state(since)
            &&& resumed.update_at(after).time_left == timer.advance(since).time_left
        }),
{
}

} // verus!
