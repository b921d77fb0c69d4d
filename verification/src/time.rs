//! Time units, delays and a stopwatch.

use vstd::prelude::*;
use std::time::Instant;
use crate::text::{push_decimal, spec_decimal, spec_digit};

verus! {

/// The unit in which the length of a delay is written.
#[derive(Debug, Clone, Copy, PartialEq, Eq, Structural)]
pub enum TimeUnit {
    Nanoseconds,
    Microseconds,
    Milliseconds,
    Seconds,
}

impl TimeUnit {
    /// How many nanoseconds one unit holds.
    pub open spec fn spec_nanos_per_unit(self) -> nat {
        match self {
            TimeUnit::Nanoseconds => 1,
            TimeUnit::Microseconds => 1_000,
            TimeUnit::Milliseconds => 1_000_000,
            TimeUnit::Seconds => 1_000_000_000,
        }
    }

    /// The length in nanoseconds of `v` units, held to what a `u64` can
    /// count.
    pub open spec fn spec_to_nanos(self, v: u64) -> nat {
        if v * self.spec_nanos_per_unit() > u64::MAX {
            u64::MAX as nat
        } else {
            (v * self.spec_nanos_per_unit()) as nat
        }
    }

    /// How many nanoseconds one unit holds.
    pub fn nanos_per_unit(self) -> (n: u64)
        ensures
            n == self.spec_nanos_per_unit(),
    {
        match self {
            TimeUnit::Nanoseconds => 1,
            TimeUnit::Microseconds => 1_000,
            TimeUnit::Milliseconds => 1_000_000,
            TimeUnit::Seconds => 1_000_000_000,
        }
    }

    /// The length in nanoseconds of `v` units. A length that a `u64` cannot
    /// count comes out as `u64::MAX`.
    pub fn to_nanos(self, v: u64) -> (nanos: u64)
        ensures
            nanos == self.spec_to_nanos(v),
    {
        let per_unit: u64 = self.nanos_per_unit();
        let limit: u64 = u64::MAX / per_unit;
        if v > limit {
            assert(v * per_unit > u64::MAX) by (nonlinear_arith)
                requires
                    v >= limit + 1,
                    limit == u64::MAX as int / per_unit as int,
                    per_unit > 0,
            ;
            u64::MAX
        } else {
            assert(v * per_unit <= u64::MAX) by (nonlinear_arith)
                requires
                    v <= limit,
                    limit == u64::MAX as int / per_unit as int,
                    per_unit > 0,
            ;
            v * per_unit
        }
    }

    /// The unit's abbreviation: `ns`, `µs`, `ms` or `s`.
    pub fn suffix(self) -> (text: &'static str)
        ensures
            text@ == self.spec_suffix(),
    {
        match self {
            TimeUnit::Nanoseconds => "ns",
            TimeUnit::Microseconds => "µs",
            TimeUnit::Milliseconds => "ms",
            TimeUnit::Seconds => "s",
        }
    }

    /// The unit's abbreviation.
    pub open spec fn spec_suffix(self) -> Seq<char> {
        match self {
            TimeUnit::Nanoseconds => "ns"@,
            TimeUnit::Microseconds => "µs"@,
            TimeUnit::Milliseconds => "ms"@,
            TimeUnit::Seconds => "s"@,
        }
    }
}

/// What a delay is, the clock left aside: how long it lasts, and whether a
/// wait on it is under way.
pub struct DelayView {
    pub nanos: nat,
    pub started: bool,
}

impl DelayView {
    /// Whether a wait on this delay is over once `elapsed` nanoseconds have
    /// passed since its start. Without a wait under way there is none to be
    /// over.
    pub open spec fn finished_after(self, elapsed: nat) -> bool {
        self.started && elapsed >= self.nanos
    }
}

/// A length of time, and the instant at which a wait of that length began.
#[derive(Debug, Clone, Copy, PartialEq)]
pub struct Delay {
    waiting_instant: Option<Instant>,
    v: u64,
    unit: TimeUnit,
}

impl View for Delay {
    type V = DelayView;

    open spec fn view(&self) -> DelayView {
        DelayView {
            nanos: self.spec_unit().spec_to_nanos(self.spec_value()),
            started: self.started(),
        }
    }
}

impl Delay {
    /// Whether a wait on this delay is under way: started and not ended.
    pub closed spec fn started(&self) -> bool {
        self.waiting_instant is Some
    }

    /// The number that the delay was written with.
    pub closed spec fn spec_value(&self) -> u64 {
        self.v
    }

    /// The unit that the delay was written in.
    pub closed spec fn spec_unit(&self) -> TimeUnit {
        self.unit
    }

    /// The delay of `v` units on which no wait has been started.
    pub closed spec fn idle(v: u64, unit: TimeUnit) -> Delay {
        Delay { waiting_instant: None, v, unit }
    }

    /// `idle` keeps the number and the unit, and has not started.
    pub broadcast proof fn idle_is(v: u64, unit: TimeUnit)
        ensures
            !(#[trigger] Delay::idle(v, unit)).started(),
            Delay::idle(v, unit).spec_value() == v,
            Delay::idle(v, unit).spec_unit() == unit,
    {
    }

    /// The number that the delay was written with.
    #[verifier::when_used_as_spec(spec_value)]
    pub fn value(&self) -> (v: u64)
        ensures
            v == self.spec_value(),
    {
        self.v
    }

    /// The unit that the delay was written in.
    #[verifier::when_used_as_spec(spec_unit)]
    pub fn unit(&self) -> (unit: TimeUnit)
        ensures
            unit == self.spec_unit(),
    {
        self.unit
    }

    /// A delay of whole seconds, not started.
    pub fn new(wait_time_s: u64) -> (delay: Delay)
        ensures
            delay == Delay::idle(wait_time_s, TimeUnit::Seconds),
            delay.spec_value() == wait_time_s,
            delay.spec_unit() == TimeUnit::Seconds,
            !delay.started(),
    {
        Delay { waiting_instant: None, v: wait_time_s, unit: TimeUnit::Seconds }
    }

    /// The length of the delay in nanoseconds, `u64::MAX` at most.
    pub fn as_nanos(&self) -> (nanos: u64)
        ensures
            nanos == self@.nanos,
    {
        self.unit.to_nanos(self.v)
    }

    /// Starts the wait: the clock is read and the reading kept. A wait that
    /// was under way begins anew.
    pub fn start_wait(&mut self)
        ensures
            final(self).started(),
            final(self).spec_value() == old(self).spec_value(),
            final(self).spec_unit() == old(self).spec_unit(),
    {
        self.waiting_instant = Some(Instant::now());
    }

    /// Ends the wait: the reading of the clock is given up, and the delay
    /// is as it was before `start_wait`.
    pub fn end_wait(&mut self)
        ensures
            !final(self).started(),
            final(self).spec_value() == old(self).spec_value(),
            final(self).spec_unit() == old(self).spec_unit(),
    {
        self.waiting_instant = None;
    }

    /// The nanoseconds that have passed since the wait was started, `None`
    /// where none is under way.
    pub fn elapsed(&self) -> (elapsed: Option<u128>)
        ensures
            elapsed is Some <==> self.started(),
    {
        match self.waiting_instant {
            Some(instant) => Some(instant.elapsed().as_nanos()),
            None => None,
        }
    }

    /// Whether the wait is over once `elapsed` nanoseconds have passed
    /// since its start.
    pub fn finished_after(&self, elapsed: u128) -> (done: bool)
        ensures
            done == self@.finished_after(elapsed as nat),
    {
        self.waiting_instant.is_some() && elapsed >= self.as_nanos() as u128
    }

    /// Whether the wait is over by the clock. The answer is that of
    /// `finished_after` for the time that the clock shows: never `true`
    /// before `start_wait`, and `true` for a started delay of length zero.
    pub fn is_finished(&self) -> (done: bool)
        ensures
            exists|elapsed: nat| done == self@.finished_after(elapsed),
    {
        match self.elapsed() {
            Some(elapsed) => self.finished_after(elapsed),
            None => {
                assert(false == self@.finished_after(0));
                false
            },
        }
    }
}

impl From<(u64, TimeUnit)> for Delay {
    fn from(value: (u64, TimeUnit)) -> (delay: Delay) {
        Delay { waiting_instant: None, v: value.0, unit: value.1 }
    }
}

impl vstd::std_specs::convert::FromSpecImpl<(u64, TimeUnit)> for Delay {
    open spec fn obeys_from_spec() -> bool {
        true
    }

    open spec fn from_spec(value: (u64, TimeUnit)) -> Delay {
        Delay::idle(value.0, value.1)
    }
}

/// A stopwatch: it measures the time between `start` and `stop`, which can
/// be read at any time.
#[derive(Debug, Clone, Copy)]
pub enum Stopwatch {
    /// Started at `start_time` and not stopped since.
    Running { start_time: Instant },
    /// Stopped at `paused_since`, after having run for `runtime`
    /// nanoseconds.
    Paused { paused_since: Instant, runtime: u128 },
}

impl Default for Stopwatch {
    /// A stopped stopwatch that has not run.
    fn default() -> (stopwatch: Stopwatch)
        ensures
            stopwatch is Paused,
            stopwatch->runtime == 0,
    {
        Stopwatch::Paused { paused_since: Instant::now(), runtime: 0 }
    }
}

impl Stopwatch {
    /// A stopped stopwatch that has not run.
    pub fn new() -> (stopwatch: Stopwatch)
        ensures
            stopwatch is Paused,
            stopwatch->runtime == 0,
    {
        Stopwatch::Paused { paused_since: Instant::now(), runtime: 0 }
    }

    /// A stopwatch that runs from now.
    pub fn start_new() -> (stopwatch: Stopwatch)
        ensures
            stopwatch is Running,
    {
        Stopwatch::Running { start_time: Instant::now() }
    }

    /// Whether the stopwatch runs.
    pub fn is_running(&self) -> (running: bool)
        ensures
            running == (self is Running),
    {
        match self {
            Stopwatch::Running { .. } => true,
            Stopwatch::Paused { .. } => false,
        }
    }

    /// Whether the stopwatch is stopped.
    pub fn is_stopped(&self) -> (stopped: bool)
        ensures
            stopped == (self is Paused),
    {
        !self.is_running()
    }

    /// Starts the stopwatch anew, from now. What it had measured is lost.
    pub fn start(&mut self)
        ensures
            *final(self) is Running,
    {
        *self = Stopwatch::start_new();
    }

    /// Stops a running stopwatch, which keeps the time it has run by the
    /// clock. A stopped stopwatch stays as it is.
    pub fn stop(&mut self)
        ensures
            *final(self) is Paused,
            *old(self) is Paused ==> *final(self) == *old(self),
    {
        let running_since = match self {
            Stopwatch::Running { start_time } => Some(*start_time),
            Stopwatch::Paused { .. } => None,
        };
        match running_since {
            Some(start_time) => {
                *self = Stopwatch::Paused {
                    paused_since: Instant::now(),
                    runtime: start_time.elapsed().as_nanos(),
                };
            },
            None => {},
        }
    }

    /// The time measured, in nanoseconds: for a stopped stopwatch the time
    /// it ran, for a running one the time since its start by the clock.
    pub fn read(&self) -> (nanos: u128)
        ensures
            *self is Paused ==> nanos == self->runtime,
    {
        match self {
            Stopwatch::Running { start_time } => start_time.elapsed().as_nanos(),
            Stopwatch::Paused { runtime, .. } => *runtime,
        }
    }

    /// The time measured, written as `display_duration` writes it.
    pub fn display(&self) -> (text: String)
        ensures
            exists|nanos: nat| text@ == #[trigger] spec_display_duration(nanos),
            *self is Paused ==> text@ == spec_display_duration(self->runtime as nat),
    {
        display_duration(self.read())
    }
}

impl Delay {
    /// The length of the delay, written as `display_duration` writes it.
    pub fn display(&self) -> (text: String)
        ensures
            text@ == spec_display_duration(self@.nanos),
    {
        display_duration(self.as_nanos() as u128)
    }
}

/// A count of `nanos` nanoseconds in units of `unit` nanoseconds, to two
/// places behind the point, further places cut off.
pub open spec fn spec_two_places(nanos: nat, unit: nat) -> Seq<char> {
    let hundredths = (nanos % unit) * 100 / unit;
    spec_decimal(nanos / unit) + seq!['.', spec_digit(hundredths / 10), spec_digit(hundredths % 10)]
}

/// A length of time as text.
///
/// Below a thousand seconds it is written to two places in the largest
/// unit, of nanoseconds, microseconds, milliseconds and seconds, that keeps
/// the number in front of the point below 1000: `250.00ms`, `1.50s`. From a
/// thousand seconds on it is written in whole minutes and seconds below an
/// hour (`16m 40s`), in whole hours and minutes below a day (`1h 0m`), and
/// in whole days from then on (`2days`).
pub open spec fn spec_display_duration(nanos: nat) -> Seq<char> {
    let secs = nanos / 1_000_000_000;
    if nanos < 1_000 {
        spec_two_places(nanos, 1) + "ns"@
    } else if nanos < 1_000_000 {
        spec_two_places(nanos, 1_000) + "µs"@
    } else if nanos < 1_000_000_000 {
        spec_two_places(nanos, 1_000_000) + "ms"@
    } else if secs < 1_000 {
        spec_two_places(nanos, 1_000_000_000) + "s"@
    } else if secs < 3_600 {
        spec_decimal(secs / 60) + "m "@ + spec_decimal(secs % 60) + "s"@
    } else if secs < 86_400 {
        spec_decimal(secs / 3_600) + "h "@ + spec_decimal((secs % 3_600) / 60) + "m"@
    } else {
        spec_decimal(secs / 86_400) + "days"@
    }
}

/// Writes a count of nanoseconds to two places in the given unit at the end
/// of `out`.
fn push_two_places(out: &mut String, nanos: u128, unit: u128)
    requires
        0 < unit <= 1_000_000_000,
    ensures
        final(out)@ == old(out)@ + spec_two_places(nanos as nat, unit as nat),
{
    let whole: u128 = nanos / unit;
    let rest: u128 = nanos % unit;
    let hundredths: u128 = rest * 100 / unit;
    assert(hundredths < 100) by (nonlinear_arith)
        requires
            hundredths == (rest * 100) as int / unit as int,
            rest < unit,
            unit > 0,
    ;
    proof {
        reveal_strlit(".");
    }
    push_decimal(out, whole);
    out.append(".");
    push_decimal(out, hundredths / 10);
    push_decimal(out, hundredths % 10);
}

/// A length of time, given in nanoseconds, as text: see
/// `spec_display_duration`.
pub fn display_duration(nanos: u128) -> (text: String)
    ensures
        text@ == spec_display_duration(nanos as nat),
{
    let mut text = String::new();
    let secs: u128 = nanos / 1_000_000_000;
    if nanos < 1_000 {
        push_two_places(&mut text, nanos, 1);
        text.append("ns");
    } else if nanos < 1_000_000 {
        push_two_places(&mut text, nanos, 1_000);
        text.append("µs");
    } else if nanos < 1_000_000_000 {
        push_two_places(&mut text, nanos, 1_000_000);
        text.append("ms");
    } else if secs < 1_000 {
        push_two_places(&mut text, nanos, 1_000_000_000);
        text.append("s");
    } else if secs < 3_600 {
        push_decimal(&mut text, secs / 60);
        text.append("m ");
        push_decimal(&mut text, secs % 60);
        text.append("s");
    } else if secs < 86_400 {
        push_decimal(&mut text, secs / 3_600);
        text.append("h ");
        push_decimal(&mut text, (secs % 3_600) / 60);
        text.append("m");
    } else {
        push_decimal(&mut text, secs / 86_400);
        text.append("days");
    }
    text
}

} // verus!
