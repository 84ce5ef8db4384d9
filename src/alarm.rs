//! The alarm: a countdown to an instant of the wall clock, kept on a
//! simulated clock that is set from the real one every minute.
use vstd::prelude::*;
use crate::clock::{Clock, Date, Moment};
use crate::format::{clock_string, clock_text, span, span_text};
use crate::printer::{erase_spec, ops_view, print_spec, OpView, Printer, TermOp};
use crate::timer::{Key, Notice, Outcome, Step};

verus! {

/// Ticks between two readings of the real clock.
pub const RESYNC_TICKS: i64 = 60;

/// The alarm's state as numbers and flags; instants are Unix seconds.
pub ghost struct AlarmView {
    /// The simulated clock.
    pub now: int,
    /// Ticks since the simulated clock was last set from the real one.
    pub since_sync: int,
    pub stop: int,
    pub start: int,
    pub done: bool,
}

pub open spec fn clamp64(x: int) -> int {
    if x > i64::MAX {
        i64::MAX as int
    } else if x < i64::MIN {
        i64::MIN as int
    } else {
        x
    }
}

/// Seconds left to show: never below zero.
pub open spec fn alarm_left(v: AlarmView) -> int {
    if v.stop - v.now < 0 {
        0
    } else {
        clamp64(v.stop - v.now)
    }
}

/// The simulated clock after one tick and, when due, a reading of the real
/// clock (`wall`): every `RESYNC_TICKS` ticks, and again whenever the
/// simulated clock reaches the alarm, so that it never goes off early.
pub open spec fn alarm_tick(v: AlarmView, wall: int) -> AlarmView {
    if v.done {
        v
    } else {
        let n1 = if v.now < i64::MAX { v.now + 1 } else { v.now };
        let s1 = v.since_sync + 1;
        let n2 = if s1 >= RESYNC_TICKS { wall } else { n1 };
        let s2 = if s1 >= RESYNC_TICKS { 0 } else { s1 };
        if n2 >= v.stop {
            AlarmView { now: wall, since_sync: 0, done: wall >= v.stop, ..v }
        } else {
            AlarmView { now: n2, since_sync: s2, ..v }
        }
    }
}

pub open spec fn alarm_tick_outcome(v: AlarmView, wall: int) -> Outcome {
    if v.done {
        Outcome::Stopped
    } else if alarm_tick(v, wall).done {
        Outcome::Completed
    } else {
        Outcome::Running
    }
}

pub open spec fn complete_body(v: AlarmView, stop_label: Seq<char>) -> Seq<char> {
    stop_label + ": Alarm complete! (total time "@ + span_text(clamp64(v.stop - v.start)) + ")"@
}

pub open spec fn complete_text(v: AlarmView, stop_label: Seq<char>) -> Seq<char> {
    "\x07"@ + complete_body(v, stop_label)
}

pub open spec fn alarm_cancelled_body(v: AlarmView, stop_label: Seq<char>) -> Seq<char> {
    "Alarm for "@ + stop_label + " cancelled\nTime left: "@ + span_text(alarm_left(v))
}

pub open spec fn alarm_cancelled_text(v: AlarmView, stop_label: Seq<char>) -> Seq<char> {
    "\x07Alarm for "@ + stop_label + " cancelled (time left: "@ + span_text(alarm_left(v)) + ")"@
}

/// Whether date `a` comes before date `b`.
pub open spec fn date_before(a: Date, b: Date) -> bool {
    a.year < b.year || (a.year == b.year && (a.month < b.month || (a.month == b.month && a.day
        < b.day)))
}

pub open spec fn set_text(now: Moment, stop: Moment) -> Seq<char> {
    clock_text(now.clock) + ": Alarm set at "@ + clock_text(stop.clock) + if date_before(
        now.date,
        stop.date,
    ) {
        " (tomorrow)"@
    } else {
        Seq::empty()
    }
}

/// The state of a running alarm.
pub struct AlarmState {
    now: i64,
    since_sync: i64,
    stop: i64,
    start: i64,
    done: bool,
    printer: Printer,
    stop_label: String,
}

fn concat(s: &mut String, t: &str)
    ensures
        final(s)@ == old(s)@ + t@,
{
    s.append(t);
}

fn gap(a: i64, b: i64) -> (r: i64)
    ensures
        r == clamp64(a - b),
{
    let d = a as i128 - b as i128;
    if d > i64::MAX as i128 {
        i64::MAX
    } else if d < i64::MIN as i128 {
        i64::MIN
    } else {
        d as i64
    }
}

impl AlarmState {
    pub closed spec fn view(&self) -> AlarmView {
        AlarmView {
            now: self.now as int,
            since_sync: self.since_sync as int,
            stop: self.stop as int,
            start: self.start as int,
            done: self.done,
        }
    }

    pub closed spec fn transient(&self) -> bool {
        self.printer.transient
    }

    /// The alarm's time of day, as text.
    pub closed spec fn stop_label(&self) -> Seq<char> {
        self.stop_label@
    }

    pub closed spec fn wf(&self) -> bool {
        0 <= self.since_sync < RESYNC_TICKS
    }

    /// An alarm for `stop`, set at the reading `now`.
    pub fn new(stop: &Moment, now: &Moment) -> (r: AlarmState)
        ensures
            r.wf(),
            r.view() == (AlarmView {
                now: now.stamp as int,
                since_sync: 0,
                stop: stop.stamp as int,
                start: now.stamp as int,
                done: false,
            }),
            r.stop_label() == clock_text(stop.clock),
            !r.transient(),
    {
        AlarmState {
            now: now.stamp,
            since_sync: 0,
            stop: stop.stamp,
            start: now.stamp,
            done: false,
            printer: Printer::new(),
            stop_label: clock_string(&stop.clock),
        }
    }

    /// Whether the alarm went off or was cancelled.
    pub fn is_done(&self) -> (r: bool)
        ensures
            r == self.view().done,
    {
        self.done
    }

    /// Seconds left to show: never below zero.
    pub fn left(&self) -> (r: i64)
        ensures
            r == alarm_left(self.view()),
    {
        let d = gap(self.stop, self.now);
        if d < 0 {
            0
        } else {
            d
        }
    }

    /// The line that announces the alarm, with a mark when it is for tomorrow.
    pub fn set_line(now: &Moment, stop: &Moment) -> (r: String)
        ensures
            r@ == set_text(*now, *stop),
    {
        let mut s = clock_string(&now.clock);
        concat(&mut s, ": Alarm set at ");
        let t = clock_string(&stop.clock);
        concat(&mut s, t.as_str());
        let a = now.date;
        let b = stop.date;
        if a.year < b.year || (a.year == b.year && (a.month < b.month || (a.month == b.month
            && a.day < b.day))) {
            concat(&mut s, " (tomorrow)");
        } else {
            assert(s@ =~= s@ + Seq::<char>::empty());
        }
        s
    }

    /// The status line before the loop sleeps: the time left.
    pub fn show(&mut self) -> (r: Vec<TermOp>)
        requires
            old(self).wf(),
        ensures
            final(self).wf(),
            final(self).view() == old(self).view(),
            final(self).stop_label() == old(self).stop_label(),
            final(self).transient(),
            ops_view(r@) == erase_spec(old(self).transient(), span_text(alarm_left(old(self).view()))),
    {
        let line = span(self.left());
        self.printer.erase(line)
    }

    /// One tick, once the loop's sleep is over; `wall` is the real clock
    /// read just now, used only when the simulated clock is due to be set.
    pub fn tick(&mut self, wall: i64) -> (r: Step)
        requires
            old(self).wf(),
        ensures
            final(self).wf(),
            final(self).view() == alarm_tick(old(self).view(), wall as int),
            final(self).stop_label() == old(self).stop_label(),
            r.outcome == alarm_tick_outcome(old(self).view(), wall as int),
            ops_view(r.ops@) == (if r.outcome == Outcome::Completed {
                print_spec(old(self).transient(), complete_text(old(self).view(), old(self).stop_label()))
            } else {
                Seq::<OpView>::empty()
            }),
            r.notice is Some <==> r.outcome == Outcome::Completed,
            r.notice matches Some(n) ==> n.summary@ == "Alarm complete"@ && n.body@
                == complete_body(old(self).view(), old(self).stop_label()),
    {
        if self.done {
            let ops: Vec<TermOp> = Vec::new();
            assert(ops_view(ops@) =~= Seq::<OpView>::empty());
            return Step { outcome: Outcome::Stopped, ops, notice: None };
        }
        if self.now < i64::MAX {
            self.now = self.now + 1;
        }
        self.since_sync = self.since_sync + 1;
        if self.since_sync >= RESYNC_TICKS {
            self.since_sync = 0;
            self.now = wall;
        }
        if self.now >= self.stop {
            self.since_sync = 0;
            self.now = wall;
            if self.now >= self.stop {
                self.done = true;
                let total = span(gap(self.stop, self.start));
                let mut body = String::new();
                concat(&mut body, self.stop_label.as_str());
                concat(&mut body, ": Alarm complete! (total time ");
                concat(&mut body, total.as_str());
                concat(&mut body, ")");
                let mut msg = String::new();
                concat(&mut msg, "\x07");
                concat(&mut msg, body.as_str());
                let ops = self.printer.print(msg);
                return Step {
                    outcome: Outcome::Completed,
                    ops,
                    notice: Some(Notice { summary: String::from_str("Alarm complete"), body }),
                };
            }
        }
        let ops: Vec<TermOp> = Vec::new();
        assert(ops_view(ops@) =~= Seq::<OpView>::empty());
        Step { outcome: Outcome::Running, ops, notice: None }
    }

    /// A key polled between ticks: only cancel does anything.
    pub fn key(&mut self, k: Key) -> (r: Step)
        requires
            old(self).wf(),
        ensures
            final(self).wf(),
            final(self).view() == (if !old(self).view().done && k == Key::Cancel {
                AlarmView { done: true, ..old(self).view() }
            } else {
                old(self).view()
            }),
            final(self).stop_label() == old(self).stop_label(),
            r.outcome == (if old(self).view().done {
                Outcome::Stopped
            } else if k == Key::Cancel {
                Outcome::Cancelled
            } else {
                Outcome::Running
            }),
            ops_view(r.ops@) == (if r.outcome == Outcome::Cancelled {
                print_spec(old(self).transient(), alarm_cancelled_text(old(self).view(), old(self).stop_label()))
            } else {
                Seq::<OpView>::empty()
            }),
            r.notice is Some <==> r.outcome == Outcome::Cancelled,
            r.notice matches Some(n) ==> n.summary@ == "Alarm cancelled"@ && n.body@
                == alarm_cancelled_body(old(self).view(), old(self).stop_label()),
    {
        if self.done || k != Key::Cancel {
            let outcome = if self.done { Outcome::Stopped } else { Outcome::Running };
            let ops: Vec<TermOp> = Vec::new();
            assert(ops_view(ops@) =~= Seq::<OpView>::empty());
            return Step { outcome, ops, notice: None };
        }
        let left = span(self.left());
        let mut msg = String::new();
        concat(&mut msg, "\x07Alarm for ");
        concat(&mut msg, self.stop_label.as_str());
        concat(&mut msg, " cancelled (time left: ");
        concat(&mut msg, left.as_str());
        concat(&mut msg, ")");
        let mut body = String::new();
        concat(&mut body, "Alarm for ");
        concat(&mut body, self.stop_label.as_str());
        concat(&mut body, " cancelled\nTime left: ");
        concat(&mut body, left.as_str());
        let ops = self.printer.print(msg);
        self.done = true;
        Step {
            outcome: Outcome::Cancelled,
            ops,
            notice: Some(Notice { summary: String::from_str("Alarm cancelled"), body }),
        }
    }
}

/// The alarm never goes off before the real clock reaches it, however far
/// the simulated clock has drifted; and a tick never leaves the simulated
/// clock unset from the real one for `RESYNC_TICKS` ticks.
pub proof fn alarm_never_early(v: AlarmView, wall: int)
    requires
        0 <= v.since_sync < RESYNC_TICKS,
    ensures
        alarm_tick_outcome(v, wall) == Outcome::Completed ==> wall >= v.stop,
        !v.done ==> 0 <= alarm_tick(v, wall).since_sync < RESYNC_TICKS,
        !v.done && wall >= v.stop && ((v.now < i64::MAX && v.now + 1 >= v.stop) || v.since_sync + 1 == RESYNC_TICKS)
            ==> alarm_tick_outcome(v, wall) == Outcome::Completed,
{
}

} // verus!
