//! The countdown timer: its shared state and the decisions of its tick loop
//! and of its key listener.
use vstd::prelude::*;
use crate::clock::{Clock, Span, MAX_SECS};
use crate::format::{clock_string, clock_text, span, span_text};
use crate::printer::{erase_spec, ops_view, print_spec, OpView, Printer, TermOp};

verus! {

/// Seconds that one tick adds to the elapsed time.
pub const STEP: i64 = 1;

/// Seconds that one skip key moves the countdown.
pub const SKIP: i64 = 5;

/// The elapsed time saturates at this many seconds either way.
pub const LIMIT: i64 = 18_446_744_073_709_550;

/// What a key press asks of a running timer.
#[derive(Clone, Copy, Debug, PartialEq, Eq, Structural)]
pub enum Key {
    /// Pause, or resume when paused (`p` or space).
    Pause,
    /// Stop the timer (`q` or escape).
    Cancel,
    /// Five seconds less to go (right arrow or `a`).
    Forward,
    /// Five seconds more to go (left arrow or `d`).
    Back,
    /// Any other key: ignored.
    Other,
}

/// A key as the terminal reports it.
#[derive(Clone, Copy, Debug, PartialEq, Eq, Structural)]
pub enum KeyInput {
    Char(char),
    Esc,
    Left,
    Right,
    Other,
}

pub open spec fn key_spec(code: KeyInput, press: bool) -> Key {
    if !press {
        Key::Other
    } else {
        match code {
            KeyInput::Char(c) => if c == 'p' || c == ' ' {
                Key::Pause
            } else if c == 'q' {
                Key::Cancel
            } else if c == 'a' {
                Key::Forward
            } else if c == 'd' {
                Key::Back
            } else {
                Key::Other
            },
            KeyInput::Esc => Key::Cancel,
            KeyInput::Right => Key::Forward,
            KeyInput::Left => Key::Back,
            KeyInput::Other => Key::Other,
        }
    }
}

/// What a key does; only presses count, not releases or repeats.
pub fn key_of(code: KeyInput, press: bool) -> (r: Key)
    ensures
        r == key_spec(code, press),
{
    if !press {
        return Key::Other;
    }
    match code {
        KeyInput::Char(c) => if c == 'p' || c == ' ' {
            Key::Pause
        } else if c == 'q' {
            Key::Cancel
        } else if c == 'a' {
            Key::Forward
        } else if c == 'd' {
            Key::Back
        } else {
            Key::Other
        },
        KeyInput::Esc => Key::Cancel,
        KeyInput::Right => Key::Forward,
        KeyInput::Left => Key::Back,
        KeyInput::Other => Key::Other,
    }
}

/// How a step of the timer ended.
#[derive(Clone, Copy, Debug, PartialEq, Eq, Structural)]
pub enum Outcome {
    /// The session had already ended: the caller stops.
    Stopped,
    /// Paused: nothing moved.
    Idle,
    /// Still counting down.
    Running,
    /// The countdown reached zero on this step.
    Completed,
    /// The user cancelled on this step.
    Cancelled,
}

impl Outcome {
    pub open spec fn is_end(self) -> bool {
        self == Outcome::Completed || self == Outcome::Cancelled
    }
}

/// A desktop notification to send, best effort.
#[derive(Debug)]
pub struct Notice {
    pub summary: String,
    pub body: String,
}

/// What one step asks of the caller: terminal output, and perhaps a
/// notification.
#[derive(Debug)]
pub struct Step {
    pub outcome: Outcome,
    pub ops: Vec<TermOp>,
    pub notice: Option<Notice>,
}

/// The timer's state as numbers and flags.
pub ghost struct TimerView {
    pub elapsed: int,
    pub target: int,
    pub paused: bool,
    pub cancelled: bool,
}

pub open spec fn view_wf(v: TimerView) -> bool {
    &&& -MAX_SECS <= v.target <= MAX_SECS
    &&& -LIMIT <= v.elapsed <= LIMIT
}

/// `e + k`, held within `LIMIT` either way.
pub open spec fn bump(e: int, k: int) -> int {
    let x = e + k;
    if x > LIMIT {
        LIMIT as int
    } else if x < -LIMIT {
        -LIMIT
    } else {
        x
    }
}

/// The state at the start: nothing elapsed, running.
pub open spec fn start_view(target: int) -> TimerView {
    TimerView { elapsed: 0, target, paused: false, cancelled: false }
}

/// Seconds left to show: never below zero.
pub open spec fn left(v: TimerView) -> int {
    if v.target - v.elapsed < 0 {
        0
    } else {
        v.target - v.elapsed
    }
}

/// The state after one tick.
pub open spec fn tick_next(v: TimerView) -> TimerView {
    if v.cancelled || v.paused {
        v
    } else {
        let e = bump(v.elapsed, STEP as int);
        TimerView { elapsed: e, cancelled: e >= v.target, ..v }
    }
}

pub open spec fn tick_outcome(v: TimerView) -> Outcome {
    if v.cancelled {
        Outcome::Stopped
    } else if v.paused {
        Outcome::Idle
    } else if bump(v.elapsed, STEP as int) >= v.target {
        Outcome::Completed
    } else {
        Outcome::Running
    }
}

/// The state after a key.
pub open spec fn key_next(v: TimerView, k: Key) -> TimerView {
    if v.cancelled {
        v
    } else {
        match k {
            Key::Pause => TimerView { paused: !v.paused, ..v },
            Key::Cancel => TimerView { cancelled: true, ..v },
            Key::Forward => TimerView { elapsed: bump(v.elapsed, SKIP as int), ..v },
            Key::Back => TimerView { elapsed: bump(v.elapsed, -SKIP), ..v },
            Key::Other => v,
        }
    }
}

pub open spec fn key_outcome(v: TimerView, k: Key) -> Outcome {
    if v.cancelled {
        Outcome::Stopped
    } else if k == Key::Cancel {
        Outcome::Cancelled
    } else if key_next(v, k).paused {
        Outcome::Idle
    } else {
        Outcome::Running
    }
}

/// The status line: the time left, marked when paused.
pub open spec fn status_text(v: TimerView) -> Seq<char> {
    if v.paused {
        span_text(left(v)) + " PAUSED"@
    } else {
        span_text(left(v))
    }
}

pub open spec fn started_text(now: Clock, label: Seq<char>) -> Seq<char> {
    clock_text(now) + ": Started timer for "@ + label
}

pub open spec fn completed_text(now: Clock, label: Seq<char>) -> Seq<char> {
    "\x07"@ + clock_text(now) + ": Completed timer for "@ + label
}

pub open spec fn cancelled_text(now: Clock, v: TimerView) -> Seq<char> {
    "\x07"@ + clock_text(now) + ": Timer cancelled (time left: "@ + span_text(left(v)) + ")"@
}

pub open spec fn completed_body(now: Clock, label: Seq<char>) -> Seq<char> {
    clock_text(now) + ": Timer for "@ + label + " complete"@
}

pub open spec fn cancelled_body(v: TimerView, label: Seq<char>) -> Seq<char> {
    "Timer for "@ + label + " cancelled\n (time left: "@ + span_text(left(v)) + ")"@
}

/// Whether a status line is shown after a tick.
pub open spec fn tick_transient(transient: bool, v: TimerView) -> bool {
    match tick_outcome(v) {
        Outcome::Running => true,
        Outcome::Completed => false,
        _ => transient,
    }
}

/// Whether a status line is shown after a key.
pub open spec fn key_transient(transient: bool, v: TimerView, k: Key) -> bool {
    if v.cancelled {
        transient
    } else {
        match k {
            Key::Pause => transient || !v.paused,
            Key::Cancel => false,
            Key::Forward => true,
            Key::Back => true,
            Key::Other => transient,
        }
    }
}

/// The terminal output of a tick.
pub open spec fn tick_ops(transient: bool, v: TimerView, now: Clock, label: Seq<char>) -> Seq<OpView> {
    let n = tick_next(v);
    match tick_outcome(v) {
        Outcome::Running => erase_spec(transient, status_text(n)),
        Outcome::Completed => erase_spec(transient, status_text(n)) + print_spec(
            true,
            completed_text(now, label),
        ),
        _ => Seq::empty(),
    }
}

/// The terminal output of a key.
pub open spec fn key_ops(transient: bool, v: TimerView, k: Key, now: Clock) -> Seq<OpView> {
    let n = key_next(v, k);
    if v.cancelled {
        Seq::empty()
    } else {
        match k {
            Key::Pause => if n.paused {
                erase_spec(transient, status_text(n))
            } else {
                Seq::empty()
            },
            Key::Cancel => print_spec(transient, cancelled_text(now, v)),
            Key::Forward => erase_spec(transient, status_text(n)),
            Key::Back => erase_spec(transient, status_text(n)),
            Key::Other => Seq::empty(),
        }
    }
}

/// The state shared by a timer's tick loop and its key listener.
pub struct TimerState {
    elapsed: i64,
    target: i64,
    paused: bool,
    cancelled: bool,
    printer: Printer,
    label: String,
}

fn bump_exec(e: i64, k: i64) -> (r: i64)
    requires
        -LIMIT <= e <= LIMIT,
        -SKIP <= k <= SKIP,
    ensures
        r == bump(e as int, k as int),
{
    let x = e + k;
    if x > LIMIT {
        LIMIT
    } else if x < -LIMIT {
        -LIMIT
    } else {
        x
    }
}

fn concat(s: &mut String, t: &str)
    ensures
        final(s)@ == old(s)@ + t@,
{
    s.append(t);
}

impl TimerState {
    pub closed spec fn view(&self) -> TimerView {
        TimerView {
            elapsed: self.elapsed as int,
            target: self.target as int,
            paused: self.paused,
            cancelled: self.cancelled,
        }
    }

    /// Whether a status line is shown.
    pub closed spec fn transient(&self) -> bool {
        self.printer.transient
    }

    /// The target, as text.
    pub closed spec fn label(&self) -> Seq<char> {
        self.label@
    }

    pub closed spec fn wf(&self) -> bool {
        view_wf(self.view()) && self.label@ == span_text(self.target as int)
    }

    /// A timer for `duration`, not yet started.
    pub fn new(duration: Span) -> (r: TimerState)
        requires
            duration.wf(),
        ensures
            r.wf(),
            r.view() == start_view(duration.secs as int),
            !r.transient(),
            r.label() == span_text(duration.secs as int),
    {
        TimerState {
            elapsed: 0,
            target: duration.secs,
            paused: false,
            cancelled: false,
            printer: Printer::new(),
            label: span(duration.secs),
        }
    }

    /// Seconds elapsed so far.
    pub fn elapsed(&self) -> (r: i64)
        ensures
            r == self.view().elapsed,
    {
        self.elapsed
    }

    pub fn is_paused(&self) -> (r: bool)
        ensures
            r == self.view().paused,
    {
        self.paused
    }

    /// Whether the session has ended, completed or cancelled.
    pub fn is_cancelled(&self) -> (r: bool)
        ensures
            r == self.view().cancelled,
    {
        self.cancelled
    }

    /// Seconds left to show: never below zero.
    pub fn left(&self) -> (r: i64)
        requires
            self.wf(),
        ensures
            r == left(self.view()),
    {
        let d = self.target - self.elapsed;
        if d < 0 {
            0
        } else {
            d
        }
    }

    fn status(&self) -> (r: String)
        requires
            self.wf(),
        ensures
            r@ == status_text(self.view()),
    {
        let mut s = span(self.left());
        if self.paused {
            concat(&mut s, " PAUSED");
        }
        s
    }

    /// The line that announces the start.
    pub fn start_line(&self, now: &Clock) -> (r: String)
        ensures
            r@ == started_text(*now, self.label()),
    {
        let mut s = clock_string(now);
        concat(&mut s, ": Started timer for ");
        concat(&mut s, self.label.as_str());
        s
    }

    /// One tick of the loop, once its sleep is over: advance the elapsed
    /// time unless paused, show what is left, and end the session when the
    /// countdown reaches zero.
    pub fn tick(&mut self, now: &Clock) -> (r: Step)
        requires
            old(self).wf(),
        ensures
            final(self).wf(),
            final(self).view() == tick_next(old(self).view()),
            final(self).label() == old(self).label(),
            r.outcome == tick_outcome(old(self).view()),
            ops_view(r.ops@) == tick_ops(old(self).transient(), old(self).view(), *now, old(self).label()),
            final(self).transient() == tick_transient(old(self).transient(), old(self).view()),
            r.notice is Some <==> r.outcome == Outcome::Completed,
            r.notice matches Some(n) ==> n.summary@ == "Timer complete"@ && n.body@
                == completed_body(*now, old(self).label()),
    {
        if self.cancelled {
            return Step { outcome: Outcome::Stopped, ops: Vec::new(), notice: None };
        }
        if self.paused {
            return Step { outcome: Outcome::Idle, ops: Vec::new(), notice: None };
        }
        self.elapsed = bump_exec(self.elapsed, STEP);
        let line = self.status();
        let mut ops = self.printer.erase(line);
        let ghost erased = ops@;
        if self.elapsed >= self.target {
            let mut msg = String::new();
            concat(&mut msg, "\x07");
            let t = clock_string(now);
            concat(&mut msg, t.as_str());
            concat(&mut msg, ": Completed timer for ");
            concat(&mut msg, self.label.as_str());
            let mut more = self.printer.print(msg);
            let ghost printed = more@;
            ops.append(&mut more);
            assert(ops_view(ops@) =~= ops_view(erased) + ops_view(printed)) by {
                assert(ops@ =~= erased + printed);
            }
            let mut body = t;
            concat(&mut body, ": Timer for ");
            concat(&mut body, self.label.as_str());
            concat(&mut body, " complete");
            self.cancelled = true;
            Step {
                outcome: Outcome::Completed,
                ops,
                notice: Some(Notice { summary: String::from_str("Timer complete"), body }),
            }
        } else {
            Step { outcome: Outcome::Running, ops, notice: None }
        }
    }

    /// One key from the listener. A key that comes after the session ended
    /// changes nothing.
    pub fn key(&mut self, k: Key, now: &Clock) -> (r: Step)
        requires
            old(self).wf(),
        ensures
            final(self).wf(),
            final(self).view() == key_next(old(self).view(), k),
            final(self).label() == old(self).label(),
            r.outcome == key_outcome(old(self).view(), k),
            ops_view(r.ops@) == key_ops(old(self).transient(), old(self).view(), k, *now),
            final(self).transient() == key_transient(old(self).transient(), old(self).view(), k),
            r.notice is Some <==> r.outcome == Outcome::Cancelled,
            r.notice matches Some(n) ==> n.summary@ == "Timer cancelled"@ && n.body@
                == cancelled_body(old(self).view(), old(self).label()),
    {
        if self.cancelled {
            return Step { outcome: Outcome::Stopped, ops: Vec::new(), notice: None };
        }
        match k {
            Key::Pause => {
                let ops = if !self.paused {
                    self.paused = true;
                    let line = self.status();
                    self.printer.erase(line)
                } else {
                    self.paused = false;
                    Vec::new()
                };
                assert(ops_view(ops@) =~= key_ops(old(self).transient(), old(self).view(), k, *now));
                let outcome = if self.paused { Outcome::Idle } else { Outcome::Running };
                Step { outcome, ops, notice: None }
            },
            Key::Cancel => {
                let t = clock_string(now);
                let left = span(self.left());
                let mut msg = String::new();
                concat(&mut msg, "\x07");
                concat(&mut msg, t.as_str());
                concat(&mut msg, ": Timer cancelled (time left: ");
                concat(&mut msg, left.as_str());
                concat(&mut msg, ")");
                let ops = self.printer.print(msg);
                let mut body = String::new();
                concat(&mut body, "Timer for ");
                concat(&mut body, self.label.as_str());
                concat(&mut body, " cancelled\n (time left: ");
                concat(&mut body, left.as_str());
                concat(&mut body, ")");
                self.cancelled = true;
                Step {
                    outcome: Outcome::Cancelled,
                    ops,
                    notice: Some(Notice { summary: String::from_str("Timer cancelled"), body }),
                }
            },
            Key::Forward | Key::Back => {
                let d: i64 = if k == Key::Forward { SKIP } else { -SKIP };
                self.elapsed = bump_exec(self.elapsed, d);
                let line = self.status();
                let ops = self.printer.erase(line);
                let outcome = if self.paused { Outcome::Idle } else { Outcome::Running };
                Step { outcome, ops, notice: None }
            },
            Key::Other => {
                let outcome = if self.paused { Outcome::Idle } else { Outcome::Running };
                let ops: Vec<TermOp> = Vec::new();
                assert(ops_view(ops@) =~= Seq::<OpView>::empty());
                Step { outcome, ops, notice: None }
            },
        }
    }
}

/// The state after `n` ticks with no key between them.
pub open spec fn run_ticks(v: TimerView, n: nat) -> TimerView
    decreases n,
{
    if n == 0 {
        v
    } else {
        tick_next(run_ticks(v, (n - 1) as nat))
    }
}

/// The tick on which a timer for `d` seconds, never paused or skipped,
/// completes (counting from one).
pub open spec fn completion_tick(d: int) -> int {
    if d < 1 {
        1
    } else {
        d
    }
}

/// Ticks keep the state valid.
pub proof fn ticks_keep_wf(v: TimerView, n: nat)
    requires
        view_wf(v),
    ensures
        view_wf(run_ticks(v, n)),
        run_ticks(v, n).target == v.target,
    decreases n,
{
    if n > 0 {
        ticks_keep_wf(v, (n - 1) as nat);
    }
}

/// Only the back key lowers the elapsed time: a tick, any run of ticks, or
/// any other key leaves it where it was or moves it up.
pub proof fn elapsed_falls_only_by_back(v: TimerView, k: Key, n: nat)
    requires
        view_wf(v),
    ensures
        tick_next(v).elapsed >= v.elapsed,
        run_ticks(v, n).elapsed >= v.elapsed,
        k != Key::Back ==> key_next(v, k).elapsed >= v.elapsed,
    decreases n,
{
    if n > 0 {
        elapsed_falls_only_by_back(v, k, (n - 1) as nat);
        ticks_keep_wf(v, (n - 1) as nat);
    }
}

proof fn early_ticks(d: int, k: nat)
    requires
        -MAX_SECS <= d <= MAX_SECS,
        k < completion_tick(d),
    ensures
        run_ticks(start_view(d), k) == (TimerView {
            elapsed: k as int,
            target: d,
            paused: false,
            cancelled: false,
        }),
    decreases k,
{
    if k > 0 {
        early_ticks(d, (k - 1) as nat);
    }
}

/// A timer for `d` seconds that is never paused nor skipped shows the time
/// left on each tick before the last and completes on tick
/// `completion_tick(d)`, which is at most `d + 1` (one tick for `d <= 0`).
pub proof fn timer_completes_on_time(d: int)
    requires
        -MAX_SECS <= d <= MAX_SECS,
    ensures
        forall|k: nat|
            k < completion_tick(d) - 1 ==> #[trigger] tick_outcome(run_ticks(start_view(d), k))
                == Outcome::Running,
        tick_outcome(run_ticks(start_view(d), (completion_tick(d) - 1) as nat))
            == Outcome::Completed,
        run_ticks(start_view(d), completion_tick(d) as nat).cancelled,
        completion_tick(d) <= (if d < 0 { 0 } else { d }) + 1,
{
    assert forall|k: nat| k < completion_tick(d) - 1 implies #[trigger] tick_outcome(
        run_ticks(start_view(d), k),
    ) == Outcome::Running by {
        early_ticks(d, k);
    }
    early_ticks(d, (completion_tick(d) - 1) as nat);
}

/// While paused, ticks change nothing.
pub proof fn paused_ticks_change_nothing(v: TimerView, n: nat)
    requires
        v.paused,
    ensures
        run_ticks(v, n) == v,
    decreases n,
{
    if n > 0 {
        paused_ticks_change_nothing(v, (n - 1) as nat);
    }
}

/// Pausing, letting any number of ticks pass, and resuming gives back the
/// running state as it was: the pause does not count as elapsed time.
pub proof fn pause_and_resume_restores(v: TimerView, n: nat)
    requires
        !v.cancelled,
        !v.paused,
    ensures
        key_next(key_next(v, Key::Pause), Key::Pause) == v,
        key_next(run_ticks(key_next(v, Key::Pause), n), Key::Pause) == v,
{
    paused_ticks_change_nothing(key_next(v, Key::Pause), n);
}

/// The session ends at most once: a step reports an end exactly when it sets
/// the cancelled flag, and nothing clears that flag.
pub proof fn end_is_reported_once(v: TimerView, k: Key)
    ensures
        tick_outcome(v).is_end() <==> (!v.cancelled && tick_next(v).cancelled),
        key_outcome(v, k).is_end() <==> (!v.cancelled && key_next(v, k).cancelled),
        v.cancelled ==> tick_next(v).cancelled && key_next(v, k).cancelled,
        v.cancelled ==> tick_outcome(v) == Outcome::Stopped && key_outcome(v, k) == Outcome::Stopped,
{
}

/// When a cancel key and the tick that completes the countdown meet, either
/// order gives exactly one end, and after both the session is over, so both
/// loops stop.
pub proof fn cancel_meets_completion(v: TimerView)
    requires
        tick_outcome(v) == Outcome::Completed,
    ensures
        tick_outcome(v).is_end() && key_outcome(tick_next(v), Key::Cancel) == Outcome::Stopped,
        key_outcome(v, Key::Cancel).is_end() && tick_outcome(key_next(v, Key::Cancel))
            == Outcome::Stopped,
        key_next(tick_next(v), Key::Cancel).cancelled,
        tick_next(key_next(v, Key::Cancel)).cancelled,
{
}

} // verus!
