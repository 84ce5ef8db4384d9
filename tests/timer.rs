use tiempo::clock::{Clock, Span};
use tiempo::printer::TermOp;
use tiempo::timer::{key_of, Key, KeyInput, Outcome, TimerState};

fn noon() -> Clock {
    Clock { hour: 12, minute: 0, second: 7 }
}

fn texts(ops: &[TermOp]) -> Vec<String> {
    ops.iter()
        .filter_map(|o| match o {
            TermOp::Text(t) => Some(t.clone()),
            _ => None,
        })
        .collect()
}

#[test]
fn three_second_timer_end_to_end() {
    let mut t = TimerState::new(Span { secs: 3 });
    assert_eq!(t.start_line(&noon()), "12:00:07: Started timer for 00:00:03");
    let s1 = t.tick(&noon());
    assert_eq!(s1.outcome, Outcome::Running);
    assert_eq!(texts(&s1.ops), vec!["00:00:02"]);
    let s2 = t.tick(&noon());
    assert_eq!(texts(&s2.ops), vec!["00:00:01"]);
    let s3 = t.tick(&noon());
    assert_eq!(s3.outcome, Outcome::Completed);
    let lines = texts(&s3.ops);
    assert_eq!(lines[0], "00:00:00");
    assert_eq!(lines[1], "\x0712:00:07: Completed timer for 00:00:03");
    assert!(lines[1].contains('\x07'));
    assert!(s3.notice.is_some());
    assert!(t.is_cancelled());
    assert_eq!(t.tick(&noon()).outcome, Outcome::Stopped);
}

#[test]
fn completes_within_bound_ticks() {
    for d in [0i64, 1, 2, 7, 60] {
        let mut t = TimerState::new(Span { secs: d });
        let mut n = 0i64;
        loop {
            n += 1;
            if t.tick(&noon()).outcome == Outcome::Completed {
                break;
            }
            assert!(n <= d + 1);
        }
        assert!(n <= d + 1);
        assert_eq!(n, d.max(1));
    }
}

#[test]
fn elapsed_only_falls_on_back() {
    let mut t = TimerState::new(Span { secs: 100 });
    let mut last = t.elapsed();
    for k in [Key::Forward, Key::Pause, Key::Other, Key::Pause, Key::Forward] {
        t.tick(&noon());
        assert!(t.elapsed() >= last);
        last = t.elapsed();
        t.key(k, &noon());
        assert!(t.elapsed() >= last);
        last = t.elapsed();
    }
    t.key(Key::Back, &noon());
    assert_eq!(t.elapsed(), last - 5);
}

#[test]
fn skip_keys_move_the_countdown() {
    let mut t = TimerState::new(Span { secs: 20 });
    let s = t.key(Key::Forward, &noon());
    assert_eq!(texts(&s.ops), vec!["00:00:15"]);
    let s = t.key(Key::Back, &noon());
    assert_eq!(texts(&s.ops), vec!["00:00:20"]);
    let s = t.key(Key::Back, &noon());
    assert_eq!(texts(&s.ops), vec!["00:00:25"]);
}

#[test]
fn paused_ticks_leave_elapsed() {
    let mut t = TimerState::new(Span { secs: 10 });
    t.tick(&noon());
    let s = t.key(Key::Pause, &noon());
    assert_eq!(s.outcome, Outcome::Idle);
    assert_eq!(texts(&s.ops), vec!["00:00:09 PAUSED"]);
    for _ in 0..5 {
        assert_eq!(t.tick(&noon()).outcome, Outcome::Idle);
        assert_eq!(t.elapsed(), 1);
    }
    let s = t.key(Key::Pause, &noon());
    assert_eq!(s.outcome, Outcome::Running);
    assert!(!t.is_paused());
    assert_eq!(t.elapsed(), 1);
    let s = t.tick(&noon());
    assert_eq!(texts(&s.ops), vec!["00:00:08"]);
}

#[test]
fn cancel_then_completing_tick_ends_once() {
    let mut t = TimerState::new(Span { secs: 1 });
    let c = t.key(Key::Cancel, &noon());
    assert_eq!(c.outcome, Outcome::Cancelled);
    assert_eq!(texts(&c.ops), vec!["\x0712:00:07: Timer cancelled (time left: 00:00:01)"]);
    assert!(c.notice.is_some());
    let k = t.tick(&noon());
    assert_eq!(k.outcome, Outcome::Stopped);
    assert!(k.ops.is_empty());
}

#[test]
fn completing_tick_then_cancel_ends_once() {
    let mut t = TimerState::new(Span { secs: 1 });
    assert_eq!(t.tick(&noon()).outcome, Outcome::Completed);
    let c = t.key(Key::Cancel, &noon());
    assert_eq!(c.outcome, Outcome::Stopped);
    assert!(c.ops.is_empty());
    assert!(c.notice.is_none());
}

#[test]
fn keys_map_from_terminal_codes() {
    assert_eq!(key_of(KeyInput::Char('p'), true), Key::Pause);
    assert_eq!(key_of(KeyInput::Char(' '), true), Key::Pause);
    assert_eq!(key_of(KeyInput::Char('q'), true), Key::Cancel);
    assert_eq!(key_of(KeyInput::Esc, true), Key::Cancel);
    assert_eq!(key_of(KeyInput::Right, true), Key::Forward);
    assert_eq!(key_of(KeyInput::Char('a'), true), Key::Forward);
    assert_eq!(key_of(KeyInput::Left, true), Key::Back);
    assert_eq!(key_of(KeyInput::Char('d'), true), Key::Back);
    assert_eq!(key_of(KeyInput::Char('x'), true), Key::Other);
    assert_eq!(key_of(KeyInput::Char('q'), false), Key::Other);
}
