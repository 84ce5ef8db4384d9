use tiempo::alarm::AlarmState;
use tiempo::clock::{Clock, Date, Moment};
use tiempo::printer::TermOp;
use tiempo::timer::{Key, Outcome};

fn moment(day: u32, h: u32, m: u32, s: u32, stamp: i64) -> Moment {
    Moment {
        date: Date { year: 2024, month: 5, day },
        clock: Clock { hour: h, minute: m, second: s },
        stamp,
    }
}

fn texts(ops: &[TermOp]) -> Vec<String> {
    ops.iter()
        .filter_map(|o| match o {
            TermOp::Text(t) => Some(t.clone()),
            _ => None,
        })
        .collect()
}

#[test]
fn alarm_set_line_marks_tomorrow() {
    let now = moment(10, 12, 30, 0, 1000);
    let today = moment(10, 13, 0, 0, 2800);
    let tomorrow = moment(11, 12, 0, 0, 85600);
    assert_eq!(AlarmState::set_line(&now, &today), "12:30:00: Alarm set at 13:00:00");
    assert_eq!(
        AlarmState::set_line(&now, &tomorrow),
        "12:30:00: Alarm set at 12:00:00 (tomorrow)"
    );
}

#[test]
fn alarm_goes_off_when_the_real_clock_reaches_it() {
    let now = moment(10, 12, 0, 0, 1000);
    let stop = moment(10, 12, 0, 3, 1003);
    let mut a = AlarmState::new(&stop, &now);
    assert_eq!(texts(&a.show()), vec!["00:00:03"]);
    assert_eq!(a.tick(1001).outcome, Outcome::Running);
    assert_eq!(texts(&a.show()), vec!["00:00:02"]);
    assert_eq!(a.tick(1002).outcome, Outcome::Running);
    let s = a.tick(1003);
    assert_eq!(s.outcome, Outcome::Completed);
    assert_eq!(texts(&s.ops), vec!["\x0712:00:03: Alarm complete! (total time 00:00:03)"]);
    assert!(a.is_done());
}

#[test]
fn alarm_waits_when_the_simulated_clock_runs_ahead() {
    let now = moment(10, 12, 0, 0, 1000);
    let stop = moment(10, 12, 0, 2, 1002);
    let mut a = AlarmState::new(&stop, &now);
    a.tick(1000);
    let s = a.tick(1000);
    assert_eq!(s.outcome, Outcome::Running);
    assert_eq!(a.left(), 2);
    assert_eq!(a.tick(1001).outcome, Outcome::Running);
    assert_eq!(a.tick(1002).outcome, Outcome::Completed);
}

#[test]
fn alarm_resyncs_every_minute() {
    let now = moment(10, 12, 0, 0, 0);
    let stop = moment(10, 13, 0, 0, 3600);
    let mut a = AlarmState::new(&stop, &now);
    for _ in 0..59 {
        a.tick(0);
    }
    assert_eq!(a.left(), 3600 - 59);
    a.tick(100);
    assert_eq!(a.left(), 3500);
}

#[test]
fn alarm_cancel_reports_time_left() {
    let now = moment(10, 12, 0, 0, 1000);
    let stop = moment(10, 12, 1, 0, 1060);
    let mut a = AlarmState::new(&stop, &now);
    assert_eq!(a.key(Key::Pause).outcome, Outcome::Running);
    let s = a.key(Key::Cancel);
    assert_eq!(s.outcome, Outcome::Cancelled);
    assert_eq!(texts(&s.ops), vec!["\x07Alarm for 12:01:00 cancelled (time left: 00:01:00)"]);
    assert!(s.notice.is_some());
    assert_eq!(a.tick(2000).outcome, Outcome::Stopped);
}
