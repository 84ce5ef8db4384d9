use tiempo::clock::{Clock, Date, Moment};
use tiempo::parse::{day_for, dur, resolve};

fn secs(s: &str) -> Option<i64> {
    dur(s).map(|d| d.secs)
}

#[test]
fn dur_seconds_only() {
    assert_eq!(secs("10"), Some(10));
}

#[test]
fn dur_minutes_and_seconds() {
    assert_eq!(secs("5:10"), Some(5 * 60 + 10));
}

#[test]
fn dur_hours_minutes_seconds() {
    assert_eq!(secs("1:5:10"), Some(3600 + 5 * 60 + 10));
    assert_eq!(secs("00:00:10"), Some(10));
}

#[test]
fn dur_rejects_empty_and_four_fields() {
    assert_eq!(secs(""), None);
    assert_eq!(secs("1:2:3:4"), None);
}

#[test]
fn dur_rejects_non_numeric() {
    assert_eq!(secs("a"), None);
    assert_eq!(secs("1:x"), None);
    assert_eq!(secs("1::2"), None);
    assert_eq!(secs("-"), None);
    assert_eq!(secs("1.5"), None);
}

#[test]
fn dur_signs_follow_integer_parsing() {
    assert_eq!(secs("+7"), Some(7));
    assert_eq!(secs("-5"), Some(-5));
    assert_eq!(secs("1:-30"), Some(30));
}

#[test]
fn dur_rejects_out_of_range() {
    assert_eq!(secs("99999999999999999999"), None);
    assert_eq!(secs("9223372036854775807"), None);
    assert_eq!(secs("9223372036854775"), Some(9223372036854775));
    assert_eq!(secs("9223372036854776"), None);
}

fn at(h: u32, m: u32, s: u32) -> Moment {
    Moment {
        date: Date { year: 2024, month: 5, day: 10 },
        clock: Clock { hour: h, minute: m, second: s },
        stamp: 1_715_344_200,
    }
}

#[test]
fn time_already_past_is_tomorrow() {
    let r = resolve("12:00:00", &at(12, 30, 0));
    assert_eq!(
        r,
        Some((
            Date { year: 2024, month: 5, day: 11 },
            Clock { hour: 12, minute: 0, second: 0 }
        ))
    );
}

#[test]
fn time_later_today_with_minutes_only() {
    let r = resolve("13:00", &at(12, 30, 0));
    assert_eq!(
        r,
        Some((
            Date { year: 2024, month: 5, day: 10 },
            Clock { hour: 13, minute: 0, second: 0 }
        ))
    );
}

#[test]
fn time_now_exactly_is_today() {
    let r = resolve("12:30:00", &at(12, 30, 0));
    assert_eq!(
        r,
        Some((
            Date { year: 2024, month: 5, day: 10 },
            Clock { hour: 12, minute: 30, second: 0 }
        ))
    );
}

#[test]
fn time_tomorrow_crosses_month_and_year() {
    let now = Moment {
        date: Date { year: 2023, month: 12, day: 31 },
        clock: Clock { hour: 23, minute: 0, second: 0 },
        stamp: 0,
    };
    assert_eq!(
        resolve("07:15", &now),
        Some((
            Date { year: 2024, month: 1, day: 1 },
            Clock { hour: 7, minute: 15, second: 0 }
        ))
    );
    let leap = Moment { date: Date { year: 2024, month: 2, day: 28 }, ..now };
    assert_eq!(resolve("01:00", &leap).map(|r| r.0), Some(Date { year: 2024, month: 2, day: 29 }));
}

#[test]
fn time_rejects_malformed() {
    assert_eq!(resolve("12", &at(12, 30, 0)), None);
    assert_eq!(resolve("1:2:3:4", &at(12, 30, 0)), None);
    assert_eq!(resolve("25:00", &at(12, 30, 0)), None);
    assert_eq!(resolve("12:61", &at(12, 30, 0)), None);
    assert_eq!(resolve("ab:cd", &at(12, 30, 0)), None);
}

#[test]
fn day_for_past_and_future_times() {
    let noon_half = at(12, 30, 0);
    assert_eq!(
        day_for(Clock { hour: 12, minute: 0, second: 0 }, &noon_half).map(|r| r.0),
        Some(Date { year: 2024, month: 5, day: 11 })
    );
    assert_eq!(
        day_for(Clock { hour: 13, minute: 0, second: 0 }, &noon_half).map(|r| r.0),
        Some(Date { year: 2024, month: 5, day: 10 })
    );
}
