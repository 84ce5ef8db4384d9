use tiempo::clock::{Clock, Date, Moment};
use tiempo::format::{date, span, time};

#[test]
fn span_pads_fields() {
    assert_eq!(span(0), "00:00:00");
    assert_eq!(span(3), "00:00:03");
    assert_eq!(span(3600 + 5 * 60 + 10), "01:05:10");
    assert_eq!(span(100 * 3600), "100:00:00");
    assert_eq!(span(-65), "-00:01:05");
}

#[test]
fn time_and_date_of_a_reading() {
    let m = Moment {
        date: Date { year: 2024, month: 3, day: 7 },
        clock: Clock { hour: 9, minute: 5, second: 59 },
        stamp: 0,
    };
    assert_eq!(time(&m), "09:05:59");
    assert_eq!(date(&m), "2024-03-07");
    let early = Moment { date: Date { year: 33, month: 12, day: 1 }, ..m };
    assert_eq!(date(&early), "0033-12-01");
    let bce = Moment { date: Date { year: -5, month: 1, day: 1 }, ..m };
    assert_eq!(date(&bce), "-005-01-01");
}
