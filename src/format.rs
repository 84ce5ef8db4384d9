//! Rendering of times, dates and spans as text.
use vstd::prelude::*;
use crate::clock::{Clock, Date, Moment};

verus! {

/// The character of a decimal digit.
pub open spec fn digit_char(d: nat) -> char {
    if d == 0 { '0' }
    else if d == 1 { '1' }
    else if d == 2 { '2' }
    else if d == 3 { '3' }
    else if d == 4 { '4' }
    else if d == 5 { '5' }
    else if d == 6 { '6' }
    else if d == 7 { '7' }
    else if d == 8 { '8' }
    else { '9' }
}

/// The decimal digits of `n`, without leading zeros ("0" for zero).
pub open spec fn decimal(n: nat) -> Seq<char>
    decreases n,
{
    if n < 10 {
        seq![digit_char(n)]
    } else {
        decimal(n / 10).push(digit_char(n % 10))
    }
}

/// The decimal digits of `n`, with zeros in front up to `width` characters.
pub open spec fn padded(n: nat, width: nat) -> Seq<char> {
    let d = decimal(n);
    if d.len() >= width {
        d
    } else {
        Seq::new((width - d.len()) as nat, |i: int| '0') + d
    }
}

/// `HH:MM:SS` for a span of seconds; hours take as many digits as they need,
/// and a negative span is written with a leading minus sign.
pub open spec fn span_text(secs: int) -> Seq<char> {
    let a: nat = if secs < 0 { (-secs) as nat } else { secs as nat };
    let body = padded(a / 3600, 2) + seq![':'] + padded((a % 3600) / 60, 2) + seq![':']
        + padded(a % 60, 2);
    if secs < 0 { seq!['-'] + body } else { body }
}

/// `HH:MM:SS` for a time of day.
pub open spec fn clock_text(c: Clock) -> Seq<char> {
    padded(c.hour as nat, 2) + seq![':'] + padded(c.minute as nat, 2) + seq![':'] + padded(
        c.second as nat,
        2,
    )
}

/// A year in at least four digits, the sign counting as one of them.
pub open spec fn year_text(y: int) -> Seq<char> {
    if y < 0 {
        seq!['-'] + padded((-y) as nat, 3)
    } else {
        padded(y as nat, 4)
    }
}

/// `YYYY-MM-DD` for a date.
pub open spec fn date_text(d: Date) -> Seq<char> {
    year_text(d.year as int) + seq!['-'] + padded(d.month as nat, 2) + seq!['-'] + padded(
        d.day as nat,
        2,
    )
}

fn digit_str(d: u64) -> (r: &'static str)
    requires
        d < 10,
    ensures
        r@ == seq![digit_char(d as nat)],
{
    let digits = "0123456789";
    proof {
        reveal_strlit("0123456789");
    }
    let r = digits.substring_char(d as usize, d as usize + 1);
    assert(r@ =~= seq![digit_char(d as nat)]);
    r
}

/// Appends the decimal digits of `n` to `s`.
fn push_decimal(s: &mut String, n: u64)
    ensures
        final(s)@ == old(s)@ + decimal(n as nat),
    decreases n,
{
    if n < 10 {
        s.append(digit_str(n));
    } else {
        push_decimal(s, n / 10);
        s.append(digit_str(n % 10));
        assert(decimal(n as nat) == decimal((n / 10) as nat).push(digit_char((n % 10) as nat)));
        assert(final(s)@ =~= old(s)@ + decimal(n as nat));
    }
}

proof fn lemma_decimal_len(n: nat)
    ensures
        1 <= decimal(n).len(),
        n < 10 ==> decimal(n).len() == 1,
        10 <= n < 100 ==> decimal(n).len() == 2,
        100 <= n < 1000 ==> decimal(n).len() == 3,
        1000 <= n ==> decimal(n).len() >= 4,
    decreases n,
{
    if n >= 10 {
        lemma_decimal_len(n / 10);
    }
}

/// Appends `n` to `s`, zero-padded to `width` digits.
fn push_padded(s: &mut String, n: u64, width: usize)
    requires
        width <= 4,
    ensures
        final(s)@ == old(s)@ + padded(n as nat, width as nat),
{
    proof {
        lemma_decimal_len(n as nat);
    }
    let len: usize = if n < 10 { 1 } else if n < 100 { 2 } else if n < 1000 { 3 } else { 4 };
    assert(len < width ==> len == decimal(n as nat).len());
    let ghost start = s@;
    if len < width {
        let mut k: usize = 0;
        while k < width - len
            invariant
                len < width,
                k <= width - len,
                s@ == start + Seq::new(k as nat, |i: int| '0'),
            decreases width - len - k,
        {
            proof {
                reveal_strlit("0");
            }
            s.append("0");
            k = k + 1;
            assert(s@ =~= start + Seq::new(k as nat, |i: int| '0'));
        }
    }
    push_decimal(s, n);
    assert(s@ =~= start + padded(n as nat, width as nat));
}

fn push_str(s: &mut String, t: &str)
    ensures
        final(s)@ == old(s)@ + t@,
{
    s.append(t);
}

/// Renders a span of seconds as `HH:MM:SS`.
pub fn span(secs: i64) -> (r: String)
    ensures
        r@ == span_text(secs as int),
{
    let neg = secs < 0;
    let a: u64 = if neg { (0i128 - secs as i128) as u64 } else { secs as u64 };
    let mut s = String::new();
    proof {
        reveal_strlit("-");
        reveal_strlit(":");
    }
    if neg {
        push_str(&mut s, "-");
    }
    push_padded(&mut s, a / 3600, 2);
    push_str(&mut s, ":");
    push_padded(&mut s, (a % 3600) / 60, 2);
    push_str(&mut s, ":");
    push_padded(&mut s, a % 60, 2);
    assert(s@ =~= span_text(secs as int));
    s
}

/// Renders a time of day as `HH:MM:SS`.
pub fn clock_string(c: &Clock) -> (r: String)
    ensures
        r@ == clock_text(*c),
{
    let mut s = String::new();
    proof {
        reveal_strlit(":");
    }
    push_padded(&mut s, c.hour as u64, 2);
    push_str(&mut s, ":");
    push_padded(&mut s, c.minute as u64, 2);
    push_str(&mut s, ":");
    push_padded(&mut s, c.second as u64, 2);
    assert(s@ =~= clock_text(*c));
    s
}

/// Renders a date as `YYYY-MM-DD`.
pub fn date_string(d: &Date) -> (r: String)
    ensures
        r@ == date_text(*d),
{
    let mut s = String::new();
    proof {
        reveal_strlit("-");
    }
    if d.year < 0 {
        push_str(&mut s, "-");
        push_padded(&mut s, (0i64 - d.year as i64) as u64, 3);
    } else {
        push_padded(&mut s, d.year as u64, 4);
    }
    push_str(&mut s, "-");
    push_padded(&mut s, d.month as u64, 2);
    push_str(&mut s, "-");
    push_padded(&mut s, d.day as u64, 2);
    assert(s@ =~= date_text(*d));
    s
}

/// The time of day of a clock reading, as `HH:MM:SS`.
pub fn time(t: &Moment) -> (r: String)
    ensures
        r@ == clock_text(t.clock),
{
    clock_string(&t.clock)
}

/// The date of a clock reading, as `YYYY-MM-DD`.
pub fn date(t: &Moment) -> (r: String)
    ensures
        r@ == date_text(t.date),
{
    date_string(&t.date)
}

} // verus!
