//! Reading durations and times of day typed by the user.
use vstd::prelude::*;
use crate::clock::{
    day_after, hms_of, local_instant, local_now, next_day, parse_hms, Clock, Date, Moment, Span,
    MAX_SECS,
};

verus! {

/// The fields of `s` between colons, left to right (one empty field for "").
pub open spec fn split_fields(s: Seq<char>) -> Seq<Seq<char>>
    decreases s.len(),
{
    if s.len() == 0 {
        seq![Seq::empty()]
    } else {
        let f = split_fields(s.drop_last());
        if s.last() == ':' {
            f.push(Seq::empty())
        } else {
            f.update(f.len() - 1, f.last().push(s.last()))
        }
    }
}

pub open spec fn is_digit(c: char) -> bool {
    '0' <= c && c <= '9'
}

pub open spec fn all_digits(s: Seq<char>) -> bool {
    forall|i: int| 0 <= i < s.len() ==> is_digit(#[trigger] s[i])
}

pub open spec fn digit_value(c: char) -> int {
    (c as u32) as int - ('0' as u32) as int
}

/// The number that a string of decimal digits denotes.
pub open spec fn digits_value(s: Seq<char>) -> int
    decreases s.len(),
{
    if s.len() == 0 {
        0
    } else {
        digits_value(s.drop_last()) * 10 + digit_value(s.last())
    }
}

/// The integer that `s` writes: an optional `+` or `-`, then one or more digits.
pub open spec fn int_text(s: Seq<char>) -> Option<int> {
    if s.len() > 0 && (s[0] == '-' || s[0] == '+') {
        let d = s.subrange(1, s.len() as int);
        if d.len() > 0 && all_digits(d) {
            Some(if s[0] == '-' { -digits_value(d) } else { digits_value(d) })
        } else {
            None
        }
    } else if s.len() > 0 && all_digits(s) {
        Some(digits_value(s))
    } else {
        None
    }
}

/// What `s` reads as, as an `i64`: `None` if it writes no integer or one out of range.
pub open spec fn i64_text(s: Seq<char>) -> Option<int> {
    match int_text(s) {
        Some(v) => if i64::MIN <= v <= i64::MAX { Some(v) } else { None },
        None => None,
    }
}

/// Seconds written as `S`, `M:S` or `H:M:S`, if every field is an `i64`.
pub open spec fn fields_secs(f: Seq<Seq<char>>) -> Option<int> {
    if f.len() < 1 || f.len() > 3 {
        None
    } else if exists|j: int| 0 <= j < f.len() && (#[trigger] i64_text(f[j])) is None {
        None
    } else if f.len() == 1 {
        Some(i64_text(f[0])->0)
    } else if f.len() == 2 {
        Some(i64_text(f[0])->0 * 60 + i64_text(f[1])->0)
    } else {
        Some(i64_text(f[0])->0 * 3600 + i64_text(f[1])->0 * 60 + i64_text(f[2])->0)
    }
}

/// The span that a duration string denotes: `None` if it is malformed or
/// holds more seconds than a span can.
pub open spec fn dur_spec(s: Seq<char>) -> Option<int> {
    match fields_secs(split_fields(s)) {
        Some(v) => if -MAX_SECS <= v <= MAX_SECS { Some(v) } else { None },
        None => None,
    }
}

proof fn lemma_split_nonempty(s: Seq<char>)
    ensures
        split_fields(s).len() >= 1,
    decreases s.len(),
{
    if s.len() > 0 {
        lemma_split_nonempty(s.drop_last());
    }
}

fn chars_of(s: &str) -> (r: Vec<char>)
    ensures
        r@ == s@,
{
    let n = s.unicode_len();
    let mut r: Vec<char> = Vec::new();
    let mut i: usize = 0;
    while i < n
        invariant
            n == s@.len(),
            i <= n,
            r@ == s@.take(i as int),
        decreases n - i,
    {
        r.push(s.get_char(i));
        i = i + 1;
        assert(r@ =~= s@.take(i as int));
    }
    assert(r@ =~= s@);
    r
}

/// Reads `c[lo..hi]` as an `i64`, as std's `i64::from_str` does.
fn parse_i64(c: &Vec<char>, lo: usize, hi: usize) -> (r: Option<i64>)
    requires
        lo <= hi <= c@.len(),
    ensures
        r matches Some(v) ==> i64_text(c@.subrange(lo as int, hi as int)) == Some(v as int),
        r is None ==> i64_text(c@.subrange(lo as int, hi as int)) is None,
{
    let ghost s = c@.subrange(lo as int, hi as int);
    if lo == hi {
        return None;
    }
    let neg = c[lo] == '-';
    let start: usize = if c[lo] == '-' || c[lo] == '+' { lo + 1 } else { lo };
    assert(s[0] == c@[lo as int]);
    if start == hi {
        assert(s.len() == 1);
        assert(s[0] == '-' || s[0] == '+');
        assert(s.subrange(1, s.len() as int).len() == 0);
        assert(int_text(s) is None);
        return None;
    }
    let ghost d = c@.subrange(start as int, hi as int);
    assert(start > lo ==> d =~= s.subrange(1, s.len() as int));
    assert(start == lo ==> d =~= s);
    let mut acc: u64 = 0;
    let mut over = false;
    let mut j: usize = start;
    while j < hi
        invariant
            lo <= start < hi <= c@.len(),
            start <= j <= hi,
            d == c@.subrange(start as int, hi as int),
            s == c@.subrange(lo as int, hi as int),
            s.len() > 0,
            start > lo ==> d == s.subrange(1, s.len() as int) && (s[0] == '-' || s[0] == '+'),
            start == lo ==> d == s && !(s[0] == '-' || s[0] == '+'),
            neg == (s[0] == '-'),
            all_digits(c@.subrange(start as int, j as int)),
            !over ==> acc as int == digits_value(c@.subrange(start as int, j as int)),
            over ==> digits_value(c@.subrange(start as int, j as int)) > u64::MAX,
        decreases hi - j,
    {
        let ch = c[j];
        if !('0' <= ch && ch <= '9') {
            assert(!all_digits(d)) by {
                assert(d[j - start] == ch);
            }
            return None;
        }
        let ghost prev = c@.subrange(start as int, j as int);
        let ghost next = c@.subrange(start as int, j as int + 1);
        assert(next.drop_last() =~= prev);
        assert(next.last() == ch);
        let dv: u64 = (ch as u32 - '0' as u32) as u64;
        assert(dv as int == digit_value(ch));
        if !over {
            if acc <= (u64::MAX - dv) / 10 {
                assert(acc * 10 + dv <= u64::MAX) by (nonlinear_arith)
                    requires
                        acc <= (u64::MAX - dv) / 10,
                        dv <= 9,
                ;
                acc = acc * 10 + dv;
            } else {
                over = true;
            }
        }
        j = j + 1;
        assert(all_digits(c@.subrange(start as int, j as int))) by {
            assert forall|i: int| 0 <= i < next.len() implies is_digit(#[trigger] next[i]) by {
                if i < prev.len() {
                    assert(next[i] == prev[i]);
                }
            }
        }
    }
    assert(c@.subrange(start as int, j as int) =~= d);
    if over {
        return None;
    }
    let m = acc as i128;
    let v: i128 = if neg { 0 - m } else { m };
    if v < i64::MIN as i128 || v > i64::MAX as i128 {
        None
    } else {
        Some(v as i64)
    }
}

/// Reads a duration written as `S`, `M:S` or `H:M:S`, each field an
/// integer; `None` for any other count of fields, a field that is no
/// integer, or a total beyond what a span holds.
pub fn dur(t: &str) -> (r: Option<Span>)
    ensures
        r matches Some(sp) ==> dur_spec(t@) == Some(sp.secs as int) && sp.wf(),
        r is None ==> dur_spec(t@) is None,
{
    let c = chars_of(t);
    let n = c.len();
    let mut vals: Vec<i64> = Vec::new();
    let mut many = false;
    let mut ok = true;
    let mut start: usize = 0;
    let mut i: usize = 0;
    let ghost mut fields: Seq<Seq<char>> = Seq::empty();
    assert(c@.take(0) =~= Seq::<char>::empty());
    assert(split_fields(Seq::<char>::empty()) == seq![Seq::<char>::empty()]);
    assert(split_fields(c@.take(0)) =~= fields.push(c@.subrange(0, 0)));
    while i < n
        invariant
            n == c@.len(),
            c@ == t@,
            start <= i <= n,
            split_fields(c@.take(i as int)) == fields.push(c@.subrange(start as int, i as int)),
            many == (fields.len() >= 3),
            vals@.len() == if fields.len() < 3 { fields.len() as int } else { 3int },
            ok == forall|j: int| 0 <= j < fields.len() ==> (#[trigger] i64_text(fields[j])) is Some,
            forall|j: int|
                0 <= j < vals@.len() ==> (#[trigger] i64_text(fields[j]) matches Some(v) ==> v
                    == vals@[j] as int),
        decreases n - i,
    {
        let ghost t1 = c@.take(i as int + 1);
        assert(t1.drop_last() =~= c@.take(i as int));
        if c[i] == ':' {
            let v = parse_i64(&c, start, i);
            let ghost field = c@.subrange(start as int, i as int);
            assert(c@.subrange(i as int + 1, i as int + 1) =~= Seq::<char>::empty());
            let ghost old_fields = fields;
            proof {
                fields = fields.push(field);
            }
            assert(split_fields(t1) == fields.push(c@.subrange(i as int + 1, i as int + 1)));
            if vals.len() >= 2 {
                many = true;
            }
            match v {
                Some(x) => {
                    if vals.len() < 3 {
                        vals.push(x);
                    }
                },
                None => {
                    if vals.len() < 3 {
                        vals.push(0);
                    }
                    ok = false;
                },
            }
            assert(fields[fields.len() - 1] == field);
            assert(forall|j: int| 0 <= j < old_fields.len() ==> fields[j] == old_fields[j]);
            start = i + 1;
        } else {
            assert(c@.subrange(start as int, i as int + 1) =~= c@.subrange(start as int, i as int).push(c@[i as int]));
            assert(split_fields(t1) =~= fields.push(c@.subrange(start as int, i as int + 1)));
        }
        i = i + 1;
    }
    assert(c@.take(n as int) =~= c@);
    let last = parse_i64(&c, start, n);
    let ghost f = fields.push(c@.subrange(start as int, n as int));
    assert(f == split_fields(t@));
    assert(forall|j: int| 0 <= j < fields.len() ==> f[j] == fields[j]);
    if many {
        return None;
    }
    if !ok {
        return None;
    }
    let lv = match last {
        Some(x) => x,
        None => {
            return None;
        },
    };
    assert(forall|j: int| 0 <= j < f.len() ==> (#[trigger] i64_text(f[j])) is Some);
    let total: i128 = if vals.len() == 0 {
        lv as i128
    } else if vals.len() == 1 {
        vals[0] as i128 * 60 + lv as i128
    } else {
        vals[0] as i128 * 3600 + vals[1] as i128 * 60 + lv as i128
    };
    if total < -(MAX_SECS as i128) || total > MAX_SECS as i128 {
        None
    } else {
        Some(Span { secs: total as i64 })
    }
}

/// The `HH:MM:SS` text read for an alarm time: `HH:MM` gets `:00`; any
/// other count of fields is refused.
pub open spec fn alarm_text(s: Seq<char>) -> Option<Seq<char>> {
    let n = split_fields(s).len();
    if n == 2 {
        Some(s + ":00"@)
    } else if n == 3 {
        Some(s)
    } else {
        None
    }
}

/// The next date on which the local clock shows `c`, seen from `now`:
/// today, or tomorrow when that time of day is already past.
pub open spec fn day_for_spec(c: Clock, now: Moment) -> Option<(Date, Clock)> {
    if c.secs() < now.clock.secs() {
        if now.date.is_last() {
            None
        } else {
            Some((day_after(now.date), c))
        }
    } else {
        Some((now.date, c))
    }
}

/// The date and time of day that an alarm string names, seen from `now`.
pub open spec fn resolve_spec(given: Seq<char>, now: Moment) -> Option<(Date, Clock)> {
    match alarm_text(given) {
        None => None,
        Some(t) => match hms_of(t) {
            None => None,
            Some((h, m, sec)) => day_for_spec(Clock { hour: h, minute: m, second: sec }, now),
        },
    }
}

/// The date on which the local clock next shows `c`, seen from the reading
/// `now`: today if that time of day is not yet past, else tomorrow (`None`
/// only past the last day of the calendar).
pub fn day_for(c: Clock, now: &Moment) -> (r: Option<(Date, Clock)>)
    requires
        c.wf(),
        now.wf(),
    ensures
        r == day_for_spec(c, *now),
        r matches Some((d, _)) ==> d.wf(),
{
    let mine: u32 = c.hour * 3600 + c.minute * 60 + c.second;
    let theirs: u32 = now.clock.hour * 3600 + now.clock.minute * 60 + now.clock.second;
    if mine < theirs {
        match next_day(&now.date) {
            Some(d) => {
                assert(d.wf()) by {
                    assert(d == day_after(now.date));
                }
                Some((d, c))
            },
            None => None,
        }
    } else {
        Some((now.date, c))
    }
}

/// How many colon-separated fields `c` has, counting no further than four.
fn count_fields(c: &Vec<char>) -> (r: usize)
    ensures
        r == (if split_fields(c@).len() < 4 { split_fields(c@).len() as int } else { 4 }),
{
    let mut r: usize = 1;
    let mut i: usize = 0;
    assert(c@.take(0) =~= Seq::<char>::empty());
    while i < c.len()
        invariant
            i <= c@.len(),
            r == (if split_fields(c@.take(i as int)).len() < 4 {
                split_fields(c@.take(i as int)).len() as int
            } else {
                4
            }),
        decreases c@.len() - i,
    {
        let ghost t1 = c@.take(i as int + 1);
        assert(t1.drop_last() =~= c@.take(i as int));
        proof {
            lemma_split_nonempty(c@.take(i as int));
        }
        if c[i] == ':' && r < 4 {
            r = r + 1;
        }
        i = i + 1;
    }
    assert(c@.take(c@.len() as int) =~= c@);
    r
}

/// The date and time of day that an alarm string `HH:MM` or `HH:MM:SS`
/// names, seen from the reading `now`; `None` if the string is malformed.
pub fn resolve(given: &str, now: &Moment) -> (r: Option<(Date, Clock)>)
    requires
        now.wf(),
    ensures
        r == resolve_spec(given@, *now),
        r matches Some((d, c)) ==> d.wf() && c.wf(),
{
    let chars = chars_of(given);
    let n = count_fields(&chars);
    let parsed = if n == 2 {
        let mut t = String::from_str(given);
        t.append(":00");
        parse_hms(t.as_str())
    } else if n == 3 {
        parse_hms(given)
    } else {
        return None;
    };
    let (h, m, sec) = match parsed {
        Some(x) => x,
        None => {
            return None;
        },
    };
    day_for(Clock { hour: h, minute: m, second: sec }, now)
}

/// The instant that an alarm string `HH:MM` or `HH:MM:SS` names: the next
/// time the local clock shows it, today or tomorrow. `None` if the string is
/// malformed or the local clock shows that time not exactly once (a daylight
/// saving gap or fold).
pub fn time(given_str: &str) -> (r: Option<Moment>)
    ensures
        alarm_text(given_str@) is None ==> r is None,
        (alarm_text(given_str@) matches Some(t) && hms_of(t) is None) ==> r is None,
        r matches Some(m) ==> m.wf(),
        r matches Some(m) ==> exists|n: Moment|
            n.wf() && #[trigger] resolve_spec(given_str@, n) == Some((m.date, m.clock)),
        r matches Some(m) ==> (alarm_text(given_str@) matches Some(t) && hms_of(t) == Some(
            (m.clock.hour, m.clock.minute, m.clock.second),
        )),
{
    let now = local_now();
    let (date, clock) = match resolve(given_str, &now) {
        Some(x) => x,
        None => {
            return None;
        },
    };
    match local_instant(&date, &clock) {
        Some(stamp) => {
            assert(resolve_spec(given_str@, now) == Some((date, clock)));
            Some(Moment { date, clock, stamp })
        },
        None => None,
    }
}

} // verus!
