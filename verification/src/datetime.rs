//! The service's fixed timestamp wire format: `YYYY-MM-DDTHH:MM:SS+HHMM`,
//! with an explicit numeric UTC offset and no sub-second component.
//!
//! A [`Timestamp`] holds the fields of a calendar point in time, read as
//! UTC. Formatting always emits a `+0000` offset; parsing accepts any
//! well-formed offset but interprets the clock fields as UTC, exactly as
//! the service does. An optional timestamp that is absent is simply left
//! out of outgoing payloads.
use crate::encoding::{
    digit_char, digit_val, is_digit_char, lemma_digit_char_val, pad2, pad4, push_pad2, push_pad4,
};
use vstd::prelude::*;
use vstd::string::StrSliceExecFns;
use vstd::string::StringExecFns;

verus! {

/// A calendar point in time with second precision, read as UTC.
#[derive(Clone, Copy, Debug, PartialEq, Eq, Structural)]
pub struct Timestamp {
    pub year: u16,
    pub month: u8,
    pub day: u8,
    pub hour: u8,
    pub minute: u8,
    pub second: u8,
}

/// The Gregorian leap-year rule.
pub open spec fn spec_is_leap_year(y: int) -> bool {
    y % 4 == 0 && (y % 100 != 0 || y % 400 == 0)
}

/// The number of days in a month of the Gregorian calendar.
pub open spec fn spec_days_in_month(y: int, m: int) -> int {
    if m == 2 {
        if spec_is_leap_year(y) {
            29
        } else {
            28
        }
    } else if m == 4 || m == 6 || m == 9 || m == 11 {
        30
    } else {
        31
    }
}

impl Timestamp {
    /// A well-formed timestamp: a real calendar date with a four-digit
    /// year and in-range clock fields.
    pub open spec fn valid(self) -> bool {
        &&& self.year <= 9999
        &&& 1 <= self.month <= 12
        &&& 1 <= self.day <= spec_days_in_month(self.year as int, self.month as int)
        &&& self.hour <= 23
        &&& self.minute <= 59
        &&& self.second <= 59
    }
}

/// The Unix epoch, `1970-01-01T00:00:00`: the default timestamp.
pub open spec fn epoch() -> Timestamp {
    Timestamp { year: 1970, month: 1, day: 1, hour: 0, minute: 0, second: 0 }
}

impl Default for Timestamp {
    /// The Unix epoch, `1970-01-01T00:00:00`.
    fn default() -> (r: Timestamp)
        ensures
            r == epoch(),
            r.valid(),
    {
        Timestamp { year: 1970, month: 1, day: 1, hour: 0, minute: 0, second: 0 }
    }
}

pub fn is_leap_year(y: u16) -> (r: bool)
    ensures
        r == spec_is_leap_year(y as int),
{
    y % 4 == 0 && (y % 100 != 0 || y % 400 == 0)
}

pub fn days_in_month(y: u16, m: u8) -> (r: u8)
    requires
        1 <= m <= 12,
    ensures
        r as int == spec_days_in_month(y as int, m as int),
{
    if m == 2 {
        if is_leap_year(y) {
            29
        } else {
            28
        }
    } else if m == 4 || m == 6 || m == 9 || m == 11 {
        30
    } else {
        31
    }
}

/// The wire rendering of a timestamp: date and clock fields zero-padded,
/// a literal `T` between them, and a `+0000` offset. Opaque: callers
/// reason through `format_datetime` and the round-trip lemma.
#[verifier::opaque]
pub open spec fn wire_format(t: Timestamp) -> Seq<char> {
    pad4(t.year as int) + seq!['-'] + pad2(t.month as int) + seq!['-'] + pad2(t.day as int)
        + seq!['T'] + pad2(t.hour as int) + seq![':'] + pad2(t.minute as int) + seq![':'] + pad2(
        t.second as int,
    ) + seq!['+', '0', '0', '0', '0']
}

/// Formats a timestamp in the service's wire format.
pub fn format_datetime(t: Timestamp) -> (r: String)
    requires
        t.valid(),
    ensures
        r@ == wire_format(t),
{
    proof {
        reveal(wire_format);
        reveal_strlit("-");
        reveal_strlit("T");
        reveal_strlit(":");
        reveal_strlit("+0000");
    }
    let mut s = String::new();
    push_pad4(&mut s, t.year as u32);
    s.append("-");
    push_pad2(&mut s, t.month as u32);
    s.append("-");
    push_pad2(&mut s, t.day as u32);
    s.append("T");
    push_pad2(&mut s, t.hour as u32);
    s.append(":");
    push_pad2(&mut s, t.minute as u32);
    s.append(":");
    push_pad2(&mut s, t.second as u32);
    s.append("+0000");
    proof {
        assert(s@ =~= wire_format(t));
    }
    s
}

/// The value of the two decimal digits of `s` at positions `i` and `i+1`.
pub open spec fn two_digits_at(s: Seq<char>, i: int) -> int {
    digit_val(s[i]) * 10 + digit_val(s[i + 1])
}

/// The value of the four decimal digits of `s` starting at position `i`.
pub open spec fn four_digits_at(s: Seq<char>, i: int) -> int {
    digit_val(s[i]) * 1000 + digit_val(s[i + 1]) * 100 + digit_val(s[i + 2]) * 10 + digit_val(
        s[i + 3],
    )
}

/// Whether a character sequence is exactly the wire format of some
/// well-formed timestamp, with any well-formed `+HHMM`/`-HHMM` offset.
pub open spec fn is_wire_datetime(s: Seq<char>) -> bool {
    &&& s.len() == 24
    &&& is_digit_char(s[0]) && is_digit_char(s[1]) && is_digit_char(s[2]) && is_digit_char(s[3])
    &&& s[4] == '-'
    &&& is_digit_char(s[5]) && is_digit_char(s[6])
    &&& s[7] == '-'
    &&& is_digit_char(s[8]) && is_digit_char(s[9])
    &&& s[10] == 'T'
    &&& is_digit_char(s[11]) && is_digit_char(s[12])
    &&& s[13] == ':'
    &&& is_digit_char(s[14]) && is_digit_char(s[15])
    &&& s[16] == ':'
    &&& is_digit_char(s[17]) && is_digit_char(s[18])
    &&& s[19] == '+' || s[19] == '-'
    &&& is_digit_char(s[20]) && is_digit_char(s[21]) && is_digit_char(s[22]) && is_digit_char(
        s[23],
    )
    &&& 1 <= two_digits_at(s, 5) <= 12
    &&& 1 <= two_digits_at(s, 8) <= spec_days_in_month(four_digits_at(s, 0), two_digits_at(s, 5))
    &&& two_digits_at(s, 11) <= 23
    &&& two_digits_at(s, 14) <= 59
    &&& two_digits_at(s, 17) <= 59
    &&& two_digits_at(s, 20) <= 23
    &&& two_digits_at(s, 22) <= 59
}

/// The timestamp a wire datetime denotes; the offset digits are
/// validated but not applied, as the service reads the clock as UTC.
pub open spec fn wire_value(s: Seq<char>) -> Timestamp {
    Timestamp {
        year: four_digits_at(s, 0) as u16,
        month: two_digits_at(s, 5) as u8,
        day: two_digits_at(s, 8) as u8,
        hour: two_digits_at(s, 11) as u8,
        minute: two_digits_at(s, 14) as u8,
        second: two_digits_at(s, 17) as u8,
    }
}

fn parse_digit(s: &str, i: usize) -> (r: Option<u32>)
    requires
        i < s@.len(),
    ensures
        r is Some <==> is_digit_char(s@[i as int]),
        r is Some ==> r->Some_0 as int == digit_val(s@[i as int]),
{
    let c = s.get_char(i);
    if c == '0' {
        Some(0)
    } else if c == '1' {
        Some(1)
    } else if c == '2' {
        Some(2)
    } else if c == '3' {
        Some(3)
    } else if c == '4' {
        Some(4)
    } else if c == '5' {
        Some(5)
    } else if c == '6' {
        Some(6)
    } else if c == '7' {
        Some(7)
    } else if c == '8' {
        Some(8)
    } else if c == '9' {
        Some(9)
    } else {
        None
    }
}

fn parse_two_digits(s: &str, i: usize) -> (r: Option<u32>)
    requires
        i + 1 < s@.len(),
        i < 1000,
    ensures
        r is Some <==> is_digit_char(s@[i as int]) && is_digit_char(s@[i + 1]),
        r is Some ==> r->Some_0 as int == two_digits_at(s@, i as int) && r->Some_0 <= 99,
{
    match (parse_digit(s, i), parse_digit(s, i + 1)) {
        (Some(a), Some(b)) => Some(a * 10 + b),
        _ => None,
    }
}

fn parse_four_digits(s: &str, i: usize) -> (r: Option<u32>)
    requires
        i + 3 < s@.len(),
        i < 998,
    ensures
        r is Some <==> is_digit_char(s@[i as int]) && is_digit_char(s@[i + 1]) && is_digit_char(
            s@[i + 2],
        ) && is_digit_char(s@[i + 3]),
        r is Some ==> r->Some_0 as int == four_digits_at(s@, i as int) && r->Some_0 <= 9999,
{
    match (parse_two_digits(s, i), parse_two_digits(s, i + 2)) {
        (Some(a), Some(b)) => Some(a * 100 + b),
        _ => None,
    }
}

/// Parses a wire datetime. Returns the denoted timestamp exactly when
/// the string matches the wire format; any other string is rejected.
pub fn parse_datetime(s: &str) -> (r: Option<Timestamp>)
    ensures
        is_wire_datetime(s@) ==> r == Some(wire_value(s@)),
        !is_wire_datetime(s@) ==> r is None,
        r matches Some(t) ==> t.valid(),
{
    if s.unicode_len() != 24 {
        return None;
    }
    let year = match parse_four_digits(s, 0) {
        Some(v) => v,
        None => { return None },
    };
    if s.get_char(4) != '-' {
        return None;
    }
    let month = match parse_two_digits(s, 5) {
        Some(v) => v,
        None => { return None },
    };
    if s.get_char(7) != '-' {
        return None;
    }
    let day = match parse_two_digits(s, 8) {
        Some(v) => v,
        None => { return None },
    };
    if s.get_char(10) != 'T' {
        return None;
    }
    let hour = match parse_two_digits(s, 11) {
        Some(v) => v,
        None => { return None },
    };
    if s.get_char(13) != ':' {
        return None;
    }
    let minute = match parse_two_digits(s, 14) {
        Some(v) => v,
        None => { return None },
    };
    if s.get_char(16) != ':' {
        return None;
    }
    let second = match parse_two_digits(s, 17) {
        Some(v) => v,
        None => { return None },
    };
    let sign = s.get_char(19);
    if sign != '+' && sign != '-' {
        return None;
    }
    let off_hour = match parse_two_digits(s, 20) {
        Some(v) => v,
        None => { return None },
    };
    let off_minute = match parse_two_digits(s, 22) {
        Some(v) => v,
        None => { return None },
    };
    if month < 1 || month > 12 {
        return None;
    }
    if day < 1 || day > days_in_month(year as u16, month as u8) as u32 {
        return None;
    }
    if hour > 23 || minute > 59 || second > 59 {
        return None;
    }
    if off_hour > 23 || off_minute > 59 {
        return None;
    }
    Some(
        Timestamp {
            year: year as u16,
            month: month as u8,
            day: day as u8,
            hour: hour as u8,
            minute: minute as u8,
            second: second as u8,
        },
    )
}

/// Formatting a well-formed timestamp and parsing the result yields the
/// original value: the wire format denotes exactly the timestamp it was
/// produced from.
#[verifier::rlimit(100)]
pub proof fn lemma_datetime_round_trip(t: Timestamp)
    requires
        t.valid(),
    ensures
        is_wire_datetime(wire_format(t)),
        wire_value(wire_format(t)) == t,
{
    reveal(wire_format);
    let s = wire_format(t);
    let y = t.year as int;
    let mo = t.month as int;
    let d = t.day as int;
    let h = t.hour as int;
    let mi = t.minute as int;
    let sec = t.second as int;
    assert(s =~= seq![
        digit_char(y / 1000),
        digit_char(y / 100 % 10),
        digit_char(y / 10 % 10),
        digit_char(y % 10),
        '-',
        digit_char(mo / 10),
        digit_char(mo % 10),
        '-',
        digit_char(d / 10),
        digit_char(d % 10),
        'T',
        digit_char(h / 10),
        digit_char(h % 10),
        ':',
        digit_char(mi / 10),
        digit_char(mi % 10),
        ':',
        digit_char(sec / 10),
        digit_char(sec % 10),
        '+',
        '0',
        '0',
        '0',
        '0',
    ]);
    lemma_digit_char_val(y / 1000);
    lemma_digit_char_val(y / 100 % 10);
    lemma_digit_char_val(y / 10 % 10);
    lemma_digit_char_val(y % 10);
    lemma_digit_char_val(mo / 10);
    lemma_digit_char_val(mo % 10);
    lemma_digit_char_val(d / 10);
    lemma_digit_char_val(d % 10);
    lemma_digit_char_val(h / 10);
    lemma_digit_char_val(h % 10);
    lemma_digit_char_val(mi / 10);
    lemma_digit_char_val(mi % 10);
    lemma_digit_char_val(sec / 10);
    lemma_digit_char_val(sec % 10);
    lemma_digit_char_val(0);
    assert(four_digits_at(s, 0) == y);
    assert(two_digits_at(s, 5) == mo);
    assert(two_digits_at(s, 8) == d);
    assert(two_digits_at(s, 11) == h);
    assert(two_digits_at(s, 14) == mi);
    assert(two_digits_at(s, 17) == sec);
    assert(two_digits_at(s, 20) == 0);
    assert(two_digits_at(s, 22) == 0);
}

} // verus!
