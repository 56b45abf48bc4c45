//! Wall-clock capture and the two fixed text renderings a session needs: the
//! filename stem `YYYY-MM-DD_HH-MM-SS` taken from local time, and the
//! `YYYY-MM-DDTHH:MM:SSZ` creation timestamp taken from UTC.

use vstd::prelude::*;

verus! {

/// One wall-clock instant, broken into calendar fields.
#[derive(Clone, Copy, Debug, PartialEq, Eq, Structural)]
pub struct DateTimeParts {
    pub year: i32,
    pub month: u8,
    pub day: u8,
    pub hour: u8,
    pub minute: u8,
    pub second: u8,
}

impl DateTimeParts {
    /// Every field lies in its calendar range.
    pub open spec fn wf(&self) -> bool {
        &&& -9999 <= self.year <= 9999
        &&& 1 <= self.month <= 12
        &&& 1 <= self.day <= 31
        &&& self.hour <= 23
        &&& self.minute <= 59
        &&& self.second <= 59
    }
}

/// One instant read from the clock, as local wall-clock fields and as the
/// same instant in UTC.
#[derive(Clone, Copy, Debug, PartialEq, Eq, Structural)]
pub struct ClockStamp {
    pub local: DateTimeParts,
    pub utc: DateTimeParts,
}

impl ClockStamp {
    pub open spec fn wf(&self) -> bool {
        self.local.wf() && self.utc.wf()
    }
}

/// The decimal digit character for `n`.
pub open spec fn dec_digit(n: int) -> char {
    if n == 0 {
        '0'
    } else if n == 1 {
        '1'
    } else if n == 2 {
        '2'
    } else if n == 3 {
        '3'
    } else if n == 4 {
        '4'
    } else if n == 5 {
        '5'
    } else if n == 6 {
        '6'
    } else if n == 7 {
        '7'
    } else if n == 8 {
        '8'
    } else {
        '9'
    }
}

/// `n` rendered as exactly two decimal digits, zero-padded.
pub open spec fn two_dec(n: int) -> Seq<char> {
    seq![dec_digit(n / 10), dec_digit(n % 10)]
}

/// `n` rendered as exactly four decimal digits, zero-padded.
pub open spec fn four_dec(n: int) -> Seq<char> {
    seq![
        dec_digit(n / 1000),
        dec_digit((n / 100) % 10),
        dec_digit((n / 10) % 10),
        dec_digit(n % 10),
    ]
}

/// A year rendered as four zero-padded digits, with a leading minus sign for
/// years before year zero.
pub open spec fn year_chars(y: int) -> Seq<char> {
    if y >= 0 {
        four_dec(y)
    } else {
        seq!['-'] + four_dec(-y)
    }
}

/// The filename stem of a session started at `p` (local time):
/// `YYYY-MM-DD_HH-MM-SS`.
pub open spec fn stem_chars(p: DateTimeParts) -> Seq<char> {
    year_chars(p.year as int) + seq!['-'] + two_dec(p.month as int) + seq!['-'] + two_dec(
        p.day as int,
    ) + seq!['_'] + two_dec(p.hour as int) + seq!['-'] + two_dec(p.minute as int) + seq!['-']
        + two_dec(p.second as int)
}

/// The full recording filename: the stem plus the fixed audio extension.
pub open spec fn filename_chars(p: DateTimeParts) -> Seq<char> {
    stem_chars(p) + seq!['.', 'w', 'a', 'v']
}

/// The creation timestamp of a session started at `p` (UTC):
/// `YYYY-MM-DDTHH:MM:SSZ`.
pub open spec fn created_at_chars(p: DateTimeParts) -> Seq<char> {
    year_chars(p.year as int) + seq!['-'] + two_dec(p.month as int) + seq!['-'] + two_dec(
        p.day as int,
    ) + seq!['T'] + two_dec(p.hour as int) + seq![':'] + two_dec(p.minute as int) + seq![':']
        + two_dec(p.second as int) + seq!['Z']
}

/// The one-character string for a decimal digit.
fn digit_str(d: u8) -> (r: &'static str)
    requires
        d < 10,
    ensures
        r@ == seq![dec_digit(d as int)],
{
    proof {
        reveal_strlit("0");
        reveal_strlit("1");
        reveal_strlit("2");
        reveal_strlit("3");
        reveal_strlit("4");
        reveal_strlit("5");
        reveal_strlit("6");
        reveal_strlit("7");
        reveal_strlit("8");
        reveal_strlit("9");
    }
    let r: &'static str = match d {
        0 => "0",
        1 => "1",
        2 => "2",
        3 => "3",
        4 => "4",
        5 => "5",
        6 => "6",
        7 => "7",
        8 => "8",
        _ => "9",
    };
    proof {
        assert(r@ =~= seq![dec_digit(d as int)]);
    }
    r
}

/// Appends `n` as two zero-padded decimal digits.
fn push_two(out: &mut String, n: u8)
    requires
        n < 100,
    ensures
        final(out)@ == old(out)@ + two_dec(n as int),
{
    let ghost start = out@;
    out.append(digit_str(n / 10));
    out.append(digit_str(n % 10));
    proof {
        assert(out@ =~= start + two_dec(n as int));
    }
}

/// Appends `n` as four zero-padded decimal digits.
fn push_four(out: &mut String, n: u16)
    requires
        n < 10000,
    ensures
        final(out)@ == old(out)@ + four_dec(n as int),
{
    let ghost start = out@;
    out.append(digit_str((n / 1000) as u8));
    out.append(digit_str(((n / 100) % 10) as u8));
    out.append(digit_str(((n / 10) % 10) as u8));
    out.append(digit_str((n % 10) as u8));
    proof {
        assert(out@ =~= start + four_dec(n as int));
    }
}

/// Appends a year as four zero-padded digits, signed if negative.
fn push_year(out: &mut String, y: i32)
    requires
        -9999 <= y <= 9999,
    ensures
        final(out)@ == old(out)@ + year_chars(y as int),
{
    let ghost start = out@;
    if y >= 0 {
        push_four(out, y as u16);
    } else {
        proof {
            reveal_strlit("-");
        }
        out.append("-");
        push_four(out, (-y) as u16);
        proof {
            assert(out@ =~= start + year_chars(y as int));
        }
    }
}

/// Renders the recording filename for a session started at local time `p`.
pub fn filename_for(p: &DateTimeParts) -> (r: String)
    requires
        p.wf(),
    ensures
        r@ == filename_chars(*p),
{
    proof {
        reveal_strlit("-");
        reveal_strlit("_");
        reveal_strlit(".wav");
    }
    let mut out = String::new();
    push_year(&mut out, p.year);
    out.append("-");
    push_two(&mut out, p.month);
    out.append("-");
    push_two(&mut out, p.day);
    out.append("_");
    push_two(&mut out, p.hour);
    out.append("-");
    push_two(&mut out, p.minute);
    out.append("-");
    push_two(&mut out, p.second);
    out.append(".wav");
    proof {
        assert(out@ =~= filename_chars(*p));
    }
    out
}

/// Renders the creation timestamp for a session started at UTC time `p`.
pub fn created_at_for(p: &DateTimeParts) -> (r: String)
    requires
        p.wf(),
    ensures
        r@ == created_at_chars(*p),
{
    proof {
        reveal_strlit("-");
        reveal_strlit("T");
        reveal_strlit(":");
        reveal_strlit("Z");
    }
    let mut out = String::new();
    push_year(&mut out, p.year);
    out.append("-");
    push_two(&mut out, p.month);
    out.append("-");
    push_two(&mut out, p.day);
    out.append("T");
    push_two(&mut out, p.hour);
    out.append(":");
    push_two(&mut out, p.minute);
    out.append(":");
    push_two(&mut out, p.second);
    out.append("Z");
    proof {
        assert(out@ =~= created_at_chars(*p));
    }
    out
}

/// Relies on `time::OffsetDateTime::now_local` (falling back to `now_utc`
/// when the local offset is indeterminate), `to_offset` and the component
/// accessors: years lie in `-9999..=9999`, months in `1..=12`, days in
/// `1..=31`, hours below 24, minutes and seconds below 60.
#[verifier::external_body]
pub(crate) fn now_local_fallback_utc() -> (t: ClockStamp)
    ensures
        t.wf(),
{
    let now = time::OffsetDateTime::now_local().unwrap_or_else(|_| time::OffsetDateTime::now_utc());
    let utc = now.to_offset(time::UtcOffset::UTC);
    let local_parts = DateTimeParts {
        year: now.year(), month: now.month() as u8, day: now.day(),
        hour: now.hour(), minute: now.minute(), second: now.second(),
    };
    let utc_parts = DateTimeParts {
        year: utc.year(), month: utc.month() as u8, day: utc.day(),
        hour: utc.hour(), minute: utc.minute(), second: utc.second(),
    };
    ClockStamp { local: local_parts, utc: utc_parts }
}

} // verus!
