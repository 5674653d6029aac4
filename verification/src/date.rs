//! The broken-down UTC date and time carried by a search response, and
//! its RFC 2822 rendering with the `GMT` suffix that SSDP consumers
//! expect.

use vstd::prelude::*;

use crate::digits::{
    append_four_digits, append_two_digits, four_digit_chars, two_digit_chars,
};

verus! {

/// A UTC instant, broken down into the fields that the RFC 2822 `DATE`
/// header displays. `weekday` counts days from Sunday, so 0 is Sunday
/// and 6 is Saturday.
#[derive(Clone, Copy, Debug, PartialEq, Eq, Structural)]
pub struct DateParts {
    pub year: u16,
    pub month: u8,
    pub day: u8,
    pub weekday: u8,
    pub hour: u8,
    pub minute: u8,
    pub second: u8,
}

impl DateParts {
    /// Field ranges of a displayable date: RFC 2822 dates carry a
    /// four-digit year, so years run from 0 through 9999.
    pub open spec fn wf(self) -> bool {
        &&& self.year <= 9999
        &&& 1 <= self.month <= 12
        &&& 1 <= self.day <= 31
        &&& self.weekday < 7
        &&& self.hour < 24
        &&& self.minute < 60
        &&& self.second < 60
    }
}

/// The three-letter English name of a weekday counted from Sunday.
pub open spec fn weekday_chars(w: int) -> Seq<char>
    recommends
        0 <= w < 7,
{
    if w == 0 {
        "Sun"@
    } else if w == 1 {
        "Mon"@
    } else if w == 2 {
        "Tue"@
    } else if w == 3 {
        "Wed"@
    } else if w == 4 {
        "Thu"@
    } else if w == 5 {
        "Fri"@
    } else {
        "Sat"@
    }
}

/// The three-letter English name of a month counted from 1.
pub open spec fn month_chars(m: int) -> Seq<char>
    recommends
        1 <= m <= 12,
{
    if m == 1 {
        "Jan"@
    } else if m == 2 {
        "Feb"@
    } else if m == 3 {
        "Mar"@
    } else if m == 4 {
        "Apr"@
    } else if m == 5 {
        "May"@
    } else if m == 6 {
        "Jun"@
    } else if m == 7 {
        "Jul"@
    } else if m == 8 {
        "Aug"@
    } else if m == 9 {
        "Sep"@
    } else if m == 10 {
        "Oct"@
    } else if m == 11 {
        "Nov"@
    } else {
        "Dec"@
    }
}

/// The RFC 2822 date-time text with the `GMT` zone name, such as
/// `Tue, 01 Jul 2003 10:52:37 GMT`.
pub open spec fn rfc2822_chars(d: DateParts) -> Seq<char>
    recommends
        d.wf(),
{
    weekday_chars(d.weekday as int) + ", "@ + two_digit_chars(d.day as int) + " "@ + month_chars(
        d.month as int,
    ) + " "@ + four_digit_chars(d.year as int) + " "@ + two_digit_chars(d.hour as int) + ":"@
        + two_digit_chars(d.minute as int) + ":"@ + two_digit_chars(d.second as int) + " GMT"@
}

fn weekday_str(w: u8) -> (r: &'static str)
    requires
        w < 7,
    ensures
        r@ == weekday_chars(w as int),
{
    match w {
        0 => "Sun",
        1 => "Mon",
        2 => "Tue",
        3 => "Wed",
        4 => "Thu",
        5 => "Fri",
        _ => "Sat",
    }
}

fn month_str(m: u8) -> (r: &'static str)
    requires
        1 <= m <= 12,
    ensures
        r@ == month_chars(m as int),
{
    match m {
        1 => "Jan",
        2 => "Feb",
        3 => "Mar",
        4 => "Apr",
        5 => "May",
        6 => "Jun",
        7 => "Jul",
        8 => "Aug",
        9 => "Sep",
        10 => "Oct",
        11 => "Nov",
        _ => "Dec",
    }
}

/// Appends the RFC 2822 rendering of `d` to `out`.
pub fn append_rfc2822(out: &mut String, d: &DateParts)
    requires
        d.wf(),
    ensures
        final(out)@ == old(out)@ + rfc2822_chars(*d),
{
    out.append(weekday_str(d.weekday));
    out.append(", ");
    append_two_digits(out, d.day);
    out.append(" ");
    out.append(month_str(d.month));
    out.append(" ");
    append_four_digits(out, d.year);
    out.append(" ");
    append_two_digits(out, d.hour);
    out.append(":");
    append_two_digits(out, d.minute);
    out.append(":");
    append_two_digits(out, d.second);
    out.append(" GMT");
    proof {
        assert(out@ =~= old(out)@ + rfc2822_chars(*d));
    }
}

/// The RFC 2822 rendering of `d` on its own.
pub fn format_rfc2822(d: &DateParts) -> (r: String)
    requires
        d.wf(),
    ensures
        r@ == rfc2822_chars(*d),
{
    let mut out = String::new();
    append_rfc2822(&mut out, d);
    proof {
        assert(out@ =~= rfc2822_chars(*d));
    }
    out
}

/// The `DATE` header value always names the `GMT` zone, never a
/// numeric offset: every well-formed date's rendering ends in ` GMT`.
pub proof fn lemma_rfc2822_ends_in_gmt(d: DateParts)
    requires
        d.wf(),
    ensures
        rfc2822_chars(d).len() >= 4,
        rfc2822_chars(d).subrange(
            rfc2822_chars(d).len() - 4,
            rfc2822_chars(d).len() as int,
        ) == " GMT"@,
{
    reveal_strlit(" GMT");
    reveal_strlit("Sun");
    reveal_strlit("Mon");
    reveal_strlit("Tue");
    reveal_strlit("Wed");
    reveal_strlit("Thu");
    reveal_strlit("Fri");
    reveal_strlit("Sat");
    reveal_strlit(", ");
    reveal_strlit(" ");
    reveal_strlit(":");
    assert(rfc2822_chars(d).subrange(
        rfc2822_chars(d).len() - 4,
        rfc2822_chars(d).len() as int,
    ) =~= " GMT"@);
}

/// Relies on `chrono::Utc::now` and the `Datelike`/`Timelike`/`Weekday`
/// getters for the current UTC instant; each stated field range is the
/// one chrono documents for the getter. The year is handed on below as
/// chrono returned it.
#[verifier::external_body]
fn now_parts() -> (r: (i32, DateParts))
    ensures
        1 <= r.1.month <= 12,
        1 <= r.1.day <= 31,
        r.1.weekday < 7,
        r.1.hour < 24,
        r.1.minute < 60,
        r.1.second < 60,
{
    let now = chrono::Utc::now();
    let year = chrono::Datelike::year(&now);
    (
        year,
        DateParts {
            year: 0,
            month: chrono::Datelike::month(&now) as u8,
            day: chrono::Datelike::day(&now) as u8,
            weekday: chrono::Datelike::weekday(&now).num_days_from_sunday() as u8,
            hour: chrono::Timelike::hour(&now) as u8,
            minute: chrono::Timelike::minute(&now) as u8,
            second: chrono::Timelike::second(&now) as u8,
        },
    )
}

/// The current UTC date and time, well-formed for display. RFC 2822
/// carries a four-digit year, so a clock outside years 0 through 9999
/// is pinned to the nearer bound.
pub fn current_date() -> (d: DateParts)
    ensures
        d.wf(),
{
    let (raw_year, parts) = now_parts();
    let year: u16 = if raw_year < 0 {
        0
    } else if raw_year > 9999 {
        9999
    } else {
        raw_year as u16
    };
    DateParts { year, ..parts }
}

} // verus!
