//! Points in time as the command line spells them: `now`, seconds since 1970, an
//! offset into the past such as `now-15m`, or a date and time after RFC 3339.

use crate::text::{
    chars_of, has_prefix, join3, parse_i64, parse_i64_spec, range_equals, range_has_prefix,
    string_of, trim, trim_bounds,
};
use vstd::prelude::*;

verus! {

/// Why a text names no point in time.
#[derive(Debug, Clone, PartialEq, Eq)]
pub enum TimeError {
    /// The text has none of the known forms. Holds the text, trimmed.
    Unsupported(String),
    /// The offset behind `now-` is shorter than a digit and a unit. Holds the
    /// offset.
    TooShort(String),
    /// The offset's quantity is no whole number. Holds the quantity.
    BadQuantity(String),
    /// The offset's unit is none of `s`, `m`, `h`, `d`, `w`. Holds the unit.
    BadUnit(String),
    /// The point in time, or the present that it is reckoned from, lies outside
    /// the years that `chrono` can hold. Holds the offset.
    OutOfRange(String),
}

/// A [`TimeError`] with its text as a sequence of characters.
pub enum TimeErrorView {
    Unsupported(Seq<char>),
    TooShort(Seq<char>),
    BadQuantity(Seq<char>),
    BadUnit(Seq<char>),
    OutOfRange(Seq<char>),
}

impl View for TimeError {
    type V = TimeErrorView;

    open spec fn view(&self) -> TimeErrorView {
        match self {
            TimeError::Unsupported(text) => TimeErrorView::Unsupported(text@),
            TimeError::TooShort(text) => TimeErrorView::TooShort(text@),
            TimeError::BadQuantity(text) => TimeErrorView::BadQuantity(text@),
            TimeError::BadUnit(text) => TimeErrorView::BadUnit(text@),
            TimeError::OutOfRange(text) => TimeErrorView::OutOfRange(text@),
        }
    }
}

impl TimeErrorView {
    /// The error in words.
    pub open spec fn text(self) -> Seq<char> {
        match self {
            TimeErrorView::Unsupported(text) => "Unsupported time format `"@ + text + "`"@,
            TimeErrorView::TooShort(text) => "Invalid relative time `"@ + text
                + "`. Expected e.g. now-15m."@,
            TimeErrorView::BadQuantity(text) => "Invalid relative duration quantity `"@ + text
                + "`"@,
            TimeErrorView::BadUnit(text) => "Invalid relative duration unit `"@ + text
                + "`. Use one of s,m,h,d,w."@,
            TimeErrorView::OutOfRange(text) => "Relative time `"@ + text + "` is out of range."@,
        }
    }
}

impl TimeError {
    /// The error in words.
    pub fn message(&self) -> (text: String)
        ensures
            text@ == self@.text(),
    {
        match self {
            TimeError::Unsupported(text) => join3("Unsupported time format `", text.as_str(), "`"),
            TimeError::TooShort(text) => join3(
                "Invalid relative time `",
                text.as_str(),
                "`. Expected e.g. now-15m.",
            ),
            TimeError::BadQuantity(text) => join3(
                "Invalid relative duration quantity `",
                text.as_str(),
                "`",
            ),
            TimeError::BadUnit(text) => join3(
                "Invalid relative duration unit `",
                text.as_str(),
                "`. Use one of s,m,h,d,w.",
            ),
            TimeError::OutOfRange(text) => join3(
                "Relative time `",
                text.as_str(),
                "` is out of range.",
            ),
        }
    }
}

/// The seconds since 1970 of the date and time that `chrono` reads from `text`
/// after RFC 3339, or `None` where it reads none.
pub uninterp spec fn rfc3339_unix_seconds(text: Seq<char>) -> Option<i64>;

/// `chrono::DateTime::parse_from_rfc3339`, and `timestamp` on what it returns;
/// the error is dropped.
#[verifier::external_body]
pub(crate) fn rfc3339_timestamp(text: &str) -> (seconds: Option<i64>)
    ensures
        seconds == rfc3339_unix_seconds(text@),
{
    match chrono::DateTime::parse_from_rfc3339(text) {
        Ok(instant) => Some(instant.timestamp()),
        Err(_) => None,
    }
}

/// The first instant that `chrono` can hold, the beginning of the year -262143,
/// in seconds since 1970.
pub const MIN_INSTANT: i64 = -8_334_601_228_800;

/// The last whole second that `chrono` can hold, the end of the year 262142, in
/// seconds since 1970.
pub const MAX_INSTANT: i64 = 8_210_266_876_799;

/// Whether `chrono` can hold the instant that lies `seconds` after 1970.
pub open spec fn is_instant(seconds: int) -> bool {
    MIN_INSTANT <= seconds <= MAX_INSTANT
}

/// The instant that lies `span` seconds before `now`, both in seconds since
/// 1970, where `chrono` can hold both instants.
pub open spec fn instant_before(now: i64, span: int) -> Option<i64> {
    if is_instant(now as int) && is_instant(now - span) {
        Some((now - span) as i64)
    } else {
        None
    }
}

/// `chrono::DateTime::checked_sub_signed`, on the instant that
/// `DateTime::from_timestamp` makes of `now` and the span that
/// `TimeDelta::try_seconds` makes of `span`, with `timestamp` on what it
/// returns. Each of the three gives `None` where what it is asked for lies
/// outside the range of `chrono`; a span that `chrono` cannot hold is longer
/// than the whole range of its instants.
#[verifier::external_body]
pub(crate) fn subtract_span(now: i64, span: i64) -> (seconds: Option<i64>)
    ensures
        seconds == instant_before(now, span as int),
{
    let present = chrono::DateTime::from_timestamp(now, 0)?;
    let back = chrono::TimeDelta::try_seconds(span)?;
    match present.checked_sub_signed(back) {
        Some(instant) => Some(instant.timestamp()),
        None => None,
    }
}

/// The seconds that a unit of time lasts.
pub open spec fn unit_seconds(unit: char) -> Option<int> {
    if unit == 's' {
        Some(1)
    } else if unit == 'm' {
        Some(60)
    } else if unit == 'h' {
        Some(3600)
    } else if unit == 'd' {
        Some(86400)
    } else if unit == 'w' {
        Some(604800)
    } else {
        None
    }
}

/// The point in time that lies `offset` before `now`. An offset is a whole
/// number and a unit: `15m` is fifteen minutes. The point is reckoned by
/// `chrono`, within the range of instants that it can hold.
pub open spec fn relative_to_unix(offset: Seq<char>, now: i64) -> Result<i64, TimeErrorView> {
    if offset.len() < 2 {
        Err(TimeErrorView::TooShort(offset))
    } else {
        match parse_i64_spec(offset.drop_last()) {
            None => Err(TimeErrorView::BadQuantity(offset.drop_last())),
            Some(quantity) => match unit_seconds(offset.last()) {
                None => Err(TimeErrorView::BadUnit(seq![offset.last()])),
                Some(seconds) => match instant_before(now, quantity * seconds) {
                    Some(instant) => Ok(instant),
                    None => Err(TimeErrorView::OutOfRange(offset)),
                },
            },
        }
    }
}

/// The point in time that `expr` names, in seconds since 1970, where `now` is
/// the present: `now` itself, a whole number of seconds, an offset behind
/// `now-`, or a date and time after RFC 3339, tried in this order on the text
/// without the white space around it.
pub open spec fn time_to_unix(expr: Seq<char>, now: i64) -> Result<i64, TimeErrorView> {
    let trimmed = trim(expr);
    if trimmed == "now"@ {
        Ok(now)
    } else if parse_i64_spec(trimmed) is Some {
        Ok(parse_i64_spec(trimmed)->0)
    } else if has_prefix(trimmed, "now-"@) {
        relative_to_unix(trimmed.skip(4), now)
    } else {
        match rfc3339_unix_seconds(trimmed) {
            Some(seconds) => Ok(seconds),
            None => Err(TimeErrorView::Unsupported(trimmed)),
        }
    }
}

/// Whether a result of the library and its mathematical counterpart agree.
pub open spec fn same_time(result: Result<i64, TimeError>, expected: Result<i64, TimeErrorView>) -> bool {
    match expected {
        Ok(seconds) => result == Ok::<i64, TimeError>(seconds),
        Err(error) => result matches Err(found) && found@ == error,
    }
}

/// The seconds that a unit of time lasts.
fn seconds_of(unit: char) -> (seconds: Option<i64>)
    ensures
        match unit_seconds(unit) {
            Some(n) => seconds == Some(n as i64),
            None => seconds is None,
        },
{
    if unit == 's' {
        Some(1)
    } else if unit == 'm' {
        Some(60)
    } else if unit == 'h' {
        Some(3600)
    } else if unit == 'd' {
        Some(86400)
    } else if unit == 'w' {
        Some(604800)
    } else {
        None
    }
}

/// The point in time that lies the offset `chars[from..to]` before `now`.
fn relative_in(chars: &Vec<char>, from: usize, to: usize, now: i64) -> (seconds: Result<
    i64,
    TimeError,
>)
    requires
        from <= to <= chars.len(),
    ensures
        same_time(seconds, relative_to_unix(chars@.subrange(from as int, to as int), now)),
{
    let ghost offset = chars@.subrange(from as int, to as int);
    if to - from < 2 {
        return Err(TimeError::TooShort(string_of(chars, from, to)));
    }
    assert(offset.drop_last() =~= chars@.subrange(from as int, to - 1));
    assert(offset.last() == chars@[to - 1]);
    let quantity = match parse_i64(chars, from, to - 1) {
        Some(quantity) => quantity,
        None => {
            return Err(TimeError::BadQuantity(string_of(chars, from, to - 1)));
        },
    };
    let unit = match seconds_of(chars[to - 1]) {
        Some(unit) => unit,
        None => {
            let name = string_of(chars, to - 1, to);
            assert(name@ =~= seq![offset.last()]);
            return Err(TimeError::BadUnit(name));
        },
    };
    assert(-0x8000_0000_0000_0000 * 604800 <= quantity * unit <= 0x8000_0000_0000_0000 * 604800)
        by (nonlinear_arith)
        requires
            -0x8000_0000_0000_0000 <= quantity < 0x8000_0000_0000_0000,
            0 < unit <= 604800,
    ;
    let span: i128 = (quantity as i128) * (unit as i128);
    if span < i64::MIN as i128 || span > i64::MAX as i128 {
        return Err(TimeError::OutOfRange(string_of(chars, from, to)));
    }
    match subtract_span(now, span as i64) {
        Some(instant) => Ok(instant),
        None => Err(TimeError::OutOfRange(string_of(chars, from, to))),
    }
}

/// The point in time that lies `offset` before `now`, in seconds since 1970.
pub fn parse_relative(offset: &str, now: i64) -> (seconds: Result<i64, TimeError>)
    ensures
        same_time(seconds, relative_to_unix(offset@, now)),
{
    let chars = chars_of(offset);
    assert(chars@.subrange(0, chars@.len() as int) =~= chars@);
    relative_in(&chars, 0, chars.len(), now)
}

/// The point in time that `expr` names, in seconds since 1970, where `now` is
/// the present.
pub fn parse_to_unix(expr: &str, now: i64) -> (seconds: Result<i64, TimeError>)
    ensures
        same_time(seconds, time_to_unix(expr@, now)),
{
    let chars = chars_of(expr);
    let (from, to) = trim_bounds(&chars);
    let ghost trimmed = chars@.subrange(from as int, to as int);
    if range_equals(&chars, from, to, "now") {
        return Ok(now);
    }
    match parse_i64(&chars, from, to) {
        Some(seconds) => {
            return Ok(seconds);
        },
        None => {},
    }
    if range_has_prefix(&chars, from, to, "now-") {
        proof {
            reveal_strlit("now-");
            assert(trimmed.skip(4) =~= chars@.subrange(from + 4, to as int));
        }
        return relative_in(&chars, from + 4, to, now);
    }
    let text = string_of(&chars, from, to);
    match rfc3339_timestamp(text.as_str()) {
        Some(seconds) => Ok(seconds),
        None => Err(TimeError::Unsupported(text)),
    }
}

} // verus!
