//! Dates and addresses: how their text forms are resolved.

use vstd::prelude::*;
use crate::error::{ParseError, ParseFault};
use crate::fold::seen;
use crate::model::UtcInstant;
use crate::outside::{
    day_from, day_in_format, normalized_url, parse_url, timestamp_from, timestamp_in_format,
};
use crate::text::joined;

verus! {

/// The number, counted from day 1 on 0001-01-01, of the day 1970-01-01.
pub const EPOCH_DAY: i64 = 719_163;

/// The seconds in a day.
pub const SECONDS_PER_DAY: i64 = 86_400;

/// The format of a moment written as seconds since the epoch.
pub open spec fn epoch_format() -> Seq<char> {
    "%s"@
}

/// The format of a calendar date: year, month and day.
pub open spec fn calendar_format() -> Seq<char> {
    "%Y-%m-%d"@
}

/// Midnight UTC at the start of a day, given by its number in the common era.
pub open spec fn midnight(day: i32) -> UtcInstant {
    UtcInstant { seconds: ((day as int - EPOCH_DAY as int) * SECONDS_PER_DAY as int) as i64 }
}

/// The moment that two readings of one text give: the reading as
/// seconds since the epoch where there is one, else midnight UTC of the
/// reading as a calendar date.
pub open spec fn first_reading(epoch: Option<i64>, day: Option<i32>) -> Option<UtcInstant> {
    match epoch {
        Some(seconds) => Some(UtcInstant { seconds }),
        None => match day {
            Some(d) => Some(midnight(d)),
            None => None,
        },
    }
}

/// The moment that a date text stands for.
pub open spec fn date_of(text: Seq<char>) -> Option<UtcInstant> {
    first_reading(
        timestamp_in_format(text, epoch_format()),
        day_in_format(text, calendar_format()),
    )
}

/// Midnight UTC at the start of the day numbered `day`.
pub fn midnight_of(day: i32) -> (r: UtcInstant)
    ensures
        r == midnight(day),
        r.seconds == (day as int - 719_163) * 86_400,
{
    let days: i64 = day as i64 - EPOCH_DAY;
    assert(-2_148_202_811 <= days <= 2_146_764_484);
    UtcInstant { seconds: days * SECONDS_PER_DAY }
}

/// Chooses between the two readings of a date text: seconds since
/// the epoch first, then a calendar date taken at midnight UTC.
pub fn instant_from(epoch: Option<i64>, day: Option<i32>) -> (r: Option<UtcInstant>)
    ensures
        r == first_reading(epoch, day),
{
    match epoch {
        Some(seconds) => Some(UtcInstant { seconds }),
        None => match day {
            Some(d) => Some(midnight_of(d)),
            None => None,
        },
    }
}

/// The moment that `text` stands for: read as seconds since the epoch,
/// or else as a `year-month-day` date at midnight UTC; nothing where it
/// is neither.
pub fn deserialize_date(text: &str) -> (r: Option<UtcInstant>)
    ensures
        r == date_of(text@),
{
    let epoch = timestamp_from(text, "%s");
    let day = if epoch.is_none() {
        day_from(text, "%Y-%m-%d")
    } else {
        None
    };
    instant_from(epoch, day)
}

/// The text that a relative address is resolved to: the base, where
/// there is one, and the relative address written one after the other.
pub open spec fn appended(base: Option<Seq<char>>, relative: Seq<char>) -> Seq<char> {
    match base {
        Some(b) => b + relative,
        None => relative,
    }
}

/// What a checked address comes to: its normal form, or a failure
/// where it is no absolute URL.
pub open spec fn checked(parsed: Option<Seq<char>>) -> Result<Seq<char>, ParseFault> {
    match parsed {
        Some(address) => Ok(address),
        None => Err(ParseFault::UrlParseFailure),
    }
}

/// The absolute address of a medium given relative to `base`.
pub open spec fn media_url(base: Option<Seq<char>>, relative: Seq<char>) -> Result<
    Seq<char>,
    ParseFault,
> {
    checked(normalized_url(appended(base, relative)))
}

/// `base` and `relative` written one after the other, with nothing put
/// between them and nothing taken away.
pub fn append_to_base(base: &Option<String>, relative: &str) -> (r: String)
    ensures
        r@ == appended(base.deep_view(), relative@),
{
    match base {
        Some(b) => joined(b.as_str(), relative),
        None => crate::text::owned(relative),
    }
}

/// Turns the outcome of checking an address into a result.
pub fn address_from(parsed: Option<String>) -> (r: Result<String, ParseError>)
    ensures
        seen(r) == checked(parsed.deep_view()),
{
    match parsed {
        Some(address) => Ok(address),
        None => Err(ParseError::UrlParseFailure),
    }
}

/// The normal form of `text` as an absolute URL.
pub fn absolute_url(text: &str) -> (r: Result<String, ParseError>)
    ensures
        seen(r) == checked(normalized_url(text@)),
{
    address_from(parse_url(text))
}

/// The absolute address of a medium given relative to `base`: the two
/// are joined as text, and the result must be an absolute URL.
pub fn resolve_media(base: &Option<String>, relative: &str) -> (r: Result<String, ParseError>)
    ensures
        seen(r) == media_url(base.deep_view(), relative@),
{
    let whole = append_to_base(base, relative);
    absolute_url(whole.as_str())
}

} // verus!
