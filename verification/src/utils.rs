//! Expirations as the registry reads them: plain values, resolved to an
//! instant and written as a calendar date.

use crate::error::Error;
use chrono::{DateTime, Utc};
use optionstratlib::ExpirationDate;
use std::fmt::Write;
use vstd::prelude::*;

verus! {

/// `ExpirationDate` of `optionstratlib`: a count of days or a fixed instant.
/// The registry carries it and reads it through `parts_of`.
#[verifier::external_type_specification]
#[verifier::external_body]
pub struct ExExpirationDate(ExpirationDate);

/// `ExpirationDate` is `Copy` and derives its `Clone`: the clone is the value
/// itself.
pub assume_specification[ <ExpirationDate as Clone>::clone ](
    expiration: &ExpirationDate,
) -> (copy: ExpirationDate)
    ensures
        copy == *expiration,
;

/// Seconds in one day.
pub const SECONDS_PER_DAY: i64 = 86_400;

/// A point in time: whole seconds since 1970-01-01 00:00:00 UTC and the
/// nanoseconds past them.
#[derive(Debug, Clone, Copy, PartialEq, Eq)]
pub struct Instant {
    /// Whole seconds since 1970-01-01 00:00:00 UTC; negative before it.
    pub seconds: i64,
    /// Nanoseconds past the whole seconds.
    pub nanos: u32,
}

/// What an expiration holds.
#[derive(Debug, Clone, Copy, PartialEq, Eq)]
pub enum ExpirationParts {
    /// A count of whole days after a base instant, any fraction of a day
    /// dropped; `None` where the count is too large for an `i64`.
    Days(Option<i64>),
    /// A fixed instant.
    At(Instant),
}

/// What an expiration holds, read as plain values: a function of the
/// expiration alone.
pub uninterp spec fn parts(expiration: ExpirationDate) -> ExpirationParts;

/// What the calendar writes for an instant in UTC under a `strftime`
/// pattern, or `None` where the instant is outside the calendar's range or
/// the pattern is not one.
pub uninterp spec fn utc_text(seconds: int, nanos: int, pattern: Seq<char>) -> Option<Seq<char>>;

/// Whether an optional text holds exactly the optional characters `expected`.
pub open spec fn text_is(text: Option<String>, expected: Option<Seq<char>>) -> bool {
    match (text, expected) {
        (Some(t), Some(e)) => t@ == e,
        (None, None) => true,
        _ => false,
    }
}

/// The instant an expiration stands for when day counts start at `base`:
/// a fixed instant is itself, a day count is that many days after `base`
/// with the same nanoseconds, and there is none where the count or the
/// seconds do not fit.
pub open spec fn resolved(parts: ExpirationParts, base: Instant) -> Option<Instant> {
    match parts {
        ExpirationParts::At(at) => Some(at),
        ExpirationParts::Days(None) => None,
        ExpirationParts::Days(Some(days)) => {
            let seconds = base.seconds + days * SECONDS_PER_DAY;
            if i64::MIN <= seconds <= i64::MAX {
                Some(Instant { seconds: seconds as i64, nanos: base.nanos })
            } else {
                None
            }
        },
    }
}

/// Reads an expiration into plain values. A `Days` count goes through the
/// `i64::try_from` of its `Positive`, which drops the fraction and fails above
/// `i64::MAX`; a `DateTime` gives its `timestamp` and
/// `timestamp_subsec_nanos`. No clock is read, so the values are a function
/// of the expiration alone and are named: `parts`.
#[verifier::external_body]
fn parts_of(expiration: &ExpirationDate) -> (read: ExpirationParts)
    ensures
        read == parts(*expiration),
{
    match expiration {
        ExpirationDate::Days(days) => ExpirationParts::Days(i64::try_from(*days).ok()),
        ExpirationDate::DateTime(at) => ExpirationParts::At(
            Instant { seconds: at.timestamp(), nanos: at.timestamp_subsec_nanos() },
        ),
    }
}

/// Compares two expirations with `ExpirationDate`'s `==`: equal are two day
/// counts of the same value and two instants that are the same instant, and
/// nothing else; no clock is read. The contracts take equal expirations for
/// one value.
#[verifier::external_body]
pub(crate) fn same_expiration(left: &ExpirationDate, right: &ExpirationDate) -> (same: bool)
    ensures
        same == (*left == *right),
{
    left.eq(right)
}

/// Reads `ExpirationDate::get_reference_datetime`: the instant that this
/// thread has pinned as the base of day counts, if it has pinned one.
/// Nothing is claimed of it.
#[verifier::external_body]
fn pinned_reference() -> (pinned: Option<Instant>) {
    match ExpirationDate::get_reference_datetime() {
        Some(at) => Some(Instant { seconds: at.timestamp(), nanos: at.timestamp_subsec_nanos() }),
        None => None,
    }
}

/// Reads the clock with `Utc::now`. Nothing is claimed of the instant.
#[verifier::external_body]
fn clock_now() -> (now: Instant) {
    let now = Utc::now();
    Instant { seconds: now.timestamp(), nanos: now.timestamp_subsec_nanos() }
}

/// Builds the date with `DateTime::from_timestamp` and writes it with
/// `DateTime::format` under `pattern`. The text is a function of the instant
/// and the pattern alone, so it is named: `utc_text`. There is none where
/// `from_timestamp` refuses the instant or the pattern cannot be written.
#[verifier::external_body]
fn calendar_text(at: Instant, pattern: &str) -> (text: Option<String>)
    ensures
        text_is(text, utc_text(at.seconds as int, at.nanos as int, pattern@)),
{
    match DateTime::from_timestamp(at.seconds, at.nanos) {
        Some(date) => {
            let mut text = String::new();
            match write!(text, "{}", date.format(pattern)) {
                Ok(()) => Some(text),
                Err(_) => None,
            }
        },
        None => None,
    }
}

/// Resolves an expiration to an instant, counting days from `base`.
pub fn resolve(parts: ExpirationParts, base: Instant) -> (at: Option<Instant>)
    ensures
        at == resolved(parts, base),
{
    match parts {
        ExpirationParts::At(at) => Some(at),
        ExpirationParts::Days(None) => None,
        ExpirationParts::Days(Some(days)) => {
            let seconds: i128 = base.seconds as i128 + days as i128 * (SECONDS_PER_DAY as i128);
            if i64::MIN as i128 <= seconds && seconds <= i64::MAX as i128 {
                Some(Instant { seconds: seconds as i64, nanos: base.nanos })
            } else {
                None
            }
        },
    }
}

/// What `written` gives: the text of the instant that the expiration
/// resolves to, where it resolves to one that the calendar can write.
pub open spec fn written_as(parts: ExpirationParts, base: Instant, pattern: Seq<char>) -> Option<Seq<char>> {
    match resolved(parts, base) {
        Some(at) => utc_text(at.seconds as int, at.nanos as int, pattern),
        None => None,
    }
}

/// Writes an expiration under a `strftime` pattern, counting days from
/// `base`.
pub fn written(parts: ExpirationParts, base: Instant, pattern: &str) -> (text: Option<String>)
    ensures
        text_is(text, written_as(parts, base, pattern@)),
{
    match resolve(parts, base) {
        Some(at) => calendar_text(at, pattern),
        None => None,
    }
}

/// The base that day counts start from: the pinned reference where there is
/// one, the clock's reading where there is none.
pub fn base_from(pinned: Option<Instant>, now: Instant) -> (base: Instant)
    ensures
        base == match pinned {
            Some(at) => at,
            None => now,
        },
{
    match pinned {
        Some(at) => at,
        None => now,
    }
}

/// The text of an expiration that resolves to no date.
pub open spec fn no_date() -> Seq<char> {
    "Invalid Expiration"@
}

/// The pattern of a date as `YYYYMMDD`.
pub open spec fn date_pattern() -> Seq<char> {
    "%Y%m%d"@
}

/// The pattern of a date and time written in full.
pub open spec fn date_time_pattern() -> Seq<char> {
    "%Y-%m-%d %H:%M:%S UTC"@
}

/// How an expiration is described when day counts start at `base`: by the
/// date and time it resolves to, or as having no date.
pub open spec fn description_at(parts: ExpirationParts, base: Instant) -> Seq<char> {
    match written_as(parts, base, date_time_pattern()) {
        Some(date) => date,
        None => no_date(),
    }
}

/// How the symbols of contracts write an expiration when day counts start
/// at `base`: as its date, `YYYYMMDD`, or as it is described where it has no
/// date.
pub open spec fn label_at(parts: ExpirationParts, base: Instant) -> Seq<char> {
    match written_as(parts, base, date_pattern()) {
        Some(date) => date,
        None => description_at(parts, base),
    }
}

/// Describes an expiration, counting days from `base`.
pub fn description(parts: ExpirationParts, base: Instant) -> (text: String)
    ensures
        text@ == description_at(parts, base),
{
    match written(parts, base, "%Y-%m-%d %H:%M:%S UTC") {
        Some(date) => date,
        None => "Invalid Expiration".to_owned(),
    }
}

/// Writes an expiration as the symbols of contracts do, counting days from
/// `base`.
pub fn label(parts: ExpirationParts, base: Instant) -> (text: String)
    ensures
        text@ == label_at(parts, base),
{
    match written(parts, base, "%Y%m%d") {
        Some(date) => date,
        None => description(parts, base),
    }
}

/// Formats an expiration as `YYYYMMDD`.
///
/// A day count is taken from the reference instant pinned on this thread, or
/// from the clock where none is pinned, so two calls may give two dates; a
/// fixed instant always gives the same. Fails with `InvalidExpiration` where
/// the expiration resolves to no date.
pub fn format_expiration_yyyymmdd(expiration: &ExpirationDate) -> (text: Result<String, Error>)
    ensures
        match text {
            Ok(date) => exists|base: Instant| #[trigger]
                written_as(parts(*expiration), base, date_pattern()) == Some(date@),
            Err(error) => error == Error::InvalidExpiration(*expiration) && exists|base: Instant| #[trigger]
                written_as(parts(*expiration), base, date_pattern()) is None,
        },
{
    let base = base_from(pinned_reference(), clock_now());
    match written(parts_of(expiration), base, "%Y%m%d") {
        Some(date) => {
            assert(written_as(parts(*expiration), base, date_pattern()) == Some(date@));
            Ok(date)
        },
        None => {
            assert(written_as(parts(*expiration), base, date_pattern()) is None);
            Err(Error::invalid_expiration(*expiration))
        },
    }
}

/// Writes an expiration as a date and time, or as `Invalid Expiration` where
/// it resolves to none. A day count is taken as in
/// `format_expiration_yyyymmdd`.
pub fn describe_expiration(expiration: &ExpirationDate) -> (text: String)
    ensures
        exists|base: Instant| text@ == #[trigger] description_at(parts(*expiration), base),
{
    let base = base_from(pinned_reference(), clock_now());
    description(parts_of(expiration), base)
}

/// Writes an expiration as the symbols of contracts do. A day count is taken
/// as in `format_expiration_yyyymmdd`.
pub fn label_expiration(expiration: &ExpirationDate) -> (text: String)
    ensures
        exists|base: Instant| text@ == #[trigger] label_at(parts(*expiration), base),
{
    let base = base_from(pinned_reference(), clock_now());
    label(parts_of(expiration), base)
}

} // verus!
