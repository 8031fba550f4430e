//! Timestamps as text, for logs and diagnostics. Times are seconds since the
//! Unix epoch, as everywhere in this crate. The calendar arithmetic is that
//! of `aws_smithy_types::DateTime`, which is called, not rebuilt.

use vstd::prelude::*;
use aws_smithy_types::date_time::{DateTimeFormatError, Format};
use aws_smithy_types::DateTime;

verus! {

/// The textual forms in which a time can be written.
#[derive(Clone, Copy, Debug, PartialEq, Eq, Structural)]
pub enum TimeFormat {
    /// The form of the HTTP `Date` header, such as
    /// `Mon, 16 Dec 2019 23:48:18 GMT`.
    HttpDate,
    /// The RFC 3339 form without offset, such as `2019-12-16T23:48:18Z`.
    DateTime,
}

/// Why a time could not be written.
#[derive(Clone, Copy, Debug, PartialEq, Eq, Structural)]
pub enum TimeFormatError {
    /// The time lies outside what the form can express.
    OutOfRange,
}

/// A time in both textual forms.
#[derive(Debug)]
pub struct FormattedTime {
    pub http_date: String,
    pub date_time: String,
}

/// The error with which `aws_smithy_types::DateTime::fmt` refuses a time.
#[verifier::external_type_specification]
#[verifier::external_body]
pub struct ExDateTimeFormatError(DateTimeFormatError);

/// What `aws_smithy_types::DateTime::fmt` gives for the time `seconds` after
/// the epoch in the given form: the text, or `None` where it refuses the time.
pub uninterp spec fn formatted_time(seconds: int, format: TimeFormat) -> Option<Seq<char>>;

/// The text part of a formatting result.
pub open spec fn text_of(formatted: Result<String, DateTimeFormatError>) -> Option<Seq<char>> {
    match formatted {
        Ok(text) => Some(text@),
        Err(_) => None,
    }
}

/// Calls `aws_smithy_types::DateTime::fmt` on the time made by
/// `DateTime::from_secs(seconds)`. The contract gives the result its name and
/// claims nothing else: that it depends on `seconds` and `format` alone.
#[verifier::external_body]
fn format_seconds(seconds: i64, format: TimeFormat) -> (formatted: Result<
    String,
    DateTimeFormatError,
>)
    ensures
        text_of(formatted) == formatted_time(seconds as int, format),
{
    let form = match format {
        TimeFormat::HttpDate => Format::HttpDate,
        TimeFormat::DateTime => Format::DateTime,
    };
    DateTime::from_secs(seconds).fmt(form)
}

/// What [`format_time`] returns, given what the formatter said: no text for
/// a time beyond the signed range, else the formatter's text.
pub open spec fn time_text(seconds: nat, format: TimeFormat) -> Option<Seq<char>> {
    if seconds > i64::MAX {
        None
    } else {
        formatted_time(seconds as int, format)
    }
}

/// Writes the time `seconds` after the epoch in the given form.
pub fn format_time(seconds: u64, format: TimeFormat) -> (written: Result<String, TimeFormatError>)
    ensures
        match written {
            Ok(text) => time_text(seconds as nat, format) == Some(text@),
            Err(error) => error == TimeFormatError::OutOfRange && time_text(
                seconds as nat,
                format,
            ) is None,
        },
{
    if seconds > i64::MAX as u64 {
        return Err(TimeFormatError::OutOfRange);
    }
    match format_seconds(seconds as i64, format) {
        Ok(text) => Ok(text),
        Err(_) => Err(TimeFormatError::OutOfRange),
    }
}

/// Puts the two forms of one time together: both texts, or the error if
/// either form could not be written.
pub fn pair_formats(
    http_date: Result<String, TimeFormatError>,
    date_time: Result<String, TimeFormatError>,
) -> (paired: Result<FormattedTime, TimeFormatError>)
    ensures
        match (http_date, date_time) {
            (Ok(first), Ok(second)) => paired matches Ok(times) && times.http_date@ == first@
                && times.date_time@ == second@,
            _ => paired == Err::<FormattedTime, TimeFormatError>(TimeFormatError::OutOfRange),
        },
{
    match http_date {
        Ok(first) => match date_time {
            Ok(second) => Ok(FormattedTime { http_date: first, date_time: second }),
            Err(_) => Err(TimeFormatError::OutOfRange),
        },
        Err(_) => Err(TimeFormatError::OutOfRange),
    }
}

/// Writes the time `seconds` after the epoch in both forms.
pub fn date_time_format(seconds: u64) -> (formatted: Result<FormattedTime, TimeFormatError>)
    ensures
        match formatted {
            Ok(times) => {
                &&& time_text(seconds as nat, TimeFormat::HttpDate) == Some(times.http_date@)
                &&& time_text(seconds as nat, TimeFormat::DateTime) == Some(times.date_time@)
            },
            Err(error) => {
                &&& error == TimeFormatError::OutOfRange
                &&& (time_text(seconds as nat, TimeFormat::HttpDate) is None || time_text(
                    seconds as nat,
                    TimeFormat::DateTime,
                ) is None)
            },
        },
{
    let http_date = format_time(seconds, TimeFormat::HttpDate);
    let date_time = format_time(seconds, TimeFormat::DateTime);
    pair_formats(http_date, date_time)
}

} // verus!
