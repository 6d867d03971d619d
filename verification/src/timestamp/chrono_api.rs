//! The link to chrono: trusted declarations for the date and time parsing and
//! formatting that the timestamp component calls.
//!
//! Parsing and formatting with a strftime-style pattern are functions of the
//! text and the pattern alone, so their results are given names here; the
//! contracts of the wrappers speak of those names and of nothing more.

use std::fmt::Write;

use chrono::Datelike;
use chrono::Timelike;

use vstd::prelude::*;

use crate::timestamp::{Date, DateTime};

verus! {

/// What `chrono::NaiveDate::parse_and_remainder` returns for a text and a
/// pattern: the parsed date and the unparsed rest, if a prefix matches.
pub uninterp spec fn date_parse(text: Seq<char>, fmt: Seq<char>) -> Option<(Date, Seq<char>)>;

/// What `chrono::NaiveDateTime::parse_and_remainder` returns for a text and a
/// pattern: the parsed date-time and the unparsed rest, if a prefix matches.
pub uninterp spec fn date_time_parse(text: Seq<char>, fmt: Seq<char>) -> Option<
    (DateTime, Seq<char>),
>;

/// What formatting a date with `chrono::NaiveDate::format` yields, if the
/// date is a valid calendar date and the pattern suits a bare date.
pub uninterp spec fn date_format(value: Date, fmt: Seq<char>) -> Option<Seq<char>>;

/// What formatting a date-time with `chrono::NaiveDateTime::format` yields,
/// if the fields are valid and the pattern suits a date-time.
pub uninterp spec fn date_time_format(value: DateTime, fmt: Seq<char>) -> Option<Seq<char>>;

/// Relies on `chrono::NaiveDate::parse_and_remainder`: parses a prefix of
/// `text` by `fmt`; the remainder it returns is the unparsed tail of `text`.
#[verifier::external_body]
pub(crate) fn parse_date_prefix(text: &str, fmt: &str) -> (r: Option<(Date, String)>)
    ensures
        r is Some <==> date_parse(text@, fmt@) is Some,
        r matches Some(p) ==> {
            &&& date_parse(text@, fmt@) matches Some(q) && p.0 == q.0 && p.1@ == q.1
            &&& p.1@.len() <= text@.len()
            &&& p.1@ == text@.skip(text@.len() - p.1@.len())
        },
{
    match chrono::NaiveDate::parse_and_remainder(text, fmt) {
        Ok((d, rest)) => Some(
            (Date { year: d.year(), month: d.month() as u8, day: d.day() as u8 }, rest.to_owned()),
        ),
        Err(_) => None,
    }
}

/// Relies on `chrono::NaiveDateTime::parse_and_remainder`: parses a prefix of
/// `text` by `fmt`; the remainder it returns is the unparsed tail of `text`.
#[verifier::external_body]
pub(crate) fn parse_date_time_prefix(text: &str, fmt: &str) -> (r: Option<(DateTime, String)>)
    ensures
        r is Some <==> date_time_parse(text@, fmt@) is Some,
        r matches Some(p) ==> {
            &&& date_time_parse(text@, fmt@) matches Some(q) && p.0 == q.0 && p.1@ == q.1
            &&& p.1@.len() <= text@.len()
            &&& p.1@ == text@.skip(text@.len() - p.1@.len())
        },
{
    match chrono::NaiveDateTime::parse_and_remainder(text, fmt) {
        Ok((t, rest)) => Some(
            (
                DateTime {
                    date: Date { year: t.year(), month: t.month() as u8, day: t.day() as u8 },
                    hour: t.hour() as u8,
                    minute: t.minute() as u8,
                    second: t.second() as u8,
                    nanosecond: t.nanosecond(),
                },
                rest.to_owned(),
            ),
        ),
        Err(_) => None,
    }
}

/// Relies on `chrono::NaiveDate::format`: deterministic text substitution
/// from the date's fields and the pattern; fails only on a date that is no
/// calendar date or a pattern that does not suit a bare date.
#[verifier::external_body]
pub(crate) fn format_date_value(value: &Date, fmt: &str) -> (r: Option<String>)
    ensures
        r is Some <==> date_format(*value, fmt@) is Some,
        r matches Some(s) ==> date_format(*value, fmt@) matches Some(t) && s@ == t,
{
    let date = chrono::NaiveDate::from_ymd_opt(value.year, value.month as u32, value.day as u32)?;
    let mut out = String::new();
    match write!(out, "{}", date.format(fmt)) {
        Ok(()) => Some(out),
        Err(_) => None,
    }
}

/// Relies on `chrono::NaiveDateTime::format`: deterministic text substitution
/// from the date-time's fields and the pattern; fails only on fields that make
/// no calendar date-time or a pattern that does not suit one.
#[verifier::external_body]
pub(crate) fn format_date_time_value(value: &DateTime, fmt: &str) -> (r: Option<String>)
    ensures
        r is Some <==> date_time_format(*value, fmt@) is Some,
        r matches Some(s) ==> date_time_format(*value, fmt@) matches Some(t) && s@ == t,
{
    let d = &value.date;
    let date = chrono::NaiveDate::from_ymd_opt(d.year, d.month as u32, d.day as u32)?;
    let time = date.and_hms_nano_opt(
        value.hour as u32,
        value.minute as u32,
        value.second as u32,
        value.nanosecond,
    )?;
    let mut out = String::new();
    match write!(out, "{}", time.format(fmt)) {
        Ok(()) => Some(out),
        Err(_) => None,
    }
}

} // verus!
