//! The timestamp prefix of a name: an ordered table of date and date-time
//! patterns is tried against the front of the stem; the first matching pattern
//! wins, and the date-time group is always tried entirely before the date
//! group.

use vstd::prelude::*;
use vstd::string::*;

use crate::timestamp::chrono_api::{
    date_format, date_parse, date_time_format, date_time_parse, format_date_time_value,
    format_date_value, parse_date_prefix, parse_date_time_prefix,
};
use crate::timestamp::configuration::{
    TimestampConfiguration, TimestampFormat, TimestampVariantConfiguration,
};

pub mod chrono_api;
pub mod configuration;

verus! {

/// A calendar date held as plain year, month and day fields.
#[derive(Clone, Copy, PartialEq, Eq, Structural, Debug)]
pub struct Date {
    pub year: i32,
    pub month: u8,
    pub day: u8,
}

/// A calendar date together with a time of day.
#[derive(Clone, Copy, PartialEq, Eq, Structural, Debug)]
pub struct DateTime {
    pub date: Date,
    pub hour: u8,
    pub minute: u8,
    pub second: u8,
    pub nanosecond: u32,
}

/// What type of temporal data are we talking about here.
#[derive(Clone, Copy, PartialEq, Eq, Structural, Debug)]
pub enum TimestampValue {
    Date(Date),
    DateTime(DateTime),
}

/// Temporal data (and its format) found in the file/directory name. May be a
/// date or a datetime.
#[derive(Debug)]
pub struct Timestamp<'c> {
    pub configuration: &'c TimestampVariantConfiguration,
    pub format_index: usize,
    pub value: TimestampValue,
}

/// The text a timestamp renders to: its value formatted with the pattern at
/// the stored index of its format group.
pub open spec fn spec_render_timestamp(ts: Timestamp) -> Seq<char> {
    if ts.wf() {
        let fmt = ts.configuration.formats@[ts.format_index as int]@;
        match ts.value {
            TimestampValue::Date(d) => match date_format(d, fmt) {
                Some(s) => s,
                None => Seq::empty(),
            },
            TimestampValue::DateTime(t) => match date_time_format(t, fmt) {
                Some(s) => s,
                None => Seq::empty(),
            },
        }
    } else {
        Seq::empty()
    }
}

impl<'c> Timestamp<'c> {
    /// The stored format index points into the referenced format group.
    pub open spec fn wf(&self) -> bool {
        self.format_index < self.configuration.formats@.len()
    }

    /// Normalisation is when we want to use the main format (listed first) to
    /// keep everything tidy, instead of the one previously used.
    pub fn normalise(&mut self)
        ensures
            final(self).format_index == 0,
            final(self).configuration == old(self).configuration,
            final(self).value == old(self).value,
    {
        self.format_index = 0
    }

    /// The text this timestamp renders to.
    pub fn render(&self) -> (r: String)
        requires
            self.wf(),
        ensures
            r@ == spec_render_timestamp(*self),
    {
        let fmt: &String = &self.configuration.formats[self.format_index];
        let formatted: Option<String> = match self.value {
            TimestampValue::Date(d) => format_date_value(&d, fmt.as_str()),
            TimestampValue::DateTime(t) => format_date_time_value(&t, fmt.as_str()),
        };
        match formatted {
            Some(s) => s,
            None => String::new(),
        }
    }
}

/// The outcome of trying the date patterns of a group from position `i` on:
/// the first pattern that matches wins, with its index.
pub open spec fn spec_date_group_parse(formats: Seq<Seq<char>>, text: Seq<char>, i: int) -> Option<
    (int, Date, Seq<char>),
>
    decreases formats.len() - i,
{
    if i < 0 || i >= formats.len() {
        None
    } else {
        match date_parse(text, formats[i]) {
            Some(p) => Some((i, p.0, p.1)),
            None => spec_date_group_parse(formats, text, i + 1),
        }
    }
}

/// The outcome of trying the date-time patterns of a group from position `i`
/// on: the first pattern that matches wins, with its index.
pub open spec fn spec_date_time_group_parse(
    formats: Seq<Seq<char>>,
    text: Seq<char>,
    i: int,
) -> Option<(int, DateTime, Seq<char>)>
    decreases formats.len() - i,
{
    if i < 0 || i >= formats.len() {
        None
    } else {
        match date_time_parse(text, formats[i]) {
            Some(p) => Some((i, p.0, p.1)),
            None => spec_date_time_group_parse(formats, text, i + 1),
        }
    }
}

/// The outcome of parsing a timestamp prefix: every date-time pattern is
/// tried before any date pattern, and within a group the first match wins.
/// The fields are: whether the date-time group matched, the index of the
/// winning pattern in its group, the parsed value, and the text left over.
pub open spec fn spec_timestamp_parse(cfg: TimestampConfiguration, text: Seq<char>) -> Option<
    (bool, int, TimestampValue, Seq<char>),
> {
    match spec_date_time_group_parse(cfg.date_time.formats_view(), text, 0) {
        Some((i, v, rest)) => Some((true, i, TimestampValue::DateTime(v), rest)),
        None => match spec_date_group_parse(cfg.date.formats_view(), text, 0) {
            Some((i, v, rest)) => Some((false, i, TimestampValue::Date(v), rest)),
            None => None,
        },
    }
}

/// The exact relation between a text and the outcome of parsing its timestamp
/// prefix: `r` is the parse result and `rest` the text left over.
pub open spec fn timestamp_parse_outcome<'c>(
    cfg: TimestampConfiguration,
    text: Seq<char>,
    r: Option<Timestamp<'c>>,
    rest: Seq<char>,
) -> bool {
    match spec_timestamp_parse(cfg, text) {
        None => r is None && rest == text,
        Some((dt, i, v, spec_rest)) => {
            &&& r matches Some(ts)
            &&& ts.value == v
            &&& ts.format_index == i
            &&& (dt ==> *ts.configuration == cfg.date_time && 0 <= i
                < cfg.date_time.formats@.len())
            &&& (!dt ==> *ts.configuration == cfg.date && 0 <= i < cfg.date.formats@.len())
            &&& rest == spec_rest
            &&& rest.len() <= text.len()
            &&& rest == text.skip(text.len() - rest.len())
        },
    }
}

impl<'c> TimestampFormat<'c> {
    /// Try to read a date at the front of the name with this format pattern,
    /// consuming the matched prefix.
    pub fn parse_date(&self, filename: &mut String) -> (r: Option<Timestamp<'c>>)
        ensures
            match date_parse(old(filename)@, self.format@) {
                Some(p) => {
                    &&& r matches Some(ts)
                    &&& ts.configuration == self.configuration
                    &&& ts.format_index == self.format_index
                    &&& ts.value == TimestampValue::Date(p.0)
                    &&& final(filename)@ == p.1
                    &&& final(filename)@.len() <= old(filename)@.len()
                    &&& final(filename)@ == old(filename)@.skip(
                        old(filename)@.len() - final(filename)@.len(),
                    )
                },
                None => r is None && final(filename)@ == old(filename)@,
            },
    {
        match parse_date_prefix(filename.as_str(), self.format) {
            Some((date, rest)) => {
                *filename = rest;
                Some(self.new_timestamp(TimestampValue::Date(date)))
            },
            None => None,
        }
    }

    /// Try to read a date and time at the front of the name with this format
    /// pattern, consuming the matched prefix.
    pub fn parse_date_time(&self, filename: &mut String) -> (r: Option<Timestamp<'c>>)
        ensures
            match date_time_parse(old(filename)@, self.format@) {
                Some(p) => {
                    &&& r matches Some(ts)
                    &&& ts.configuration == self.configuration
                    &&& ts.format_index == self.format_index
                    &&& ts.value == TimestampValue::DateTime(p.0)
                    &&& final(filename)@ == p.1
                    &&& final(filename)@.len() <= old(filename)@.len()
                    &&& final(filename)@ == old(filename)@.skip(
                        old(filename)@.len() - final(filename)@.len(),
                    )
                },
                None => r is None && final(filename)@ == old(filename)@,
            },
    {
        match parse_date_time_prefix(filename.as_str(), self.format) {
            Some((date, rest)) => {
                *filename = rest;
                Some(self.new_timestamp(TimestampValue::DateTime(date)))
            },
            None => None,
        }
    }
}

impl TimestampConfiguration {
    /// Try to read temporal data in the file/directory name. Subtract the
    /// temporal data from name.
    pub fn parse<'c>(&'c self, filename: &mut String) -> (r: Option<Timestamp<'c>>)
        ensures
            timestamp_parse_outcome(*self, old(filename)@, r, final(filename)@),
    {
        let ghost text: Seq<char> = filename@;
        let mut i: usize = 0;
        while i < self.date_time.formats.len()
            invariant
                text == old(filename)@,
                filename@ == text,
                0 <= i <= self.date_time.formats@.len(),
                spec_date_time_group_parse(self.date_time.formats_view(), text, 0)
                    == spec_date_time_group_parse(self.date_time.formats_view(), text, i as int),
            decreases self.date_time.formats@.len() - i,
        {
            let format = TimestampFormat {
                configuration: &self.date_time,
                format_index: i,
                format: self.date_time.formats[i].as_str(),
            };
            assert(format.format@ == self.date_time.formats_view()[i as int]);
            if let Some(timestamp) = format.parse_date_time(filename) {
                return Some(timestamp);
            }
            i += 1;
        }
        let mut j: usize = 0;
        while j < self.date.formats.len()
            invariant
                text == old(filename)@,
                filename@ == text,
                0 <= j <= self.date.formats@.len(),
                spec_date_time_group_parse(self.date_time.formats_view(), text, 0) is None,
                spec_date_group_parse(self.date.formats_view(), text, 0) == spec_date_group_parse(
                    self.date.formats_view(),
                    text,
                    j as int,
                ),
            decreases self.date.formats@.len() - j,
        {
            let format = TimestampFormat {
                configuration: &self.date,
                format_index: j,
                format: self.date.formats[j].as_str(),
            };
            assert(format.format@ == self.date.formats_view()[j as int]);
            if let Some(timestamp) = format.parse_date(filename) {
                return Some(timestamp);
            }
            j += 1;
        }
        None
    }
}

/// Law: a text matching any configured date-time pattern parses as a
/// date-time, never as a date, whatever the date patterns would say.
pub proof fn lemma_group_priority(cfg: TimestampConfiguration, text: Seq<char>, i: int)
    requires
        0 <= i < cfg.date_time.formats_view().len(),
        date_time_parse(text, cfg.date_time.formats_view()[i]) is Some,
    ensures
        spec_timestamp_parse(cfg, text) matches Some(out) && out.0 == true && out.2 is DateTime,
{
    lemma_date_time_group_some(cfg.date_time.formats_view(), text, 0, i);
}

proof fn lemma_date_time_group_some(formats: Seq<Seq<char>>, text: Seq<char>, k: int, i: int)
    requires
        0 <= k <= i < formats.len(),
        date_time_parse(text, formats[i]) is Some,
    ensures
        spec_date_time_group_parse(formats, text, k) is Some,
    decreases i - k,
{
    if k < i && date_time_parse(text, formats[k]) is None {
        lemma_date_time_group_some(formats, text, k + 1, i);
    }
}

/// Law: within the date group the first listed pattern that matches wins:
/// the parse returns its index, its value and its leftover text, and every
/// pattern listed before it fails on the text.
pub proof fn lemma_first_match_in_group(formats: Seq<Seq<char>>, text: Seq<char>)
    ensures
        match spec_date_group_parse(formats, text, 0) {
            Some((i, d, rest)) => {
                &&& 0 <= i < formats.len()
                &&& date_parse(text, formats[i]) == Some((d, rest))
                &&& forall|j: int| 0 <= j < i ==> date_parse(text, formats[j]) is None
            },
            None => forall|j: int|
                0 <= j < formats.len() ==> date_parse(text, formats[j]) is None,
        },
{
    lemma_date_group_parse_facts(formats, text, 0);
}

proof fn lemma_date_group_parse_facts(formats: Seq<Seq<char>>, text: Seq<char>, k: int)
    requires
        0 <= k,
    ensures
        match spec_date_group_parse(formats, text, k) {
            Some((i, d, rest)) => {
                &&& k <= i < formats.len()
                &&& date_parse(text, formats[i]) == Some((d, rest))
                &&& forall|j: int| k <= j < i ==> date_parse(text, formats[j]) is None
            },
            None => forall|j: int|
                k <= j < formats.len() ==> date_parse(text, formats[j]) is None,
        },
    decreases formats.len() - k,
{
    if k < formats.len() && date_parse(text, formats[k]) is None {
        lemma_date_group_parse_facts(formats, text, k + 1);
    }
}

} // verus!
