//! The timestamp format table: two ordered groups of patterns, one for dates
//! and one for date-times. The first pattern of a group is the canonical one.

use vstd::prelude::*;
use vstd::string::*;

use crate::timestamp::{Timestamp, TimestampValue};

verus! {

/// The timestamp formats stored on the disk.
#[derive(Debug)]
pub struct TimestampConfiguration {
    pub date: TimestampVariantConfiguration,
    pub date_time: TimestampVariantConfiguration,
}

/// Contains the formats for either date or date_time. First one is the default.
#[derive(Debug)]
pub struct TimestampVariantConfiguration {
    /// First one is the default.
    pub formats: Vec<String>,
}

impl TimestampVariantConfiguration {
    /// The format patterns as character sequences, in table order.
    pub open spec fn formats_view(&self) -> Seq<Seq<char>> {
        self.formats@.map_values(|s: String| s@)
    }

    /// An iterator over the formats of this group, in table order.
    pub fn formats(&self) -> (it: TimestampFormatIterator)
        ensures
            it.configuration == self,
            it.format_index is None,
    {
        TimestampFormatIterator { configuration: self, format_index: None }
    }
}

/// This is meant to make the method [`TimestampConfiguration::parse`] easier
/// to read: one format pattern together with its position in its group.
#[derive(Debug)]
pub struct TimestampFormat<'c> {
    pub configuration: &'c TimestampVariantConfiguration,
    pub format_index: usize,
    pub format: &'c str,
}

impl<'c> TimestampFormat<'c> {
    /// The format field holds the pattern at the stored index of the group.
    pub open spec fn wf(&self) -> bool {
        &&& self.format_index < self.configuration.formats@.len()
        &&& self.format@ == self.configuration.formats@[self.format_index as int]@
    }

    /// A timestamp carrying `date`, to be rendered by this format.
    pub fn new_timestamp(&self, date: TimestampValue) -> (ts: Timestamp<'c>)
        ensures
            ts.configuration == self.configuration,
            ts.format_index == self.format_index,
            ts.value == date,
    {
        Timestamp {
            configuration: self.configuration,
            format_index: self.format_index,
            value: date,
        }
    }
}

/// This iterator is meant to make the method [`TimestampConfiguration::parse`]
/// easier to read.
#[derive(Debug)]
pub struct TimestampFormatIterator<'c> {
    pub configuration: &'c TimestampVariantConfiguration,
    pub format_index: Option<usize>,
}

impl<'c> TimestampFormatIterator<'c> {
    /// The next format of the group, advancing the stored position.
    pub fn next(&mut self) -> (r: Option<TimestampFormat<'c>>)
        requires
            old(self).format_index matches Some(j) ==> j < usize::MAX,
        ensures
            final(self).configuration == old(self).configuration,
            ({
                let i: int = match old(self).format_index {
                    None => 0,
                    Some(j) => j + 1,
                };
                &&& final(self).format_index == Some(i as usize)
                &&& if i < old(self).configuration.formats@.len() {
                    r matches Some(f) && f.configuration == old(self).configuration
                        && f.format_index == i && f.format@
                        == old(self).configuration.formats@[i]@
                } else {
                    r is None
                }
            }),
    {
        let index: usize = match self.format_index {
            Some(i) => i + 1,
            None => 0,
        };
        self.format_index = Some(index);
        if index < self.configuration.formats.len() {
            Some(
                TimestampFormat {
                    configuration: self.configuration,
                    format_index: index,
                    format: self.configuration.formats[index].as_str(),
                },
            )
        } else {
            None
        }
    }
}

} // verus!
