//! The command surface of the tool, as plain data: the shell reads the
//! command line into these values and hands them to the library.

use vstd::prelude::*;

verus! {

/// The parsed command line.
#[derive(Debug)]
pub struct TaggerCli {
    pub command: TaggerCommand,
}

/// What the user asked for: either one edit pass over some paths, or a
/// background presence.
#[derive(Debug)]
pub enum TaggerCommand {
    /// To change the file name, add date or time, add and/or remove tags.
    Edit {
        /// Add text after the date and before the file name
        prefix: Option<String>,
        /// Add text after the file name and before tag separator
        suffix: Option<String>,
        /// Add a tag after the tag separator
        add_tag: Vec<String>,
        /// Remove a tag after the tag separator if it's there
        remove_tag: Vec<String>,
        /// Add the date (without time) before the filename
        add_date: bool,
        /// Add the date and the time before the filename
        add_datetime: bool,
        /// Add the time (without the date) before the filename
        add_time: bool,
        /// The files/folders to edit.
        targets_path: Vec<String>,
    },
    /// To maintain a background presence.
    Daemon {},
}

} // verus!
