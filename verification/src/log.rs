//! The entries of the qmpo log file.

use vstd::prelude::*;
use vstd::string::StringExecFns;

use crate::timestamp::{chrono_lite_timestamp, Timestamp};

verus! {

/// The size in bytes over which the log file is started anew.
pub const MAX_LOG_SIZE: u64 = 1024 * 1024;

/// Tells whether a log file of the given size is to be removed before the next entry.
pub fn needs_rotation(size: u64) -> (r: bool)
    ensures
        r == (size > MAX_LOG_SIZE),
{
    size > MAX_LOG_SIZE
}

/// The text of an entry: the time, the level in square brackets, and the message.
pub open spec fn entry_text(secs: u64, level: Seq<char>, message: Seq<char>) -> Seq<char> {
    Timestamp::at(secs as int).text() + " ["@ + level + "] "@ + message
}

/// Builds the entry for a message logged `secs` seconds after 1970-01-01 00:00:00 UTC.
pub fn entry(secs: u64, level: &str, message: &str) -> (line: String)
    ensures
        line@ == entry_text(secs, level@, message@),
{
    let mut line = chrono_lite_timestamp(secs);
    line.append(" [");
    line.append(level);
    line.append("] ");
    line.append(message);
    line
}

/// Builds the entry of an informational message.
pub fn info(secs: u64, message: &str) -> (line: String)
    ensures
        line@ == entry_text(secs, "INFO"@, message@),
{
    entry(secs, "INFO", message)
}

/// Builds the entry of an error message.
pub fn error(secs: u64, message: &str) -> (line: String)
    ensures
        line@ == entry_text(secs, "ERROR"@, message@),
{
    entry(secs, "ERROR", message)
}

} // verus!
