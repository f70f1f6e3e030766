//! The log of the window.

use crate::outside::{clock_text, local_clock};
use crate::types::{color_number, LogColor};
use crate::views::views;
use vstd::prelude::*;
use vstd::string::*;

verus! {

broadcast use crate::views::group_views;

/// A line of the log.
#[derive(Debug, Clone)]
pub struct LogEntry {
    pub text: String,
    pub color: i32,
}

#[verifier::ext_equal]
pub struct LogEntryView {
    pub text: Seq<char>,
    pub color: i32,
}

impl View for LogEntry {
    type V = LogEntryView;

    open spec fn view(&self) -> LogEntryView {
        LogEntryView { text: self.text@, color: self.color }
    }
}

/// The line that logs a text at a time of day.
pub open spec fn log_line(time: Seq<char>, text: Seq<char>, color: LogColor) -> LogEntryView {
    LogEntryView { text: "["@ + time + "] "@ + text, color: color_number(color) }
}

/// A line of the log is its time in brackets, a space and the text as it is, in
/// the number of its colour: 0 to 5 in the order of the colours.
pub proof fn law_log_line(time: Seq<char>, text: Seq<char>, color: LogColor)
    ensures
        ({
            let line = log_line(time, text, color);
            &&& line.text == seq!['['] + time + seq![']', ' '] + text
            &&& line.color == (match color {
                LogColor::White => 0int,
                LogColor::Green => 1,
                LogColor::Red => 2,
                LogColor::Yellow => 3,
                LogColor::Blue => 4,
                LogColor::Magenta => 5,
            })
        }),
{
    reveal_strlit("[");
    reveal_strlit("] ");
    assert("["@ =~= seq!['[']);
    assert("] "@ =~= seq![']', ' ']);
}

/// The line that logs `text` at the time of day `time`.
pub fn log_entry_at(time: &str, text: &str, color: LogColor) -> (r: LogEntry)
    ensures
        r@ == log_line(time@, text@, color),
{
    let mut line = "[".to_owned();
    line.append(time);
    line.append("] ");
    line.append(text);
    LogEntry { text: line, color: i32::from(color) }
}

/// Adds a line to the log, with the local time of day in front. What the line
/// is at a given time is said by [`log_entry_at`].
pub fn append_log(log: &mut Vec<LogEntry>, text: &str, color: LogColor)
    ensures
        exists|time: Seq<char>|
            {
                &&& clock_text(time)
                &&& views(final(log)@) == views(old(log)@).push(
                    #[trigger] log_line(time, text@, color),
                )
            },
{
    let time = local_clock();
    log.push(log_entry_at(time.as_str(), text, color));
}

} // verus!
