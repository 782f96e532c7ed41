//! How a line of the report is written for a terminal: a colour, a mark, the
//! message. Nothing here prints; each function gives the line to print.

use vstd::prelude::*;
use vstd::string::*;
use crate::model::{optional_text, Config};

verus! {

pub const RESET: &'static str = "\x1b[0m";

pub const BOLD: &'static str = "\x1b[1m";

pub const RED: &'static str = "\x1b[31m";

pub const GREEN: &'static str = "\x1b[32m";

pub const YELLOW: &'static str = "\x1b[33m";

pub const BLUE: &'static str = "\x1b[34m";

pub const CYAN: &'static str = "\x1b[36m";

pub const SUCCESS_MARK: &'static str = "✓";

pub const FAILURE_MARK: &'static str = "✗";

pub const WARNING_MARK: &'static str = "⚠";

pub const INFO_MARK: &'static str = "ℹ";

/// `message` in the colour `color`, with the colour switched off after it.
pub open spec fn colored(message: Seq<char>, color: Seq<char>) -> Seq<char> {
    color + message + RESET@
}

/// `message` behind `mark` and one blank, in the colour `color`.
pub open spec fn marked(mark: Seq<char>, message: Seq<char>, color: Seq<char>) -> Seq<char> {
    colored(mark + seq![' '] + message, color)
}

/// The line that reports a success.
pub open spec fn success_line(message: Seq<char>) -> Seq<char> {
    marked(SUCCESS_MARK@, message, GREEN@)
}

/// The line that reports a failure.
pub open spec fn failure_line(message: Seq<char>) -> Seq<char> {
    marked(FAILURE_MARK@, message, RED@)
}

/// The line that reports a warning.
pub open spec fn warning_line(message: Seq<char>) -> Seq<char> {
    marked(WARNING_MARK@, message, YELLOW@)
}

/// The line that gives a piece of information.
pub open spec fn info_line(message: Seq<char>) -> Seq<char> {
    marked(INFO_MARK@, message, CYAN@)
}

/// The line that a verbose run adds.
pub open spec fn verbose_line(message: Seq<char>) -> Seq<char> {
    colored(seq![' ', ' '] + message, BLUE@)
}

/// `message` in the colour `color`.
pub fn colorize(message: &str, color: &str) -> (line: String)
    ensures
        line@ == colored(message@, color@),
{
    let mut line = String::from_str(color);
    line.append(message);
    line.append(RESET);
    line
}

/// `message` behind `mark` and one blank, in the colour `color`.
fn mark_line(mark: &str, message: &str, color: &str) -> (line: String)
    ensures
        line@ == marked(mark@, message@, color@),
{
    let mut text = String::from_str(mark);
    proof {
        reveal_strlit(" ");
        assert(" "@ =~= seq![' ']);
    }
    text.append(" ");
    text.append(message);
    colorize(text.as_str(), color)
}

/// The line that reports a success.
pub fn success(message: &str) -> (line: String)
    ensures
        line@ == success_line(message@),
{
    mark_line(SUCCESS_MARK, message, GREEN)
}

/// The line that reports a failure.
pub fn failure(message: &str) -> (line: String)
    ensures
        line@ == failure_line(message@),
{
    mark_line(FAILURE_MARK, message, RED)
}

/// The line that reports a warning.
pub fn warning(message: &str) -> (line: String)
    ensures
        line@ == warning_line(message@),
{
    mark_line(WARNING_MARK, message, YELLOW)
}

/// The line that gives a piece of information.
pub fn info(message: &str) -> (line: String)
    ensures
        line@ == info_line(message@),
{
    mark_line(INFO_MARK, message, CYAN)
}

/// The line that a verbose run adds for `message`; none where the run is not
/// verbose.
pub fn verbose(config: &Config, message: &str) -> (line: Option<String>)
    ensures
        optional_text(line) == if config.verbose {
            Some(verbose_line(message@))
        } else {
            None
        },
{
    if config.verbose {
        proof {
            reveal_strlit("  ");
            assert("  "@ =~= seq![' ', ' ']);
        }
        let text = String::from_str("  ").concat(message);
        Some(colorize(text.as_str(), BLUE))
    } else {
        None
    }
}

} // verus!
