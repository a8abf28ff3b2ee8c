//! The operator's shell: what a line of input asks for.

use crate::text::{chars_of, trim, trimmed};
use vstd::prelude::*;
use vstd::string::{StrSliceExecFns, StringExecFns};

verus! {

/// What the operator asks for.
#[derive(Debug, Clone, PartialEq, Eq)]
pub enum ShellCommand {
    /// Show the commands.
    Help,
    /// Show the version of the supervisor.
    Version,
    /// Stop the supervisor and keep the servers running.
    StopWraith,
    /// Stop every server, and then the supervisor.
    StopAll,
    /// Restart every server.
    RestartAll,
    /// Restart the server with this id.
    Restart(String),
    /// Read the configuration file again.
    Reload,
    /// Stop the servers that the configuration has dropped.
    StopOld,
}

/// A shell command, with its text as characters.
pub enum ShellCommandView {
    Help,
    Version,
    StopWraith,
    StopAll,
    RestartAll,
    Restart(Seq<char>),
    Reload,
    StopOld,
}

impl View for ShellCommand {
    type V = ShellCommandView;

    open spec fn view(&self) -> ShellCommandView {
        match self {
            ShellCommand::Help => ShellCommandView::Help,
            ShellCommand::Version => ShellCommandView::Version,
            ShellCommand::StopWraith => ShellCommandView::StopWraith,
            ShellCommand::StopAll => ShellCommandView::StopAll,
            ShellCommand::RestartAll => ShellCommandView::RestartAll,
            ShellCommand::Restart(name) => ShellCommandView::Restart(name@),
            ShellCommand::Reload => ShellCommandView::Reload,
            ShellCommand::StopOld => ShellCommandView::StopOld,
        }
    }
}

impl DeepView for ShellCommand {
    type V = ShellCommandView;

    open spec fn deep_view(&self) -> ShellCommandView {
        self@
    }
}

/// Whether the text begins with the given one.
pub open spec fn begins_with(text: Seq<char>, start: Seq<char>) -> bool {
    start.len() <= text.len() && text.take(start.len() as int) == start
}

/// What a line asks for. The line counts without the white space at its
/// ends. `restart` takes the id of a server, which counts without the white
/// space at its ends; `reload` may be followed by anything. A line that is
/// none of the commands asks for nothing.
pub open spec fn command_of(line: Seq<char>) -> Option<ShellCommandView> {
    let command = trimmed(line);
    if command == "help"@ || command == "?"@ {
        Some(ShellCommandView::Help)
    } else if command == "version"@ {
        Some(ShellCommandView::Version)
    } else if command == "stopwraith"@ {
        Some(ShellCommandView::StopWraith)
    } else if command == "stopall"@ {
        Some(ShellCommandView::StopAll)
    } else if command == "restartall"@ {
        Some(ShellCommandView::RestartAll)
    } else if begins_with(command, "restart "@) {
        Some(ShellCommandView::Restart(trimmed(command.skip("restart "@.len() as int))))
    } else if begins_with(command, "reload"@) {
        Some(ShellCommandView::Reload)
    } else if command == "stopold"@ {
        Some(ShellCommandView::StopOld)
    } else {
        None
    }
}

fn starts_with(text: &Vec<char>, start: &str) -> (found: bool)
    ensures
        found == begins_with(text@, start@),
{
    let wanted = chars_of(start);
    if wanted.len() > text.len() {
        return false;
    }
    let mut i: usize = 0;
    while i < wanted.len()
        invariant
            i <= wanted.len() <= text.len(),
            wanted@ == start@,
            forall|k: int| 0 <= k < i ==> text@[k] == wanted@[k],
        decreases wanted.len() - i,
    {
        if text[i] != wanted[i] {
            proof {
                let head = text@.take(start@.len() as int);
                assert(head[i as int] == text@[i as int]);
                assert(head[i as int] != start@[i as int]);
            }
            return false;
        }
        i = i + 1;
    }
    assert(text@.take(start@.len() as int) =~= start@);
    true
}

fn is_text(text: &String, other: &str) -> (same: bool)
    ensures
        same == (text@ == other@),
{
    *text == String::from_str(other)
}

/// Reads a line of the operator's input.
pub fn parse_command(line: &str) -> (command: Option<ShellCommand>)
    ensures
        command.deep_view() == command_of(line@),
{
    let command = String::from_str(trim(line));
    if is_text(&command, "help") || is_text(&command, "?") {
        return Some(ShellCommand::Help);
    }
    if is_text(&command, "version") {
        return Some(ShellCommand::Version);
    }
    if is_text(&command, "stopwraith") {
        return Some(ShellCommand::StopWraith);
    }
    if is_text(&command, "stopall") {
        return Some(ShellCommand::StopAll);
    }
    if is_text(&command, "restartall") {
        return Some(ShellCommand::RestartAll);
    }
    let chars = chars_of(command.as_str());
    if starts_with(&chars, "restart ") {
        let prefix = chars_of("restart ");
        let name = command.as_str().substring_char(prefix.len(), chars.len());
        assert(name@ =~= command@.skip("restart "@.len() as int));
        return Some(ShellCommand::Restart(String::from_str(trim(name))));
    }
    if starts_with(&chars, "reload") {
        return Some(ShellCommand::Reload);
    }
    if is_text(&command, "stopold") {
        return Some(ShellCommand::StopOld);
    }
    None
}

} // verus!
