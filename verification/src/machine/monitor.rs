//! The commands of the debugging monitor.

use vstd::prelude::*;
use vstd::string::StrSliceExecFns;

verus! {

/// What the user of the monitor asks for.
#[derive(Clone, Copy, Debug, PartialEq, Eq)]
pub enum MonitorCommand {
    /// `r`: reset the machine, then go on.
    Reset,
    /// `q`: stop the run after the next instruction.
    Quit,
    /// `s`: execute the next instruction.
    Step,
    /// `p`: show the registers.
    PrintState,
    /// Anything else.
    Unknown,
}

/// The text `line` without the white space at its two ends, as
/// `str::trim` of the standard library gives it.
pub uninterp spec fn trimmed(line: Seq<char>) -> Seq<char>;

/// The command that the text `text` stands for. A command is one letter,
/// with nothing before or after it.
pub open spec fn command_of(text: Seq<char>) -> MonitorCommand {
    if text == seq!['r'] {
        MonitorCommand::Reset
    } else if text == seq!['q'] {
        MonitorCommand::Quit
    } else if text == seq!['s'] {
        MonitorCommand::Step
    } else if text == seq!['p'] {
        MonitorCommand::PrintState
    } else {
        MonitorCommand::Unknown
    }
}

/// Calls `str::trim`, which returns the text without its leading and
/// trailing white space.
#[verifier::external_body]
fn trim_line(line: &str) -> (text: &str)
    ensures
        text@ == trimmed(line@),
{
    line.trim()
}

impl MonitorCommand {
    /// The command that `text` stands for; `text` is taken as it is.
    pub fn from_text(text: &str) -> (command: MonitorCommand)
        ensures
            command == command_of(text@),
    {
        if text.unicode_len() != 1 {
            assert(text@.len() != seq!['r'].len());
            return MonitorCommand::Unknown;
        }
        let letter = text.get_char(0);
        assert(text@ =~= seq![letter]);
        if letter == 'r' {
            MonitorCommand::Reset
        } else if letter == 'q' {
            MonitorCommand::Quit
        } else if letter == 's' {
            MonitorCommand::Step
        } else if letter == 'p' {
            MonitorCommand::PrintState
        } else {
            assert(seq!['r'][0] == 'r' && seq!['q'][0] == 'q' && seq!['s'][0] == 's' && seq!['p'][0]
                == 'p');
            MonitorCommand::Unknown
        }
    }

    /// The command that a line of input stands for, once the white space at
    /// its two ends is taken off.
    pub fn parse(line: &str) -> (command: MonitorCommand)
        ensures
            command == command_of(trimmed(line@)),
    {
        MonitorCommand::from_text(trim_line(line))
    }
}

} // verus!
