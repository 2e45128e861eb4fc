use vstd::prelude::*;

use crate::utils::Error;

verus! {

/// What the command line asks the program to do.
#[derive(Debug, Clone, Copy, PartialEq, Eq, Structural)]
pub enum Command {
    /// Boot the subsystems and report.
    Run,
    /// Start the tty (DRM/KMS) backend.
    Tty,
    /// Exercise the window manager with mock windows.
    Demo,
    /// Print the usage.
    Help,
}

/// The error message for an unknown command word.
pub open spec fn unknown_command_message(word: Seq<char>) -> Seq<char> {
    "unknown command `"@ + word + "`; try `run`, `demo` or `help`"@
}

/// The command that the word `word` names, if any.
pub open spec fn command_named(word: Seq<char>) -> Option<Command> {
    if word == "run"@ {
        Some(Command::Run)
    } else if word == "tty"@ {
        Some(Command::Tty)
    } else if word == "demo"@ {
        Some(Command::Demo)
    } else if word == "help"@ || word == "--help"@ || word == "-h"@ {
        Some(Command::Help)
    } else {
        None
    }
}

fn same_text(a: &str, b: &str) -> (same: bool)
    ensures
        same == (a@ == b@),
{
    let a = a.to_owned();
    let b = b.to_owned();
    a == b
}

/// Reads the command word (the first argument): none means `run`; an unknown
/// word is an error that names it.
pub fn parse_command(word: Option<&str>) -> (r: Result<Command, Error>)
    ensures
        match word {
            None => r == Ok::<Command, Error>(Command::Run),
            Some(w) => match command_named(w@) {
                Some(c) => r == Ok::<Command, Error>(c),
                None => r matches Err(e) && e.spec_message() == unknown_command_message(w@),
            },
        },
{
    match word {
        None => Ok(Command::Run),
        Some(w) => {
            if same_text(w, "run") {
                Ok(Command::Run)
            } else if same_text(w, "tty") {
                Ok(Command::Tty)
            } else if same_text(w, "demo") {
                Ok(Command::Demo)
            } else if same_text(w, "help") || same_text(w, "--help") || same_text(w, "-h") {
                Ok(Command::Help)
            } else {
                let mut message = "unknown command `".to_owned();
                message.append(w);
                message.append("`; try `run`, `demo` or `help`");
                Err(Error::from_message(message))
            }
        },
    }
}

} // verus!
