//! Line-oriented command handling: the interactive shell of the wheeled
//! robot and the operator console of the command server.

use vstd::prelude::*;
use vstd::string::*;
use crate::commands::{PulseCommand, lemma_pulse_word_round_trip, pulse_command_of_word, pulse_command_word};
use crate::text::{trim_text, trimmed};

verus! {

/// What the interactive shell does with one line.
#[derive(Clone, Copy, Debug, PartialEq, Eq, Structural)]
pub enum ShellStep {
    /// Run the pulse command.
    Pulse(PulseCommand),
    /// The line was blank: prompt again.
    Blank,
    /// The line named no command: tell the user so.
    Unknown,
}

pub open spec fn shell_step_spec(line: Seq<char>) -> ShellStep {
    let word = trimmed(line);
    match pulse_command_of_word(word) {
        Some(c) => ShellStep::Pulse(c),
        None => if word.len() == 0 {
            ShellStep::Blank
        } else {
            ShellStep::Unknown
        },
    }
}

/// Decides what the shell does with a line read from the terminal: the
/// line is trimmed and then read as a pulse command.
pub fn shell_step(line: &str) -> (step: ShellStep)
    ensures
        step == shell_step_spec(line@),
{
    let word = trim_text(line);
    match PulseCommand::parse(word) {
        Some(c) => ShellStep::Pulse(c),
        None => {
            if word.is_empty() {
                ShellStep::Blank
            } else {
                ShellStep::Unknown
            }
        },
    }
}

/// Decides what the operator console publishes for a line typed by the
/// operator: the trimmed line, unless it is empty.
pub fn console_message(line: &str) -> (msg: Option<String>)
    ensures
        msg.is_some() == (trimmed(line@).len() > 0),
        msg matches Some(m) ==> m@ == trimmed(line@),
{
    let word = trim_text(line);
    if word.is_empty() {
        None
    } else {
        Some(word.to_owned())
    }
}

/// Law: the shell pulses a command exactly when the trimmed line is that
/// command's word.
pub proof fn lemma_shell_pulses_its_word(line: Seq<char>, c: PulseCommand)
    ensures
        (shell_step_spec(line) == ShellStep::Pulse(c)) == (trimmed(line) == pulse_command_word(c)),
{
    lemma_pulse_word_round_trip(c);
    if let Some(d) = pulse_command_of_word(trimmed(line)) {
        reveal_strlit("left f");
        reveal_strlit("left b");
        reveal_strlit("right f");
        reveal_strlit("right b");
        reveal_strlit("forward");
        reveal_strlit("backward");
        reveal_strlit("spin r");
        reveal_strlit("spin l");
    }
}

} // verus!
