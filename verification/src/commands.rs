//! The command words that travel between the controllers and the robots.

use vstd::prelude::*;
use crate::text::same_text;

verus! {

/// A driving command for a continuously driven robot, as sent over the
/// network by the command servers and understood by the polling clients.
#[derive(Clone, Copy, Debug, PartialEq, Eq, Structural)]
pub enum DriveCommand {
    /// Every motor pin low.
    Idle,
    Forward,
    Backward,
    SpinRight,
    SpinLeft,
}

/// The word that names a driving command on the wire.
pub open spec fn drive_command_word(c: DriveCommand) -> Seq<char> {
    match c {
        DriveCommand::Idle => "idle"@,
        DriveCommand::Forward => "forward"@,
        DriveCommand::Backward => "backward"@,
        DriveCommand::SpinRight => "spin r"@,
        DriveCommand::SpinLeft => "spin l"@,
    }
}

/// The driving command that a word names, if any.
pub open spec fn drive_command_of_word(w: Seq<char>) -> Option<DriveCommand> {
    if w == "idle"@ {
        Some(DriveCommand::Idle)
    } else if w == "forward"@ {
        Some(DriveCommand::Forward)
    } else if w == "backward"@ {
        Some(DriveCommand::Backward)
    } else if w == "spin r"@ {
        Some(DriveCommand::SpinRight)
    } else if w == "spin l"@ {
        Some(DriveCommand::SpinLeft)
    } else {
        None
    }
}

impl DriveCommand {
    /// Reads a driving command from its word; `None` for any other text.
    pub fn parse(word: &str) -> (c: Option<DriveCommand>)
        ensures
            c == drive_command_of_word(word@),
    {
        if same_text(word, "idle") {
            Some(DriveCommand::Idle)
        } else if same_text(word, "forward") {
            Some(DriveCommand::Forward)
        } else if same_text(word, "backward") {
            Some(DriveCommand::Backward)
        } else if same_text(word, "spin r") {
            Some(DriveCommand::SpinRight)
        } else if same_text(word, "spin l") {
            Some(DriveCommand::SpinLeft)
        } else {
            None
        }
    }

    /// The word that names this command on the wire.
    pub fn word(&self) -> (w: &'static str)
        ensures
            w@ == drive_command_word(*self),
    {
        match self {
            DriveCommand::Idle => "idle",
            DriveCommand::Forward => "forward",
            DriveCommand::Backward => "backward",
            DriveCommand::SpinRight => "spin r",
            DriveCommand::SpinLeft => "spin l",
        }
    }
}

/// Reading back the word of a driving command gives the same command.
pub proof fn lemma_drive_word_round_trip(c: DriveCommand)
    ensures
        drive_command_of_word(drive_command_word(c)) == Some(c),
{
    reveal_strlit("idle");
    reveal_strlit("forward");
    reveal_strlit("backward");
    reveal_strlit("spin r");
    reveal_strlit("spin l");
    assert("spin r"@[5] != "spin l"@[5]);
    assert("idle"@.len() == 4 && "forward"@.len() == 7 && "backward"@.len() == 8);
    assert("spin r"@.len() == 6 && "spin l"@.len() == 6);
}

/// A timed pulse command of the wheeled robots that run each command for
/// one second.
#[derive(Clone, Copy, Debug, PartialEq, Eq, Structural)]
pub enum PulseCommand {
    LeftForward,
    LeftBackward,
    RightForward,
    RightBackward,
    Forward,
    Backward,
    SpinRight,
    SpinLeft,
}

/// The word that names a pulse command.
pub open spec fn pulse_command_word(c: PulseCommand) -> Seq<char> {
    match c {
        PulseCommand::LeftForward => "left f"@,
        PulseCommand::LeftBackward => "left b"@,
        PulseCommand::RightForward => "right f"@,
        PulseCommand::RightBackward => "right b"@,
        PulseCommand::Forward => "forward"@,
        PulseCommand::Backward => "backward"@,
        PulseCommand::SpinRight => "spin r"@,
        PulseCommand::SpinLeft => "spin l"@,
    }
}

/// The pulse command that a word names, if any.
pub open spec fn pulse_command_of_word(w: Seq<char>) -> Option<PulseCommand> {
    if w == "left f"@ {
        Some(PulseCommand::LeftForward)
    } else if w == "left b"@ {
        Some(PulseCommand::LeftBackward)
    } else if w == "right f"@ {
        Some(PulseCommand::RightForward)
    } else if w == "right b"@ {
        Some(PulseCommand::RightBackward)
    } else if w == "forward"@ {
        Some(PulseCommand::Forward)
    } else if w == "backward"@ {
        Some(PulseCommand::Backward)
    } else if w == "spin r"@ {
        Some(PulseCommand::SpinRight)
    } else if w == "spin l"@ {
        Some(PulseCommand::SpinLeft)
    } else {
        None
    }
}

impl PulseCommand {
    /// Reads a pulse command from its word; `None` for any other text.
    pub fn parse(word: &str) -> (c: Option<PulseCommand>)
        ensures
            c == pulse_command_of_word(word@),
    {
        if same_text(word, "left f") {
            Some(PulseCommand::LeftForward)
        } else if same_text(word, "left b") {
            Some(PulseCommand::LeftBackward)
        } else if same_text(word, "right f") {
            Some(PulseCommand::RightForward)
        } else if same_text(word, "right b") {
            Some(PulseCommand::RightBackward)
        } else if same_text(word, "forward") {
            Some(PulseCommand::Forward)
        } else if same_text(word, "backward") {
            Some(PulseCommand::Backward)
        } else if same_text(word, "spin r") {
            Some(PulseCommand::SpinRight)
        } else if same_text(word, "spin l") {
            Some(PulseCommand::SpinLeft)
        } else {
            None
        }
    }

    /// The word that names this command.
    pub fn word(&self) -> (w: &'static str)
        ensures
            w@ == pulse_command_word(*self),
    {
        match self {
            PulseCommand::LeftForward => "left f",
            PulseCommand::LeftBackward => "left b",
            PulseCommand::RightForward => "right f",
            PulseCommand::RightBackward => "right b",
            PulseCommand::Forward => "forward",
            PulseCommand::Backward => "backward",
            PulseCommand::SpinRight => "spin r",
            PulseCommand::SpinLeft => "spin l",
        }
    }
}

/// Reading back the word of a pulse command gives the same command.
pub proof fn lemma_pulse_word_round_trip(c: PulseCommand)
    ensures
        pulse_command_of_word(pulse_command_word(c)) == Some(c),
{
    reveal_strlit("left f");
    reveal_strlit("left b");
    reveal_strlit("right f");
    reveal_strlit("right b");
    reveal_strlit("forward");
    reveal_strlit("backward");
    reveal_strlit("spin r");
    reveal_strlit("spin l");
    assert("spin r"@[5] != "spin l"@[5]);
    assert("left f"@[5] != "left b"@[5]);
    assert("right f"@[6] != "right b"@[6]);
    assert("left f"@[0] != "spin l"@[0] && "left f"@[0] != "spin r"@[0]);
    assert("left b"@[0] != "spin l"@[0] && "left b"@[0] != "spin r"@[0]);
    assert("forward"@.len() == 7 && "backward"@.len() == 8 && "right f"@.len() == 7);
    assert("right f"@[0] != "forward"@[0] && "right b"@[0] != "forward"@[0]);
    assert("left f"@.len() == 6 && "spin r"@.len() == 6 && "right b"@.len() == 7);
}

/// Law: the words are spelled as the robots' operators type them.
pub proof fn lemma_words_spelled(d: DriveCommand, p: PulseCommand)
    ensures
        drive_command_word(d) == match d {
            DriveCommand::Idle => "idle"@,
            DriveCommand::Forward => "forward"@,
            DriveCommand::Backward => "backward"@,
            DriveCommand::SpinRight => "spin r"@,
            DriveCommand::SpinLeft => "spin l"@,
        },
        pulse_command_word(p) == match p {
            PulseCommand::LeftForward => "left f"@,
            PulseCommand::LeftBackward => "left b"@,
            PulseCommand::RightForward => "right f"@,
            PulseCommand::RightBackward => "right b"@,
            PulseCommand::Forward => "forward"@,
            PulseCommand::Backward => "backward"@,
            PulseCommand::SpinRight => "spin r"@,
            PulseCommand::SpinLeft => "spin l"@,
        },
{
}

} // verus!
