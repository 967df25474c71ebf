//! Laws that tie the programs together: the keyboard, the network and the
//! timed-pulse robots read the same movements the same way.

use vstd::prelude::*;
use crate::commands::{DriveCommand, PulseCommand, drive_command_of_word, drive_command_word, lemma_drive_word_round_trip, pulse_command_of_word};
use crate::console::{ShellStep, shell_step_spec};
use crate::drive::{LEFT_BACKWARD, LEFT_FORWARD, RIGHT_BACKWARD, RIGHT_FORWARD, WheelLevels, drive_command_levels};
use crate::keyboard::{KeyboardInput, KeyboardStep, keyboard_step_spec};
use crate::pulse::{PulsePins, pulse_pins_spec};
use crate::remote::{DrivePoll, drive_poll_spec};
use crate::text::trimmed;

verus! {

/// The wheel levels while a pulse holds its inputs high, starting from all
/// inputs low.
pub open spec fn pulse_levels(p: PulsePins) -> WheelLevels {
    let raised = |g: u8| match p {
        PulsePins::One(a) => g == a,
        PulsePins::Two(a, b) => g == a || g == b,
    };
    WheelLevels {
        left_forward: raised(LEFT_FORWARD),
        left_backward: raised(LEFT_BACKWARD),
        right_forward: raised(RIGHT_FORWARD),
        right_backward: raised(RIGHT_BACKWARD),
    }
}

/// Which way each wheel turns for a pulse command, read from the command's
/// meaning: a one-wheel command turns that wheel only, in its direction;
/// forward and backward turn both wheels that way; a spin turns the wheels
/// opposite ways (spin right: left wheel forward, right wheel backward).
pub open spec fn pulse_motion(c: PulseCommand) -> WheelLevels {
    WheelLevels {
        left_forward: c == PulseCommand::LeftForward || c == PulseCommand::Forward
            || c == PulseCommand::SpinRight,
        left_backward: c == PulseCommand::LeftBackward || c == PulseCommand::Backward
            || c == PulseCommand::SpinLeft,
        right_forward: c == PulseCommand::RightForward || c == PulseCommand::Forward
            || c == PulseCommand::SpinLeft,
        right_backward: c == PulseCommand::RightBackward || c == PulseCommand::Backward
            || c == PulseCommand::SpinRight,
    }
}

/// Law: every pulse raises exactly the inputs its command names: a
/// one-wheel pulse raises that wheel's input for its direction and nothing
/// else, and a two-wheel pulse turns each wheel the way the command says.
pub proof fn lemma_pulse_raises_what_it_names(c: PulseCommand)
    ensures
        pulse_levels(pulse_pins_spec(c)) == pulse_motion(c),
{
}

/// Law: every movement key of the keyboard controller is a movement that
/// the network robot also knows by a word, and the two perform the same
/// writes; no key makes the keyboard controller idle.
pub proof fn lemma_keys_match_words(input: KeyboardInput, c: DriveCommand)
    requires
        keyboard_step_spec(input) == KeyboardStep::Move(c),
    ensures
        c != DriveCommand::Idle,
        drive_poll_spec(drive_command_word(c)) == DrivePoll::Drive(c),
{
    lemma_drive_word_round_trip(c);
}

/// Law: the words that both vocabularies share ("forward", "backward",
/// "spin r", "spin l") move the wheels the same way, whether the timed-pulse
/// robot or the continuously driven robot reads them.
pub proof fn lemma_shared_words_agree(w: Seq<char>, p: PulseCommand, d: DriveCommand)
    requires
        pulse_command_of_word(w) == Some(p),
        drive_command_of_word(w) == Some(d),
    ensures
        pulse_levels(pulse_pins_spec(p)) == drive_command_levels(d),
{
    reveal_strlit("left f");
    reveal_strlit("left b");
    reveal_strlit("right f");
    reveal_strlit("right b");
    reveal_strlit("forward");
    reveal_strlit("backward");
    reveal_strlit("spin r");
    reveal_strlit("spin l");
    reveal_strlit("idle");
    assert("spin r"@[5] != "spin l"@[5]);
    assert("left f"@[0] != "idle"@[0] && "right f"@[0] != "idle"@[0]);
    assert("forward"@.len() == 7 && "backward"@.len() == 8 && "idle"@.len() == 4);
    assert("spin r"@.len() == 6 && "spin l"@.len() == 6 && "left f"@.len() == 6);
    assert("right f"@.len() == 7 && "right b"@.len() == 7 && "left b"@.len() == 6);
    assert("left f"@[0] != "spin r"@[0] && "left b"@[0] != "spin r"@[0]);
    assert("right f"@[0] != "forward"@[0] && "right b"@[0] != "forward"@[0]);
}

/// Law: the shell treats a line as blank exactly when nothing is left of
/// it after trimming.
pub proof fn lemma_blank_exactly_when_empty(line: Seq<char>)
    ensures
        (shell_step_spec(line) == ShellStep::Blank) == (trimmed(line).len() == 0),
{
    reveal_strlit("left f");
    reveal_strlit("left b");
    reveal_strlit("right f");
    reveal_strlit("right b");
    reveal_strlit("forward");
    reveal_strlit("backward");
    reveal_strlit("spin r");
    reveal_strlit("spin l");
}

} // verus!
