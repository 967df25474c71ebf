//! The keyboard controller: while a movement key is held the robot moves,
//! and when no key event arrives within the polling window it coasts.

use vstd::prelude::*;
use crate::commands::DriveCommand;

verus! {

/// How long the controller waits for a key event before it releases the
/// motors, in milliseconds.
pub const POLL_WINDOW_MS: u64 = 100;

/// A pressed key.
#[derive(Clone, Copy, Debug, PartialEq, Eq, Structural)]
pub enum KeyPress {
    /// A key that types a character.
    Char(char),
    /// Any other key (arrows, function keys, ...).
    Other,
}

/// What one poll of the terminal yields.
#[derive(Clone, Copy, Debug, PartialEq, Eq, Structural)]
pub enum KeyboardInput {
    /// A key event arrived.
    Key(KeyPress),
    /// Some other terminal event arrived (mouse, resize, focus, paste).
    NonKeyEvent,
    /// Nothing arrived within the polling window.
    Timeout,
}

/// What the controller does in response.
#[derive(Clone, Copy, Debug, PartialEq, Eq, Structural)]
pub enum KeyboardStep {
    /// Leave the control loop.
    Quit,
    /// Carry out a driving command.
    Move(DriveCommand),
    /// Set every motor input low.
    Release,
    /// Tell the user the key means nothing.
    Complain,
    /// Do nothing.
    Ignore,
}

pub open spec fn keyboard_step_spec(input: KeyboardInput) -> KeyboardStep {
    match input {
        KeyboardInput::Timeout => KeyboardStep::Release,
        KeyboardInput::NonKeyEvent => KeyboardStep::Ignore,
        KeyboardInput::Key(KeyPress::Other) => KeyboardStep::Complain,
        KeyboardInput::Key(KeyPress::Char(c)) => if c == 'q' {
            KeyboardStep::Quit
        } else if c == 'i' {
            KeyboardStep::Move(DriveCommand::Forward)
        } else if c == 'k' {
            KeyboardStep::Move(DriveCommand::Backward)
        } else if c == 'j' {
            KeyboardStep::Move(DriveCommand::SpinLeft)
        } else if c == 'l' {
            KeyboardStep::Move(DriveCommand::SpinRight)
        } else {
            KeyboardStep::Complain
        },
    }
}

/// Decides the controller's response to one poll: `q` quits, `i`/`k` drive
/// forward/backward, `j`/`l` spin left/right, other keys are complained
/// about, other events are ignored and a quiet window releases the motors.
pub fn keyboard_step(input: KeyboardInput) -> (step: KeyboardStep)
    ensures
        step == keyboard_step_spec(input),
        input matches KeyboardInput::Key(KeyPress::Char(c)) ==> (c != 'q' && c != 'i' && c != 'k'
            && c != 'j' && c != 'l' ==> step == KeyboardStep::Complain),
{
    match input {
        KeyboardInput::Timeout => KeyboardStep::Release,
        KeyboardInput::NonKeyEvent => KeyboardStep::Ignore,
        KeyboardInput::Key(KeyPress::Other) => KeyboardStep::Complain,
        KeyboardInput::Key(KeyPress::Char(c)) => {
            if c == 'q' {
                KeyboardStep::Quit
            } else if c == 'i' {
                KeyboardStep::Move(DriveCommand::Forward)
            } else if c == 'k' {
                KeyboardStep::Move(DriveCommand::Backward)
            } else if c == 'j' {
                KeyboardStep::Move(DriveCommand::SpinLeft)
            } else if c == 'l' {
                KeyboardStep::Move(DriveCommand::SpinRight)
            } else {
                KeyboardStep::Complain
            }
        },
    }
}

/// Law: only the five bound characters act, each in its one way. `q`
/// quits, `i` drives forward, `k` backward, `j` spins left and `l` spins
/// right; every other character and every other key is complained about;
/// a quiet window releases the motors and any other event does nothing.
pub proof fn lemma_only_bound_keys_act(input: KeyboardInput)
    ensures
        keyboard_step_spec(input) == KeyboardStep::Quit <==> input == KeyboardInput::Key(KeyPress::Char('q')),
        keyboard_step_spec(input) == KeyboardStep::Move(DriveCommand::Forward)
            <==> input == KeyboardInput::Key(KeyPress::Char('i')),
        keyboard_step_spec(input) == KeyboardStep::Move(DriveCommand::Backward)
            <==> input == KeyboardInput::Key(KeyPress::Char('k')),
        keyboard_step_spec(input) == KeyboardStep::Move(DriveCommand::SpinLeft)
            <==> input == KeyboardInput::Key(KeyPress::Char('j')),
        keyboard_step_spec(input) == KeyboardStep::Move(DriveCommand::SpinRight)
            <==> input == KeyboardInput::Key(KeyPress::Char('l')),
        keyboard_step_spec(input) != KeyboardStep::Move(DriveCommand::Idle),
        keyboard_step_spec(input) == KeyboardStep::Release <==> input == KeyboardInput::Timeout,
        keyboard_step_spec(input) == KeyboardStep::Ignore <==> input == KeyboardInput::NonKeyEvent,
        keyboard_step_spec(input) == KeyboardStep::Complain <==> (match input {
            KeyboardInput::Key(KeyPress::Other) => true,
            KeyboardInput::Key(KeyPress::Char(c)) => c != 'q' && c != 'i' && c != 'k' && c != 'j'
                && c != 'l',
            _ => false,
        }),
{
}

} // verus!
