//! The wheeled robot's timed pulses: each command raises one or two motor
//! inputs for a second.

use vstd::prelude::*;
use crate::commands::PulseCommand;
use crate::drive::{LEFT_BACKWARD, LEFT_FORWARD, RIGHT_BACKWARD, RIGHT_FORWARD};

verus! {

/// How long a pulse keeps its inputs high, in milliseconds.
pub const PULSE_MS: u64 = 1000;

/// The GPIO inputs that a pulse raises.
#[derive(Clone, Copy, Debug, PartialEq, Eq, Structural)]
pub enum PulsePins {
    One(u8),
    Two(u8, u8),
}

pub open spec fn pulse_pins_spec(c: PulseCommand) -> PulsePins {
    match c {
        PulseCommand::LeftForward => PulsePins::One(LEFT_FORWARD),
        PulseCommand::LeftBackward => PulsePins::One(LEFT_BACKWARD),
        PulseCommand::RightForward => PulsePins::One(RIGHT_FORWARD),
        PulseCommand::RightBackward => PulsePins::One(RIGHT_BACKWARD),
        PulseCommand::Forward => PulsePins::Two(LEFT_FORWARD, RIGHT_FORWARD),
        PulseCommand::Backward => PulsePins::Two(LEFT_BACKWARD, RIGHT_BACKWARD),
        PulseCommand::SpinRight => PulsePins::Two(LEFT_FORWARD, RIGHT_BACKWARD),
        PulseCommand::SpinLeft => PulsePins::Two(LEFT_BACKWARD, RIGHT_FORWARD),
    }
}

/// The inputs a pulse command raises.
pub fn pulse_pins(c: PulseCommand) -> (p: PulsePins)
    ensures
        p == pulse_pins_spec(c),
{
    match c {
        PulseCommand::LeftForward => PulsePins::One(LEFT_FORWARD),
        PulseCommand::LeftBackward => PulsePins::One(LEFT_BACKWARD),
        PulseCommand::RightForward => PulsePins::One(RIGHT_FORWARD),
        PulseCommand::RightBackward => PulsePins::One(RIGHT_BACKWARD),
        PulseCommand::Forward => PulsePins::Two(LEFT_FORWARD, RIGHT_FORWARD),
        PulseCommand::Backward => PulsePins::Two(LEFT_BACKWARD, RIGHT_BACKWARD),
        PulseCommand::SpinRight => PulsePins::Two(LEFT_FORWARD, RIGHT_BACKWARD),
        PulseCommand::SpinLeft => PulsePins::Two(LEFT_BACKWARD, RIGHT_FORWARD),
    }
}

/// What becomes of a pulse once the inputs have been requested.
#[derive(Clone, Copy, Debug, PartialEq, Eq, Structural)]
pub enum PulseOutcome {
    /// Every input was granted: raise them and hold for a second.
    Raise(PulsePins),
    /// This input could not be acquired: report it, raise nothing.
    Unavailable(u8),
}

pub open spec fn pulse_outcome_spec(p: PulsePins, first_ok: bool, second_ok: bool) -> PulseOutcome {
    match p {
        PulsePins::One(a) => if first_ok {
            PulseOutcome::Raise(p)
        } else {
            PulseOutcome::Unavailable(a)
        },
        PulsePins::Two(a, b) => if !first_ok {
            PulseOutcome::Unavailable(a)
        } else if !second_ok {
            PulseOutcome::Unavailable(b)
        } else {
            PulseOutcome::Raise(p)
        },
    }
}

/// Decides the pulse from which inputs were granted. `first_ok` says whether
/// the first input was granted and `second_ok` the second (unused for a
/// single input). When both fail, the first is reported.
pub fn pulse_outcome(p: PulsePins, first_ok: bool, second_ok: bool) -> (o: PulseOutcome)
    ensures
        o == pulse_outcome_spec(p, first_ok, second_ok),
{
    match p {
        PulsePins::One(a) => {
            if first_ok {
                PulseOutcome::Raise(p)
            } else {
                PulseOutcome::Unavailable(a)
            }
        },
        PulsePins::Two(a, b) => {
            if !first_ok {
                PulseOutcome::Unavailable(a)
            } else if !second_ok {
                PulseOutcome::Unavailable(b)
            } else {
                PulseOutcome::Raise(p)
            }
        },
    }
}

/// The two inputs of one wheel.
pub open spec fn same_wheel(a: u8, b: u8) -> bool {
    ||| (a == LEFT_FORWARD && b == LEFT_BACKWARD)
    ||| (a == LEFT_BACKWARD && b == LEFT_FORWARD)
    ||| (a == RIGHT_FORWARD && b == RIGHT_BACKWARD)
    ||| (a == RIGHT_BACKWARD && b == RIGHT_FORWARD)
}

/// Law: no pulse raises both inputs of one wheel, and a two-input pulse
/// raises two different inputs, one of each wheel.
pub proof fn lemma_pulse_never_shoots_through(c: PulseCommand)
    ensures
        pulse_pins_spec(c) matches PulsePins::Two(a, b) ==> {
            &&& a != b
            &&& !same_wheel(a, b)
            &&& (a == LEFT_FORWARD || a == LEFT_BACKWARD)
            &&& (b == RIGHT_FORWARD || b == RIGHT_BACKWARD)
        },
{
}

/// Law: a pulse raises its inputs exactly when every input it names was
/// granted; otherwise it reports an input of the pulse that was refused,
/// the first one when both were.
pub proof fn lemma_pulse_outcome_meaning(p: PulsePins, first_ok: bool, second_ok: bool)
    ensures
        ({
            let o = pulse_outcome_spec(p, first_ok, second_ok);
            let all_granted = match p {
                PulsePins::One(_) => first_ok,
                PulsePins::Two(_, _) => first_ok && second_ok,
            };
            &&& (o == PulseOutcome::Raise(p)) == all_granted
            &&& o matches PulseOutcome::Raise(q) ==> q == p
            &&& o matches PulseOutcome::Unavailable(g) ==> match p {
                PulsePins::One(a) => g == a && !first_ok,
                PulsePins::Two(a, b) => (g == a && !first_ok) || (g == b && first_ok && !second_ok),
            }
        }),
{
}

} // verus!
