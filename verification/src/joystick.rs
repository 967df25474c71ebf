//! The joystick command server turns a game pad's sticks into driving
//! commands: the right stick's horizontal axis spins the robot, the left
//! stick's vertical axis drives it, and whichever is pushed further from
//! the centre wins.

use vstd::prelude::*;
use crate::commands::{DriveCommand, drive_command_of_word, drive_command_word, lemma_drive_word_round_trip};

verus! {

/// The axis value of a stick at rest.
pub const STICK_CENTER: i32 = 128;

/// An event read from the game pad.
#[derive(Clone, Copy, Debug, PartialEq, Eq, Structural)]
pub enum PadEvent {
    /// The right stick's horizontal axis moved to this value.
    RightStickX(i32),
    /// The left stick's vertical axis moved to this value.
    LeftStickY(i32),
    /// Any other event (buttons, other axes, sync reports).
    Other,
}

/// The distance of an axis value from the centre.
pub open spec fn displacement(v: int) -> int {
    if v - 128 < 0 { 128 - v } else { v - 128 }
}

/// An axis value whose distance from the centre fits in an `i32`.
pub open spec fn axis_in_range(v: i32) -> bool {
    v > i32::MIN + 128
}

/// The command for the given right-stick x and left-stick y.
pub open spec fn stick_command_spec(x: int, y: int) -> DriveCommand {
    let dx = displacement(x);
    let dy = displacement(y);
    if dx > dy {
        if x < 128 { DriveCommand::SpinLeft } else { DriveCommand::SpinRight }
    } else if dy > dx {
        if y < 128 { DriveCommand::Forward } else { DriveCommand::Backward }
    } else {
        DriveCommand::Idle
    }
}

/// `|v - 128|`, as the server computes it.
fn distance_from_center(v: i32) -> (d: i32)
    requires
        axis_in_range(v),
    ensures
        d == displacement(v as int),
{
    let d = v - STICK_CENTER;
    if d < 0 {
        -d
    } else {
        d
    }
}

/// The command for the given right-stick x and left-stick y.
pub fn stick_command(x: i32, y: i32) -> (c: DriveCommand)
    requires
        axis_in_range(x),
        axis_in_range(y),
    ensures
        c == stick_command_spec(x as int, y as int),
{
    let x_displacement = distance_from_center(x);
    let y_displacement = distance_from_center(y);
    if x_displacement > y_displacement {
        if x < STICK_CENTER {
            DriveCommand::SpinLeft
        } else {
            DriveCommand::SpinRight
        }
    } else if y_displacement > x_displacement {
        if y < STICK_CENTER {
            DriveCommand::Forward
        } else {
            DriveCommand::Backward
        }
    } else {
        DriveCommand::Idle
    }
}

/// The last known position of the two axes that steer the robot.
#[derive(Clone, Copy, Debug, PartialEq, Eq, Structural)]
pub struct StickState {
    /// Right stick, horizontal.
    pub x: i32,
    /// Left stick, vertical.
    pub y: i32,
}

/// The event carries a value that can be stored without overflow later.
pub open spec fn pad_event_in_range(ev: PadEvent) -> bool {
    match ev {
        PadEvent::RightStickX(v) => axis_in_range(v),
        PadEvent::LeftStickY(v) => axis_in_range(v),
        PadEvent::Other => true,
    }
}

/// The position after an event.
pub open spec fn stick_after(s: StickState, ev: PadEvent) -> StickState {
    match ev {
        PadEvent::RightStickX(v) => StickState { x: v, ..s },
        PadEvent::LeftStickY(v) => StickState { y: v, ..s },
        PadEvent::Other => s,
    }
}

impl StickState {
    pub open spec fn in_range(&self) -> bool {
        axis_in_range(self.x) && axis_in_range(self.y)
    }

    /// Both sticks at rest.
    pub fn centered() -> (s: StickState)
        ensures
            s.x == STICK_CENTER,
            s.y == STICK_CENTER,
    {
        StickState { x: STICK_CENTER, y: STICK_CENTER }
    }

    /// Records an event and returns the command for the new position; every
    /// event, whatever its kind, yields a command.
    pub fn apply(&mut self, ev: PadEvent) -> (c: DriveCommand)
        requires
            old(self).in_range(),
            pad_event_in_range(ev),
        ensures
            *final(self) == stick_after(*old(self), ev),
            ev == PadEvent::Other ==> *final(self) == *old(self),
            ev matches PadEvent::RightStickX(v) ==> final(self).x == v && final(self).y == old(self).y,
            ev matches PadEvent::LeftStickY(v) ==> final(self).y == v && final(self).x == old(self).x,
            final(self).in_range(),
            c == stick_command_spec(final(self).x as int, final(self).y as int),
    {
        match ev {
            PadEvent::RightStickX(v) => self.x = v,
            PadEvent::LeftStickY(v) => self.y = v,
            PadEvent::Other => {},
        }
        stick_command(self.x, self.y)
    }
}

/// Law: an event that is neither the right stick's x nor the left stick's
/// y leaves the recorded position as it was, so the command it yields is
/// the command of the position before it; an axis event changes its own
/// axis only, to the event's value.
pub proof fn lemma_events_touch_only_their_axis(s: StickState, v: i32)
    ensures
        stick_after(s, PadEvent::Other) == s,
        stick_after(s, PadEvent::Other).x == s.x && stick_after(s, PadEvent::Other).y == s.y,
        stick_after(s, PadEvent::RightStickX(v)).x == v,
        stick_after(s, PadEvent::RightStickX(v)).y == s.y,
        stick_after(s, PadEvent::LeftStickY(v)).y == v,
        stick_after(s, PadEvent::LeftStickY(v)).x == s.x,
{
}

/// Law: what each command means in terms of the two sticks. The robot
/// spins toward the side the spin stick leans to when that stick is further
/// from the centre, drives the way the drive stick leans (up, below the
/// centre value, is forward) when that one is further, and idles on a tie.
pub proof fn lemma_stick_command_meaning(x: int, y: int)
    ensures
        (stick_command_spec(x, y) == DriveCommand::SpinLeft) == (displacement(x) > displacement(y) && x < 128),
        (stick_command_spec(x, y) == DriveCommand::SpinRight) == (displacement(x) > displacement(y) && x > 128),
        (stick_command_spec(x, y) == DriveCommand::Forward) == (displacement(y) > displacement(x) && y < 128),
        (stick_command_spec(x, y) == DriveCommand::Backward) == (displacement(y) > displacement(x) && y > 128),
        (stick_command_spec(x, y) == DriveCommand::Idle) == (displacement(x) == displacement(y)),
        displacement(x) == if x < 128 { 128 - x } else { x - 128 },
{
}

/// Law: mirroring the spin stick around the centre swaps the two spins and
/// leaves every other command as it was.
pub proof fn lemma_mirror_spin(x: int, y: int)
    ensures
        stick_command_spec(256 - x, y) == match stick_command_spec(x, y) {
            DriveCommand::SpinLeft => DriveCommand::SpinRight,
            DriveCommand::SpinRight => DriveCommand::SpinLeft,
            other => other,
        },
{
}

/// Law: mirroring the drive stick around the centre swaps forward and
/// backward and leaves every other command as it was.
pub proof fn lemma_mirror_drive(x: int, y: int)
    ensures
        stick_command_spec(x, 256 - y) == match stick_command_spec(x, y) {
            DriveCommand::Forward => DriveCommand::Backward,
            DriveCommand::Backward => DriveCommand::Forward,
            other => other,
        },
{
}

/// Law: the robot idles exactly when both sticks are equally far from the
/// centre, in particular when both are at rest.
pub proof fn lemma_idle_exactly_on_tie(x: int, y: int)
    ensures
        (stick_command_spec(x, y) == DriveCommand::Idle) == (displacement(x) == displacement(y)),
        stick_command_spec(128, 128) == DriveCommand::Idle,
{
}

/// Law: every command the joystick server publishes is a word the polling
/// robots understand, and they read back the same command.
pub proof fn lemma_joystick_commands_understood(x: int, y: int)
    ensures
        drive_command_of_word(drive_command_word(stick_command_spec(x, y))) == Some(
            stick_command_spec(x, y),
        ),
{
    lemma_drive_word_round_trip(stick_command_spec(x, y));
}

} // verus!
