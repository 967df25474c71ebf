//! Pin sequencing for the two-wheeled robot whose wheels each have a
//! forward and a backward pin on an H-bridge motor driver. The robot is
//! driven from the keyboard, or by the reports it polls from the joystick
//! server of the raptor controller.
//!
//! Every command is a list of pin writes performed in order. A wheel must
//! never have both of its pins high at once, not even between two writes,
//! so each command lowers the opposing pins before it raises any pin.

use vstd::prelude::*;
use crate::commands::DriveCommand;

verus! {

/// GPIO pin of the left wheel's forward input.
pub const LEFT_FORWARD: u8 = 27;
/// GPIO pin of the left wheel's backward input.
pub const LEFT_BACKWARD: u8 = 19;
/// GPIO pin of the right wheel's forward input.
pub const RIGHT_FORWARD: u8 = 18;
/// GPIO pin of the right wheel's backward input.
pub const RIGHT_BACKWARD: u8 = 24;

/// One of the four motor driver inputs.
#[derive(Clone, Copy, Debug, PartialEq, Eq, Structural)]
pub enum WheelPin {
    LeftForward,
    LeftBackward,
    RightForward,
    RightBackward,
}

pub open spec fn wheel_pin_gpio(p: WheelPin) -> u8 {
    match p {
        WheelPin::LeftForward => LEFT_FORWARD,
        WheelPin::LeftBackward => LEFT_BACKWARD,
        WheelPin::RightForward => RIGHT_FORWARD,
        WheelPin::RightBackward => RIGHT_BACKWARD,
    }
}

impl WheelPin {
    /// The GPIO number wired to this input.
    pub fn gpio(&self) -> (n: u8)
        ensures
            n == wheel_pin_gpio(*self),
    {
        match self {
            WheelPin::LeftForward => LEFT_FORWARD,
            WheelPin::LeftBackward => LEFT_BACKWARD,
            WheelPin::RightForward => RIGHT_FORWARD,
            WheelPin::RightBackward => RIGHT_BACKWARD,
        }
    }
}

/// Drive `pin` high (`true`) or low (`false`).
#[derive(Clone, Copy, Debug, PartialEq, Eq, Structural)]
pub struct PinWrite {
    pub pin: WheelPin,
    pub high: bool,
}

/// The levels of the four inputs; `true` is high.
#[derive(Clone, Copy, Debug, PartialEq, Eq, Structural)]
pub struct WheelLevels {
    pub left_forward: bool,
    pub left_backward: bool,
    pub right_forward: bool,
    pub right_backward: bool,
}

/// All four inputs low.
pub open spec fn all_low() -> WheelLevels {
    WheelLevels { left_forward: false, left_backward: false, right_forward: false, right_backward: false }
}

/// The levels after one write.
pub open spec fn after_write(s: WheelLevels, w: PinWrite) -> WheelLevels {
    match w.pin {
        WheelPin::LeftForward => WheelLevels { left_forward: w.high, ..s },
        WheelPin::LeftBackward => WheelLevels { left_backward: w.high, ..s },
        WheelPin::RightForward => WheelLevels { right_forward: w.high, ..s },
        WheelPin::RightBackward => WheelLevels { right_backward: w.high, ..s },
    }
}

/// The levels after performing `ws` in order, starting from `s`.
pub open spec fn after_writes(s: WheelLevels, ws: Seq<PinWrite>) -> WheelLevels
    decreases ws.len(),
{
    if ws.len() == 0 {
        s
    } else {
        after_write(after_writes(s, ws.drop_last()), ws.last())
    }
}

/// No wheel is driven forward and backward at the same time.
pub open spec fn no_shoot_through(s: WheelLevels) -> bool {
    &&& !(s.left_forward && s.left_backward)
    &&& !(s.right_forward && s.right_backward)
}

pub open spec fn low(p: WheelPin) -> PinWrite {
    PinWrite { pin: p, high: false }
}

pub open spec fn high(p: WheelPin) -> PinWrite {
    PinWrite { pin: p, high: true }
}

/// The writes of each driving command, in the order they are performed.
pub open spec fn drive_command_writes(c: DriveCommand) -> Seq<PinWrite> {
    match c {
        DriveCommand::Idle => seq![
            low(WheelPin::LeftBackward),
            low(WheelPin::RightBackward),
            low(WheelPin::LeftForward),
            low(WheelPin::RightForward),
        ],
        DriveCommand::Forward => seq![
            low(WheelPin::LeftBackward),
            low(WheelPin::RightBackward),
            high(WheelPin::LeftForward),
            high(WheelPin::RightForward),
        ],
        DriveCommand::Backward => seq![
            low(WheelPin::LeftForward),
            low(WheelPin::RightForward),
            high(WheelPin::LeftBackward),
            high(WheelPin::RightBackward),
        ],
        DriveCommand::SpinRight => seq![
            low(WheelPin::RightForward),
            low(WheelPin::LeftBackward),
            high(WheelPin::RightBackward),
            high(WheelPin::LeftForward),
        ],
        DriveCommand::SpinLeft => seq![
            low(WheelPin::LeftForward),
            low(WheelPin::RightBackward),
            high(WheelPin::LeftBackward),
            high(WheelPin::RightForward),
        ],
    }
}

/// The writes that let the robot coast when no key is pressed.
pub open spec fn release_writes_spec() -> Seq<PinWrite> {
    seq![
        low(WheelPin::LeftForward),
        low(WheelPin::LeftBackward),
        low(WheelPin::RightForward),
        low(WheelPin::RightBackward),
    ]
}

/// The levels that a driving command leaves behind.
pub open spec fn drive_command_levels(c: DriveCommand) -> WheelLevels {
    match c {
        DriveCommand::Idle => all_low(),
        DriveCommand::Forward => WheelLevels {
            left_forward: true, left_backward: false, right_forward: true, right_backward: false },
        DriveCommand::Backward => WheelLevels {
            left_forward: false, left_backward: true, right_forward: false, right_backward: true },
        DriveCommand::SpinRight => WheelLevels {
            left_forward: true, left_backward: false, right_forward: false, right_backward: true },
        DriveCommand::SpinLeft => WheelLevels {
            left_forward: false, left_backward: true, right_forward: true, right_backward: false },
    }
}

fn write_low(p: WheelPin) -> (w: PinWrite)
    ensures
        w == low(p),
{
    PinWrite { pin: p, high: false }
}

fn write_high(p: WheelPin) -> (w: PinWrite)
    ensures
        w == high(p),
{
    PinWrite { pin: p, high: true }
}

/// The pin writes that carry out a driving command.
pub fn drive_writes(c: DriveCommand) -> (ws: Vec<PinWrite>)
    ensures
        ws@ == drive_command_writes(c),
{
    let ws = match c {
        DriveCommand::Idle => vec![
            write_low(WheelPin::LeftBackward),
            write_low(WheelPin::RightBackward),
            write_low(WheelPin::LeftForward),
            write_low(WheelPin::RightForward),
        ],
        DriveCommand::Forward => vec![
            write_low(WheelPin::LeftBackward),
            write_low(WheelPin::RightBackward),
            write_high(WheelPin::LeftForward),
            write_high(WheelPin::RightForward),
        ],
        DriveCommand::Backward => vec![
            write_low(WheelPin::LeftForward),
            write_low(WheelPin::RightForward),
            write_high(WheelPin::LeftBackward),
            write_high(WheelPin::RightBackward),
        ],
        DriveCommand::SpinRight => vec![
            write_low(WheelPin::RightForward),
            write_low(WheelPin::LeftBackward),
            write_high(WheelPin::RightBackward),
            write_high(WheelPin::LeftForward),
        ],
        DriveCommand::SpinLeft => vec![
            write_low(WheelPin::LeftForward),
            write_low(WheelPin::RightBackward),
            write_high(WheelPin::LeftBackward),
            write_high(WheelPin::RightForward),
        ],
    };
    assert(ws@ =~= drive_command_writes(c));
    ws
}

/// The pin writes that release every input, in the keyboard controller's order.
pub fn release_writes() -> (ws: Vec<PinWrite>)
    ensures
        ws@ == release_writes_spec(),
{
    let ws = vec![
        write_low(WheelPin::LeftForward),
        write_low(WheelPin::LeftBackward),
        write_low(WheelPin::RightForward),
        write_low(WheelPin::RightBackward),
    ];
    assert(ws@ =~= release_writes_spec());
    ws
}

proof fn lemma_after_writes_4(s: WheelLevels, ws: Seq<PinWrite>)
    requires
        ws.len() == 4,
    ensures
        after_writes(s, ws.take(0)) == s,
        after_writes(s, ws.take(1)) == after_write(s, ws[0]),
        after_writes(s, ws.take(2)) == after_write(after_write(s, ws[0]), ws[1]),
        after_writes(s, ws.take(3)) == after_write(after_write(after_write(s, ws[0]), ws[1]), ws[2]),
        after_writes(s, ws.take(4)) == after_write(
            after_write(after_write(after_write(s, ws[0]), ws[1]), ws[2]),
            ws[3],
        ),
        after_writes(s, ws) == after_writes(s, ws.take(4)),
{
    assert(ws.take(4) =~= ws);
    assert(ws.take(4).drop_last() =~= ws.take(3));
    assert(ws.take(3).drop_last() =~= ws.take(2));
    assert(ws.take(2).drop_last() =~= ws.take(1));
    assert(ws.take(1).drop_last() =~= ws.take(0));
    assert(after_writes(s, ws.take(0)) == s);
    assert(after_writes(s, ws.take(1)) == after_write(s, ws[0]));
}

/// Law: started from levels where no wheel is driven both ways, every
/// driving command keeps every wheel out of shoot-through after each of its
/// writes, and ends at the levels that the command names, whatever the
/// levels before it.
pub proof fn lemma_drive_writes_safe(s: WheelLevels, c: DriveCommand)
    requires
        no_shoot_through(s),
    ensures
        forall|k: int|
            0 <= k <= drive_command_writes(c).len() ==> no_shoot_through(
                #[trigger] after_writes(s, drive_command_writes(c).take(k)),
            ),
        after_writes(s, drive_command_writes(c)) == drive_command_levels(c),
{
    lemma_after_writes_4(s, drive_command_writes(c));
}

/// Law: releasing the keys passes only through safe levels and ends with
/// every input low, whatever the levels before it.
pub proof fn lemma_release_writes_safe(s: WheelLevels)
    requires
        no_shoot_through(s),
    ensures
        forall|k: int|
            0 <= k <= release_writes_spec().len() ==> no_shoot_through(
                #[trigger] after_writes(s, release_writes_spec().take(k)),
            ),
        after_writes(s, release_writes_spec()) == all_low(),
{
    lemma_after_writes_4(s, release_writes_spec());
}

/// Law: what each driving command leaves the wheels doing, read from the
/// writes themselves. Forward turns both wheels forward, backward both
/// backward, spin right turns the left wheel forward and the right wheel
/// backward, spin left the other way round, and idle leaves every input
/// low; whatever the levels were before.
pub proof fn lemma_drive_command_meaning(s: WheelLevels, c: DriveCommand)
    requires
        no_shoot_through(s),
    ensures
        after_writes(s, drive_command_writes(c)).left_forward == (c == DriveCommand::Forward
            || c == DriveCommand::SpinRight),
        after_writes(s, drive_command_writes(c)).left_backward == (c == DriveCommand::Backward
            || c == DriveCommand::SpinLeft),
        after_writes(s, drive_command_writes(c)).right_forward == (c == DriveCommand::Forward
            || c == DriveCommand::SpinLeft),
        after_writes(s, drive_command_writes(c)).right_backward == (c == DriveCommand::Backward
            || c == DriveCommand::SpinRight),
{
    lemma_drive_writes_safe(s, c);
}

/// Law: every driving command writes each of the four inputs exactly once.
pub proof fn lemma_drive_writes_each_input_once(c: DriveCommand, p: WheelPin)
    ensures
        drive_command_writes(c).len() == 4,
        exists|i: int| 0 <= i < 4 && (#[trigger] drive_command_writes(c)[i]).pin == p,
        forall|i: int, j: int| 0 <= i < j < 4 ==> drive_command_writes(c)[i].pin != drive_command_writes(c)[j].pin,
{
    let ws = drive_command_writes(c);
    if ws[0].pin == p {
        assert(ws[0].pin == p);
    } else if ws[1].pin == p {
        assert(ws[1].pin == p);
    } else if ws[2].pin == p {
        assert(ws[2].pin == p);
    } else {
        assert(ws[3].pin == p);
    }
}

} // verus!
