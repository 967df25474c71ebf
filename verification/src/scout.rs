//! Pin sequencing for the scout, a car-like robot with a back engine, a
//! front engine and a steering motor, each on its own H-bridge channel. The
//! scout drives by the reports it polls from the joystick server.
//!
//! As with the wheeled robot, every command lowers the opposing input of a
//! channel before it raises one, so that no channel is ever driven both
//! ways, not even between two writes.

use vstd::prelude::*;
use crate::commands::DriveCommand;

verus! {

/// GPIO pin of the back engine's forward input.
pub const BACK_ENGINE_FORWARD: u8 = 27;
/// GPIO pin of the back engine's backward input.
pub const BACK_ENGINE_BACKWARD: u8 = 22;
/// GPIO pin of the front engine's forward input.
pub const FRONT_ENGINE_FORWARD: u8 = 16;
/// GPIO pin of the front engine's backward input.
pub const FRONT_ENGINE_BACKWARD: u8 = 20;
/// GPIO pin that steers left.
pub const DIRECTION_LEFT: u8 = 18;
/// GPIO pin that steers right.
pub const DIRECTION_RIGHT: u8 = 17;

/// One of the six motor driver inputs of the scout.
#[derive(Clone, Copy, Debug, PartialEq, Eq, Structural)]
pub enum ScoutPin {
    BackForward,
    BackBackward,
    FrontForward,
    FrontBackward,
    DirectionLeft,
    DirectionRight,
}

pub open spec fn scout_pin_gpio(p: ScoutPin) -> u8 {
    match p {
        ScoutPin::BackForward => BACK_ENGINE_FORWARD,
        ScoutPin::BackBackward => BACK_ENGINE_BACKWARD,
        ScoutPin::FrontForward => FRONT_ENGINE_FORWARD,
        ScoutPin::FrontBackward => FRONT_ENGINE_BACKWARD,
        ScoutPin::DirectionLeft => DIRECTION_LEFT,
        ScoutPin::DirectionRight => DIRECTION_RIGHT,
    }
}

impl ScoutPin {
    /// The GPIO number wired to this input.
    pub fn gpio(&self) -> (n: u8)
        ensures
            n == scout_pin_gpio(*self),
    {
        match self {
            ScoutPin::BackForward => BACK_ENGINE_FORWARD,
            ScoutPin::BackBackward => BACK_ENGINE_BACKWARD,
            ScoutPin::FrontForward => FRONT_ENGINE_FORWARD,
            ScoutPin::FrontBackward => FRONT_ENGINE_BACKWARD,
            ScoutPin::DirectionLeft => DIRECTION_LEFT,
            ScoutPin::DirectionRight => DIRECTION_RIGHT,
        }
    }
}

/// Drive `pin` high (`true`) or low (`false`).
#[derive(Clone, Copy, Debug, PartialEq, Eq, Structural)]
pub struct ScoutWrite {
    pub pin: ScoutPin,
    pub high: bool,
}

/// The levels of the six inputs; `true` is high.
#[derive(Clone, Copy, Debug, PartialEq, Eq, Structural)]
pub struct ScoutLevels {
    pub back_forward: bool,
    pub back_backward: bool,
    pub front_forward: bool,
    pub front_backward: bool,
    pub direction_left: bool,
    pub direction_right: bool,
}

pub open spec fn scout_after_write(s: ScoutLevels, w: ScoutWrite) -> ScoutLevels {
    match w.pin {
        ScoutPin::BackForward => ScoutLevels { back_forward: w.high, ..s },
        ScoutPin::BackBackward => ScoutLevels { back_backward: w.high, ..s },
        ScoutPin::FrontForward => ScoutLevels { front_forward: w.high, ..s },
        ScoutPin::FrontBackward => ScoutLevels { front_backward: w.high, ..s },
        ScoutPin::DirectionLeft => ScoutLevels { direction_left: w.high, ..s },
        ScoutPin::DirectionRight => ScoutLevels { direction_right: w.high, ..s },
    }
}

/// The levels after performing `ws` in order, starting from `s`.
pub open spec fn scout_after_writes(s: ScoutLevels, ws: Seq<ScoutWrite>) -> ScoutLevels
    decreases ws.len(),
{
    if ws.len() == 0 {
        s
    } else {
        scout_after_write(scout_after_writes(s, ws.drop_last()), ws.last())
    }
}

/// No channel is driven both ways at the same time.
pub open spec fn scout_safe(s: ScoutLevels) -> bool {
    &&& !(s.back_forward && s.back_backward)
    &&& !(s.front_forward && s.front_backward)
    &&& !(s.direction_left && s.direction_right)
}

pub open spec fn rlow(p: ScoutPin) -> ScoutWrite {
    ScoutWrite { pin: p, high: false }
}

pub open spec fn rhigh(p: ScoutPin) -> ScoutWrite {
    ScoutWrite { pin: p, high: true }
}

/// The writes of each driving command, in the order they are performed.
pub open spec fn scout_command_writes(c: DriveCommand) -> Seq<ScoutWrite> {
    match c {
        DriveCommand::Idle => seq![
            rlow(ScoutPin::BackBackward),
            rlow(ScoutPin::BackForward),
            rlow(ScoutPin::FrontBackward),
            rlow(ScoutPin::FrontForward),
            rlow(ScoutPin::DirectionLeft),
            rlow(ScoutPin::DirectionRight),
        ],
        DriveCommand::Forward => seq![
            rlow(ScoutPin::DirectionLeft),
            rlow(ScoutPin::DirectionRight),
            rlow(ScoutPin::BackBackward),
            rlow(ScoutPin::FrontBackward),
            rhigh(ScoutPin::BackForward),
            rhigh(ScoutPin::FrontForward),
        ],
        DriveCommand::Backward => seq![
            rlow(ScoutPin::DirectionLeft),
            rlow(ScoutPin::DirectionRight),
            rlow(ScoutPin::BackForward),
            rlow(ScoutPin::FrontForward),
            rhigh(ScoutPin::BackBackward),
            rhigh(ScoutPin::FrontBackward),
        ],
        DriveCommand::SpinRight => seq![
            rlow(ScoutPin::DirectionLeft),
            rhigh(ScoutPin::DirectionRight),
        ],
        DriveCommand::SpinLeft => seq![
            rlow(ScoutPin::DirectionRight),
            rhigh(ScoutPin::DirectionLeft),
        ],
    }
}

/// The levels a command leaves behind: the engines are set by idle, forward
/// and backward and kept by the spins; the steering is straight after idle,
/// forward and backward and turned by the spins.
pub open spec fn scout_command_levels(s: ScoutLevels, c: DriveCommand) -> ScoutLevels {
    match c {
        DriveCommand::Idle => ScoutLevels {
            back_forward: false, back_backward: false, front_forward: false,
            front_backward: false, direction_left: false, direction_right: false },
        DriveCommand::Forward => ScoutLevels {
            back_forward: true, back_backward: false, front_forward: true,
            front_backward: false, direction_left: false, direction_right: false },
        DriveCommand::Backward => ScoutLevels {
            back_forward: false, back_backward: true, front_forward: false,
            front_backward: true, direction_left: false, direction_right: false },
        DriveCommand::SpinRight => ScoutLevels { direction_left: false, direction_right: true, ..s },
        DriveCommand::SpinLeft => ScoutLevels { direction_left: true, direction_right: false, ..s },
    }
}

fn scout_low(p: ScoutPin) -> (w: ScoutWrite)
    ensures
        w == rlow(p),
{
    ScoutWrite { pin: p, high: false }
}

fn scout_high(p: ScoutPin) -> (w: ScoutWrite)
    ensures
        w == rhigh(p),
{
    ScoutWrite { pin: p, high: true }
}

/// The pin writes that carry out a driving command on the scout.
pub fn scout_writes(c: DriveCommand) -> (ws: Vec<ScoutWrite>)
    ensures
        ws@ == scout_command_writes(c),
{
    let ws = match c {
        DriveCommand::Idle => vec![
            scout_low(ScoutPin::BackBackward),
            scout_low(ScoutPin::BackForward),
            scout_low(ScoutPin::FrontBackward),
            scout_low(ScoutPin::FrontForward),
            scout_low(ScoutPin::DirectionLeft),
            scout_low(ScoutPin::DirectionRight),
        ],
        DriveCommand::Forward => vec![
            scout_low(ScoutPin::DirectionLeft),
            scout_low(ScoutPin::DirectionRight),
            scout_low(ScoutPin::BackBackward),
            scout_low(ScoutPin::FrontBackward),
            scout_high(ScoutPin::BackForward),
            scout_high(ScoutPin::FrontForward),
        ],
        DriveCommand::Backward => vec![
            scout_low(ScoutPin::DirectionLeft),
            scout_low(ScoutPin::DirectionRight),
            scout_low(ScoutPin::BackForward),
            scout_low(ScoutPin::FrontForward),
            scout_high(ScoutPin::BackBackward),
            scout_high(ScoutPin::FrontBackward),
        ],
        DriveCommand::SpinRight => vec![
            scout_low(ScoutPin::DirectionLeft),
            scout_high(ScoutPin::DirectionRight),
        ],
        DriveCommand::SpinLeft => vec![
            scout_low(ScoutPin::DirectionRight),
            scout_high(ScoutPin::DirectionLeft),
        ],
    };
    assert(ws@ =~= scout_command_writes(c));
    ws
}

proof fn lemma_scout_prefix_step(s: ScoutLevels, ws: Seq<ScoutWrite>, k: int)
    requires
        0 <= k < ws.len(),
    ensures
        scout_after_writes(s, ws.take(k + 1)) == scout_after_write(
            scout_after_writes(s, ws.take(k)),
            ws[k],
        ),
{
    assert(ws.take(k + 1).drop_last() =~= ws.take(k));
}

/// Law: started from levels where no channel is driven both ways, every
/// driving command keeps every channel out of shoot-through after each of
/// its writes, and ends at the levels that the command names.
pub proof fn lemma_scout_writes_safe(s: ScoutLevels, c: DriveCommand)
    requires
        scout_safe(s),
    ensures
        forall|k: int|
            0 <= k <= scout_command_writes(c).len() ==> scout_safe(
                #[trigger] scout_after_writes(s, scout_command_writes(c).take(k)),
            ),
        scout_after_writes(s, scout_command_writes(c)) == scout_command_levels(s, c),
{
    let ws = scout_command_writes(c);
    assert(ws.take(0) =~= Seq::<ScoutWrite>::empty());
    assert(scout_after_writes(s, ws.take(0)) == s);
    lemma_scout_prefix_step(s, ws, 0);
    lemma_scout_prefix_step(s, ws, 1);
    if ws.len() == 6 {
        lemma_scout_prefix_step(s, ws, 2);
        lemma_scout_prefix_step(s, ws, 3);
        lemma_scout_prefix_step(s, ws, 4);
        lemma_scout_prefix_step(s, ws, 5);
    }
    assert(ws.take(ws.len() as int) =~= ws);
}

/// Law: what each command leaves the scout doing, read from the writes
/// themselves. Idle, forward and backward set both engines (both forward
/// for forward, both backward for backward, both stopped for idle) and
/// straighten the steering; the spins turn the steering to their side and
/// leave both engines as they were.
pub proof fn lemma_scout_command_meaning(s: ScoutLevels, c: DriveCommand)
    requires
        scout_safe(s),
    ensures
        ({
            let e = scout_after_writes(s, scout_command_writes(c));
            let spin = c == DriveCommand::SpinRight || c == DriveCommand::SpinLeft;
            &&& e.direction_right == (c == DriveCommand::SpinRight)
            &&& e.direction_left == (c == DriveCommand::SpinLeft)
            &&& spin ==> (e.back_forward == s.back_forward && e.back_backward == s.back_backward
                && e.front_forward == s.front_forward && e.front_backward == s.front_backward)
            &&& !spin ==> (e.back_forward == (c == DriveCommand::Forward) && e.front_forward == (c
                == DriveCommand::Forward) && e.back_backward == (c == DriveCommand::Backward)
                && e.front_backward == (c == DriveCommand::Backward))
        }),
{
    lemma_scout_writes_safe(s, c);
}

} // verus!
