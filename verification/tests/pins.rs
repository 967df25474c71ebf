use zero_robot::commands::{DriveCommand, PulseCommand};
use zero_robot::drive::{drive_writes, release_writes, PinWrite, WheelLevels, WheelPin};
use zero_robot::keyboard::{keyboard_step, KeyPress, KeyboardInput, KeyboardStep};
use zero_robot::pulse::{pulse_outcome, pulse_pins, PulseOutcome, PulsePins};
use zero_robot::scout::{scout_writes, ScoutLevels, ScoutPin, ScoutWrite};

fn apply(mut s: WheelLevels, w: &PinWrite) -> WheelLevels {
    match w.pin {
        WheelPin::LeftForward => s.left_forward = w.high,
        WheelPin::LeftBackward => s.left_backward = w.high,
        WheelPin::RightForward => s.right_forward = w.high,
        WheelPin::RightBackward => s.right_backward = w.high,
    }
    s
}

fn safe(s: &WheelLevels) -> bool {
    !(s.left_forward && s.left_backward) && !(s.right_forward && s.right_backward)
}

fn all_safe_starts() -> Vec<WheelLevels> {
    let mut v = Vec::new();
    for bits in 0u8..16 {
        let s = WheelLevels {
            left_forward: bits & 1 != 0,
            left_backward: bits & 2 != 0,
            right_forward: bits & 4 != 0,
            right_backward: bits & 8 != 0,
        };
        if safe(&s) {
            v.push(s);
        }
    }
    v
}

#[test]
fn drive_writes_never_shoot_through() {
    let cmds = [
        DriveCommand::Idle,
        DriveCommand::Forward,
        DriveCommand::Backward,
        DriveCommand::SpinRight,
        DriveCommand::SpinLeft,
    ];
    for start in all_safe_starts() {
        for c in cmds {
            let mut s = start;
            for w in drive_writes(c).iter() {
                s = apply(s, w);
                assert!(safe(&s));
            }
        }
    }
}

#[test]
fn forward_sequence_lowers_backward_pins_first() {
    let ws = drive_writes(DriveCommand::Forward);
    assert_eq!(
        ws,
        vec![
            PinWrite { pin: WheelPin::LeftBackward, high: false },
            PinWrite { pin: WheelPin::RightBackward, high: false },
            PinWrite { pin: WheelPin::LeftForward, high: true },
            PinWrite { pin: WheelPin::RightForward, high: true },
        ]
    );
    let end = ws.iter().fold(
        WheelLevels { left_forward: false, left_backward: true, right_forward: false, right_backward: true },
        apply,
    );
    assert_eq!(
        end,
        WheelLevels { left_forward: true, left_backward: false, right_forward: true, right_backward: false }
    );
}

#[test]
fn release_lowers_everything() {
    let start = WheelLevels { left_forward: true, left_backward: false, right_forward: false, right_backward: true };
    let end = release_writes().iter().fold(start, apply);
    assert_eq!(
        end,
        WheelLevels { left_forward: false, left_backward: false, right_forward: false, right_backward: false }
    );
    assert_eq!(release_writes()[0].pin, WheelPin::LeftForward);
}

#[test]
fn wheel_pin_numbers() {
    assert_eq!(WheelPin::LeftForward.gpio(), 27);
    assert_eq!(WheelPin::LeftBackward.gpio(), 19);
    assert_eq!(WheelPin::RightForward.gpio(), 18);
    assert_eq!(WheelPin::RightBackward.gpio(), 24);
}

#[test]
fn keyboard_bindings() {
    let key = |c| keyboard_step(KeyboardInput::Key(KeyPress::Char(c)));
    assert_eq!(key('q'), KeyboardStep::Quit);
    assert_eq!(key('i'), KeyboardStep::Move(DriveCommand::Forward));
    assert_eq!(key('k'), KeyboardStep::Move(DriveCommand::Backward));
    assert_eq!(key('j'), KeyboardStep::Move(DriveCommand::SpinLeft));
    assert_eq!(key('l'), KeyboardStep::Move(DriveCommand::SpinRight));
    assert_eq!(key('Q'), KeyboardStep::Complain);
    assert_eq!(keyboard_step(KeyboardInput::Key(KeyPress::Other)), KeyboardStep::Complain);
    assert_eq!(keyboard_step(KeyboardInput::NonKeyEvent), KeyboardStep::Ignore);
    assert_eq!(keyboard_step(KeyboardInput::Timeout), KeyboardStep::Release);
}

#[test]
fn key_and_word_give_same_writes() {
    match keyboard_step(KeyboardInput::Key(KeyPress::Char('j'))) {
        KeyboardStep::Move(c) => {
            assert_eq!(drive_writes(c), drive_writes(DriveCommand::parse("spin l").unwrap()))
        }
        other => panic!("unexpected step {:?}", other),
    }
}

fn scout_apply(mut s: ScoutLevels, w: &ScoutWrite) -> ScoutLevels {
    match w.pin {
        ScoutPin::BackForward => s.back_forward = w.high,
        ScoutPin::BackBackward => s.back_backward = w.high,
        ScoutPin::FrontForward => s.front_forward = w.high,
        ScoutPin::FrontBackward => s.front_backward = w.high,
        ScoutPin::DirectionLeft => s.direction_left = w.high,
        ScoutPin::DirectionRight => s.direction_right = w.high,
    }
    s
}

fn scout_safe(s: &ScoutLevels) -> bool {
    !(s.back_forward && s.back_backward)
        && !(s.front_forward && s.front_backward)
        && !(s.direction_left && s.direction_right)
}

#[test]
fn scout_writes_never_shoot_through() {
    let cmds = [
        DriveCommand::Idle,
        DriveCommand::Forward,
        DriveCommand::Backward,
        DriveCommand::SpinRight,
        DriveCommand::SpinLeft,
    ];
    for bits in 0u8..64 {
        let start = ScoutLevels {
            back_forward: bits & 1 != 0,
            back_backward: bits & 2 != 0,
            front_forward: bits & 4 != 0,
            front_backward: bits & 8 != 0,
            direction_left: bits & 16 != 0,
            direction_right: bits & 32 != 0,
        };
        if !scout_safe(&start) {
            continue;
        }
        for c in cmds {
            let mut s = start;
            for w in scout_writes(c).iter() {
                s = scout_apply(s, w);
                assert!(scout_safe(&s));
            }
        }
    }
}

#[test]
fn scout_spin_keeps_engines() {
    let start = ScoutLevels {
        back_forward: true,
        back_backward: false,
        front_forward: true,
        front_backward: false,
        direction_left: true,
        direction_right: false,
    };
    let end = scout_writes(DriveCommand::SpinRight).iter().fold(start, scout_apply);
    assert!(end.back_forward && end.front_forward);
    assert!(!end.direction_left && end.direction_right);
    assert_eq!(scout_writes(DriveCommand::SpinRight).len(), 2);
    assert_eq!(ScoutPin::BackBackward.gpio(), 22);
    assert_eq!(ScoutPin::DirectionRight.gpio(), 17);
}

#[test]
fn pulse_pin_table() {
    assert_eq!(pulse_pins(PulseCommand::LeftForward), PulsePins::One(27));
    assert_eq!(pulse_pins(PulseCommand::RightBackward), PulsePins::One(24));
    assert_eq!(pulse_pins(PulseCommand::Forward), PulsePins::Two(27, 18));
    assert_eq!(pulse_pins(PulseCommand::SpinRight), PulsePins::Two(27, 24));
    assert_eq!(pulse_pins(PulseCommand::SpinLeft), PulsePins::Two(19, 18));
}

#[test]
fn pulse_reports_first_missing_pin() {
    let two = PulsePins::Two(19, 24);
    assert_eq!(pulse_outcome(two, true, true), PulseOutcome::Raise(two));
    assert_eq!(pulse_outcome(two, false, false), PulseOutcome::Unavailable(19));
    assert_eq!(pulse_outcome(two, true, false), PulseOutcome::Unavailable(24));
    assert_eq!(pulse_outcome(PulsePins::One(18), false, true), PulseOutcome::Unavailable(18));
    assert_eq!(pulse_outcome(PulsePins::One(18), true, false), PulseOutcome::Raise(PulsePins::One(18)));
}

#[test]
fn shared_words_move_alike() {
    for word in ["forward", "backward", "spin r", "spin l"] {
        let pulse = pulse_pins(PulseCommand::parse(word).unwrap());
        let raised: Vec<u8> = match pulse {
            PulsePins::One(a) => vec![a],
            PulsePins::Two(a, b) => vec![a, b],
        };
        let mut driven: Vec<u8> = drive_writes(DriveCommand::parse(word).unwrap())
            .iter()
            .filter(|w| w.high)
            .map(|w| w.pin.gpio())
            .collect();
        let mut raised_sorted = raised.clone();
        raised_sorted.sort();
        driven.sort();
        assert_eq!(raised_sorted, driven, "word {}", word);
    }
}
