use zero_robot::commands::DriveCommand;
use zero_robot::joystick::{stick_command, PadEvent, StickState, STICK_CENTER};

#[test]
fn stick_dominance() {
    assert_eq!(stick_command(128, 128), DriveCommand::Idle);
    assert_eq!(stick_command(0, 128), DriveCommand::SpinLeft);
    assert_eq!(stick_command(255, 128), DriveCommand::SpinRight);
    assert_eq!(stick_command(128, 0), DriveCommand::Forward);
    assert_eq!(stick_command(128, 255), DriveCommand::Backward);
    assert_eq!(stick_command(0, 0), DriveCommand::Idle);
    assert_eq!(stick_command(200, 100), DriveCommand::SpinRight);
    assert_eq!(stick_command(140, 100), DriveCommand::Forward);
}

#[test]
fn stick_mirror() {
    for x in 0..=256 {
        for y in [0, 60, 128, 200, 256] {
            let c = stick_command(x, y);
            let m = stick_command(256 - x, y);
            let expected = match c {
                DriveCommand::SpinLeft => DriveCommand::SpinRight,
                DriveCommand::SpinRight => DriveCommand::SpinLeft,
                other => other,
            };
            assert_eq!(m, expected);
        }
    }
}

#[test]
fn events_update_the_state() {
    let mut s = StickState::centered();
    assert_eq!(s.x, STICK_CENTER);
    assert_eq!(s.apply(PadEvent::Other), DriveCommand::Idle);
    assert_eq!(s.apply(PadEvent::LeftStickY(10)), DriveCommand::Forward);
    assert_eq!(s.apply(PadEvent::RightStickX(250)), DriveCommand::SpinRight);
    assert_eq!(s, StickState { x: 250, y: 10 });
    assert_eq!(s.apply(PadEvent::RightStickX(246)), DriveCommand::Idle);
    assert_eq!(s.apply(PadEvent::Other), DriveCommand::Idle);
}

#[test]
fn joystick_words_are_understood() {
    for (x, y) in [(0, 128), (255, 128), (128, 0), (128, 255), (128, 128)] {
        let c = stick_command(x, y);
        assert_eq!(DriveCommand::parse(c.word()), Some(c));
    }
}
