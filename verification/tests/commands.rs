use zero_robot::commands::{DriveCommand, PulseCommand};
use zero_robot::console::{console_message, shell_step, ShellStep};
use zero_robot::remote::{drive_poll, pulse_poll, DrivePoll, PulsePoll};

#[test]
fn drive_words_round_trip() {
    let all = [
        DriveCommand::Idle,
        DriveCommand::Forward,
        DriveCommand::Backward,
        DriveCommand::SpinRight,
        DriveCommand::SpinLeft,
    ];
    for c in all {
        assert_eq!(DriveCommand::parse(c.word()), Some(c));
    }
    assert_eq!(DriveCommand::Idle.word(), "idle");
    assert_eq!(DriveCommand::SpinLeft.word(), "spin l");
}

#[test]
fn pulse_words_round_trip() {
    let all = [
        PulseCommand::LeftForward,
        PulseCommand::LeftBackward,
        PulseCommand::RightForward,
        PulseCommand::RightBackward,
        PulseCommand::Forward,
        PulseCommand::Backward,
        PulseCommand::SpinRight,
        PulseCommand::SpinLeft,
    ];
    for c in all {
        assert_eq!(PulseCommand::parse(c.word()), Some(c));
    }
    assert_eq!(PulseCommand::RightBackward.word(), "right b");
}

#[test]
fn unknown_words_are_refused() {
    assert_eq!(DriveCommand::parse("Forward"), None);
    assert_eq!(DriveCommand::parse("forward "), None);
    assert_eq!(DriveCommand::parse(""), None);
    assert_eq!(DriveCommand::parse("left f"), None);
    assert_eq!(PulseCommand::parse("idle"), None);
    assert_eq!(PulseCommand::parse("spin"), None);
}

#[test]
fn shell_trims_before_reading() {
    assert_eq!(shell_step("left f\n"), ShellStep::Pulse(PulseCommand::LeftForward));
    assert_eq!(shell_step("  spin r \r\n"), ShellStep::Pulse(PulseCommand::SpinRight));
    assert_eq!(shell_step("\n"), ShellStep::Blank);
    assert_eq!(shell_step("   "), ShellStep::Blank);
    assert_eq!(shell_step("jump\n"), ShellStep::Unknown);
    assert_eq!(shell_step("idle\n"), ShellStep::Unknown);
}

#[test]
fn console_publishes_trimmed_nonblank_lines() {
    assert_eq!(console_message("forward\n"), Some("forward".to_string()));
    assert_eq!(console_message("\t spin l  \n"), Some("spin l".to_string()));
    assert_eq!(console_message(" \n"), None);
    assert_eq!(console_message(""), None);
}

#[test]
fn polled_bodies_are_read_untrimmed() {
    assert_eq!(pulse_poll("backward"), PulsePoll::Pulse(PulseCommand::Backward));
    assert_eq!(pulse_poll("backward\n"), PulsePoll::Pause);
    assert_eq!(pulse_poll(""), PulsePoll::Pause);
    assert_eq!(drive_poll("spin r"), DrivePoll::Drive(DriveCommand::SpinRight));
    assert_eq!(drive_poll("Hello, World!"), DrivePoll::Pause);
}
