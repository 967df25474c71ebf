use base64::Engine;
use zero_robot::remote::{decode_report, elapsed_millis, report_age_millis, status_is_success, Instant};
use zero_robot::stream::{capture_step, frame_event, relay_step, CaptureOutcome, CaptureStep, RelayRead, RelayStep};
use zero_robot::sweep::sweep_pins;

#[test]
fn status_classes() {
    assert!(status_is_success(200));
    assert!(status_is_success(204));
    assert!(status_is_success(299));
    assert!(!status_is_success(300));
    assert!(!status_is_success(404));
    assert!(!status_is_success(199));
    assert!(!status_is_success(0));
    assert!(!status_is_success(1000));
}

#[test]
fn report_decodes() {
    let body = br#"{"command":"spin l","timestamp":"2024-05-01T12:00:00.123+01:00"}"#;
    let r = decode_report(body).expect("a valid report");
    assert_eq!(r.command, "spin l");
    assert_eq!(r.timestamp, "2024-05-01T12:00:00.123+01:00");
    assert_eq!(r.issued_at, Instant { secs: 1714561200, nanos: 123_000_000 });
}

#[test]
fn elapsed_time_in_millis() {
    let t = |secs, nanos| Instant { secs, nanos };
    assert_eq!(elapsed_millis(t(10, 500_000_000), t(9, 900_000_000)), 600);
    assert_eq!(elapsed_millis(t(10, 0), t(10, 0)), 0);
    assert_eq!(elapsed_millis(t(9, 0), t(10, 500_000)), -1000);
    assert_eq!(elapsed_millis(t(9, 999_999), t(9, 0)), 0);
    assert_eq!(elapsed_millis(t(9, 0), t(9, 999_999)), 0);
    assert_eq!(elapsed_millis(t(-5, 0), t(5, 0)), -10_000);
    // A leap second between the two times of day counts as one more second.
    assert_eq!(elapsed_millis(t(101, 0), t(100, 1_000_000_000)), 1000);
    assert_eq!(elapsed_millis(t(100, 1_500_000_000), t(101, 0)), -500);
}

#[test]
fn report_age_uses_the_clock() {
    let body = br#"{"command":"idle","timestamp":"2024-05-01T12:00:00+01:00"}"#;
    let r = decode_report(body).unwrap();
    let (now, age) = report_age_millis(&r);
    assert!(now.secs > r.issued_at.secs);
    assert!(age > 0);
    assert_eq!(age, elapsed_millis(now, r.issued_at));
}

#[test]
fn report_with_extra_members_decodes() {
    let body = br#"{"timestamp":"2024-05-01T12:00:00Z","note":"x","command":"idle"}"#;
    let r = decode_report(body).expect("a valid report");
    assert_eq!(r.command, "idle");
}

#[test]
fn malformed_reports_are_refused() {
    assert!(decode_report(b"not json").is_none());
    assert!(decode_report(br#"{"command":"idle"}"#).is_none());
    assert!(decode_report(br#"{"timestamp":"2024-05-01T12:00:00Z"}"#).is_none());
    assert!(decode_report(br#"{"command":"idle","timestamp":"yesterday"}"#).is_none());
    assert!(decode_report(br#"{"command":1,"timestamp":"2024-05-01T12:00:00Z"}"#).is_none());
    assert!(decode_report(br#"["idle"]"#).is_none());
}

#[test]
fn frames_are_base64() {
    assert_eq!(frame_event(b"Man").data, "TWFu");
    assert_eq!(frame_event(b"Ma").data, "TWE=");
    assert_eq!(frame_event(b"M").data, "TQ==");
    assert_eq!(frame_event(b"").data, "");
    assert_eq!(frame_event(&[0xff, 0xfe, 0x3e, 0x00]).data, "//4+AA==");
    assert_eq!(frame_event(b"hello").id, "frame");
    assert_eq!(frame_event(b"hello").data.len(), 8);
}

#[test]
fn frame_text_decodes_to_the_frame() {
    let frame: Vec<u8> = (0u8..=255).chain([7, 7, 0]).collect();
    for n in 0..frame.len() {
        let event = frame_event(&frame[..n]);
        let back = base64::engine::general_purpose::STANDARD.decode(event.data).unwrap();
        assert_eq!(back, &frame[..n]);
    }
}

#[test]
fn capture_loop_steps() {
    assert_eq!(capture_step(CaptureOutcome::Delivered), CaptureStep::Continue);
    assert_eq!(capture_step(CaptureOutcome::NoSubscribers), CaptureStep::Stop);
    assert_eq!(capture_step(CaptureOutcome::CameraError), CaptureStep::ReportAndContinue);
}

#[test]
fn relay_steps() {
    assert_eq!(relay_step(RelayRead::Bytes(1024)), RelayStep::Forward(1024));
    assert_eq!(relay_step(RelayRead::Bytes(1)), RelayStep::Forward(1));
    assert_eq!(relay_step(RelayRead::Bytes(0)), RelayStep::Finished);
    assert_eq!(relay_step(RelayRead::Failed), RelayStep::Finished);
}

#[test]
fn sweep_covers_header() {
    let pins = sweep_pins();
    assert_eq!(pins.len(), 40);
    assert_eq!(pins[0], 1);
    assert_eq!(pins[39], 40);
    assert!(pins.windows(2).all(|w| w[1] == w[0] + 1));
}
