//! Video: the camera server's capture loop and frame events, and the video
//! client's relay from the camera process to a remote viewer.

use vstd::prelude::*;

verus! {

/// Capture interval numerator: one frame every `1/30` s.
pub const FRAME_INTERVAL_NUM: u32 = 1;
/// Capture interval denominator.
pub const FRAME_INTERVAL_DEN: u32 = 30;
/// Capture width in pixels.
pub const FRAME_WIDTH: u32 = 640;
/// Capture height in pixels.
pub const FRAME_HEIGHT: u32 = 480;
/// Pause between two captures, in milliseconds (about 30 frames a second).
pub const CAPTURE_PAUSE_MS: u64 = 33;

/// What one capture attempt came to.
#[derive(Clone, Copy, Debug, PartialEq, Eq, Structural)]
pub enum CaptureOutcome {
    /// A frame was captured and handed to the subscribers.
    Delivered,
    /// A frame was captured but no subscriber is left to take it.
    NoSubscribers,
    /// The camera reported an error.
    CameraError,
}

/// What the capture loop does next.
#[derive(Clone, Copy, Debug, PartialEq, Eq, Structural)]
pub enum CaptureStep {
    /// Pause `CAPTURE_PAUSE_MS`, then capture again.
    Continue,
    /// Report the camera error, pause, then capture again.
    ReportAndContinue,
    /// Leave the loop.
    Stop,
}

pub open spec fn capture_step_spec(o: CaptureOutcome) -> CaptureStep {
    match o {
        CaptureOutcome::Delivered => CaptureStep::Continue,
        CaptureOutcome::NoSubscribers => CaptureStep::Stop,
        CaptureOutcome::CameraError => CaptureStep::ReportAndContinue,
    }
}

/// Decides the capture loop's next step: it stops once nobody listens and
/// keeps going through camera errors.
pub fn capture_step(o: CaptureOutcome) -> (s: CaptureStep)
    ensures
        s == capture_step_spec(o),
{
    match o {
        CaptureOutcome::Delivered => CaptureStep::Continue,
        CaptureOutcome::NoSubscribers => CaptureStep::Stop,
        CaptureOutcome::CameraError => CaptureStep::ReportAndContinue,
    }
}

/// The character of a six-bit value in the standard base64 alphabet.
pub open spec fn base64_digit(v: int) -> char {
    if v < 26 {
        (65 + v) as char
    } else if v < 52 {
        (97 + v - 26) as char
    } else if v < 62 {
        (48 + v - 52) as char
    } else if v == 62 {
        '+'
    } else {
        '/'
    }
}

/// Standard base64 (RFC 4648, section 4) with `=` padding.
pub open spec fn base64_standard(b: Seq<u8>) -> Seq<char>
    decreases b.len(),
{
    if b.len() == 0 {
        seq![]
    } else {
        let x0 = b[0] as int;
        let x1 = if b.len() > 1 { b[1] as int } else { 0 };
        let x2 = if b.len() > 2 { b[2] as int } else { 0 };
        let quad = seq![
            base64_digit(x0 / 4),
            base64_digit((x0 % 4) * 16 + x1 / 16),
            if b.len() > 1 { base64_digit((x1 % 16) * 4 + x2 / 64) } else { '=' },
            if b.len() > 2 { base64_digit(x2 % 64) } else { '=' },
        ];
        if b.len() <= 3 {
            quad
        } else {
            quad + base64_standard(b.skip(3))
        }
    }
}

/// The length of the padded encoding of `n` bytes.
pub open spec fn base64_len(n: int) -> int {
    if n % 3 == 0 {
        (n / 3) * 4
    } else {
        (n / 3) * 4 + 4
    }
}

/// Calls `base64::encode`, which encodes with the crate's `STANDARD`
/// engine: the standard alphabet with padding. It panics when the length of
/// the output overflows `usize`, and its buffer cannot exceed `isize::MAX`
/// bytes, so the contract asks for an output length within that.
#[verifier::external_body]
fn encode_base64(bytes: &[u8]) -> (text: String)
    requires
        base64_len(bytes@.len() as int) <= isize::MAX,
    ensures
        text@ == base64_standard(bytes@),
{
    #[allow(deprecated)]
    base64::encode(bytes)
}

/// A server-sent event that carries one frame.
pub struct FrameEvent {
    /// The event id, always `frame`.
    pub id: String,
    /// The frame's bytes in standard base64.
    pub data: String,
}

/// Builds the event that carries a captured frame to the viewers.
pub fn frame_event(frame: &[u8]) -> (e: FrameEvent)
    requires
        base64_len(frame@.len() as int) <= isize::MAX,
    ensures
        e.id@ == "frame"@,
        e.data@ == base64_standard(frame@),
{
    FrameEvent { id: "frame".to_owned(), data: encode_base64(frame) }
}

/// Size of the buffer the video client reads the camera process through.
pub const RELAY_CHUNK: usize = 1024;

/// What one read from the camera process came to.
#[derive(Clone, Copy, Debug, PartialEq, Eq, Structural)]
pub enum RelayRead {
    /// The read failed.
    Failed,
    /// This many bytes were read; zero means the process closed its output.
    Bytes(usize),
}

/// What the relay does next.
#[derive(Clone, Copy, Debug, PartialEq, Eq, Structural)]
pub enum RelayStep {
    /// Send the first `n` bytes of the buffer to the viewer.
    Forward(usize),
    /// The stream has ended.
    Finished,
}

pub open spec fn relay_step_spec(r: RelayRead) -> RelayStep {
    match r {
        RelayRead::Failed => RelayStep::Finished,
        RelayRead::Bytes(n) => if n == 0 {
            RelayStep::Finished
        } else {
            RelayStep::Forward(n)
        },
    }
}

/// Decides the relay's next step after a read: forward what was read, or
/// end the stream at end of output or on a failed read.
pub fn relay_step(r: RelayRead) -> (s: RelayStep)
    ensures
        s == relay_step_spec(r),
        r matches RelayRead::Bytes(n) ==> (n > 0 ==> s == RelayStep::Forward(n)),
        r == RelayRead::Bytes(0) ==> s == RelayStep::Finished,
        r == RelayRead::Failed ==> s == RelayStep::Finished,
{
    match r {
        RelayRead::Failed => RelayStep::Finished,
        RelayRead::Bytes(n) => {
            if n == 0 {
                RelayStep::Finished
            } else {
                RelayStep::Forward(n)
            }
        },
    }
}

/// Law: a read of `n > 0` bytes forwards exactly those `n` bytes, no more
/// and no fewer; the stream ends only at end of output or on a failed read.
pub proof fn lemma_relay_forwards_what_was_read(n: usize)
    ensures
        n > 0 ==> relay_step_spec(RelayRead::Bytes(n)) == RelayStep::Forward(n),
        n == 0 ==> relay_step_spec(RelayRead::Bytes(n)) == RelayStep::Finished,
        relay_step_spec(RelayRead::Failed) == RelayStep::Finished,
        forall|r: RelayRead, m: usize| relay_step_spec(r) == RelayStep::Forward(m) ==> r == RelayRead::Bytes(m) && m > 0,
{
}

/// Law: the encoding of `n` bytes has the padded length.
pub proof fn lemma_base64_length(b: Seq<u8>)
    ensures
        base64_standard(b).len() == base64_len(b.len() as int),
    decreases b.len(),
{
    if b.len() >= 3 {
        lemma_base64_length(b.skip(3));
    }
}

/// The six-bit value of a character of the standard base64 alphabet.
pub open spec fn base64_value(c: char) -> int {
    let n = c as int;
    if 65 <= n <= 90 {
        n - 65
    } else if 97 <= n <= 122 {
        n - 71
    } else if 48 <= n <= 57 {
        n + 4
    } else if n == 43 {
        62
    } else {
        63
    }
}

/// Standard padded base64 decoding: each group of four characters gives
/// three bytes, or fewer where the group ends in `=` padding.
pub open spec fn base64_decode(t: Seq<char>) -> Seq<u8>
    decreases t.len(),
{
    if t.len() < 4 {
        seq![]
    } else {
        let v0 = base64_value(t[0]);
        let v1 = base64_value(t[1]);
        let v2 = base64_value(t[2]);
        let v3 = base64_value(t[3]);
        let b0 = (v0 * 4 + v1 / 16) as u8;
        let b1 = ((v1 % 16) * 16 + v2 / 4) as u8;
        let b2 = ((v2 % 4) * 64 + v3) as u8;
        let group = if t[2] == '=' {
            seq![b0]
        } else if t[3] == '=' {
            seq![b0, b1]
        } else {
            seq![b0, b1, b2]
        };
        group + base64_decode(t.skip(4))
    }
}

proof fn lemma_digit_value(v: int)
    requires
        0 <= v < 64,
    ensures
        base64_value(base64_digit(v)) == v,
        base64_digit(v) != '=',
{
}

proof fn lemma_group_arith(x0: int, x1: int, x2: int)
    requires
        0 <= x0 < 256,
        0 <= x1 < 256,
        0 <= x2 < 256,
    ensures
        (x0 / 4) * 4 + ((x0 % 4) * 16 + x1 / 16) / 16 == x0,
        (((x0 % 4) * 16 + x1 / 16) % 16) * 16 + ((x1 % 16) * 4 + x2 / 64) / 4 == x1,
        (((x1 % 16) * 4 + x2 / 64) % 4) * 64 + x2 % 64 == x2,
        0 <= x0 / 4 < 64,
        0 <= (x0 % 4) * 16 + x1 / 16 < 64,
        0 <= (x1 % 16) * 4 + x2 / 64 < 64,
        0 <= x2 % 64 < 64,
{
    assert(((x0 % 4) * 16 + x1 / 16) / 16 == x0 % 4);
    assert(((x0 % 4) * 16 + x1 / 16) % 16 == x1 / 16);
    assert(((x1 % 16) * 4 + x2 / 64) / 4 == x1 % 16);
    assert(((x1 % 16) * 4 + x2 / 64) % 4 == x2 / 64);
}

/// Law: decoding the base64 text of a frame gives back exactly the frame's
/// bytes, none added and none lost.
pub proof fn lemma_base64_round_trip(b: Seq<u8>)
    ensures
        base64_decode(base64_standard(b)) == b,
    decreases b.len(),
{
    if b.len() > 0 {
        let x0 = b[0] as int;
        let x1 = if b.len() > 1 { b[1] as int } else { 0 };
        let x2 = if b.len() > 2 { b[2] as int } else { 0 };
        let d0 = x0 / 4;
        let d1 = (x0 % 4) * 16 + x1 / 16;
        let d2 = (x1 % 16) * 4 + x2 / 64;
        let d3 = x2 % 64;
        lemma_group_arith(x0, x1, x2);
        lemma_digit_value(d0);
        lemma_digit_value(d1);
        lemma_digit_value(d2);
        lemma_digit_value(d3);
        let t = base64_standard(b);
        let quad = seq![
            base64_digit(d0),
            base64_digit(d1),
            if b.len() > 1 { base64_digit(d2) } else { '=' },
            if b.len() > 2 { base64_digit(d3) } else { '=' },
        ];
        let tail = if b.len() <= 3 { Seq::<char>::empty() } else { base64_standard(b.skip(3)) };
        assert(t =~= quad + tail);
        assert(t.skip(4) =~= tail);
        assert(t[0] == base64_digit(d0));
        assert(t[1] == base64_digit(d1));
        let by0 = (d0 * 4 + d1 / 16) as u8;
        let by1 = ((d1 % 16) * 16 + d2 / 4) as u8;
        let by2 = ((d2 % 4) * 64 + d3) as u8;
        assert(by0 == b[0]);
        if b.len() == 1 {
            assert(base64_decode(tail) =~= Seq::<u8>::empty());
            assert(base64_decode(t) =~= seq![by0]);
            assert(b =~= seq![b[0]]);
        } else if b.len() == 2 {
            assert(by1 == b[1]);
            assert(base64_decode(tail) =~= Seq::<u8>::empty());
            assert(base64_decode(t) =~= seq![by0, by1]);
            assert(b =~= seq![b[0], b[1]]);
        } else {
            assert(by1 == b[1]);
            assert(by2 == b[2]);
            if b.len() > 3 {
                lemma_base64_round_trip(b.skip(3));
                assert(b =~= seq![b[0], b[1], b[2]] + b.skip(3));
            } else {
                assert(base64_decode(tail) =~= Seq::<u8>::empty());
                assert(b =~= seq![b[0], b[1], b[2]]);
            }
            assert(base64_decode(t) =~= seq![by0, by1, by2] + base64_decode(tail));
        }
    }
}

/// Law: the capture loop ends exactly when no subscriber is left, reports
/// exactly the camera's errors, and otherwise goes on.
pub proof fn lemma_capture_step_meaning(o: CaptureOutcome)
    ensures
        (capture_step_spec(o) == CaptureStep::Stop) == (o == CaptureOutcome::NoSubscribers),
        (capture_step_spec(o) == CaptureStep::ReportAndContinue) == (o == CaptureOutcome::CameraError),
        (capture_step_spec(o) == CaptureStep::Continue) == (o == CaptureOutcome::Delivered),
{
}

} // verus!
