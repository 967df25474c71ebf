//! The robots that poll a command server over HTTP: what they make of the
//! status and the body of each reply.

use vstd::prelude::*;
use std::collections::BTreeMap;
use crate::commands::{DriveCommand, PulseCommand, drive_command_of_word, drive_command_word, lemma_drive_word_round_trip, lemma_pulse_word_round_trip, pulse_command_of_word, pulse_command_word};
use crate::text::same_text;

verus! {

/// How long a pulse robot waits before polling again after a reply that
/// names no command, in milliseconds.
pub const PULSE_POLL_PAUSE_MS: u64 = 1000;

/// How long a driving robot waits before polling again after a reply that
/// names no command, in milliseconds.
pub const DRIVE_POLL_PAUSE_MS: u64 = 20;

/// Calls `reqwest::StatusCode::from_u16` and then `StatusCode::is_success`.
/// The source of both shows that a code from 200 to 299 is accepted by the
/// first and counted as success by the second, and that every other code is
/// either refused by the first or not counted by the second.
#[verifier::external_body]
fn http_status_is_success(code: u16) -> (ok: bool)
    ensures
        ok == (200 <= code && code < 300),
{
    match reqwest::StatusCode::from_u16(code) {
        Ok(status) => status.is_success(),
        Err(_) => false,
    }
}

/// Whether the reply's status counts as success, in which case its body is
/// read; otherwise the status is reported.
pub fn status_is_success(code: u16) -> (ok: bool)
    ensures
        ok == (200 <= code && code < 300),
{
    http_status_is_success(code)
}

/// What a pulse robot does with the body of a successful reply.
#[derive(Clone, Copy, Debug, PartialEq, Eq, Structural)]
pub enum PulsePoll {
    Pulse(PulseCommand),
    /// Wait `PULSE_POLL_PAUSE_MS` before the next poll.
    Pause,
}

pub open spec fn pulse_poll_spec(body: Seq<char>) -> PulsePoll {
    match pulse_command_of_word(body) {
        Some(c) => PulsePoll::Pulse(c),
        None => PulsePoll::Pause,
    }
}

/// Reads the body, untrimmed, as a pulse command.
pub fn pulse_poll(body: &str) -> (p: PulsePoll)
    ensures
        p == pulse_poll_spec(body@),
{
    match PulseCommand::parse(body) {
        Some(c) => PulsePoll::Pulse(c),
        None => PulsePoll::Pause,
    }
}

/// What a driving robot does with the command of a report.
#[derive(Clone, Copy, Debug, PartialEq, Eq, Structural)]
pub enum DrivePoll {
    Drive(DriveCommand),
    /// Wait `DRIVE_POLL_PAUSE_MS` before the next poll.
    Pause,
}

pub open spec fn drive_poll_spec(word: Seq<char>) -> DrivePoll {
    match drive_command_of_word(word) {
        Some(c) => DrivePoll::Drive(c),
        None => DrivePoll::Pause,
    }
}

/// Reads a report's command as a driving command.
pub fn drive_poll(word: &str) -> (p: DrivePoll)
    ensures
        p == drive_poll_spec(word@),
{
    match DriveCommand::parse(word) {
        Some(c) => DrivePoll::Drive(c),
        None => DrivePoll::Pause,
    }
}

/// Law: every driving command's own word, `idle` included, is driven as
/// that command; only words that name no command make the robot pause.
pub proof fn lemma_every_drive_word_drives(c: DriveCommand, w: Seq<char>)
    ensures
        drive_poll_spec(drive_command_word(c)) == DrivePoll::Drive(c),
        drive_poll_spec(w) == DrivePoll::Pause <==> drive_command_of_word(w) is None,
        drive_poll_spec(w) matches DrivePoll::Drive(d) ==> w == drive_command_word(d),
{
    lemma_drive_word_round_trip(c);
    if let Some(d) = drive_command_of_word(w) {
        reveal_strlit("idle");
        reveal_strlit("forward");
        reveal_strlit("backward");
        reveal_strlit("spin r");
        reveal_strlit("spin l");
    }
}

/// Law: every pulse command's own word is pulsed as that command; only
/// words that name no pulse make the robot pause.
pub proof fn lemma_every_pulse_word_pulses(c: PulseCommand, w: Seq<char>)
    ensures
        pulse_poll_spec(pulse_command_word(c)) == PulsePoll::Pulse(c),
        pulse_poll_spec(w) == PulsePoll::Pause <==> pulse_command_of_word(w) is None,
        pulse_poll_spec(w) matches PulsePoll::Pulse(d) ==> w == pulse_command_word(d),
{
    lemma_pulse_word_round_trip(c);
}

/// One member of a JSON object whose values are all strings.
pub struct Member {
    pub key: String,
    pub value: String,
}

impl View for Member {
    type V = (Seq<char>, Seq<char>);

    open spec fn view(&self) -> (Seq<char>, Seq<char>) {
        (self.key@, self.value@)
    }
}

/// What `serde_json::from_slice` makes of a body when asked for a map from
/// strings to strings, with the members listed in key order: `None` when
/// the body is not a JSON object whose values are all strings.
pub uninterp spec fn json_string_object(body: Seq<u8>) -> Option<Seq<(Seq<char>, Seq<char>)>>;

/// Calls `serde_json::from_slice` into a `BTreeMap<String, String>` and
/// lists the map's members in key order. The contract names the result and
/// says nothing more of JSON's grammar; it adds that a map holds each key
/// once.
#[verifier::external_body]
fn parse_json_string_object(body: &[u8]) -> (members: Option<Vec<Member>>)
    ensures
        members.is_some() == json_string_object(body@).is_some(),
        members matches Some(ms) ==> ms@.map_values(|m: Member| m@)
            == json_string_object(body@).unwrap(),
        members matches Some(ms) ==> forall|i: int, j: int|
            0 <= i < j < ms@.len() ==> ms@[i].key@ != ms@[j].key@,
{
    match serde_json::from_slice::<BTreeMap<String, String>>(body) {
        Ok(map) => Some(map.into_iter().map(|(key, value)| Member { key, value }).collect()),
        Err(_) => None,
    }
}

/// A point in time as `chrono` gives it: whole seconds since the Unix
/// epoch and the nanoseconds past that second. The nanoseconds reach
/// 1,000,000,000 and more only during a leap second.
#[derive(Clone, Copy, Debug, PartialEq, Eq, Structural)]
pub struct Instant {
    pub secs: i64,
    pub nanos: u32,
}

/// What `chrono::DateTime::parse_from_rfc3339` makes of a text, as seconds
/// since the epoch and nanoseconds past that second; `None` when it refuses
/// the text.
pub uninterp spec fn rfc3339_instant(text: Seq<char>) -> Option<(i64, u32)>;

/// Calls `chrono::DateTime::parse_from_rfc3339` and reads the parsed time's
/// `timestamp` and `timestamp_subsec_nanos`. The contract names the result;
/// of the nanoseconds it adds chrono's documented bound (below two seconds'
/// worth, the upper half being a leap second).
#[verifier::external_body]
fn parse_rfc3339(text: &str) -> (t: Option<Instant>)
    ensures
        t.is_some() == rfc3339_instant(text@).is_some(),
        t matches Some(i) ==> (i.secs, i.nanos) == rfc3339_instant(text@).unwrap(),
        t matches Some(i) ==> i.nanos < 2_000_000_000,
{
    match chrono::DateTime::parse_from_rfc3339(text) {
        Ok(time) => Some(Instant { secs: time.timestamp(), nanos: time.timestamp_subsec_nanos() }),
        Err(_) => None,
    }
}

/// Calls `chrono::Utc::now` and reads its `timestamp` and
/// `timestamp_subsec_nanos`. What time it is cannot be stated; the contract
/// gives only chrono's documented bound on the nanoseconds.
#[verifier::external_body]
fn clock_now() -> (t: Instant)
    ensures
        t.nanos < 2_000_000_000,
{
    let now = chrono::Utc::now();
    Instant { secs: now.timestamp(), nanos: now.timestamp_subsec_nanos() }
}

/// Nanoseconds per second.
pub const NANOS_PER_SEC: i128 = 1_000_000_000;

/// Nanoseconds per millisecond.
pub const NANOS_PER_MILLI: i128 = 1_000_000;

/// The time from `earlier` to `later` in nanoseconds, as chrono subtracts
/// two times: the difference on the timeline, where a leap second that
/// lies between the two times of day counts as one more second.
pub open spec fn elapsed_nanos(later: Instant, earlier: Instant) -> int {
    let later_day_secs = later.secs as int % 86400;
    let earlier_day_secs = earlier.secs as int % 86400;
    let leap = if later_day_secs > earlier_day_secs && earlier.nanos >= 1_000_000_000 {
        1_000_000_000
    } else if later_day_secs < earlier_day_secs && later.nanos >= 1_000_000_000 {
        -1_000_000_000
    } else {
        0
    };
    (later.secs - earlier.secs) * 1_000_000_000 + (later.nanos - earlier.nanos) + leap
}

/// Whole milliseconds of a span of nanoseconds, rounded toward zero.
pub open spec fn whole_millis(nanos: int) -> int {
    if nanos >= 0 {
        nanos / 1_000_000
    } else {
        -((-nanos) / 1_000_000)
    }
}

fn day_seconds(secs: i64) -> (d: i64)
    ensures
        d == secs as int % 86400,
{
    let r = secs % 86400;
    if r < 0 {
        r + 86400
    } else {
        r
    }
}

/// The time from `earlier` to `later` in whole milliseconds, rounded toward
/// zero.
pub fn elapsed_millis(later: Instant, earlier: Instant) -> (ms: i128)
    ensures
        ms == whole_millis(elapsed_nanos(later, earlier)),
{
    let later_day_secs = day_seconds(later.secs);
    let earlier_day_secs = day_seconds(earlier.secs);
    let leap: i128 = if later_day_secs > earlier_day_secs && earlier.nanos >= 1_000_000_000 {
        NANOS_PER_SEC
    } else if later_day_secs < earlier_day_secs && later.nanos >= 1_000_000_000 {
        -NANOS_PER_SEC
    } else {
        0
    };
    let secs = later.secs as i128 - earlier.secs as i128;
    let nanos = later.nanos as i128 - earlier.nanos as i128;
    let span = secs * NANOS_PER_SEC + nanos + leap;
    if span >= 0 {
        span / NANOS_PER_MILLI
    } else {
        -((-span) / NANOS_PER_MILLI)
    }
}

/// Reads the clock and returns the reading together with how many
/// milliseconds before it the report was issued.
pub fn report_age_millis(report: &Report) -> (aged: (Instant, i128))
    ensures
        aged.0.nanos < 2_000_000_000,
        aged.1 == whole_millis(elapsed_nanos(aged.0, report.issued_at)),
{
    let now = clock_now();
    (now, elapsed_millis(now, report.issued_at))
}

/// The value of the first member with the given key.
pub open spec fn member_value(members: Seq<(Seq<char>, Seq<char>)>, key: Seq<char>) -> Option<Seq<char>>
    decreases members.len(),
{
    if members.len() == 0 {
        None
    } else if members[0].0 == key {
        Some(members[0].1)
    } else {
        member_value(members.drop_first(), key)
    }
}

fn find_member(members: &Vec<Member>, key: &str) -> (v: Option<String>)
    ensures
        v.is_some() == member_value(members@.map_values(|m: Member| m@), key@).is_some(),
        v matches Some(s) ==> s@ == member_value(members@.map_values(|m: Member| m@), key@).unwrap(),
{
    let ghost all = members@.map_values(|m: Member| m@);
    let mut i: usize = 0;
    assert(all.skip(0) =~= all);
    while i < members.len()
        invariant
            i <= members.len(),
            all == members@.map_values(|m: Member| m@),
            member_value(all, key@) == member_value(all.skip(i as int), key@),
        decreases members.len() - i,
    {
        assert(all.skip(i as int).drop_first() =~= all.skip(i + 1));
        assert(all.skip(i as int)[0] == all[i as int]);
        if same_text(members[i].key.as_str(), key) {
            return Some(members[i].value.clone());
        }
        i = i + 1;
    }
    assert(all.skip(i as int).len() == 0);
    None
}

/// A report of the joystick server: the command and when it was issued.
pub struct Report {
    pub command: String,
    /// RFC 3339 time of issue, as sent.
    pub timestamp: String,
    /// The time of issue, parsed.
    pub issued_at: Instant,
}

/// The command, time text and parsed time that a body reports, or `None`
/// where the robot gives up on it: the body is no JSON object of strings, it
/// lacks a `command` or a `timestamp`, or the time is no RFC 3339 time.
pub open spec fn report_of_body(body: Seq<u8>) -> Option<(Seq<char>, Seq<char>, (i64, u32))> {
    match json_string_object(body) {
        None => None,
        Some(members) => match (member_value(members, "command"@), member_value(members, "timestamp"@)) {
            (Some(c), Some(t)) => match rfc3339_instant(t) {
                Some(at) => Some((c, t, at)),
                None => None,
            },
            _ => None,
        },
    }
}

/// Decodes a report from the body of a successful reply.
pub fn decode_report(body: &[u8]) -> (r: Option<Report>)
    ensures
        r.is_some() == report_of_body(body@).is_some(),
        r matches Some(rep) ==> (rep.command@, rep.timestamp@, (rep.issued_at.secs, rep.issued_at.nanos))
            == report_of_body(body@).unwrap(),
{
    let members = match parse_json_string_object(body) {
        Some(ms) => ms,
        None => return None,
    };
    let command = match find_member(&members, "command") {
        Some(c) => c,
        None => return None,
    };
    let timestamp = match find_member(&members, "timestamp") {
        Some(t) => t,
        None => return None,
    };
    match parse_rfc3339(timestamp.as_str()) {
        Some(issued_at) => Some(Report { command, timestamp, issued_at }),
        None => None,
    }
}

proof fn lemma_member_value_found(members: Seq<(Seq<char>, Seq<char>)>, key: Seq<char>)
    ensures
        member_value(members, key) matches Some(v) ==> members.contains((key, v)),
        member_value(members, key) is None <==> (forall|i: int| 0 <= i < members.len() ==> (#[trigger] members[i]).0 != key),
    decreases members.len(),
{
    if members.len() > 0 {
        lemma_member_value_found(members.drop_first(), key);
        if member_value(members, key) is None {
            assert forall|i: int| 0 <= i < members.len() implies (#[trigger] members[i]).0 != key by {
                if i > 0 {
                    assert(members[i] == members.drop_first()[i - 1]);
                }
            }
        } else if members[0].0 != key {
            let v = member_value(members, key).unwrap();
            let j = choose|j: int| 0 <= j < members.drop_first().len() && members.drop_first()[j] == (key, v);
            assert(members[j + 1] == (key, v));
        } else {
            assert(members[0] == (key, members[0].1));
        }
        if forall|i: int| 0 <= i < members.len() ==> (#[trigger] members[i]).0 != key {
            assert(members[0].0 != key);
            assert forall|i: int| 0 <= i < members.drop_first().len() implies (#[trigger] members.drop_first()[i]).0 != key by {
                assert(members.drop_first()[i] == members[i + 1]);
            }
        }
    }
}

/// Law: a decoded report holds what the body's `command` and `timestamp`
/// members say, the time being the one chrono reads from the timestamp; a
/// body whose object has no `command` member, or no `timestamp` member, is
/// no report.
pub proof fn lemma_report_reads_its_members(body: Seq<u8>)
    ensures
        report_of_body(body) matches Some(r) ==> ({
            &&& json_string_object(body) is Some
            &&& json_string_object(body).unwrap().contains(("command"@, r.0))
            &&& json_string_object(body).unwrap().contains(("timestamp"@, r.1))
            &&& rfc3339_instant(r.1) == Some(r.2)
        }),
        json_string_object(body) matches Some(ms) ==> ((forall|i: int| 0 <= i < ms.len() ==> (#[trigger] ms[i]).0 != "command"@)
            ==> report_of_body(body) is None),
        json_string_object(body) matches Some(ms) ==> ((forall|i: int| 0 <= i < ms.len() ==> (#[trigger] ms[i]).0 != "timestamp"@)
            ==> report_of_body(body) is None),
        json_string_object(body) is None ==> report_of_body(body) is None,
{
    if let Some(ms) = json_string_object(body) {
        lemma_member_value_found(ms, "command"@);
        lemma_member_value_found(ms, "timestamp"@);
    }
}

/// Law: the time from one instant to another is the negation of the time
/// back; without leap seconds it is the plain difference on the timeline;
/// and the whole milliseconds are the span rounded toward zero: less than
/// a millisecond away from it, and of its sign.
pub proof fn lemma_elapsed_meaning(a: Instant, b: Instant)
    ensures
        elapsed_nanos(a, b) == -elapsed_nanos(b, a),
        whole_millis(elapsed_nanos(a, b)) == -whole_millis(elapsed_nanos(b, a)),
        a.nanos < 1_000_000_000 && b.nanos < 1_000_000_000 ==> elapsed_nanos(a, b) == (a.secs
            * 1_000_000_000 + a.nanos) - (b.secs * 1_000_000_000 + b.nanos),
        elapsed_nanos(a, b) >= 0 ==> 0 <= elapsed_nanos(a, b) - whole_millis(elapsed_nanos(a, b))
            * 1_000_000 < 1_000_000,
        elapsed_nanos(a, b) < 0 ==> -1_000_000 < elapsed_nanos(a, b) - whole_millis(elapsed_nanos(a, b))
            * 1_000_000 <= 0,
        (whole_millis(elapsed_nanos(a, b)) >= 0) == (elapsed_nanos(a, b) > -1_000_000),
{
    let n = elapsed_nanos(a, b);
    if n >= 0 {
        assert(0 <= n - (n / 1_000_000) * 1_000_000 < 1_000_000);
    } else {
        assert(0 <= (-n) - ((-n) / 1_000_000) * 1_000_000 < 1_000_000);
    }
}

} // verus!
