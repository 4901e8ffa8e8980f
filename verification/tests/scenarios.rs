//! Whole recordings, driven the way an owner of the files would drive them:
//! every line the recorder hands out is appended to an in-memory file.

use telemetry::clock::Timestamp;
use telemetry::failure::{RecordFailure, StoreError};
use telemetry::framing::decode;
use telemetry::orchestrator::Session;
use telemetry::recorder::{Action, Event, FileRecorder, RecorderState, Termination};
use telemetry::store::OpenOutcome;

/// What one subscription delivers, in order.
enum Arrival {
    Record(Vec<u8>),
    Unserializable,
    End,
    Broken,
}

/// Runs `recorder` over `arrivals`, writing to `file`. A write fails when
/// its number (from zero) is in `failing_writes`. Returns the failures that
/// were to be logged.
fn run(
    recorder: &mut FileRecorder,
    subscribe_ok: bool,
    arrivals: Vec<Arrival>,
    failing_writes: &[usize],
    file: &mut Vec<u8>,
) -> Vec<RecordFailure> {
    let mut logged = Vec::new();
    let mut writes = 0usize;
    let first = if subscribe_ok { Event::Subscribed } else { Event::SubscribeFailed };
    let mut action = recorder.step(first);
    let mut arrivals = arrivals.into_iter();
    loop {
        let event = match action {
            Action::Receive => match arrivals.next() {
                Some(Arrival::Record(bytes)) => Event::Message(Some(bytes)),
                Some(Arrival::Unserializable) => Event::Message(None),
                Some(Arrival::End) => Event::StreamEnded,
                Some(Arrival::Broken) => Event::StreamFailed,
                None => return logged,
            },
            Action::Append(line) => {
                let fails = failing_writes.contains(&writes);
                writes += 1;
                if fails {
                    Event::WriteFailed
                } else {
                    file.extend_from_slice(line.as_bytes());
                    Event::Written
                }
            }
            Action::Skip(failure) => {
                logged.push(failure);
                match arrivals.next() {
                    Some(Arrival::Record(bytes)) => Event::Message(Some(bytes)),
                    Some(Arrival::Unserializable) => Event::Message(None),
                    Some(Arrival::End) => Event::StreamEnded,
                    Some(Arrival::Broken) => Event::StreamFailed,
                    None => return logged,
                }
            }
            Action::Stop(_) => return logged,
            Action::Ignored => panic!("the driver sent an event out of turn"),
        };
        action = recorder.step(event);
    }
}

fn session() -> Session {
    Session::at(Timestamp::new(1_431_648_000, 0).unwrap())
}

#[test]
fn position_receives_two_records_then_stream_end() {
    let mut recorder = session().open_channel("position", OpenOutcome::Created).unwrap();
    let here = b"{\"latitude_deg\":47.39,\"longitude_deg\":8.54}".to_vec();
    let there = b"{\"latitude_deg\":47.40,\"longitude_deg\":8.55}".to_vec();
    let mut file = Vec::new();
    let logged = run(
        &mut recorder,
        true,
        vec![Arrival::Record(here.clone()), Arrival::Record(there.clone()), Arrival::End],
        &[],
        &mut file,
    );
    assert_eq!(decode(&file), vec![here, there]);
    assert_eq!(file.iter().filter(|b| **b == b'\n').count(), 2);
    assert!(logged.is_empty());
    assert_eq!(recorder.state(), RecorderState::Terminated(Termination::StreamEnded));
}

#[test]
fn quaternion_skips_the_record_that_fails_to_serialize() {
    let mut recorder = session().open_channel("quaternion", OpenOutcome::Created).unwrap();
    let level = b"{\"w\":1.0,\"x\":0.0,\"y\":0.0,\"z\":0.0}".to_vec();
    let tilted = b"{\"w\":0.5,\"x\":0.5,\"y\":0.5,\"z\":0.5}".to_vec();
    let mut file = Vec::new();
    let logged = run(
        &mut recorder,
        true,
        vec![Arrival::Record(level.clone()), Arrival::Unserializable, Arrival::Record(tilted.clone())],
        &[],
        &mut file,
    );
    assert_eq!(decode(&file), vec![level, tilted]);
    assert_eq!(logged, vec![RecordFailure::Serialization]);
    assert_eq!(recorder.state(), RecorderState::Streaming);
}

#[test]
fn quaternion_starts_when_position_store_collides() {
    let session = session();
    let position = session.open_channel("position", OpenOutcome::AlreadyExists);
    assert_eq!(position.err(), Some(StoreError::Collision));

    let mut quaternion = session.open_channel("quaternion", OpenOutcome::Created).unwrap();
    assert_eq!(quaternion.state(), RecorderState::Subscribing);
    let level = b"{\"w\":1.0}".to_vec();
    let mut file = Vec::new();
    let logged =
        run(&mut quaternion, true, vec![Arrival::Record(level.clone()), Arrival::End], &[], &mut file);
    assert_eq!(decode(&file), vec![level]);
    assert!(logged.is_empty());
    assert_eq!(quaternion.state(), RecorderState::Terminated(Termination::StreamEnded));
}

#[test]
fn empty_stream_leaves_an_empty_file() {
    let mut recorder = session().open_channel("position", OpenOutcome::Created).unwrap();
    let mut file = Vec::new();
    let logged = run(&mut recorder, true, vec![Arrival::End], &[], &mut file);
    assert!(file.is_empty());
    assert!(logged.is_empty());
    assert_eq!(recorder.state(), RecorderState::Terminated(Termination::StreamEnded));
}

#[test]
fn file_is_non_empty_once_a_record_was_stored() {
    let mut recorder = session().open_channel("position", OpenOutcome::Created).unwrap();
    let mut file = Vec::new();
    run(&mut recorder, true, vec![Arrival::Record(b"{}".to_vec())], &[], &mut file);
    assert_eq!(file, b"{}\n".to_vec());
}

#[test]
fn file_stays_empty_when_the_only_record_is_dropped() {
    let mut recorder = session().open_channel("position", OpenOutcome::Created).unwrap();
    let mut file = Vec::new();
    let logged =
        run(&mut recorder, true, vec![Arrival::Unserializable, Arrival::End], &[], &mut file);
    assert!(file.is_empty());
    assert_eq!(logged, vec![RecordFailure::Serialization]);
}

#[test]
fn decoding_reproduces_the_stored_records_in_receipt_order() {
    let mut recorder = session().open_channel("position", OpenOutcome::Created).unwrap();
    let records: Vec<Vec<u8>> =
        (0u8..20).map(|n| vec![b'{', b'"', b'n', b'"', b':', b'0' + n % 10, b'}']).collect();
    let arrivals = records.iter().cloned().map(Arrival::Record).collect();
    let mut file = Vec::new();
    run(&mut recorder, true, arrivals, &[], &mut file);
    assert_eq!(decode(&file), records);
}

#[test]
fn lines_count_the_adds_that_succeeded() {
    let mut recorder = session().open_channel("position", OpenOutcome::Created).unwrap();
    let arrivals = vec![
        Arrival::Record(b"a".to_vec()),
        Arrival::Unserializable,
        Arrival::Record(b"b".to_vec()),
        Arrival::Record(b"two\nlines".to_vec()),
        Arrival::Record(b"c".to_vec()),
        Arrival::Record(b"d".to_vec()),
        Arrival::End,
    ];
    let received = 6;
    let mut file = Vec::new();
    // The second write (of "b") fails.
    let logged = run(&mut recorder, true, arrivals, &[1], &mut file);
    assert_eq!(
        logged,
        vec![RecordFailure::Serialization, RecordFailure::Io, RecordFailure::Serialization]
    );
    let lines = decode(&file);
    assert_eq!(lines, vec![b"a".to_vec(), b"c".to_vec(), b"d".to_vec()]);
    assert_eq!(lines.len(), received - logged.len());
    assert!(lines.len() <= received);
    assert_eq!(file, b"a\nc\nd\n".to_vec());
}

#[test]
fn a_failed_write_does_not_stop_later_adds() {
    let mut recorder = session().open_channel("position", OpenOutcome::Created).unwrap();
    let mut file = Vec::new();
    let logged = run(
        &mut recorder,
        true,
        vec![Arrival::Record(b"lost".to_vec()), Arrival::Record(b"kept".to_vec())],
        &[0],
        &mut file,
    );
    assert_eq!(logged, vec![RecordFailure::Io]);
    assert_eq!(file, b"kept\n".to_vec());
    assert_eq!(recorder.state(), RecorderState::Streaming);
}

#[test]
fn subscribe_failure_ends_only_its_own_channel() {
    let session = session();
    let mut position = session.open_channel("position", OpenOutcome::Created).unwrap();
    let mut quaternion = session.open_channel("quaternion", OpenOutcome::Created).unwrap();

    let mut position_file = Vec::new();
    let logged = run(&mut position, false, vec![], &[], &mut position_file);
    assert!(logged.is_empty());
    assert_eq!(position.state(), RecorderState::Terminated(Termination::SubscribeFailed));
    assert!(position_file.is_empty());

    let mut quaternion_file = Vec::new();
    run(
        &mut quaternion,
        true,
        vec![Arrival::Record(b"q".to_vec()), Arrival::End],
        &[],
        &mut quaternion_file,
    );
    assert_eq!(quaternion_file, b"q\n".to_vec());
    assert_eq!(quaternion.state(), RecorderState::Terminated(Termination::StreamEnded));
}

#[test]
fn stream_failure_terminates_with_stream_failed() {
    let mut recorder = session().open_channel("position", OpenOutcome::Created).unwrap();
    let mut file = Vec::new();
    run(
        &mut recorder,
        true,
        vec![Arrival::Record(b"x".to_vec()), Arrival::Broken, Arrival::Record(b"y".to_vec())],
        &[],
        &mut file,
    );
    assert_eq!(recorder.state(), RecorderState::Terminated(Termination::StreamFailed));
    assert_eq!(file, b"x\n".to_vec());
}

#[test]
fn rerun_of_a_session_collides() {
    let first = session();
    let second = session();
    assert_eq!(first.destination("position"), second.destination("position"));
    assert!(first.open_channel("position", OpenOutcome::Created).is_ok());
    // The file of the first run is in place when the second run opens it.
    let again = second.open_channel("position", OpenOutcome::AlreadyExists);
    assert_eq!(again.err(), Some(StoreError::Collision));
}

#[test]
fn unwritable_destination_does_not_start_the_channel() {
    let denied = session().open_channel("position", OpenOutcome::Denied);
    assert_eq!(denied.err(), Some(StoreError::Unwritable));
}

#[test]
fn recorder_remembers_its_destination() {
    let recorder =
        FileRecorder::open(String::from("./somewhere.json"), OpenOutcome::Created).unwrap();
    assert_eq!(recorder.path().as_str(), "./somewhere.json");
    assert!(!recorder.is_terminated());
}
