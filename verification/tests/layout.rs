//! The file layout, the store's two halves of an add, and the failures.

use telemetry::failure::{Failure, RecordFailure, Scope, StoreError};
use telemetry::framing::{decode, fits_one_line, Line, LINE_BREAK};
use telemetry::store::{FileStore, OpenOutcome, Recorder};

#[test]
fn line_break_is_the_newline_byte() {
    assert_eq!(LINE_BREAK, b'\n');
}

#[test]
fn frame_appends_one_line_break() {
    let line = Line::frame(b"{\"x\":1}".to_vec()).unwrap();
    assert_eq!(line.as_bytes(), &b"{\"x\":1}\n".to_vec());
    assert_eq!(line.into_bytes(), b"{\"x\":1}\n".to_vec());
}

#[test]
fn frame_refuses_a_record_with_a_line_break() {
    assert_eq!(Line::frame(b"a\nb".to_vec()), None);
    assert_eq!(Line::frame(b"\n".to_vec()), None);
    assert_eq!(Line::frame(b"ab\n".to_vec()), None);
}

#[test]
fn frame_keeps_carriage_returns_and_other_bytes() {
    let bytes = vec![0u8, 13, 255, 9, 34];
    let line = Line::frame(bytes.clone()).unwrap();
    let mut expected = bytes;
    expected.push(10);
    assert_eq!(line.into_bytes(), expected);
}

#[test]
fn fits_one_line_looks_at_every_byte() {
    assert!(fits_one_line(&Vec::new()));
    assert!(fits_one_line(&b"abc".to_vec()));
    assert!(!fits_one_line(&b"\nabc".to_vec()));
    assert!(!fits_one_line(&b"abc\n".to_vec()));
    assert!(!fits_one_line(&b"a\nc".to_vec()));
}

#[test]
fn decode_of_an_empty_file_is_empty() {
    assert_eq!(decode(&Vec::new()), Vec::<Vec<u8>>::new());
}

#[test]
fn decode_cuts_at_every_line_break() {
    assert_eq!(decode(&b"one\ntwo\nthree\n".to_vec()), vec![
        b"one".to_vec(),
        b"two".to_vec(),
        b"three".to_vec()
    ]);
}

#[test]
fn decode_keeps_empty_records() {
    assert_eq!(decode(&b"\n\nx\n".to_vec()), vec![Vec::new(), Vec::new(), b"x".to_vec()]);
}

#[test]
fn decode_leaves_out_an_unfinished_last_record() {
    assert_eq!(decode(&b"whole\nhalf".to_vec()), vec![b"whole".to_vec()]);
    assert_eq!(decode(&b"half".to_vec()), Vec::<Vec<u8>>::new());
}

#[test]
fn decode_undoes_frame() {
    let records = vec![b"{\"a\":1}".to_vec(), Vec::new(), b"[1,2,3]".to_vec()];
    let mut file = Vec::new();
    for record in &records {
        file.extend_from_slice(Line::frame(record.clone()).unwrap().as_bytes());
    }
    assert_eq!(decode(&file), records);
}

#[test]
fn decode_reads_back_json_values() {
    let mut position = serde_json::Map::new();
    position.insert(String::from("latitude_deg"), serde_json::Value::from(47.397742));
    position.insert(String::from("note"), serde_json::Value::from("line\nbreak"));
    let first = serde_json::Value::Object(position);
    let second = serde_json::Value::from(vec![1, 2, 3]);

    let mut file = Vec::new();
    for value in [&first, &second] {
        let encoded = serde_json::to_vec(value).unwrap();
        file.extend_from_slice(Line::frame(encoded).unwrap().as_bytes());
    }
    let lines = decode(&file);
    assert_eq!(lines.len(), 2);
    assert_eq!(serde_json::from_slice::<serde_json::Value>(&lines[0]).unwrap(), first);
    assert_eq!(serde_json::from_slice::<serde_json::Value>(&lines[1]).unwrap(), second);
}

#[test]
fn store_is_created_only_on_a_new_file() {
    let store = FileStore::create(String::from("./a.json"), OpenOutcome::Created).unwrap();
    assert_eq!(store.destination().as_str(), "./a.json");
    assert!(!store.is_writing());
    assert_eq!(
        FileStore::create(String::from("./a.json"), OpenOutcome::AlreadyExists).err(),
        Some(StoreError::Collision)
    );
    assert_eq!(
        FileStore::create(String::from("./a.json"), OpenOutcome::Denied).err(),
        Some(StoreError::Unwritable)
    );
}

#[test]
fn store_add_in_two_halves() {
    let mut store = FileStore::create(String::from("./a.json"), OpenOutcome::Created).unwrap();
    let line = store.prepare(Some(b"{}".to_vec())).unwrap();
    assert_eq!(line.as_bytes(), &b"{}\n".to_vec());
    assert!(store.is_writing());
    assert_eq!(store.complete(true), Ok(()));
    assert!(!store.is_writing());
}

#[test]
fn store_reports_a_serialization_failure() {
    let mut store = FileStore::create(String::from("./a.json"), OpenOutcome::Created).unwrap();
    assert_eq!(store.prepare(None).err(), Some(RecordFailure::Serialization));
    assert!(!store.is_writing());
    assert_eq!(store.prepare(Some(b"a\nb".to_vec())).err(), Some(RecordFailure::Serialization));
    assert!(!store.is_writing());
}

#[test]
fn store_reports_an_io_failure_and_goes_on() {
    let mut store = FileStore::create(String::from("./a.json"), OpenOutcome::Created).unwrap();
    assert!(store.prepare(Some(b"first".to_vec())).is_ok());
    assert_eq!(store.complete(false), Err(RecordFailure::Io));
    assert!(!store.is_writing());
    assert!(store.prepare(Some(b"second".to_vec())).is_ok());
    assert_eq!(store.complete(true), Ok(()));
}

#[test]
fn only_a_connection_failure_stops_the_process() {
    assert_eq!(Failure::Connection.scope(), Scope::Process);
    assert_eq!(Failure::Subscribe.scope(), Scope::Channel);
    assert_eq!(Failure::StoreCreation(StoreError::Collision).scope(), Scope::Channel);
    assert_eq!(Failure::StoreCreation(StoreError::Unwritable).scope(), Scope::Channel);
    assert_eq!(Failure::Stream.scope(), Scope::Channel);
    assert_eq!(Failure::Record(RecordFailure::Serialization).scope(), Scope::Record);
    assert_eq!(Failure::Record(RecordFailure::Io).scope(), Scope::Record);
}

#[test]
fn only_a_record_failure_spares_its_channel() {
    assert!(Failure::Record(RecordFailure::Io).channel_survives());
    assert!(Failure::Record(RecordFailure::Serialization).channel_survives());
    assert!(!Failure::Subscribe.channel_survives());
    assert!(!Failure::StoreCreation(StoreError::Collision).channel_survives());
    assert!(!Failure::Stream.channel_survives());
    assert!(!Failure::Connection.channel_survives());
}

#[test]
fn channel_failures_spare_the_other_channels() {
    assert!(Failure::Record(RecordFailure::Io).others_survive());
    assert!(Failure::Subscribe.others_survive());
    assert!(Failure::StoreCreation(StoreError::Unwritable).others_survive());
    assert!(Failure::Stream.others_survive());
    assert!(!Failure::Connection.others_survive());
}

#[test]
fn crate_root_names_entry_store_and_recorder() {
    fn made<S: telemetry::Recorder>(destination: &str) -> S {
        S::create(String::from(destination), OpenOutcome::Created).unwrap()
    }
    let store: telemetry::FileStore = made("./b.json");
    assert_eq!(store.destination().as_str(), "./b.json");
    let entry = telemetry::Entry::new(7u8);
    assert_eq!(*entry.record(), 7);
}
