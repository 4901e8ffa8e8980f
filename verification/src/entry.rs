//! A record and the instant at which it was received.

use crate::clock::Timestamp;
use vstd::prelude::*;

verus! {

/// One telemetry record, stamped with the wall-clock time of its receipt.
/// An entry is made once and never changed.
pub struct Entry<T> {
    record: T,
    captured: Timestamp,
}

impl<T> Entry<T> {
    /// The record that was received.
    pub closed spec fn record_of(self) -> T {
        self.record
    }

    /// The instant of receipt.
    pub closed spec fn captured_at(self) -> Timestamp {
        self.captured
    }

    /// Stamps `record` with the time the system clock shows now.
    pub fn new(record: T) -> (entry: Entry<T>)
        ensures
            entry.record_of() == record,
    {
        Entry { record, captured: Timestamp::now() }
    }

    /// Stamps `record` with `captured`.
    pub fn at(record: T, captured: Timestamp) -> (entry: Entry<T>)
        ensures
            entry.record_of() == record,
            entry.captured_at() == captured,
    {
        Entry { record, captured }
    }

    /// The record.
    pub fn record(&self) -> (record: &T)
        ensures
            *record == self.record_of(),
    {
        &self.record
    }

    /// The instant of receipt.
    pub fn captured(&self) -> (captured: Timestamp)
        ensures
            captured == self.captured_at(),
    {
        self.captured
    }

    /// Takes the entry apart.
    pub fn into_parts(self) -> (parts: (T, Timestamp))
        ensures
            parts.0 == self.record_of(),
            parts.1 == self.captured_at(),
    {
        (self.record, self.captured)
    }
}

} // verus!
