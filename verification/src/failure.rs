//! What can go wrong while recording, and how far each failure reaches.

use vstd::prelude::*;

verus! {

/// Why a store could not be created at its destination.
#[derive(Clone, Copy, Debug, PartialEq, Eq, Structural)]
pub enum StoreError {
    /// The destination exists already. It is never overwritten.
    Collision,
    /// The destination could not be prepared for writing.
    Unwritable,
}

/// Why a single record did not reach the file.
#[derive(Clone, Copy, Debug, PartialEq, Eq, Structural)]
pub enum RecordFailure {
    /// The record has no encoding that fits on one line.
    Serialization,
    /// The line was not written through to the file.
    Io,
}

/// Every kind of failure the recorder meets.
#[derive(Clone, Copy, Debug, PartialEq, Eq, Structural)]
pub enum Failure {
    /// The remote service could not be reached.
    Connection,
    /// One channel's subscribe call failed.
    Subscribe,
    /// One channel's destination could not be prepared.
    StoreCreation(StoreError),
    /// One record could not be added to its store.
    Record(RecordFailure),
    /// One channel's subscription broke in mid-stream.
    Stream,
}

/// How much of the running recording a failure takes down.
#[derive(Clone, Copy, Debug, PartialEq, Eq, Structural)]
pub enum Scope {
    /// One record is dropped; its channel goes on.
    Record,
    /// One channel stops; the others go on.
    Channel,
    /// Nothing can be recorded at all.
    Process,
}

impl Failure {
    /// How far this failure reaches. Only a failed connection stops the
    /// whole process, and only a failure of a single record leaves its
    /// channel running.
    pub open spec fn reach(self) -> Scope {
        match self {
            Failure::Connection => Scope::Process,
            Failure::Record(_) => Scope::Record,
            Failure::Subscribe => Scope::Channel,
            Failure::StoreCreation(_) => Scope::Channel,
            Failure::Stream => Scope::Channel,
        }
    }

    /// How far this failure reaches.
    pub fn scope(&self) -> (scope: Scope)
        ensures
            scope == self.reach(),
    {
        match self {
            Failure::Connection => Scope::Process,
            Failure::Record(_) => Scope::Record,
            Failure::Subscribe => Scope::Channel,
            Failure::StoreCreation(_) => Scope::Channel,
            Failure::Stream => Scope::Channel,
        }
    }

    /// Whether the channel on which the failure happened goes on recording.
    pub fn channel_survives(&self) -> (survives: bool)
        ensures
            survives <==> self.reach() == Scope::Record,
    {
        match self {
            Failure::Record(_) => true,
            _ => false,
        }
    }

    /// Whether the channels on which the failure did not happen go on
    /// recording.
    pub fn others_survive(&self) -> (survive: bool)
        ensures
            survive <==> self.reach() != Scope::Process,
    {
        match self {
            Failure::Connection => false,
            _ => true,
        }
    }
}

} // verus!
