//! The recorder of one channel: a state machine that is told what happened
//! on the subscription and on the file, and answers what to do next.
//!
//! The recorder never waits and never writes. Its owner subscribes,
//! receives, serializes and writes, hands each outcome to [`ChannelRecorder::step`]
//! and carries out the [`Action`] that comes back. A record that cannot be
//! stored is skipped; only the subscription can end the recording.

use crate::failure::{RecordFailure, StoreError};
use crate::framing::{decoded, single_line, Line};
use crate::store::{creation, kept, Attempt, FileStore, OpenOutcome, Recorder, StoreModel};
use crate::store::{
    lemma_file_decodes_to_kept, lemma_file_empty_iff_no_attempt, lemma_kept_bounds,
};
use vstd::prelude::*;

verus! {

/// Why a channel's recording is over.
#[derive(Clone, Copy, Debug, PartialEq, Eq, Structural)]
pub enum Termination {
    /// The subscribe call failed: nothing was received.
    SubscribeFailed,
    /// The remote service closed the stream.
    StreamEnded,
    /// The stream broke.
    StreamFailed,
}

/// Where a channel's recording stands.
#[derive(Clone, Copy, Debug, PartialEq, Eq, Structural)]
pub enum RecorderState {
    /// The subscribe call has not been answered yet.
    Subscribing,
    /// Records are being received and stored.
    Streaming,
    /// The recording is over.
    Terminated(Termination),
}

/// What happened, as the recorder's owner saw it.
#[derive(Debug, PartialEq, Eq)]
pub enum Event {
    /// The subscribe call succeeded.
    Subscribed,
    /// The subscribe call failed.
    SubscribeFailed,
    /// A record arrived. It comes as the encoding of its entry, or as `None`
    /// where the entry could not be serialized.
    Message(Option<Vec<u8>>),
    /// The line handed out last was written through to the file.
    Written,
    /// The line handed out last could not be written.
    WriteFailed,
    /// The stream ended.
    StreamEnded,
    /// The stream broke.
    StreamFailed,
}

/// What the recorder's owner is to do next.
#[derive(Debug, PartialEq, Eq)]
pub enum Action {
    /// Wait for the next message of the subscription.
    Receive,
    /// Append this line to the file, force it to stable storage, and report
    /// `Written` or `WriteFailed`.
    Append(Line),
    /// Log that the record was dropped for this reason, then wait for the
    /// next message.
    Skip(RecordFailure),
    /// Leave: the recording is over for this reason.
    Stop(Termination),
    /// The event does not fit the state. Nothing changed.
    Ignored,
}

/// An [`Action`], with the record in place of the line that carries it.
pub enum Reply {
    Receive,
    Append(Seq<u8>),
    Skip(RecordFailure),
    Stop(Termination),
    Ignored,
}

impl Action {
    /// The action, as the model sees it.
    pub open spec fn view(self) -> Reply {
        match self {
            Action::Receive => Reply::Receive,
            Action::Append(line) => Reply::Append(line.record()),
            Action::Skip(failure) => Reply::Skip(failure),
            Action::Stop(reason) => Reply::Stop(reason),
            Action::Ignored => Reply::Ignored,
        }
    }
}

/// What a recorder amounts to: its state and the account of its file.
#[verifier::ext_equal]
pub struct RecorderModel {
    pub state: RecorderState,
    pub store: StoreModel,
}

impl RecorderModel {
    /// A recorder that has just been given its freshly created store.
    pub open spec fn initial(path: Seq<char>) -> RecorderModel {
        RecorderModel { state: RecorderState::Subscribing, store: StoreModel::fresh(path) }
    }

    /// The store's account is sound.
    pub open spec fn consistent(self) -> bool {
        self.store.consistent()
    }

    /// A write is under way only while streaming.
    pub open spec fn orderly(self) -> bool {
        self.store.writing is Some ==> self.state == RecorderState::Streaming
    }

    /// How many records have arrived.
    pub open spec fn received(self) -> nat {
        if self.store.writing is Some {
            self.store.attempts.len() + 1
        } else {
            self.store.attempts.len()
        }
    }

    /// The recorder after `event`.
    pub open spec fn next(self, event: Event) -> RecorderModel {
        match self.state {
            RecorderState::Subscribing => match event {
                Event::Subscribed => RecorderModel { state: RecorderState::Streaming, ..self },
                Event::SubscribeFailed => RecorderModel {
                    state: RecorderState::Terminated(Termination::SubscribeFailed),
                    ..self
                },
                _ => self,
            },
            RecorderState::Streaming => match self.store.writing {
                Some(record) => match event {
                    Event::Written => RecorderModel {
                        store: self.store.ended(Attempt { encoded: Some(record), stored: true }),
                        ..self
                    },
                    Event::WriteFailed => RecorderModel {
                        store: self.store.ended(Attempt { encoded: Some(record), stored: false }),
                        ..self
                    },
                    _ => self,
                },
                None => match event {
                    Event::Message(Some(bytes)) => if single_line(bytes@) {
                        RecorderModel { store: self.store.begun(bytes@), ..self }
                    } else {
                        RecorderModel {
                            store: self.store.ended(
                                Attempt { encoded: Some(bytes@), stored: false },
                            ),
                            ..self
                        }
                    },
                    Event::Message(None) => RecorderModel {
                        store: self.store.ended(Attempt { encoded: None, stored: false }),
                        ..self
                    },
                    Event::StreamEnded => RecorderModel {
                        state: RecorderState::Terminated(Termination::StreamEnded),
                        ..self
                    },
                    Event::StreamFailed => RecorderModel {
                        state: RecorderState::Terminated(Termination::StreamFailed),
                        ..self
                    },
                    _ => self,
                },
            },
            RecorderState::Terminated(_) => self,
        }
    }

    /// What the recorder answers to `event`.
    pub open spec fn reply(self, event: Event) -> Reply {
        match self.state {
            RecorderState::Subscribing => match event {
                Event::Subscribed => Reply::Receive,
                Event::SubscribeFailed => Reply::Stop(Termination::SubscribeFailed),
                _ => Reply::Ignored,
            },
            RecorderState::Streaming => match self.store.writing {
                Some(_) => match event {
                    Event::Written => Reply::Receive,
                    Event::WriteFailed => Reply::Skip(RecordFailure::Io),
                    _ => Reply::Ignored,
                },
                None => match event {
                    Event::Message(Some(bytes)) => if single_line(bytes@) {
                        Reply::Append(bytes@)
                    } else {
                        Reply::Skip(RecordFailure::Serialization)
                    },
                    Event::Message(None) => Reply::Skip(RecordFailure::Serialization),
                    Event::StreamEnded => Reply::Stop(Termination::StreamEnded),
                    Event::StreamFailed => Reply::Stop(Termination::StreamFailed),
                    _ => Reply::Ignored,
                },
            },
            RecorderState::Terminated(_) => Reply::Ignored,
        }
    }
}

/// The recorder that a fresh store at `path` becomes after `events`, oldest
/// first.
pub open spec fn replay(path: Seq<char>, events: Seq<Event>) -> RecorderModel
    decreases events.len(),
{
    if events.len() == 0 {
        RecorderModel::initial(path)
    } else {
        replay(path, events.drop_last()).next(events.last())
    }
}

/// No event takes a sound recorder to an unsound one.
pub proof fn lemma_next_consistent(model: RecorderModel, event: Event)
    requires
        model.consistent(),
    ensures
        model.next(event).consistent(),
{
    let after = model.next(event);
    if after.store.attempts != model.store.attempts {
        let added = after.store.attempts.last();
        assert(after.store.attempts =~= model.store.attempts.push(added));
        assert forall|k: int|
            0 <= k < after.store.attempts.len() && (#[trigger] after.store.attempts[k]).stored implies {
            &&& after.store.attempts[k].encoded is Some
            &&& single_line(after.store.attempts[k].encoded->0)
        } by {
            if k < model.store.attempts.len() {
                assert(after.store.attempts[k] == model.store.attempts[k]);
            }
        }
    }
}

/// Whatever happens, in whatever order, the recorder stays sound, and a
/// write is never left open by a recorder that is not streaming.
pub proof fn lemma_replay_consistent(path: Seq<char>, events: Seq<Event>)
    ensures
        replay(path, events).consistent(),
        replay(path, events).orderly(),
    decreases events.len(),
{
    if events.len() > 0 {
        lemma_replay_consistent(path, events.drop_last());
        lemma_next_consistent(replay(path, events.drop_last()), events.last());
    }
}

/// Once a recording is over, no event changes it or is answered.
pub proof fn lemma_terminated_is_final(model: RecorderModel, event: Event)
    requires
        model.state is Terminated,
    ensures
        model.next(event) == model,
        model.reply(event) == Reply::Ignored,
{
}

/// A record that cannot be stored does not end the recording: whatever
/// arrives, and however its write goes, a streaming recorder streams on.
pub proof fn lemma_record_failure_is_isolated(model: RecorderModel, event: Event)
    requires
        model.state == RecorderState::Streaming,
        event is Message || event is Written || event is WriteFailed,
    ensures
        model.next(event).state == RecorderState::Streaming,
        model.reply(event) is Skip ==> model.next(event).store.writing is None,
{
}

/// Only the subscription ends a recording: a recorder that has stopped
/// after `event` was stopped by the subscribe call or by the stream.
pub proof fn lemma_only_the_stream_stops(model: RecorderModel, event: Event)
    requires
        !(model.state is Terminated),
        model.next(event).state is Terminated,
    ensures
        event is SubscribeFailed || event is StreamEnded || event is StreamFailed,
        model.next(event).store == model.store,
        model.reply(event) == Reply::Stop(model.next(event).state->0),
{
}

/// An event never takes anything out of the file nor reorders it: the
/// finished attempts are kept as they are and at most one is added.
pub proof fn lemma_attempts_only_grow(model: RecorderModel, event: Event)
    ensures
        model.next(event).store.path == model.store.path,
        model.next(event).store.attempts == model.store.attempts || exists|attempt: Attempt|
            model.next(event).store.attempts == model.store.attempts.push(attempt),
{
    let after = model.next(event);
    if after.store.attempts != model.store.attempts {
        assert(after.store.attempts == model.store.attempts.push(after.store.attempts.last()));
    }
}

/// After any run of events, decoding the file gives the records that were
/// stored, in the order in which they arrived.
pub proof fn lemma_file_reproduces_records(path: Seq<char>, events: Seq<Event>)
    ensures
        decoded(replay(path, events).store.contents()) == kept(replay(path, events).store.attempts),
{
    lemma_replay_consistent(path, events);
    lemma_file_decodes_to_kept(replay(path, events).store);
}

/// After any run of events, the file has one line for each record that was
/// stored, and no more lines than records arrived.
pub proof fn lemma_lines_count_stored_records(path: Seq<char>, events: Seq<Event>)
    ensures
        decoded(replay(path, events).store.contents()).len() == kept(
            replay(path, events).store.attempts,
        ).len(),
        decoded(replay(path, events).store.contents()).len() <= replay(path, events).received(),
{
    let model = replay(path, events);
    lemma_replay_consistent(path, events);
    lemma_file_decodes_to_kept(model.store);
    lemma_kept_bounds(model.store);
}

/// After a run of events in which no record was dropped and no write is
/// left open, the file is non-empty exactly when a record arrived.
pub proof fn lemma_file_nonempty_iff_received(path: Seq<char>, events: Seq<Event>)
    requires
        replay(path, events).store.writing is None,
        forall|k: int|
            0 <= k < replay(path, events).store.attempts.len() ==> (
            #[trigger] replay(path, events).store.attempts[k]).stored,
    ensures
        replay(path, events).store.contents().len() > 0 <==> replay(path, events).received() > 0,
{
    lemma_replay_consistent(path, events);
    lemma_file_empty_iff_no_attempt(replay(path, events).store);
}

/// The recorder of one channel, with the store it records to.
pub struct ChannelRecorder<S: Recorder> {
    state: RecorderState,
    store: S,
}

/// The recorder of a channel that records to a file.
pub type FileRecorder = ChannelRecorder<FileStore>;

impl<S: Recorder> ChannelRecorder<S> {
    /// What this recorder amounts to.
    pub closed spec fn view(self) -> RecorderModel {
        RecorderModel { state: self.state, store: self.store.account() }
    }

    /// Makes the recorder of the channel whose destination is `path`, given
    /// what creating that destination for exclusive writing gave. Where
    /// the store cannot be created there is no recorder: the channel does
    /// not start.
    pub fn open(path: String, opened: OpenOutcome) -> (recorder: Result<
        ChannelRecorder<S>,
        StoreError,
    >)
        ensures
            match recorder {
                Ok(made) => creation(opened) is Ok && made@ == RecorderModel::initial(path@),
                Err(error) => creation(opened) == Err::<(), StoreError>(error),
            },
    {
        match S::create(path, opened) {
            Ok(store) => Ok(ChannelRecorder { state: RecorderState::Subscribing, store }),
            Err(error) => Err(error),
        }
    }

    /// Where the recording stands.
    pub fn state(&self) -> (state: RecorderState)
        ensures
            state == self@.state,
    {
        self.state
    }

    /// The destination this recorder records to.
    pub fn path(&self) -> (path: &String)
        ensures
            path@ == self@.store.path,
    {
        self.store.destination()
    }

    /// Whether the recording is over.
    pub fn is_terminated(&self) -> (over: bool)
        ensures
            over == (self@.state is Terminated),
    {
        match self.state {
            RecorderState::Terminated(_) => true,
            _ => false,
        }
    }

    /// Takes what happened and answers what to do next.
    ///
    /// While subscribing, only the answer to the subscribe call counts.
    /// While streaming, a message is turned into a line to append, or
    /// skipped where it has no encoding on one line; after a line was
    /// handed out only the outcome of its write counts; the end or the
    /// failure of the stream ends the recording. An event that does not fit
    /// is ignored.
    pub fn step(&mut self, event: Event) -> (action: Action)
        ensures
            final(self)@ == old(self)@.next(event),
            action@ == old(self)@.reply(event),
            old(self)@.consistent(),
            final(self)@.consistent(),
    {
        let writing = self.store.is_writing();
        match self.state {
            RecorderState::Subscribing => {
                match event {
                    Event::Subscribed => {
                        self.state = RecorderState::Streaming;
                        Action::Receive
                    },
                    Event::SubscribeFailed => {
                        self.state = RecorderState::Terminated(Termination::SubscribeFailed);
                        Action::Stop(Termination::SubscribeFailed)
                    },
                    _ => Action::Ignored,
                }
            },
            RecorderState::Streaming => {
                if writing {
                    match event {
                        Event::Written => match self.store.complete(true) {
                            Ok(()) => Action::Receive,
                            Err(failure) => Action::Skip(failure),
                        },
                        Event::WriteFailed => match self.store.complete(false) {
                            Ok(()) => Action::Receive,
                            Err(failure) => Action::Skip(failure),
                        },
                        _ => Action::Ignored,
                    }
                } else {
                    match event {
                        Event::Message(encoded) => {
                            match self.store.prepare(encoded) {
                                Ok(line) => Action::Append(line),
                                Err(failure) => Action::Skip(failure),
                            }
                        },
                        Event::StreamEnded => {
                            self.state = RecorderState::Terminated(Termination::StreamEnded);
                            Action::Stop(Termination::StreamEnded)
                        },
                        Event::StreamFailed => {
                            self.state = RecorderState::Terminated(Termination::StreamFailed);
                            Action::Stop(Termination::StreamFailed)
                        },
                        _ => Action::Ignored,
                    }
                }
            },
            RecorderState::Terminated(_) => Action::Ignored,
        }
    }
}

} // verus!
