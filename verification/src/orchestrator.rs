//! One recording session: a single start time that names every file of the
//! run, and one recorder per channel that shares nothing with the others.

use crate::clock::Timestamp;
use crate::destination::{file_path_text, get_file_path};
use crate::failure::StoreError;
use crate::recorder::{ChannelRecorder, Event, FileRecorder, RecorderModel};
use crate::store::{creation, OpenOutcome};
use vstd::prelude::*;

verus! {

/// The files that exist, and the names under which a new file can be made.
pub struct Volume {
    /// Each file that exists, by name, with its bytes.
    pub files: Map<Seq<char>, Seq<u8>>,
    /// The names that can be written to.
    pub writable: Set<Seq<char>>,
}

impl Volume {
    /// What creating `path` for exclusive writing gives on this volume.
    pub open spec fn create_new(self, path: Seq<char>) -> OpenOutcome {
        if self.files.dom().contains(path) {
            OpenOutcome::AlreadyExists
        } else if self.writable.contains(path) {
            OpenOutcome::Created
        } else {
            OpenOutcome::Denied
        }
    }

    /// The volume after `path` was created for exclusive writing: a new
    /// empty file where that succeeded, no change where it did not.
    pub open spec fn after_create_new(self, path: Seq<char>) -> Volume {
        if self.create_new(path) == OpenOutcome::Created {
            Volume { files: self.files.insert(path, Seq::empty()), ..self }
        } else {
            self
        }
    }
}

/// A destination that was created exists from then on, and is empty until
/// something is written to it.
pub proof fn lemma_created_file_exists(volume: Volume, path: Seq<char>)
    requires
        volume.create_new(path) == OpenOutcome::Created,
    ensures
        volume.after_create_new(path).files.dom().contains(path),
        volume.after_create_new(path).files[path].len() == 0,
{
}

/// Creating a destination never touches a file that exists: neither its
/// bytes nor its presence.
pub proof fn lemma_create_keeps_files(volume: Volume, path: Seq<char>, other: Seq<char>)
    requires
        volume.files.dom().contains(other),
    ensures
        volume.after_create_new(path).files.dom().contains(other),
        volume.after_create_new(path).files[other] == volume.files[other],
{
}

/// A session that runs again with the same start time finds the file of
/// each of its channels in place: creating the store is refused as a
/// collision, and the file of the first run keeps its bytes.
pub proof fn lemma_rerun_collides(volume: Volume, channel: Seq<char>, time: Seq<char>)
    requires
        volume.create_new(file_path_text(channel, time)) == OpenOutcome::Created,
    ensures
        ({
            let path = file_path_text(channel, time);
            let first_run = volume.after_create_new(path);
            &&& first_run.create_new(path) == OpenOutcome::AlreadyExists
            &&& creation(first_run.create_new(path)) == Err::<(), StoreError>(StoreError::Collision)
            &&& first_run.after_create_new(path) == first_run
        }),
{
}

/// A file that exists is never created over, whatever it holds.
pub proof fn lemma_existing_file_collides(volume: Volume, path: Seq<char>)
    requires
        volume.files.dom().contains(path),
    ensures
        creation(volume.create_new(path)) == Err::<(), StoreError>(StoreError::Collision),
        volume.after_create_new(path) == volume,
{
}

/// The recorders of a session after `event` reached the recorder at
/// `channel`.
pub open spec fn deliver(fleet: Seq<RecorderModel>, channel: int, event: Event) -> Seq<
    RecorderModel,
> {
    if 0 <= channel < fleet.len() {
        fleet.update(channel, fleet[channel].next(event))
    } else {
        fleet
    }
}

/// What happens on one channel changes no other channel.
pub proof fn lemma_channels_are_isolated(
    fleet: Seq<RecorderModel>,
    channel: int,
    event: Event,
    other: int,
)
    requires
        0 <= other < fleet.len(),
        other != channel,
    ensures
        deliver(fleet, channel, event).len() == fleet.len(),
        deliver(fleet, channel, event)[other] == fleet[other],
{
}

/// A channel whose subscribe call fails stops alone: every other channel
/// takes its next event, and answers it, as if nothing had happened.
pub proof fn lemma_subscribe_failure_is_contained(
    fleet: Seq<RecorderModel>,
    failed: int,
    other: int,
    event: Event,
)
    requires
        0 <= other < fleet.len(),
        other != failed,
    ensures
        deliver(deliver(fleet, failed, Event::SubscribeFailed), other, event)[other]
            == fleet[other].next(event),
        deliver(fleet, failed, Event::SubscribeFailed)[other].reply(event) == fleet[other].reply(
            event,
        ),
{
}

/// Events on two different channels can be taken in either order.
pub proof fn lemma_channels_commute(
    fleet: Seq<RecorderModel>,
    first: int,
    first_event: Event,
    second: int,
    second_event: Event,
)
    requires
        first != second,
    ensures
        deliver(deliver(fleet, first, first_event), second, second_event) == deliver(
            deliver(fleet, second, second_event),
            first,
            first_event,
        ),
{
    let one = deliver(deliver(fleet, first, first_event), second, second_event);
    let other = deliver(deliver(fleet, second, second_event), first, first_event);
    assert(one =~= other);
}

/// One run of the recorder. Its start time is taken once and names the
/// file of every channel.
#[derive(Clone, Copy, Debug)]
pub struct Session {
    started: Timestamp,
}

impl Session {
    /// The instant at which the session started.
    pub closed spec fn view(self) -> Timestamp {
        self.started
    }

    /// Starts a session now: its start time is read from the system clock,
    /// once. Whatever the clock shows, the start time is one that `chrono`
    /// can represent, so every channel of the session has a file name.
    pub fn start() -> (session: Session)
        ensures
            session@.representable(),
    {
        Session { started: Timestamp::now() }
    }

    /// The session that started at `started`.
    pub fn at(started: Timestamp) -> (session: Session)
        ensures
            session@ == started,
    {
        Session { started }
    }

    /// The instant at which the session started.
    pub fn started(&self) -> (started: Timestamp)
        ensures
            started == self@,
    {
        self.started
    }

    /// The file for `channel` in this session.
    pub fn destination(&self, channel: &str) -> (path: String)
        ensures
            path@ == file_path_text(channel@, self@.text()),
    {
        get_file_path(channel, self.started)
    }

    /// Makes the recorder for `channel`, given what creating the channel's
    /// file for exclusive writing gave. A channel whose file cannot be
    /// created does not start; that decides nothing for any other channel.
    pub fn open_channel(&self, channel: &str, opened: OpenOutcome) -> (recorder: Result<
        FileRecorder,
        StoreError,
    >)
        ensures
            match recorder {
                Ok(made) => creation(opened) is Ok && made@ == RecorderModel::initial(
                    file_path_text(channel@, self@.text()),
                ),
                Err(error) => creation(opened) == Err::<(), StoreError>(error),
            },
    {
        ChannelRecorder::open(self.destination(channel), opened)
    }
}

} // verus!
