//! Stores: the abstraction, and the file-backed store that keeps one
//! append-only file of framed records.
//!
//! A store does no I/O. Whoever owns the file asks the store for the line
//! to write, writes it through to stable storage, and tells the store how
//! that went. The store keeps the account: which records were offered, and
//! which of them are in the file.

use crate::failure::{RecordFailure, StoreError};
use crate::framing::{all_single_line, decoded, image, single_line, Line};
use crate::framing::{lemma_image_empty, lemma_image_push, lemma_round_trip};
use vstd::prelude::*;

verus! {

/// What the attempt to create a destination for exclusive writing gave.
#[derive(Clone, Copy, Debug, PartialEq, Eq, Structural)]
pub enum OpenOutcome {
    /// The file did not exist and was created empty.
    Created,
    /// A file of that name exists already. It was left as it is.
    AlreadyExists,
    /// The file could not be created.
    Denied,
}

/// One call of `add`, once it is over: what was offered, and whether it now
/// stands in the file.
pub struct Attempt {
    /// The encoding of the record, or `None` where it had none.
    pub encoded: Option<Seq<u8>>,
    /// Whether the record was written through to the file.
    pub stored: bool,
}

/// The records among `attempts` that were stored, in the order in which
/// they were offered.
pub open spec fn kept(attempts: Seq<Attempt>) -> Seq<Seq<u8>>
    decreases attempts.len(),
{
    if attempts.len() == 0 {
        Seq::empty()
    } else if attempts.last().stored && attempts.last().encoded is Some {
        kept(attempts.drop_last()).push(attempts.last().encoded->0)
    } else {
        kept(attempts.drop_last())
    }
}

/// What a store amounts to.
#[verifier::ext_equal]
pub struct StoreModel {
    /// The destination.
    pub path: Seq<char>,
    /// Every finished call of `add`, oldest first.
    pub attempts: Seq<Attempt>,
    /// The record whose line was handed out and is being written, if any.
    pub writing: Option<Seq<u8>>,
}

impl StoreModel {
    /// A store as it is right after its creation.
    pub open spec fn fresh(path: Seq<char>) -> StoreModel {
        StoreModel { path, attempts: Seq::empty(), writing: None }
    }

    /// Only records that fit on one line are ever stored or written.
    pub open spec fn consistent(self) -> bool {
        &&& forall|k: int|
            0 <= k < self.attempts.len() && (#[trigger] self.attempts[k]).stored ==> {
                &&& self.attempts[k].encoded is Some
                &&& single_line(self.attempts[k].encoded->0)
            }
        &&& self.writing matches Some(record) ==> single_line(record)
    }

    /// The records in the file, oldest first.
    pub open spec fn records(self) -> Seq<Seq<u8>> {
        kept(self.attempts)
    }

    /// The bytes of the file.
    pub open spec fn contents(self) -> Seq<u8> {
        image(self.records())
    }

    /// The store after the line for `record` was handed out.
    pub open spec fn begun(self, record: Seq<u8>) -> StoreModel {
        StoreModel { writing: Some(record), ..self }
    }

    /// The store after an attempt has ended.
    pub open spec fn ended(self, attempt: Attempt) -> StoreModel {
        StoreModel { attempts: self.attempts.push(attempt), writing: None, ..self }
    }
}

/// The outcome of creating a store, as a function of what the open gave.
pub open spec fn creation(opened: OpenOutcome) -> Result<(), StoreError> {
    match opened {
        OpenOutcome::Created => Ok(()),
        OpenOutcome::AlreadyExists => Err(StoreError::Collision),
        OpenOutcome::Denied => Err(StoreError::Unwritable),
    }
}

/// An attempt that ends adds its record to the kept ones exactly when it was
/// stored.
pub proof fn lemma_kept_push(attempts: Seq<Attempt>, attempt: Attempt)
    ensures
        kept(attempts.push(attempt)) == if attempt.stored && attempt.encoded is Some {
            kept(attempts).push(attempt.encoded->0)
        } else {
            kept(attempts)
        },
{
    assert(attempts.push(attempt).drop_last() =~= attempts);
}

/// The kept records are no more than the attempts, and each fits on one
/// line.
pub proof fn lemma_kept_bounds(model: StoreModel)
    requires
        model.consistent(),
    ensures
        model.records().len() <= model.attempts.len(),
        all_single_line(model.records()),
    decreases model.attempts.len(),
{
    if model.attempts.len() > 0 {
        let earlier = StoreModel { attempts: model.attempts.drop_last(), ..model };
        assert forall|k: int|
            0 <= k < earlier.attempts.len() && (#[trigger] earlier.attempts[k]).stored implies {
            &&& earlier.attempts[k].encoded is Some
            &&& single_line(earlier.attempts[k].encoded->0)
        } by {
            assert(earlier.attempts[k] == model.attempts[k]);
        }
        lemma_kept_bounds(earlier);
        let last = model.attempts.last();
        if last.stored && last.encoded is Some {
            assert(model.attempts[model.attempts.len() - 1].stored);
            assert(single_line(last.encoded->0));
        }
    }
}

/// Decoding the file gives exactly the records that were stored, in the
/// order in which they were offered.
pub proof fn lemma_file_decodes_to_kept(model: StoreModel)
    requires
        model.consistent(),
    ensures
        decoded(model.contents()) == kept(model.attempts),
{
    lemma_kept_bounds(model);
    lemma_round_trip(model.records());
}

/// The file holds one line for each attempt that was stored, never more
/// lines than there were attempts.
pub proof fn lemma_lines_are_stored_attempts(model: StoreModel)
    requires
        model.consistent(),
    ensures
        decoded(model.contents()).len() == kept(model.attempts).len(),
        decoded(model.contents()).len() <= model.attempts.len(),
{
    lemma_file_decodes_to_kept(model);
    lemma_kept_bounds(model);
}

/// The file is non-empty exactly when at least one record was stored.
pub proof fn lemma_file_empty_iff_nothing_kept(model: StoreModel)
    ensures
        model.contents().len() > 0 <==> kept(model.attempts).len() > 0,
{
    lemma_image_empty(model.records());
}

/// Where every attempt was stored, the file is non-empty exactly when there
/// was an attempt.
pub proof fn lemma_file_empty_iff_no_attempt(model: StoreModel)
    requires
        model.consistent(),
        forall|k: int| 0 <= k < model.attempts.len() ==> (#[trigger] model.attempts[k]).stored,
    ensures
        model.contents().len() > 0 <==> model.attempts.len() > 0,
{
    lemma_image_empty(model.records());
    if model.attempts.len() > 0 {
        let last = model.attempts.last();
        assert(model.attempts[model.attempts.len() - 1].stored);
        assert(last.encoded is Some);
    }
}

/// An attempt that ends leaves the bytes already in the file where they
/// are: it appends one framed record, or nothing.
pub proof fn lemma_append_only(model: StoreModel, attempt: Attempt)
    ensures
        model.ended(attempt).contents() == if attempt.stored && attempt.encoded is Some {
            model.contents() + crate::framing::framed(attempt.encoded->0)
        } else {
            model.contents()
        },
{
    lemma_kept_push(model.attempts, attempt);
    if attempt.stored && attempt.encoded is Some {
        lemma_image_push(kept(model.attempts), attempt.encoded->0);
    }
}

/// The store abstraction: a durable sink for the entries of one channel,
/// made against a named destination.
///
/// An `add` comes in two halves, with the write between them: `prepare`
/// takes the encoding of an entry and gives the line to persist, `complete`
/// takes whether that line was persisted. A store is used by one writer, so
/// one line is under way at a time. A failed `add` loses one record and
/// leaves the store ready for the next.
pub trait Recorder: Sized {
    /// What this store amounts to.
    spec fn account(&self) -> StoreModel;

    /// Makes the store for `destination`, given what creating that
    /// destination for exclusive writing gave. A destination that exists
    /// already is a collision: no store is made for it.
    fn create(destination: String, opened: OpenOutcome) -> (store: Result<Self, StoreError>)
        ensures
            match store {
                Ok(made) => creation(opened) is Ok && made.account() == StoreModel::fresh(
                    destination@,
                ),
                Err(error) => creation(opened) == Err::<(), StoreError>(error),
            },
    ;

    /// The destination.
    fn destination(&self) -> (destination: &String)
        ensures
            destination@ == self.account().path,
    ;

    /// Whether a line was handed out and its write has not been reported
    /// yet.
    fn is_writing(&self) -> (writing: bool)
        ensures
            writing == (self.account().writing is Some),
            self.account().consistent(),
    ;

    /// First half of an `add`: takes the encoding of an entry, or `None`
    /// where the entry could not be serialized, and gives the line to
    /// persist.
    ///
    /// A record without an encoding, or with one that holds a line break,
    /// is a serialization failure: the attempt ends here and the store is
    /// ready for the next.
    fn prepare(&mut self, encoded: Option<Vec<u8>>) -> (line: Result<Line, RecordFailure>)
        requires
            old(self).account().writing is None,
        ensures
            final(self).account().consistent(),
            match encoded {
                Some(bytes) if single_line(bytes@) => {
                    &&& line matches Ok(framed)
                    &&& framed.record() == bytes@
                    &&& framed@ == crate::framing::framed(bytes@)
                    &&& final(self).account() == old(self).account().begun(bytes@)
                },
                Some(bytes) => {
                    &&& line == Err::<Line, RecordFailure>(RecordFailure::Serialization)
                    &&& final(self).account() == old(self).account().ended(
                        Attempt { encoded: Some(bytes@), stored: false },
                    )
                },
                None => {
                    &&& line == Err::<Line, RecordFailure>(RecordFailure::Serialization)
                    &&& final(self).account() == old(self).account().ended(
                        Attempt { encoded: None, stored: false },
                    )
                },
            },
    ;

    /// Second half of an `add`: takes whether the line was written through
    /// to stable storage. A line that was written is in the store from now
    /// on; one that was not is dropped, and the store is ready for the next
    /// record either way.
    fn complete(&mut self, written: bool) -> (done: Result<(), RecordFailure>)
        requires
            old(self).account().writing is Some,
        ensures
            final(self).account().consistent(),
            final(self).account() == old(self).account().ended(
                Attempt { encoded: old(self).account().writing, stored: written },
            ),
            done == if written {
                Ok::<(), RecordFailure>(())
            } else {
                Err::<(), RecordFailure>(RecordFailure::Io)
            },
    ;
}

/// The file-backed store: the account of one append-only log file. Its
/// destination is the file's path, and what it persists are lines.
pub struct FileStore {
    path: String,
    busy: bool,
    attempts: Ghost<Seq<Attempt>>,
    writing: Ghost<Seq<u8>>,
}

impl FileStore {
    #[verifier::type_invariant]
    spec fn well_formed(self) -> bool {
        self.view().consistent()
    }

    /// What this store amounts to.
    pub closed spec fn view(self) -> StoreModel {
        StoreModel {
            path: self.path@,
            attempts: self.attempts@,
            writing: if self.busy {
                Some(self.writing@)
            } else {
                None
            },
        }
    }
}

impl Recorder for FileStore {
    open spec fn account(&self) -> StoreModel {
        self.view()
    }

    fn create(destination: String, opened: OpenOutcome) -> (store: Result<FileStore, StoreError>) {
        match opened {
            OpenOutcome::Created => Ok(
                FileStore {
                    path: destination,
                    busy: false,
                    attempts: Ghost(Seq::empty()),
                    writing: Ghost(Seq::empty()),
                },
            ),
            OpenOutcome::AlreadyExists => Err(StoreError::Collision),
            OpenOutcome::Denied => Err(StoreError::Unwritable),
        }
    }

    fn destination(&self) -> (destination: &String) {
        &self.path
    }

    fn is_writing(&self) -> (writing: bool) {
        proof {
            use_type_invariant(self);
        }
        self.busy
    }

    fn prepare(&mut self, encoded: Option<Vec<u8>>) -> (line: Result<Line, RecordFailure>) {
        proof {
            use_type_invariant(&*self);
        }
        match encoded {
            Some(bytes) => {
                let ghost record = bytes@;
                match Line::frame(bytes) {
                    Some(framed) => {
                        self.writing = Ghost(record);
                        self.busy = true;
                        Ok(framed)
                    },
                    None => {
                        self.attempts = Ghost(
                            self.attempts@.push(Attempt { encoded: Some(record), stored: false }),
                        );
                        Err(RecordFailure::Serialization)
                    },
                }
            },
            None => {
                self.attempts = Ghost(
                    self.attempts@.push(Attempt { encoded: None, stored: false }),
                );
                Err(RecordFailure::Serialization)
            },
        }
    }

    fn complete(&mut self, written: bool) -> (done: Result<(), RecordFailure>) {
        proof {
            use_type_invariant(&*self);
        }
        self.attempts = Ghost(
            self.attempts@.push(Attempt { encoded: Some(self.writing@), stored: written }),
        );
        self.busy = false;
        if written {
            Ok(())
        } else {
            Err(RecordFailure::Io)
        }
    }
}

} // verus!
