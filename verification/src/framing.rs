//! The layout of a log file: each record on a line of its own.
//!
//! A record is the bytes of one serialized entry. On disk it is followed by a
//! single line break, so a file is the concatenation of its framed records and
//! can be cut back into them.

use vstd::prelude::*;

verus! {

/// The byte that ends every record in a log file.
pub const LINE_BREAK: u8 = 10;

/// A record can be framed only if it holds no line break itself.
pub open spec fn single_line(record: Seq<u8>) -> bool {
    forall|i: int| 0 <= i < record.len() ==> record[i] != LINE_BREAK
}

/// Every record of the sequence fits on one line.
pub open spec fn all_single_line(records: Seq<Seq<u8>>) -> bool {
    forall|k: int| 0 <= k < records.len() ==> single_line(#[trigger] records[k])
}

/// A record as it stands in the file: its bytes, then the line break.
pub open spec fn framed(record: Seq<u8>) -> Seq<u8> {
    record.push(LINE_BREAK)
}

/// The bytes of a file that holds exactly `records`, in this order.
pub open spec fn image(records: Seq<Seq<u8>>) -> Seq<u8>
    decreases records.len(),
{
    if records.len() == 0 {
        Seq::empty()
    } else {
        framed(records.first()) + image(records.drop_first())
    }
}

/// How many bytes stand before the first line break of `bytes`; its length
/// where it holds none.
pub open spec fn first_break(bytes: Seq<u8>) -> nat
    decreases bytes.len(),
{
    if bytes.len() == 0 || bytes[0] == LINE_BREAK {
        0
    } else {
        1 + first_break(bytes.drop_first())
    }
}

/// The records of a file, in order. Bytes after the last line break belong to
/// a record that was never finished and are left out.
pub open spec fn decoded(bytes: Seq<u8>) -> Seq<Seq<u8>>
    decreases bytes.len(),
{
    let k = first_break(bytes) as int;
    if 0 <= k < bytes.len() {
        seq![bytes.subrange(0, k)] + decoded(bytes.subrange(k + 1, bytes.len() as int))
    } else {
        Seq::empty()
    }
}

/// `first_break` finds the first line break and nothing before it is one.
pub proof fn lemma_first_break(bytes: Seq<u8>)
    ensures
        first_break(bytes) <= bytes.len(),
        first_break(bytes) < bytes.len() ==> bytes[first_break(bytes) as int] == LINE_BREAK,
        forall|i: int| 0 <= i < first_break(bytes) ==> bytes[i] != LINE_BREAK,
    decreases bytes.len(),
{
    if bytes.len() == 0 || bytes[0] == LINE_BREAK {
    } else {
        let rest = bytes.drop_first();
        lemma_first_break(rest);
        assert forall|i: int| 0 <= i < first_break(bytes) implies bytes[i] != LINE_BREAK by {
            if i > 0 {
                assert(bytes[i] == rest[i - 1]);
            }
        }
        if first_break(bytes) < bytes.len() {
            assert(bytes[first_break(bytes) as int] == rest[first_break(rest) as int]);
        }
    }
}

/// A position that holds a line break, with none before it, is the first
/// break.
pub proof fn lemma_first_break_at(bytes: Seq<u8>, k: int)
    requires
        0 <= k <= bytes.len(),
        k < bytes.len() ==> bytes[k] == LINE_BREAK,
        forall|i: int| 0 <= i < k ==> bytes[i] != LINE_BREAK,
    ensures
        first_break(bytes) == k,
{
    lemma_first_break(bytes);
}

/// A file that starts with a framed record decodes to that record, followed
/// by what the rest of the file decodes to.
pub proof fn lemma_decoded_after_framed(record: Seq<u8>, rest: Seq<u8>)
    requires
        single_line(record),
    ensures
        decoded(framed(record) + rest) == seq![record] + decoded(rest),
{
    let bytes = framed(record) + rest;
    let k = record.len() as int;
    assert(bytes[k] == LINE_BREAK);
    assert forall|i: int| 0 <= i < k implies bytes[i] != LINE_BREAK by {
        assert(bytes[i] == record[i]);
    }
    lemma_first_break_at(bytes, k);
    assert(bytes.subrange(0, k) =~= record);
    assert(bytes.subrange(k + 1, bytes.len() as int) =~= rest);
}

/// Decoding a file gives back the records it was made of, in their order.
pub proof fn lemma_round_trip(records: Seq<Seq<u8>>)
    requires
        all_single_line(records),
    ensures
        decoded(image(records)) == records,
    decreases records.len(),
{
    if records.len() == 0 {
        assert(decoded(image(records)) =~= records);
    } else {
        let tail = records.drop_first();
        assert forall|k: int| 0 <= k < tail.len() implies single_line(#[trigger] tail[k]) by {
            assert(tail[k] == records[k + 1]);
        }
        lemma_round_trip(tail);
        lemma_decoded_after_framed(records.first(), image(tail));
        assert(seq![records.first()] + tail =~= records);
    }
}

/// Appending one more framed record to a file appends that record to what
/// the file holds.
pub proof fn lemma_image_push(records: Seq<Seq<u8>>, record: Seq<u8>)
    ensures
        image(records.push(record)) == image(records) + framed(record),
    decreases records.len(),
{
    let longer = records.push(record);
    if records.len() == 0 {
        assert(longer.drop_first() =~= Seq::<Seq<u8>>::empty());
        assert(image(longer.drop_first()) =~= Seq::<u8>::empty());
        assert(image(longer) =~= image(records) + framed(record));
    } else {
        let tail = records.drop_first();
        lemma_image_push(tail, record);
        assert(longer.drop_first() =~= tail.push(record));
        assert(longer.first() == records.first());
        assert(image(longer) =~= image(records) + framed(record));
    }
}

/// A file is empty exactly when it holds no record.
pub proof fn lemma_image_empty(records: Seq<Seq<u8>>)
    ensures
        image(records).len() == 0 <==> records.len() == 0,
        image(records).len() >= records.len(),
    decreases records.len(),
{
    if records.len() > 0 {
        lemma_image_empty(records.drop_first());
    }
}

/// A file that is only ever appended to keeps every earlier state as a
/// prefix: the bytes of `records` stand unchanged at the start of the file
/// after `more` was added.
pub proof fn lemma_image_prefix(records: Seq<Seq<u8>>, more: Seq<Seq<u8>>)
    ensures
        image(records + more) == image(records) + image(more),
    decreases more.len(),
{
    if more.len() == 0 {
        assert(records + more =~= records);
        assert(image(records + more) =~= image(records) + image(more));
    } else {
        let init = more.drop_last();
        lemma_image_prefix(records, init);
        lemma_image_push(records + init, more.last());
        lemma_image_push(init, more.last());
        assert(init.push(more.last()) =~= more);
        assert((records + init).push(more.last()) =~= records + more);
        assert(image(records + more) =~= image(records) + image(more));
    }
}

/// One record, framed for the file: its bytes and the closing line break.
#[derive(Debug, PartialEq, Eq)]
pub struct Line {
    bytes: Vec<u8>,
}

impl Line {
    #[verifier::type_invariant]
    spec fn well_formed(self) -> bool {
        &&& self.bytes@.len() >= 1
        &&& self.bytes@.last() == LINE_BREAK
        &&& single_line(self.bytes@.drop_last())
    }

    /// The record this line carries, without the line break.
    pub closed spec fn record(self) -> Seq<u8> {
        self.bytes@.drop_last()
    }

    /// The bytes to write: the record and its line break.
    pub closed spec fn view(self) -> Seq<u8> {
        self.bytes@
    }

    /// Frames `record`. A record that holds a line break cannot stand on one
    /// line and is refused.
    pub fn frame(record: Vec<u8>) -> (line: Option<Line>)
        ensures
            line is Some <==> single_line(record@),
            line matches Some(l) ==> l.record() == record@ && l@ == framed(record@),
    {
        if !fits_one_line(&record) {
            return None;
        }
        let ghost unframed = record@;
        let mut bytes = record;
        bytes.push(LINE_BREAK);
        assert(bytes@.drop_last() =~= unframed);
        Some(Line { bytes })
    }

    /// The bytes to write to the file.
    pub fn as_bytes(&self) -> (bytes: &Vec<u8>)
        ensures
            bytes@ == self@,
            bytes@ == framed(self.record()),
            single_line(self.record()),
    {
        proof {
            use_type_invariant(self);
            assert(self.bytes@ =~= self.bytes@.drop_last().push(LINE_BREAK));
        }
        &self.bytes
    }

    /// Gives up the line for its bytes.
    pub fn into_bytes(self) -> (bytes: Vec<u8>)
        ensures
            bytes@ == self@,
            bytes@ == framed(self.record()),
            single_line(self.record()),
    {
        proof {
            use_type_invariant(&self);
            assert(self.bytes@ =~= self.bytes@.drop_last().push(LINE_BREAK));
        }
        self.bytes
    }
}

/// Whether `record` holds no line break.
pub fn fits_one_line(record: &Vec<u8>) -> (fits: bool)
    ensures
        fits == single_line(record@),
{
    let mut i: usize = 0;
    while i < record.len()
        invariant
            i <= record.len(),
            forall|j: int| 0 <= j < i ==> record@[j] != LINE_BREAK,
        decreases record.len() - i,
    {
        if record[i] == LINE_BREAK {
            return false;
        }
        i += 1;
    }
    true
}

/// The view of a list of records.
pub open spec fn records_of(lines: Vec<Vec<u8>>) -> Seq<Seq<u8>> {
    Seq::new(lines@.len(), |k: int| lines@[k]@)
}

/// Cuts the bytes of a log file into its records, in order. A last record
/// without its line break was never finished and is left out.
pub fn decode(bytes: &Vec<u8>) -> (records: Vec<Vec<u8>>)
    ensures
        records_of(records) == decoded(bytes@),
        records@.len() == decoded(bytes@).len(),
        forall|k: int| 0 <= k < records@.len() ==> (#[trigger] records@[k])@ == decoded(bytes@)[k],
{
    let mut records: Vec<Vec<u8>> = Vec::new();
    let mut current: Vec<u8> = Vec::new();
    let mut start: usize = 0;
    let mut i: usize = 0;
    let ghost whole = bytes@;
    assert(whole.subrange(0, whole.len() as int) =~= whole);
    assert(records_of(records) =~= Seq::<Seq<u8>>::empty());
    while i < bytes.len()
        invariant
            whole == bytes@,
            start <= i <= bytes.len(),
            current@ == whole.subrange(start as int, i as int),
            forall|j: int| start <= j < i ==> whole[j] != LINE_BREAK,
            decoded(whole) == records_of(records) + decoded(
                whole.subrange(start as int, whole.len() as int),
            ),
        decreases bytes.len() - i,
    {
        let byte = bytes[i];
        if byte == LINE_BREAK {
            proof {
                let rest = whole.subrange(start as int, whole.len() as int);
                let k = i - start;
                assert(rest[k] == whole[i as int]);
                assert forall|j: int| 0 <= j < k implies rest[j] != LINE_BREAK by {
                    assert(rest[j] == whole[start + j]);
                }
                lemma_first_break_at(rest, k);
                assert(rest.subrange(0, k) =~= current@);
                assert(rest.subrange(k + 1, rest.len() as int) =~= whole.subrange(
                    i + 1,
                    whole.len() as int,
                ));
                assert(records_of(records).push(current@) =~= records_of(records) + seq![
                    current@,
                ]);
            }
            let ghost before = records_of(records);
            records.push(current);
            assert(records_of(records) =~= before.push(current@));
            current = Vec::new();
            start = i + 1;
            i += 1;
            assert(current@ =~= whole.subrange(start as int, i as int));
        } else {
            current.push(byte);
            i += 1;
            assert(current@ =~= whole.subrange(start as int, i as int));
        }
    }
    proof {
        let rest = whole.subrange(start as int, whole.len() as int);
        assert forall|j: int| 0 <= j < rest.len() implies rest[j] != LINE_BREAK by {
            assert(rest[j] == whole[start + j]);
        }
        lemma_first_break_at(rest, rest.len() as int);
        assert(decoded(rest) =~= Seq::<Seq<u8>>::empty());
        assert(decoded(whole) =~= records_of(records));
        assert forall|k: int| 0 <= k < records@.len() implies (#[trigger] records@[k])@ == decoded(
            whole,
        )[k] by {
            assert(records_of(records)[k] == records@[k]@);
        }
    }
    records
}

} // verus!
