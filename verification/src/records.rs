//! Lists of tagged sub-records.
//!
//! Several tables end in a list of sub-records of different kinds, packed
//! back to back. Each sub-record starts with one byte that names its kind and
//! one byte that holds its whole length, these two bytes included. The walker
//! hands the sub-records out one at a time and never looks past the list.

use vstd::prelude::*;
use crate::range::{BoundsError, ByteRange, Region};

verus! {

/// One sub-record of a list, borrowed from the list's bytes.
#[derive(Clone, Copy, Debug)]
pub struct TaggedRecord<'a> {
    /// The kind tag: byte 0 of the sub-record.
    pub kind: u8,
    /// What follows the kind and length bytes.
    pub payload: &'a [u8],
    /// The whole sub-record, kind and length bytes included.
    pub raw: &'a [u8],
}

/// What a sub-record holds, as plain values.
pub struct RecordView {
    /// The kind tag.
    pub kind: u8,
    /// What follows the kind and length bytes.
    pub payload: Seq<u8>,
}

impl<'a> View for TaggedRecord<'a> {
    type V = RecordView;

    open spec fn view(&self) -> RecordView {
        RecordView { kind: self.kind, payload: self.payload@ }
    }
}

/// Whether a whole sub-record lies at index `cursor` of the list `s`: its
/// kind and length bytes are there, the length covers at least those two
/// bytes, and it does not reach past the end of the list.
pub open spec fn record_fits(s: Seq<u8>, cursor: int) -> bool {
    &&& 0 <= cursor
    &&& cursor + 2 <= s.len()
    &&& s[cursor + 1] >= 2
    &&& cursor + s[cursor + 1] <= s.len()
}

/// Index one past the sub-record that starts at `cursor`.
pub open spec fn record_end(s: Seq<u8>, cursor: int) -> int {
    cursor + s[cursor + 1]
}

/// The sub-record that starts at `cursor`.
pub open spec fn record_at(s: Seq<u8>, cursor: int) -> RecordView {
    RecordView { kind: s[cursor], payload: s.subrange(cursor + 2, record_end(s, cursor)) }
}

/// The sub-records that a walk from `cursor` hands out, in order, until it
/// reaches the end of the list or a sub-record that does not fit.
pub open spec fn records_from(s: Seq<u8>, cursor: int) -> Seq<RecordView>
    decreases s.len() - cursor,
{
    if record_fits(s, cursor) {
        seq![record_at(s, cursor)] + records_from(s, record_end(s, cursor))
    } else {
        Seq::empty()
    }
}

/// Where a walk from `cursor` halts: at the end of the list, or at the first
/// sub-record that does not fit.
pub open spec fn halt_from(s: Seq<u8>, cursor: int) -> int
    decreases s.len() - cursor,
{
    if record_fits(s, cursor) {
        halt_from(s, record_end(s, cursor))
    } else {
        cursor
    }
}

/// Whether the list is made of whole sub-records from `cursor` to its end.
pub open spec fn walks_to_end(s: Seq<u8>, cursor: int) -> bool {
    halt_from(s, cursor) == s.len()
}

/// The bytes of one sub-record with the given kind and payload.
pub open spec fn encoded(record: RecordView) -> Seq<u8> {
    seq![record.kind, (record.payload.len() + 2) as u8] + record.payload
}

/// The bytes of a list that holds the given sub-records, in order.
pub open spec fn encoded_list(records: Seq<RecordView>) -> Seq<u8>
    decreases records.len(),
{
    if records.len() == 0 {
        Seq::empty()
    } else {
        encoded(records.first()) + encoded_list(records.drop_first())
    }
}

/// Number of bytes that the given sub-records occupy in a list: for each,
/// its payload and the two bytes before it.
pub open spec fn occupied(records: Seq<RecordView>) -> int
    decreases records.len(),
{
    if records.len() == 0 {
        0
    } else {
        records.first().payload.len() + 2 + occupied(records.drop_first())
    }
}

/// Whether each payload is short enough for the one-byte length field.
pub open spec fn encodable(records: Seq<RecordView>) -> bool {
    forall|i: int| 0 <= i < records.len() ==> (#[trigger] records[i]).payload.len() <= 253
}

/// The state of a walk: the list, the index of the next sub-record, and
/// whether the walk has met a sub-record that does not fit.
pub struct WalkState {
    /// The bytes of the list.
    pub bytes: Seq<u8>,
    /// Index of the next sub-record.
    pub cursor: int,
    /// Whether a sub-record that does not fit has been reported.
    pub failed: bool,
}

/// A walk over a list of tagged sub-records.
///
/// The walk is lazy: each call of [`RecordWalker::next`] looks at one
/// sub-record. It ends after the last sub-record, or after the first one
/// that does not fit, which is reported once and not handed out.
#[derive(Clone, Copy, Debug)]
pub struct RecordWalker<'a> {
    bytes: &'a [u8],
    cursor: usize,
    failed: bool,
}

impl<'a> View for RecordWalker<'a> {
    type V = WalkState;

    closed spec fn view(&self) -> WalkState {
        WalkState { bytes: self.bytes@, cursor: self.cursor as int, failed: self.failed }
    }
}

impl<'a> RecordWalker<'a> {
    #[verifier::type_invariant]
    spec fn within_list(self) -> bool {
        self.cursor <= self.bytes@.len()
    }

    /// A walk over `bytes`, placed at its first sub-record.
    pub fn new(bytes: &'a [u8]) -> (walker: RecordWalker<'a>)
        ensures
            walker@ == (WalkState { bytes: bytes@, cursor: 0, failed: false }),
    {
        RecordWalker { bytes, cursor: 0, failed: false }
    }

    /// A walk over the bytes that `range` selects in `region`, placed at the
    /// first sub-record, or `None` unless the region holds the whole range.
    pub fn over(region: &Region<'a>, range: ByteRange) -> (walker: Option<RecordWalker<'a>>)
        ensures
            match walker {
                Some(walker) => region@.window(range) == Some(walker@.bytes) && walker@.cursor
                    == 0 && !walker@.failed,
                None => region@.window(range) is None,
            },
    {
        match region.window(range) {
            Some(bytes) => Some(RecordWalker::new(bytes)),
            None => None,
        }
    }

    /// Puts the walk back at the first sub-record of the same list.
    pub fn restart(&mut self)
        ensures
            final(self)@ == (WalkState { bytes: old(self)@.bytes, cursor: 0, failed: false }),
    {
        self.cursor = 0;
        self.failed = false;
    }

    /// Index of the sub-record that the next step looks at.
    pub fn position(&self) -> (cursor: usize)
        ensures
            cursor == self@.cursor,
            cursor <= self@.bytes.len(),
    {
        proof {
            use_type_invariant(self);
        }
        self.cursor
    }

    /// Whether the walk has handed out every sub-record of the list and met
    /// none that does not fit.
    pub fn is_complete(&self) -> (complete: bool)
        ensures
            complete == (!self@.failed && self@.cursor == self@.bytes.len()),
    {
        !self.failed && self.cursor == self.bytes.len()
    }

    /// Takes one step.
    ///
    /// Returns `None` once the walk is over: the cursor stands at the end of
    /// the list, or a failure has been reported. Returns `TruncatedRecord`
    /// when the sub-record at the cursor does not fit; the walk is over
    /// after that. Otherwise hands out the sub-record at the cursor and moves
    /// the cursor past it.
    pub fn next(&mut self) -> (step: Option<Result<TaggedRecord<'a>, BoundsError>>)
        ensures
            final(self)@.bytes == old(self)@.bytes,
            match step {
                None => {
                    &&& old(self)@.failed || old(self)@.cursor == old(self)@.bytes.len()
                    &&& final(self)@ == old(self)@
                },
                Some(Err(error)) => {
                    &&& error == BoundsError::TruncatedRecord
                    &&& !old(self)@.failed
                    &&& old(self)@.cursor != old(self)@.bytes.len()
                    &&& !record_fits(old(self)@.bytes, old(self)@.cursor)
                    &&& final(self)@.cursor == old(self)@.cursor
                    &&& final(self)@.failed
                },
                Some(Ok(record)) => {
                    &&& !old(self)@.failed
                    &&& record_fits(old(self)@.bytes, old(self)@.cursor)
                    &&& record@ == record_at(old(self)@.bytes, old(self)@.cursor)
                    &&& record.raw@ == old(self)@.bytes.subrange(
                        old(self)@.cursor,
                        record_end(old(self)@.bytes, old(self)@.cursor),
                    )
                    &&& final(self)@.cursor == record_end(old(self)@.bytes, old(self)@.cursor)
                    &&& !final(self)@.failed
                },
            },
    {
        proof {
            use_type_invariant(&*self);
        }
        let size: usize = self.bytes.len();
        if self.failed || self.cursor == size {
            return None;
        }
        if size - self.cursor < 2 {
            self.failed = true;
            return Some(Err(BoundsError::TruncatedRecord));
        }
        let start: usize = self.cursor;
        let length: usize = self.bytes[start + 1] as usize;
        if length < 2 || length > size - start {
            self.failed = true;
            return Some(Err(BoundsError::TruncatedRecord));
        }
        let bytes: &'a [u8] = self.bytes;
        let kind: u8 = bytes[start];
        let payload: &'a [u8] = &bytes[start + 2..start + length];
        let raw: &'a [u8] = &bytes[start..start + length];
        self.cursor = start + length;
        Some(Ok(TaggedRecord { kind, payload, raw }))
    }
}

/// Walks the whole list and counts its sub-records.
///
/// Succeeds exactly when the list is made of whole sub-records from its
/// first byte to its last; fails with `TruncatedRecord` otherwise.
pub fn count_records(bytes: &[u8]) -> (count: Result<usize, BoundsError>)
    ensures
        match count {
            Ok(n) => walks_to_end(bytes@, 0) && n == records_from(bytes@, 0).len(),
            Err(error) => error == BoundsError::TruncatedRecord && !walks_to_end(bytes@, 0),
        },
{
    let mut walker = RecordWalker::new(bytes);
    let mut n: usize = 0;
    loop
        invariant
            walker@.bytes == bytes@,
            !walker@.failed,
            0 <= walker@.cursor <= bytes@.len(),
            n <= walker@.cursor,
            halt_from(bytes@, walker@.cursor) == halt_from(bytes@, 0),
            records_from(bytes@, 0).len() == n + records_from(bytes@, walker@.cursor).len(),
        decreases bytes@.len() - walker@.cursor,
    {
        match walker.next() {
            None => {
                return Ok(n);
            },
            Some(Err(error)) => {
                return Err(error);
            },
            Some(Ok(_)) => {
                n = n + 1;
            },
        }
    }
}

/// A walk never halts before its start nor past the end of the list.
pub proof fn lemma_halt_bounds(s: Seq<u8>, cursor: int)
    requires
        0 <= cursor <= s.len(),
    ensures
        cursor <= halt_from(s, cursor) <= s.len(),
        halt_from(s, cursor) < s.len() ==> !record_fits(s, halt_from(s, cursor)),
    decreases s.len() - cursor,
{
    if record_fits(s, cursor) {
        lemma_halt_bounds(s, record_end(s, cursor));
    }
}

/// The sub-records that a walk hands out occupy exactly the bytes between
/// its start and the place where it halts. A walk that halts at the end of
/// the list has therefore consumed every byte of it, with none left over.
pub proof fn lemma_walk_consumes_up_to_halt(s: Seq<u8>, cursor: int)
    requires
        0 <= cursor <= s.len(),
    ensures
        cursor + occupied(records_from(s, cursor)) == halt_from(s, cursor),
        walks_to_end(s, cursor) ==> occupied(records_from(s, cursor)) == s.len() - cursor,
    decreases s.len() - cursor,
{
    if record_fits(s, cursor) {
        let rest = records_from(s, record_end(s, cursor));
        let all = records_from(s, cursor);
        lemma_walk_consumes_up_to_halt(s, record_end(s, cursor));
        assert(all.drop_first() =~= rest);
    }
}

/// What a walk does from `cursor` on depends only on the bytes from `cursor`
/// on: a walk of `front + rest` from the end of `front` does what a walk of
/// `rest` does from its start, shifted by the length of `front`.
pub proof fn lemma_walk_after_prefix(front: Seq<u8>, rest: Seq<u8>, cursor: int)
    requires
        0 <= cursor <= rest.len(),
    ensures
        records_from(front + rest, front.len() + cursor) == records_from(rest, cursor),
        halt_from(front + rest, front.len() + cursor) == front.len() + halt_from(rest, cursor),
    decreases rest.len() - cursor,
{
    let whole = front + rest;
    let shifted = front.len() + cursor;
    if record_fits(rest, cursor) {
        assert(whole.subrange(shifted + 2, record_end(whole, shifted)) =~= rest.subrange(
            cursor + 2,
            record_end(rest, cursor),
        ));
        lemma_walk_after_prefix(front, rest, record_end(rest, cursor));
    }
}

/// Walking the bytes of a list of sub-records hands out exactly those
/// sub-records and halts at the last byte: every byte is consumed and none
/// is left over.
pub proof fn lemma_walk_of_encoded_list(records: Seq<RecordView>)
    requires
        encodable(records),
    ensures
        records_from(encoded_list(records), 0) == records,
        walks_to_end(encoded_list(records), 0),
    decreases records.len(),
{
    let s = encoded_list(records);
    if records.len() > 0 {
        let first = records.first();
        let others = records.drop_first();
        let head = encoded(first);
        let tail = encoded_list(others);
        lemma_walk_of_encoded_list(others);
        lemma_walk_after_prefix(head, tail, 0);
        assert(s.subrange(2, head.len() as int) =~= first.payload);
    }
}

/// When a list of whole sub-records is followed by bytes that do not start
/// with a whole sub-record, the walk hands out the sub-records before them,
/// halts where those bytes start, and hands out nothing for them.
pub proof fn lemma_walk_stops_at_bad_record(records: Seq<RecordView>, bad: Seq<u8>)
    requires
        encodable(records),
        bad.len() > 0,
        !record_fits(bad, 0),
    ensures
        records_from(encoded_list(records) + bad, 0) == records,
        halt_from(encoded_list(records) + bad, 0) == encoded_list(records).len(),
        !walks_to_end(encoded_list(records) + bad, 0),
        !record_fits(encoded_list(records) + bad, encoded_list(records).len() as int),
    decreases records.len(),
{
    let good = encoded_list(records);
    let s = good + bad;
    lemma_walk_after_prefix(good, bad, 0);
    if records.len() > 0 {
        let first = records.first();
        let others = records.drop_first();
        let head = encoded(first);
        let tail = encoded_list(others) + bad;
        lemma_walk_stops_at_bad_record(others, bad);
        assert(s =~= head + tail);
        lemma_walk_after_prefix(head, tail, 0);
        assert(s.subrange(2, head.len() as int) =~= first.payload);
    }
}

} // verus!
