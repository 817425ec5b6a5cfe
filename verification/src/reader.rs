//! The record-at-a-time reader: it tokenizes the whole input up front,
//! keeps the header row aside, and steps through the data rows, decoding
//! the current one on demand.

use vstd::prelude::*;

use crate::record::DecodeError;
use crate::record::Record;
use crate::record::RecordV;
use crate::record::decode_row;
use crate::rows::rows_of;
use crate::rows::tokenize;

verus! {

/// Why the reader could not move to the next row.
#[derive(Clone, Copy, Debug, PartialEq, Eq, Structural)]
pub enum ReadError {
    /// The next row does not have as many fields as the header row; the
    /// reader has stepped past it, so the caller may skip it and go on.
    UnevenRow,
}

/// The reader's mathematical state: all tokenized rows with the header at
/// position zero, the position of the next row to visit, and the position
/// of the current row, if one is current.
pub struct ReaderV {
    pub rows: Seq<Seq<Seq<u8>>>,
    pub next: int,
    pub cur: Option<int>,
}

impl ReaderV {
    /// The reader never returns to the header row, and a current row is a
    /// data row it has already visited.
    pub open spec fn wf(self) -> bool {
        1 <= self.next && match self.cur {
            Some(i) => 1 <= i < self.rows.len() && i < self.next,
            None => true,
        }
    }

    /// Whether an unvisited row remains.
    pub open spec fn can_advance(self) -> bool {
        self.next < self.rows.len()
    }

    /// Whether the next row has exactly as many fields as the header.
    pub open spec fn next_row_even(self) -> bool {
        self.rows[self.next].len() == self.rows[0].len()
    }
}

/// The state after one advance: the next even row becomes current; an
/// uneven row is stepped past without becoming current; at the end of the
/// input nothing is current.
pub open spec fn spec_advance(v: ReaderV) -> ReaderV {
    if v.can_advance() {
        if v.next_row_even() {
            ReaderV { rows: v.rows, next: v.next + 1, cur: Some(v.next) }
        } else {
            ReaderV { rows: v.rows, next: v.next + 1, cur: None }
        }
    } else {
        ReaderV { rows: v.rows, next: v.next, cur: None }
    }
}

/// What one advance reports: `Ok(true)` for an even row, `Ok(false)` at
/// clean end of input, and an error for an uneven row.
pub open spec fn spec_advance_result(v: ReaderV) -> Result<bool, ReadError> {
    if v.can_advance() {
        if v.next_row_even() {
            Ok(true)
        } else {
            Err(ReadError::UnevenRow)
        }
    } else {
        Ok(false)
    }
}

/// What reading the current record yields: the decoded current row, or
/// `NoRow` when no row is current.
pub open spec fn spec_read(v: ReaderV) -> Result<RecordV, DecodeError> {
    match v.cur {
        None => Err(DecodeError::NoRow),
        Some(i) => decode_row(v.rows[0], v.rows[i]),
    }
}

/// The reader's state after `k` advances.
pub open spec fn advanced(v: ReaderV, k: nat) -> ReaderV
    decreases k,
{
    if k == 0 {
        v
    } else {
        spec_advance(advanced(v, (k - 1) as nat))
    }
}

/// A well-formed stream: a header row, then data rows that each have the
/// header's field count and each decode into a record.
pub open spec fn stream_ok(rows: Seq<Seq<Seq<u8>>>) -> bool {
    rows.len() >= 1 && forall|i: int|
        1 <= i < rows.len() ==> (#[trigger] rows[i]).len() == rows[0].len() && decode_row(
            rows[0],
            rows[i],
        ) is Ok
}

/// Over a well-formed stream, `k` advances leave the reader about to visit
/// row `k + 1`, with row `k` current.
proof fn lemma_advanced_state(v: ReaderV, k: nat)
    requires
        stream_ok(v.rows),
        v.next == 1,
        v.cur is None,
        k <= v.rows.len() - 1,
    ensures
        advanced(v, k).rows == v.rows,
        advanced(v, k).next == k + 1,
        k == 0 ==> advanced(v, k).cur is None,
        k >= 1 ==> advanced(v, k).cur == Some(k as int),
    decreases k,
{
    if k > 0 {
        lemma_advanced_state(v, (k - 1) as nat);
    }
}

/// Law: on a freshly built reader over a well-formed stream of a header
/// row and `n` data rows, each of the first `n` advances reports `true`
/// and leaves a current row that decodes into a record, and the advance
/// after the last row reports a clean end of input with `false`.
pub proof fn lemma_stream_iteration(v: ReaderV, k: nat)
    requires
        stream_ok(v.rows),
        v.next == 1,
        v.cur is None,
        k <= v.rows.len() - 1,
    ensures
        k < v.rows.len() - 1 ==> spec_advance_result(advanced(v, k)) == Ok::<bool, ReadError>(
            true,
        ) && spec_read(advanced(v, (k + 1) as nat)) is Ok,
        k == v.rows.len() - 1 ==> spec_advance_result(advanced(v, k)) == Ok::<bool, ReadError>(
            false,
        ),
{
    lemma_advanced_state(v, k);
    if k < v.rows.len() - 1 {
        lemma_advanced_state(v, (k + 1) as nat);
    }
}

/// A streaming reader over one tab-separated input with a header row.
pub struct Reader {
    rows: Vec<Vec<Vec<u8>>>,
    next: usize,
    cur: Option<usize>,
}

impl View for Reader {
    type V = ReaderV;

    closed spec fn view(&self) -> ReaderV {
        ReaderV {
            rows: self.rows.deep_view(),
            next: self.next as int,
            cur: match self.cur {
                Some(i) => Some(i as int),
                None => None,
            },
        }
    }
}

impl Reader {
    /// Builds a reader over the full contents of an input stream. The
    /// first tokenized row is the header and is never yielded as data.
    pub fn from_reader(input: Vec<u8>) -> (r: Reader)
        ensures
            r@.rows == rows_of(input@),
            r@.next == 1,
            r@.cur is None,
            r@.wf(),
    {
        let rows = tokenize(&input);
        Reader { rows, next: 1, cur: None }
    }

    /// Moves to the next data row. Returns `Ok(true)` when a row was read
    /// and is now current, `Ok(false)` at clean end of input, and an error
    /// for a row whose field count differs from the header's; such a row
    /// is stepped past, so the caller may skip it and go on.
    pub fn advance(&mut self) -> (r: Result<bool, ReadError>)
        requires
            old(self)@.wf(),
        ensures
            final(self)@ == spec_advance(old(self)@),
            r == spec_advance_result(old(self)@),
            final(self)@.wf(),
    {
        if self.next < self.rows.len() {
            let idx = self.next;
            let even = self.rows[idx].len() == self.rows[0].len();
            self.next = idx + 1;
            if even {
                self.cur = Some(idx);
                Ok(true)
            } else {
                self.cur = None;
                Err(ReadError::UnevenRow)
            }
        } else {
            self.cur = None;
            Ok(false)
        }
    }

    /// Decodes the current row into a typed record. Valid right after an
    /// `advance` that returned `Ok(true)`; at any other time it reports
    /// `NoRow`. The result matches `spec_read` on the reader's state.
    pub fn read_record(&self) -> (r: Result<Record, DecodeError>)
        requires
            self@.wf(),
        ensures
            match r {
                Ok(rec) => spec_read(self@) == Ok::<RecordV, DecodeError>(rec@),
                Err(e) => spec_read(self@) == Err::<RecordV, DecodeError>(e),
            },
    {
        match self.cur {
            None => Err(DecodeError::NoRow),
            Some(i) => crate::record::decode_record(&self.rows[0], &self.rows[i]),
        }
    }
}

} // verus!
