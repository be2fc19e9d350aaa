//! The cyclic dataset cursor.
//!
//! A dataset is a finite sequence of rows behind a header. The cursor turns it
//! into a stream without end: rows that cannot be parsed are passed over, and
//! at the end of the data the source is rewound to its first data row. One
//! call rewinds at most once, so a dataset without a single good row ends the
//! call instead of holding it forever.
//!
//! The cursor itself only decides. `CyclicCursor::on_pulled` and
//! `CyclicCursor::on_rewind` take what a read or a seek of the record source
//! gave and say what to do next, so that a caller can drive any seekable
//! source. `Dataset` is such a source held in memory, filled from rows or
//! from comma-separated text, and `CyclicCursor::next` drives it.

use vstd::prelude::*;
use crate::error::SmartnessError;

verus! {

/// What one read of the record source gave.
#[derive(Debug, PartialEq)]
pub enum Pulled {
    /// The fields of the next row.
    Record(Vec<String>),
    /// A row that could not be parsed.
    Malformed,
    /// No row is left.
    EndOfStream,
}

/// What the cursor does next.
#[derive(Debug, PartialEq)]
pub enum CursorStep {
    /// Hand this record out: the call is over.
    Yield(Vec<String>),
    /// Read the source again.
    Pull,
    /// Seek back to the first data row, and report how that went.
    Rewind,
    /// The source was read from its first data row to its end and gave no
    /// record: the call is over without one.
    Exhausted,
}

/// The state of the cursor within one call.
#[derive(Clone, Copy, Debug, PartialEq, Eq, Structural)]
pub struct CyclicCursor {
    rewound: bool,
}

impl CyclicCursor {
    /// Whether the source was rewound since the last record was handed out.
    pub closed spec fn has_rewound(self) -> bool {
        self.rewound
    }

    /// A cursor at the start of a call.
    pub fn new() -> (cursor: CyclicCursor)
        ensures
            !cursor.has_rewound(),
    {
        CyclicCursor { rewound: false }
    }

    /// Decides on what one read of the source gave.
    ///
    /// A record is handed out and a malformed row passed over. At the end of
    /// the stream the source is rewound, unless this call has rewound it
    /// before: then the dataset holds no record at all.
    pub fn on_pulled(&mut self, pulled: Pulled) -> (step: CursorStep)
        ensures
            step == (match pulled {
                Pulled::Record(record) => CursorStep::Yield(record),
                Pulled::Malformed => CursorStep::Pull,
                Pulled::EndOfStream => if old(self).has_rewound() {
                    CursorStep::Exhausted
                } else {
                    CursorStep::Rewind
                },
            }),
            final(self).has_rewound() == (match pulled {
                Pulled::Record(_) => false,
                Pulled::Malformed => old(self).has_rewound(),
                Pulled::EndOfStream => !old(self).has_rewound(),
            }),
    {
        match pulled {
            Pulled::Record(record) => {
                self.rewound = false;
                CursorStep::Yield(record)
            },
            Pulled::Malformed => CursorStep::Pull,
            Pulled::EndOfStream => {
                if self.rewound {
                    self.rewound = false;
                    CursorStep::Exhausted
                } else {
                    self.rewound = true;
                    CursorStep::Rewind
                }
            },
        }
    }

    /// Decides on the outcome of a rewind.
    ///
    /// After a rewind that succeeded the source is read again. One that failed
    /// leaves nothing to read from: this is the one error of the cursor.
    pub fn on_rewind(&mut self, succeeded: bool) -> (step: Result<CursorStep, SmartnessError>)
        ensures
            step == (if succeeded {
                Ok::<CursorStep, SmartnessError>(CursorStep::Pull)
            } else {
                Err(SmartnessError::DatasetRewindError)
            }),
            final(self).has_rewound() == (succeeded && old(self).has_rewound()),
    {
        if succeeded {
            Ok(CursorStep::Pull)
        } else {
            self.rewound = false;
            Err(SmartnessError::DatasetRewindError)
        }
    }
}

/// The fields of a record, each as its sequence of characters.
pub type Fields = Seq<Seq<char>>;

/// The rows of a dataset in the order of the file: the fields of each good
/// row, and nothing for a row that is malformed.
pub type Rows = Seq<Option<Seq<Seq<char>>>>;

impl Pulled {
    /// What was read: a row, good or malformed, or nothing at the end of the
    /// stream.
    pub open spec fn row(self) -> Option<Option<Fields>> {
        match self {
            Pulled::Record(record) => Some(Some(record.deep_view())),
            Pulled::Malformed => Some(None),
            Pulled::EndOfStream => None,
        }
    }
}

/// What a read at `position` finds: the row there, or nothing behind the
/// last row.
pub open spec fn row_at(rows: Rows, position: nat) -> Option<Option<Fields>> {
    if position < rows.len() {
        Some(rows[position as int])
    } else {
        None
    }
}

/// What one call of the cursor gives, and where it leaves the source: the
/// first good row at or after `position`, or, after one rewind, the first good
/// row of the dataset.
pub open spec fn scan(rows: Rows, position: nat, rewound: bool) -> (Option<Fields>, nat)
    decreases
            (if rewound {
                0nat
            } else {
                1nat
            }),
            rows.len() - position,
{
    if position < rows.len() {
        match rows[position as int] {
            Some(record) => (Some(record), position + 1),
            None => scan(rows, position + 1, rewound),
        }
    } else if !rewound {
        scan(rows, 0, true)
    } else {
        (None, position)
    }
}

/// A copy of a record, field by field.
pub fn clone_record(record: &Vec<String>) -> (copy: Vec<String>)
    ensures
        copy@ == record@,
        copy.deep_view() == record.deep_view(),
{
    let mut copy: Vec<String> = Vec::new();
    let mut i: usize = 0;
    while i < record.len()
        invariant
            i <= record.len(),
            copy@ == record@.take(i as int),
        decreases record.len() - i,
    {
        copy.push(record[i].clone());
        i = i + 1;
    }
    copy
}

/// The rows that the `csv` crate reads from comma-separated text with the
/// bytes `data`, in its default configuration: the first row is the header
/// and is left out, and a row that it reports as an error stands as `None`.
pub uninterp spec fn csv_rows(data: Seq<u8>) -> Seq<Option<Seq<Seq<char>>>>;

/// Reads `data` with `csv::Reader::from_reader` and walks the iterator of
/// `Reader::into_records` to its end, each record turned into its fields and
/// each error into `None`.
///
/// The contract gives the outcome its name, `csv_rows`, and claims nothing
/// else of it: the reader is a function of the bytes alone.
#[verifier::external_body]
fn read_csv_rows(data: &[u8]) -> (rows: Vec<Option<Vec<String>>>)
    ensures
        rows.deep_view() == csv_rows(data@),
{
    csv::Reader::from_reader(data)
        .into_records()
        .map(|row| row.ok().map(|record| record.iter().map(str::to_owned).collect()))
        .collect()
}

/// A seekable record source held in memory: the rows behind the header, in
/// the order of the file, a malformed row standing as `None`.
pub struct Dataset {
    rows: Vec<Option<Vec<String>>>,
    position: usize,
}

impl Dataset {
    #[verifier::type_invariant]
    spec fn position_in_range(self) -> bool {
        self.position <= self.rows.len()
    }

    /// The rows of the dataset.
    pub closed spec fn rows(self) -> Rows {
        self.rows.deep_view()
    }

    /// The index of the row that is read next.
    pub closed spec fn position(self) -> nat {
        self.position as nat
    }

    /// A source over `rows`, placed at its first row.
    pub fn new(rows: Vec<Option<Vec<String>>>) -> (dataset: Dataset)
        ensures
            dataset.rows() == rows.deep_view(),
            dataset.position() == 0,
    {
        Dataset { rows, position: 0 }
    }

    /// A source over the rows of comma-separated text behind its header,
    /// placed at the first of them.
    pub fn from_csv(data: &[u8]) -> (dataset: Dataset)
        ensures
            dataset.rows() == csv_rows(data@),
            dataset.position() == 0,
    {
        Dataset::new(read_csv_rows(data))
    }

    /// Number of rows, good or malformed.
    pub fn len(&self) -> (len: usize)
        ensures
            len == self.rows().len(),
    {
        self.rows.len()
    }

    /// Reads the row at the current position and moves past it; at the end
    /// of the rows there is nothing to read and the position stays.
    pub fn pull(&mut self) -> (pulled: Pulled)
        ensures
            final(self).rows() == old(self).rows(),
            pulled.row() == row_at(old(self).rows(), old(self).position()),
            old(self).position() <= old(self).rows().len(),
            final(self).position() == (if old(self).position() < old(self).rows().len() {
                old(self).position() + 1
            } else {
                old(self).position()
            }),
    {
        proof {
            use_type_invariant(&*self);
        }
        if self.position < self.rows.len() {
            let pulled = match &self.rows[self.position] {
                Some(record) => Pulled::Record(clone_record(record)),
                None => Pulled::Malformed,
            };
            self.position = self.position + 1;
            pulled
        } else {
            Pulled::EndOfStream
        }
    }

    /// Seeks back to the first row.
    pub fn rewind(&mut self)
        ensures
            final(self).rows() == old(self).rows(),
            final(self).position() == 0,
    {
        self.position = 0;
    }
}

impl CyclicCursor {
    /// The next record of the endless stream over `dataset`.
    ///
    /// Gives `None` only where the dataset holds no good row.
    pub fn next(&mut self, dataset: &mut Dataset) -> (record: Option<Vec<String>>)
        ensures
            final(dataset).rows() == old(dataset).rows(),
            (record.deep_view(), final(dataset).position()) == scan(
                old(dataset).rows(),
                old(dataset).position(),
                false,
            ),
            !final(self).has_rewound(),
    {
        self.rewound = false;
        let ghost rows = dataset.rows();
        let ghost start = dataset.position();
        proof {
            use_type_invariant(&*dataset);
        }
        loop
            invariant
                rows == old(dataset).rows(),
                start == old(dataset).position(),
                dataset.rows() == rows,
                dataset.position() <= rows.len(),
                scan(rows, dataset.position(), self.has_rewound()) == scan(rows, start, false),
            decreases
                    (if self.has_rewound() {
                        0nat
                    } else {
                        1nat
                    }),
                    rows.len() - dataset.position(),
        {
            let pulled = dataset.pull();
            match self.on_pulled(pulled) {
                CursorStep::Yield(record) => {
                    return Some(record);
                },
                CursorStep::Pull => {},
                CursorStep::Rewind => {
                    dataset.rewind();
                    match self.on_rewind(true) {
                        Ok(_) => {},
                        Err(_) => {
                            return None;
                        },
                    }
                },
                CursorStep::Exhausted => {
                    return None;
                },
            }
        }
    }
}

/// The good rows of a dataset, in their order.
pub open spec fn valid_records(rows: Rows) -> Seq<Fields>
    decreases rows.len(),
{
    if rows.len() == 0 {
        Seq::empty()
    } else {
        let rest = valid_records(rows.drop_last());
        match rows.last() {
            Some(record) => rest.push(record),
            None => rest,
        }
    }
}

/// What call number `n` of the cursor gives, counted from zero, on a source
/// that stands at `position`.
pub open spec fn nth_record(rows: Rows, position: nat, n: nat) -> Option<Fields>
    decreases n,
{
    let (record, after) = scan(rows, position, false);
    if n == 0 {
        record
    } else {
        nth_record(rows, after, (n - 1) as nat)
    }
}

/// Number of good rows before `position`.
spec fn valid_before(rows: Rows, position: nat) -> nat {
    valid_records(rows.take(position as int)).len()
}

/// The good rows before a position are the first of all good rows.
proof fn lemma_valid_prefix(rows: Rows, position: nat)
    requires
        position <= rows.len(),
    ensures
        valid_before(rows, position) <= valid_records(rows).len(),
        valid_records(rows.take(position as int)) == valid_records(rows).take(
            valid_before(rows, position) as int,
        ),
    decreases rows.len(),
{
    if position == rows.len() {
        assert(rows.take(position as int) =~= rows);
    } else {
        assert(rows.take(position as int) =~= rows.drop_last().take(position as int));
        lemma_valid_prefix(rows.drop_last(), position);
    }
}

/// Passing a row adds it to the good rows before the position if it is good.
proof fn lemma_valid_step(rows: Rows, position: nat)
    requires
        position < rows.len(),
    ensures
        valid_records(rows.take((position + 1) as int)) == (match rows[position as int] {
            Some(record) => valid_records(rows.take(position as int)).push(record),
            None => valid_records(rows.take(position as int)),
        }),
{
    let longer = rows.take((position + 1) as int);
    assert(longer.drop_last() =~= rows.take(position as int));
}

/// A scan gives the good row whose rank is the number of good rows passed,
/// and rewinds where none is left.
proof fn lemma_scan(rows: Rows, position: nat, rewound: bool)
    requires
        position <= rows.len(),
    ensures
        valid_before(rows, position) <= valid_records(rows).len(),
        valid_before(rows, position) < valid_records(rows).len() ==> ({
            let (record, after) = scan(rows, position, rewound);
            &&& record == Some(valid_records(rows)[valid_before(rows, position) as int])
            &&& after <= rows.len()
            &&& valid_before(rows, after) == valid_before(rows, position) + 1
        }),
        valid_before(rows, position) == valid_records(rows).len() ==> scan(
            rows,
            position,
            rewound,
        ) == (if rewound {
            (None::<Fields>, rows.len())
        } else {
            scan(rows, 0, true)
        }),
    decreases rows.len() - position,
{
    if position == rows.len() {
        assert(rows.take(position as int) =~= rows);
    } else {
        lemma_valid_step(rows, position);
        lemma_valid_prefix(rows, position + 1);
        match rows[position as int] {
            Some(record) => {
                let count = valid_before(rows, position);
                assert(valid_records(rows.take((position + 1) as int))[count as int] == record);
            },
            None => {
                lemma_scan(rows, position + 1, rewound);
            },
        }
    }
}

/// One call gives the good row that follows those passed, the first one again
/// after the last.
proof fn lemma_next_is_cyclic(rows: Rows, position: nat)
    requires
        position <= rows.len(),
    ensures
        valid_records(rows).len() == 0 ==> scan(rows, position, false) == (
            None::<Fields>,
            rows.len(),
        ),
        valid_records(rows).len() > 0 ==> ({
            let total = valid_records(rows).len();
            let (record, after) = scan(rows, position, false);
            &&& record == Some(valid_records(rows)[(valid_before(rows, position) % total) as int])
            &&& after <= rows.len()
            &&& valid_before(rows, after) == valid_before(rows, position) % total + 1
        }),
{
    let total = valid_records(rows).len();
    lemma_scan(rows, position, false);
    lemma_scan(rows, 0, true);
    if valid_before(rows, position) < total {
        vstd::arithmetic::div_mod::lemma_small_mod(valid_before(rows, position), total);
    } else if total > 0 {
        vstd::arithmetic::div_mod::lemma_mod_self_0(total as int);
    }
}

/// From any position the calls walk through the good rows in a cycle.
proof fn lemma_nth_record(rows: Rows, position: nat, n: nat)
    requires
        position <= rows.len(),
    ensures
        valid_records(rows).len() == 0 ==> nth_record(rows, position, n) is None,
        valid_records(rows).len() > 0 ==> nth_record(rows, position, n) == Some(
            valid_records(rows)[((valid_before(rows, position) + n) % valid_records(
                rows,
            ).len()) as int],
        ),
    decreases n,
{
    let total = valid_records(rows).len();
    lemma_next_is_cyclic(rows, position);
    if n > 0 {
        let (record, after) = scan(rows, position, false);
        lemma_nth_record(rows, after, (n - 1) as nat);
        if total > 0 {
            vstd::arithmetic::div_mod::lemma_add_mod_noop_right(
                n as int,
                valid_before(rows, position) as int,
                total as int,
            );
        }
    }
}

/// The cursor never runs out: on a dataset with at least one good row, call
/// number `n` from the start gives good row `n` modulo their number, so the
/// stream repeats the good rows in their order, starting over with the first.
/// A dataset without a good row gives nothing, however often it is asked.
pub proof fn lemma_cursor_replays_cyclically(rows: Rows, n: nat)
    ensures
        valid_records(rows).len() == 0 ==> nth_record(rows, 0, n) is None,
        valid_records(rows).len() > 0 ==> nth_record(rows, 0, n) == Some(
            valid_records(rows)[(n % valid_records(rows).len()) as int],
        ),
{
    lemma_nth_record(rows, 0, n);
}

} // verus!
