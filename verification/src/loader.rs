//! The batch loader: from the rows of a log to its records, in row order.
//!
//! Under the strict policy the first row that fails to decode fails the
//! load. Under the tolerant policy such rows are passed over and counted.
//! A header that cannot be read fails the load under both.

use crate::decode::{decode_record_spec, decode_row, FieldDecodeError, FieldFailure};
use crate::header::{layout_of, Layout};
use crate::record::{well_typed, BlackBoxTick, Datum};
use crate::source::{csv_header, csv_records, read_header, read_records, RawRow};
use vstd::prelude::*;

verus! {

impl DeepView for BlackBoxTick {
    type V = Seq<Datum>;

    open spec fn deep_view(&self) -> Seq<Datum> {
        self@
    }
}

/// What a load does with a row that fails to decode.
#[derive(Clone, Copy, Debug, PartialEq, Eq, Structural)]
pub enum Policy {
    /// The first such row fails the load.
    Strict,
    /// Such rows are passed over and counted.
    Tolerant,
}

/// Why a row failed to decode.
#[derive(Debug)]
pub enum RowFault {
    /// The row could not be read.
    Unreadable,
    /// A field of the row was refused.
    Field(FieldDecodeError),
}

/// What a [`RowFault`] says, with text as sequences of characters.
pub enum RowCause {
    Unreadable,
    Field(FieldFailure),
}

impl View for RowFault {
    type V = RowCause;

    open spec fn view(&self) -> RowCause {
        match self {
            RowFault::Unreadable => RowCause::Unreadable,
            RowFault::Field(error) => RowCause::Field(error@),
        }
    }
}

/// A row that failed to decode.
#[derive(Debug)]
pub struct RowDecodeError {
    /// The index of the row among the data rows of the log, from 0.
    pub row: usize,
    /// Why the row failed.
    pub cause: RowFault,
}

/// What a [`RowDecodeError`] says, with text as sequences of characters.
pub struct RowFailure {
    pub row: int,
    pub cause: RowCause,
}

impl View for RowDecodeError {
    type V = RowFailure;

    open spec fn view(&self) -> RowFailure {
        RowFailure { row: self.row as int, cause: self.cause@ }
    }
}

impl DeepView for RowDecodeError {
    type V = RowFailure;

    open spec fn deep_view(&self) -> RowFailure {
        self@
    }
}

/// Why a load failed.
#[derive(Debug)]
pub enum LoadError {
    /// The header of the log could not be read.
    SourceRead,
    /// A row failed to decode under the strict policy.
    RowDecode(RowDecodeError),
}

/// What a [`LoadError`] says, with text as sequences of characters.
pub enum LoadFailure {
    SourceRead,
    RowDecode(RowFailure),
}

impl View for LoadError {
    type V = LoadFailure;

    open spec fn view(&self) -> LoadFailure {
        match self {
            LoadError::SourceRead => LoadFailure::SourceRead,
            LoadError::RowDecode(error) => LoadFailure::RowDecode(error@),
        }
    }
}

/// What a load gives.
#[derive(Debug)]
pub struct Loaded {
    /// The records of the rows that decoded, in row order.
    pub records: Vec<BlackBoxTick>,
    /// The rows that failed to decode, in row order.
    pub failures: Vec<RowDecodeError>,
    /// The number of rows that failed to decode.
    pub error_count: usize,
}

/// What a [`Loaded`] holds, with text as sequences of characters.
pub struct LoadedLog {
    pub records: Seq<Seq<Datum>>,
    pub failures: Seq<RowFailure>,
    pub error_count: nat,
}

impl View for Loaded {
    type V = LoadedLog;

    open spec fn view(&self) -> LoadedLog {
        LoadedLog {
            records: self.records.deep_view(),
            failures: self.failures.deep_view(),
            error_count: self.error_count as nat,
        }
    }
}

/// The record that `row` decodes to under the header `header`, or why it
/// does not.
pub open spec fn row_result(header: Seq<Seq<char>>, row: Option<Seq<Seq<char>>>) -> Result<
    Seq<Datum>,
    RowCause,
> {
    match row {
        None => Err(RowCause::Unreadable),
        Some(cells) => match decode_record_spec(header, cells) {
            Ok(record) => Ok(record),
            Err(failure) => Err(RowCause::Field(failure)),
        },
    }
}

/// The records of those of the first `n` rows that decode, in row order.
pub open spec fn decoded(
    header: Seq<Seq<char>>,
    rows: Seq<Option<Seq<Seq<char>>>>,
    n: int,
) -> Seq<Seq<Datum>>
    decreases n,
{
    if n <= 0 {
        Seq::empty()
    } else {
        match row_result(header, rows[n - 1]) {
            Ok(record) => decoded(header, rows, n - 1).push(record),
            Err(_) => decoded(header, rows, n - 1),
        }
    }
}

/// Those of the first `n` rows that fail to decode, in row order, each with
/// its index and the reason.
pub open spec fn failures(
    header: Seq<Seq<char>>,
    rows: Seq<Option<Seq<Seq<char>>>>,
    n: int,
) -> Seq<RowFailure>
    decreases n,
{
    if n <= 0 {
        Seq::empty()
    } else {
        match row_result(header, rows[n - 1]) {
            Ok(_) => failures(header, rows, n - 1),
            Err(cause) => failures(header, rows, n - 1).push(RowFailure { row: n - 1, cause }),
        }
    }
}

/// The index of the first row at or after `from` that fails to decode, or
/// the number of rows where there is none.
pub open spec fn first_failed(
    header: Seq<Seq<char>>,
    rows: Seq<Option<Seq<Seq<char>>>>,
    from: int,
) -> int
    decreases rows.len() - from,
{
    if from >= rows.len() {
        rows.len() as int
    } else if from >= 0 && row_result(header, rows[from]) is Err {
        from
    } else {
        first_failed(header, rows, from + 1)
    }
}

/// What a load of a log with the header row `header` and the data rows
/// `rows` gives under `policy`.
pub open spec fn load_spec(
    header: Option<Seq<Seq<char>>>,
    rows: Seq<Option<Seq<Seq<char>>>>,
    policy: Policy,
) -> Result<LoadedLog, LoadFailure> {
    match header {
        None => Err(LoadFailure::SourceRead),
        Some(names) => {
            let failed = first_failed(names, rows, 0);
            if policy == Policy::Strict && failed < rows.len() {
                Err(
                    LoadFailure::RowDecode(
                        RowFailure { row: failed, cause: row_result(names, rows[failed])->Err_0 },
                    ),
                )
            } else {
                Ok(
                    LoadedLog {
                        records: decoded(names, rows, rows.len() as int),
                        failures: failures(names, rows, rows.len() as int),
                        error_count: failures(names, rows, rows.len() as int).len(),
                    },
                )
            }
        },
    }
}

/// What the result of a load looks like with text as sequences of
/// characters.
pub open spec fn load_outcome(r: Result<Loaded, LoadError>) -> Result<LoadedLog, LoadFailure> {
    match r {
        Ok(loaded) => Ok(loaded@),
        Err(error) => Err(error@),
    }
}

/// Of the first `n` rows each one is decoded or has failed: the records and
/// the failures are together `n`.
pub proof fn lemma_counts(header: Seq<Seq<char>>, rows: Seq<Option<Seq<Seq<char>>>>, n: int)
    requires
        0 <= n,
    ensures
        decoded(header, rows, n).len() + failures(header, rows, n).len() == n,
    decreases n,
{
    if n > 0 {
        lemma_counts(header, rows, n - 1);
    }
}

/// Loads the log with the header row `header` and the data rows `rows`.
///
/// The load fails if the header is unreadable, and under the strict policy
/// at the first row that fails to decode; it succeeds otherwise, with the
/// records of the rows that decode, in row order, and the number of those
/// that do not, which it also lists.
pub fn load_rows(header: &RawRow, rows: &Vec<RawRow>, policy: Policy) -> (r: Result<
    Loaded,
    LoadError,
>)
    ensures
        load_outcome(r) == load_spec(header@, rows.deep_view(), policy),
        r matches Ok(loaded) ==> forall|i: int|
            0 <= i < loaded@.records.len() ==> well_typed(#[trigger] loaded@.records[i]),
{
    let names = match header {
        RawRow::Unreadable => {
            return Err(LoadError::SourceRead);
        },
        RawRow::Cells(names) => names,
    };
    let layout = Layout::resolve(names);
    let ghost head = names.deep_view();
    let ghost body = rows.deep_view();
    let mut records: Vec<BlackBoxTick> = Vec::new();
    let mut failed: Vec<RowDecodeError> = Vec::new();
    let mut i: usize = 0;
    while i < rows.len()
        invariant
            0 <= i <= rows@.len(),
            head == names.deep_view(),
            header@ == Some(head),
            body == rows.deep_view(),
            layout@ == layout_of(head),
            records.deep_view() == decoded(head, body, i as int),
            failed.deep_view() == failures(head, body, i as int),
            failed@.len() <= i,
            policy == Policy::Strict ==> first_failed(head, body, 0) == first_failed(
                head,
                body,
                i as int,
            ),
            forall|k: int|
                0 <= k < records@.len() ==> well_typed(#[trigger] records.deep_view()[k]),
        decreases rows@.len() - i,
    {
        let ghost before = records.deep_view();
        let ghost failed_before = failed.deep_view();
        let outcome = match &rows[i] {
            RawRow::Unreadable => Err(RowFault::Unreadable),
            RawRow::Cells(cells) => match decode_row(&layout, cells) {
                Ok(record) => Ok(record),
                Err(error) => Err(RowFault::Field(error)),
            },
        };
        match outcome {
            Ok(record) => {
                assert(row_result(head, body[i as int]) == Ok::<Seq<Datum>, RowCause>(record@));
                records.push(record);
                assert(records.deep_view() =~= before.push(record@));
            },
            Err(cause) => {
                assert(row_result(head, body[i as int]) == Err::<Seq<Datum>, RowCause>(cause@));
                let error = RowDecodeError { row: i, cause };
                match policy {
                    Policy::Strict => {
                        return Err(LoadError::RowDecode(error));
                    },
                    Policy::Tolerant => {
                        failed.push(error);
                        assert(failed.deep_view() =~= failed_before.push(error@));
                    },
                }
            },
        }
        i = i + 1;
    }
    let error_count = failed.len();
    Ok(Loaded { records, failures: failed, error_count })
}

/// Loads the log whose file holds the bytes `content`, under `policy`.
///
/// The rows are those that the `csv` crate reads from `content`; what is
/// made of them is what [`load_rows`] makes of them.
pub fn load(content: &[u8], policy: Policy) -> (r: Result<Loaded, LoadError>)
    ensures
        load_outcome(r) == load_spec(csv_header(content@), csv_records(content@), policy),
        r matches Ok(loaded) ==> forall|i: int|
            0 <= i < loaded@.records.len() ==> well_typed(#[trigger] loaded@.records[i]),
{
    let header = read_header(content);
    let rows = read_records(content);
    load_rows(&header, &rows, policy)
}

/// Reads the records of the log whose file holds the bytes `content`, and
/// fails at the first row that does not decode.
pub fn read_csv_data(content: &[u8]) -> (r: Result<Vec<BlackBoxTick>, LoadError>)
    ensures
        match r {
            Ok(records) => load_spec(csv_header(content@), csv_records(content@), Policy::Strict)
                matches Ok(log) && log.records == records.deep_view(),
            Err(error) => load_spec(csv_header(content@), csv_records(content@), Policy::Strict)
                == Err::<LoadedLog, LoadFailure>(error@),
        },
        r matches Ok(records) ==> forall|i: int|
            0 <= i < records@.len() ==> well_typed(#[trigger] records.deep_view()[i]),
{
    match load(content, Policy::Strict) {
        Ok(loaded) => Ok(loaded.records),
        Err(error) => Err(error),
    }
}

} // verus!
