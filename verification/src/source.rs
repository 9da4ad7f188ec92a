//! The rows of a log, as the `csv` crate reads them from the bytes of a
//! file: a header row, then the data rows.

use vstd::prelude::*;

verus! {

/// One row of a log, as it was read.
#[derive(Debug)]
pub enum RawRow {
    /// The cells of the row, in order.
    Cells(Vec<String>),
    /// The row could not be read: it is no text, or it holds another number
    /// of cells than the first row of the log.
    Unreadable,
}

impl View for RawRow {
    type V = Option<Seq<Seq<char>>>;

    open spec fn view(&self) -> Option<Seq<Seq<char>>> {
        match self {
            RawRow::Cells(cells) => Some(cells.deep_view()),
            RawRow::Unreadable => None,
        }
    }
}

impl DeepView for RawRow {
    type V = Option<Seq<Seq<char>>>;

    open spec fn deep_view(&self) -> Option<Seq<Seq<char>>> {
        self@
    }
}

/// The header row that `csv::Reader` reads from the bytes `content`: its
/// cells, or `None` where the row is not valid UTF-8.
pub uninterp spec fn csv_header(content: Seq<u8>) -> Option<Seq<Seq<char>>>;

/// The data rows that `csv::Reader` reads from the bytes `content` after the
/// header row, in order: for each row its cells, or `None` where the reader
/// reports an error for it.
pub uninterp spec fn csv_records(content: Seq<u8>) -> Seq<Option<Seq<Seq<char>>>>;

/// Reads the header row of `content` with `csv::Reader::headers`, on a reader
/// made by `csv::Reader::from_reader` with its default settings.
///
/// The contract names the result and claims nothing else: that the reader
/// returns the same row whenever it is given the same bytes.
#[verifier::external_body]
pub(crate) fn read_header(content: &[u8]) -> (row: RawRow)
    ensures
        row@ == csv_header(content@),
{
    let mut reader = csv::Reader::from_reader(content);
    match reader.headers() {
        Ok(record) => RawRow::Cells(record.iter().map(String::from).collect()),
        Err(_) => RawRow::Unreadable,
    }
}

/// Reads the data rows of `content` with `csv::Reader::records`, on a reader
/// made by `csv::Reader::from_reader` with its default settings.
///
/// The contract names the result and claims nothing else: that the reader
/// returns the same rows whenever it is given the same bytes.
#[verifier::external_body]
pub(crate) fn read_records(content: &[u8]) -> (rows: Vec<RawRow>)
    ensures
        rows.deep_view() == csv_records(content@),
{
    let mut reader = csv::Reader::from_reader(content);
    let rows = reader.records().map(|row| match row {
        Ok(record) => RawRow::Cells(record.iter().map(String::from).collect()),
        Err(_) => RawRow::Unreadable,
    }).collect();
    rows
}

} // verus!
