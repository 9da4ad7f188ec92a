//! The record decoder: from one row of cells to one typed record.
//!
//! A row is read against a header. Each column of the schema is looked up in
//! the header by its exact text, its cell is decoded by the rule of the
//! column's kind, and the first column that cannot be decoded fails the row.

use crate::header::{layout_of, Layout, Slot};
use crate::record::{data_of, fits, well_typed, BlackBoxTick, Datum, Decimal, Value};
use crate::schema::{column_at, column_spec, CellKind, Column, ColumnSpec, COLUMN_COUNT};
use crate::text::{chars_of, is_float_text, parse_small_uint, small_uint_of};
use vstd::prelude::*;

verus! {

/// Why a field could not be decoded.
#[derive(Clone, Copy, Debug, PartialEq, Eq, Structural)]
pub enum Fault {
    /// The column requires a value and the row holds no cell for it.
    Missing,
    /// The header names the column more than once.
    Repeated,
    /// The cell does not write a decimal number.
    NotANumber,
    /// The cell does not write an unsigned integer of at most 255.
    NotASmallUint,
    /// The cell was expected to write 0 or 1 and does not.
    NotZeroOrOne,
}

/// What a cell was refused for, and the text it held.
pub struct Refusal {
    pub fault: Fault,
    pub raw: Seq<char>,
}

/// A field that could not be decoded.
#[derive(Debug)]
pub struct FieldDecodeError {
    /// The column of the field in the schema.
    pub column: usize,
    /// The header text of that column.
    pub field: &'static str,
    /// Why the field was refused.
    pub fault: Fault,
    /// The text of the cell; empty where the row held no cell.
    pub raw: String,
}

/// What a [`FieldDecodeError`] says, with text as sequences of characters.
pub struct FieldFailure {
    pub column: int,
    pub field: Seq<char>,
    pub fault: Fault,
    pub raw: Seq<char>,
}

impl View for FieldDecodeError {
    type V = FieldFailure;

    open spec fn view(&self) -> FieldFailure {
        FieldFailure {
            column: self.column as int,
            field: self.field@,
            fault: self.fault,
            raw: self.raw@,
        }
    }
}

impl DeepView for FieldDecodeError {
    type V = FieldFailure;

    open spec fn deep_view(&self) -> FieldFailure {
        self@
    }
}

/// The truth value that the integer `i` encodes.
pub open spec fn flag_of(i: u8) -> Result<bool, Fault> {
    if i == 0 {
        Ok(false)
    } else if i == 1 {
        Ok(true)
    } else {
        Err(Fault::NotZeroOrOne)
    }
}

/// The truth value that the integer `i` encodes, where there is one.
pub open spec fn maybe_flag_of(i: Option<u8>) -> Result<Option<bool>, Fault> {
    match i {
        None => Ok(None),
        Some(n) => match flag_of(n) {
            Ok(b) => Ok(Some(b)),
            Err(fault) => Err(fault),
        },
    }
}

/// Decodes a truth value written as an integer: 0 is false, 1 is true, and
/// no other integer is accepted.
pub fn bool_from_int(i: u8) -> (r: Result<bool, Fault>)
    ensures
        r == flag_of(i),
{
    match i {
        0 => Ok(false),
        1 => Ok(true),
        _ => Err(Fault::NotZeroOrOne),
    }
}

/// Decodes a truth value that may be absent: no integer gives no value, and
/// an integer is decoded as by [`bool_from_int`].
pub fn maybe_bool_from_maybe_int(i: Option<u8>) -> (r: Result<Option<bool>, Fault>)
    ensures
        r == maybe_flag_of(i),
{
    match i {
        None => Ok(None),
        Some(n) => match bool_from_int(n) {
            Ok(b) => Ok(Some(b)),
            Err(fault) => Err(fault),
        },
    }
}

/// The value that the text `t` writes in a column of kind `kind`.
pub open spec fn decode_text(kind: CellKind, t: Seq<char>) -> Result<Datum, Fault> {
    match kind {
        CellKind::Float => if is_float_text(t) {
            Ok(Datum::Number(t))
        } else {
            Err(Fault::NotANumber)
        },
        CellKind::SmallUint => match small_uint_of(t) {
            Some(n) => Ok(Datum::SmallUint(n)),
            None => Err(Fault::NotASmallUint),
        },
        CellKind::Text => Ok(Datum::Text(t)),
        CellKind::Flag => match small_uint_of(t) {
            Some(n) => match flag_of(n) {
                Ok(b) => Ok(Datum::Flag(b)),
                Err(fault) => Err(fault),
            },
            None => Err(Fault::NotZeroOrOne),
        },
    }
}

/// The value of a field of the column `column` whose cell is `cell`, where
/// `None` stands for a row that holds no such cell.
///
/// In a column that requires no value, an empty cell and a cell that is not
/// there both give [`Datum::Absent`]. Every other cell is decoded by the
/// rule of the column's kind, whether or not the column requires a value.
pub open spec fn decode_cell(column: ColumnSpec, cell: Option<Seq<char>>) -> Result<
    Datum,
    Refusal,
> {
    match cell {
        None => if column.required {
            Err(Refusal { fault: Fault::Missing, raw: Seq::empty() })
        } else {
            Ok(Datum::Absent)
        },
        Some(t) => if !column.required && t.len() == 0 {
            Ok(Datum::Absent)
        } else {
            match decode_text(column.kind, t) {
                Ok(datum) => Ok(datum),
                Err(fault) => Err(Refusal { fault, raw: t }),
            }
        },
    }
}

/// Every decoded value fits the column it was decoded for.
pub proof fn lemma_decoded_fits(column: ColumnSpec, cell: Option<Seq<char>>)
    ensures
        decode_cell(column, cell) matches Ok(datum) ==> fits(column, datum),
{
}

/// What a value or a fault looks like with text as sequences of characters.
pub open spec fn cell_outcome(r: Result<Value, (Fault, String)>) -> Result<Datum, Refusal> {
    match r {
        Ok(value) => Ok(value@),
        Err((fault, raw)) => Err(Refusal { fault, raw: raw@ }),
    }
}

fn decode_flag(text: &str, required: bool) -> (r: Result<Value, Fault>)
    ensures
        match r {
            Ok(value) => decode_text(CellKind::Flag, text@) == Ok::<Datum, Fault>(value@),
            Err(fault) => decode_text(CellKind::Flag, text@) == Err::<Datum, Fault>(fault),
        },
{
    let chars = chars_of(text);
    let read = parse_small_uint(&chars);
    if required {
        match read {
            Some(n) => match bool_from_int(n) {
                Ok(b) => Ok(Value::Flag(b)),
                Err(fault) => Err(fault),
            },
            None => Err(Fault::NotZeroOrOne),
        }
    } else {
        if read.is_none() {
            return Err(Fault::NotZeroOrOne);
        }
        match maybe_bool_from_maybe_int(read) {
            Ok(Some(b)) => Ok(Value::Flag(b)),
            Ok(None) => Ok(Value::Absent),
            Err(fault) => Err(fault),
        }
    }
}

fn decode_present(text: &String, kind: CellKind, required: bool) -> (r: Result<Value, Fault>)
    ensures
        match r {
            Ok(value) => decode_text(kind, text@) == Ok::<Datum, Fault>(value@),
            Err(fault) => decode_text(kind, text@) == Err::<Datum, Fault>(fault),
        },
{
    match kind {
        CellKind::Float => match Decimal::parse(text.as_str()) {
            Some(number) => Ok(Value::Number(number)),
            None => Err(Fault::NotANumber),
        },
        CellKind::SmallUint => {
            let chars = chars_of(text.as_str());
            match parse_small_uint(&chars) {
                Some(n) => Ok(Value::SmallUint(n)),
                None => Err(Fault::NotASmallUint),
            }
        },
        CellKind::Text => Ok(Value::Text(text.clone())),
        CellKind::Flag => decode_flag(text.as_str(), required),
    }
}

/// Decodes the field of the column `column` from its cell, where `None`
/// stands for a row that holds no such cell.
pub fn decode_field(column: &Column, cell: Option<&String>) -> (r: Result<Value, (Fault, String)>)
    ensures
        cell_outcome(r) == decode_cell(
            column@,
            match cell {
                Some(text) => Some(text@),
                None => None,
            },
        ),
{
    match cell {
        None => if column.required {
            Err((Fault::Missing, String::new()))
        } else {
            Ok(Value::Absent)
        },
        Some(text) => if !column.required && text.as_str().is_empty() {
            Ok(Value::Absent)
        } else {
            match decode_present(text, column.kind, column.required) {
                Ok(value) => Ok(value),
                Err(fault) => Err((fault, text.clone())),
            }
        },
    }
}

/// The cell that a row holds for a column that stands at `slot`.
pub open spec fn cell_at(slot: Slot, cells: Seq<Seq<char>>) -> Option<Seq<char>> {
    match slot {
        Slot::At(at) => if at < cells.len() {
            Some(cells[at as int])
        } else {
            None
        },
        _ => None,
    }
}

/// The value of the `i`-th field of the row `cells`, read against `layout`.
pub open spec fn field_outcome(layout: Seq<Slot>, cells: Seq<Seq<char>>, i: int) -> Result<
    Datum,
    Refusal,
> {
    if layout[i] == Slot::Repeated {
        Err(Refusal { fault: Fault::Repeated, raw: Seq::empty() })
    } else {
        decode_cell(column_spec(i), cell_at(layout[i], cells))
    }
}

/// The failure of the `i`-th field of the row `cells`, where that field is
/// refused: the column, its header text, the reason and the cell's text.
pub open spec fn failure_at(layout: Seq<Slot>, cells: Seq<Seq<char>>, i: int) -> FieldFailure {
    let refusal = field_outcome(layout, cells, i)->Err_0;
    FieldFailure {
        column: i,
        field: column_spec(i).name,
        fault: refusal.fault,
        raw: refusal.raw,
    }
}

/// The failures of those of the first `n` fields of the row `cells` that
/// are refused, in the order of the schema.
pub open spec fn refusals(layout: Seq<Slot>, cells: Seq<Seq<char>>, n: int) -> Seq<FieldFailure>
    decreases n,
{
    if n <= 0 {
        Seq::empty()
    } else if field_outcome(layout, cells, n - 1) is Err {
        refusals(layout, cells, n - 1).push(failure_at(layout, cells, n - 1))
    } else {
        refusals(layout, cells, n - 1)
    }
}

/// The first column at or after `from` whose field is refused, or
/// [`COLUMN_COUNT`] where every field from there on is decoded.
pub open spec fn first_refused(layout: Seq<Slot>, cells: Seq<Seq<char>>, from: int) -> int
    decreases COLUMN_COUNT - from,
{
    if from >= COLUMN_COUNT {
        COLUMN_COUNT as int
    } else if from >= 0 && field_outcome(layout, cells, from) is Err {
        from
    } else {
        first_refused(layout, cells, from + 1)
    }
}

/// The record that the row `cells` decodes to when read against `layout`,
/// or the failure of the first column, in the order of the schema, whose
/// field is refused.
pub open spec fn decode_row_spec(layout: Seq<Slot>, cells: Seq<Seq<char>>) -> Result<
    Seq<Datum>,
    FieldFailure,
> {
    let i = first_refused(layout, cells, 0);
    if i < COLUMN_COUNT {
        Err(failure_at(layout, cells, i))
    } else {
        Ok(Seq::new(COLUMN_COUNT as nat, |k: int| field_outcome(layout, cells, k)->Ok_0))
    }
}

/// The record that the row `cells` decodes to under the header `header`.
pub open spec fn decode_record_spec(header: Seq<Seq<char>>, cells: Seq<Seq<char>>) -> Result<
    Seq<Datum>,
    FieldFailure,
> {
    decode_row_spec(layout_of(header), cells)
}

/// `first_refused` finds the first refused field at or after `from`.
pub proof fn lemma_first_refused(layout: Seq<Slot>, cells: Seq<Seq<char>>, from: int)
    requires
        0 <= from <= COLUMN_COUNT,
    ensures
        from <= first_refused(layout, cells, from) <= COLUMN_COUNT,
        first_refused(layout, cells, from) < COLUMN_COUNT ==> field_outcome(
            layout,
            cells,
            first_refused(layout, cells, from),
        ) is Err,
        forall|k: int|
            from <= k < first_refused(layout, cells, from) ==> (#[trigger] field_outcome(
                layout,
                cells,
                k,
            )) is Ok,
    decreases COLUMN_COUNT - from,
{
    if from < COLUMN_COUNT && field_outcome(layout, cells, from) is Ok {
        lemma_first_refused(layout, cells, from + 1);
    }
}

/// What a decoded row or a failure looks like with text as sequences of
/// characters.
pub open spec fn row_outcome(r: Result<BlackBoxTick, FieldDecodeError>) -> Result<
    Seq<Datum>,
    FieldFailure,
> {
    match r {
        Ok(record) => Ok(record@),
        Err(error) => Err(error@),
    }
}

fn decode_nth(layout: &Layout, cells: &Vec<String>, i: usize) -> (r: Result<
    Value,
    FieldDecodeError,
>)
    requires
        i < COLUMN_COUNT,
    ensures
        match r {
            Ok(value) => field_outcome(layout@, cells.deep_view(), i as int) == Ok::<
                Datum,
                Refusal,
            >(value@),
            Err(error) => field_outcome(layout@, cells.deep_view(), i as int) is Err && error@
                == failure_at(layout@, cells.deep_view(), i as int),
        },
{
    let column = column_at(i);
    let decoded = match layout.slot_at(i) {
        Slot::Repeated => Err((Fault::Repeated, String::new())),
        Slot::Missing => decode_field(&column, None),
        Slot::At(at) => if at < cells.len() {
            decode_field(&column, Some(&cells[at]))
        } else {
            decode_field(&column, None)
        },
    };
    assert(cell_outcome(decoded) == field_outcome(layout@, cells.deep_view(), i as int));
    match decoded {
        Ok(value) => Ok(value),
        Err((fault, raw)) => Err(FieldDecodeError { column: i, field: column.name, fault, raw }),
    }
}

/// Decodes the row `cells`, read against `layout`, into a record.
///
/// The row is decoded if and only if every field is; otherwise the error
/// names the first column, in the order of the schema, whose field is
/// refused, and holds the text of its cell.
pub fn decode_row(layout: &Layout, cells: &Vec<String>) -> (r: Result<
    BlackBoxTick,
    FieldDecodeError,
>)
    ensures
        row_outcome(r) == decode_row_spec(layout@, cells.deep_view()),
        r matches Ok(record) ==> well_typed(record@),
{
    let ghost row = cells.deep_view();
    let mut values: Vec<Value> = Vec::new();
    let mut i: usize = 0;
    while i < COLUMN_COUNT
        invariant
            0 <= i <= COLUMN_COUNT,
            row == cells.deep_view(),
            values@.len() == i,
            first_refused(layout@, row, 0) == first_refused(layout@, row, i as int),
            forall|k: int|
                0 <= k < i ==> field_outcome(layout@, row, k) == Ok::<Datum, Refusal>(
                    #[trigger] values@[k]@,
                ),
        decreases COLUMN_COUNT - i,
    {
        match decode_nth(layout, cells, i) {
            Ok(value) => {
                values.push(value);
            },
            Err(error) => {
                return Err(error);
            },
        }
        i = i + 1;
    }
    proof {
        assert(data_of(values@) =~= decode_row_spec(layout@, row)->Ok_0);
        assert forall|k: int| 0 <= k < COLUMN_COUNT implies fits(
            column_spec(k),
            #[trigger] data_of(values@)[k],
        ) by {
            lemma_decoded_fits(column_spec(k), cell_at(layout@[k], row));
            assert(field_outcome(layout@, row, k) == Ok::<Datum, Refusal>(values@[k]@));
        }
    }
    Ok(BlackBoxTick::from_values(values))
}

/// Decodes the row `cells` of a log whose header is `header`.
pub fn decode_record(header: &Vec<String>, cells: &Vec<String>) -> (r: Result<
    BlackBoxTick,
    FieldDecodeError,
>)
    ensures
        row_outcome(r) == decode_record_spec(header.deep_view(), cells.deep_view()),
        r matches Ok(record) ==> well_typed(record@),
{
    let layout = Layout::resolve(header);
    decode_row(&layout, cells)
}

/// Lists every field of the row `cells`, read against `layout`, that is
/// refused, in the order of the schema; the row decodes if and only if the
/// list is empty.
pub fn row_failures(layout: &Layout, cells: &Vec<String>) -> (failures: Vec<FieldDecodeError>)
    ensures
        failures.deep_view() == refusals(layout@, cells.deep_view(), COLUMN_COUNT as int),
{
    let ghost row = cells.deep_view();
    let mut failures: Vec<FieldDecodeError> = Vec::new();
    let mut i: usize = 0;
    while i < COLUMN_COUNT
        invariant
            0 <= i <= COLUMN_COUNT,
            row == cells.deep_view(),
            failures.deep_view() == refusals(layout@, row, i as int),
        decreases COLUMN_COUNT - i,
    {
        let ghost before = failures.deep_view();
        match decode_nth(layout, cells, i) {
            Ok(_) => {},
            Err(error) => {
                failures.push(error);
                assert(failures.deep_view() =~= before.push(error@));
            },
        }
        i = i + 1;
    }
    failures
}

} // verus!
