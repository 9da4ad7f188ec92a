//! What holds of the decoder, the loader and the generators on every input.

use crate::decode::{
    cell_at, decode_cell, decode_record_spec, decode_row_spec, failure_at, field_outcome,
    first_refused, lemma_first_refused, refusals, Fault, FieldFailure, Refusal,
};
use crate::document::flight_text;
use crate::header::{layout_of, lemma_slot_of, slot_of, Slot};
use crate::loader::{
    decoded, failures, first_failed, lemma_counts, load_spec, row_result, LoadFailure, LoadedLog,
    Policy,
};
use crate::record::Datum;
use crate::schema::{
    column_spec, CellKind, ColumnSpec, COLUMN_COUNT, GPS_ALTITUDE, LATITUDE, LONGITUDE,
};
use crate::text::{number_of, small_uint_of};
use crate::track::{track_of, Position};
use vstd::prelude::*;

verus! {

/// The cell texts `0`, `1` and `2` write the integers 0, 1 and 2.
pub proof fn lemma_small_digits()
    ensures
        small_uint_of("0"@) == Some(0u8),
        small_uint_of("1"@) == Some(1u8),
        small_uint_of("2"@) == Some(2u8),
{
    reveal_strlit("0");
    reveal_strlit("1");
    reveal_strlit("2");
    reveal_with_fuel(number_of, 2);
    assert("0"@.drop_last() =~= Seq::<char>::empty());
    assert("1"@.drop_last() =~= Seq::<char>::empty());
    assert("2"@.drop_last() =~= Seq::<char>::empty());
}

/// In a column of truth values, a cell that writes the integer 0 decodes to
/// false and one that writes 1 to true; every other cell that must hold a
/// value is refused as not 0 or 1, with its text.
pub proof fn lemma_flag_cell(column: ColumnSpec, text: Seq<char>)
    requires
        column.kind == CellKind::Flag,
        column.required || text.len() > 0,
    ensures
        small_uint_of(text) == Some(0u8) ==> decode_cell(column, Some(text)) == Ok::<
            Datum,
            Refusal,
        >(Datum::Flag(false)),
        small_uint_of(text) == Some(1u8) ==> decode_cell(column, Some(text)) == Ok::<
            Datum,
            Refusal,
        >(Datum::Flag(true)),
        small_uint_of(text) != Some(0u8) && small_uint_of(text) != Some(1u8) ==> decode_cell(
            column,
            Some(text),
        ) == Err::<Datum, Refusal>(Refusal { fault: Fault::NotZeroOrOne, raw: text }),
{
}

/// In a decoded row, a flag whose cell writes 0 is false and one whose cell
/// writes 1 is true.
pub proof fn lemma_flag_field(layout: Seq<Slot>, cells: Seq<Seq<char>>, i: int, at: usize)
    requires
        0 <= i < COLUMN_COUNT,
        column_spec(i).kind == CellKind::Flag,
        layout[i] == Slot::At(at),
        at < cells.len(),
        decode_row_spec(layout, cells) is Ok,
    ensures
        small_uint_of(cells[at as int]) == Some(0u8) ==> decode_row_spec(layout, cells)->Ok_0[i]
            == Datum::Flag(false),
        small_uint_of(cells[at as int]) == Some(1u8) ==> decode_row_spec(layout, cells)->Ok_0[i]
            == Datum::Flag(true),
{
    lemma_first_refused(layout, cells, 0);
    assert(field_outcome(layout, cells, i) is Ok);
}

/// A row with a flag cell that writes neither 0 nor 1 fails to decode; and
/// where no earlier column is refused, the failure names the flag's column
/// and holds the text of the cell.
pub proof fn lemma_flag_fails_row(layout: Seq<Slot>, cells: Seq<Seq<char>>, i: int, at: usize)
    requires
        0 <= i < COLUMN_COUNT,
        column_spec(i).kind == CellKind::Flag,
        layout[i] == Slot::At(at),
        at < cells.len(),
        column_spec(i).required || cells[at as int].len() > 0,
        small_uint_of(cells[at as int]) != Some(0u8),
        small_uint_of(cells[at as int]) != Some(1u8),
    ensures
        decode_row_spec(layout, cells) is Err,
        first_refused(layout, cells, 0) == i ==> decode_row_spec(layout, cells) == Err::<
            Seq<Datum>,
            FieldFailure,
        >(
            FieldFailure {
                column: i,
                field: column_spec(i).name,
                fault: Fault::NotZeroOrOne,
                raw: cells[at as int],
            },
        ),
{
    lemma_flag_cell(column_spec(i), cells[at as int]);
    lemma_first_refused(layout, cells, 0);
    assert(field_outcome(layout, cells, i) is Err);
}

/// The failures of the first `n` fields are empty exactly when each of
/// those fields is decoded, and start with the first refused field.
pub proof fn lemma_refusals(layout: Seq<Slot>, cells: Seq<Seq<char>>, n: int)
    requires
        0 <= n <= COLUMN_COUNT,
    ensures
        refusals(layout, cells, n).len() == 0 <==> first_refused(layout, cells, 0) >= n,
        refusals(layout, cells, n).len() > 0 ==> refusals(layout, cells, n)[0] == failure_at(
            layout,
            cells,
            first_refused(layout, cells, 0),
        ),
    decreases n,
{
    lemma_first_refused(layout, cells, 0);
    if n > 0 {
        lemma_refusals(layout, cells, n - 1);
    }
}

/// A row decodes if and only if none of its fields is refused; where it
/// does not, it fails with the first of the failures of its fields.
pub proof fn lemma_row_fails_with_first(layout: Seq<Slot>, cells: Seq<Seq<char>>)
    ensures
        decode_row_spec(layout, cells) is Ok <==> refusals(
            layout,
            cells,
            COLUMN_COUNT as int,
        ).len() == 0,
        decode_row_spec(layout, cells) matches Err(failure) ==> failure == refusals(
            layout,
            cells,
            COLUMN_COUNT as int,
        )[0],
{
    lemma_refusals(layout, cells, COLUMN_COUNT as int);
    lemma_first_refused(layout, cells, 0);
}

/// In a column that requires no value, a cell that is empty or not there
/// decodes to no value.
pub proof fn lemma_optional_cell(column: ColumnSpec, cell: Option<Seq<char>>)
    requires
        !column.required,
        cell matches Some(text) ==> text.len() == 0,
    ensures
        decode_cell(column, cell) == Ok::<Datum, Refusal>(Datum::Absent),
{
}

/// In a decoded row, a field whose column requires no value and whose cell
/// is empty or not there holds no value.
pub proof fn lemma_optional_field(layout: Seq<Slot>, cells: Seq<Seq<char>>, i: int)
    requires
        0 <= i < COLUMN_COUNT,
        !column_spec(i).required,
        cell_at(layout[i], cells) matches Some(text) ==> text.len() == 0,
        decode_row_spec(layout, cells) is Ok,
    ensures
        decode_row_spec(layout, cells)->Ok_0[i] == Datum::Absent,
{
    lemma_first_refused(layout, cells, 0);
    lemma_optional_cell(column_spec(i), cell_at(layout[i], cells));
}

/// In a decoded row, a field whose column requires a decimal number holds
/// the text of its cell, unchanged.
pub proof fn lemma_number_field(layout: Seq<Slot>, cells: Seq<Seq<char>>, i: int)
    requires
        0 <= i < COLUMN_COUNT,
        column_spec(i).kind == CellKind::Float,
        column_spec(i).required,
        decode_row_spec(layout, cells) is Ok,
    ensures
        cell_at(layout[i], cells) is Some,
        decode_row_spec(layout, cells)->Ok_0[i] == Datum::Number(cell_at(layout[i], cells)->0),
{
    lemma_first_refused(layout, cells, 0);
    assert(field_outcome(layout, cells, i) is Ok);
}

/// Where each of the first `n` rows decodes, their records are `n`, one for
/// each row and in row order, and none has failed.
pub proof fn lemma_all_decoded(header: Seq<Seq<char>>, rows: Seq<Option<Seq<Seq<char>>>>, n: int)
    requires
        0 <= n <= rows.len(),
        forall|i: int| 0 <= i < n ==> (#[trigger] row_result(header, rows[i])) is Ok,
    ensures
        decoded(header, rows, n).len() == n,
        failures(header, rows, n).len() == 0,
        forall|i: int|
            0 <= i < n ==> #[trigger] decoded(header, rows, n)[i] == row_result(
                header,
                rows[i],
            )->Ok_0,
    decreases n,
{
    if n > 0 {
        lemma_all_decoded(header, rows, n - 1);
        assert(row_result(header, rows[n - 1]) is Ok);
    }
}

/// The record that a row decodes to under `header`, for the rows that
/// decode.
pub open spec fn record_under(header: Seq<Seq<char>>) -> spec_fn(Option<Seq<Seq<char>>>) -> Option<
    Seq<Datum>,
> {
    |row: Option<Seq<Seq<char>>>|
        match row_result(header, row) {
            Ok(record) => Some(record),
            Err(_) => None,
        }
}

/// The records of a load are the records of the rows that decode, with the
/// other rows left out and the order kept.
pub proof fn lemma_decoded_in_order(
    header: Seq<Seq<char>>,
    rows: Seq<Option<Seq<Seq<char>>>>,
    n: int,
)
    requires
        0 <= n <= rows.len(),
    ensures
        decoded(header, rows, n) == rows.take(n).filter_map(record_under(header)),
    decreases n,
{
    if n > 0 {
        lemma_decoded_in_order(header, rows, n - 1);
        assert(rows.take(n).drop_last() =~= rows.take(n - 1));
        assert(rows.take(n).last() == rows[n - 1]);
        match row_result(header, rows[n - 1]) {
            Ok(record) => {
                assert(decoded(header, rows, n - 1).push(record) =~= decoded(header, rows, n - 1)
                    + seq![record]);
            },
            Err(_) => {},
        }
    }
}

/// `first_failed` finds the first row at or after `from` that fails to
/// decode.
pub proof fn lemma_first_failed(
    header: Seq<Seq<char>>,
    rows: Seq<Option<Seq<Seq<char>>>>,
    from: int,
)
    requires
        0 <= from <= rows.len(),
    ensures
        from <= first_failed(header, rows, from) <= rows.len(),
        first_failed(header, rows, from) < rows.len() ==> row_result(
            header,
            rows[first_failed(header, rows, from)],
        ) is Err,
        forall|i: int|
            from <= i < first_failed(header, rows, from) ==> (#[trigger] row_result(
                header,
                rows[i],
            )) is Ok,
    decreases rows.len() - from,
{
    if from < rows.len() && row_result(header, rows[from]) is Ok {
        lemma_first_failed(header, rows, from + 1);
    }
}

/// A strict load succeeds if and only if the header is readable and every
/// row decodes; it then gives one record for each row, in row order, and
/// counts no failure.
pub proof fn lemma_strict_load(header: Option<Seq<Seq<char>>>, rows: Seq<Option<Seq<Seq<char>>>>)
    ensures
        load_spec(header, rows, Policy::Strict) is Ok <==> header is Some && forall|i: int|
            0 <= i < rows.len() ==> (#[trigger] row_result(header->0, rows[i])) is Ok,
        load_spec(header, rows, Policy::Strict) matches Ok(log) ==> {
            &&& log.error_count == 0
            &&& log.records.len() == rows.len()
            &&& forall|i: int|
                0 <= i < rows.len() ==> #[trigger] log.records[i] == row_result(
                    header->0,
                    rows[i],
                )->Ok_0
        },
{
    if header is Some {
        let names = header->0;
        lemma_first_failed(names, rows, 0);
        if first_failed(names, rows, 0) >= rows.len() {
            lemma_all_decoded(names, rows, rows.len() as int);
        }
    }
}

/// A tolerant load fails only on an unreadable header. It gives the records
/// of the rows that decode, and the records and the counted failures are
/// together as many as the rows.
pub proof fn lemma_tolerant_load(header: Option<Seq<Seq<char>>>, rows: Seq<Option<Seq<Seq<char>>>>)
    ensures
        load_spec(header, rows, Policy::Tolerant) is Ok <==> header is Some,
        load_spec(header, rows, Policy::Tolerant) matches Ok(log) ==> log.records.len()
            + log.error_count == rows.len(),
{
    if header is Some {
        lemma_counts(header->0, rows, rows.len() as int);
    }
}

/// A log of rows that all decode loads, under the tolerant policy, into as
/// many records as it has rows, with no failure counted; the track has one
/// point for each row, in row order, and the longitude, latitude and
/// altitude of the point are the texts of the row's cells in those three
/// columns, unchanged.
pub proof fn lemma_round_trip(header: Seq<Seq<char>>, rows: Seq<Option<Seq<Seq<char>>>>)
    requires
        forall|i: int| 0 <= i < rows.len() ==> (#[trigger] row_result(header, rows[i])) is Ok,
    ensures
        forall|i: int| 0 <= i < rows.len() ==> (#[trigger] rows[i]) is Some,
        load_spec(Some(header), rows, Policy::Tolerant) matches Ok(log) && {
            &&& log.error_count == 0
            &&& log.records.len() == rows.len()
            &&& track_of(log.records).len() == rows.len()
            &&& forall|i: int|
                0 <= i < rows.len() ==> (#[trigger] track_of(log.records)[i]) == Position {
                    longitude: cell_at(layout_of(header)[LONGITUDE as int], rows[i]->0)->0,
                    latitude: cell_at(layout_of(header)[LATITUDE as int], rows[i]->0)->0,
                    altitude: cell_at(layout_of(header)[GPS_ALTITUDE as int], rows[i]->0)->0,
                }
        },
{
    lemma_all_decoded(header, rows, rows.len() as int);
    let records = decoded(header, rows, rows.len() as int);
    assert forall|i: int| 0 <= i < rows.len() implies (#[trigger] rows[i]) is Some by {
        assert(row_result(header, rows[i]) is Ok);
    }
    assert forall|i: int| 0 <= i < rows.len() implies (#[trigger] track_of(records)[i])
        == (Position {
        longitude: cell_at(layout_of(header)[LONGITUDE as int], rows[i]->0)->0,
        latitude: cell_at(layout_of(header)[LATITUDE as int], rows[i]->0)->0,
        altitude: cell_at(layout_of(header)[GPS_ALTITUDE as int], rows[i]->0)->0,
    }) by {
        assert(row_result(header, rows[i]) is Ok);
        assert(records[i] == row_result(header, rows[i])->Ok_0);
        let cells = rows[i]->0;
        assert(decode_record_spec(header, cells) is Ok);
        lemma_number_field(layout_of(header), cells, LONGITUDE as int);
        lemma_number_field(layout_of(header), cells, LATITUDE as int);
        lemma_number_field(layout_of(header), cells, GPS_ALTITUDE as int);
    }
}

/// A log with no rows loads, under either policy, into no records with no
/// failure counted, and its track has no point.
pub proof fn lemma_empty_log(header: Seq<Seq<char>>, policy: Policy)
    ensures
        load_spec(Some(header), Seq::empty(), policy) == Ok::<LoadedLog, LoadFailure>(
            LoadedLog { records: Seq::empty(), failures: Seq::empty(), error_count: 0 },
        ),
        track_of(Seq::empty()) == Seq::<Position>::empty(),
{
    assert(track_of(Seq::empty()) =~= Seq::<Position>::empty());
}

/// The text of a flight's document depends on the track alone: logs with
/// the same track have the same document, character for character.
pub proof fn lemma_same_track_same_text(first: Seq<Seq<Datum>>, second: Seq<Seq<Datum>>)
    requires
        track_of(first) == track_of(second),
    ensures
        flight_text(first) == flight_text(second),
{
}

/// Whether `there` and `back` rearrange `n` places and undo each other.
pub open spec fn rearranges(there: Seq<int>, back: Seq<int>, n: nat) -> bool {
    &&& there.len() == n
    &&& back.len() == n
    &&& forall|k: int| 0 <= k < n ==> 0 <= #[trigger] there[k] < n && back[there[k]] == k
    &&& forall|j: int| 0 <= j < n ==> 0 <= #[trigger] back[j] < n && there[back[j]] == j
}

/// The cells of `row` rearranged: at each place stands the cell that `there`
/// names for it.
pub open spec fn rearranged(row: Seq<Seq<char>>, there: Seq<int>) -> Seq<Seq<char>> {
    Seq::new(there.len(), |k: int| row[there[k]])
}

/// Rows whose fields have the same outcomes decode alike.
pub proof fn lemma_same_outcomes(
    first: Seq<Slot>,
    first_cells: Seq<Seq<char>>,
    second: Seq<Slot>,
    second_cells: Seq<Seq<char>>,
    from: int,
)
    requires
        0 <= from <= COLUMN_COUNT,
        forall|i: int|
            0 <= i < COLUMN_COUNT ==> #[trigger] field_outcome(first, first_cells, i)
                == field_outcome(second, second_cells, i),
    ensures
        first_refused(first, first_cells, from) == first_refused(second, second_cells, from),
        from == 0 ==> decode_row_spec(first, first_cells) == decode_row_spec(second, second_cells),
    decreases COLUMN_COUNT - from,
{
    if from < COLUMN_COUNT {
        assert(field_outcome(first, first_cells, from) == field_outcome(
            second,
            second_cells,
            from,
        ));
        if field_outcome(first, first_cells, from) is Ok {
            lemma_same_outcomes(first, first_cells, second, second_cells, from + 1);
        }
    }
    if from == 0 {
        let i = first_refused(first, first_cells, 0);
        lemma_first_refused(first, first_cells, 0);
        if i < COLUMN_COUNT {
            assert(field_outcome(first, first_cells, i) == field_outcome(second, second_cells, i));
        } else {
            assert(decode_row_spec(first, first_cells)->Ok_0 =~= decode_row_spec(
                second,
                second_cells,
            )->Ok_0);
        }
    }
}

/// A column stands in a rearranged header as it stood before (missing,
/// repeated, or at one place), and at that place the rearranged row holds
/// the cell that the row held for it.
pub proof fn lemma_rearranged_slot(
    header: Seq<Seq<char>>,
    cells: Seq<Seq<char>>,
    there: Seq<int>,
    back: Seq<int>,
    name: Seq<char>,
)
    requires
        header.len() == cells.len(),
        header.len() <= usize::MAX,
        rearranges(there, back, header.len()),
    ensures
        slot_of(rearranged(header, there), name) == Slot::Repeated <==> slot_of(header, name)
            == Slot::Repeated,
        cell_at(slot_of(rearranged(header, there), name), rearranged(cells, there)) == cell_at(
            slot_of(header, name),
            cells,
        ),
{
    let moved = rearranged(header, there);
    let moved_cells = rearranged(cells, there);
    lemma_slot_of(header, name);
    lemma_slot_of(moved, name);
    match slot_of(header, name) {
        Slot::Missing => {
            assert forall|k: int| 0 <= k < moved.len() implies moved[k] != name by {
                assert(moved[k] == header[there[k]]);
            }
        },
        Slot::Repeated => {
            let (j, k) = choose|j: int, k: int|
                0 <= j < k < header.len() && header[j] == name && header[k] == name;
            assert(moved[back[j]] == header[there[back[j]]]);
            assert(moved[back[k]] == header[there[back[k]]]);
            assert(back[j] != back[k]);
            if back[j] < back[k] {
                assert(0 <= back[j] < back[k] < moved.len() && moved[back[j]] == name
                    && moved[back[k]] == name);
            } else {
                assert(0 <= back[k] < back[j] < moved.len() && moved[back[k]] == name
                    && moved[back[j]] == name);
            }
        },
        Slot::At(at) => {
            let to = back[at as int];
            assert(moved[to] == header[there[to]]);
            assert forall|j: int, k: int|
                0 <= j < k < moved.len() && moved[j] == name implies moved[k] != name by {
                assert(moved[j] == header[there[j]]);
                assert(moved[k] == header[there[k]]);
                if moved[k] == name {
                    assert(there[j] == at);
                    assert(there[k] == at);
                    assert(back[there[j]] == j);
                    assert(back[there[k]] == k);
                }
            }
            match slot_of(moved, name) {
                Slot::At(found) => {
                    assert(moved[found as int] == header[there[found as int]]);
                    assert(there[found as int] == at);
                    assert(moved_cells[found as int] == cells[there[found as int]]);
                },
                _ => {},
            }
        },
    }
}

/// The order of the columns in a log does not matter: a header and a row
/// that are rearranged in the same way decode to the same record, or fail
/// with the same failure.
pub proof fn lemma_order_free(
    header: Seq<Seq<char>>,
    cells: Seq<Seq<char>>,
    there: Seq<int>,
    back: Seq<int>,
)
    requires
        header.len() == cells.len(),
        header.len() <= usize::MAX,
        rearranges(there, back, header.len()),
    ensures
        decode_record_spec(rearranged(header, there), rearranged(cells, there))
            == decode_record_spec(header, cells),
{
    let moved = rearranged(header, there);
    let moved_cells = rearranged(cells, there);
    assert forall|i: int| 0 <= i < COLUMN_COUNT implies #[trigger] field_outcome(
        layout_of(moved),
        moved_cells,
        i,
    ) == field_outcome(layout_of(header), cells, i) by {
        lemma_rearranged_slot(header, cells, there, back, column_spec(i).name);
    }
    lemma_same_outcomes(layout_of(moved), moved_cells, layout_of(header), cells, 0);
}

} // verus!
