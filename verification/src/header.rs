//! The header of a log: where each column of the schema stands in it.
//!
//! Columns are looked up by their exact header text. The order of the
//! header's cells is free, and cells that name no column of the schema are
//! passed over.

use crate::schema::{column_at, column_spec, COLUMN_COUNT};
use crate::text::{chars_of, same_chars};
use vstd::prelude::*;

verus! {

/// Where a column of the schema stands in a header.
#[derive(Clone, Copy, Debug, PartialEq, Eq, Structural)]
pub enum Slot {
    /// No cell of the header names the column.
    Missing,
    /// Exactly one cell of the header names the column: the one at this index.
    At(usize),
    /// More than one cell of the header names the column.
    Repeated,
}

/// The index of the first cell of `header` at or after `from` that holds
/// `name`, or the length of `header` where there is none.
pub open spec fn first_at(header: Seq<Seq<char>>, name: Seq<char>, from: int) -> int
    decreases header.len() - from,
{
    if from >= header.len() {
        header.len() as int
    } else if from >= 0 && header[from] == name {
        from
    } else {
        first_at(header, name, from + 1)
    }
}

/// Where the column with the header text `name` stands in `header`.
pub open spec fn slot_of(header: Seq<Seq<char>>, name: Seq<char>) -> Slot {
    let first = first_at(header, name, 0);
    if first >= header.len() {
        Slot::Missing
    } else if first_at(header, name, first + 1) < header.len() {
        Slot::Repeated
    } else {
        Slot::At(first as usize)
    }
}

/// Where each column of the schema stands in `header`.
pub open spec fn layout_of(header: Seq<Seq<char>>) -> Seq<Slot> {
    Seq::new(COLUMN_COUNT as nat, |i: int| slot_of(header, column_spec(i).name))
}

/// `first_at` finds the first cell at or after `from` that holds `name`.
pub proof fn lemma_first_at(header: Seq<Seq<char>>, name: Seq<char>, from: int)
    requires
        0 <= from,
    ensures
        from <= first_at(header, name, from) || header.len() < from,
        first_at(header, name, from) <= header.len() || header.len() < from,
        first_at(header, name, from) < header.len() ==> header[first_at(header, name, from)]
            == name,
        forall|j: int| from <= j < first_at(header, name, from) ==> header[j] != name,
    decreases header.len() - from,
{
    if from < header.len() && header[from] != name {
        lemma_first_at(header, name, from + 1);
    }
}

/// What `slot_of` tells of a header: a column is missing where no cell names
/// it, stands at the one cell that names it, and is repeated where two do.
pub proof fn lemma_slot_of(header: Seq<Seq<char>>, name: Seq<char>)
    requires
        header.len() <= usize::MAX,
    ensures
        slot_of(header, name) == Slot::Missing <==> forall|j: int|
            0 <= j < header.len() ==> header[j] != name,
        slot_of(header, name) == Slot::Repeated <==> exists|j: int, k: int|
            0 <= j < k < header.len() && header[j] == name && header[k] == name,
        slot_of(header, name) matches Slot::At(at) ==> at < header.len() && header[at as int]
            == name && forall|j: int| 0 <= j < header.len() && j != at ==> header[j] != name,
{
    let first = first_at(header, name, 0);
    lemma_first_at(header, name, 0);
    if first < header.len() {
        lemma_first_at(header, name, first + 1);
        let second = first_at(header, name, first + 1);
        if second < header.len() {
            assert(0 <= first < second < header.len() && header[first] == name && header[second]
                == name);
        } else {
            assert forall|j: int, k: int|
                0 <= j < k < header.len() && header[j] == name implies header[k] != name by {
                if j < first {
                } else if j == first {
                } else {
                }
            }
        }
    }
}

/// Where each column of the schema stands in the header of a log.
#[derive(Debug)]
pub struct Layout {
    slots: Vec<Slot>,
}

impl View for Layout {
    type V = Seq<Slot>;

    closed spec fn view(&self) -> Seq<Slot> {
        self.slots@
    }
}

fn cells_as_chars(header: &Vec<String>) -> (cells: Vec<Vec<char>>)
    ensures
        cells.deep_view() == header.deep_view(),
{
    let mut cells: Vec<Vec<char>> = Vec::new();
    let mut i: usize = 0;
    while i < header.len()
        invariant
            0 <= i <= header@.len(),
            cells@.len() == i,
            forall|j: int| 0 <= j < i ==> (#[trigger] cells@[j])@ == header@[j]@,
        decreases header@.len() - i,
    {
        cells.push(chars_of(header[i].as_str()));
        i = i + 1;
    }
    assert(cells.deep_view() =~= header.deep_view()) by {
        assert forall|j: int| 0 <= j < cells@.len() implies cells.deep_view()[j]
            == header.deep_view()[j] by {
            assert(cells@[j].deep_view() =~= cells@[j]@);
        }
    }
    cells
}

fn find_from(header: &Vec<Vec<char>>, name: &Vec<char>, from: usize) -> (at: usize)
    requires
        from <= header@.len(),
    ensures
        at == first_at(header.deep_view(), name@, from as int),
        from <= at <= header@.len(),
{
    let mut at: usize = from;
    while at < header.len()
        invariant
            from <= at <= header@.len(),
            first_at(header.deep_view(), name@, from as int) == first_at(
                header.deep_view(),
                name@,
                at as int,
            ),
        decreases header@.len() - at,
    {
        assert(header.deep_view()[at as int] =~= header@[at as int]@);
        if same_chars(&header[at], name) {
            return at;
        }
        at = at + 1;
    }
    at
}

impl Layout {
    #[verifier::type_invariant]
    closed spec fn well_formed(self) -> bool {
        self.slots@.len() == COLUMN_COUNT
    }

    /// Looks up every column of the schema in `header`.
    pub fn resolve(header: &Vec<String>) -> (layout: Layout)
        ensures
            layout@ == layout_of(header.deep_view()),
    {
        let cells = cells_as_chars(header);
        let mut slots: Vec<Slot> = Vec::new();
        let mut i: usize = 0;
        while i < COLUMN_COUNT
            invariant
                0 <= i <= COLUMN_COUNT,
                cells.deep_view() == header.deep_view(),
                slots@.len() == i,
                forall|k: int|
                    0 <= k < i ==> #[trigger] slots@[k] == slot_of(
                        header.deep_view(),
                        column_spec(k).name,
                    ),
            decreases COLUMN_COUNT - i,
        {
            let name = chars_of(column_at(i).name);
            let first = find_from(&cells, &name, 0);
            let slot = if first >= cells.len() {
                Slot::Missing
            } else if find_from(&cells, &name, first + 1) < cells.len() {
                Slot::Repeated
            } else {
                Slot::At(first)
            };
            slots.push(slot);
            i = i + 1;
        }
        assert(slots@ =~= layout_of(header.deep_view()));
        Layout { slots }
    }

    /// Where the `i`-th column of the schema stands, where `i` is known to
    /// be in range.
    pub(crate) fn slot_at(&self, i: usize) -> (slot: Slot)
        requires
            i < COLUMN_COUNT,
        ensures
            self@.len() == COLUMN_COUNT,
            slot == self@[i as int],
    {
        proof {
            use_type_invariant(self);
        }
        self.slots[i]
    }

    /// Where the `i`-th column of the schema stands, if there is such a
    /// column.
    pub fn slot(&self, i: usize) -> (slot: Option<Slot>)
        ensures
            self@.len() == COLUMN_COUNT,
            slot is Some <==> i < COLUMN_COUNT,
            slot is Some ==> slot.unwrap() == self@[i as int],
    {
        if i < COLUMN_COUNT {
            Some(self.slot_at(i))
        } else {
            proof {
                use_type_invariant(self);
            }
            None
        }
    }
}

} // verus!
