//! The typed record: one decoded sample of the log.
//!
//! A record holds one value for each column of the schema. A decimal number
//! is held as the text that wrote it, after that text has been checked
//! against the grammar of decimal numbers.

use crate::schema::{
    column_spec, find_column, CellKind, ColumnSpec, COLUMN_COUNT, GPS_ALTITUDE, GROUND_SPEED,
    LATITUDE, LONGITUDE, TRANSPONDER_IDENTING, TRANSPONDER_REPLY,
};
use crate::text::{chars_of, is_float, is_float_text};
use vstd::pervasive::unreached;
use vstd::prelude::*;

verus! {

/// A decimal number, held as the text that wrote it.
#[derive(Debug)]
pub struct Decimal {
    text: String,
}

impl View for Decimal {
    type V = Seq<char>;

    closed spec fn view(&self) -> Seq<char> {
        self.text@
    }
}

impl Decimal {
    #[verifier::type_invariant]
    closed spec fn well_formed(self) -> bool {
        is_float_text(self.text@)
    }

    /// Accepts `text` if it writes a decimal number.
    pub fn parse(text: &str) -> (r: Option<Decimal>)
        ensures
            r is Some <==> is_float_text(text@),
            r is Some ==> r.unwrap()@ == text@,
    {
        let chars = chars_of(text);
        if is_float(&chars) {
            Some(Decimal { text: text.to_owned() })
        } else {
            None
        }
    }

    /// Recalls what holds of every decimal: its text writes a decimal
    /// number.
    pub(crate) fn recall(&self)
        ensures
            is_float_text(self@),
    {
        proof {
            use_type_invariant(self);
        }
    }

    /// The text that wrote the number.
    pub fn as_str(&self) -> (text: &str)
        ensures
            text@ == self@,
            is_float_text(text@),
    {
        proof {
            use_type_invariant(self);
        }
        self.text.as_str()
    }
}

impl Clone for Decimal {
    fn clone(&self) -> (copy: Decimal)
        ensures
            copy@ == self@,
    {
        proof {
            use_type_invariant(self);
        }
        Decimal { text: self.text.clone() }
    }
}

/// The value of one field of a record.
#[derive(Clone, Debug)]
pub enum Value {
    /// A decimal number.
    Number(Decimal),
    /// An unsigned integer of at most 255.
    SmallUint(u8),
    /// Free text.
    Text(String),
    /// A truth value.
    Flag(bool),
    /// No value: the cell was empty, or the row had no such cell.
    Absent,
}

/// What a [`Value`] holds, with text as sequences of characters.
pub enum Datum {
    Number(Seq<char>),
    SmallUint(u8),
    Text(Seq<char>),
    Flag(bool),
    Absent,
}

impl View for Value {
    type V = Datum;

    open spec fn view(&self) -> Datum {
        match self {
            Value::Number(d) => Datum::Number(d@),
            Value::SmallUint(n) => Datum::SmallUint(*n),
            Value::Text(t) => Datum::Text(t@),
            Value::Flag(b) => Datum::Flag(*b),
            Value::Absent => Datum::Absent,
        }
    }
}

/// Whether the value `datum` may stand in the column `column`: it is of the
/// column's kind, or it is absent and the column does not require a value.
pub open spec fn fits(column: ColumnSpec, datum: Datum) -> bool {
    match datum {
        Datum::Number(t) => column.kind == CellKind::Float && is_float_text(t),
        Datum::SmallUint(_) => column.kind == CellKind::SmallUint,
        Datum::Text(_) => column.kind == CellKind::Text,
        Datum::Flag(_) => column.kind == CellKind::Flag,
        Datum::Absent => !column.required,
    }
}

/// Whether `record` holds one fitting value for each column of the schema.
pub open spec fn well_typed(record: Seq<Datum>) -> bool {
    &&& record.len() == COLUMN_COUNT
    &&& forall|i: int| 0 <= i < COLUMN_COUNT ==> fits(column_spec(i), #[trigger] record[i])
}

/// The views of `values`, in order.
pub open spec fn data_of(values: Seq<Value>) -> Seq<Datum> {
    Seq::new(values.len(), |i: int| values[i]@)
}

/// One decoded sample of the log: a value for each column of the schema.
#[derive(Debug)]
pub struct BlackBoxTick {
    values: Vec<Value>,
}

impl View for BlackBoxTick {
    type V = Seq<Datum>;

    closed spec fn view(&self) -> Seq<Datum> {
        data_of(self.values@)
    }
}

impl BlackBoxTick {
    #[verifier::type_invariant]
    closed spec fn well_formed(self) -> bool {
        well_typed(data_of(self.values@))
    }

    /// Makes a record of `values`, which hold one fitting value for each
    /// column.
    pub(crate) fn from_values(values: Vec<Value>) -> (record: BlackBoxTick)
        requires
            well_typed(data_of(values@)),
        ensures
            record@ == data_of(values@),
    {
        BlackBoxTick { values }
    }

    /// The value in the column `column`, if the schema has such a column.
    pub fn value(&self, column: usize) -> (v: Option<&Value>)
        ensures
            well_typed(self@),
            v is Some <==> column < COLUMN_COUNT,
            v is Some ==> v.unwrap()@ == self@[column as int],
    {
        proof {
            use_type_invariant(self);
        }
        if column < self.values.len() {
            Some(&self.values[column])
        } else {
            None
        }
    }

    /// The value of the field whose column has the header text `name`, if
    /// the schema has such a column.
    pub fn field(&self, name: &str) -> (v: Option<&Value>)
        ensures
            v is Some ==> exists|i: int| 0 <= i < COLUMN_COUNT && column_spec(i).name == name@,
            forall|i: int|
                0 <= i < COLUMN_COUNT && column_spec(i).name == name@ ==> v is Some
                    && v.unwrap()@ == self@[i],
    {
        match find_column(name) {
            Some(i) => self.value(i),
            None => None,
        }
    }

    fn number(&self, column: usize) -> (d: &Decimal)
        requires
            column < COLUMN_COUNT,
            column_spec(column as int).kind == CellKind::Float,
            column_spec(column as int).required,
        ensures
            self@[column as int] == Datum::Number(d@),
            is_float_text(d@),
    {
        proof {
            use_type_invariant(self);
            assert(fits(column_spec(column as int), data_of(self.values@)[column as int]));
        }
        match &self.values[column] {
            Value::Number(d) => {
                d.recall();
                d
            },
            _ => unreached(),
        }
    }

    fn flag(&self, column: usize) -> (b: bool)
        requires
            column < COLUMN_COUNT,
            column_spec(column as int).kind == CellKind::Flag,
            column_spec(column as int).required,
        ensures
            self@[column as int] == Datum::Flag(b),
    {
        proof {
            use_type_invariant(self);
            assert(fits(column_spec(column as int), data_of(self.values@)[column as int]));
        }
        match &self.values[column] {
            Value::Flag(b) => *b,
            _ => unreached(),
        }
    }

    /// The latitude, in degrees.
    pub fn latitude_deg(&self) -> (d: &Decimal)
        ensures
            self@[LATITUDE as int] == Datum::Number(d@),
            is_float_text(d@),
    {
        self.number(LATITUDE)
    }

    /// The longitude, in degrees.
    pub fn longitude_deg(&self) -> (d: &Decimal)
        ensures
            self@[LONGITUDE as int] == Datum::Number(d@),
            is_float_text(d@),
    {
        self.number(LONGITUDE)
    }

    /// The GPS altitude, in feet.
    pub fn gps_altitude_feet(&self) -> (d: &Decimal)
        ensures
            self@[GPS_ALTITUDE as int] == Datum::Number(d@),
            is_float_text(d@),
    {
        self.number(GPS_ALTITUDE)
    }

    /// The ground speed, in knots.
    pub fn ground_speed_knots(&self) -> (d: &Decimal)
        ensures
            self@[GROUND_SPEED as int] == Datum::Number(d@),
            is_float_text(d@),
    {
        self.number(GROUND_SPEED)
    }

    /// Whether the transponder was replying.
    pub fn transponder_reply_bool(&self) -> (b: bool)
        ensures
            self@[TRANSPONDER_REPLY as int] == Datum::Flag(b),
    {
        self.flag(TRANSPONDER_REPLY)
    }

    /// Whether the transponder was identing.
    pub fn transponder_identing_bool(&self) -> (b: bool)
        ensures
            self@[TRANSPONDER_IDENTING as int] == Datum::Flag(b),
    {
        self.flag(TRANSPONDER_IDENTING)
    }
}

} // verus!
