//! The track builder: from the records of a log to the positions of the
//! flight, one for each record and in the same order.

use crate::record::{BlackBoxTick, Datum, Decimal};
use crate::schema::{GPS_ALTITUDE, LATITUDE, LONGITUDE};
use crate::text::is_float_text;
use vstd::prelude::*;

verus! {

/// One point of a track: longitude and latitude in degrees, altitude in
/// feet.
#[derive(Debug)]
pub struct Coordinate {
    pub longitude: Decimal,
    pub latitude: Decimal,
    pub altitude: Decimal,
}

/// What a [`Coordinate`] holds: the text of its three numbers.
pub struct Position {
    pub longitude: Seq<char>,
    pub latitude: Seq<char>,
    pub altitude: Seq<char>,
}

impl View for Coordinate {
    type V = Position;

    open spec fn view(&self) -> Position {
        Position {
            longitude: self.longitude@,
            latitude: self.latitude@,
            altitude: self.altitude@,
        }
    }
}

impl DeepView for Coordinate {
    type V = Position;

    open spec fn deep_view(&self) -> Position {
        self@
    }
}

/// The text of the number that `datum` holds.
pub open spec fn number_text(datum: Datum) -> Seq<char> {
    match datum {
        Datum::Number(text) => text,
        _ => Seq::empty(),
    }
}

/// The position that `record` was taken at: its longitude, its latitude and
/// its GPS altitude, as the record holds them.
pub open spec fn position_of(record: Seq<Datum>) -> Position {
    Position {
        longitude: number_text(record[LONGITUDE as int]),
        latitude: number_text(record[LATITUDE as int]),
        altitude: number_text(record[GPS_ALTITUDE as int]),
    }
}

/// The track of `records`: the position of each, in the same order.
pub open spec fn track_of(records: Seq<Seq<Datum>>) -> Seq<Position> {
    Seq::new(records.len(), |i: int| position_of(records[i]))
}

/// Whether the three numbers of `position` are texts of decimal numbers.
pub open spec fn is_position(position: Position) -> bool {
    &&& is_float_text(position.longitude)
    &&& is_float_text(position.latitude)
    &&& is_float_text(position.altitude)
}

impl Coordinate {
    /// Recalls what holds of every coordinate: its three numbers are texts
    /// of decimal numbers.
    pub(crate) fn recall(&self)
        ensures
            is_position(self@),
    {
        self.longitude.recall();
        self.latitude.recall();
        self.altitude.recall();
    }
}

/// Whether every point of `track` holds texts of decimal numbers.
pub open spec fn is_track(track: Seq<Position>) -> bool {
    forall|i: int| 0 <= i < track.len() ==> is_position(#[trigger] track[i])
}

/// Recalls what holds of every track: each of its points holds texts of
/// decimal numbers.
pub(crate) fn recall_track(track: &Vec<Coordinate>)
    ensures
        is_track(track.deep_view()),
{
    let mut i: usize = 0;
    while i < track.len()
        invariant
            0 <= i <= track@.len(),
            forall|k: int| 0 <= k < i ==> is_position(#[trigger] track@[k]@),
        decreases track@.len() - i,
    {
        track[i].recall();
        i = i + 1;
    }
}

/// The position that `record` was taken at.
pub fn coordinate_of(record: &BlackBoxTick) -> (point: Coordinate)
    ensures
        point@ == position_of(record@),
        is_position(point@),
{
    Coordinate {
        longitude: record.longitude_deg().clone(),
        latitude: record.latitude_deg().clone(),
        altitude: record.gps_altitude_feet().clone(),
    }
}

/// Builds the track of `records`: one point for each record, in the same
/// order, with nothing smoothed, merged or filled in.
pub fn build_track(records: &Vec<BlackBoxTick>) -> (track: Vec<Coordinate>)
    ensures
        track.deep_view() == track_of(records.deep_view()),
        track@.len() == records@.len(),
        is_track(track.deep_view()),
{
    let mut track: Vec<Coordinate> = Vec::new();
    let mut i: usize = 0;
    while i < records.len()
        invariant
            0 <= i <= records@.len(),
            track@.len() == i,
            forall|k: int|
                0 <= k < i ==> (#[trigger] track@[k])@ == position_of(records@[k]@) && is_position(
                    track@[k]@,
                ),
        decreases records@.len() - i,
    {
        track.push(coordinate_of(&records[i]));
        i = i + 1;
    }
    assert(track.deep_view() =~= track_of(records.deep_view()));
    track
}

} // verus!
