//! The document generator: from a track to the text of a KML document with
//! one placemark, whose geometry is the line of the track.

use crate::record::{BlackBoxTick, Datum};
use crate::track::{build_track, is_track, recall_track, track_of, Coordinate, Position};
use kml::types::AltitudeMode as KmlAltitudeMode;
use kml::types::{Coord, Geometry, LineString, Placemark};
use kml::Kml;
use std::collections::HashMap;
use vstd::prelude::*;

verus! {

/// How the altitudes of a geometry are to be read.
#[derive(Clone, Copy, Debug, PartialEq, Eq, Structural)]
pub enum AltitudeMode {
    /// Altitudes are ignored: the geometry lies on the ground.
    ClampToGround,
    /// Altitudes are heights above the ground.
    RelativeToGround,
    /// Altitudes are elevations above a fixed reference.
    Absolute,
}

/// A document with one placemark, whose geometry is one line.
#[derive(Debug)]
pub struct GeoDocument {
    /// The points of the line, in order.
    pub track: Vec<Coordinate>,
    /// Whether the line is joined to the ground.
    pub extrude: bool,
    /// Whether the line follows the terrain.
    pub tessellate: bool,
    /// How the altitudes of the points are to be read.
    pub altitude_mode: AltitudeMode,
    /// The description of the placemark, if it has one.
    pub description: Option<String>,
}

/// What a [`GeoDocument`] holds, with text as sequences of characters.
pub struct Feature {
    pub track: Seq<Position>,
    pub extrude: bool,
    pub tessellate: bool,
    pub altitude_mode: AltitudeMode,
    pub description: Option<Seq<char>>,
}

impl View for GeoDocument {
    type V = Feature;

    open spec fn view(&self) -> Feature {
        Feature {
            track: self.track.deep_view(),
            extrude: self.extrude,
            tessellate: self.tessellate,
            altitude_mode: self.altitude_mode,
            description: match self.description {
                Some(text) => Some(text@),
                None => None,
            },
        }
    }
}

/// The text that the `kml` crate writes for a `Kml::Document` with no
/// attributes and one element: a placemark with the description and the
/// line geometry of `feature`, and nothing else.
pub uninterp spec fn kml_text(feature: Feature) -> Seq<char>;

/// Writes a document with `Kml::to_string`, after building it from the
/// `kml` crate's `Coord`, `LineString`, `Placemark` and `Kml::Document`.
///
/// Every number of the track must be the text of a decimal number, so that
/// it can be read as one of the crate's coordinates. The contract names the
/// result and claims nothing else: that the crate writes the same text
/// whenever it is given the same document.
#[verifier::external_body]
fn write_kml(
    track: &Vec<Coordinate>,
    extrude: bool,
    tessellate: bool,
    altitude_mode: AltitudeMode,
    description: Option<String>,
) -> (text: String)
    requires
        is_track(track.deep_view()),
    ensures
        text@ == kml_text(
            Feature {
                track: track.deep_view(),
                extrude,
                tessellate,
                altitude_mode,
                description: match description {
                    Some(text) => Some(text@),
                    None => None,
                },
            },
        ),
{
    let coords = track.iter().map(|c| Coord::new(
        c.longitude.as_str().parse().unwrap(),
        c.latitude.as_str().parse().unwrap(),
        Some(c.altitude.as_str().parse().unwrap()),
    )).collect();
    let altitude_mode = match altitude_mode {
        AltitudeMode::ClampToGround => KmlAltitudeMode::ClampToGround,
        AltitudeMode::RelativeToGround => KmlAltitudeMode::RelativeToGround,
        AltitudeMode::Absolute => KmlAltitudeMode::Absolute,
    };
    let line = LineString { coords, extrude, tessellate, altitude_mode, attrs: HashMap::new() };
    let geometry = Some(Geometry::LineString(line));
    let elements = vec![Kml::Placemark(Placemark { description, geometry, ..Default::default() })];
    let document: Kml = Kml::Document { attrs: HashMap::new(), elements };
    document.to_string()
}

/// The document of a flight along `track`: the line is joined to the ground
/// and follows the terrain, its altitudes are absolute, and the placemark has
/// no description.
pub open spec fn flight_feature(track: Seq<Position>) -> Feature {
    Feature {
        track,
        extrude: true,
        tessellate: true,
        altitude_mode: AltitudeMode::Absolute,
        description: None,
    }
}

/// The text of the document of the flight that `records` log.
pub open spec fn flight_text(records: Seq<Seq<Datum>>) -> Seq<char> {
    kml_text(flight_feature(track_of(records)))
}

impl GeoDocument {
    /// The document of a flight along `track`.
    pub fn of_flight(track: Vec<Coordinate>) -> (document: GeoDocument)
        ensures
            document@ == flight_feature(track.deep_view()),
    {
        GeoDocument {
            track,
            extrude: true,
            tessellate: true,
            altitude_mode: AltitudeMode::Absolute,
            description: None,
        }
    }

    /// The text of the document, as the `kml` crate writes it.
    pub fn to_kml(&self) -> (text: String)
        ensures
            text@ == kml_text(self@),
    {
        recall_track(&self.track);
        write_kml(
            &self.track,
            self.extrude,
            self.tessellate,
            self.altitude_mode,
            self.description.clone(),
        )
    }
}

/// Writes the document of the flight that `data` logs: one placemark whose
/// line runs through the position of each record, in order.
pub fn generate_kml_of_flight(data: &Vec<BlackBoxTick>) -> (text: String)
    ensures
        text@ == flight_text(data.deep_view()),
{
    GeoDocument::of_flight(build_track(data)).to_kml()
}

} // verus!
