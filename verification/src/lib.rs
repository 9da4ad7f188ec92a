//! Decoding of flight-recorder telemetry logs into typed records, and the
//! projection of those records onto a geographic track document.
//!
//! The modules follow the data: [`schema`] names the columns of a log,
//! [`text`] reads the scalar forms of its cells, [`header`] finds the columns
//! in a header, [`decode`] turns a row into a [`record`], [`source`] reads
//! the rows of a file's bytes, [`loader`] decodes them all, [`track`]
//! projects the records onto positions, and [`document`] writes the track as
//! KML. [`grammar`] states the grammar of decimal numbers by the parts of a
//! text, and [`laws`] states what holds of the other modules together.

pub mod decode;
pub mod document;
pub mod grammar;
pub mod header;
pub mod laws;
pub mod loader;
pub mod record;
pub mod schema;
pub mod source;
pub mod text;
pub mod track;

pub use crate::document::generate_kml_of_flight;
pub use crate::loader::read_csv_data;
pub use crate::record::BlackBoxTick;
