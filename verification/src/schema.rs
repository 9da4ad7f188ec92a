//! The schema of a telemetry log: every column's exact header text, the kind
//! of value its cells hold, and whether a value is required.
//!
//! Columns are found by header text, never by their place in a file. The
//! header texts include units and punctuation and are case-sensitive.

use crate::text::{chars_of, same_chars};
use vstd::prelude::*;

verus! {

/// The kind of value that the cells of a column hold.
#[derive(Clone, Copy, Debug, PartialEq, Eq, Structural)]
pub enum CellKind {
    /// A decimal number.
    Float,
    /// An unsigned integer of at most 255.
    SmallUint,
    /// Free text.
    Text,
    /// A truth value written as the integer 0 or 1.
    Flag,
}

/// One column of the schema.
#[derive(Clone, Copy, Debug)]
pub struct Column {
    /// The header text, exactly as a log writes it.
    pub name: &'static str,
    /// The kind of value in the column's cells.
    pub kind: CellKind,
    /// Whether every row must hold a value in this column.
    pub required: bool,
}

/// What a [`Column`] says, with the header text as a sequence of characters.
pub struct ColumnSpec {
    pub name: Seq<char>,
    pub kind: CellKind,
    pub required: bool,
}

impl View for Column {
    type V = ColumnSpec;

    open spec fn view(&self) -> ColumnSpec {
        ColumnSpec { name: self.name@, kind: self.kind, required: self.required }
    }
}

/// The number of columns in the schema.
pub const COLUMN_COUNT: usize = 102;

/// The column of the latitude, in degrees.
pub const LATITUDE: usize = 4;

/// The column of the longitude, in degrees.
pub const LONGITUDE: usize = 5;

/// The column of the GPS altitude, in feet.
pub const GPS_ALTITUDE: usize = 6;

/// The column of the ground speed, in knots.
pub const GROUND_SPEED: usize = 7;

/// The column that tells whether the transponder is replying.
pub const TRANSPONDER_REPLY: usize = 53;

/// The column that tells whether the transponder is identing.
pub const TRANSPONDER_IDENTING: usize = 54;

/// A column whose cells must hold a value.
pub open spec fn mandatory(name: Seq<char>, kind: CellKind) -> ColumnSpec {
    ColumnSpec { name, kind, required: true }
}

/// A column whose cells may be empty.
pub open spec fn optional(name: Seq<char>, kind: CellKind) -> ColumnSpec {
    ColumnSpec { name, kind, required: false }
}

/// Columns 0 to 14: the GPS fix and the navigation data.
pub open spec fn navigation_spec(i: int) -> ColumnSpec {
    if i == 0 {
        mandatory("Session Time"@, CellKind::Float)
    } else if i == 1 {
        mandatory("GPS Fix Quality"@, CellKind::SmallUint)
    } else if i == 2 {
        mandatory("Number of Satellites"@, CellKind::SmallUint)
    } else if i == 3 {
        mandatory("GPS Date & Time"@, CellKind::Text)
    } else if i == 4 {
        mandatory("Latitude (deg)"@, CellKind::Float)
    } else if i == 5 {
        mandatory("Longitude (deg)"@, CellKind::Float)
    } else if i == 6 {
        mandatory("GPS Altitude (feet)"@, CellKind::Float)
    } else if i == 7 {
        mandatory("Ground Speed (knots)"@, CellKind::Float)
    } else if i == 8 {
        mandatory("Ground Track (deg)"@, CellKind::Float)
    } else if i == 9 {
        mandatory("Mag Var (deg)"@, CellKind::Float)
    } else if i == 10 {
        optional("Cross Track Error (NM)"@, CellKind::Float)
    } else if i == 11 {
        optional("Destination Waypoint ID"@, CellKind::Text)
    } else if i == 12 {
        optional("Range to Destination (NM)"@, CellKind::Float)
    } else if i == 13 {
        optional("Bearing to Destination (deg)"@, CellKind::Float)
    } else {
        mandatory("System Time"@, CellKind::Text)
    }
}

/// Columns 15 to 28: the attitude and the air data.
pub open spec fn air_data_spec(i: int) -> ColumnSpec {
    if i == 15 {
        mandatory("Pitch (deg)"@, CellKind::Float)
    } else if i == 16 {
        mandatory("Roll (deg)"@, CellKind::Float)
    } else if i == 17 {
        mandatory("Magnetic Heading (deg)"@, CellKind::Float)
    } else if i == 18 {
        mandatory("Indicated Airspeed (knots)"@, CellKind::Float)
    } else if i == 19 {
        mandatory("Pressure Altitude (ft)"@, CellKind::Float)
    } else if i == 20 {
        mandatory("Turn Rate (deg/s)"@, CellKind::Float)
    } else if i == 21 {
        mandatory("Lateral Accel (g)"@, CellKind::Float)
    } else if i == 22 {
        mandatory("Vertical Accel(g)"@, CellKind::Float)
    } else if i == 23 {
        mandatory("Angle of Attack (%)"@, CellKind::Float)
    } else if i == 24 {
        mandatory("Vertical Speed (ft/min)"@, CellKind::Float)
    } else if i == 25 {
        mandatory("OAT (deg C)"@, CellKind::Float)
    } else if i == 26 {
        mandatory("True Airspeed (knots)"@, CellKind::Float)
    } else if i == 27 {
        mandatory("Barometer Setting (inHg)"@, CellKind::Float)
    } else {
        mandatory("Density Altitude (ft)"@, CellKind::Float)
    }
}

/// Columns 29 to 40: the wind, the bugs and the course deviation.
pub open spec fn guidance_spec(i: int) -> ColumnSpec {
    if i == 29 {
        optional("Wind Direction (deg)"@, CellKind::Float)
    } else if i == 30 {
        optional("Wind Speed (knots)"@, CellKind::Float)
    } else if i == 31 {
        optional("Heading Bug (deg)"@, CellKind::Float)
    } else if i == 32 {
        optional("Altitude Bug (ft)"@, CellKind::Float)
    } else if i == 33 {
        optional("Airspeed Bug (knots)"@, CellKind::Float)
    } else if i == 34 {
        optional("Vertical Speed Bug (ft/min)"@, CellKind::Float)
    } else if i == 35 {
        optional("Course (deg)"@, CellKind::Float)
    } else if i == 36 {
        mandatory("CDI Source Type"@, CellKind::Text)
    } else if i == 37 {
        mandatory("CDI Source Port"@, CellKind::Text)
    } else if i == 38 {
        optional("CDI Scale (NM)"@, CellKind::Float)
    } else if i == 39 {
        optional("CDI Deflection (%)"@, CellKind::Float)
    } else {
        optional("Glideslope (%)"@, CellKind::Float)
    }
}

/// Columns 41 to 55: the autopilot and the transponder.
pub open spec fn autopilot_spec(i: int) -> ColumnSpec {
    if i == 41 {
        optional("AP Engaged"@, CellKind::Flag)
    } else if i == 42 {
        optional("AP Roll Mode"@, CellKind::Text)
    } else if i == 43 {
        optional("AP Roll Force"@, CellKind::Float)
    } else if i == 44 {
        optional("AP Roll Position (steps)"@, CellKind::Float)
    } else if i == 45 {
        optional("AP Roll Slip (bool)"@, CellKind::Flag)
    } else if i == 46 {
        optional("AP Pitch Force"@, CellKind::Float)
    } else if i == 47 {
        optional("AP Pitch Position (steps)"@, CellKind::Float)
    } else if i == 48 {
        optional("AP Pitch Slip (bool)"@, CellKind::Flag)
    } else if i == 49 {
        optional("AP Yaw Force"@, CellKind::Float)
    } else if i == 50 {
        optional("AP Yaw Position"@, CellKind::Float)
    } else if i == 51 {
        optional("AP Yaw Slip (bool)"@, CellKind::Flag)
    } else if i == 52 {
        mandatory("Transponder Status"@, CellKind::Text)
    } else if i == 53 {
        mandatory("Transponder Reply (bool)"@, CellKind::Flag)
    } else if i == 54 {
        mandatory("Transponder Identing (bool)"@, CellKind::Flag)
    } else {
        mandatory("Transponder Code (octal)"@, CellKind::Text)
    }
}

/// Columns 56 to 71: the engine, the fuel and the electrical system.
pub open spec fn engine_spec(i: int) -> ColumnSpec {
    if i == 56 {
        mandatory("Oil Pressure (PSI)"@, CellKind::Float)
    } else if i == 57 {
        mandatory("Oil Temp (deg C)"@, CellKind::Float)
    } else if i == 58 {
        mandatory("RPM L"@, CellKind::Float)
    } else if i == 59 {
        mandatory("RPM R"@, CellKind::Float)
    } else if i == 60 {
        mandatory("Manifold Pressure (inHg)"@, CellKind::Float)
    } else if i == 61 {
        mandatory("Fuel Flow 1 (gal/hr)"@, CellKind::Float)
    } else if i == 62 {
        mandatory("Fuel Flow 2 (gal/hr)"@, CellKind::Float)
    } else if i == 63 {
        mandatory("Fuel Pressure (PSI)"@, CellKind::Float)
    } else if i == 64 {
        mandatory("Fuel Level L (gal)"@, CellKind::Float)
    } else if i == 65 {
        mandatory("Fuel Level R (gal)"@, CellKind::Float)
    } else if i == 66 {
        mandatory("Fuel Remaining (gal)"@, CellKind::Float)
    } else if i == 67 {
        optional("Volts 1"@, CellKind::Float)
    } else if i == 68 {
        optional("Volts 2"@, CellKind::Float)
    } else if i == 69 {
        optional("Amps"@, CellKind::Float)
    } else if i == 70 {
        mandatory("Hobbs Time"@, CellKind::Float)
    } else {
        mandatory("Tach Time"@, CellKind::Float)
    }
}

/// Columns 72 to 85: the thermocouples and the cylinder temperatures.
pub open spec fn temperatures_spec(i: int) -> ColumnSpec {
    if i == 72 {
        optional("Thermocouple 1 (deg C)"@, CellKind::Float)
    } else if i == 73 {
        optional("Thermocouple 2 (deg C)"@, CellKind::Float)
    } else if i == 74 {
        optional("Thermocouple 3 (deg C)"@, CellKind::Float)
    } else if i == 75 {
        optional("Thermocouple 4 (deg C)"@, CellKind::Float)
    } else if i == 76 {
        mandatory("CHT 4 (deg C)"@, CellKind::Float)
    } else if i == 77 {
        mandatory("EGT 4 (deg C)"@, CellKind::Float)
    } else if i == 78 {
        mandatory("CHT 3 (deg C)"@, CellKind::Float)
    } else if i == 79 {
        mandatory("EGT 3 (deg C)"@, CellKind::Float)
    } else if i == 80 {
        mandatory("CHT 2 (deg C)"@, CellKind::Float)
    } else if i == 81 {
        mandatory("EGT 2 (deg C)"@, CellKind::Float)
    } else if i == 82 {
        mandatory("CHT 1 (deg C)"@, CellKind::Float)
    } else if i == 83 {
        mandatory("EGT 1 (deg C)"@, CellKind::Float)
    } else if i == 84 {
        optional("Thermocouple 13 (deg C)"@, CellKind::Float)
    } else {
        optional("Thermocouple 14 (deg C)"@, CellKind::Float)
    }
}

/// Columns 86 to 101: the general-purpose inputs and the derived values.
pub open spec fn inputs_spec(i: int) -> ColumnSpec {
    if i == 86 {
        optional("GP Input 1"@, CellKind::Text)
    } else if i == 87 {
        optional("GP Input 2"@, CellKind::Text)
    } else if i == 88 {
        optional("CARB TEMPERATURE (deg C)"@, CellKind::Float)
    } else if i == 89 {
        mandatory("FUEL PRESSURE (PSI)"@, CellKind::Float)
    } else if i == 90 {
        mandatory("PHEAT CONTACT (V)"@, CellKind::Float)
    } else if i == 91 {
        mandatory("HDRTNK CONTACT (V)"@, CellKind::Float)
    } else if i == 92 {
        mandatory("BATT CONTACT (V)"@, CellKind::Float)
    } else if i == 93 {
        optional("GP Input 8"@, CellKind::Text)
    } else if i == 94 {
        mandatory("LEFT LEVEL (gal)"@, CellKind::Float)
    } else if i == 95 {
        mandatory("RIGHT LEVEL (gal)"@, CellKind::Float)
    } else if i == 96 {
        mandatory("OIL PRESSURE (PSI)"@, CellKind::Float)
    } else if i == 97 {
        mandatory("OIL TEMPERATURE (deg C)"@, CellKind::Float)
    } else if i == 98 {
        optional("GP Input 13"@, CellKind::Text)
    } else if i == 99 {
        optional("Contacts"@, CellKind::Text)
    } else if i == 100 {
        optional("Percent Power"@, CellKind::Float)
    } else {
        optional("EGT Leaning State"@, CellKind::Text)
    }
}

/// The `i`-th column of the schema, for `i` below [`COLUMN_COUNT`].
pub open spec fn column_spec(i: int) -> ColumnSpec {
    if i <= 14 {
        navigation_spec(i)
    } else if i <= 28 {
        air_data_spec(i)
    } else if i <= 40 {
        guidance_spec(i)
    } else if i <= 55 {
        autopilot_spec(i)
    } else if i <= 71 {
        engine_spec(i)
    } else if i <= 85 {
        temperatures_spec(i)
    } else {
        inputs_spec(i)
    }
}

fn required(name: &'static str, kind: CellKind) -> (c: Column)
    ensures
        c@ == mandatory(name@, kind),
{
    Column { name, kind, required: true }
}

fn elective(name: &'static str, kind: CellKind) -> (c: Column)
    ensures
        c@ == optional(name@, kind),
{
    Column { name, kind, required: false }
}

fn navigation(i: usize) -> (c: Column)
    requires
        0 <= i <= 14,
    ensures
        c@ == navigation_spec(i as int),
{
    match i {
        0 => required("Session Time", CellKind::Float),
        1 => required("GPS Fix Quality", CellKind::SmallUint),
        2 => required("Number of Satellites", CellKind::SmallUint),
        3 => required("GPS Date & Time", CellKind::Text),
        4 => required("Latitude (deg)", CellKind::Float),
        5 => required("Longitude (deg)", CellKind::Float),
        6 => required("GPS Altitude (feet)", CellKind::Float),
        7 => required("Ground Speed (knots)", CellKind::Float),
        8 => required("Ground Track (deg)", CellKind::Float),
        9 => required("Mag Var (deg)", CellKind::Float),
        10 => elective("Cross Track Error (NM)", CellKind::Float),
        11 => elective("Destination Waypoint ID", CellKind::Text),
        12 => elective("Range to Destination (NM)", CellKind::Float),
        13 => elective("Bearing to Destination (deg)", CellKind::Float),
        _ => required("System Time", CellKind::Text),
    }
}

fn air_data(i: usize) -> (c: Column)
    requires
        15 <= i <= 28,
    ensures
        c@ == air_data_spec(i as int),
{
    match i {
        15 => required("Pitch (deg)", CellKind::Float),
        16 => required("Roll (deg)", CellKind::Float),
        17 => required("Magnetic Heading (deg)", CellKind::Float),
        18 => required("Indicated Airspeed (knots)", CellKind::Float),
        19 => required("Pressure Altitude (ft)", CellKind::Float),
        20 => required("Turn Rate (deg/s)", CellKind::Float),
        21 => required("Lateral Accel (g)", CellKind::Float),
        22 => required("Vertical Accel(g)", CellKind::Float),
        23 => required("Angle of Attack (%)", CellKind::Float),
        24 => required("Vertical Speed (ft/min)", CellKind::Float),
        25 => required("OAT (deg C)", CellKind::Float),
        26 => required("True Airspeed (knots)", CellKind::Float),
        27 => required("Barometer Setting (inHg)", CellKind::Float),
        _ => required("Density Altitude (ft)", CellKind::Float),
    }
}

fn guidance(i: usize) -> (c: Column)
    requires
        29 <= i <= 40,
    ensures
        c@ == guidance_spec(i as int),
{
    match i {
        29 => elective("Wind Direction (deg)", CellKind::Float),
        30 => elective("Wind Speed (knots)", CellKind::Float),
        31 => elective("Heading Bug (deg)", CellKind::Float),
        32 => elective("Altitude Bug (ft)", CellKind::Float),
        33 => elective("Airspeed Bug (knots)", CellKind::Float),
        34 => elective("Vertical Speed Bug (ft/min)", CellKind::Float),
        35 => elective("Course (deg)", CellKind::Float),
        36 => required("CDI Source Type", CellKind::Text),
        37 => required("CDI Source Port", CellKind::Text),
        38 => elective("CDI Scale (NM)", CellKind::Float),
        39 => elective("CDI Deflection (%)", CellKind::Float),
        _ => elective("Glideslope (%)", CellKind::Float),
    }
}

fn autopilot(i: usize) -> (c: Column)
    requires
        41 <= i <= 55,
    ensures
        c@ == autopilot_spec(i as int),
{
    match i {
        41 => elective("AP Engaged", CellKind::Flag),
        42 => elective("AP Roll Mode", CellKind::Text),
        43 => elective("AP Roll Force", CellKind::Float),
        44 => elective("AP Roll Position (steps)", CellKind::Float),
        45 => elective("AP Roll Slip (bool)", CellKind::Flag),
        46 => elective("AP Pitch Force", CellKind::Float),
        47 => elective("AP Pitch Position (steps)", CellKind::Float),
        48 => elective("AP Pitch Slip (bool)", CellKind::Flag),
        49 => elective("AP Yaw Force", CellKind::Float),
        50 => elective("AP Yaw Position", CellKind::Float),
        51 => elective("AP Yaw Slip (bool)", CellKind::Flag),
        52 => required("Transponder Status", CellKind::Text),
        53 => required("Transponder Reply (bool)", CellKind::Flag),
        54 => required("Transponder Identing (bool)", CellKind::Flag),
        _ => required("Transponder Code (octal)", CellKind::Text),
    }
}

fn engine(i: usize) -> (c: Column)
    requires
        56 <= i <= 71,
    ensures
        c@ == engine_spec(i as int),
{
    match i {
        56 => required("Oil Pressure (PSI)", CellKind::Float),
        57 => required("Oil Temp (deg C)", CellKind::Float),
        58 => required("RPM L", CellKind::Float),
        59 => required("RPM R", CellKind::Float),
        60 => required("Manifold Pressure (inHg)", CellKind::Float),
        61 => required("Fuel Flow 1 (gal/hr)", CellKind::Float),
        62 => required("Fuel Flow 2 (gal/hr)", CellKind::Float),
        63 => required("Fuel Pressure (PSI)", CellKind::Float),
        64 => required("Fuel Level L (gal)", CellKind::Float),
        65 => required("Fuel Level R (gal)", CellKind::Float),
        66 => required("Fuel Remaining (gal)", CellKind::Float),
        67 => elective("Volts 1", CellKind::Float),
        68 => elective("Volts 2", CellKind::Float),
        69 => elective("Amps", CellKind::Float),
        70 => required("Hobbs Time", CellKind::Float),
        _ => required("Tach Time", CellKind::Float),
    }
}

fn temperatures(i: usize) -> (c: Column)
    requires
        72 <= i <= 85,
    ensures
        c@ == temperatures_spec(i as int),
{
    match i {
        72 => elective("Thermocouple 1 (deg C)", CellKind::Float),
        73 => elective("Thermocouple 2 (deg C)", CellKind::Float),
        74 => elective("Thermocouple 3 (deg C)", CellKind::Float),
        75 => elective("Thermocouple 4 (deg C)", CellKind::Float),
        76 => required("CHT 4 (deg C)", CellKind::Float),
        77 => required("EGT 4 (deg C)", CellKind::Float),
        78 => required("CHT 3 (deg C)", CellKind::Float),
        79 => required("EGT 3 (deg C)", CellKind::Float),
        80 => required("CHT 2 (deg C)", CellKind::Float),
        81 => required("EGT 2 (deg C)", CellKind::Float),
        82 => required("CHT 1 (deg C)", CellKind::Float),
        83 => required("EGT 1 (deg C)", CellKind::Float),
        84 => elective("Thermocouple 13 (deg C)", CellKind::Float),
        _ => elective("Thermocouple 14 (deg C)", CellKind::Float),
    }
}

fn inputs(i: usize) -> (c: Column)
    requires
        86 <= i <= 101,
    ensures
        c@ == inputs_spec(i as int),
{
    match i {
        86 => elective("GP Input 1", CellKind::Text),
        87 => elective("GP Input 2", CellKind::Text),
        88 => elective("CARB TEMPERATURE (deg C)", CellKind::Float),
        89 => required("FUEL PRESSURE (PSI)", CellKind::Float),
        90 => required("PHEAT CONTACT (V)", CellKind::Float),
        91 => required("HDRTNK CONTACT (V)", CellKind::Float),
        92 => required("BATT CONTACT (V)", CellKind::Float),
        93 => elective("GP Input 8", CellKind::Text),
        94 => required("LEFT LEVEL (gal)", CellKind::Float),
        95 => required("RIGHT LEVEL (gal)", CellKind::Float),
        96 => required("OIL PRESSURE (PSI)", CellKind::Float),
        97 => required("OIL TEMPERATURE (deg C)", CellKind::Float),
        98 => elective("GP Input 13", CellKind::Text),
        99 => elective("Contacts", CellKind::Text),
        100 => elective("Percent Power", CellKind::Float),
        _ => elective("EGT Leaning State", CellKind::Text),
    }
}

/// The `i`-th column of the schema, where `i` is known to be in range.
pub(crate) fn column_at(i: usize) -> (c: Column)
    requires
        i < COLUMN_COUNT,
    ensures
        c@ == column_spec(i as int),
{
    if i <= 14 {
        navigation(i)
    } else if i <= 28 {
        air_data(i)
    } else if i <= 40 {
        guidance(i)
    } else if i <= 55 {
        autopilot(i)
    } else if i <= 71 {
        engine(i)
    } else if i <= 85 {
        temperatures(i)
    } else {
        inputs(i)
    }
}

/// The `i`-th column of the schema, if there is one.
pub fn nth_column(i: usize) -> (c: Option<Column>)
    ensures
        c is Some <==> i < COLUMN_COUNT,
        c is Some ==> c.unwrap()@ == column_spec(i as int),
{
    if i < COLUMN_COUNT {
        Some(column_at(i))
    } else {
        None
    }
}

/// The column of the schema whose header text is `name`, if there is one.
/// The text must match exactly, case and punctuation included.
pub fn find_column(name: &str) -> (found: Option<usize>)
    ensures
        found matches Some(i) ==> i < COLUMN_COUNT && column_spec(i as int).name == name@,
        forall|k: int|
            0 <= k < COLUMN_COUNT && column_spec(k).name == name@ ==> found == Some(k as usize),
{
    let wanted = chars_of(name);
    let mut i: usize = 0;
    while i < COLUMN_COUNT
        invariant
            0 <= i <= COLUMN_COUNT,
            wanted@ == name@,
            forall|k: int| 0 <= k < i ==> column_spec(k).name != name@,
        decreases COLUMN_COUNT - i,
    {
        let here = chars_of(column_at(i).name);
        if same_chars(&here, &wanted) {
            proof {
                lemma_names_unique();
            }
            return Some(i);
        }
        i = i + 1;
    }
    None
}

/// The columns that have a name of their own in this module are the ones
/// with these header texts, and each requires a value of this kind.
pub proof fn lemma_named_columns()
    ensures
        column_spec(LATITUDE as int) == mandatory("Latitude (deg)"@, CellKind::Float),
        column_spec(LONGITUDE as int) == mandatory("Longitude (deg)"@, CellKind::Float),
        column_spec(GPS_ALTITUDE as int) == mandatory("GPS Altitude (feet)"@, CellKind::Float),
        column_spec(GROUND_SPEED as int) == mandatory("Ground Speed (knots)"@, CellKind::Float),
        column_spec(TRANSPONDER_REPLY as int) == mandatory(
            "Transponder Reply (bool)"@,
            CellKind::Flag,
        ),
        column_spec(TRANSPONDER_IDENTING as int) == mandatory(
            "Transponder Identing (bool)"@,
            CellKind::Flag,
        ),
{
}

/// The character of `name` at `at`, or a blank where `name` ends before.
spec fn pick(name: Seq<char>, at: int) -> char {
    if 0 <= at < name.len() {
        name[at]
    } else {
        ' '
    }
}

/// The length of `name` and its characters at the places that tell the
/// header texts of the schema apart.
spec fn mark(name: Seq<char>) -> (nat, char, char, char, char, char, char, char, char) {
    (
        name.len(),
        pick(name, 0),
        pick(name, 4),
        pick(name, 6),
        pick(name, 9),
        pick(name, 10),
        pick(name, 11),
        pick(name, 13),
        pick(name, 14),
    )
}

proof fn lemma_marks_differ()
    ensures
        forall|i: int, j: int|
            0 <= i < j < COLUMN_COUNT ==> mark(column_spec(i).name) != mark(column_spec(j).name),
{
    reveal_strlit("Session Time");
    reveal_strlit("GPS Fix Quality");
    reveal_strlit("Number of Satellites");
    reveal_strlit("GPS Date & Time");
    reveal_strlit("Latitude (deg)");
    reveal_strlit("Longitude (deg)");
    reveal_strlit("GPS Altitude (feet)");
    reveal_strlit("Ground Speed (knots)");
    reveal_strlit("Ground Track (deg)");
    reveal_strlit("Mag Var (deg)");
    reveal_strlit("Cross Track Error (NM)");
    reveal_strlit("Destination Waypoint ID");
    reveal_strlit("Range to Destination (NM)");
    reveal_strlit("Bearing to Destination (deg)");
    reveal_strlit("System Time");
    reveal_strlit("Pitch (deg)");
    reveal_strlit("Roll (deg)");
    reveal_strlit("Magnetic Heading (deg)");
    reveal_strlit("Indicated Airspeed (knots)");
    reveal_strlit("Pressure Altitude (ft)");
    reveal_strlit("Turn Rate (deg/s)");
    reveal_strlit("Lateral Accel (g)");
    reveal_strlit("Vertical Accel(g)");
    reveal_strlit("Angle of Attack (%)");
    reveal_strlit("Vertical Speed (ft/min)");
    reveal_strlit("OAT (deg C)");
    reveal_strlit("True Airspeed (knots)");
    reveal_strlit("Barometer Setting (inHg)");
    reveal_strlit("Density Altitude (ft)");
    reveal_strlit("Wind Direction (deg)");
    reveal_strlit("Wind Speed (knots)");
    reveal_strlit("Heading Bug (deg)");
    reveal_strlit("Altitude Bug (ft)");
    reveal_strlit("Airspeed Bug (knots)");
    reveal_strlit("Vertical Speed Bug (ft/min)");
    reveal_strlit("Course (deg)");
    reveal_strlit("CDI Source Type");
    reveal_strlit("CDI Source Port");
    reveal_strlit("CDI Scale (NM)");
    reveal_strlit("CDI Deflection (%)");
    reveal_strlit("Glideslope (%)");
    reveal_strlit("AP Engaged");
    reveal_strlit("AP Roll Mode");
    reveal_strlit("AP Roll Force");
    reveal_strlit("AP Roll Position (steps)");
    reveal_strlit("AP Roll Slip (bool)");
    reveal_strlit("AP Pitch Force");
    reveal_strlit("AP Pitch Position (steps)");
    reveal_strlit("AP Pitch Slip (bool)");
    reveal_strlit("AP Yaw Force");
    reveal_strlit("AP Yaw Position");
    reveal_strlit("AP Yaw Slip (bool)");
    reveal_strlit("Transponder Status");
    reveal_strlit("Transponder Reply (bool)");
    reveal_strlit("Transponder Identing (bool)");
    reveal_strlit("Transponder Code (octal)");
    reveal_strlit("Oil Pressure (PSI)");
    reveal_strlit("Oil Temp (deg C)");
    reveal_strlit("RPM L");
    reveal_strlit("RPM R");
    reveal_strlit("Manifold Pressure (inHg)");
    reveal_strlit("Fuel Flow 1 (gal/hr)");
    reveal_strlit("Fuel Flow 2 (gal/hr)");
    reveal_strlit("Fuel Pressure (PSI)");
    reveal_strlit("Fuel Level L (gal)");
    reveal_strlit("Fuel Level R (gal)");
    reveal_strlit("Fuel Remaining (gal)");
    reveal_strlit("Volts 1");
    reveal_strlit("Volts 2");
    reveal_strlit("Amps");
    reveal_strlit("Hobbs Time");
    reveal_strlit("Tach Time");
    reveal_strlit("Thermocouple 1 (deg C)");
    reveal_strlit("Thermocouple 2 (deg C)");
    reveal_strlit("Thermocouple 3 (deg C)");
    reveal_strlit("Thermocouple 4 (deg C)");
    reveal_strlit("CHT 4 (deg C)");
    reveal_strlit("EGT 4 (deg C)");
    reveal_strlit("CHT 3 (deg C)");
    reveal_strlit("EGT 3 (deg C)");
    reveal_strlit("CHT 2 (deg C)");
    reveal_strlit("EGT 2 (deg C)");
    reveal_strlit("CHT 1 (deg C)");
    reveal_strlit("EGT 1 (deg C)");
    reveal_strlit("Thermocouple 13 (deg C)");
    reveal_strlit("Thermocouple 14 (deg C)");
    reveal_strlit("GP Input 1");
    reveal_strlit("GP Input 2");
    reveal_strlit("CARB TEMPERATURE (deg C)");
    reveal_strlit("FUEL PRESSURE (PSI)");
    reveal_strlit("PHEAT CONTACT (V)");
    reveal_strlit("HDRTNK CONTACT (V)");
    reveal_strlit("BATT CONTACT (V)");
    reveal_strlit("GP Input 8");
    reveal_strlit("LEFT LEVEL (gal)");
    reveal_strlit("RIGHT LEVEL (gal)");
    reveal_strlit("OIL PRESSURE (PSI)");
    reveal_strlit("OIL TEMPERATURE (deg C)");
    reveal_strlit("GP Input 13");
    reveal_strlit("Contacts");
    reveal_strlit("Percent Power");
    reveal_strlit("EGT Leaning State");
}

/// No two columns of the schema have the same header text.
pub proof fn lemma_names_unique()
    ensures
        forall|i: int, j: int|
            0 <= i < j < COLUMN_COUNT ==> column_spec(i).name != column_spec(j).name,
{
    lemma_marks_differ();
}

} // verus!
