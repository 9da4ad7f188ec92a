use dynoxide::decode::{
    bool_from_int, decode_field, decode_record, decode_row, maybe_bool_from_maybe_int,
    row_failures, Fault,
};
use dynoxide::header::{Layout, Slot};
use dynoxide::record::{Decimal, Value};
use dynoxide::schema::{
    find_column, nth_column, CellKind, COLUMN_COUNT, GPS_ALTITUDE, GROUND_SPEED, LATITUDE, LONGITUDE,
    TRANSPONDER_IDENTING, TRANSPONDER_REPLY,
};
use dynoxide::text::{chars_of, is_float, parse_small_uint, same_chars};
use dynoxide::track::coordinate_of;

/// Every column of a log with the text of its cell in one well-formed row.
fn row_sample() -> Vec<(&'static str, &'static str)> {
    vec![
        ("Session Time", "0.0"),
        ("GPS Fix Quality", "2"),
        ("Number of Satellites", "9"),
        ("GPS Date & Time", "2023-01-15 14:03:22"),
        ("Latitude (deg)", "27.14215"),
        ("Longitude (deg)", "-82.47485"),
        ("GPS Altitude (feet)", "2563.0"),
        ("Ground Speed (knots)", "91.6"),
        ("Ground Track (deg)", "271.3"),
        ("Mag Var (deg)", "-5.9"),
        ("Cross Track Error (NM)", ""),
        ("Destination Waypoint ID", ""),
        ("Range to Destination (NM)", ""),
        ("Bearing to Destination (deg)", ""),
        ("System Time", "14:03:22.25"),
        ("Pitch (deg)", "2.1"),
        ("Roll (deg)", "-0.4"),
        ("Magnetic Heading (deg)", "1.5"),
        ("Indicated Airspeed (knots)", "1.5"),
        ("Pressure Altitude (ft)", "1.5"),
        ("Turn Rate (deg/s)", "1.5"),
        ("Lateral Accel (g)", "1.5"),
        ("Vertical Accel(g)", "1.5"),
        ("Angle of Attack (%)", "1.5"),
        ("Vertical Speed (ft/min)", "1.5"),
        ("OAT (deg C)", "1.5"),
        ("True Airspeed (knots)", "1.5"),
        ("Barometer Setting (inHg)", "1.5"),
        ("Density Altitude (ft)", "1.5"),
        ("Wind Direction (deg)", ""),
        ("Wind Speed (knots)", "12"),
        ("Heading Bug (deg)", ""),
        ("Altitude Bug (ft)", ""),
        ("Airspeed Bug (knots)", ""),
        ("Vertical Speed Bug (ft/min)", ""),
        ("Course (deg)", ""),
        ("CDI Source Type", "GPS"),
        ("CDI Source Port", "0"),
        ("CDI Scale (NM)", ""),
        ("CDI Deflection (%)", ""),
        ("Glideslope (%)", ""),
        ("AP Engaged", "0"),
        ("AP Roll Mode", ""),
        ("AP Roll Force", ""),
        ("AP Roll Position (steps)", ""),
        ("AP Roll Slip (bool)", ""),
        ("AP Pitch Force", ""),
        ("AP Pitch Position (steps)", ""),
        ("AP Pitch Slip (bool)", ""),
        ("AP Yaw Force", ""),
        ("AP Yaw Position", ""),
        ("AP Yaw Slip (bool)", ""),
        ("Transponder Status", "ALT"),
        ("Transponder Reply (bool)", "0"),
        ("Transponder Identing (bool)", "1"),
        ("Transponder Code (octal)", "1200"),
        ("Oil Pressure (PSI)", "1.5"),
        ("Oil Temp (deg C)", "1.5"),
        ("RPM L", "1.5"),
        ("RPM R", "1.5"),
        ("Manifold Pressure (inHg)", "1.5"),
        ("Fuel Flow 1 (gal/hr)", "1.5"),
        ("Fuel Flow 2 (gal/hr)", "1.5"),
        ("Fuel Pressure (PSI)", "1.5"),
        ("Fuel Level L (gal)", "1.5"),
        ("Fuel Level R (gal)", "1.5"),
        ("Fuel Remaining (gal)", "1.5"),
        ("Volts 1", "14.1"),
        ("Volts 2", ""),
        ("Amps", ""),
        ("Hobbs Time", "1.5"),
        ("Tach Time", "1.5"),
        ("Thermocouple 1 (deg C)", ""),
        ("Thermocouple 2 (deg C)", ""),
        ("Thermocouple 3 (deg C)", ""),
        ("Thermocouple 4 (deg C)", ""),
        ("CHT 4 (deg C)", "1.5"),
        ("EGT 4 (deg C)", "1.5"),
        ("CHT 3 (deg C)", "1.5"),
        ("EGT 3 (deg C)", "1.5"),
        ("CHT 2 (deg C)", "1.5"),
        ("EGT 2 (deg C)", "1.5"),
        ("CHT 1 (deg C)", "1.5"),
        ("EGT 1 (deg C)", "1.5"),
        ("Thermocouple 13 (deg C)", ""),
        ("Thermocouple 14 (deg C)", ""),
        ("GP Input 1", ""),
        ("GP Input 2", ""),
        ("CARB TEMPERATURE (deg C)", ""),
        ("FUEL PRESSURE (PSI)", "1.5"),
        ("PHEAT CONTACT (V)", "1.5"),
        ("HDRTNK CONTACT (V)", "1.5"),
        ("BATT CONTACT (V)", "1.5"),
        ("GP Input 8", ""),
        ("LEFT LEVEL (gal)", "1.5"),
        ("RIGHT LEVEL (gal)", "1.5"),
        ("OIL PRESSURE (PSI)", "1.5"),
        ("OIL TEMPERATURE (deg C)", "1.5"),
        ("GP Input 13", ""),
        ("Contacts", ""),
        ("Percent Power", "64"),
        ("EGT Leaning State", ""),
    ]
}

/// The header line of a log: every column, then the empty column that a
/// recorder's trailing comma makes.
fn row_header_line() -> String {
    let mut line = String::new();
    for (name, _) in row_sample() {
        line.push_str(name);
        line.push(',');
    }
    line.push('\n');
    line
}

/// One data line: the sample row with the cells of `changes` replaced.
fn row_line(changes: &[(&str, &str)]) -> String {
    let mut line = String::new();
    for (name, cell) in row_sample() {
        let mut text = cell;
        for (changed, with) in changes {
            if *changed == name {
                text = with;
            }
        }
        line.push_str(text);
        line.push(',');
    }
    line.push('\n');
    line
}

/// The header as cells.
fn row_header() -> Vec<String> {
    let mut cells: Vec<String> = row_sample().iter().map(|(name, _)| name.to_string()).collect();
    cells.push(String::new());
    cells
}

/// The sample row as cells, with the cells of `changes` replaced.
fn row_cells(changes: &[(&str, &str)]) -> Vec<String> {
    let mut cells: Vec<String> = Vec::new();
    for (name, cell) in row_sample() {
        let mut text = cell;
        for (changed, with) in changes {
            if *changed == name {
                text = with;
            }
        }
        cells.push(text.to_string());
    }
    cells.push(String::new());
    cells
}

fn number_of(value: &Value) -> f64 {
    match value {
        Value::Number(decimal) => decimal.as_str().parse().unwrap(),
        other => panic!("expected a number, found {:?}", other),
    }
}

fn accepts_float(text: &str) -> bool {
    is_float(&chars_of(text))
}

fn small_uint(text: &str) -> Option<u8> {
    parse_small_uint(&chars_of(text))
}

/// What the standard library reads `text` as, the way a CSV reader applies
/// it to a numeric cell: hexadecimal after `0x`, decimal otherwise.
fn small_uint_by_std(text: &str) -> Option<u8> {
    match text.strip_prefix("0x") {
        Some(digits) => u8::from_str_radix(digits, 16).ok(),
        None => text.parse::<u8>().ok(),
    }
}

#[test]
fn chars_of_gives_every_character() {
    assert_eq!(chars_of(""), Vec::<char>::new());
    assert_eq!(chars_of("a,b"), vec!['a', ',', 'b']);
    assert_eq!(chars_of("Zürich °C"), "Zürich °C".chars().collect::<Vec<char>>());
}

#[test]
fn same_chars_compares_exactly() {
    assert!(same_chars(&chars_of("abc"), &chars_of("abc")));
    assert!(!same_chars(&chars_of("abc"), &chars_of("abd")));
    assert!(!same_chars(&chars_of("abc"), &chars_of("ab")));
    assert!(!same_chars(&chars_of("abc"), &chars_of("ABC")));
    assert!(same_chars(&chars_of(""), &chars_of("")));
}

#[test]
fn float_grammar_accepts_numbers() {
    for text in [
        "0", "1", "27.14215", "-82.47485", "2563.0", "+2", "-0.0", "1.", ".5", "-.5", "+5.",
        "1e5", "1E5", "1.5e-3", "1.5E+3", "1.e2", ".5e2", "007", "1e0005", "123456789012345678901234567890",
        "inf", "-inf", "+inf", "INF", "Inf", "infinity", "-Infinity", "INFINITY", "iNfInItY", "nan",
        "NaN", "NAN", "-nan", "+NaN",
    ] {
        assert!(accepts_float(text), "{:?} is a number", text);
        assert!(text.parse::<f64>().is_ok(), "{:?} is a number for the standard library", text);
    }
}

#[test]
fn float_grammar_refuses_other_text() {
    for text in [
        "", " ", ".", "+", "-", "+.", "-.", "e5", ".e5", "1e", "1e+", "1e-", "1e1.5", " 1", "1 ", "1,5",
        "0x10", "--1", "+-1", "1.2.3", "1..2", "infin", "infinit", "infinityy", "in", "na", "nann",
        "i", "1f", "1_000", "abc", "１", "1e５", "٣", "-", "1-", "1+1", "ınf", "İNF",
    ] {
        assert!(!accepts_float(text), "{:?} is no number", text);
        assert!(text.parse::<f64>().is_err(), "{:?} is no number for the standard library", text);
    }
}

#[test]
fn small_uint_reads_decimal_and_hexadecimal() {
    assert_eq!(small_uint("0"), Some(0));
    assert_eq!(small_uint("1"), Some(1));
    assert_eq!(small_uint("9"), Some(9));
    assert_eq!(small_uint("255"), Some(255));
    assert_eq!(small_uint("+7"), Some(7));
    assert_eq!(small_uint("007"), Some(7));
    assert_eq!(small_uint("0000000000000000000000255"), Some(255));
    assert_eq!(small_uint("0x0"), Some(0));
    assert_eq!(small_uint("0x1F"), Some(31));
    assert_eq!(small_uint("0x1f"), Some(31));
    assert_eq!(small_uint("0xff"), Some(255));
    assert_eq!(small_uint("0xFF"), Some(255));
    assert_eq!(small_uint("0x+a"), Some(10));
    assert_eq!(small_uint("0x0000ff"), Some(255));
}

#[test]
fn small_uint_refuses_what_does_not_fit() {
    for text in [
        "", "+", "-", "-1", "-0", "256", "1000", "99999999999999999999", "1a", "a", "1.0", "1e2", " 1",
        "1 ", "0x", "0x+", "0x100", "0xg", "0X1F", "x1", "+0x1", "0x-1", "++1", "٣", "1_0", "0x1 ",
    ] {
        assert_eq!(small_uint(text), None, "{:?} is no small unsigned integer", text);
    }
}

#[test]
fn small_uint_agrees_with_the_standard_library() {
    let mut texts: Vec<String> = Vec::new();
    for n in 0..300u32 {
        texts.push(n.to_string());
        texts.push(format!("+{}", n));
        texts.push(format!("0{}", n));
        texts.push(format!("0x{:x}", n));
        texts.push(format!("0x{:X}", n));
        texts.push(format!("0x+{:x}", n));
        texts.push(format!("-{}", n));
    }
    for text in ["", "+", "0x", "0x+", "12a", "a12", "0xfg", " 5", "5 ", "0X5", "1.5"] {
        texts.push(text.to_string());
    }
    for text in texts {
        assert_eq!(small_uint(&text), small_uint_by_std(&text), "for {:?}", text);
    }
}

#[test]
fn bool_from_int_takes_zero_and_one_only() {
    assert_eq!(bool_from_int(0), Ok(false));
    assert_eq!(bool_from_int(1), Ok(true));
    assert_eq!(bool_from_int(2), Err(Fault::NotZeroOrOne));
    assert_eq!(bool_from_int(255), Err(Fault::NotZeroOrOne));
    for n in 2..=255u8 {
        assert_eq!(bool_from_int(n), Err(Fault::NotZeroOrOne));
    }
}

#[test]
fn maybe_bool_from_maybe_int_keeps_absence() {
    assert_eq!(maybe_bool_from_maybe_int(None), Ok(None));
    assert_eq!(maybe_bool_from_maybe_int(Some(0)), Ok(Some(false)));
    assert_eq!(maybe_bool_from_maybe_int(Some(1)), Ok(Some(true)));
    assert_eq!(maybe_bool_from_maybe_int(Some(2)), Err(Fault::NotZeroOrOne));
    assert_eq!(maybe_bool_from_maybe_int(Some(200)), Err(Fault::NotZeroOrOne));
}

#[test]
fn decimal_keeps_the_text_it_was_written_with() {
    let decimal = Decimal::parse("2563.0").unwrap();
    assert_eq!(decimal.as_str(), "2563.0");
    assert_eq!(decimal.clone().as_str(), "2563.0");
    assert_eq!(decimal.as_str().parse::<f64>().unwrap(), 2563.0);
    assert!(Decimal::parse("2563,0").is_none());
    assert!(Decimal::parse("").is_none());
}

#[test]
fn schema_has_the_columns_of_the_log() {
    assert_eq!(COLUMN_COUNT, 102);
    assert_eq!(row_sample().len(), COLUMN_COUNT);
    for (i, (name, _)) in row_sample().iter().enumerate() {
        assert_eq!(nth_column(i).unwrap().name, *name);
    }
    assert!(nth_column(COLUMN_COUNT).is_none());
    assert!(nth_column(usize::MAX).is_none());
}

#[test]
fn schema_gives_kind_and_optionality() {
    let expect = [
        ("Session Time", CellKind::Float, true),
        ("GPS Fix Quality", CellKind::SmallUint, true),
        ("Number of Satellites", CellKind::SmallUint, true),
        ("GPS Date & Time", CellKind::Text, true),
        ("Latitude (deg)", CellKind::Float, true),
        ("Longitude (deg)", CellKind::Float, true),
        ("GPS Altitude (feet)", CellKind::Float, true),
        ("Cross Track Error (NM)", CellKind::Float, false),
        ("Destination Waypoint ID", CellKind::Text, false),
        ("AP Engaged", CellKind::Flag, false),
        ("AP Yaw Slip (bool)", CellKind::Flag, false),
        ("Transponder Reply (bool)", CellKind::Flag, true),
        ("Transponder Identing (bool)", CellKind::Flag, true),
        ("Thermocouple 1 (deg C)", CellKind::Float, false),
        ("GP Input 1", CellKind::Text, false),
        ("FUEL PRESSURE (PSI)", CellKind::Float, true),
        ("Fuel Pressure (PSI)", CellKind::Float, true),
        ("EGT Leaning State", CellKind::Text, false),
    ];
    for (name, kind, required) in expect {
        let found = nth_column(find_column(name).unwrap()).unwrap();
        assert_eq!(found.name, name);
        assert_eq!(found.kind, kind, "kind of {}", name);
        assert_eq!(found.required, required, "optionality of {}", name);
    }
    let mut counts = [0usize; 8];
    for i in 0..COLUMN_COUNT {
        let c = nth_column(i).unwrap();
        let slot = match c.kind {
            CellKind::Float => 0,
            CellKind::SmallUint => 2,
            CellKind::Text => 4,
            CellKind::Flag => 6,
        } + if c.required { 0 } else { 1 };
        counts[slot] += 1;
    }
    assert_eq!(counts, [50, 30, 2, 0, 6, 8, 2, 4]);
}

#[test]
fn schema_names_are_unique_and_exact() {
    for i in 0..COLUMN_COUNT {
        let name = nth_column(i).unwrap().name;
        assert_eq!(find_column(name), Some(i), "{} is found where it stands", name);
    }
    assert_eq!(find_column("Latitude (deg)"), Some(LATITUDE));
    assert_eq!(find_column("Longitude (deg)"), Some(LONGITUDE));
    assert_eq!(find_column("GPS Altitude (feet)"), Some(GPS_ALTITUDE));
    assert_eq!(find_column("Ground Speed (knots)"), Some(GROUND_SPEED));
    assert_eq!(find_column("Transponder Reply (bool)"), Some(TRANSPONDER_REPLY));
    assert_eq!(find_column("Transponder Identing (bool)"), Some(TRANSPONDER_IDENTING));
    assert_eq!(find_column("latitude (deg)"), None);
    assert_eq!(find_column("Latitude(deg)"), None);
    assert_eq!(find_column("Latitude (deg) "), None);
    assert_eq!(find_column("latitude_deg"), None);
    assert_eq!(find_column(""), None);
    assert_ne!(find_column("FUEL PRESSURE (PSI)"), find_column("Fuel Pressure (PSI)"));
    assert_ne!(find_column("OIL PRESSURE (PSI)"), find_column("Oil Pressure (PSI)"));
}

#[test]
fn flag_field_decodes_zero_and_one() {
    let reply = nth_column(TRANSPONDER_REPLY).unwrap();
    let zero = "0".to_string();
    let one = "1".to_string();
    assert!(matches!(decode_field(&reply, Some(&zero)), Ok(Value::Flag(false))));
    assert!(matches!(decode_field(&reply, Some(&one)), Ok(Value::Flag(true))));
    let engaged = nth_column(find_column("AP Engaged").unwrap()).unwrap();
    assert!(matches!(decode_field(&engaged, Some(&zero)), Ok(Value::Flag(false))));
    assert!(matches!(decode_field(&engaged, Some(&one)), Ok(Value::Flag(true))));
    for text in ["00", "+0", "0x0"] {
        assert!(matches!(decode_field(&reply, Some(&text.to_string())), Ok(Value::Flag(false))));
    }
    for text in ["01", "+1", "0x1"] {
        assert!(matches!(decode_field(&reply, Some(&text.to_string())), Ok(Value::Flag(true))));
    }
}

#[test]
fn flag_field_refuses_everything_else() {
    let reply = nth_column(TRANSPONDER_REPLY).unwrap();
    let engaged = nth_column(find_column("AP Engaged").unwrap()).unwrap();
    for text in ["2", "3", "10", "255", "256", "-1", "true", "false", "yes", "0.0", "1.0", " 1", "x"] {
        let cell = text.to_string();
        match decode_field(&reply, Some(&cell)) {
            Err((fault, raw)) => {
                assert_eq!(fault, Fault::NotZeroOrOne, "for {:?}", text);
                assert_eq!(raw, text);
            }
            Ok(value) => panic!("{:?} was decoded to {:?}", text, value),
        }
        match decode_field(&engaged, Some(&cell)) {
            Err((fault, raw)) => {
                assert_eq!(fault, Fault::NotZeroOrOne, "for {:?}", text);
                assert_eq!(raw, text);
            }
            Ok(value) => panic!("{:?} was decoded to {:?}", text, value),
        }
    }
    let empty = String::new();
    assert!(matches!(decode_field(&reply, Some(&empty)), Err((Fault::NotZeroOrOne, _))));
    assert!(matches!(decode_field(&reply, None), Err((Fault::Missing, _))));
}

#[test]
fn optional_fields_decode_empty_cells_to_absent() {
    let empty = String::new();
    let mut optional = 0;
    for i in 0..COLUMN_COUNT {
        let c = nth_column(i).unwrap();
        if !c.required {
            optional += 1;
            assert!(matches!(decode_field(&c, Some(&empty)), Ok(Value::Absent)), "{}", c.name);
            assert!(matches!(decode_field(&c, None), Ok(Value::Absent)), "{}", c.name);
        }
    }
    assert_eq!(optional, 42);
}

#[test]
fn optional_fields_still_check_present_cells() {
    let course = nth_column(find_column("Course (deg)").unwrap()).unwrap();
    assert!(matches!(decode_field(&course, Some(&"abc".to_string())), Err((Fault::NotANumber, _))));
    match decode_field(&course, Some(&"181.5".to_string())) {
        Ok(value) => assert_eq!(number_of(&value), 181.5),
        Err(_) => panic!("181.5 is a number"),
    }
    let engaged = nth_column(find_column("AP Engaged").unwrap()).unwrap();
    assert!(matches!(decode_field(&engaged, Some(&"2".to_string())), Err((Fault::NotZeroOrOne, _))));
    let mode = nth_column(find_column("AP Roll Mode").unwrap()).unwrap();
    match decode_field(&mode, Some(&"HDG".to_string())) {
        Ok(Value::Text(text)) => assert_eq!(text, "HDG"),
        other => panic!("unexpected {:?}", other),
    }
}

#[test]
fn mandatory_fields_need_a_value() {
    let empty = String::new();
    let latitude = nth_column(LATITUDE).unwrap();
    assert!(matches!(decode_field(&latitude, Some(&empty)), Err((Fault::NotANumber, _))));
    assert!(matches!(decode_field(&latitude, None), Err((Fault::Missing, _))));
    let quality = nth_column(find_column("GPS Fix Quality").unwrap()).unwrap();
    assert!(matches!(decode_field(&quality, Some(&empty)), Err((Fault::NotASmallUint, _))));
    assert!(matches!(decode_field(&quality, Some(&"300".to_string())), Err((Fault::NotASmallUint, _))));
    assert!(matches!(decode_field(&quality, Some(&"3".to_string())), Ok(Value::SmallUint(3))));
    assert!(matches!(decode_field(&quality, None), Err((Fault::Missing, _))));
    let status = nth_column(find_column("Transponder Status").unwrap()).unwrap();
    match decode_field(&status, Some(&empty)) {
        Ok(Value::Text(text)) => assert_eq!(text, ""),
        other => panic!("unexpected {:?}", other),
    }
    assert!(matches!(decode_field(&status, None), Err((Fault::Missing, _))));
}

#[test]
fn end_to_end_row_decodes_to_its_values() {
    let record = decode_record(&row_header(), &row_cells(&[])).unwrap();
    assert_eq!(record.latitude_deg().as_str().parse::<f64>().unwrap(), 27.14215);
    assert_eq!(record.longitude_deg().as_str().parse::<f64>().unwrap(), -82.47485);
    assert_eq!(record.gps_altitude_feet().as_str().parse::<f64>().unwrap(), 2563.0);
    assert_eq!(record.ground_speed_knots().as_str().parse::<f64>().unwrap(), 91.6);
    assert_eq!(record.transponder_reply_bool(), false);
    assert_eq!(record.transponder_identing_bool(), true);
    let point = coordinate_of(&record);
    let first = (
        point.longitude.as_str().parse::<f64>().unwrap(),
        point.latitude.as_str().parse::<f64>().unwrap(),
        point.altitude.as_str().parse::<f64>().unwrap(),
    );
    assert_eq!(first, (-82.47485, 27.14215, 2563.0));
}

#[test]
fn record_gives_every_field_by_column_and_by_name() {
    let record = decode_record(&row_header(), &row_cells(&[])).unwrap();
    assert!(matches!(record.value(1), Some(Value::SmallUint(2))));
    assert!(matches!(record.value(2), Some(Value::SmallUint(9))));
    assert!(matches!(record.field("Number of Satellites"), Some(Value::SmallUint(9))));
    assert!(matches!(record.field("AP Engaged"), Some(Value::Flag(false))));
    assert!(matches!(record.field("AP Roll Mode"), Some(Value::Absent)));
    assert!(matches!(record.field("Cross Track Error (NM)"), Some(Value::Absent)));
    assert_eq!(number_of(record.field("Volts 1").unwrap()), 14.1);
    assert_eq!(number_of(record.field("Mag Var (deg)").unwrap()), -5.9);
    match record.field("GPS Date & Time") {
        Some(Value::Text(text)) => assert_eq!(text, "2023-01-15 14:03:22"),
        other => panic!("unexpected {:?}", other),
    }
    assert!(record.value(COLUMN_COUNT).is_none());
    assert!(record.field("No Such Column").is_none());
    assert!(record.field("ap engaged").is_none());
    for i in 0..COLUMN_COUNT {
        let c = nth_column(i).unwrap();
        let fits = match record.value(i).unwrap() {
            Value::Number(_) => c.kind == CellKind::Float,
            Value::SmallUint(_) => c.kind == CellKind::SmallUint,
            Value::Text(_) => c.kind == CellKind::Text,
            Value::Flag(_) => c.kind == CellKind::Flag,
            Value::Absent => !c.required,
        };
        assert!(fits, "{}", c.name);
    }
}

#[test]
fn header_order_does_not_matter() {
    let mut header = row_header();
    let mut cells = row_cells(&[]);
    header.reverse();
    cells.reverse();
    let record = decode_record(&header, &cells).unwrap();
    assert_eq!(record.latitude_deg().as_str(), "27.14215");
    assert_eq!(record.longitude_deg().as_str(), "-82.47485");
    assert_eq!(record.gps_altitude_feet().as_str(), "2563.0");
    assert_eq!(record.transponder_identing_bool(), true);
    let layout = Layout::resolve(&header);
    assert_eq!(layout.slot(LATITUDE), Some(Slot::At(header.len() - 1 - LATITUDE)));
    assert_eq!(layout.slot(0), Some(Slot::At(header.len() - 1)));
    assert_eq!(layout.slot(COLUMN_COUNT), None);
}

#[test]
fn header_may_hold_columns_the_schema_does_not_know() {
    let mut header = row_header();
    let mut cells = row_cells(&[]);
    header.insert(3, "Cabin Mood".to_string());
    cells.insert(3, "cheerful".to_string());
    header.push("latitude_deg".to_string());
    cells.push("not a number".to_string());
    let layout = Layout::resolve(&header);
    assert_eq!(layout.slot(2), Some(Slot::At(2)));
    assert_eq!(layout.slot(3), Some(Slot::At(4)));
    assert_eq!(layout.slot(LATITUDE), Some(Slot::At(LATITUDE + 1)));
    let record = decode_row(&layout, &cells).unwrap();
    assert_eq!(record.latitude_deg().as_str(), "27.14215");
}

#[test]
fn header_without_an_optional_column_gives_absent() {
    let mut header = row_header();
    let mut cells = row_cells(&[("AP Engaged", "1"), ("Volts 1", "13.9")]);
    let at = header.iter().position(|name| name == "AP Engaged").unwrap();
    header.remove(at);
    cells.remove(at);
    let at = header.iter().position(|name| name == "Volts 1").unwrap();
    header.remove(at);
    cells.remove(at);
    let layout = Layout::resolve(&header);
    assert_eq!(layout.slot(find_column("AP Engaged").unwrap()), Some(Slot::Missing));
    let record = decode_row(&layout, &cells).unwrap();
    assert!(matches!(record.field("AP Engaged"), Some(Value::Absent)));
    assert!(matches!(record.field("Volts 1"), Some(Value::Absent)));
}

#[test]
fn header_without_a_mandatory_column_fails_the_row() {
    let mut header = row_header();
    let mut cells = row_cells(&[]);
    header.remove(GPS_ALTITUDE);
    cells.remove(GPS_ALTITUDE);
    let error = decode_record(&header, &cells).unwrap_err();
    assert_eq!(error.column, GPS_ALTITUDE);
    assert_eq!(error.field, "GPS Altitude (feet)");
    assert_eq!(error.fault, Fault::Missing);
    assert_eq!(error.raw, "");
}

#[test]
fn header_that_repeats_a_column_fails_the_row() {
    let mut header = row_header();
    let mut cells = row_cells(&[]);
    header.push("Roll (deg)".to_string());
    cells.push("3.0".to_string());
    let layout = Layout::resolve(&header);
    assert_eq!(layout.slot(find_column("Roll (deg)").unwrap()), Some(Slot::Repeated));
    let error = decode_row(&layout, &cells).unwrap_err();
    assert_eq!(error.field, "Roll (deg)");
    assert_eq!(error.fault, Fault::Repeated);
    header.push("AP Engaged".to_string());
    cells.push(String::new());
    let error = decode_record(&header, &cells).unwrap_err();
    assert_eq!(error.field, "Roll (deg)");
}

#[test]
fn short_row_misses_its_last_columns() {
    let header = row_header();
    let mut cells = row_cells(&[]);
    cells.truncate(97);
    let error = decode_record(&header, &cells).unwrap_err();
    assert_eq!(error.column, 97);
    assert_eq!(error.field, "OIL TEMPERATURE (deg C)");
    assert_eq!(error.fault, Fault::Missing);
    cells.push("88.0".to_string());
    let record = decode_record(&header, &cells).unwrap();
    assert!(matches!(record.field("GP Input 13"), Some(Value::Absent)));
    assert!(matches!(record.field("EGT Leaning State"), Some(Value::Absent)));
    assert_eq!(number_of(record.field("OIL TEMPERATURE (deg C)").unwrap()), 88.0);
}

#[test]
fn row_failure_names_the_first_refused_column() {
    let header = row_header();
    let cells = row_cells(&[("Pitch (deg)", "up"), ("Transponder Reply (bool)", "2"), ("GPS Fix Quality", "many")]);
    let error = decode_record(&header, &cells).unwrap_err();
    assert_eq!(error.column, 1);
    assert_eq!(error.field, "GPS Fix Quality");
    assert_eq!(error.fault, Fault::NotASmallUint);
    assert_eq!(error.raw, "many");
    let cells = row_cells(&[("Pitch (deg)", "up"), ("Transponder Reply (bool)", "2")]);
    let error = decode_record(&header, &cells).unwrap_err();
    assert_eq!(error.field, "Pitch (deg)");
    assert_eq!(error.fault, Fault::NotANumber);
    assert_eq!(error.raw, "up");
    let cells = row_cells(&[("Transponder Reply (bool)", "2")]);
    let error = decode_record(&header, &cells).unwrap_err();
    assert_eq!(error.column, TRANSPONDER_REPLY);
    assert_eq!(error.field, "Transponder Reply (bool)");
    assert_eq!(error.fault, Fault::NotZeroOrOne);
    assert_eq!(error.raw, "2");
    let cells = row_cells(&[("AP Pitch Slip (bool)", "7")]);
    let error = decode_record(&header, &cells).unwrap_err();
    assert_eq!(error.field, "AP Pitch Slip (bool)");
    assert_eq!(error.fault, Fault::NotZeroOrOne);
    assert_eq!(error.raw, "7");
}

#[test]
fn row_failures_lists_every_refused_field() {
    let header = row_header();
    let layout = Layout::resolve(&header);
    assert!(row_failures(&layout, &row_cells(&[])).is_empty());
    let cells = row_cells(&[
        ("Pitch (deg)", "up"),
        ("Transponder Reply (bool)", "2"),
        ("GPS Fix Quality", "many"),
        ("AP Engaged", "on"),
        ("Course (deg)", ""),
    ]);
    let failures = row_failures(&layout, &cells);
    let found: Vec<(usize, &str, Fault, &str)> = failures
        .iter()
        .map(|failure| (failure.column, failure.field, failure.fault, failure.raw.as_str()))
        .collect();
    assert_eq!(
        found,
        vec![
            (1, "GPS Fix Quality", Fault::NotASmallUint, "many"),
            (15, "Pitch (deg)", Fault::NotANumber, "up"),
            (41, "AP Engaged", Fault::NotZeroOrOne, "on"),
            (53, "Transponder Reply (bool)", Fault::NotZeroOrOne, "2"),
        ]
    );
    let first = decode_row(&layout, &cells).unwrap_err();
    assert_eq!(first.column, failures[0].column);
    assert_eq!(first.fault, failures[0].fault);
    assert_eq!(first.raw, failures[0].raw);
}

/// Every text of at most `longest` characters over `alphabet`.
fn texts_over(alphabet: &[char], longest: usize) -> Vec<String> {
    let mut all: Vec<String> = vec![String::new()];
    let mut last: Vec<String> = vec![String::new()];
    for _ in 0..longest {
        let mut next: Vec<String> = Vec::new();
        for text in &last {
            for c in alphabet {
                let mut longer = text.clone();
                longer.push(*c);
                next.push(longer);
            }
        }
        all.extend(next.iter().cloned());
        last = next;
    }
    all
}

#[test]
fn float_grammar_agrees_with_the_standard_library() {
    let alphabet = ['0', '7', '+', '-', '.', 'e', 'E', 'i', 'n', 'f', 'a', 'N', ' '];
    let mut checked = 0;
    for text in texts_over(&alphabet, 5) {
        assert_eq!(accepts_float(&text), text.parse::<f64>().is_ok(), "for {:?}", text);
        checked += 1;
    }
    assert_eq!(checked, 1 + 13 + 169 + 2197 + 28561 + 371293);
    for word in ["inf", "infinity", "nan"] {
        for mask in 0..(1u32 << word.len()) {
            let mixed: String = word
                .chars()
                .enumerate()
                .map(|(i, c)| if mask & (1 << i) != 0 { c.to_ascii_uppercase() } else { c })
                .collect();
            for sign in ["", "+", "-"] {
                for (before, after) in [("", ""), ("", "0"), ("", "y"), ("1", ""), (" ", ""), ("", "e1")] {
                    let text = format!("{}{}{}{}", sign, before, mixed, after);
                    assert_eq!(accepts_float(&text), text.parse::<f64>().is_ok(), "for {:?}", text);
                }
            }
        }
    }
}

#[test]
fn small_uint_agrees_on_every_short_text() {
    let alphabet = ['0', '1', '2', '5', '9', 'a', 'F', 'g', 'x', '+', '-'];
    let mut checked = 0;
    for text in texts_over(&alphabet, 5) {
        assert_eq!(small_uint(&text), small_uint_by_std(&text), "for {:?}", text);
        checked += 1;
    }
    assert_eq!(checked, 1 + 11 + 121 + 1331 + 14641 + 161051);
}
