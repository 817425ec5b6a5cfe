use ebd::Decimal;
use ebd::DecodeError;
use ebd::ReadError;
use ebd::Reader;
use ebd::Record;

const HEADER: [&str; 46] = [
    "GLOBAL UNIQUE IDENTIFIER",
    "LAST EDITED DATE",
    "TAXONOMIC ORDER",
    "CATEGORY",
    "COMMON NAME",
    "SCIENTIFIC NAME",
    "SUBSPECIES COMMON NAME",
    "SUBSPECIES SCIENTIFIC NAME",
    "OBSERVATION COUNT",
    "BREEDING BIRD ATLAS CODE",
    "BREEDING BIRD ATLAS CATEGORY",
    "AGE/SEX",
    "COUNTRY",
    "COUNTRY CODE",
    "STATE",
    "STATE CODE",
    "COUNTY",
    "COUNTY CODE",
    "IBA CODE",
    "BCR CODE",
    "USFWS CODE",
    "ATLAS BLOCK",
    "LOCALITY",
    "LOCALITY ID",
    "LOCALITY TYPE",
    "LATITUDE",
    "LONGITUDE",
    "OBSERVATION DATE",
    "TIME OBSERVATIONS STARTED",
    "OBSERVER ID",
    "SAMPLING EVENT IDENTIFIER",
    "PROTOCOL TYPE",
    "PROTOCOL CODE",
    "PROJECT CODE",
    "DURATION MINUTES",
    "EFFORT DISTANCE KM",
    "EFFORT AREA HA",
    "NUMBER OBSERVERS",
    "ALL SPECIES REPORTED",
    "GROUP IDENTIFIER",
    "HAS MEDIA",
    "APPROVED",
    "REVIEWED",
    "REASON",
    "TRIP COMMENTS",
    "SPECIES COMMENTS",
];

/// A data row that decodes: distinct text everywhere, plain coordinates,
/// and all four flags set.
fn default_row() -> Vec<String> {
    let mut row: Vec<String> = Vec::new();
    for (i, name) in HEADER.iter().enumerate() {
        let value = match *name {
            "LATITUDE" => "45.0".to_string(),
            "LONGITUDE" => "-93.0".to_string(),
            "ALL SPECIES REPORTED" => "1".to_string(),
            "HAS MEDIA" => "0".to_string(),
            "APPROVED" => "1".to_string(),
            "REVIEWED" => "0".to_string(),
            _ => format!("value{}", i),
        };
        row.push(value);
    }
    row
}

fn set(row: &mut Vec<String>, name: &str, value: &str) {
    let i = HEADER.iter().position(|n| *n == name).unwrap();
    row[i] = value.to_string();
}

fn input_from(header: &[&str], rows: &[Vec<String>]) -> Vec<u8> {
    let mut lines: Vec<String> = Vec::new();
    lines.push(header.join("\t"));
    for row in rows {
        lines.push(row.join("\t"));
    }
    let mut text = lines.join("\n");
    text.push('\n');
    text.into_bytes()
}

fn one_row_record(row: Vec<String>) -> Result<Record, DecodeError> {
    let mut reader = Reader::from_reader(input_from(&HEADER, &[row]));
    assert_eq!(reader.advance(), Ok(true));
    reader.read_record()
}

#[test]
fn advance_counts_rows() {
    let rows = vec![default_row(), default_row(), default_row()];
    let mut reader = Reader::from_reader(input_from(&HEADER, &rows));
    for _ in 0..3 {
        assert_eq!(reader.advance(), Ok(true));
        assert!(reader.read_record().is_ok());
    }
    assert_eq!(reader.advance(), Ok(false));
    assert_eq!(reader.advance(), Ok(false));
}

#[test]
fn empty_after_header() {
    let mut reader = Reader::from_reader(input_from(&HEADER, &[]));
    assert_eq!(reader.advance(), Ok(false));
    assert_eq!(reader.read_record().unwrap_err(), DecodeError::NoRow);
}

#[test]
fn read_before_advance() {
    let reader = Reader::from_reader(input_from(&HEADER, &[default_row()]));
    assert_eq!(reader.read_record().unwrap_err(), DecodeError::NoRow);
}

#[test]
fn empty_input() {
    let mut reader = Reader::from_reader(Vec::new());
    assert_eq!(reader.advance(), Ok(false));
}

#[test]
fn bool_zero_is_false() {
    let mut row = default_row();
    set(&mut row, "APPROVED", "0");
    let record = one_row_record(row).unwrap();
    assert!(!record.approved);
}

#[test]
fn bool_one_is_true() {
    let mut row = default_row();
    set(&mut row, "REVIEWED", "1");
    let record = one_row_record(row).unwrap();
    assert!(record.reviewed);
}

#[test]
fn bool_bad_tokens_are_errors() {
    for bad in ["2", "-1", "", "true"] {
        let mut row = default_row();
        set(&mut row, "HAS MEDIA", bad);
        assert_eq!(one_row_record(row).unwrap_err(), DecodeError::InvalidBool);
    }
}

#[test]
fn bool_tokens_directly() {
    assert_eq!(ebd::values::parse_bool(&b"0".to_vec()), Some(false));
    assert_eq!(ebd::values::parse_bool(&b"1".to_vec()), Some(true));
    assert_eq!(ebd::values::parse_bool(&b"01".to_vec()), Some(true));
    assert_eq!(ebd::values::parse_bool(&b"2".to_vec()), None);
    assert_eq!(ebd::values::parse_bool(&b"-1".to_vec()), None);
    assert_eq!(ebd::values::parse_bool(&b"".to_vec()), None);
    assert_eq!(ebd::values::parse_bool(&b"true".to_vec()), None);
}

#[test]
fn latitude_parses() {
    let mut row = default_row();
    set(&mut row, "LATITUDE", "40.7128");
    let record = one_row_record(row).unwrap();
    assert_eq!(record.latitude, Decimal { negative: false, mantissa: 407128, scale: 4 });
}

#[test]
fn empty_coordinate_is_error() {
    let mut row = default_row();
    set(&mut row, "LATITUDE", "");
    assert_eq!(one_row_record(row).unwrap_err(), DecodeError::InvalidNumber);
}

#[test]
fn non_numeric_coordinate_is_error() {
    let mut row = default_row();
    set(&mut row, "LONGITUDE", "abc");
    assert_eq!(one_row_record(row).unwrap_err(), DecodeError::InvalidNumber);
}

#[test]
fn decimal_tokens_directly() {
    let parse = |s: &str| ebd::values::parse_decimal(&s.as_bytes().to_vec());
    assert_eq!(parse("40.7128"), Some(Decimal { negative: false, mantissa: 407128, scale: 4 }));
    assert_eq!(parse("-93.0"), Some(Decimal { negative: true, mantissa: 930, scale: 1 }));
    assert_eq!(parse("+2.5"), Some(Decimal { negative: false, mantissa: 25, scale: 1 }));
    assert_eq!(parse("7"), Some(Decimal { negative: false, mantissa: 7, scale: 0 }));
    assert_eq!(parse(".5"), Some(Decimal { negative: false, mantissa: 5, scale: 1 }));
    assert_eq!(parse("40."), Some(Decimal { negative: false, mantissa: 40, scale: 0 }));
    assert_eq!(parse(""), None);
    assert_eq!(parse("abc"), None);
    assert_eq!(parse("."), None);
    assert_eq!(parse("-"), None);
    assert_eq!(parse("1.2.3"), None);
    assert_eq!(parse("1e5"), None);
    assert_eq!(parse("18446744073709551615"), Some(Decimal {
        negative: false,
        mantissa: u64::MAX,
        scale: 0,
    }));
    assert_eq!(parse("18446744073709551616"), None);
}

#[test]
fn canonical_row_decodes() {
    let record = one_row_record(default_row()).unwrap();
    assert_eq!(record.global_unique_identifier, "value0");
    assert_eq!(record.last_edited_date, "value1");
    assert_eq!(record.taxonomic_order, "value2");
    assert_eq!(record.category, "value3");
    assert_eq!(record.common_name, "value4");
    assert_eq!(record.scientific_name, "value5");
    assert_eq!(record.subspecies_common_name, "value6");
    assert_eq!(record.subspecies_scientific_name, "value7");
    assert_eq!(record.observation_count, "value8");
    assert_eq!(record.breeding_bird_atlas_code, "value9");
    assert_eq!(record.breeding_bird_atlas_category, "value10");
    assert_eq!(record.agesex, "value11");
    assert_eq!(record.country, "value12");
    assert_eq!(record.country_code, "value13");
    assert_eq!(record.state, "value14");
    assert_eq!(record.state_code, "value15");
    assert_eq!(record.county, "value16");
    assert_eq!(record.county_code, "value17");
    assert_eq!(record.iba_code, "value18");
    assert_eq!(record.bcr_code, "value19");
    assert_eq!(record.usfws_code, "value20");
    assert_eq!(record.atlas_block, "value21");
    assert_eq!(record.locality, "value22");
    assert_eq!(record.locality_id, "value23");
    assert_eq!(record.locality_type, "value24");
    assert_eq!(record.latitude, Decimal { negative: false, mantissa: 450, scale: 1 });
    assert_eq!(record.longitude, Decimal { negative: true, mantissa: 930, scale: 1 });
    assert_eq!(record.observation_date, "value27");
    assert_eq!(record.time_observations_started, "value28");
    assert_eq!(record.observer_id, "value29");
    assert_eq!(record.sampling_event_identifier, "value30");
    assert_eq!(record.protocol_type, "value31");
    assert_eq!(record.protocol_code, "value32");
    assert_eq!(record.project_code, "value33");
    assert_eq!(record.duration_minutes, "value34");
    assert_eq!(record.effort_distance_km, "value35");
    assert_eq!(record.effort_area_ha, "value36");
    assert_eq!(record.number_observers, "value37");
    assert!(record.all_species_reported);
    assert_eq!(record.group_identifier, "value39");
    assert!(!record.has_media);
    assert!(record.approved);
    assert!(!record.reviewed);
    assert_eq!(record.reason, "value43");
    assert_eq!(record.trip_comments, "value44");
    assert_eq!(record.species_comments, "value45");
}

fn assert_records_equal(a: &Record, b: &Record) {
    assert_eq!(a.global_unique_identifier, b.global_unique_identifier);
    assert_eq!(a.last_edited_date, b.last_edited_date);
    assert_eq!(a.taxonomic_order, b.taxonomic_order);
    assert_eq!(a.category, b.category);
    assert_eq!(a.common_name, b.common_name);
    assert_eq!(a.scientific_name, b.scientific_name);
    assert_eq!(a.subspecies_common_name, b.subspecies_common_name);
    assert_eq!(a.subspecies_scientific_name, b.subspecies_scientific_name);
    assert_eq!(a.observation_count, b.observation_count);
    assert_eq!(a.breeding_bird_atlas_code, b.breeding_bird_atlas_code);
    assert_eq!(a.breeding_bird_atlas_category, b.breeding_bird_atlas_category);
    assert_eq!(a.agesex, b.agesex);
    assert_eq!(a.country, b.country);
    assert_eq!(a.country_code, b.country_code);
    assert_eq!(a.state, b.state);
    assert_eq!(a.state_code, b.state_code);
    assert_eq!(a.county, b.county);
    assert_eq!(a.county_code, b.county_code);
    assert_eq!(a.iba_code, b.iba_code);
    assert_eq!(a.bcr_code, b.bcr_code);
    assert_eq!(a.usfws_code, b.usfws_code);
    assert_eq!(a.atlas_block, b.atlas_block);
    assert_eq!(a.locality, b.locality);
    assert_eq!(a.locality_id, b.locality_id);
    assert_eq!(a.locality_type, b.locality_type);
    assert_eq!(a.latitude, b.latitude);
    assert_eq!(a.longitude, b.longitude);
    assert_eq!(a.observation_date, b.observation_date);
    assert_eq!(a.time_observations_started, b.time_observations_started);
    assert_eq!(a.observer_id, b.observer_id);
    assert_eq!(a.sampling_event_identifier, b.sampling_event_identifier);
    assert_eq!(a.protocol_type, b.protocol_type);
    assert_eq!(a.protocol_code, b.protocol_code);
    assert_eq!(a.project_code, b.project_code);
    assert_eq!(a.duration_minutes, b.duration_minutes);
    assert_eq!(a.effort_distance_km, b.effort_distance_km);
    assert_eq!(a.effort_area_ha, b.effort_area_ha);
    assert_eq!(a.number_observers, b.number_observers);
    assert_eq!(a.all_species_reported, b.all_species_reported);
    assert_eq!(a.group_identifier, b.group_identifier);
    assert_eq!(a.has_media, b.has_media);
    assert_eq!(a.approved, b.approved);
    assert_eq!(a.reviewed, b.reviewed);
    assert_eq!(a.reason, b.reason);
    assert_eq!(a.trip_comments, b.trip_comments);
    assert_eq!(a.species_comments, b.species_comments);
}

#[test]
fn header_reordering_is_invariant() {
    let row = default_row();
    let straight = one_row_record(row.clone()).unwrap();

    let mut reversed_header: Vec<&str> = HEADER.to_vec();
    reversed_header.reverse();
    let mut reversed_row = row;
    reversed_row.reverse();
    let mut reader = Reader::from_reader(input_from(&reversed_header, &[reversed_row]));
    assert_eq!(reader.advance(), Ok(true));
    let reordered = reader.read_record().unwrap();

    assert_records_equal(&straight, &reordered);
}

#[test]
fn missing_column_is_error() {
    let keep: Vec<&str> = HEADER.iter().copied().filter(|n| *n != "APPROVED").collect();
    let row: Vec<String> = default_row()
        .into_iter()
        .zip(HEADER.iter())
        .filter(|(_, n)| **n != "APPROVED")
        .map(|(v, _)| v)
        .collect();
    let mut reader = Reader::from_reader(input_from(&keep, &[row]));
    assert_eq!(reader.advance(), Ok(true));
    assert_eq!(reader.read_record().unwrap_err(), DecodeError::MissingColumn);
}

#[test]
fn extra_columns_are_ignored() {
    let mut header: Vec<&str> = HEADER.to_vec();
    header.push("SOMETHING ELSE");
    let mut row = default_row();
    row.push("ignored".to_string());
    let mut reader = Reader::from_reader(input_from(&header, &[row]));
    assert_eq!(reader.advance(), Ok(true));
    let record = reader.read_record().unwrap();
    assert_eq!(record.common_name, "value4");
}

#[test]
fn uneven_row_is_read_error_and_skippable() {
    let mut input = input_from(&HEADER, &[default_row()]);
    input.extend_from_slice(b"too\tshort\n");
    let good = default_row().join("\t");
    input.extend_from_slice(good.as_bytes());
    input.push(b'\n');

    let mut reader = Reader::from_reader(input);
    assert_eq!(reader.advance(), Ok(true));
    assert!(reader.read_record().is_ok());
    assert_eq!(reader.advance(), Err(ReadError::UnevenRow));
    assert_eq!(reader.read_record().unwrap_err(), DecodeError::NoRow);
    assert_eq!(reader.advance(), Ok(true));
    assert!(reader.read_record().is_ok());
    assert_eq!(reader.advance(), Ok(false));
}

#[test]
fn crlf_input_decodes() {
    let mut lines: Vec<String> = Vec::new();
    lines.push(HEADER.join("\t"));
    lines.push(default_row().join("\t"));
    let text = lines.join("\r\n") + "\r\n";
    let mut reader = Reader::from_reader(text.into_bytes());
    assert_eq!(reader.advance(), Ok(true));
    let record = reader.read_record().unwrap();
    assert_eq!(record.species_comments, "value45");
    assert_eq!(reader.advance(), Ok(false));
}

#[test]
fn blank_lines_are_skipped() {
    let mut lines: Vec<String> = Vec::new();
    lines.push(HEADER.join("\t"));
    lines.push(String::new());
    lines.push(default_row().join("\t"));
    lines.push(String::new());
    let text = lines.join("\n") + "\n";
    let mut reader = Reader::from_reader(text.into_bytes());
    assert_eq!(reader.advance(), Ok(true));
    assert!(reader.read_record().is_ok());
    assert_eq!(reader.advance(), Ok(false));
}

#[test]
fn no_trailing_newline_still_reads() {
    let mut lines: Vec<String> = Vec::new();
    lines.push(HEADER.join("\t"));
    lines.push(default_row().join("\t"));
    let text = lines.join("\n");
    let mut reader = Reader::from_reader(text.into_bytes());
    assert_eq!(reader.advance(), Ok(true));
    assert!(reader.read_record().is_ok());
    assert_eq!(reader.advance(), Ok(false));
}

#[test]
fn non_ascii_text_passes_through() {
    let mut row = default_row();
    set(&mut row, "COMMON NAME", "Grünspecht (Σπάνιο)");
    let record = one_row_record(row).unwrap();
    assert_eq!(record.common_name, "Grünspecht (Σπάνιο)");
}

#[test]
fn invalid_utf8_text_is_error() {
    let mut input = Vec::new();
    input.extend_from_slice(HEADER.join("\t").as_bytes());
    input.push(b'\n');
    let mut row = default_row();
    set(&mut row, "LOCALITY", "");
    let joined = row.join("\t");
    // Splice a lone 0xFF byte into the LOCALITY field.
    let locality_pos = HEADER.iter().position(|n| *n == "LOCALITY").unwrap();
    let mut fields: Vec<Vec<u8>> = joined.split('\t').map(|f| f.as_bytes().to_vec()).collect();
    fields[locality_pos] = vec![0xFF];
    input.extend_from_slice(&fields.join(&b'\t'));
    input.push(b'\n');

    let mut reader = Reader::from_reader(input);
    assert_eq!(reader.advance(), Ok(true));
    assert_eq!(reader.read_record().unwrap_err(), DecodeError::InvalidText);
}

#[test]
fn missing_column_wins_over_bad_field() {
    // Drop a column and also corrupt a flag: the missing column is reported.
    let keep: Vec<&str> = HEADER.iter().copied().filter(|n| *n != "STATE").collect();
    let mut row = default_row();
    set(&mut row, "HAS MEDIA", "7");
    let row: Vec<String> = row
        .into_iter()
        .zip(HEADER.iter())
        .filter(|(_, n)| **n != "STATE")
        .map(|(v, _)| v)
        .collect();
    let mut reader = Reader::from_reader(input_from(&keep, &[row]));
    assert_eq!(reader.advance(), Ok(true));
    assert_eq!(reader.read_record().unwrap_err(), DecodeError::MissingColumn);
}
