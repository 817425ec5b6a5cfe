//! The typed record and the decoding of one raw row into it: each schema
//! column is found in the header by name, and its field value is converted
//! according to the column's declared type.

use vstd::prelude::*;

use crate::schema::SCHEMA_LEN;
use crate::schema::col_index;
use crate::schema::find_col;
use crate::schema::schema_name;
use crate::schema::schema_name_at;
use crate::values::Decimal;
use crate::values::bool_token;
use crate::values::decimal_token;
use crate::values::parse_bool;
use crate::values::parse_decimal;
use vstd::utf8::decode_utf8;
use vstd::utf8::valid_utf8;

verus! {

/// Why one row could not be decoded into a record.
#[derive(Clone, Copy, Debug, PartialEq, Eq, Structural)]
pub enum DecodeError {
    /// A column that the schema requires does not appear in the header.
    MissingColumn,
    /// A text field does not hold valid UTF-8.
    InvalidText,
    /// A coordinate field does not hold a decimal number.
    InvalidNumber,
    /// A flag field does not hold the integer 0 or 1.
    InvalidBool,
    /// No row is current: `advance` has not been called, failed, or
    /// returned false.
    NoRow,
}

/// One decoded observation: every schema column as a typed field. Text
/// fields are owned strings, passed through verbatim; coordinates are
/// exact decimals; flags are booleans decoded from 0/1 tokens.
#[derive(Clone, Debug)]
pub struct Record {
    pub global_unique_identifier: String,
    pub last_edited_date: String,
    pub taxonomic_order: String,
    pub category: String,
    pub common_name: String,
    pub scientific_name: String,
    pub subspecies_common_name: String,
    pub subspecies_scientific_name: String,
    pub observation_count: String,
    pub breeding_bird_atlas_code: String,
    pub breeding_bird_atlas_category: String,
    pub agesex: String,
    pub country: String,
    pub country_code: String,
    pub state: String,
    pub state_code: String,
    pub county: String,
    pub county_code: String,
    pub iba_code: String,
    pub bcr_code: String,
    pub usfws_code: String,
    pub atlas_block: String,
    pub locality: String,
    pub locality_id: String,
    pub locality_type: String,
    pub latitude: Decimal,
    pub longitude: Decimal,
    pub observation_date: String,
    pub time_observations_started: String,
    pub observer_id: String,
    pub sampling_event_identifier: String,
    pub protocol_type: String,
    pub protocol_code: String,
    pub project_code: String,
    pub duration_minutes: String,
    pub effort_distance_km: String,
    pub effort_area_ha: String,
    pub number_observers: String,
    pub all_species_reported: bool,
    pub group_identifier: String,
    pub has_media: bool,
    pub approved: bool,
    pub reviewed: bool,
    pub reason: String,
    pub trip_comments: String,
    pub species_comments: String,
}

/// The mathematical content of a record: each text field as its character
/// sequence.
pub struct RecordV {
    pub global_unique_identifier: Seq<char>,
    pub last_edited_date: Seq<char>,
    pub taxonomic_order: Seq<char>,
    pub category: Seq<char>,
    pub common_name: Seq<char>,
    pub scientific_name: Seq<char>,
    pub subspecies_common_name: Seq<char>,
    pub subspecies_scientific_name: Seq<char>,
    pub observation_count: Seq<char>,
    pub breeding_bird_atlas_code: Seq<char>,
    pub breeding_bird_atlas_category: Seq<char>,
    pub agesex: Seq<char>,
    pub country: Seq<char>,
    pub country_code: Seq<char>,
    pub state: Seq<char>,
    pub state_code: Seq<char>,
    pub county: Seq<char>,
    pub county_code: Seq<char>,
    pub iba_code: Seq<char>,
    pub bcr_code: Seq<char>,
    pub usfws_code: Seq<char>,
    pub atlas_block: Seq<char>,
    pub locality: Seq<char>,
    pub locality_id: Seq<char>,
    pub locality_type: Seq<char>,
    pub latitude: Decimal,
    pub longitude: Decimal,
    pub observation_date: Seq<char>,
    pub time_observations_started: Seq<char>,
    pub observer_id: Seq<char>,
    pub sampling_event_identifier: Seq<char>,
    pub protocol_type: Seq<char>,
    pub protocol_code: Seq<char>,
    pub project_code: Seq<char>,
    pub duration_minutes: Seq<char>,
    pub effort_distance_km: Seq<char>,
    pub effort_area_ha: Seq<char>,
    pub number_observers: Seq<char>,
    pub all_species_reported: bool,
    pub group_identifier: Seq<char>,
    pub has_media: bool,
    pub approved: bool,
    pub reviewed: bool,
    pub reason: Seq<char>,
    pub trip_comments: Seq<char>,
    pub species_comments: Seq<char>,
}

impl View for Record {
    type V = RecordV;

    open spec fn view(&self) -> RecordV {
        RecordV {
            global_unique_identifier: self.global_unique_identifier@,
            last_edited_date: self.last_edited_date@,
            taxonomic_order: self.taxonomic_order@,
            category: self.category@,
            common_name: self.common_name@,
            scientific_name: self.scientific_name@,
            subspecies_common_name: self.subspecies_common_name@,
            subspecies_scientific_name: self.subspecies_scientific_name@,
            observation_count: self.observation_count@,
            breeding_bird_atlas_code: self.breeding_bird_atlas_code@,
            breeding_bird_atlas_category: self.breeding_bird_atlas_category@,
            agesex: self.agesex@,
            country: self.country@,
            country_code: self.country_code@,
            state: self.state@,
            state_code: self.state_code@,
            county: self.county@,
            county_code: self.county_code@,
            iba_code: self.iba_code@,
            bcr_code: self.bcr_code@,
            usfws_code: self.usfws_code@,
            atlas_block: self.atlas_block@,
            locality: self.locality@,
            locality_id: self.locality_id@,
            locality_type: self.locality_type@,
            latitude: self.latitude,
            longitude: self.longitude,
            observation_date: self.observation_date@,
            time_observations_started: self.time_observations_started@,
            observer_id: self.observer_id@,
            sampling_event_identifier: self.sampling_event_identifier@,
            protocol_type: self.protocol_type@,
            protocol_code: self.protocol_code@,
            project_code: self.project_code@,
            duration_minutes: self.duration_minutes@,
            effort_distance_km: self.effort_distance_km@,
            effort_area_ha: self.effort_area_ha@,
            number_observers: self.number_observers@,
            all_species_reported: self.all_species_reported,
            group_identifier: self.group_identifier@,
            has_media: self.has_media,
            approved: self.approved,
            reviewed: self.reviewed,
            reason: self.reason@,
            trip_comments: self.trip_comments@,
            species_comments: self.species_comments@,
        }
    }
}

/// The raw bytes of the field under a named column, if the column appears
/// in the header and the row is long enough to have it.
pub open spec fn field_bytes(h: Seq<Seq<u8>>, row: Seq<Seq<u8>>, name: Seq<u8>) -> Option<
    Seq<u8>,
> {
    match col_index(h, name) {
        None => None,
        Some(j) => if j < row.len() {
            Some(row[j])
        } else {
            None
        },
    }
}

/// What a named text column holds in a row: its bytes decoded as UTF-8.
pub open spec fn text_field(h: Seq<Seq<u8>>, row: Seq<Seq<u8>>, name: Seq<u8>) -> Result<
    Seq<char>,
    DecodeError,
> {
    match field_bytes(h, row, name) {
        None => Err(DecodeError::MissingColumn),
        Some(b) => if valid_utf8(b) {
            Ok(decode_utf8(b))
        } else {
            Err(DecodeError::InvalidText)
        },
    }
}

/// What a named coordinate column holds in a row: its decimal value.
pub open spec fn decimal_field(h: Seq<Seq<u8>>, row: Seq<Seq<u8>>, name: Seq<u8>) -> Result<
    Decimal,
    DecodeError,
> {
    match field_bytes(h, row, name) {
        None => Err(DecodeError::MissingColumn),
        Some(b) => match decimal_token(b) {
            None => Err(DecodeError::InvalidNumber),
            Some(d) => Ok(d),
        },
    }
}

/// What a named flag column holds in a row: its 0/1 boolean value.
pub open spec fn bool_field(h: Seq<Seq<u8>>, row: Seq<Seq<u8>>, name: Seq<u8>) -> Result<
    bool,
    DecodeError,
> {
    match field_bytes(h, row, name) {
        None => Err(DecodeError::MissingColumn),
        Some(b) => match bool_token(b) {
            None => Err(DecodeError::InvalidBool),
            Some(v) => Ok(v),
        },
    }
}

/// Every schema column appears in the header and has a field in the row.
pub open spec fn columns_present(h: Seq<Seq<u8>>, row: Seq<Seq<u8>>) -> bool {
    forall|m: int| 0 <= m < SCHEMA_LEN ==> field_bytes(h, row, #[trigger] schema_name(m)) is Some
}

/// Every text field of the row decodes as UTF-8.
pub open spec fn texts_ok(h: Seq<Seq<u8>>, row: Seq<Seq<u8>>) -> bool {
    text_field(h, row, schema_name(0)) is Ok && text_field(h, row, schema_name(1)) is Ok && text_field(h, row, schema_name(2)) is Ok && text_field(h, row, schema_name(3)) is Ok && text_field(h, row, schema_name(4)) is Ok && text_field(h, row, schema_name(5)) is Ok && text_field(h, row, schema_name(6)) is Ok && text_field(h, row, schema_name(7)) is Ok && text_field(h, row, schema_name(8)) is Ok && text_field(h, row, schema_name(9)) is Ok && text_field(h, row, schema_name(10)) is Ok && text_field(h, row, schema_name(11)) is Ok && text_field(h, row, schema_name(12)) is Ok && text_field(h, row, schema_name(13)) is Ok && text_field(h, row, schema_name(14)) is Ok && text_field(h, row, schema_name(15)) is Ok && text_field(h, row, schema_name(16)) is Ok && text_field(h, row, schema_name(17)) is Ok && text_field(h, row, schema_name(18)) is Ok && text_field(h, row, schema_name(19)) is Ok && text_field(h, row, schema_name(20)) is Ok && text_field(h, row, schema_name(21)) is Ok && text_field(h, row, schema_name(22)) is Ok && text_field(h, row, schema_name(23)) is Ok && text_field(h, row, schema_name(24)) is Ok && text_field(h, row, schema_name(27)) is Ok && text_field(h, row, schema_name(28)) is Ok && text_field(h, row, schema_name(29)) is Ok && text_field(h, row, schema_name(30)) is Ok && text_field(h, row, schema_name(31)) is Ok && text_field(h, row, schema_name(32)) is Ok && text_field(h, row, schema_name(33)) is Ok && text_field(h, row, schema_name(34)) is Ok && text_field(h, row, schema_name(35)) is Ok && text_field(h, row, schema_name(36)) is Ok && text_field(h, row, schema_name(37)) is Ok && text_field(h, row, schema_name(39)) is Ok && text_field(h, row, schema_name(43)) is Ok && text_field(h, row, schema_name(44)) is Ok && text_field(h, row, schema_name(45)) is Ok
}

/// Both coordinate fields of the row hold decimal numbers.
pub open spec fn numbers_ok(h: Seq<Seq<u8>>, row: Seq<Seq<u8>>) -> bool {
    decimal_field(h, row, schema_name(25)) is Ok && decimal_field(h, row, schema_name(26)) is Ok
}

/// Every flag field of the row holds the integer 0 or 1.
pub open spec fn bools_ok(h: Seq<Seq<u8>>, row: Seq<Seq<u8>>) -> bool {
    bool_field(h, row, schema_name(38)) is Ok && bool_field(h, row, schema_name(40)) is Ok && bool_field(h, row, schema_name(41)) is Ok && bool_field(h, row, schema_name(42)) is Ok
}

/// Whether a row decodes into a record under a header.
pub open spec fn row_ok(h: Seq<Seq<u8>>, row: Seq<Seq<u8>>) -> bool {
    columns_present(h, row) && texts_ok(h, row) && numbers_ok(h, row) && bools_ok(h, row)
}

/// The error reported for a row that does not decode: a missing column is
/// reported first, then a text encoding fault, then a malformed coordinate,
/// then a malformed flag.
pub open spec fn row_error(h: Seq<Seq<u8>>, row: Seq<Seq<u8>>) -> DecodeError {
    if !columns_present(h, row) {
        DecodeError::MissingColumn
    } else if !texts_ok(h, row) {
        DecodeError::InvalidText
    } else if !numbers_ok(h, row) {
        DecodeError::InvalidNumber
    } else {
        DecodeError::InvalidBool
    }
}

/// The record a decodable row denotes.
pub open spec fn spec_record(h: Seq<Seq<u8>>, row: Seq<Seq<u8>>) -> RecordV {
    RecordV {
        global_unique_identifier: text_field(h, row, schema_name(0))->Ok_0,
        last_edited_date: text_field(h, row, schema_name(1))->Ok_0,
        taxonomic_order: text_field(h, row, schema_name(2))->Ok_0,
        category: text_field(h, row, schema_name(3))->Ok_0,
        common_name: text_field(h, row, schema_name(4))->Ok_0,
        scientific_name: text_field(h, row, schema_name(5))->Ok_0,
        subspecies_common_name: text_field(h, row, schema_name(6))->Ok_0,
        subspecies_scientific_name: text_field(h, row, schema_name(7))->Ok_0,
        observation_count: text_field(h, row, schema_name(8))->Ok_0,
        breeding_bird_atlas_code: text_field(h, row, schema_name(9))->Ok_0,
        breeding_bird_atlas_category: text_field(h, row, schema_name(10))->Ok_0,
        agesex: text_field(h, row, schema_name(11))->Ok_0,
        country: text_field(h, row, schema_name(12))->Ok_0,
        country_code: text_field(h, row, schema_name(13))->Ok_0,
        state: text_field(h, row, schema_name(14))->Ok_0,
        state_code: text_field(h, row, schema_name(15))->Ok_0,
        county: text_field(h, row, schema_name(16))->Ok_0,
        county_code: text_field(h, row, schema_name(17))->Ok_0,
        iba_code: text_field(h, row, schema_name(18))->Ok_0,
        bcr_code: text_field(h, row, schema_name(19))->Ok_0,
        usfws_code: text_field(h, row, schema_name(20))->Ok_0,
        atlas_block: text_field(h, row, schema_name(21))->Ok_0,
        locality: text_field(h, row, schema_name(22))->Ok_0,
        locality_id: text_field(h, row, schema_name(23))->Ok_0,
        locality_type: text_field(h, row, schema_name(24))->Ok_0,
        latitude: decimal_field(h, row, schema_name(25))->Ok_0,
        longitude: decimal_field(h, row, schema_name(26))->Ok_0,
        observation_date: text_field(h, row, schema_name(27))->Ok_0,
        time_observations_started: text_field(h, row, schema_name(28))->Ok_0,
        observer_id: text_field(h, row, schema_name(29))->Ok_0,
        sampling_event_identifier: text_field(h, row, schema_name(30))->Ok_0,
        protocol_type: text_field(h, row, schema_name(31))->Ok_0,
        protocol_code: text_field(h, row, schema_name(32))->Ok_0,
        project_code: text_field(h, row, schema_name(33))->Ok_0,
        duration_minutes: text_field(h, row, schema_name(34))->Ok_0,
        effort_distance_km: text_field(h, row, schema_name(35))->Ok_0,
        effort_area_ha: text_field(h, row, schema_name(36))->Ok_0,
        number_observers: text_field(h, row, schema_name(37))->Ok_0,
        all_species_reported: bool_field(h, row, schema_name(38))->Ok_0,
        group_identifier: text_field(h, row, schema_name(39))->Ok_0,
        has_media: bool_field(h, row, schema_name(40))->Ok_0,
        approved: bool_field(h, row, schema_name(41))->Ok_0,
        reviewed: bool_field(h, row, schema_name(42))->Ok_0,
        reason: text_field(h, row, schema_name(43))->Ok_0,
        trip_comments: text_field(h, row, schema_name(44))->Ok_0,
        species_comments: text_field(h, row, schema_name(45))->Ok_0,
    }
}

/// What decoding one row yields: the denoted record when the row decodes,
/// and the reported error otherwise.
pub open spec fn decode_row(h: Seq<Seq<u8>>, row: Seq<Seq<u8>>) -> Result<RecordV, DecodeError> {
    if row_ok(h, row) {
        Ok(spec_record(h, row))
    } else {
        Err(row_error(h, row))
    }
}

/// Some position of `p` maps to `j`.
pub open spec fn covers(p: Seq<int>, j: int) -> bool {
    exists|i: int| 0 <= i < p.len() && #[trigger] p[i] == j
}

/// Under a rearrangement of distinctly named columns, every name resolves
/// to the same field value.
proof fn lemma_field_bytes_reorder(
    h1: Seq<Seq<u8>>,
    r1: Seq<Seq<u8>>,
    h2: Seq<Seq<u8>>,
    r2: Seq<Seq<u8>>,
    p: Seq<int>,
    name: Seq<u8>,
)
    requires
        r1.len() == h1.len(),
        r2.len() == h2.len(),
        p.len() == h2.len(),
        forall|i: int| 0 <= i < p.len() ==> 0 <= #[trigger] p[i] < h1.len(),
        forall|i: int| 0 <= i < p.len() ==> h2[i] == h1[#[trigger] p[i]] && r2[i] == r1[p[i]],
        forall|j: int| 0 <= j < h1.len() ==> #[trigger] covers(p, j),
        forall|a: int, b: int| 0 <= a < b < h1.len() ==> h1[a] != h1[b],
    ensures
        field_bytes(h2, r2, name) == field_bytes(h1, r1, name),
{
    crate::schema::lemma_col_index(h1, name);
    crate::schema::lemma_col_index(h2, name);
    match col_index(h1, name) {
        Some(j) => {
            assert(covers(p, j));
            let i = choose|i: int| 0 <= i < p.len() && #[trigger] p[i] == j;
            assert(h2[i] == name);
            match col_index(h2, name) {
                Some(i2) => {
                    assert(h1[p[i2]] == name);
                    if p[i2] < j {
                        assert(h1[p[i2]] != h1[j]);
                    } else if j < p[i2] {
                        assert(h1[j] != h1[p[i2]]);
                    }
                    assert(r2[i2] == r1[j]);
                },
                None => {
                    assert(h2[i] != name);
                },
            }
        },
        None => {
            match col_index(h2, name) {
                Some(i2) => {
                    assert(h1[p[i2]] == name);
                    assert(h1[p[i2]] != name);
                },
                None => {},
            }
        },
    }
}

/// Law: decoding does not depend on column order. When one file's header
/// and data row are, column for column, a rearrangement of another's —
/// every column of the first appears in the second with the same field
/// value, and no two columns share a name — the two rows decode to the
/// same record, or fail with the same error.
pub proof fn lemma_header_reorder(
    h1: Seq<Seq<u8>>,
    r1: Seq<Seq<u8>>,
    h2: Seq<Seq<u8>>,
    r2: Seq<Seq<u8>>,
    p: Seq<int>,
)
    requires
        r1.len() == h1.len(),
        r2.len() == h2.len(),
        p.len() == h2.len(),
        forall|i: int| 0 <= i < p.len() ==> 0 <= #[trigger] p[i] < h1.len(),
        forall|i: int| 0 <= i < p.len() ==> h2[i] == h1[#[trigger] p[i]] && r2[i] == r1[p[i]],
        forall|j: int| 0 <= j < h1.len() ==> #[trigger] covers(p, j),
        forall|a: int, b: int| 0 <= a < b < h1.len() ==> h1[a] != h1[b],
    ensures
        decode_row(h1, r1) == decode_row(h2, r2),
{
    assert forall|m: int| 0 <= m < SCHEMA_LEN implies field_bytes(
        h2,
        r2,
        #[trigger] schema_name(m),
    ) == field_bytes(h1, r1, schema_name(m)) by {
        lemma_field_bytes_reorder(h1, r1, h2, r2, p, schema_name(m));
    }
    assert(columns_present(h1, r1) == columns_present(h2, r2));
    assert(texts_ok(h1, r1) == texts_ok(h2, r2));
    assert(numbers_ok(h1, r1) == numbers_ok(h2, r2));
    assert(bools_ok(h1, r1) == bools_ok(h2, r2));
    if row_ok(h1, r1) {
        assert(spec_record(h1, r1) == spec_record(h2, r2));
    }
}

/// Relies on `String::from_utf8`: it returns `Ok` exactly when the bytes
/// are a valid UTF-8 encoding, and the string then holds their decoded
/// characters.
#[verifier::external_body]
fn string_from_utf8(bytes: Vec<u8>) -> (r: Option<String>)
    ensures
        r is Some <==> valid_utf8(bytes@),
        r matches Some(s) ==> s@ == decode_utf8(bytes@),
{
    match String::from_utf8(bytes) {
        Ok(s) => Some(s),
        Err(_) => None,
    }
}

/// Copies a field's bytes out of the row buffer.
fn copy_bytes(v: &Vec<u8>) -> (r: Vec<u8>)
    ensures
        r@ == v@,
{
    let mut out: Vec<u8> = Vec::new();
    let mut i: usize = 0;
    while i < v.len()
        invariant
            0 <= i <= v.len(),
            out@ == v@.take(i as int),
        decreases v.len() - i,
    {
        out.push(v[i]);
        proof {
            assert(v@.take(i as int).push(v@[i as int]) =~= v@.take(i as int + 1));
        }
        i = i + 1;
    }
    proof {
        assert(v@.take(v@.len() as int) =~= v@);
    }
    out
}

/// Decodes the text field of the schema's `i`-th column.
fn get_text(header: &Vec<Vec<u8>>, row: &Vec<Vec<u8>>, i: usize) -> (r: Result<
    String,
    DecodeError,
>)
    requires
        i < SCHEMA_LEN,
    ensures
        match r {
            Ok(s) => text_field(header.deep_view(), row.deep_view(), schema_name(i as int))
                == Ok::<Seq<char>, DecodeError>(s@),
            Err(e) => text_field(header.deep_view(), row.deep_view(), schema_name(i as int))
                == Err::<Seq<char>, DecodeError>(e),
        },
{
    let name = schema_name_at(i);
    match find_col(header, name.as_bytes()) {
        None => Err(DecodeError::MissingColumn),
        Some(j) => {
            if j >= row.len() {
                return Err(DecodeError::MissingColumn);
            }
            proof {
                assert(row.deep_view()[j as int] =~= row@[j as int]@);
            }
            let bytes = copy_bytes(&row[j]);
            match string_from_utf8(bytes) {
                None => Err(DecodeError::InvalidText),
                Some(s) => Ok(s),
            }
        },
    }
}

/// Decodes the coordinate field of the schema's `i`-th column.
fn get_decimal(header: &Vec<Vec<u8>>, row: &Vec<Vec<u8>>, i: usize) -> (r: Result<
    Decimal,
    DecodeError,
>)
    requires
        i < SCHEMA_LEN,
    ensures
        match r {
            Ok(d) => decimal_field(header.deep_view(), row.deep_view(), schema_name(i as int))
                == Ok::<Decimal, DecodeError>(d),
            Err(e) => decimal_field(header.deep_view(), row.deep_view(), schema_name(i as int))
                == Err::<Decimal, DecodeError>(e),
        },
{
    let name = schema_name_at(i);
    match find_col(header, name.as_bytes()) {
        None => Err(DecodeError::MissingColumn),
        Some(j) => {
            if j >= row.len() {
                return Err(DecodeError::MissingColumn);
            }
            proof {
                assert(row.deep_view()[j as int] =~= row@[j as int]@);
            }
            match parse_decimal(&row[j]) {
                None => Err(DecodeError::InvalidNumber),
                Some(d) => Ok(d),
            }
        },
    }
}

/// Decodes the flag field of the schema's `i`-th column.
fn get_bool(header: &Vec<Vec<u8>>, row: &Vec<Vec<u8>>, i: usize) -> (r: Result<
    bool,
    DecodeError,
>)
    requires
        i < SCHEMA_LEN,
    ensures
        match r {
            Ok(v) => bool_field(header.deep_view(), row.deep_view(), schema_name(i as int))
                == Ok::<bool, DecodeError>(v),
            Err(e) => bool_field(header.deep_view(), row.deep_view(), schema_name(i as int))
                == Err::<bool, DecodeError>(e),
        },
{
    let name = schema_name_at(i);
    match find_col(header, name.as_bytes()) {
        None => Err(DecodeError::MissingColumn),
        Some(j) => {
            if j >= row.len() {
                return Err(DecodeError::MissingColumn);
            }
            proof {
                assert(row.deep_view()[j as int] =~= row@[j as int]@);
            }
            match parse_bool(&row[j]) {
                None => Err(DecodeError::InvalidBool),
                Some(v) => Ok(v),
            }
        },
    }
}

/// Decodes one raw row into a typed record under the given header: the
/// result matches `decode_row` on the row exactly.
#[verifier::rlimit(60)]
pub fn decode_record(header: &Vec<Vec<u8>>, row: &Vec<Vec<u8>>) -> (r: Result<
    Record,
    DecodeError,
>)
    ensures
        match r {
            Ok(rec) => decode_row(header.deep_view(), row.deep_view()) == Ok::<
                RecordV,
                DecodeError,
            >(rec@),
            Err(e) => decode_row(header.deep_view(), row.deep_view()) == Err::<
                RecordV,
                DecodeError,
            >(e),
        },
{
    let mut k: usize = 0;
    while k < SCHEMA_LEN
        invariant
            0 <= k <= SCHEMA_LEN,
            forall|m: int| 0 <= m < k ==> field_bytes(
                header.deep_view(),
                row.deep_view(),
                #[trigger] schema_name(m),
            ) is Some,
        decreases SCHEMA_LEN - k,
    {
        let name = schema_name_at(k);
        let missing = match find_col(header, name.as_bytes()) {
            None => true,
            Some(j) => j >= row.len(),
        };
        if missing {
            proof {
                assert(field_bytes(
                    header.deep_view(),
                    row.deep_view(),
                    schema_name(k as int),
                ) is None);
            }
            return Err(DecodeError::MissingColumn);
        }
        k = k + 1;
    }
    let global_unique_identifier = match get_text(header, row, 0) {
        Ok(s) => s,
        Err(e) => {
            return Err(e);
        },
    };
    let last_edited_date = match get_text(header, row, 1) {
        Ok(s) => s,
        Err(e) => {
            return Err(e);
        },
    };
    let taxonomic_order = match get_text(header, row, 2) {
        Ok(s) => s,
        Err(e) => {
            return Err(e);
        },
    };
    let category = match get_text(header, row, 3) {
        Ok(s) => s,
        Err(e) => {
            return Err(e);
        },
    };
    let common_name = match get_text(header, row, 4) {
        Ok(s) => s,
        Err(e) => {
            return Err(e);
        },
    };
    let scientific_name = match get_text(header, row, 5) {
        Ok(s) => s,
        Err(e) => {
            return Err(e);
        },
    };
    let subspecies_common_name = match get_text(header, row, 6) {
        Ok(s) => s,
        Err(e) => {
            return Err(e);
        },
    };
    let subspecies_scientific_name = match get_text(header, row, 7) {
        Ok(s) => s,
        Err(e) => {
            return Err(e);
        },
    };
    let observation_count = match get_text(header, row, 8) {
        Ok(s) => s,
        Err(e) => {
            return Err(e);
        },
    };
    let breeding_bird_atlas_code = match get_text(header, row, 9) {
        Ok(s) => s,
        Err(e) => {
            return Err(e);
        },
    };
    let breeding_bird_atlas_category = match get_text(header, row, 10) {
        Ok(s) => s,
        Err(e) => {
            return Err(e);
        },
    };
    let agesex = match get_text(header, row, 11) {
        Ok(s) => s,
        Err(e) => {
            return Err(e);
        },
    };
    let country = match get_text(header, row, 12) {
        Ok(s) => s,
        Err(e) => {
            return Err(e);
        },
    };
    let country_code = match get_text(header, row, 13) {
        Ok(s) => s,
        Err(e) => {
            return Err(e);
        },
    };
    let state = match get_text(header, row, 14) {
        Ok(s) => s,
        Err(e) => {
            return Err(e);
        },
    };
    let state_code = match get_text(header, row, 15) {
        Ok(s) => s,
        Err(e) => {
            return Err(e);
        },
    };
    let county = match get_text(header, row, 16) {
        Ok(s) => s,
        Err(e) => {
            return Err(e);
        },
    };
    let county_code = match get_text(header, row, 17) {
        Ok(s) => s,
        Err(e) => {
            return Err(e);
        },
    };
    let iba_code = match get_text(header, row, 18) {
        Ok(s) => s,
        Err(e) => {
            return Err(e);
        },
    };
    let bcr_code = match get_text(header, row, 19) {
        Ok(s) => s,
        Err(e) => {
            return Err(e);
        },
    };
    let usfws_code = match get_text(header, row, 20) {
        Ok(s) => s,
        Err(e) => {
            return Err(e);
        },
    };
    let atlas_block = match get_text(header, row, 21) {
        Ok(s) => s,
        Err(e) => {
            return Err(e);
        },
    };
    let locality = match get_text(header, row, 22) {
        Ok(s) => s,
        Err(e) => {
            return Err(e);
        },
    };
    let locality_id = match get_text(header, row, 23) {
        Ok(s) => s,
        Err(e) => {
            return Err(e);
        },
    };
    let locality_type = match get_text(header, row, 24) {
        Ok(s) => s,
        Err(e) => {
            return Err(e);
        },
    };
    let observation_date = match get_text(header, row, 27) {
        Ok(s) => s,
        Err(e) => {
            return Err(e);
        },
    };
    let time_observations_started = match get_text(header, row, 28) {
        Ok(s) => s,
        Err(e) => {
            return Err(e);
        },
    };
    let observer_id = match get_text(header, row, 29) {
        Ok(s) => s,
        Err(e) => {
            return Err(e);
        },
    };
    let sampling_event_identifier = match get_text(header, row, 30) {
        Ok(s) => s,
        Err(e) => {
            return Err(e);
        },
    };
    let protocol_type = match get_text(header, row, 31) {
        Ok(s) => s,
        Err(e) => {
            return Err(e);
        },
    };
    let protocol_code = match get_text(header, row, 32) {
        Ok(s) => s,
        Err(e) => {
            return Err(e);
        },
    };
    let project_code = match get_text(header, row, 33) {
        Ok(s) => s,
        Err(e) => {
            return Err(e);
        },
    };
    let duration_minutes = match get_text(header, row, 34) {
        Ok(s) => s,
        Err(e) => {
            return Err(e);
        },
    };
    let effort_distance_km = match get_text(header, row, 35) {
        Ok(s) => s,
        Err(e) => {
            return Err(e);
        },
    };
    let effort_area_ha = match get_text(header, row, 36) {
        Ok(s) => s,
        Err(e) => {
            return Err(e);
        },
    };
    let number_observers = match get_text(header, row, 37) {
        Ok(s) => s,
        Err(e) => {
            return Err(e);
        },
    };
    let group_identifier = match get_text(header, row, 39) {
        Ok(s) => s,
        Err(e) => {
            return Err(e);
        },
    };
    let reason = match get_text(header, row, 43) {
        Ok(s) => s,
        Err(e) => {
            return Err(e);
        },
    };
    let trip_comments = match get_text(header, row, 44) {
        Ok(s) => s,
        Err(e) => {
            return Err(e);
        },
    };
    let species_comments = match get_text(header, row, 45) {
        Ok(s) => s,
        Err(e) => {
            return Err(e);
        },
    };
    let latitude = match get_decimal(header, row, 25) {
        Ok(d) => d,
        Err(e) => {
            return Err(e);
        },
    };
    let longitude = match get_decimal(header, row, 26) {
        Ok(d) => d,
        Err(e) => {
            return Err(e);
        },
    };
    let all_species_reported = match get_bool(header, row, 38) {
        Ok(b) => b,
        Err(e) => {
            return Err(e);
        },
    };
    let has_media = match get_bool(header, row, 40) {
        Ok(b) => b,
        Err(e) => {
            return Err(e);
        },
    };
    let approved = match get_bool(header, row, 41) {
        Ok(b) => b,
        Err(e) => {
            return Err(e);
        },
    };
    let reviewed = match get_bool(header, row, 42) {
        Ok(b) => b,
        Err(e) => {
            return Err(e);
        },
    };
    let rec = Record {
        global_unique_identifier,
        last_edited_date,
        taxonomic_order,
        category,
        common_name,
        scientific_name,
        subspecies_common_name,
        subspecies_scientific_name,
        observation_count,
        breeding_bird_atlas_code,
        breeding_bird_atlas_category,
        agesex,
        country,
        country_code,
        state,
        state_code,
        county,
        county_code,
        iba_code,
        bcr_code,
        usfws_code,
        atlas_block,
        locality,
        locality_id,
        locality_type,
        latitude,
        longitude,
        observation_date,
        time_observations_started,
        observer_id,
        sampling_event_identifier,
        protocol_type,
        protocol_code,
        project_code,
        duration_minutes,
        effort_distance_km,
        effort_area_ha,
        number_observers,
        all_species_reported,
        group_identifier,
        has_media,
        approved,
        reviewed,
        reason,
        trip_comments,
        species_comments,
    };
    Ok(rec)
}

} // verus!
