//! The fixed column schema: the canonical header names, in their declared
//! order, and the lookup of a named column's position in a header row.

use vstd::prelude::*;

use vstd::string::StringSliceAdditionalSpecFns;

verus! {

/// How many named columns the schema declares.
pub const SCHEMA_LEN: usize = 46;

/// The canonical byte string of the schema's `i`-th column name.
pub open spec fn schema_name(i: int) -> Seq<u8> {
    if i == 0 {
        "GLOBAL UNIQUE IDENTIFIER".spec_bytes()
    } else if i == 1 {
        "LAST EDITED DATE".spec_bytes()
    } else if i == 2 {
        "TAXONOMIC ORDER".spec_bytes()
    } else if i == 3 {
        "CATEGORY".spec_bytes()
    } else if i == 4 {
        "COMMON NAME".spec_bytes()
    } else if i == 5 {
        "SCIENTIFIC NAME".spec_bytes()
    } else if i == 6 {
        "SUBSPECIES COMMON NAME".spec_bytes()
    } else if i == 7 {
        "SUBSPECIES SCIENTIFIC NAME".spec_bytes()
    } else if i == 8 {
        "OBSERVATION COUNT".spec_bytes()
    } else if i == 9 {
        "BREEDING BIRD ATLAS CODE".spec_bytes()
    } else if i == 10 {
        "BREEDING BIRD ATLAS CATEGORY".spec_bytes()
    } else if i == 11 {
        "AGE/SEX".spec_bytes()
    } else if i == 12 {
        "COUNTRY".spec_bytes()
    } else if i == 13 {
        "COUNTRY CODE".spec_bytes()
    } else if i == 14 {
        "STATE".spec_bytes()
    } else if i == 15 {
        "STATE CODE".spec_bytes()
    } else if i == 16 {
        "COUNTY".spec_bytes()
    } else if i == 17 {
        "COUNTY CODE".spec_bytes()
    } else if i == 18 {
        "IBA CODE".spec_bytes()
    } else if i == 19 {
        "BCR CODE".spec_bytes()
    } else if i == 20 {
        "USFWS CODE".spec_bytes()
    } else if i == 21 {
        "ATLAS BLOCK".spec_bytes()
    } else if i == 22 {
        "LOCALITY".spec_bytes()
    } else if i == 23 {
        "LOCALITY ID".spec_bytes()
    } else if i == 24 {
        "LOCALITY TYPE".spec_bytes()
    } else if i == 25 {
        "LATITUDE".spec_bytes()
    } else if i == 26 {
        "LONGITUDE".spec_bytes()
    } else if i == 27 {
        "OBSERVATION DATE".spec_bytes()
    } else if i == 28 {
        "TIME OBSERVATIONS STARTED".spec_bytes()
    } else if i == 29 {
        "OBSERVER ID".spec_bytes()
    } else if i == 30 {
        "SAMPLING EVENT IDENTIFIER".spec_bytes()
    } else if i == 31 {
        "PROTOCOL TYPE".spec_bytes()
    } else if i == 32 {
        "PROTOCOL CODE".spec_bytes()
    } else if i == 33 {
        "PROJECT CODE".spec_bytes()
    } else if i == 34 {
        "DURATION MINUTES".spec_bytes()
    } else if i == 35 {
        "EFFORT DISTANCE KM".spec_bytes()
    } else if i == 36 {
        "EFFORT AREA HA".spec_bytes()
    } else if i == 37 {
        "NUMBER OBSERVERS".spec_bytes()
    } else if i == 38 {
        "ALL SPECIES REPORTED".spec_bytes()
    } else if i == 39 {
        "GROUP IDENTIFIER".spec_bytes()
    } else if i == 40 {
        "HAS MEDIA".spec_bytes()
    } else if i == 41 {
        "APPROVED".spec_bytes()
    } else if i == 42 {
        "REVIEWED".spec_bytes()
    } else if i == 43 {
        "REASON".spec_bytes()
    } else if i == 44 {
        "TRIP COMMENTS".spec_bytes()
    } else if i == 45 {
        "SPECIES COMMENTS".spec_bytes()
    } else {
        Seq::<u8>::empty()
    }
}

/// The schema's `i`-th column name.
pub fn schema_name_at(i: usize) -> (r: &'static str)
    requires
        i < SCHEMA_LEN,
    ensures
        r.spec_bytes() == schema_name(i as int),
{
    if i == 0 {
        "GLOBAL UNIQUE IDENTIFIER"
    } else if i == 1 {
        "LAST EDITED DATE"
    } else if i == 2 {
        "TAXONOMIC ORDER"
    } else if i == 3 {
        "CATEGORY"
    } else if i == 4 {
        "COMMON NAME"
    } else if i == 5 {
        "SCIENTIFIC NAME"
    } else if i == 6 {
        "SUBSPECIES COMMON NAME"
    } else if i == 7 {
        "SUBSPECIES SCIENTIFIC NAME"
    } else if i == 8 {
        "OBSERVATION COUNT"
    } else if i == 9 {
        "BREEDING BIRD ATLAS CODE"
    } else if i == 10 {
        "BREEDING BIRD ATLAS CATEGORY"
    } else if i == 11 {
        "AGE/SEX"
    } else if i == 12 {
        "COUNTRY"
    } else if i == 13 {
        "COUNTRY CODE"
    } else if i == 14 {
        "STATE"
    } else if i == 15 {
        "STATE CODE"
    } else if i == 16 {
        "COUNTY"
    } else if i == 17 {
        "COUNTY CODE"
    } else if i == 18 {
        "IBA CODE"
    } else if i == 19 {
        "BCR CODE"
    } else if i == 20 {
        "USFWS CODE"
    } else if i == 21 {
        "ATLAS BLOCK"
    } else if i == 22 {
        "LOCALITY"
    } else if i == 23 {
        "LOCALITY ID"
    } else if i == 24 {
        "LOCALITY TYPE"
    } else if i == 25 {
        "LATITUDE"
    } else if i == 26 {
        "LONGITUDE"
    } else if i == 27 {
        "OBSERVATION DATE"
    } else if i == 28 {
        "TIME OBSERVATIONS STARTED"
    } else if i == 29 {
        "OBSERVER ID"
    } else if i == 30 {
        "SAMPLING EVENT IDENTIFIER"
    } else if i == 31 {
        "PROTOCOL TYPE"
    } else if i == 32 {
        "PROTOCOL CODE"
    } else if i == 33 {
        "PROJECT CODE"
    } else if i == 34 {
        "DURATION MINUTES"
    } else if i == 35 {
        "EFFORT DISTANCE KM"
    } else if i == 36 {
        "EFFORT AREA HA"
    } else if i == 37 {
        "NUMBER OBSERVERS"
    } else if i == 38 {
        "ALL SPECIES REPORTED"
    } else if i == 39 {
        "GROUP IDENTIFIER"
    } else if i == 40 {
        "HAS MEDIA"
    } else if i == 41 {
        "APPROVED"
    } else if i == 42 {
        "REVIEWED"
    } else if i == 43 {
        "REASON"
    } else if i == 44 {
        "TRIP COMMENTS"
    } else if i == 45 {
        "SPECIES COMMENTS"
    } else {
        ""
    }
}

/// The position of the first header column whose name is `name`, if any.
pub open spec fn col_index(header: Seq<Seq<u8>>, name: Seq<u8>) -> Option<int>
    decreases header.len(),
{
    if header.len() == 0 {
        None
    } else if header[0] == name {
        Some(0)
    } else {
        match col_index(header.drop_first(), name) {
            None => None,
            Some(j) => Some(1 + j),
        }
    }
}

/// `col_index` yields the position of a matching column before which none
/// matches, and `None` exactly when no column matches.
pub proof fn lemma_col_index(h: Seq<Seq<u8>>, name: Seq<u8>)
    ensures
        match col_index(h, name) {
            Some(j) => 0 <= j < h.len() && h[j] == name && (forall|k: int|
                0 <= k < j ==> h[k] != name),
            None => forall|k: int| 0 <= k < h.len() ==> h[k] != name,
        },
    decreases h.len(),
{
    if h.len() != 0 && h[0] != name {
        lemma_col_index(h.drop_first(), name);
        assert forall|k: int| 1 <= k < h.len() implies h[k] == h.drop_first()[k - 1] by {}
    }
}

pub proof fn lemma_col_index_is(h: Seq<Seq<u8>>, name: Seq<u8>, j: int)
    requires
        0 <= j < h.len(),
        h[j] == name,
        forall|k: int| 0 <= k < j ==> h[k] != name,
    ensures
        col_index(h, name) == Some(j),
{
    lemma_col_index(h, name);
    match col_index(h, name) {
        Some(j2) => {
            if j2 < j {
                assert(h[j2] != name);
            } else if j < j2 {
                assert(h[j] != name);
            }
        },
        None => {
            assert(h[j] != name);
        },
    }
}

pub proof fn lemma_col_index_none(h: Seq<Seq<u8>>, name: Seq<u8>)
    requires
        forall|k: int| 0 <= k < h.len() ==> h[k] != name,
    ensures
        col_index(h, name) is None,
{
    lemma_col_index(h, name);
    match col_index(h, name) {
        Some(j) => {
            assert(h[j] != name);
        },
        None => {},
    }
}

/// Whether a header token spells a given name, byte for byte.
pub fn bytes_eq(a: &Vec<u8>, b: &[u8]) -> (r: bool)
    ensures
        r == (a@ == b@),
{
    if a.len() != b.len() {
        return false;
    }
    let mut i: usize = 0;
    while i < a.len()
        invariant
            0 <= i <= a.len(),
            a@.len() == b@.len(),
            forall|k: int| 0 <= k < i ==> a@[k] == b@[k],
        decreases a.len() - i,
    {
        if a[i] != b[i] {
            return false;
        }
        i = i + 1;
    }
    proof {
        assert(a@ =~= b@);
    }
    true
}

/// Finds the first header column named `name`.
pub fn find_col(header: &Vec<Vec<u8>>, name: &[u8]) -> (r: Option<usize>)
    ensures
        match r {
            Some(j) => col_index(header.deep_view(), name@) == Some(j as int),
            None => col_index(header.deep_view(), name@) is None,
        },
{
    let mut i: usize = 0;
    while i < header.len()
        invariant
            0 <= i <= header.len(),
            forall|k: int| 0 <= k < i ==> header.deep_view()[k] != name@,
        decreases header.len() - i,
    {
        proof {
            assert(header.deep_view()[i as int] =~= header@[i as int]@);
        }
        if bytes_eq(&header[i], name) {
            proof {
                lemma_col_index_is(header.deep_view(), name@, i as int);
            }
            return Some(i);
        }
        i = i + 1;
    }
    proof {
        lemma_col_index_none(header.deep_view(), name@);
    }
    None
}

} // verus!
