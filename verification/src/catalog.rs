//! The fixed, ordered catalog of DPI scaling percentages the OS supports.
//!
//! The OS expresses a display's scale as an offset into this list relative to
//! its own recommended entry, so positions in the list are as important as the
//! percentages themselves. The list is a closed, OS-defined enumeration and is
//! kept as a versioned constant, never derived dynamically.

use vstd::prelude::*;

verus! {

/// Number of entries in the catalog.
pub const CATALOG_LEN: usize = 12;

/// The percentage stored at position `i` of the catalog (ascending order).
/// Positions outside the catalog map to 0, which is not a member.
pub open spec fn catalog_value(i: int) -> int {
    if i == 0 {
        100
    } else if i == 1 {
        125
    } else if i == 2 {
        150
    } else if i == 3 {
        175
    } else if i == 4 {
        200
    } else if i == 5 {
        225
    } else if i == 6 {
        250
    } else if i == 7 {
        300
    } else if i == 8 {
        350
    } else if i == 9 {
        400
    } else if i == 10 {
        450
    } else if i == 11 {
        500
    } else {
        0
    }
}

/// Position of the percentage `v` in the catalog, or -1 when `v` is not a
/// catalog member.
pub open spec fn catalog_index_of(v: int) -> int {
    if v == 100 {
        0
    } else if v == 125 {
        1
    } else if v == 150 {
        2
    } else if v == 175 {
        3
    } else if v == 200 {
        4
    } else if v == 225 {
        5
    } else if v == 250 {
        6
    } else if v == 300 {
        7
    } else if v == 350 {
        8
    } else if v == 400 {
        9
    } else if v == 450 {
        10
    } else if v == 500 {
        11
    } else {
        -1
    }
}

/// Whether `v` is one of the supported scaling percentages.
pub open spec fn in_catalog(v: int) -> bool {
    catalog_index_of(v) >= 0
}

/// Looking a catalog entry up by value recovers its position.
pub proof fn lemma_catalog_value_index(i: int)
    requires
        0 <= i < CATALOG_LEN,
    ensures
        catalog_index_of(catalog_value(i)) == i,
        in_catalog(catalog_value(i)),
{
}

/// Reading the catalog at a member's position recovers the member, and every
/// member lies between the smallest and largest supported percentage.
pub proof fn lemma_catalog_index_value(v: int)
    requires
        in_catalog(v),
    ensures
        0 <= catalog_index_of(v) < CATALOG_LEN,
        catalog_value(catalog_index_of(v)) == v,
        100 <= v <= 500,
{
}

/// Catalog entry at position `i`.
pub fn dpi_value(i: usize) -> (r: i32)
    requires
        i < CATALOG_LEN,
    ensures
        r as int == catalog_value(i as int),
{
    if i == 0 {
        100
    } else if i == 1 {
        125
    } else if i == 2 {
        150
    } else if i == 3 {
        175
    } else if i == 4 {
        200
    } else if i == 5 {
        225
    } else if i == 6 {
        250
    } else if i == 7 {
        300
    } else if i == 8 {
        350
    } else if i == 9 {
        400
    } else if i == 10 {
        450
    } else {
        500
    }
}

/// Position of the percentage `v` in the catalog, if it is a member.
pub fn dpi_index_of(v: i32) -> (r: Option<usize>)
    ensures
        in_catalog(v as int) ==> r == Some(catalog_index_of(v as int) as usize),
        !in_catalog(v as int) ==> r is None,
{
    if v == 100 {
        Some(0)
    } else if v == 125 {
        Some(1)
    } else if v == 150 {
        Some(2)
    } else if v == 175 {
        Some(3)
    } else if v == 200 {
        Some(4)
    } else if v == 225 {
        Some(5)
    } else if v == 250 {
        Some(6)
    } else if v == 300 {
        Some(7)
    } else if v == 350 {
        Some(8)
    } else if v == 400 {
        Some(9)
    } else if v == 450 {
        Some(10)
    } else if v == 500 {
        Some(11)
    } else {
        None
    }
}

} // verus!
