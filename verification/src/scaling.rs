//! DPI scaling arithmetic.
//!
//! The OS never reports or accepts an absolute scaling percentage. A query
//! returns three signed offsets (minimum, current, maximum) relative to the
//! OS's own recommended catalog position, and a set call takes one signed
//! offset relative to that same recommendation. This module converts between
//! those offsets and catalog percentages.
//!
//! The recommended position is derived as `current - current_offset` rather
//! than simplified to `abs(minimum)`: the two agree algebraically, but the
//! offset-based form is the one the OS documents through its behaviour, and
//! it stays correct should the minimum ever stop being symmetric.

use vstd::prelude::*;

use crate::catalog::{
    catalog_index_of, catalog_value, dpi_index_of, dpi_value, in_catalog, lemma_catalog_index_value,
    lemma_catalog_value_index, CATALOG_LEN,
};
use crate::error::TunerError;

verus! {

/// Catalog position the OS currently applies, restated from the offsets it
/// returned: the recommendation sits at `abs(min_rel)` positions from the
/// bottom, and the current value is `cur_rel` positions from there.
pub open spec fn spec_current_index(min_rel: int, cur_rel: int) -> int {
    (if min_rel < 0 {
        -min_rel
    } else {
        min_rel
    }) + cur_rel
}

/// Catalog position of the OS recommendation, restated via the offsets
/// actually returned.
pub open spec fn spec_recommended_index(min_rel: int, cur_rel: int) -> int {
    spec_current_index(min_rel, cur_rel) - cur_rel
}

/// What a DPI offset query resolves to: the current and recommended
/// percentages, or a failure when either derived position leaves the catalog.
pub open spec fn spec_scaling_from_offsets(min_rel: int, cur_rel: int) -> Result<
    (int, int),
    TunerError,
> {
    let cur = spec_current_index(min_rel, cur_rel);
    let rec = spec_recommended_index(min_rel, cur_rel);
    if 0 <= cur < CATALOG_LEN && 0 <= rec < CATALOG_LEN {
        Ok((catalog_value(cur), catalog_value(rec)))
    } else {
        Err(TunerError::DpiIndexOutOfRange)
    }
}

/// The mathematical value of a percentage-pair result.
pub open spec fn spec_pair_view(r: Result<(i32, i32), TunerError>) -> Result<
    (int, int),
    TunerError,
> {
    match r {
        Ok(p) => Ok((p.0 as int, p.1 as int)),
        Err(e) => Err(e),
    }
}

/// The mathematical value of an offset result.
pub open spec fn spec_offset_view(r: Result<i32, TunerError>) -> Result<int, TunerError> {
    match r {
        Ok(k) => Ok(k as int),
        Err(e) => Err(e),
    }
}

/// Resolve the offsets of a DPI query to the current and recommended
/// percentage. The maximum offset is not consulted; it is accepted so the
/// caller can hand the query result over whole.
pub fn scaling_from_offsets(min_rel: i32, cur_rel: i32, _max_rel: i32) -> (r: Result<
    (i32, i32),
    TunerError,
>)
    ensures
        spec_pair_view(r) == spec_scaling_from_offsets(min_rel as int, cur_rel as int),
        r matches Ok(p) ==> in_catalog(p.0 as int) && in_catalog(p.1 as int),
{
    let min64: i64 = min_rel as i64;
    let min_abs: i64 = if min64 < 0 {
        -min64
    } else {
        min64
    };
    let cur_idx: i64 = min_abs + cur_rel as i64;
    let rec_idx: i64 = cur_idx - cur_rel as i64;
    if 0 <= cur_idx && cur_idx < CATALOG_LEN as i64 && 0 <= rec_idx && rec_idx < CATALOG_LEN as i64 {
        let current = dpi_value(cur_idx as usize);
        let recommended = dpi_value(rec_idx as usize);
        proof {
            lemma_catalog_value_index(cur_idx as int);
            lemma_catalog_value_index(rec_idx as int);
        }
        Ok((current, recommended))
    } else {
        Err(TunerError::DpiIndexOutOfRange)
    }
}

/// The signed offset a DPI set call must carry so that a display recommended
/// at `recommended` ends up at `desired`; both must be exact catalog members,
/// with no interpolation and no nearest match.
pub open spec fn spec_relative_offset(recommended: int, desired: int) -> Result<int, TunerError> {
    if in_catalog(recommended) && in_catalog(desired) {
        Ok(catalog_index_of(desired) - catalog_index_of(recommended))
    } else {
        Err(TunerError::UnsupportedScalingValue)
    }
}

/// Compute the relative offset between two catalog percentages.
pub fn relative_scale_offset(recommended: i32, desired: i32) -> (r: Result<i32, TunerError>)
    ensures
        spec_offset_view(r) == spec_relative_offset(recommended as int, desired as int),
{
    match (dpi_index_of(recommended), dpi_index_of(desired)) {
        (Some(ri), Some(di)) => {
            proof {
                lemma_catalog_index_value(recommended as int);
                lemma_catalog_index_value(desired as int);
            }
            Ok(di as i32 - ri as i32)
        },
        _ => Err(TunerError::UnsupportedScalingValue),
    }
}

/// End-to-end derivation of a scaling update: what the offsets of a fresh DPI
/// query and the desired percentage resolve to.
pub open spec fn spec_scaling_update(min_rel: int, cur_rel: int, desired: int) -> Result<
    int,
    TunerError,
> {
    match spec_scaling_from_offsets(min_rel, cur_rel) {
        Ok(p) => spec_relative_offset(p.1, desired),
        Err(e) => Err(e),
    }
}

/// Derive the offset a scaling update must commit: re-derive the recommended
/// percentage from a fresh DPI query, then diff the desired percentage
/// against it by catalog position.
pub fn scaling_update_offset(min_rel: i32, cur_rel: i32, max_rel: i32, desired: i32) -> (r: Result<
    i32,
    TunerError,
>)
    ensures
        spec_offset_view(r) == spec_scaling_update(min_rel as int, cur_rel as int, desired as int),
{
    match scaling_from_offsets(min_rel, cur_rel, max_rel) {
        Ok((_, recommended)) => relative_scale_offset(recommended, desired),
        Err(e) => Err(e),
    }
}

/// After a scaling update commits its offset, the OS reports that offset as
/// the new current offset against the unchanged recommendation; a fresh
/// offset query therefore resolves to exactly the desired percentage, with
/// the recommendation as before.
pub proof fn lemma_scaling_round_trip(
    min_rel: int,
    cur_rel: int,
    desired: int,
    cur_v: int,
    rec_v: int,
    k: int,
)
    requires
        spec_scaling_from_offsets(min_rel, cur_rel) == Ok::<(int, int), TunerError>(
            (cur_v, rec_v),
        ),
        spec_relative_offset(rec_v, desired) == Ok::<int, TunerError>(k),
    ensures
        spec_scaling_from_offsets(min_rel, k) == Ok::<(int, int), TunerError>((desired, rec_v)),
{
    let rec_idx = spec_recommended_index(min_rel, cur_rel);
    assert(rec_v == catalog_value(rec_idx));
    lemma_catalog_value_index(rec_idx);
    lemma_catalog_index_value(desired);
    assert(spec_current_index(min_rel, k) == catalog_index_of(desired));
}

} // verus!
