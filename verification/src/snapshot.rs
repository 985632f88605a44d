//! Assembling a display snapshot from the values the per-path OS queries
//! return.
//!
//! Enumeration walks the freshly fetched paths in OS order. For each path
//! that references a valid source mode (see `topology`), the caller issues
//! the name query and the DPI offset query and hands their results here;
//! paths that reference none are skipped silently. A failed name query or an
//! out-of-catalog DPI index aborts the whole enumeration instead.

use vstd::prelude::*;

use crate::catalog::{catalog_value, in_catalog, lemma_catalog_value_index, CATALOG_LEN};
use crate::error::TunerError;
use crate::model::DisplayInfo;
use crate::name::{decode_friendly_name, spec_trim_trailing_zeros, utf16_lossy_of};
use crate::scaling::{
    scaling_from_offsets, spec_current_index, spec_recommended_index, spec_scaling_from_offsets,
};

verus! {

/// Assemble the snapshot of one enumerated path: decode the name buffer the
/// target query filled, resolve the DPI offsets the source query returned,
/// and join them with the dimensions read from the path's source mode.
pub fn build_snapshot(
    source_id: u32,
    name_units: &Vec<u16>,
    width: u32,
    height: u32,
    min_rel: i32,
    cur_rel: i32,
    max_rel: i32,
) -> (r: Result<DisplayInfo, TunerError>)
    ensures
        match r {
            Ok(d) => {
                &&& d.source_id == source_id
                &&& d.width == width
                &&& d.height == height
                &&& d.friendly_name@ == utf16_lossy_of(spec_trim_trailing_zeros(name_units@))
                &&& spec_scaling_from_offsets(min_rel as int, cur_rel as int) == Ok::<
                    (int, int),
                    TunerError,
                >((d.scaling_current as int, d.scaling_recommended as int))
                &&& in_catalog(d.scaling_current as int)
                &&& in_catalog(d.scaling_recommended as int)
            },
            Err(e) => spec_scaling_from_offsets(min_rel as int, cur_rel as int) == Err::<
                (int, int),
                TunerError,
            >(e),
        },
{
    let (scaling_current, scaling_recommended) = match scaling_from_offsets(
        min_rel,
        cur_rel,
        max_rel,
    ) {
        Ok(p) => p,
        Err(e) => {
            return Err(e);
        },
    };
    let friendly_name = decode_friendly_name(name_units);
    Ok(
        DisplayInfo {
            friendly_name,
            source_id,
            width,
            height,
            scaling_current,
            scaling_recommended,
        },
    )
}

/// Every snapshot enumeration produces is well-formed: its scaling
/// percentages are catalog members by construction, and its resolution is
/// the positive one the OS reported for an active source mode.
pub proof fn lemma_enumerated_snapshot_wf(d: DisplayInfo, min_rel: int, cur_rel: int)
    requires
        d.width > 0,
        d.height > 0,
        spec_scaling_from_offsets(min_rel, cur_rel) == Ok::<(int, int), TunerError>(
            (d.scaling_current as int, d.scaling_recommended as int),
        ),
    ensures
        d.wf(),
{
    let cur = spec_current_index(min_rel, cur_rel);
    let rec = spec_recommended_index(min_rel, cur_rel);
    assert(0 <= cur < CATALOG_LEN && 0 <= rec < CATALOG_LEN);
    lemma_catalog_value_index(cur);
    lemma_catalog_value_index(rec);
    assert(d.scaling_current == catalog_value(cur));
    assert(d.scaling_recommended == catalog_value(rec));
}

} // verus!
