//! Reading and mutating a fetched path/mode buffer pair.
//!
//! Enumeration walks the path buffer and keeps the paths that reference a
//! valid source mode; an apply re-fetches the buffers, locates the path by
//! source id, and rewrites exactly one mode entry before the whole pair is
//! committed back (the OS has no partial-update mode, so the untouched
//! entries travel with the one that changed).

use vstd::prelude::*;

use crate::error::TunerError;
use crate::model::{DisplayConfig, ModeRecord, PathRecord, Topology, INVALID_MODE_INDEX};

verus! {

/// The framebuffer resolution a path renders, if any: `None` when the path's
/// mode index is the sentinel, out of bounds for the mode buffer it came
/// with, or refers to a mode of another kind. Such paths are expected
/// topology noise (disconnected or cloned targets), not failures.
pub open spec fn spec_source_dims(path: PathRecord, modes: Seq<ModeRecord>) -> Option<(u32, u32)> {
    if path.source_mode_index == INVALID_MODE_INDEX || path.source_mode_index >= modes.len() {
        None
    } else {
        match modes[path.source_mode_index as int] {
            ModeRecord::Source { width, height } => Some((width, height)),
            ModeRecord::Other => None,
        }
    }
}

/// Read the resolution of the source mode a path references, or decide that
/// the path is to be skipped.
pub fn source_mode_dimensions(path: &PathRecord, modes: &Vec<ModeRecord>) -> (r: Option<
    (u32, u32),
>)
    ensures
        r == spec_source_dims(*path, modes@),
{
    let idx: u32 = path.source_mode_index;
    if idx == INVALID_MODE_INDEX || idx as usize >= modes.len() {
        return None;
    }
    match modes[idx as usize] {
        ModeRecord::Source { width, height } => Some((width, height)),
        ModeRecord::Other => None,
    }
}

/// One path an enumeration will produce a snapshot for: its position in the
/// fetched path buffer, its source id, and the resolution its source mode
/// carries. The per-path OS queries (name, DPI offsets) are issued for
/// exactly these.
#[derive(Debug, Clone, Copy, PartialEq, Eq, Structural)]
pub struct EnumCandidate {
    pub path_index: usize,
    pub source_id: u32,
    pub width: u32,
    pub height: u32,
}

/// The candidates an enumeration of `paths` visits, in OS order: every path
/// that references a valid source mode, with that mode's dimensions; paths
/// that reference none are skipped silently.
pub open spec fn spec_candidates(paths: Seq<PathRecord>, modes: Seq<ModeRecord>) -> Seq<
    EnumCandidate,
>
    decreases paths.len(),
{
    if paths.len() == 0 {
        Seq::empty()
    } else {
        let prefix = spec_candidates(paths.drop_last(), modes);
        let i = paths.len() - 1;
        match spec_source_dims(paths[i], modes) {
            Some(dims) => prefix.push(
                EnumCandidate {
                    path_index: i as usize,
                    source_id: paths[i].source_id,
                    width: dims.0,
                    height: dims.1,
                },
            ),
            None => prefix,
        }
    }
}

/// Walk a fetched topology and keep the paths that render a framebuffer,
/// in OS order, with no resorting.
pub fn enumeration_candidates(topology: &Topology) -> (r: Vec<EnumCandidate>)
    ensures
        r@ == spec_candidates(topology.paths@, topology.modes@),
{
    let mut out: Vec<EnumCandidate> = Vec::new();
    let mut k: usize = 0;
    proof {
        assert(topology.paths@.subrange(0, 0) =~= Seq::<PathRecord>::empty());
    }
    while k < topology.paths.len()
        invariant
            k <= topology.paths@.len(),
            out@ == spec_candidates(topology.paths@.subrange(0, k as int), topology.modes@),
        decreases topology.paths@.len() - k,
    {
        let path = &topology.paths[k];
        if let Some((width, height)) = source_mode_dimensions(path, &topology.modes) {
            out.push(EnumCandidate { path_index: k, source_id: path.source_id, width, height });
        }
        proof {
            assert(topology.paths@.subrange(0, k + 1 as int).drop_last() =~= topology.paths@
                .subrange(0, k as int));
        }
        k = k + 1;
    }
    proof {
        assert(topology.paths@.subrange(0, topology.paths@.len() as int) =~= topology.paths@);
    }
    out
}

/// Enumeration invents nothing: every candidate names a real position in the
/// fetched path buffer, reports that path's source id, and carries exactly
/// the dimensions of the source mode the path references.
pub proof fn lemma_candidates_sound(paths: Seq<PathRecord>, modes: Seq<ModeRecord>, k: int)
    requires
        paths.len() <= usize::MAX,
        0 <= k < spec_candidates(paths, modes).len(),
    ensures
        ({
            let c = spec_candidates(paths, modes)[k];
            &&& c.path_index < paths.len()
            &&& paths[c.path_index as int].source_id == c.source_id
            &&& spec_source_dims(paths[c.path_index as int], modes) == Some((c.width, c.height))
        }),
    decreases paths.len(),
{
    let prefix = spec_candidates(paths.drop_last(), modes);
    let i = paths.len() - 1;
    if spec_source_dims(paths[i], modes) is Some && k == prefix.len() {
        // The candidate the last path contributed speaks of that path itself.
    } else {
        // The candidate comes from the shorter buffer, which agrees with
        // `paths` on every position it has.
        lemma_candidates_sound(paths.drop_last(), modes, k);
    }
}

/// `i` is the position of the first path whose source id is `source_id`.
pub open spec fn spec_first_match(paths: Seq<PathRecord>, source_id: u32, i: int) -> bool {
    &&& 0 <= i < paths.len()
    &&& paths[i].source_id == source_id
    &&& forall|j: int| 0 <= j < i ==> paths[j].source_id != source_id
}

/// No path in the buffer carries `source_id`.
pub open spec fn spec_no_path_matches(paths: Seq<PathRecord>, source_id: u32) -> bool {
    forall|j: int| 0 <= j < paths.len() ==> paths[j].source_id != source_id
}

/// The first path carrying `source_id` no longer references a valid source
/// mode, so there is no framebuffer to rewrite.
pub open spec fn spec_first_match_unrenderable(
    paths: Seq<PathRecord>,
    modes: Seq<ModeRecord>,
    source_id: u32,
) -> bool {
    exists|i: int|
        #[trigger] spec_first_match(paths, source_id, i) && spec_source_dims(paths[i], modes) is None
}

/// Locate the path a snapshot's source id refers to in a freshly fetched
/// buffer. A missing id means the display was disconnected or renumbered
/// between enumerate and apply.
pub fn find_path(paths: &Vec<PathRecord>, source_id: u32) -> (r: Result<usize, TunerError>)
    ensures
        match r {
            Ok(i) => spec_first_match(paths@, source_id, i as int),
            Err(e) => {
                &&& e == TunerError::DisplayNotFound
                &&& spec_no_path_matches(paths@, source_id)
            },
        },
{
    let mut k: usize = 0;
    while k < paths.len()
        invariant
            k <= paths.len(),
            forall|j: int| 0 <= j < k ==> paths@[j].source_id != source_id,
        decreases paths.len() - k,
    {
        if paths[k].source_id == source_id {
            return Ok(k);
        }
        k = k + 1;
    }
    Err(TunerError::DisplayNotFound)
}

/// The one mutation a resolution update makes to a freshly fetched mode
/// buffer: the entry at `mode_index` becomes a source mode with the desired
/// dimensions, and every other entry is resubmitted untouched.
#[derive(Debug, Clone, Copy, PartialEq, Eq, Structural)]
pub struct ModeUpdate {
    pub mode_index: usize,
    pub width: u32,
    pub height: u32,
}

/// Plan a resolution update against a freshly fetched topology: locate the
/// path by source id and name the single mode entry to rewrite. A source id
/// with no matching path, or one whose path no longer references a valid
/// source mode, fails with `DisplayNotFound`.
pub fn plan_resolution_update(topology: &Topology, source_id: u32, config: &DisplayConfig) -> (r:
    Result<ModeUpdate, TunerError>)
    ensures
        match r {
            Ok(u) => exists|i: int|
                {
                    &&& #[trigger] spec_first_match(topology.paths@, source_id, i)
                    &&& spec_source_dims(topology.paths@[i], topology.modes@) is Some
                    &&& u.mode_index == topology.paths@[i].source_mode_index
                    &&& u.mode_index < topology.modes@.len()
                    &&& u.width == config.width
                    &&& u.height == config.height
                },
            Err(e) => {
                &&& e == TunerError::DisplayNotFound
                &&& spec_no_path_matches(topology.paths@, source_id)
                    || spec_first_match_unrenderable(topology.paths@, topology.modes@, source_id)
            },
        },
{
    let i = match find_path(&topology.paths, source_id) {
        Ok(i) => i,
        Err(e) => {
            return Err(e);
        },
    };
    match source_mode_dimensions(&topology.paths[i], &topology.modes) {
        Some(_) => Ok(
            ModeUpdate {
                mode_index: topology.paths[i].source_mode_index as usize,
                width: config.width,
                height: config.height,
            },
        ),
        None => Err(TunerError::DisplayNotFound),
    }
}

/// Rewrite the planned mode entry in a copy of the fetched mode buffer,
/// leaving every other entry as fetched.
pub fn apply_mode_update(modes: &Vec<ModeRecord>, update: &ModeUpdate) -> (r: Vec<ModeRecord>)
    requires
        update.mode_index < modes.len(),
    ensures
        r@ == modes@.update(
            update.mode_index as int,
            ModeRecord::Source { width: update.width, height: update.height },
        ),
{
    let mut out: Vec<ModeRecord> = Vec::new();
    let mut k: usize = 0;
    while k < modes.len()
        invariant
            k <= modes.len(),
            out@ == modes@.subrange(0, k as int),
        decreases modes.len() - k,
    {
        out.push(modes[k]);
        proof {
            assert(out@ =~= modes@.subrange(0, k + 1 as int));
        }
        k = k + 1;
    }
    proof {
        assert(out@ =~= modes@);
    }
    out.set(update.mode_index, ModeRecord::Source { width: update.width, height: update.height });
    out
}

/// Once the rewritten buffer is committed, a fresh read of the same path
/// reports exactly the desired resolution: the path records were resubmitted
/// unchanged, so the same path still references the rewritten mode entry.
pub proof fn lemma_resolution_round_trip(
    paths: Seq<PathRecord>,
    modes: Seq<ModeRecord>,
    source_id: u32,
    i: int,
    update: ModeUpdate,
)
    requires
        spec_first_match(paths, source_id, i),
        paths[i].source_mode_index != INVALID_MODE_INDEX,
        update.mode_index == paths[i].source_mode_index,
        update.mode_index < modes.len(),
    ensures
        spec_source_dims(
            paths[i],
            modes.update(
                update.mode_index as int,
                ModeRecord::Source { width: update.width, height: update.height },
            ),
        ) == Some((update.width, update.height)),
{
}

} // verus!
