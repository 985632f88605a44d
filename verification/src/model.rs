//! In-process model of the OS display topology and of the values the library
//! exchanges with its callers.
//!
//! The OS hands out path and mode records as raw structured buffers with
//! embedded unions; the model keeps only the fields this library's logic ever
//! reads or writes, with the mode's type tag as a proper variant. Indices from
//! a path into the mode buffer are only valid for the buffer snapshot they
//! were returned with and are never cached across calls.

use vstd::prelude::*;

use crate::catalog::in_catalog;

verus! {

/// Sentinel mode index marking a path without an associated source mode.
pub const INVALID_MODE_INDEX: u32 = 0xFFFF_FFFF;

/// One entry of the OS path buffer: an active connection from a graphics
/// source to a display target, reduced to the fields the logic uses.
#[derive(Debug, Clone, Copy, PartialEq, Eq, Structural)]
pub struct PathRecord {
    /// OS-assigned identifier of the path's source; stable within a session
    /// and used as the join key for later mutation.
    pub source_id: u32,
    /// Index of this path's source mode in the mode buffer fetched together
    /// with it, or `INVALID_MODE_INDEX`.
    pub source_mode_index: u32,
}

/// One entry of the OS mode buffer. Only a source mode carries a framebuffer
/// resolution; every other kind is opaque to this library and is carried
/// through untouched.
#[derive(Debug, Clone, Copy, PartialEq, Eq, Structural)]
pub enum ModeRecord {
    /// A source (framebuffer) mode with its pixel dimensions.
    Source { width: u32, height: u32 },
    /// Any mode of another kind (target, desktop image, ...).
    Other,
}

/// A freshly fetched path/mode buffer pair. Mode indices inside `paths` refer
/// to `modes` of the same fetch and must not outlive it.
#[derive(Debug, Clone)]
pub struct Topology {
    pub paths: Vec<PathRecord>,
    pub modes: Vec<ModeRecord>,
}

/// Read-only description of one active display, produced fresh by every
/// enumeration.
#[derive(Debug, Clone)]
pub struct DisplayInfo {
    /// Human-readable monitor name; may be empty when the OS cannot resolve
    /// one. Informational only.
    pub friendly_name: String,
    /// Join key for later mutation; only valid for the current session.
    pub source_id: u32,
    /// Pixel width of the current framebuffer mode.
    pub width: u32,
    /// Pixel height of the current framebuffer mode.
    pub height: u32,
    /// Current DPI scaling percentage (100 = no scaling), a catalog member.
    pub scaling_current: i32,
    /// OS-suggested scaling percentage for this display, a catalog member.
    pub scaling_recommended: i32,
}

impl DisplayInfo {
    /// Every enumerated display has a renderable resolution, and both its
    /// scaling percentages are members of the fixed catalog.
    pub open spec fn wf(self) -> bool {
        &&& self.width > 0
        &&& self.height > 0
        &&& in_catalog(self.scaling_current as int)
        &&& in_catalog(self.scaling_recommended as int)
    }
}

/// Caller-supplied write intent: the resolution and scaling one display
/// should end up with.
#[derive(Debug, Clone, Copy, PartialEq, Eq, Structural)]
pub struct DisplayConfig {
    pub width: u32,
    pub height: u32,
    /// Desired scaling percentage; must be an exact catalog member.
    pub scaling: i32,
}

/// Front door of the library; remembers the displays of the latest
/// enumeration so a caller can drive "set all displays" loops.
pub struct DisplayTuner {
    pub displays: Vec<DisplayInfo>,
}

impl Default for DisplayTuner {
    /// A tuner that has not enumerated anything yet.
    fn default() -> (r: Self)
        ensures
            r.displays.len() == 0,
    {
        DisplayTuner { displays: Vec::new() }
    }
}

} // verus!
