//! Typed failures of the library and of the OS calls around it.

use vstd::prelude::*;

verus! {

/// Every way an enumeration or an apply can fail. None of these is retried
/// internally; variants that stem from a failed OS call carry its raw status
/// code for diagnostics.
#[derive(Debug, Clone, Copy, PartialEq, Eq, Structural)]
pub enum TunerError {
    /// The topology query machinery returned a non-zero status at sizing or
    /// fetch time; nothing was read.
    QueryFailed(i32),
    /// Friendly-name resolution failed for a path that was otherwise valid;
    /// aborts the entire enumeration.
    NameQueryFailed(i32),
    /// A resolved DPI index fell outside the fixed catalog; signals an
    /// assumption violation, not a transient condition.
    DpiIndexOutOfRange,
    /// The source id of a previously obtained snapshot no longer matches any
    /// active path.
    DisplayNotFound,
    /// A desired or recommended percentage is not an exact catalog member.
    UnsupportedScalingValue,
    /// The OS set/commit call returned non-zero; prior state is assumed
    /// unchanged.
    ApplyFailed(i32),
}

} // verus!
