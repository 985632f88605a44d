//! Planning a configuration change.
//!
//! An apply is a read-modify-write against global OS state: it diffs the
//! caller's snapshot against the desired configuration, re-fetches the live
//! topology for each phase that has to run, and commits through the OS set
//! calls. The diff itself is decided here; the surrounding driver performs
//! the fetches and commits and hands their results to `topology` and
//! `scaling` for the per-phase work. When neither field differs, the apply
//! is a no-op success and no OS mutation call is issued at all.
//!
//! The window between a re-fetch and its commit stays open to other
//! processes: the display configuration is a global resource, and no
//! in-process lock can close that race.

use vstd::prelude::*;

use crate::model::{DisplayConfig, DisplayInfo, DisplayTuner};

verus! {

/// Which of the two apply phases actually have to run. Resolution runs
/// before scaling: a resolution change can alter which scaling index the OS
/// recommends, so the scaling phase re-queries afterwards.
#[derive(Debug, Clone, Copy, PartialEq, Eq, Structural)]
pub struct ApplyPlan {
    /// The snapshot's resolution differs from the desired one.
    pub resolution_changed: bool,
    /// The snapshot's current scaling differs from the desired one.
    pub scaling_changed: bool,
}

impl ApplyPlan {
    /// A plan that runs no phase: the apply issues no OS mutation call.
    pub open spec fn is_noop(self) -> bool {
        !self.resolution_changed && !self.scaling_changed
    }
}

/// The plan an apply of `config` to the display described by `display`
/// follows.
pub open spec fn spec_apply_plan(display: DisplayInfo, config: DisplayConfig) -> ApplyPlan {
    ApplyPlan {
        resolution_changed: display.width != config.width || display.height != config.height,
        scaling_changed: display.scaling_current != config.scaling,
    }
}

impl DisplayTuner {
    /// Diff a previously enumerated snapshot against the desired
    /// configuration and decide which phases an apply has to run.
    pub fn apply_display_config(&self, display: &DisplayInfo, config: &DisplayConfig) -> (r:
        ApplyPlan)
        ensures
            r == spec_apply_plan(*display, *config),
            display.width == config.width && display.height == config.height
                && display.scaling_current == config.scaling ==> r.is_noop(),
    {
        let resolution_changed = display.width != config.width || display.height != config.height;
        let scaling_changed = display.scaling_current != config.scaling;
        ApplyPlan { resolution_changed, scaling_changed }
    }
}

/// Applying a configuration the display already satisfies plans no phase at
/// all, so the apply mutates nothing and succeeds.
pub proof fn lemma_apply_idempotent(display: DisplayInfo, config: DisplayConfig)
    requires
        config.width == display.width,
        config.height == display.height,
        config.scaling == display.scaling_current,
    ensures
        spec_apply_plan(display, config).is_noop(),
{
}

} // verus!
