//! Verified core of a per-monitor display configuration tool.
//!
//! The library models the OS display topology (paths and modes), derives
//! display snapshots from it, and plans configuration changes (resolution
//! and DPI scaling). All OS calls live outside the library; callers hand in
//! the plain values those calls return and carry the planned mutations back
//! to the OS.

pub mod apply;
pub mod catalog;
pub mod error;
pub mod model;
pub mod name;
pub mod render;
pub mod scaling;
pub mod snapshot;
pub mod topology;

pub use error::TunerError;
pub use model::{DisplayConfig, DisplayInfo, DisplayTuner, ModeRecord, PathRecord, Topology};
