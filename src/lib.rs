//! Node-local base lifecycle for overlay-backed ephemeral volumes.
//!
//! The library holds the decisions of the plugin: where scratch and base
//! directories live, when a base marker makes a base valid, which base a new
//! volume is layered on, when an unmounted volume is promoted into a base,
//! which bases the reaper removes, and the registry that records which live
//! volumes use which base. Everything that touches the disk, the kernel or the
//! cluster is done by the caller with the values these functions hand back.

pub mod laws;
pub mod marker;
pub mod overlays;
pub mod paths;
pub mod registry;

pub use marker::{marker_text, marker_valid, stamp_valid, Base, NANOS_PER_SECOND};
pub use overlays::{
    name_selector, pod_running, umount_args, DirEntryInfo, MountPlan, OverlayFlags, Overlays,
};
pub use paths::join_path;
pub use registry::{Link, Registry};
