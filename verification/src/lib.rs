//! Lifecycle core of a mirrored block device: the per-child state machine and
//! the mount probe and volume service of the node plugin.

pub mod child_state;
pub mod err_store;
pub mod error;
pub mod findmnt;
pub mod json;
pub mod nexus_child;
pub mod nodeplugin_svc;
pub mod text;

