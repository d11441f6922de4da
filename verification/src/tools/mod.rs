//! Planners for OS policy-registry writes.

pub mod registry;
