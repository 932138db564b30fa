//! A foreign-state introspection bridge: readers that walk two collections —
//! an ordered named-value sequence and a string-keyed multi-value map — living
//! inside an opaque, caller-owned state object, reached only through a fixed
//! accessor contract.

pub mod access;
pub mod inspector;
pub mod memory_state;
pub mod checksum;
pub mod line_scan;
pub mod arrow_export;
