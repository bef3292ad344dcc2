//! The audit trail: one entry per operation on a path.

pub mod entry;
