//! Scanners: what they decide about the items they find.

pub mod downloads;
pub mod size;
pub mod large_files;
pub mod walker;
pub mod duplicates;
pub mod apps;
