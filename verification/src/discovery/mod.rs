//! Discovery of cleanable directories.

pub mod heuristics;
pub mod scanner;
