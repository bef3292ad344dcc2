//! Cleaners of system locations of the user.

pub mod caches;
pub mod logs;
pub mod trash;
