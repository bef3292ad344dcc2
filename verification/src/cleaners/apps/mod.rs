//! Cleaners of application files.

pub mod leftovers;
