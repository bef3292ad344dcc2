//! Cleaners: what each one looks for, and how it decides what to clean.

pub mod apps;
pub mod base;
pub mod traits;
pub mod developer;
pub mod dynamic;
pub mod system;
