//! Platform locations and disk information providers.

pub mod locations;
pub mod paths;
pub mod disk;
