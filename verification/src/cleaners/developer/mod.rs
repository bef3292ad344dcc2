//! Cleaners of developer tools.

pub mod docker;
pub mod homebrew;
pub mod cargo;
pub mod npm;
pub mod pip;
pub mod xcode;
