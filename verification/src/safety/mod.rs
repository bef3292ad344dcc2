//! Safety infrastructure: hardcoded protected paths, safe boundaries within
//! which cleaners operate, and path validation.

pub mod protected_paths;
pub mod boundaries;
pub mod validator;
pub mod symlinks;
