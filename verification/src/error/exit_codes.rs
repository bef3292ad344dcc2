//! Exit codes of the program.

use vstd::prelude::*;

verus! {

/// Operation completed successfully.
pub const SUCCESS: i32 = 0;
/// General error.
pub const ERROR: i32 = 1;
/// Safety violation.
pub const SAFETY_VIOLATION: i32 = 2;
/// Configuration error.
pub const CONFIG_ERROR: i32 = 3;
/// User cancelled.
pub const CANCELLED: i32 = 4;
/// Partial success (some items failed).
pub const PARTIAL_SUCCESS: i32 = 5;

} // verus!
