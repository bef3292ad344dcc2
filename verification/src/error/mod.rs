//! Error kinds of the cleaner, their severity and exit codes.
//!
//! Errors are grouped by severity:
//! - fatal: safety violations and configuration errors, which end the program;
//! - recoverable: errors that are logged while processing continues.

use vstd::prelude::*;
use crate::text::{concat2, concat3, decimal, u64_to_decimal};

pub mod exit_codes;

verus! {

/// Main error type for cleaning operations. Paths are held as text.
#[derive(Debug, Clone)]
pub enum CleanmacError {
    /// Attempted to access a protected system path (a safety violation).
    ProtectedPath { path: String },
    /// Path resolves to a location outside the allowed safe boundary.
    BoundaryEscape { path: String, resolved: String },
    /// A circular symlink chain.
    SymlinkLoop { path: String },
    /// Configuration file contains invalid settings.
    Config { message: String },
    /// Invalid path specified in configuration.
    InvalidConfigPath { path: String },
    /// Permission denied when accessing a file or directory.
    PermissionDenied { path: String },
    /// Path does not exist.
    PathNotFound { path: String },
    /// General file-system error; `source` is the underlying error's text.
    Filesystem { path: String, source: String },
    /// Failed to move a file to the trash.
    TrashFailed { path: String, reason: String },
    /// Operation exceeds a size limit and requires the force flag.
    SizeLimitExceeded { size: u64, limit: u64 },
    /// The user cancelled the operation.
    Cancelled,
    /// A cleaner failed to complete its operation.
    CleanerFailed { cleaner: String, message: String },
    /// A cleaner is not available on this system.
    CleanerUnavailable { cleaner: String, reason: String },
}

/// Safety violations: protected path, boundary escape, symlink loop.
pub open spec fn is_safety_violation(e: CleanmacError) -> bool {
    ||| e is ProtectedPath
    ||| e is BoundaryEscape
    ||| e is SymlinkLoop
}

/// Configuration errors.
pub open spec fn is_config_error(e: CleanmacError) -> bool {
    e is Config || e is InvalidConfigPath
}

pub open spec fn fatal_spec(e: CleanmacError) -> bool {
    is_safety_violation(e) || is_config_error(e)
}

pub open spec fn recoverable_spec(e: CleanmacError) -> bool {
    ||| e is PermissionDenied
    ||| e is PathNotFound
    ||| e is Filesystem
    ||| e is TrashFailed
}

pub open spec fn exit_code_spec(e: CleanmacError) -> i32 {
    if is_safety_violation(e) {
        2
    } else if is_config_error(e) {
        3
    } else if e is Cancelled {
        4
    } else {
        1
    }
}

/// The text the error displays.
pub open spec fn message_spec(e: CleanmacError) -> Seq<char> {
    match e {
        CleanmacError::ProtectedPath { path } =>
            "SAFETY VIOLATION: '"@ + path@ + "' is a protected system path and cannot be modified"@,
        CleanmacError::BoundaryEscape { path, resolved } =>
            "SAFETY VIOLATION: '"@ + path@ + "' resolves to '"@ + resolved@ + "' which escapes the safe boundary"@,
        CleanmacError::SymlinkLoop { path } =>
            "SAFETY VIOLATION: Symlink loop detected at '"@ + path@ + "'"@,
        CleanmacError::Config { message } => "Configuration error: "@ + message@,
        CleanmacError::InvalidConfigPath { path } =>
            "Invalid path in configuration: '"@ + path@ + "'"@,
        CleanmacError::PermissionDenied { path } => "Permission denied: '"@ + path@ + "'"@,
        CleanmacError::PathNotFound { path } => "Path not found: '"@ + path@ + "'"@,
        CleanmacError::Filesystem { path, source } =>
            "Filesystem error at '"@ + path@ + "': "@ + source@,
        CleanmacError::TrashFailed { path, reason } =>
            "Failed to move to trash: '"@ + path@ + "' - "@ + reason@,
        CleanmacError::SizeLimitExceeded { size, limit } =>
            "Size limit exceeded: "@ + decimal(size as nat) + " bytes exceeds "@ + decimal(limit as nat)
                + " bytes. Use --force to proceed."@,
        CleanmacError::Cancelled => "Operation cancelled by user"@,
        CleanmacError::CleanerFailed { cleaner, message } =>
            "Cleaner '"@ + cleaner@ + "' failed: "@ + message@,
        CleanmacError::CleanerUnavailable { cleaner, reason } =>
            "Cleaner '"@ + cleaner@ + "' is not available: "@ + reason@,
    }
}

impl CleanmacError {
    /// Returns true if this error is a fatal safety or configuration violation.
    pub fn is_fatal(&self) -> (r: bool)
        ensures
            r == fatal_spec(*self),
    {
        match self {
            CleanmacError::ProtectedPath { .. }
            | CleanmacError::BoundaryEscape { .. }
            | CleanmacError::SymlinkLoop { .. }
            | CleanmacError::Config { .. }
            | CleanmacError::InvalidConfigPath { .. } => true,
            _ => false,
        }
    }

    /// Returns true if this error can be logged and processing can continue.
    pub fn is_recoverable(&self) -> (r: bool)
        ensures
            r == recoverable_spec(*self),
    {
        match self {
            CleanmacError::PermissionDenied { .. }
            | CleanmacError::PathNotFound { .. }
            | CleanmacError::Filesystem { .. }
            | CleanmacError::TrashFailed { .. } => true,
            _ => false,
        }
    }

    /// Returns the exit code for this error.
    pub fn exit_code(&self) -> (r: i32)
        ensures
            r == exit_code_spec(*self),
    {
        match self {
            CleanmacError::ProtectedPath { .. }
            | CleanmacError::BoundaryEscape { .. }
            | CleanmacError::SymlinkLoop { .. } => 2,
            CleanmacError::Config { .. } | CleanmacError::InvalidConfigPath { .. } => 3,
            CleanmacError::Cancelled => 4,
            _ => 1,
        }
    }

    /// The text this error displays (its `Display` form).
    pub fn message(&self) -> (r: String)
        ensures
            r@ == message_spec(*self),
    {
        match self {
            CleanmacError::ProtectedPath { path } => concat3(
                "SAFETY VIOLATION: '",
                path.as_str(),
                "' is a protected system path and cannot be modified",
            ),
            CleanmacError::BoundaryEscape { path, resolved } => {
                let mut r = concat3("SAFETY VIOLATION: '", path.as_str(), "' resolves to '");
                r.append(resolved.as_str());
                r.append("' which escapes the safe boundary");
                r
            },
            CleanmacError::SymlinkLoop { path } => concat3(
                "SAFETY VIOLATION: Symlink loop detected at '",
                path.as_str(),
                "'",
            ),
            CleanmacError::Config { message } => concat2("Configuration error: ", message.as_str()),
            CleanmacError::InvalidConfigPath { path } => concat3(
                "Invalid path in configuration: '",
                path.as_str(),
                "'",
            ),
            CleanmacError::PermissionDenied { path } => concat3(
                "Permission denied: '",
                path.as_str(),
                "'",
            ),
            CleanmacError::PathNotFound { path } => concat3("Path not found: '", path.as_str(), "'"),
            CleanmacError::Filesystem { path, source } => {
                let mut r = concat3("Filesystem error at '", path.as_str(), "': ");
                r.append(source.as_str());
                r
            },
            CleanmacError::TrashFailed { path, reason } => {
                let mut r = concat3("Failed to move to trash: '", path.as_str(), "' - ");
                r.append(reason.as_str());
                r
            },
            CleanmacError::SizeLimitExceeded { size, limit } => {
                let s = u64_to_decimal(*size);
                let l = u64_to_decimal(*limit);
                let mut r = concat3("Size limit exceeded: ", s.as_str(), " bytes exceeds ");
                r.append(l.as_str());
                r.append(" bytes. Use --force to proceed.");
                r
            },
            CleanmacError::Cancelled => String::from_str("Operation cancelled by user"),
            CleanmacError::CleanerFailed { cleaner, message } => {
                let mut r = concat3("Cleaner '", cleaner.as_str(), "' failed: ");
                r.append(message.as_str());
                r
            },
            CleanmacError::CleanerUnavailable { cleaner, reason } => {
                let mut r = concat3("Cleaner '", cleaner.as_str(), "' is not available: ");
                r.append(reason.as_str());
                r
            },
        }
    }
}

/// Fatal and recoverable errors are disjoint, and the exit code follows the
/// severity: safety violations exit with 2, configuration errors with 3, a
/// cancellation with 4, every other error with 1.
pub proof fn law_error_severity(e: CleanmacError)
    ensures
        !(fatal_spec(e) && recoverable_spec(e)),
        recoverable_spec(e) ==> exit_code_spec(e) == exit_codes::ERROR,
        is_safety_violation(e) <==> exit_code_spec(e) == exit_codes::SAFETY_VIOLATION,
        is_config_error(e) <==> exit_code_spec(e) == exit_codes::CONFIG_ERROR,
        fatal_spec(e) ==> exit_code_spec(e) != exit_codes::SUCCESS,
        exit_code_spec(e) != exit_codes::SUCCESS,
{
}

} // verus!
