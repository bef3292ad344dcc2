//! Plain-data types of the foreign-function interface: paths as text,
//! durations as milliseconds.

use vstd::prelude::*;

verus! {

/// Item type.
#[derive(Debug, Clone, Copy, PartialEq, Eq, Structural)]
pub enum FFIItemType {
    File,
    Directory,
    Symlink,
}

/// Risk level.
#[derive(Debug, Clone, Copy, PartialEq, Eq, Structural)]
pub enum FFIRiskLevel {
    Low,
    Medium,
    High,
}

/// Cleaner category.
#[derive(Debug, Clone, Copy, PartialEq, Eq, Structural)]
pub enum FFICleanerCategory {
    System,
    Developer,
    Apps,
}

/// Options for scanning operations.
#[derive(Debug, Clone)]
pub struct FFIScanOptions {
    pub dry_run: bool,
    pub keep_recent_days: u32,
    pub min_size: Option<u64>,
    pub max_items: Option<u32>,
}

impl Default for FFIScanOptions {
    fn default() -> (r: Self)
        ensures
            r.dry_run,
            r.keep_recent_days == 0,
            r.min_size is None,
            r.max_items is None,
    {
        FFIScanOptions { dry_run: true, keep_recent_days: 0, min_size: None, max_items: None }
    }
}

/// Options for cleaning operations.
#[derive(Debug, Clone)]
pub struct FFICleanOptions {
    pub dry_run: bool,
    pub force: bool,
}

impl Default for FFICleanOptions {
    fn default() -> (r: Self)
        ensures
            !r.dry_run,
            !r.force,
    {
        FFICleanOptions { dry_run: false, force: false }
    }
}

/// A cleanable item.
#[derive(Debug, Clone)]
pub struct FFICleanableItem {
    pub path: String,
    pub size: u64,
    pub item_type: FFIItemType,
    pub age_days: Option<u32>,
    pub description: String,
    pub requires_force: bool,
    pub risk_level: FFIRiskLevel,
}

/// A scan result.
#[derive(Debug, Clone)]
pub struct FFIScanResult {
    pub category: String,
    pub category_name: String,
    pub items: Vec<FFICleanableItem>,
    pub total_size: u64,
    pub scan_duration_ms: u64,
    pub errors: Vec<String>,
}

/// A failure during cleaning.
#[derive(Debug, Clone)]
pub struct FFICleanFailure {
    pub path: String,
    pub reason: String,
}

/// A clean result.
#[derive(Debug, Clone)]
pub struct FFICleanResult {
    pub category: String,
    pub items_cleaned: u32,
    pub bytes_freed: u64,
    pub failures: Vec<FFICleanFailure>,
    pub clean_duration_ms: u64,
}

/// An installed application.
#[derive(Debug, Clone)]
pub struct FFIInstalledApp {
    pub name: String,
    pub path: String,
    pub size: u64,
    pub bundle_id: Option<String>,
    pub leftover_paths: Vec<String>,
    pub leftover_size: u64,
}

/// A disk.
#[derive(Debug, Clone)]
pub struct FFIDiskInfo {
    pub name: String,
    pub mount_point: String,
    pub device_node: String,
    pub filesystem: String,
    pub total_bytes: u64,
    pub used_bytes: u64,
    pub free_bytes: u64,
}

/// An available cleaner.
#[derive(Debug, Clone)]
pub struct FFICleanerInfo {
    pub id: String,
    pub name: String,
    pub description: String,
    pub category: FFICleanerCategory,
    pub available: bool,
}

/// Options for scanning large files.
#[derive(Debug, Clone)]
pub struct FFILargeFileScanOptions {
    /// Minimum file size in bytes.
    pub min_size_bytes: u64,
    /// Maximum number of results to return.
    pub max_results: u32,
    /// Include hidden files and directories.
    pub include_hidden: bool,
}

impl Default for FFILargeFileScanOptions {
    fn default() -> (r: Self)
        ensures
            r.min_size_bytes == 104857600,
            r.max_results == 100,
            !r.include_hidden,
    {
        FFILargeFileScanOptions { min_size_bytes: 104857600, max_results: 100, include_hidden: false }
    }
}

/// Options for scanning duplicates.
#[derive(Debug, Clone)]
pub struct FFIDuplicateScanOptions {
    /// Minimum file size to consider.
    pub min_size_bytes: u64,
    /// Maximum number of groups to return.
    pub max_groups: u32,
}

impl Default for FFIDuplicateScanOptions {
    fn default() -> (r: Self)
        ensures
            r.min_size_bytes == 1048576,
            r.max_groups == 50,
    {
        FFIDuplicateScanOptions { min_size_bytes: 1048576, max_groups: 50 }
    }
}

/// A group of duplicate files.
#[derive(Debug, Clone)]
pub struct FFIDuplicateGroup {
    pub hash: String,
    pub size: u64,
    pub wasted_size: u64,
    pub paths: Vec<String>,
    pub count: u32,
}

/// Result of a duplicate scan.
#[derive(Debug, Clone)]
pub struct FFIDuplicateScanResult {
    pub groups: Vec<FFIDuplicateGroup>,
    pub total_wasted: u64,
    pub files_scanned: u64,
}

/// Category of a download item.
#[derive(Debug, Clone, Copy, PartialEq, Eq, Structural)]
pub enum FFIDownloadCategory {
    OldFiles,
    Archives,
    LargeMedia,
    Documents,
    Installers,
    Other,
}

/// Options for scanning downloads.
#[derive(Debug, Clone)]
pub struct FFIDownloadsScanOptions {
    pub old_threshold_days: u32,
    pub include_hidden: bool,
}

impl Default for FFIDownloadsScanOptions {
    fn default() -> (r: Self)
        ensures
            r.old_threshold_days == 30,
            !r.include_hidden,
    {
        FFIDownloadsScanOptions { old_threshold_days: 30, include_hidden: false }
    }
}

/// Size of a download category.
#[derive(Debug, Clone)]
pub struct FFICategorySize {
    pub category: FFIDownloadCategory,
    pub size: u64,
}

/// Result of a downloads scan.
#[derive(Debug, Clone)]
pub struct FFIDownloadsScanResult {
    pub items: Vec<FFICleanableItem>,
    pub total_size: u64,
    pub size_by_category: Vec<FFICategorySize>,
}

/// Errors reported across the interface.
#[derive(Debug, Clone)]
pub enum FFIError {
    ProtectedPath { path: String },
    BoundaryEscape { path: String, resolved: String },
    PermissionDenied { path: String },
    PathNotFound { path: String },
    TrashFailed { path: String, reason: String },
    ScanFailed { message: String },
    CleanFailed { message: String },
    ConfigError { message: String },
}

pub open spec fn ffi_error_text(e: FFIError) -> Seq<char> {
    match e {
        FFIError::ProtectedPath { path } => "Protected path: "@ + path@,
        FFIError::BoundaryEscape { path, resolved } => "Boundary escape: "@ + path@ + " -> "@ + resolved@,
        FFIError::PermissionDenied { path } => "Permission denied: "@ + path@,
        FFIError::PathNotFound { path } => "Path not found: "@ + path@,
        FFIError::TrashFailed { path, reason } => "Trash failed: "@ + path@ + " - "@ + reason@,
        FFIError::ScanFailed { message } => "Scan failed: "@ + message@,
        FFIError::CleanFailed { message } => "Clean failed: "@ + message@,
        FFIError::ConfigError { message } => "Config error: "@ + message@,
    }
}

impl FFIError {
    /// The text the error displays.
    pub fn message(&self) -> (r: String)
        ensures
            r@ == ffi_error_text(*self),
    {
        match self {
            FFIError::ProtectedPath { path } => crate::text::concat2("Protected path: ", path.as_str()),
            FFIError::BoundaryEscape { path, resolved } => {
                let mut r = crate::text::concat3("Boundary escape: ", path.as_str(), " -> ");
                r.append(resolved.as_str());
                r
            },
            FFIError::PermissionDenied { path } => crate::text::concat2("Permission denied: ", path.as_str()),
            FFIError::PathNotFound { path } => crate::text::concat2("Path not found: ", path.as_str()),
            FFIError::TrashFailed { path, reason } => {
                let mut r = crate::text::concat3("Trash failed: ", path.as_str(), " - ");
                r.append(reason.as_str());
                r
            },
            FFIError::ScanFailed { message } => crate::text::concat2("Scan failed: ", message.as_str()),
            FFIError::CleanFailed { message } => crate::text::concat2("Clean failed: ", message.as_str()),
            FFIError::ConfigError { message } => crate::text::concat2("Config error: ", message.as_str()),
        }
    }
}

} // verus!
