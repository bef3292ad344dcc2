//! Conversions from the library's types to the interface types.

use vstd::prelude::*;
use crate::cleaners::traits::{CleanResult, CleanableItem, CleanerCategory, ItemType, RiskLevel, ScanResult};
use crate::error::{CleanmacError, message_spec};
use crate::disk::DiskInfo;
use crate::ffi::types::{
    FFICategorySize, FFICleanFailure, FFICleanResult, FFICleanableItem, FFICleanerCategory, FFIDiskInfo,
    FFIDownloadCategory, FFIDownloadsScanResult, FFIDuplicateGroup, FFIDuplicateScanResult, FFIError,
    FFIItemType, FFIRiskLevel, FFIScanResult,
};
use crate::scanner::downloads::{category_name, download_risk, DownloadCategory, DownloadItem, DownloadsScanResult};
use crate::scanner::duplicates::{DuplicateGroup, DuplicateScanResult};
use crate::scanner::size::byte_size_text;

verus! {

pub open spec fn item_type_spec(t: ItemType) -> FFIItemType {
    match t {
        ItemType::File => FFIItemType::File,
        ItemType::Directory => FFIItemType::Directory,
        ItemType::Symlink => FFIItemType::Symlink,
    }
}

impl From<ItemType> for FFIItemType {
    fn from(t: ItemType) -> (r: FFIItemType) {
        match t {
            ItemType::File => FFIItemType::File,
            ItemType::Directory => FFIItemType::Directory,
            ItemType::Symlink => FFIItemType::Symlink,
        }
    }
}

impl vstd::std_specs::convert::FromSpecImpl<ItemType> for FFIItemType {
    open spec fn obeys_from_spec() -> bool {
        true
    }

    open spec fn from_spec(t: ItemType) -> FFIItemType {
        item_type_spec(t)
    }
}

pub open spec fn risk_spec(r: RiskLevel) -> FFIRiskLevel {
    match r {
        RiskLevel::Low => FFIRiskLevel::Low,
        RiskLevel::Medium => FFIRiskLevel::Medium,
        RiskLevel::High => FFIRiskLevel::High,
    }
}

impl From<RiskLevel> for FFIRiskLevel {
    fn from(r: RiskLevel) -> (o: FFIRiskLevel) {
        match r {
            RiskLevel::Low => FFIRiskLevel::Low,
            RiskLevel::Medium => FFIRiskLevel::Medium,
            RiskLevel::High => FFIRiskLevel::High,
        }
    }
}

impl vstd::std_specs::convert::FromSpecImpl<RiskLevel> for FFIRiskLevel {
    open spec fn obeys_from_spec() -> bool {
        true
    }

    open spec fn from_spec(r: RiskLevel) -> FFIRiskLevel {
        risk_spec(r)
    }
}

pub open spec fn cleaner_category_spec(c: CleanerCategory) -> FFICleanerCategory {
    match c {
        CleanerCategory::System => FFICleanerCategory::System,
        CleanerCategory::Developer => FFICleanerCategory::Developer,
        CleanerCategory::Apps => FFICleanerCategory::Apps,
    }
}

impl From<CleanerCategory> for FFICleanerCategory {
    fn from(c: CleanerCategory) -> (r: FFICleanerCategory) {
        match c {
            CleanerCategory::System => FFICleanerCategory::System,
            CleanerCategory::Developer => FFICleanerCategory::Developer,
            CleanerCategory::Apps => FFICleanerCategory::Apps,
        }
    }
}

impl vstd::std_specs::convert::FromSpecImpl<CleanerCategory> for FFICleanerCategory {
    open spec fn obeys_from_spec() -> bool {
        true
    }

    open spec fn from_spec(c: CleanerCategory) -> FFICleanerCategory {
        cleaner_category_spec(c)
    }
}

pub open spec fn cleanable_item_spec(item: CleanableItem) -> FFICleanableItem {
    FFICleanableItem {
        path: item.path,
        size: item.size,
        item_type: item_type_spec(item.item_type),
        age_days: item.age_days,
        description: item.description,
        requires_force: item.requires_force,
        risk_level: risk_spec(item.risk_level),
    }
}

impl From<CleanableItem> for FFICleanableItem {
    fn from(item: CleanableItem) -> (r: FFICleanableItem) {
        FFICleanableItem {
            path: item.path,
            size: item.size,
            item_type: FFIItemType::from(item.item_type),
            age_days: item.age_days,
            description: item.description,
            requires_force: item.requires_force,
            risk_level: FFIRiskLevel::from(item.risk_level),
        }
    }
}

impl vstd::std_specs::convert::FromSpecImpl<CleanableItem> for FFICleanableItem {
    open spec fn obeys_from_spec() -> bool {
        true
    }

    open spec fn from_spec(item: CleanableItem) -> FFICleanableItem {
        cleanable_item_spec(item)
    }
}

/// The interface form of a scan result: the category stands for its own
/// display name too.
pub fn ffi_scan_result(result: ScanResult) -> (r: FFIScanResult)
    ensures
        r.category@ == result.category@,
        r.category_name@ == result.category@,
        r.items@.len() == result.items@.len(),
        forall|i: int| 0 <= i < r.items@.len() ==> #[trigger] r.items@[i] == cleanable_item_spec(result.items@[i]),
        r.total_size == result.total_size,
        r.scan_duration_ms == result.scan_duration_ms,
        r.errors@ == result.errors@,
{
    let mut items: Vec<FFICleanableItem> = Vec::new();
    let mut i: usize = 0;
    while i < result.items.len()
        invariant
            i <= result.items@.len(),
            items@.len() == i,
            forall|j: int| 0 <= j < i ==> #[trigger] items@[j] == cleanable_item_spec(result.items@[j]),
        decreases result.items@.len() - i,
    {
        let it = &result.items[i];
        items.push(
            FFICleanableItem {
                path: it.path.clone(),
                size: it.size,
                item_type: FFIItemType::from(it.item_type),
                age_days: it.age_days,
                description: it.description.clone(),
                requires_force: it.requires_force,
                risk_level: FFIRiskLevel::from(it.risk_level),
            },
        );
        i = i + 1;
    }
    let category_name = result.category.clone();
    FFIScanResult {
        category: result.category,
        category_name,
        items,
        total_size: result.total_size,
        scan_duration_ms: result.scan_duration_ms,
        errors: result.errors,
    }
}

/// The interface form of a clean result (the count of cleaned items is
/// truncated to 32 bits).
pub fn ffi_clean_result(result: CleanResult) -> (r: FFICleanResult)
    ensures
        r.category@ == result.category@,
        r.items_cleaned == result.items_cleaned as u32,
        r.bytes_freed == result.bytes_freed,
        r.failures@.len() == result.items_failed@.len(),
        forall|i: int|
            0 <= i < r.failures@.len() ==> (#[trigger] r.failures@[i]).path == result.items_failed@[i].0
                && r.failures@[i].reason == result.items_failed@[i].1,
        r.clean_duration_ms == result.clean_duration_ms,
{
    let mut failures: Vec<FFICleanFailure> = Vec::new();
    let mut i: usize = 0;
    while i < result.items_failed.len()
        invariant
            i <= result.items_failed@.len(),
            failures@.len() == i,
            forall|j: int|
                0 <= j < i ==> (#[trigger] failures@[j]).path == result.items_failed@[j].0
                    && failures@[j].reason == result.items_failed@[j].1,
        decreases result.items_failed@.len() - i,
    {
        let (p, reason) = &result.items_failed[i];
        failures.push(FFICleanFailure { path: p.clone(), reason: reason.clone() });
        i = i + 1;
    }
    FFICleanResult {
        category: result.category,
        items_cleaned: result.items_cleaned as u32,
        bytes_freed: result.bytes_freed,
        failures,
        clean_duration_ms: result.clean_duration_ms,
    }
}

/// The interface form of an error: the path errors, trash failures and
/// configuration errors keep their kind; every other error becomes a clean
/// failure carrying the error's text.
pub fn ffi_error(error: CleanmacError) -> (r: FFIError)
    ensures
        match error {
            CleanmacError::ProtectedPath { path } => r == FFIError::ProtectedPath { path },
            CleanmacError::BoundaryEscape { path, resolved } => r == FFIError::BoundaryEscape { path, resolved },
            CleanmacError::PermissionDenied { path } => r == FFIError::PermissionDenied { path },
            CleanmacError::PathNotFound { path } => r == FFIError::PathNotFound { path },
            CleanmacError::TrashFailed { path, reason } => r == FFIError::TrashFailed { path, reason },
            CleanmacError::Config { message } => r == FFIError::ConfigError { message },
            _ => r matches FFIError::CleanFailed { message } && message@ == message_spec(error),
        },
{
    let text = error.message();
    match error {
        CleanmacError::ProtectedPath { path } => FFIError::ProtectedPath { path },
        CleanmacError::BoundaryEscape { path, resolved } => FFIError::BoundaryEscape { path, resolved },
        CleanmacError::PermissionDenied { path } => FFIError::PermissionDenied { path },
        CleanmacError::PathNotFound { path } => FFIError::PathNotFound { path },
        CleanmacError::TrashFailed { path, reason } => FFIError::TrashFailed { path, reason },
        CleanmacError::Config { message } => FFIError::ConfigError { message },
        _ => FFIError::CleanFailed { message: text },
    }
}

/// The interface form of a disk.
pub fn ffi_disk_info(disk: DiskInfo) -> (r: FFIDiskInfo)
    ensures
        r.name == disk.name,
        r.mount_point == disk.mount_point,
        r.device_node == disk.device_node,
        r.filesystem == disk.filesystem,
        r.total_bytes == disk.total_bytes,
        r.used_bytes == disk.used_bytes,
        r.free_bytes == disk.free_bytes,
{
    FFIDiskInfo {
        name: disk.name,
        mount_point: disk.mount_point,
        device_node: disk.device_node,
        filesystem: disk.filesystem,
        total_bytes: disk.total_bytes,
        used_bytes: disk.used_bytes,
        free_bytes: disk.free_bytes,
    }
}

/// The interface form of a duplicate group.
pub open spec fn ffi_group_of(g: DuplicateGroup, f: FFIDuplicateGroup) -> bool {
    &&& f.hash == g.hash
    &&& f.size == g.size
    &&& f.wasted_size == g.wasted_size
    &&& f.paths@ == g.paths@
    &&& f.count == g.count
}

/// The interface form of a duplicate scan.
pub fn ffi_duplicate_result(result: DuplicateScanResult) -> (r: FFIDuplicateScanResult)
    ensures
        r.groups@.len() == result.groups@.len(),
        forall|i: int| 0 <= i < r.groups@.len() ==> ffi_group_of(result.groups@[i], #[trigger] r.groups@[i]),
        r.total_wasted == result.total_wasted,
        r.files_scanned == result.files_scanned,
{
    let mut groups: Vec<FFIDuplicateGroup> = Vec::new();
    let mut i: usize = 0;
    while i < result.groups.len()
        invariant
            i <= result.groups@.len(),
            groups@.len() == i,
            forall|j: int| 0 <= j < i ==> ffi_group_of(result.groups@[j], #[trigger] groups@[j]),
        decreases result.groups@.len() - i,
    {
        let g = &result.groups[i];
        let paths = g.path_strings();
        groups.push(FFIDuplicateGroup {
            hash: g.hash.clone(),
            size: g.size,
            wasted_size: g.wasted_size,
            paths,
            count: g.count,
        });
        i = i + 1;
    }
    FFIDuplicateScanResult { groups, total_wasted: result.total_wasted, files_scanned: result.files_scanned }
}

pub open spec fn download_category_spec(c: DownloadCategory) -> FFIDownloadCategory {
    match c {
        DownloadCategory::OldFiles => FFIDownloadCategory::OldFiles,
        DownloadCategory::Archives => FFIDownloadCategory::Archives,
        DownloadCategory::LargeMedia => FFIDownloadCategory::LargeMedia,
        DownloadCategory::Documents => FFIDownloadCategory::Documents,
        DownloadCategory::Installers => FFIDownloadCategory::Installers,
        DownloadCategory::Other => FFIDownloadCategory::Other,
    }
}

/// The interface form of a download category.
pub fn ffi_download_category(c: DownloadCategory) -> (r: FFIDownloadCategory)
    ensures
        r == download_category_spec(c),
{
    match c {
        DownloadCategory::OldFiles => FFIDownloadCategory::OldFiles,
        DownloadCategory::Archives => FFIDownloadCategory::Archives,
        DownloadCategory::LargeMedia => FFIDownloadCategory::LargeMedia,
        DownloadCategory::Documents => FFIDownloadCategory::Documents,
        DownloadCategory::Installers => FFIDownloadCategory::Installers,
        DownloadCategory::Other => FFIDownloadCategory::Other,
    }
}

/// `f` is the interface form of the download item `d`.
pub open spec fn ffi_download_item_of(d: DownloadItem, f: FFICleanableItem) -> bool {
    &&& f.path@ == d.path@
    &&& f.size == d.size
    &&& f.item_type == (if d.is_dir { FFIItemType::Directory } else { FFIItemType::File })
    &&& f.age_days == d.age_days
    &&& f.description@ == category_name(d.category) + " - "@ + byte_size_text(d.size)
    &&& !f.requires_force
    &&& f.risk_level == download_risk(d.category)
}

/// The interface form of a downloads scan.
pub fn ffi_downloads_result(result: &DownloadsScanResult) -> (r: FFIDownloadsScanResult)
    ensures
        r.items@.len() == result.items@.len(),
        forall|i: int| 0 <= i < r.items@.len() ==> ffi_download_item_of(result.items@[i], #[trigger] r.items@[i]),
        r.total_size == result.total_size,
        r.size_by_category@.len() == 6,
        forall|i: int| 0 <= i < 6 ==> (#[trigger] r.size_by_category@[i]).category == download_category_spec(result.size_by_category@[i].0)
            && r.size_by_category@[i].size == result.size_by_category@[i].1,
{
    let mut items: Vec<FFICleanableItem> = Vec::new();
    let mut i: usize = 0;
    while i < result.items.len()
        invariant
            i <= result.items@.len(),
            items@.len() == i,
            forall|j: int| 0 <= j < i ==> ffi_download_item_of(result.items@[j], #[trigger] items@[j]),
        decreases result.items@.len() - i,
    {
        let f = result.items[i].to_ffi();
        items.push(f);
        i = i + 1;
    }
    let mut sizes: Vec<FFICategorySize> = Vec::new();
    let mut k: usize = 0;
    while k < 6
        invariant
            k <= 6,
            sizes@.len() == k,
            result.size_by_category@.len() == 6,
            forall|j: int| 0 <= j < k ==> (#[trigger] sizes@[j]).category == download_category_spec(result.size_by_category@[j].0)
                && sizes@[j].size == result.size_by_category@[j].1,
        decreases 6 - k,
    {
        let (c, size) = result.size_by_category[k];
        sizes.push(FFICategorySize { category: ffi_download_category(c), size });
        k = k + 1;
    }
    FFIDownloadsScanResult { items, total_size: result.total_size, size_by_category: sizes }
}

} // verus!
