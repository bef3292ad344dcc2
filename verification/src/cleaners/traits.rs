//! What cleaners find and report: items, risk levels, scan and clean
//! results, the context they run in, and the `Cleaner` trait.

use vstd::prelude::*;
use crate::safety::boundaries::SafeBoundary;

verus! {

/// Risk level for a cleanable item.
#[derive(Debug, Clone, Copy, PartialEq, Eq, Structural)]
pub enum RiskLevel {
    /// Safe to delete, automatically regenerated (caches, logs).
    Low,
    /// Safe but may require app restart or redownload.
    Medium,
    /// Check with user, may affect app state or contain data.
    High,
}

pub open spec fn risk_name(r: RiskLevel) -> Seq<char> {
    match r {
        RiskLevel::Low => "low"@,
        RiskLevel::Medium => "medium"@,
        RiskLevel::High => "high"@,
    }
}

impl RiskLevel {
    /// Display string for the risk level.
    pub fn as_str(&self) -> (r: &'static str)
        ensures
            r@ == risk_name(*self),
    {
        match self {
            RiskLevel::Low => "low",
            RiskLevel::Medium => "medium",
            RiskLevel::High => "high",
        }
    }
}

/// Type of cleanable item.
#[derive(Debug, Clone, Copy, PartialEq, Eq, Structural)]
pub enum ItemType {
    File,
    Directory,
    Symlink,
}

/// A single cleanable item discovered by a cleaner.
#[derive(Debug, Clone)]
pub struct CleanableItem {
    /// Path to the item (or an identifier such as `docker:image:<id>`).
    pub path: String,
    /// Size in bytes.
    pub size: u64,
    /// Type of item.
    pub item_type: ItemType,
    /// Age in days (if known).
    pub age_days: Option<u32>,
    /// Human-readable description.
    pub description: String,
    /// Whether this item requires the force flag to clean.
    pub requires_force: bool,
    /// Risk level of cleaning this item.
    pub risk_level: RiskLevel,
}

/// A cleanable item with its texts as sequences.
pub struct ItemView {
    pub path: Seq<char>,
    pub size: u64,
    pub item_type: ItemType,
    pub age_days: Option<u32>,
    pub description: Seq<char>,
    pub requires_force: bool,
    pub risk_level: RiskLevel,
}

impl View for CleanableItem {
    type V = ItemView;

    open spec fn view(&self) -> ItemView {
        ItemView {
            path: self.path@,
            size: self.size,
            item_type: self.item_type,
            age_days: self.age_days,
            description: self.description@,
            requires_force: self.requires_force,
            risk_level: self.risk_level,
        }
    }
}

impl CleanableItem {
    /// A copy of the item.
    pub fn duplicate(&self) -> (r: CleanableItem)
        ensures
            r@ == self@,
    {
        CleanableItem {
            path: self.path.clone(),
            size: self.size,
            item_type: self.item_type,
            age_days: self.age_days,
            description: self.description.clone(),
            requires_force: self.requires_force,
            risk_level: self.risk_level,
        }
    }
}

/// Views of a sequence of items.
pub open spec fn item_views(items: Seq<CleanableItem>) -> Seq<ItemView> {
    items.map_values(|i: CleanableItem| i@)
}

/// Sum of the sizes of items.
pub open spec fn items_size(items: Seq<ItemView>) -> nat
    decreases items.len(),
{
    if items.len() == 0 { 0 } else { items_size(items.drop_last()) + items.last().size as nat }
}

/// Total size of items.
pub fn sum_item_sizes(items: &Vec<CleanableItem>) -> (r: u64)
    requires
        items_size(item_views(items@)) <= u64::MAX,
    ensures
        r == items_size(item_views(items@)),
{
    let mut total: u64 = 0;
    let mut i: usize = 0;
    while i < items.len()
        invariant
            i <= items@.len(),
            items_size(item_views(items@)) <= u64::MAX,
            total == items_size(item_views(items@.take(i as int))),
        decreases items@.len() - i,
    {
        proof {
            assert(item_views(items@.take(i + 1)).drop_last() =~= item_views(items@.take(i as int)));
            lemma_items_size_prefix(item_views(items@), i + 1);
            assert(item_views(items@).take(i + 1) =~= item_views(items@.take(i + 1)));
        }
        total = total + items[i].size;
        i = i + 1;
    }
    assert(items@.take(items@.len() as int) =~= items@);
    total
}

proof fn lemma_items_size_prefix(s: Seq<ItemView>, i: int)
    requires
        0 <= i <= s.len(),
    ensures
        items_size(s.take(i)) <= items_size(s),
    decreases s.len() - i,
{
    if i < s.len() {
        lemma_items_size_prefix(s, i + 1);
        assert(s.take(i + 1).drop_last() =~= s.take(i));
    } else {
        assert(s.take(i) =~= s);
    }
}

/// Result of a scan operation.
#[derive(Debug, Clone)]
pub struct ScanResult {
    /// Cleaner category.
    pub category: String,
    /// Discovered items.
    pub items: Vec<CleanableItem>,
    /// Total size of all items.
    pub total_size: u64,
    /// Time taken to scan, in milliseconds.
    pub scan_duration_ms: u64,
    /// Errors encountered during the scan.
    pub errors: Vec<String>,
}

impl ScanResult {
    /// An empty scan result.
    pub fn empty(category: &str) -> (r: ScanResult)
        ensures
            r.category@ == category@,
            r.items@.len() == 0,
            r.total_size == 0,
            r.scan_duration_ms == 0,
            r.errors@.len() == 0,
    {
        ScanResult {
            category: String::from_str(category),
            items: Vec::new(),
            total_size: 0,
            scan_duration_ms: 0,
            errors: Vec::new(),
        }
    }
}

/// Result of a clean operation.
#[derive(Debug, Clone)]
pub struct CleanResult {
    /// Cleaner category.
    pub category: String,
    /// Number of items successfully cleaned.
    pub items_cleaned: usize,
    /// Total bytes freed.
    pub bytes_freed: u64,
    /// Items that failed to clean, with the reason.
    pub items_failed: Vec<(String, String)>,
    /// Time taken to clean, in milliseconds.
    pub clean_duration_ms: u64,
}

impl CleanResult {
    /// An empty clean result.
    pub fn empty(category: &str) -> (r: CleanResult)
        ensures
            r.category@ == category@,
            r.items_cleaned == 0,
            r.bytes_freed == 0,
            r.items_failed@.len() == 0,
            r.clean_duration_ms == 0,
    {
        CleanResult {
            category: String::from_str(category),
            items_cleaned: 0,
            bytes_freed: 0,
            items_failed: Vec::new(),
            clean_duration_ms: 0,
        }
    }
}

/// Counts of a clean operation as it goes: items cleaned, bytes freed and
/// the items that failed, in order.
#[derive(Debug, Clone)]
pub struct CleanTally {
    pub items_cleaned: usize,
    pub bytes_freed: u64,
    pub items_failed: Vec<(String, String)>,
}

impl CleanTally {
    /// Nothing counted yet.
    pub fn new() -> (r: CleanTally)
        ensures
            r.items_cleaned == 0,
            r.bytes_freed == 0,
            r.items_failed@.len() == 0,
    {
        CleanTally { items_cleaned: 0, bytes_freed: 0, items_failed: Vec::new() }
    }

    /// Count an item cleaned that freed `size` bytes.
    pub fn cleaned(&mut self, size: u64)
        requires
            old(self).items_cleaned < usize::MAX,
            old(self).bytes_freed + size <= u64::MAX,
        ensures
            final(self).items_cleaned == old(self).items_cleaned + 1,
            final(self).bytes_freed == old(self).bytes_freed + size,
            final(self).items_failed@ == old(self).items_failed@,
    {
        self.items_cleaned = self.items_cleaned + 1;
        self.bytes_freed = self.bytes_freed + size;
    }

    /// Count an item that failed, with the reason.
    pub fn failed(&mut self, path: String, reason: String)
        ensures
            final(self).items_cleaned == old(self).items_cleaned,
            final(self).bytes_freed == old(self).bytes_freed,
            final(self).items_failed@ == old(self).items_failed@.push((path, reason)),
    {
        self.items_failed.push((path, reason));
    }

    /// The result of the clean operation of `category` that took
    /// `duration_ms` milliseconds.
    pub fn finish(self, category: &str, duration_ms: u64) -> (r: CleanResult)
        ensures
            r.category@ == category@,
            r.items_cleaned == self.items_cleaned,
            r.bytes_freed == self.bytes_freed,
            r.items_failed@ == self.items_failed@,
            r.clean_duration_ms == duration_ms,
    {
        CleanResult {
            category: String::from_str(category),
            items_cleaned: self.items_cleaned,
            bytes_freed: self.bytes_freed,
            items_failed: self.items_failed,
            clean_duration_ms: duration_ms,
        }
    }
}

/// Configuration passed to cleaners.
#[derive(Debug, Clone)]
pub struct CleanerContext {
    /// Whether to only report what would be cleaned.
    pub dry_run: bool,
    /// Whether to bypass soft protections.
    pub force: bool,
    /// Number of days to keep recent files.
    pub keep_recent_days: u32,
    /// Minimum size to consider for cleaning.
    pub min_size: Option<u64>,
    /// Maximum number of items to process.
    pub max_items: Option<usize>,
    /// Whether to skip confirmation prompts.
    pub skip_confirm: bool,
}

impl Default for CleanerContext {
    /// Dry run by default, for safety.
    fn default() -> (r: Self)
        ensures
            r.dry_run,
            !r.force,
            r.keep_recent_days == 0,
            r.min_size is None,
            r.max_items is None,
            !r.skip_confirm,
    {
        CleanerContext {
            dry_run: true,
            force: false,
            keep_recent_days: 0,
            min_size: None,
            max_items: None,
            skip_confirm: false,
        }
    }
}

/// Category of cleaners.
#[derive(Debug, Clone, Copy, PartialEq, Eq, Hash, Structural)]
pub enum CleanerCategory {
    System,
    Developer,
    Apps,
}

pub open spec fn cleaner_category_name(c: CleanerCategory) -> Seq<char> {
    match c {
        CleanerCategory::System => "system"@,
        CleanerCategory::Developer => "developer"@,
        CleanerCategory::Apps => "apps"@,
    }
}

impl CleanerCategory {
    pub fn as_str(&self) -> (r: &'static str)
        ensures
            r@ == cleaner_category_name(*self),
    {
        match self {
            CleanerCategory::System => "system",
            CleanerCategory::Developer => "developer",
            CleanerCategory::Apps => "apps",
        }
    }
}

/// What every cleaner states about itself. Finding items and cleaning them
/// is work on the system that goes with each cleaner's decisions.
pub trait Cleaner {
    /// Unique identifier for this cleaner.
    fn id(&self) -> &'static str;

    /// Human-readable name.
    fn name(&self) -> &'static str;

    /// Description of what this cleaner does.
    fn description(&self) -> &'static str;

    /// Category group.
    fn category(&self) -> CleanerCategory;

    /// The safe boundary within which this cleaner works.
    fn safe_boundary(&self) -> SafeBoundary;

    /// Quick size estimate without full scan.
    fn estimate_size(&self) -> (r: Option<u64>)
        default_ensures
            r is None,
    {
        None
    }
}

} // verus!
