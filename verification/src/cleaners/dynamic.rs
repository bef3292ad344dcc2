//! Cleaner of the paths discovery recorded, one per category.

use vstd::prelude::*;
use crate::cleaners::base::BaseCleaner;
use crate::cleaners::traits::{
    CleanableItem, CleanerCategory, CleanerContext, Cleaner, ItemType, ItemView, RiskLevel, ScanResult, item_views,
    items_size, sum_item_sizes,
};
use crate::db::models::{DiscoveredPath, PathCategory, category_text};
use crate::path::{Os, file_name, file_name_of};
use crate::safety::boundaries::SafeBoundary;
use crate::text::{concat2, concat3, decimal, sviews, u64_to_decimal};

verus! {

/// Cleaner that operates on dynamically discovered paths of a category.
#[derive(Debug, Clone)]
pub struct DynamicCleaner {
    pub base: BaseCleaner,
    pub os: Os,
    pub category: PathCategory,
}

/// What the file system says of a discovered path at scan time.
#[derive(Debug, Clone)]
pub struct DiscoveredFacts {
    pub record: DiscoveredPath,
    /// The path exists.
    pub exists: bool,
    /// Its size as measured now (used when the record has none).
    pub measured_size: u64,
    /// Its age in days, when its modification time could be read (0 when
    /// that time lies in the future).
    pub age_days: Option<u32>,
}

/// Risk of a discovered path by the confidence in it: at least 90%, low;
/// at least 60%, medium; else high.
pub open spec fn confidence_risk(conf: u32) -> RiskLevel {
    if conf >= 90 {
        RiskLevel::Low
    } else if conf >= 60 {
        RiskLevel::Medium
    } else {
        RiskLevel::High
    }
}

/// The item for a discovered path.
pub open spec fn discovered_item(os: Os, f: DiscoveredFacts) -> ItemView {
    let name = match file_name(os, f.record.path@) {
        Some(n) => n,
        None => seq![],
    };
    ItemView {
        path: f.record.path@,
        size: match f.record.last_size {
            Some(s) => s,
            None => f.measured_size,
        },
        item_type: ItemType::Directory,
        age_days: None,
        description: name + " ("@ + decimal(f.record.confidence as nat) + "% confidence)"@,
        requires_force: f.record.confidence < 70,
        risk_level: confidence_risk(f.record.confidence),
    }
}

/// A discovered path is listed when it exists and is old enough.
pub open spec fn listed_discovered(keep: u32, f: DiscoveredFacts) -> bool {
    f.exists && !(keep > 0 && (f.age_days matches Some(a) && a < keep))
}

pub open spec fn discovered_items(os: Os, keep: u32, fs: Seq<DiscoveredFacts>) -> Seq<ItemView>
    decreases fs.len(),
{
    if fs.len() == 0 {
        seq![]
    } else {
        let d = discovered_items(os, keep, fs.drop_last());
        if listed_discovered(keep, fs.last()) { d.push(discovered_item(os, fs.last())) } else { d }
    }
}

pub open spec fn dynamic_id(c: PathCategory) -> Seq<char> {
    match c {
        PathCategory::Cache => "dynamic-cache"@,
        PathCategory::Logs => "dynamic-logs"@,
        PathCategory::Temp => "dynamic-temp"@,
        PathCategory::Build => "dynamic-build"@,
        PathCategory::Deps => "dynamic-deps"@,
        PathCategory::Archive => "dynamic-archive"@,
        PathCategory::Other => "dynamic-other"@,
    }
}

impl DynamicCleaner {
    pub fn new(base: BaseCleaner, os: Os, category: PathCategory) -> (r: DynamicCleaner)
        ensures
            r.base == base,
            r.os == os,
            r.category == category,
    {
        DynamicCleaner { base, os, category }
    }

    /// The category this cleaner operates on.
    pub fn category(&self) -> (r: &PathCategory)
        ensures
            *r == self.category,
    {
        &self.category
    }

    fn id_str(&self) -> (r: &'static str)
        ensures
            r@ == dynamic_id(self.category),
    {
        match self.category {
            PathCategory::Cache => "dynamic-cache",
            PathCategory::Logs => "dynamic-logs",
            PathCategory::Temp => "dynamic-temp",
            PathCategory::Build => "dynamic-build",
            PathCategory::Deps => "dynamic-deps",
            PathCategory::Archive => "dynamic-archive",
            PathCategory::Other => "dynamic-other",
        }
    }

    /// The boundary of the discovered paths of its category.
    pub fn boundary_for(&self, paths: Vec<String>) -> (r: SafeBoundary)
        ensures
            r.roots@ == paths@,
            r.max_depth is None,
            r.description@ == "Discovered "@ + category_text(self.category) + " paths"@,
    {
        let d = concat3("Discovered ", self.category.as_str(), " paths");
        SafeBoundary::new(paths, d.as_str())
    }

    /// The scan result from the discovered paths of its category (or the
    /// text of the database error): the paths that exist and are old enough
    /// become directories, rated by the confidence in them, requiring the
    /// force flag below 70%.
    pub fn scan(&self, found: &Result<Vec<DiscoveredFacts>, String>, ctx: &CleanerContext, duration_ms: u64) -> (r: ScanResult)
        requires
            found matches Ok(fs) ==> items_size(discovered_items(self.os, ctx.keep_recent_days, fs@)) <= u64::MAX,
        ensures
            r.category@ == dynamic_id(self.category),
            r.scan_duration_ms == duration_ms,
            match found {
                Err(e) => r.items@.len() == 0 && r.total_size == 0 && sviews(r.errors@) == seq![e@],
                Ok(fs) => item_views(r.items@) == discovered_items(self.os, ctx.keep_recent_days, fs@)
                    && r.total_size == items_size(item_views(r.items@)) && r.errors@.len() == 0,
            },
    {
        let id = self.id_str();
        match found {
            Err(e) => {
                let mut errors: Vec<String> = Vec::new();
                errors.push(e.clone());
                assert(sviews(errors@) =~= seq![e@]);
                ScanResult { category: String::from_str(id), items: Vec::new(), total_size: 0, scan_duration_ms: duration_ms, errors }
            },
            Ok(fs) => {
                let keep = ctx.keep_recent_days;
                let mut items: Vec<CleanableItem> = Vec::new();
                let mut i: usize = 0;
                while i < fs.len()
                    invariant
                        i <= fs@.len(),
                        keep == ctx.keep_recent_days,
                        item_views(items@) == discovered_items(self.os, keep, fs@.take(i as int)),
                    decreases fs@.len() - i,
                {
                    proof {
                        assert(fs@.take(i + 1).drop_last() =~= fs@.take(i as int));
                    }
                    let f = &fs[i];
                    let young = keep > 0 && match f.age_days {
                        Some(a) => a < keep,
                        None => false,
                    };
                    if f.exists && !young {
                        let conf = f.record.confidence;
                        let risk = if conf >= 90 {
                            RiskLevel::Low
                        } else if conf >= 60 {
                            RiskLevel::Medium
                        } else {
                            RiskLevel::High
                        };
                        let name = match file_name_of(self.os, f.record.path.as_str()) {
                            Some(n) => n,
                            None => String::new(),
                        };
                        let pct = u64_to_decimal(conf as u64);
                        let mut description = concat3(name.as_str(), " (", pct.as_str());
                        description.append("% confidence)");
                        let it = CleanableItem {
                            path: f.record.path.clone(),
                            size: match f.record.last_size {
                                Some(s) => s,
                                None => f.measured_size,
                            },
                            item_type: ItemType::Directory,
                            age_days: None,
                            description,
                            requires_force: conf < 70,
                            risk_level: risk,
                        };
                        let ghost old = item_views(items@);
                        let ghost iv = it@;
                        items.push(it);
                        proof {
                            assert(item_views(items@) =~= old.push(iv));
                        }
                    }
                    i = i + 1;
                }
                proof {
                    assert(fs@.take(fs@.len() as int) =~= fs@);
                }
                let total = sum_item_sizes(&items);
                ScanResult { category: String::from_str(id), items, total_size: total, scan_duration_ms: duration_ms, errors: Vec::new() }
            },
        }
    }
}

pub open spec fn dynamic_name(c: PathCategory) -> Seq<char> {
    match c {
        PathCategory::Cache => "Discovered Caches"@,
        PathCategory::Logs => "Discovered Logs"@,
        PathCategory::Temp => "Discovered Temp"@,
        PathCategory::Build => "Discovered Build"@,
        PathCategory::Deps => "Discovered Dependencies"@,
        PathCategory::Archive => "Discovered Archives"@,
        PathCategory::Other => "Discovered Other"@,
    }
}

pub open spec fn dynamic_description(c: PathCategory) -> Seq<char> {
    match c {
        PathCategory::Cache => "Cache directories found by path discovery"@,
        PathCategory::Logs => "Log directories found by path discovery"@,
        PathCategory::Temp => "Temporary directories found by path discovery"@,
        PathCategory::Build => "Build artifact directories found by path discovery"@,
        PathCategory::Deps => "Dependency directories found by path discovery"@,
        PathCategory::Archive => "Archive directories found by path discovery"@,
        PathCategory::Other => "Other directories found by path discovery"@,
    }
}

impl Cleaner for DynamicCleaner {
    fn id(&self) -> (r: &'static str)
        ensures
            r@ == dynamic_id(self.category),
    {
        self.id_str()
    }

    fn name(&self) -> (r: &'static str)
        ensures
            r@ == dynamic_name(self.category),
    {
        match self.category {
            PathCategory::Cache => "Discovered Caches",
            PathCategory::Logs => "Discovered Logs",
            PathCategory::Temp => "Discovered Temp",
            PathCategory::Build => "Discovered Build",
            PathCategory::Deps => "Discovered Dependencies",
            PathCategory::Archive => "Discovered Archives",
            PathCategory::Other => "Discovered Other",
        }
    }

    fn description(&self) -> (r: &'static str)
        ensures
            r@ == dynamic_description(self.category),
    {
        match self.category {
            PathCategory::Cache => "Cache directories found by path discovery",
            PathCategory::Logs => "Log directories found by path discovery",
            PathCategory::Temp => "Temporary directories found by path discovery",
            PathCategory::Build => "Build artifact directories found by path discovery",
            PathCategory::Deps => "Dependency directories found by path discovery",
            PathCategory::Archive => "Archive directories found by path discovery",
            PathCategory::Other => "Other directories found by path discovery",
        }
    }

    fn category(&self) -> CleanerCategory
        returns
            CleanerCategory::System,
    {
        CleanerCategory::System
    }

    /// Without the discovered paths at hand, a boundary with no roots.
    fn safe_boundary(&self) -> (r: SafeBoundary)
        ensures
            r.roots@.len() == 0,
            r.max_depth is None,
            r.description@ == "Discovered "@ + category_text(self.category) + " paths"@,
    {
        self.boundary_for(Vec::new())
    }
}

} // verus!
