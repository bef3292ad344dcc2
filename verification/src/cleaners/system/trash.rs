//! The user's trash: what emptying it lists, and the checks before an item
//! is deleted for good.

use vstd::prelude::*;
use crate::cleaners::traits::{
    CleanableItem, CleanerCategory, CleanerContext, Cleaner, ItemType, ItemView, RiskLevel, ScanResult, item_views,
    items_size, sum_item_sizes,
};
use crate::config::schema::TrashConfig;
use crate::path::{Os, join, join_path, path_starts_with, starts_with_path};
use crate::safety::boundaries::{SafeBoundary, oviews, within};
use crate::safety::boundaries::presets;
use crate::scanner::walker::{ScanOptions, ScannedItem};
use crate::text::{concat2, sviews};

verus! {

/// Cleaner for the user's trash.
#[derive(Debug, Clone)]
pub struct TrashCleaner {
    pub os: Os,
    pub home: String,
    /// The trash directory: `.Trash` in the home directory.
    pub trash_path: String,
    /// Minimum age in days before items can be cleaned.
    pub min_age_days: u32,
}

pub open spec fn trash_item(s: ScannedItem) -> ItemView {
    ItemView {
        path: s.path@,
        size: s.size,
        item_type: if s.is_dir { ItemType::Directory } else { ItemType::File },
        age_days: s.age_days,
        description: "Trash item"@,
        requires_force: false,
        risk_level: RiskLevel::Low,
    }
}

/// What emptying the trash decides for an item.
#[derive(Debug, Clone)]
pub enum TrashStep {
    /// The item fails, with the reason.
    Fail(String),
    /// The item counts as cleaned (a dry run).
    Count,
    /// Delete the item.
    Delete,
}

impl TrashCleaner {
    pub fn new(os: Os, home: &str, config: &TrashConfig) -> (r: TrashCleaner)
        ensures
            r.trash_path@ == join(os, home@, ".Trash"@),
            r.min_age_days == config.min_age_days,
            r.os == os,
            r.home@ == home@,
    {
        TrashCleaner {
            os,
            home: String::from_str(home),
            trash_path: join_path(os, home, ".Trash"),
            min_age_days: config.min_age_days,
        }
    }

    /// Top-level items of the trash, at least as old as the configured age,
    /// or as the context's recent days when none is configured.
    pub fn scan_options(&self, ctx: &CleanerContext) -> (r: ScanOptions)
        ensures
            r.top_level_only,
            !r.directories_only,
            r.min_age_days == (if self.min_age_days > 0 {
                Some(self.min_age_days)
            } else if ctx.keep_recent_days > 0 {
                Some(ctx.keep_recent_days)
            } else {
                None
            }),
            r.max_depth is None && r.min_size is None && !r.follow_links,
    {
        let mut o = ScanOptions::default();
        o.top_level_only = true;
        o.min_age_days = if self.min_age_days > 0 {
            Some(self.min_age_days)
        } else if ctx.keep_recent_days > 0 {
            Some(ctx.keep_recent_days)
        } else {
            None
        };
        o
    }

    /// The scan result from the entries found in the trash: each a trash
    /// item.
    pub fn scan(&self, scanned: &Vec<ScannedItem>, duration_ms: u64) -> (r: ScanResult)
        requires
            items_size(scanned@.map_values(|s: ScannedItem| trash_item(s))) <= u64::MAX,
        ensures
            r.category@ == "trash"@,
            item_views(r.items@) == scanned@.map_values(|s: ScannedItem| trash_item(s)),
            r.total_size == items_size(item_views(r.items@)),
            r.scan_duration_ms == duration_ms,
            r.errors@.len() == 0,
    {
        let mut items: Vec<CleanableItem> = Vec::new();
        let mut i: usize = 0;
        while i < scanned.len()
            invariant
                i <= scanned@.len(),
                item_views(items@) == scanned@.take(i as int).map_values(|s: ScannedItem| trash_item(s)),
            decreases scanned@.len() - i,
        {
            let s = &scanned[i];
            let ghost old = item_views(items@);
            let it = CleanableItem {
                path: s.path.clone(),
                size: s.size,
                item_type: if s.is_dir { ItemType::Directory } else { ItemType::File },
                age_days: s.age_days,
                description: String::from_str("Trash item"),
                requires_force: false,
                risk_level: RiskLevel::Low,
            };
            let ghost iv = it@;
            items.push(it);
            i = i + 1;
            proof {
                assert(item_views(items@) =~= old.push(iv));
                assert(item_views(items@) =~= scanned@.take(i as int).map_values(|s: ScannedItem| trash_item(s)));
            }
        }
        assert(scanned@.take(scanned@.len() as int) =~= scanned@);
        let total = sum_item_sizes(&items);
        ScanResult { category: String::from_str("trash"), items, total_size: total, scan_duration_ms: duration_ms, errors: Vec::new() }
    }

    /// What emptying the trash decides for an item, from what resolving its
    /// path gave and what resolving the boundary's roots gave: the item
    /// fails when it cannot be resolved, when it lies outside the trash
    /// directory, or when it is not within the boundary; otherwise it counts
    /// (a dry run) or is deleted.
    pub fn clean_step(&self, canonical: &Result<String, String>, root_canonicals: &Vec<Option<String>>, ctx: &CleanerContext) -> (r: TrashStep)
        requires
            root_canonicals.len() == 1,
        ensures
            match canonical {
                Err(e) => r matches TrashStep::Fail(m) && m@ == "Cannot resolve path: "@ + e@,
                Ok(c) => if !path_starts_with(self.os, c@, self.trash_path@) {
                    r matches TrashStep::Fail(m) && m@ == "Path is outside trash directory - refusing to delete"@
                } else if !within(self.os, c@, oviews(root_canonicals@), None) {
                    r matches TrashStep::Fail(m) && m@ == "Path fails boundary check"@
                } else if ctx.dry_run {
                    r is Count
                } else {
                    r is Delete
                },
            },
    {
        match canonical {
            Err(e) => TrashStep::Fail(concat2("Cannot resolve path: ", e.as_str())),
            Ok(c) => {
                if !starts_with_path(self.os, c.as_str(), self.trash_path.as_str()) {
                    return TrashStep::Fail(String::from_str("Path is outside trash directory - refusing to delete"));
                }
                let boundary = self.safe_boundary();
                assert(sviews(boundary.roots@).len() == boundary.roots@.len());
                match boundary.contains(self.os, c.as_str(), &Ok(c.clone()), root_canonicals) {
                    Ok(true) => {},
                    _ => {
                        return TrashStep::Fail(String::from_str("Path fails boundary check"));
                    },
                }
                if ctx.dry_run {
                    TrashStep::Count
                } else {
                    TrashStep::Delete
                }
            },
        }
    }
}

impl Cleaner for TrashCleaner {
    fn id(&self) -> (r: &'static str)
        ensures
            r@ == "trash"@,
    {
        "trash"
    }

    fn name(&self) -> (r: &'static str)
        ensures
            r@ == "Trash"@,
    {
        "Trash"
    }

    fn description(&self) -> (r: &'static str)
        ensures
            r@ == "Empty the user's trash (~/.Trash)"@,
    {
        "Empty the user's trash (~/.Trash)"
    }

    fn category(&self) -> (r: CleanerCategory)
        ensures
            r == CleanerCategory::System,
    {
        CleanerCategory::System
    }

    fn safe_boundary(&self) -> (r: SafeBoundary)
        ensures
            presets::home_boundary(r, self.os, self.home@, seq![".Trash"], "User trash"),
    {
        presets::user_trash(self.os, self.home.as_str())
    }
}

} // verus!
