//! The user's application caches.

use vstd::prelude::*;
use crate::cleaners::base::{BaseCleaner, RootScan, not_excluded, scans_items, without_excluded};
use crate::cleaners::traits::{CleanerCategory, CleanerContext, Cleaner, ScanResult, item_views, items_size};
use crate::path::{Os, join, join_path};
use crate::safety::boundaries::SafeBoundary;
use crate::safety::boundaries::presets;
use crate::scanner::walker::ScanOptions;
use crate::text::{sviews, clone_strings};

verus! {

/// Cleaner for user cache directories.
#[derive(Debug, Clone)]
pub struct SystemCachesCleaner {
    pub base: BaseCleaner,
    pub os: Os,
    pub home: String,
    /// Where caches are looked for: `Library/Caches` in the home directory,
    /// then the configured paths.
    pub paths: Vec<String>,
    /// Paths left out.
    pub exclude: Vec<String>,
}

impl SystemCachesCleaner {
    pub fn new(base: BaseCleaner, os: Os, home: &str, config: &crate::config::schema::CategoryConfig) -> (r: SystemCachesCleaner)
        ensures
            sviews(r.paths@) == seq![join(os, home@, "Library/Caches"@)] + sviews(config.paths@),
            r.exclude@ == config.exclude@,
            r.os == os,
            r.home@ == home@,
    {
        let mut paths: Vec<String> = Vec::new();
        paths.push(join_path(os, home, "Library/Caches"));
        let ghost first = sviews(paths@);
        let mut extra = clone_strings(&config.paths);
        paths.append(&mut extra);
        assert(sviews(paths@) =~= first + sviews(config.paths@));
        SystemCachesCleaner { base, os, home: String::from_str(home), paths, exclude: clone_strings(&config.exclude) }
    }

    /// Top-level directories only.
    pub fn scan_options(&self) -> (r: ScanOptions)
        ensures
            r.top_level_only && r.directories_only,
            r.max_depth is None && r.min_age_days is None && r.min_size is None && !r.follow_links,
    {
        let mut o = ScanOptions::default();
        o.top_level_only = true;
        o.directories_only = true;
        o
    }

    /// The scan result from the scans of its paths, without the excluded
    /// paths.
    pub fn scan(&self, scans: &Vec<RootScan>, ctx: &CleanerContext, duration_ms: u64) -> (r: ScanResult)
        requires
            items_size(scans_items(self.os, ctx.keep_recent_days, scans@)) <= u64::MAX,
        ensures
            r.category@ == "system-cache"@,
            item_views(r.items@) == not_excluded(self.os, scans_items(self.os, ctx.keep_recent_days, scans@), sviews(self.exclude@)),
            r.total_size == items_size(item_views(r.items@)),
    {
        let all = self.base.scan_dirs(self.os, "system-cache", scans, ctx, duration_ms);
        without_excluded(self.os, all, &self.exclude)
    }
}

impl Cleaner for SystemCachesCleaner {
    fn id(&self) -> (r: &'static str)
        ensures
            r@ == "system-cache"@,
    {
        "system-cache"
    }

    fn name(&self) -> (r: &'static str)
        ensures
            r@ == "System Caches"@,
    {
        "System Caches"
    }

    fn description(&self) -> (r: &'static str)
        ensures
            r@ == "User application caches (~/Library/Caches)"@,
    {
        "User application caches (~/Library/Caches)"
    }

    fn category(&self) -> (r: CleanerCategory)
        ensures
            r == CleanerCategory::System,
    {
        CleanerCategory::System
    }

    fn safe_boundary(&self) -> (r: SafeBoundary)
        ensures
            presets::home_boundary(r, self.os, self.home@, seq!["Library/Caches"], "User cache directories"),
    {
        presets::user_caches(self.os, self.home.as_str())
    }
}

} // verus!
