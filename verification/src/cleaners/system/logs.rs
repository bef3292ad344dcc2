//! The user's application logs.

use vstd::prelude::*;
use crate::cleaners::base::{BaseCleaner, RootScan, not_excluded, scans_items, without_excluded};
use crate::cleaners::traits::{CleanerCategory, CleanerContext, Cleaner, ScanResult, item_views, items_size};
use crate::path::{Os, join, join_path};
use crate::safety::boundaries::SafeBoundary;
use crate::safety::boundaries::presets;
use crate::scanner::walker::ScanOptions;
use crate::text::{sviews, clone_strings};

verus! {

/// Cleaner for user log directories.
#[derive(Debug, Clone)]
pub struct SystemLogsCleaner {
    pub base: BaseCleaner,
    pub os: Os,
    pub home: String,
    /// Where logs are looked for: `Library/Logs` in the home directory,
    /// then the configured paths.
    pub paths: Vec<String>,
    /// Paths left out.
    pub exclude: Vec<String>,
}

impl SystemLogsCleaner {
    pub fn new(base: BaseCleaner, os: Os, home: &str, config: &crate::config::schema::CategoryConfig) -> (r: SystemLogsCleaner)
        ensures
            sviews(r.paths@) == seq![join(os, home@, "Library/Logs"@)] + sviews(config.paths@),
            r.exclude@ == config.exclude@,
            r.os == os,
            r.home@ == home@,
    {
        let mut paths: Vec<String> = Vec::new();
        paths.push(join_path(os, home, "Library/Logs"));
        let ghost first = sviews(paths@);
        let mut extra = clone_strings(&config.paths);
        paths.append(&mut extra);
        assert(sviews(paths@) =~= first + sviews(config.paths@));
        SystemLogsCleaner { base, os, home: String::from_str(home), paths, exclude: clone_strings(&config.exclude) }
    }

    /// Top-level directories only.
    pub fn scan_options(&self) -> (r: ScanOptions)
        ensures
            r.top_level_only && r.directories_only,
            r.max_depth is None && r.min_age_days is None && r.min_size is None && !r.follow_links,
    {
        let mut o = ScanOptions::default();
        o.top_level_only = true;
        o.directories_only = true;
        o
    }

    /// The scan result from the scans of its paths, without the excluded
    /// paths.
    pub fn scan(&self, scans: &Vec<RootScan>, ctx: &CleanerContext, duration_ms: u64) -> (r: ScanResult)
        requires
            items_size(scans_items(self.os, ctx.keep_recent_days, scans@)) <= u64::MAX,
        ensures
            r.category@ == "system-logs"@,
            item_views(r.items@) == not_excluded(self.os, scans_items(self.os, ctx.keep_recent_days, scans@), sviews(self.exclude@)),
            r.total_size == items_size(item_views(r.items@)),
    {
        let all = self.base.scan_dirs(self.os, "system-logs", scans, ctx, duration_ms);
        without_excluded(self.os, all, &self.exclude)
    }
}

impl Cleaner for SystemLogsCleaner {
    fn id(&self) -> (r: &'static str)
        ensures
            r@ == "system-logs"@,
    {
        "system-logs"
    }

    fn name(&self) -> (r: &'static str)
        ensures
            r@ == "System Logs"@,
    {
        "System Logs"
    }

    fn description(&self) -> (r: &'static str)
        ensures
            r@ == "User application logs (~/Library/Logs)"@,
    {
        "User application logs (~/Library/Logs)"
    }

    fn category(&self) -> (r: CleanerCategory)
        ensures
            r == CleanerCategory::System,
    {
        CleanerCategory::System
    }

    fn safe_boundary(&self) -> (r: SafeBoundary)
        ensures
            presets::home_boundary(r, self.os, self.home@, seq!["Library/Logs"], "User log directories"),
    {
        presets::user_logs(self.os, self.home.as_str())
    }
}

} // verus!
