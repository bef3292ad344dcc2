//! The npm package cache.

use vstd::prelude::*;
use crate::cleaners::base::{BaseCleaner, RootScan, not_excluded, scans_items, without_excluded};
use crate::cleaners::traits::{CleanerCategory, CleanerContext, Cleaner, ScanResult, item_views, items_size};
use crate::path::{Os, join, join_path};
use crate::safety::boundaries::SafeBoundary;
use crate::safety::boundaries::presets;
use crate::scanner::walker::ScanOptions;
use crate::text::{sviews, clone_strings};

verus! {

/// Cleaner for the the npm package cache.
#[derive(Debug, Clone)]
pub struct NpmCleaner {
    pub base: BaseCleaner,
    pub os: Os,
    pub home: String,
    /// The cache directories.
    pub paths: Vec<String>,
}

impl NpmCleaner {
    pub fn new(base: BaseCleaner, os: Os, home: &str, config: &crate::config::schema::CategoryConfig) -> (r: NpmCleaner)
        ensures
            sviews(r.paths@) == seq![join(os, home@, ".npm/_cacache"@)],
            r.os == os,
            r.home@ == home@,
    {
        let mut paths: Vec<String> = Vec::new();
        paths.push(join_path(os, home, ".npm/_cacache"));
        assert(sviews(paths@) =~= seq![join(os, home@, ".npm/_cacache"@)]);
        NpmCleaner { base, os, home: String::from_str(home), paths }
    }

    /// Top-level directories only.
    pub fn scan_options(&self) -> (r: ScanOptions)
        ensures
            r.top_level_only && r.directories_only,
            r.max_depth is None && r.min_size is None && !r.follow_links,
            r.min_age_days is None,
    {
        let mut o = ScanOptions::default();
        o.top_level_only = true;
        o.directories_only = true;
        o
    }

    /// The scan result from the scans of its directories.
    pub fn scan(&self, scans: &Vec<RootScan>, ctx: &CleanerContext, duration_ms: u64) -> (r: ScanResult)
        requires
            items_size(scans_items(self.os, ctx.keep_recent_days, scans@)) <= u64::MAX,
        ensures
            r.category@ == "npm"@,
            item_views(r.items@) == scans_items(self.os, ctx.keep_recent_days, scans@),
            r.total_size == items_size(item_views(r.items@)),
    {
        self.base.scan_dirs(self.os, "npm", scans, ctx, duration_ms)
    }
}

impl Cleaner for NpmCleaner {
    fn id(&self) -> (r: &'static str)
        ensures
            r@ == "npm"@,
    {
        "npm"
    }

    fn name(&self) -> (r: &'static str)
        ensures
            r@ == "npm Cache"@,
    {
        "npm Cache"
    }

    fn description(&self) -> (r: &'static str)
        ensures
            r@ == "npm package cache (~/.npm/_cacache)"@,
    {
        "npm package cache (~/.npm/_cacache)"
    }

    fn category(&self) -> (r: CleanerCategory)
        ensures
            r == CleanerCategory::Developer,
    {
        CleanerCategory::Developer
    }

    fn safe_boundary(&self) -> (r: SafeBoundary)
        ensures
            presets::home_boundary(r, self.os, self.home@, seq![".npm"], "npm cache"),
    {
        presets::npm(self.os, self.home.as_str())
    }
}

} // verus!
