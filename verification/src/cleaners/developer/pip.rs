//! The pip package caches.

use vstd::prelude::*;
use crate::cleaners::base::{BaseCleaner, RootScan, not_excluded, scans_items, without_excluded};
use crate::cleaners::traits::{CleanerCategory, CleanerContext, Cleaner, ScanResult, item_views, items_size};
use crate::path::{Os, join, join_path};
use crate::safety::boundaries::SafeBoundary;
use crate::safety::boundaries::presets;
use crate::scanner::walker::ScanOptions;
use crate::text::{sviews, clone_strings};

verus! {

/// Cleaner for the the pip package caches.
#[derive(Debug, Clone)]
pub struct PipCleaner {
    pub base: BaseCleaner,
    pub os: Os,
    pub home: String,
    /// The cache directories.
    pub paths: Vec<String>,
}

impl PipCleaner {
    pub fn new(base: BaseCleaner, os: Os, home: &str, config: &crate::config::schema::CategoryConfig) -> (r: PipCleaner)
        ensures
            sviews(r.paths@) == seq![join(os, home@, "Library/Caches/pip"@), join(os, home@, ".cache/pip"@)],
            r.os == os,
            r.home@ == home@,
    {
        let mut paths: Vec<String> = Vec::new();
        paths.push(join_path(os, home, "Library/Caches/pip"));
        paths.push(join_path(os, home, ".cache/pip"));
        assert(sviews(paths@) =~= seq![join(os, home@, "Library/Caches/pip"@), join(os, home@, ".cache/pip"@)]);
        PipCleaner { base, os, home: String::from_str(home), paths }
    }

    /// Top-level directories only.
    pub fn scan_options(&self) -> (r: ScanOptions)
        ensures
            r.top_level_only && r.directories_only,
            r.max_depth is None && r.min_size is None && !r.follow_links,
            r.min_age_days is None,
    {
        let mut o = ScanOptions::default();
        o.top_level_only = true;
        o.directories_only = true;
        o
    }

    /// The scan result from the scans of its directories.
    pub fn scan(&self, scans: &Vec<RootScan>, ctx: &CleanerContext, duration_ms: u64) -> (r: ScanResult)
        requires
            items_size(scans_items(self.os, ctx.keep_recent_days, scans@)) <= u64::MAX,
        ensures
            r.category@ == "pip"@,
            item_views(r.items@) == scans_items(self.os, ctx.keep_recent_days, scans@),
            r.total_size == items_size(item_views(r.items@)),
    {
        self.base.scan_dirs(self.os, "pip", scans, ctx, duration_ms)
    }
}

impl Cleaner for PipCleaner {
    fn id(&self) -> (r: &'static str)
        ensures
            r@ == "pip"@,
    {
        "pip"
    }

    fn name(&self) -> (r: &'static str)
        ensures
            r@ == "pip Cache"@,
    {
        "pip Cache"
    }

    fn description(&self) -> (r: &'static str)
        ensures
            r@ == "Python pip package cache"@,
    {
        "Python pip package cache"
    }

    fn category(&self) -> (r: CleanerCategory)
        ensures
            r == CleanerCategory::Developer,
    {
        CleanerCategory::Developer
    }

    fn safe_boundary(&self) -> (r: SafeBoundary)
        ensures
            presets::home_boundary(r, self.os, self.home@, seq!["Library/Caches/pip", ".cache/pip"], "pip cache"),
    {
        presets::pip(self.os, self.home.as_str())
    }
}

} // verus!
