//! The Cargo registry caches.

use vstd::prelude::*;
use crate::cleaners::base::{BaseCleaner, RootScan, not_excluded, scans_items, without_excluded};
use crate::cleaners::traits::{CleanerCategory, CleanerContext, Cleaner, ScanResult, item_views, items_size};
use crate::path::{Os, join, join_path};
use crate::safety::boundaries::SafeBoundary;
use crate::safety::boundaries::presets;
use crate::scanner::walker::ScanOptions;
use crate::text::{sviews, clone_strings};

verus! {

/// Cleaner for the the Cargo registry caches.
#[derive(Debug, Clone)]
pub struct CargoCleaner {
    pub base: BaseCleaner,
    pub os: Os,
    pub home: String,
    /// The cache directories.
    pub paths: Vec<String>,
    /// Keep entries used in the last this many days.
    pub keep_recent_days: u32,
}

impl CargoCleaner {
    pub fn new(base: BaseCleaner, os: Os, home: &str, config: &crate::config::schema::CargoConfig) -> (r: CargoCleaner)
        ensures
            sviews(r.paths@) == seq![join(os, home@, ".cargo/registry/cache"@), join(os, home@, ".cargo/registry/src"@)],
            r.os == os,
            r.home@ == home@,
            r.keep_recent_days == config.keep_recent_days,
    {
        let mut paths: Vec<String> = Vec::new();
        paths.push(join_path(os, home, ".cargo/registry/cache"));
        paths.push(join_path(os, home, ".cargo/registry/src"));
        assert(sviews(paths@) =~= seq![join(os, home@, ".cargo/registry/cache"@), join(os, home@, ".cargo/registry/src"@)]);
        CargoCleaner { base, os, home: String::from_str(home), paths, keep_recent_days: config.keep_recent_days }
    }

    /// Top-level directories only.
    pub fn scan_options(&self) -> (r: ScanOptions)
        ensures
            r.top_level_only && r.directories_only,
            r.max_depth is None && r.min_size is None && !r.follow_links,
            r.min_age_days == (if self.keep_recent_days > 0 { Some(self.keep_recent_days) } else { None }),
    {
        let mut o = ScanOptions::default();
        o.top_level_only = true;
        o.directories_only = true;
        o.min_age_days = if self.keep_recent_days > 0 { Some(self.keep_recent_days) } else { None };
        o
    }

    /// The scan result from the scans of its directories.
    pub fn scan(&self, scans: &Vec<RootScan>, ctx: &CleanerContext, duration_ms: u64) -> (r: ScanResult)
        requires
            items_size(scans_items(self.os, ctx.keep_recent_days, scans@)) <= u64::MAX,
        ensures
            r.category@ == "cargo"@,
            item_views(r.items@) == scans_items(self.os, ctx.keep_recent_days, scans@),
            r.total_size == items_size(item_views(r.items@)),
    {
        self.base.scan_dirs(self.os, "cargo", scans, ctx, duration_ms)
    }
}

impl Cleaner for CargoCleaner {
    fn id(&self) -> (r: &'static str)
        ensures
            r@ == "cargo"@,
    {
        "cargo"
    }

    fn name(&self) -> (r: &'static str)
        ensures
            r@ == "Cargo Cache"@,
    {
        "Cargo Cache"
    }

    fn description(&self) -> (r: &'static str)
        ensures
            r@ == "Rust/Cargo package cache (~/.cargo/registry)"@,
    {
        "Rust/Cargo package cache (~/.cargo/registry)"
    }

    fn category(&self) -> (r: CleanerCategory)
        ensures
            r == CleanerCategory::Developer,
    {
        CleanerCategory::Developer
    }

    fn safe_boundary(&self) -> (r: SafeBoundary)
        ensures
            presets::home_boundary(r, self.os, self.home@, seq![".cargo/registry/cache", ".cargo/registry/src"], "Cargo cache"),
    {
        presets::cargo(self.os, self.home.as_str())
    }
}

} // verus!
