//! Xcode (macOS): derived data, archives and device support files.

use vstd::prelude::*;
use crate::cleaners::base::BaseCleaner;
use crate::cleaners::traits::{
    CleanableItem, CleanerCategory, Cleaner, ItemView, RiskLevel, ScanResult, item_views, items_size, sum_item_sizes,
};
use crate::config::schema::XcodeConfig;
use crate::path::{Os, extension, extension_of, file_name, file_name_of, join, join_path};
use crate::safety::boundaries::SafeBoundary;
use crate::safety::boundaries::presets;
use crate::scanner::walker::ScanOptions;
use crate::text::{clone_strings, concat2, contains_seq, str_contains, str_eq, sviews};

verus! {

/// Cleaner for Xcode developer directories.
#[derive(Debug, Clone)]
pub struct XcodeCleaner {
    pub base: BaseCleaner,
    pub os: Os,
    pub home: String,
    pub derived_data_path: String,
    pub archives_path: String,
    pub device_support_paths: Vec<String>,
    pub keep_recent_archives_days: u32,
    pub keep_ios_versions: Vec<String>,
}

/// An archive item: a `.xcarchive` bundle, medium risk, described as an
/// archive.
pub open spec fn archive_items_spec(os: Os, items: Seq<ItemView>) -> Seq<ItemView>
    decreases items.len(),
{
    if items.len() == 0 {
        seq![]
    } else {
        let d = archive_items_spec(os, items.drop_last());
        let it = items.last();
        if extension(os, it.path) == Some("xcarchive"@) {
            d.push(ItemView { risk_level: RiskLevel::Medium, description: "Archive: "@ + it.description, ..it })
        } else {
            d
        }
    }
}

/// A version listed to keep appears in the item's name.
pub open spec fn kept_version(os: Os, path: Seq<char>, keep: Seq<Seq<char>>) -> bool {
    exists|i: int| 0 <= i < keep.len() && (file_name(os, path) matches Some(n) && contains_seq(n, #[trigger] keep[i]))
}

/// Device support items not kept, described by their names.
pub open spec fn device_items_spec(os: Os, items: Seq<ItemView>, keep: Seq<Seq<char>>) -> Seq<ItemView>
    decreases items.len(),
{
    if items.len() == 0 {
        seq![]
    } else {
        let d = device_items_spec(os, items.drop_last(), keep);
        let it = items.last();
        if kept_version(os, it.path, keep) {
            d
        } else {
            let name = match file_name(os, it.path) {
                Some(n) => n,
                None => seq![],
            };
            d.push(ItemView { description: "Device Support: "@ + name, ..it })
        }
    }
}

impl XcodeCleaner {
    pub fn new(base: BaseCleaner, os: Os, home: &str, config: &XcodeConfig) -> (r: XcodeCleaner)
        ensures
            r.derived_data_path@ == join(os, join(os, home@, "Library/Developer/Xcode"@), "DerivedData"@),
            r.archives_path@ == join(os, join(os, home@, "Library/Developer/Xcode"@), "Archives"@),
            sviews(r.device_support_paths@) == seq![
                join(os, join(os, home@, "Library/Developer/Xcode"@), "iOS DeviceSupport"@),
                join(os, join(os, home@, "Library/Developer/Xcode"@), "watchOS DeviceSupport"@),
                join(os, join(os, home@, "Library/Developer/Xcode"@), "tvOS DeviceSupport"@),
            ],
            r.keep_recent_archives_days == config.keep_recent_archives_days,
            r.keep_ios_versions@ == config.keep_ios_versions@,
            r.os == os,
            r.home@ == home@,
    {
        let developer = join_path(os, home, "Library/Developer/Xcode");
        let mut device: Vec<String> = Vec::new();
        device.push(join_path(os, developer.as_str(), "iOS DeviceSupport"));
        device.push(join_path(os, developer.as_str(), "watchOS DeviceSupport"));
        device.push(join_path(os, developer.as_str(), "tvOS DeviceSupport"));
        let ghost dv = sviews(device@);
        assert(dv =~= seq![
            join(os, developer@, "iOS DeviceSupport"@),
            join(os, developer@, "watchOS DeviceSupport"@),
            join(os, developer@, "tvOS DeviceSupport"@),
        ]);
        XcodeCleaner {
            base,
            os,
            home: String::from_str(home),
            derived_data_path: join_path(os, developer.as_str(), "DerivedData"),
            archives_path: join_path(os, developer.as_str(), "Archives"),
            device_support_paths: device,
            keep_recent_archives_days: config.keep_recent_archives_days,
            keep_ios_versions: clone_strings(&config.keep_ios_versions),
        }
    }

    /// How derived data and device support are scanned: top-level
    /// directories.
    pub fn top_level_options(&self) -> (r: ScanOptions)
        ensures
            r.top_level_only && r.directories_only && r.min_age_days is None,
    {
        let mut o = ScanOptions::default();
        o.top_level_only = true;
        o.directories_only = true;
        o
    }

    /// How archives are scanned: directories at any depth, at least as old
    /// as the configured age.
    pub fn archive_options(&self) -> (r: ScanOptions)
        ensures
            !r.top_level_only && r.directories_only,
            r.min_age_days == (if self.keep_recent_archives_days > 0 { Some(self.keep_recent_archives_days) } else { None }),
    {
        let mut o = ScanOptions::default();
        o.directories_only = true;
        o.min_age_days = if self.keep_recent_archives_days > 0 { Some(self.keep_recent_archives_days) } else { None };
        o
    }

    /// The archives among the scanned items.
    pub fn archive_items(&self, items: &Vec<CleanableItem>) -> (r: Vec<CleanableItem>)
        requires
            forall|i: int| 0 <= i < items@.len() ==> (#[trigger] items@[i]).path@.len() < 0x7fff_ffff_ffff_ffff,
        ensures
            item_views(r@) == archive_items_spec(self.os, item_views(items@)),
    {
        let mut r: Vec<CleanableItem> = Vec::new();
        let mut i: usize = 0;
        while i < items.len()
            invariant
                i <= items@.len(),
                forall|q: int| 0 <= q < items@.len() ==> (#[trigger] items@[q]).path@.len() < 0x7fff_ffff_ffff_ffff,
                item_views(r@) == archive_items_spec(self.os, item_views(items@.take(i as int))),
            decreases items@.len() - i,
        {
            proof {
                assert(item_views(items@.take(i + 1)).drop_last() =~= item_views(items@.take(i as int)));
            }
            let it = &items[i];
            let is_archive = match extension_of(self.os, it.path.as_str()) {
                Some(e) => str_eq(e.as_str(), "xcarchive"),
                None => false,
            };
            if is_archive {
                let ghost old = item_views(r@);
                let mut c = it.duplicate();
                c.risk_level = RiskLevel::Medium;
                c.description = concat2("Archive: ", it.description.as_str());
                let ghost cv = c@;
                r.push(c);
                assert(item_views(r@) =~= old.push(cv));
            }
            i = i + 1;
        }
        assert(items@.take(items@.len() as int) =~= items@);
        r
    }

    /// The device support items not kept for a listed version.
    pub fn device_support_items(&self, items: &Vec<CleanableItem>) -> (r: Vec<CleanableItem>)
        ensures
            item_views(r@) == device_items_spec(self.os, item_views(items@), sviews(self.keep_ios_versions@)),
    {
        let ghost keep = sviews(self.keep_ios_versions@);
        let mut r: Vec<CleanableItem> = Vec::new();
        let mut i: usize = 0;
        while i < items.len()
            invariant
                i <= items@.len(),
                keep == sviews(self.keep_ios_versions@),
                item_views(r@) == device_items_spec(self.os, item_views(items@.take(i as int)), keep),
            decreases items@.len() - i,
        {
            proof {
                assert(item_views(items@.take(i + 1)).drop_last() =~= item_views(items@.take(i as int)));
            }
            let it = &items[i];
            let name = file_name_of(self.os, it.path.as_str());
            let mut kept = false;
            match &name {
                Some(n) => {
                    let mut k: usize = 0;
                    while k < self.keep_ios_versions.len()
                        invariant
                            k <= self.keep_ios_versions@.len(),
                            keep == sviews(self.keep_ios_versions@),
                            file_name(self.os, it.path@) == Some(n@),
                            kept == exists|q: int| 0 <= q < k && contains_seq(n@, #[trigger] keep[q]),
                        decreases self.keep_ios_versions@.len() - k,
                    {
                        assert(keep[k as int] == self.keep_ios_versions@[k as int]@);
                        if str_contains(n.as_str(), self.keep_ios_versions[k].as_str()) {
                            kept = true;
                        }
                        k = k + 1;
                    }
                },
                None => {},
            }
            assert(kept == kept_version(self.os, it.path@, keep));
            if !kept {
                let ghost old = item_views(r@);
                let mut c = it.duplicate();
                c.description = match &name {
                    Some(n) => concat2("Device Support: ", n.as_str()),
                    None => String::from_str("Device Support: "),
                };
                proof {
                    reveal_strlit("Device Support: ");
                    assert("Device Support: "@ + Seq::<char>::empty() =~= "Device Support: "@);
                }
                let ghost cv = c@;
                r.push(c);
                assert(item_views(r@) =~= old.push(cv));
            }
            i = i + 1;
        }
        assert(items@.take(items@.len() as int) =~= items@);
        r
    }

    /// The scan result: derived data, then archives, then device support.
    pub fn scan(&self, derived: Vec<CleanableItem>, archives: Vec<CleanableItem>, device: Vec<CleanableItem>, duration_ms: u64) -> (r: ScanResult)
        requires
            items_size(item_views(derived@) + item_views(archives@) + item_views(device@)) <= u64::MAX,
        ensures
            r.category@ == "xcode"@,
            item_views(r.items@) == item_views(derived@) + item_views(archives@) + item_views(device@),
            r.total_size == items_size(item_views(r.items@)),
            r.scan_duration_ms == duration_ms,
            r.errors@.len() == 0,
    {
        let mut items = derived;
        let mut a = archives;
        let mut d = device;
        let ghost v1 = item_views(items@);
        let ghost v2 = item_views(a@);
        let ghost v3 = item_views(d@);
        items.append(&mut a);
        assert(item_views(items@) =~= v1 + v2);
        items.append(&mut d);
        assert(item_views(items@) =~= v1 + v2 + v3);
        let total = sum_item_sizes(&items);
        ScanResult { category: String::from_str("xcode"), items, total_size: total, scan_duration_ms: duration_ms, errors: Vec::new() }
    }
}

impl Cleaner for XcodeCleaner {
    fn id(&self) -> (r: &'static str)
        ensures
            r@ == "xcode"@,
    {
        "xcode"
    }

    fn name(&self) -> (r: &'static str)
        ensures
            r@ == "Xcode"@,
    {
        "Xcode"
    }

    fn description(&self) -> (r: &'static str)
        ensures
            r@ == "Xcode build artifacts (DerivedData, Archives, DeviceSupport)"@,
    {
        "Xcode build artifacts (DerivedData, Archives, DeviceSupport)"
    }

    fn category(&self) -> (r: CleanerCategory)
        ensures
            r == CleanerCategory::Developer,
    {
        CleanerCategory::Developer
    }

    fn safe_boundary(&self) -> (r: SafeBoundary)
        ensures
            presets::home_boundary(r, self.os, self.home@, seq![
                "Library/Developer/Xcode/DerivedData",
                "Library/Developer/Xcode/Archives",
                "Library/Developer/Xcode/iOS DeviceSupport",
                "Library/Developer/Xcode/watchOS DeviceSupport",
                "Library/Developer/Xcode/tvOS DeviceSupport",
            ], "Xcode developer directories"),
    {
        presets::xcode(self.os, self.home.as_str())
    }
}

} // verus!
