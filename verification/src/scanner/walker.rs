//! Directory walks of the cleaners: which entries a walk enters, which
//! entries become scanned items, and their total size.

use vstd::prelude::*;
use crate::path::same_path_exec;
use crate::path::same_path;
use crate::safety::boundaries::SafeBoundary;
use crate::safety::protected_paths::{is_protected, protected_spec};
use crate::safety::validator::{PathProbe, PathValidator, ValidationResult, ValidationView, validate_spec};
use crate::scanner::size::{sum_u64};

verus! {

/// Options for scanning directories.
#[derive(Debug, Clone)]
pub struct ScanOptions {
    /// Maximum depth to traverse (`None`: unlimited).
    pub max_depth: Option<usize>,
    /// Minimum age in days.
    pub min_age_days: Option<u32>,
    /// Minimum size in bytes.
    pub min_size: Option<u64>,
    /// Only include directories.
    pub directories_only: bool,
    /// Only scan top-level items.
    pub top_level_only: bool,
    /// Follow symlinks (not recommended, for safety).
    pub follow_links: bool,
}

impl Default for ScanOptions {
    /// No limits, files and directories at every depth, symlinks never
    /// followed.
    fn default() -> (r: Self)
        ensures
            r.max_depth is None,
            r.min_age_days is None,
            r.min_size is None,
            !r.directories_only,
            !r.top_level_only,
            !r.follow_links,
    {
        ScanOptions {
            max_depth: None,
            min_age_days: None,
            min_size: None,
            directories_only: false,
            top_level_only: false,
            follow_links: false,
        }
    }
}

/// A scanned item with its metadata.
#[derive(Debug, Clone)]
pub struct ScannedItem {
    pub path: String,
    pub size: u64,
    pub is_dir: bool,
    pub is_symlink: bool,
    pub age_days: Option<u32>,
    /// Last modification, in seconds since the Unix epoch, when known.
    pub modified: Option<u64>,
}

/// A walk enters an entry: the root itself always; otherwise an entry that
/// is not protected, is at the top level when only that is asked for, and is
/// found safe by the validator.
pub open spec fn enters_scan_spec(
    v: PathValidator,
    boundary: SafeBoundary,
    options: ScanOptions,
    root: Seq<char>,
    path: Seq<char>,
    canonical: Seq<char>,
    depth: usize,
    probe: PathProbe,
) -> bool {
    if same_path(v.env.os, path, root) {
        true
    } else if protected_spec(v.env, path, canonical) {
        false
    } else if options.top_level_only && depth > 1 {
        false
    } else {
        validate_spec(v, path, boundary, probe) is Safe
    }
}

/// Whether a walk from `root` enters the entry at `path`, `depth` levels
/// below the root. `canonical` is the path resolved (or the path itself) and
/// `probe` what the file system says of it for validation.
pub fn enters_scan(
    v: &PathValidator,
    boundary: &SafeBoundary,
    options: &ScanOptions,
    root: &str,
    path: &str,
    canonical: &str,
    depth: usize,
    probe: &PathProbe,
) -> (r: bool)
    requires
        probe.root_canonicals.len() == boundary.roots.len(),
    ensures
        r == enters_scan_spec(*v, *boundary, *options, root@, path@, canonical@, depth, *probe),
{
    if same_path_exec(v.env.os, path, root) {
        return true;
    }
    if is_protected(&v.env, path, canonical) {
        return false;
    }
    if options.top_level_only && depth > 1 {
        return false;
    }
    match v.validate(path, boundary, probe) {
        ValidationResult::Safe => true,
        _ => false,
    }
}

/// Whether an entry the walk entered is looked at further: not when only
/// directories are asked for and it is none, nor when it is younger than
/// the minimum age (or its age is unknown while one is asked for).
pub fn wants_entry(options: &ScanOptions, is_dir: bool, age_days: Option<u32>) -> (r: bool)
    ensures
        r == (!(options.directories_only && !is_dir) && match options.min_age_days {
            Some(min) => age_days matches Some(a) && a >= min,
            None => true,
        }),
{
    if options.directories_only && !is_dir {
        return false;
    }
    match options.min_age_days {
        Some(min) => match age_days {
            Some(a) => a >= min,
            None => false,
        },
        None => true,
    }
}

/// Whether an entry of `size` bytes is large enough to be listed.
pub fn size_wanted(options: &ScanOptions, size: u64) -> (r: bool)
    ensures
        r == match options.min_size {
            Some(min) => size >= min,
            None => true,
        },
{
    match options.min_size {
        Some(min) => size >= min,
        None => true,
    }
}

pub open spec fn item_sizes(items: Seq<ScannedItem>) -> Seq<u64> {
    items.map_values(|i: ScannedItem| i.size)
}

/// Total size of scanned items.
pub fn total_size(items: &Vec<ScannedItem>) -> (r: u64)
    requires
        sum_u64(item_sizes(items@)) <= u64::MAX,
    ensures
        r == sum_u64(item_sizes(items@)),
{
    let mut sizes: Vec<u64> = Vec::new();
    let mut i: usize = 0;
    while i < items.len()
        invariant
            i <= items@.len(),
            sizes@ == item_sizes(items@.take(i as int)),
        decreases items@.len() - i,
    {
        sizes.push(items[i].size);
        i = i + 1;
        proof {
            assert(sizes@ =~= item_sizes(items@.take(i as int)));
        }
    }
    assert(items@.take(items@.len() as int) =~= items@);
    crate::scanner::size::calculate_dir_size(&sizes)
}

/// The scans of several roots by their contents (`None`: the root does not
/// exist and was not scanned).
pub open spec fn root_scan_views(scans: Seq<Option<Vec<ScannedItem>>>) -> Seq<Option<Seq<ScannedItem>>> {
    scans.map_values(|o: Option<Vec<ScannedItem>>| match o {
        Some(v) => Some(v@),
        None => None,
    })
}

/// The items of the roots that exist, root after root.
pub open spec fn combined_items(scans: Seq<Option<Seq<ScannedItem>>>) -> Seq<ScannedItem>
    decreases scans.len(),
{
    if scans.len() == 0 {
        seq![]
    } else {
        let prev = combined_items(scans.drop_last());
        match scans.last() {
            Some(items) => prev + items,
            None => prev,
        }
    }
}

/// Scan results of several roots combined: the items of each root that
/// exists, in the order of the roots.
pub fn scan_directories(scans: Vec<Option<Vec<ScannedItem>>>) -> (r: Vec<ScannedItem>)
    ensures
        r@ == combined_items(root_scan_views(scans@)),
{
    let ghost all = root_scan_views(scans@);
    let n: usize = scans.len();
    let mut rest = scans;
    let mut r: Vec<ScannedItem> = Vec::new();
    let mut done: usize = 0;
    while rest.len() > 0
        invariant
            done + rest@.len() == n,
            all.len() == n,
            root_scan_views(rest@) == all.skip(done as int),
            r@ == combined_items(all.take(done as int)),
        decreases rest@.len(),
    {
        let ghost before = rest@;
        let scan = rest.remove(0);
        assert(root_scan_views(rest@) =~= root_scan_views(before).skip(1));
        assert(all.take(done + 1).drop_last() =~= all.take(done as int));
        assert(all.take(done + 1).last() == root_scan_views(before)[0]);
        match scan {
            Some(items) => {
                let mut items = items;
                r.append(&mut items);
            },
            None => {},
        }
        done = done + 1;
    }
    assert(all.take(done as int) =~= all);
    r
}

} // verus!
