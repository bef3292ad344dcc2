//! Homebrew: where `brew` is, what `brew cleanup` would remove, and what it
//! removed.
//!
//! Running `brew` is the caller's part; it hands in what it printed.

use vstd::prelude::*;
use crate::cleaners::traits::{
    CleanResult, CleanableItem, Cleaner, CleanerCategory, ItemType, ItemView, RiskLevel, ScanResult, item_views,
};
use crate::config::schema::HomebrewConfig;
use crate::path::Os;
use crate::safety::boundaries::SafeBoundary;
use crate::safety::boundaries::presets::homebrew;
use crate::text::{concat2, lines, lines_of, lviews, str_starts_with, str_trim, sviews, trim};

verus! {

/// Cleaner for the Homebrew cache and old versions (macOS and Linux).
#[derive(Debug, Clone)]
pub struct HomebrewCleaner {
    pub keep_versions: u32,
}

/// Where `brew` is looked for first, in order.
pub open spec fn brew_locations(os: Os) -> Seq<&'static str> {
    match os {
        Os::MacOs => seq!["/opt/homebrew/bin/brew", "/usr/local/bin/brew"],
        Os::Linux => seq!["/home/linuxbrew/.linuxbrew/bin/brew", "/usr/local/bin/brew"],
        _ => seq![],
    }
}

/// The places where `brew` is looked for first on `os`.
pub fn brew_candidates(os: Os) -> (r: Vec<&'static str>)
    ensures
        r@ == brew_locations(os),
{
    match os {
        Os::MacOs => vec!["/opt/homebrew/bin/brew", "/usr/local/bin/brew"],
        Os::Linux => vec!["/home/linuxbrew/.linuxbrew/bin/brew", "/usr/local/bin/brew"],
        _ => Vec::new(),
    }
}

/// The first of `candidates` that exists, else what `which brew` printed
/// (trimmed), else nothing.
pub open spec fn brew_path_spec(candidates: Seq<Seq<char>>, exists: Seq<bool>, which_out: Option<Seq<char>>) -> Option<Seq<char>>
    decreases candidates.len(),
{
    if candidates.len() == 0 || exists.len() == 0 {
        match which_out {
            Some(w) => Some(trim(w)),
            None => None,
        }
    } else if exists[0] {
        Some(candidates[0])
    } else {
        brew_path_spec(candidates.skip(1), exists.skip(1), which_out)
    }
}

/// Choose the `brew` to run: `exists[i]` says whether `candidates[i]`
/// exists, and `which_out` is what `which brew` printed.
pub fn choose_brew_path(candidates: &Vec<&str>, exists: &Vec<bool>, which_out: &Option<String>) -> (r: Option<String>)
    requires
        exists.len() == candidates.len(),
    ensures
        crate::path::oview(r) == brew_path_spec(lviews(candidates@), exists@, crate::path::oview(*which_out)),
{
    let mut i: usize = 0;
    assert(lviews(candidates@).skip(0) =~= lviews(candidates@));
    assert(exists@.skip(0) =~= exists@);
    while i < candidates.len()
        invariant
            i <= candidates@.len(),
            exists@.len() == candidates@.len(),
            brew_path_spec(lviews(candidates@), exists@, crate::path::oview(*which_out)) == brew_path_spec(
                lviews(candidates@).skip(i as int),
                exists@.skip(i as int),
                crate::path::oview(*which_out),
            ),
        decreases candidates@.len() - i,
    {
        proof {
            assert(lviews(candidates@).skip(i as int).skip(1) =~= lviews(candidates@).skip(i + 1));
            assert(exists@.skip(i as int).skip(1) =~= exists@.skip(i + 1));
        }
        if exists[i] {
            return Some(String::from_str(candidates[i]));
        }
        i = i + 1;
    }
    match which_out {
        Some(w) => Some(str_trim(w.as_str())),
        None => None,
    }
}

/// Estimated bytes freed per line of `brew cleanup --dry-run` (50 MiB).
pub const BREW_BYTES_PER_LINE: u64 = 52428800;

/// The estimate of what `brew cleanup` would free, from what
/// `brew cleanup --dry-run` printed: 50 MiB per line.
pub fn estimate_from_output(out: &str) -> (r: u64)
    requires
        lines(out@).len() * BREW_BYTES_PER_LINE <= u64::MAX,
    ensures
        r == lines(out@).len() * BREW_BYTES_PER_LINE,
{
    let ls = lines_of(out);
    assert(sviews(ls@).len() == ls@.len());
    (ls.len() as u64) * BREW_BYTES_PER_LINE
}

/// A line of `brew cleanup` output names something removed: it is not
/// empty and is no `==>` heading.
pub open spec fn names_item(line: Seq<char>) -> bool {
    line.len() > 0 && !("==>"@.is_prefix_of(line))
}

pub open spec fn brew_item(line: Seq<char>) -> ItemView {
    ItemView {
        path: trim(line),
        size: 0,
        item_type: ItemType::Directory,
        age_days: None,
        description: line,
        requires_force: false,
        risk_level: RiskLevel::Low,
    }
}

/// The items named by `brew cleanup --dry-run` output, in order.
pub open spec fn brew_items(ls: Seq<Seq<char>>) -> Seq<ItemView>
    decreases ls.len(),
{
    if ls.len() == 0 {
        seq![]
    } else {
        let d = brew_items(ls.drop_last());
        if names_item(ls.last()) { d.push(brew_item(ls.last())) } else { d }
    }
}

/// The paths that lines of `brew cleanup` output name as removed, in order:
/// each line that names an item, trimmed.
pub open spec fn cleaned_paths_spec(ls: Seq<Seq<char>>) -> Seq<Seq<char>>
    decreases ls.len(),
{
    if ls.len() == 0 {
        seq![]
    } else {
        let d = cleaned_paths_spec(ls.drop_last());
        if names_item(ls.last()) { d.push(trim(ls.last())) } else { d }
    }
}

/// The paths that `brew cleanup` printed as removed (see
/// `cleaned_paths_spec`); each is recorded as cleaned.
pub fn cleaned_paths(out: &str) -> (r: Vec<String>)
    ensures
        sviews(r@) == cleaned_paths_spec(lines(out@)),
{
    let ls = lines_of(out);
    let mut r: Vec<String> = Vec::new();
    let mut i: usize = 0;
    while i < ls.len()
        invariant
            i <= ls@.len(),
            sviews(ls@) == lines(out@),
            sviews(r@) == cleaned_paths_spec(sviews(ls@).take(i as int)),
        decreases ls@.len() - i,
    {
        proof {
            assert(sviews(ls@).take(i + 1).drop_last() =~= sviews(ls@).take(i as int));
            reveal_strlit("==>");
        }
        let line = &ls[i];
        if line.unicode_len() > 0 && !str_starts_with(line.as_str(), "==>") {
            let ghost old = sviews(r@);
            let p = str_trim(line.as_str());
            r.push(p);
            proof {
                assert(sviews(r@) =~= old.push(trim(line@)));
            }
        }
        i = i + 1;
    }
    proof {
        assert(sviews(ls@).take(ls@.len() as int) =~= sviews(ls@));
    }
    r
}

impl HomebrewCleaner {
    /// The result of a dry run: what the scan found counts as cleaned.
    pub fn dry_run_result(&self, scan: &ScanResult, duration_ms: u64) -> (r: CleanResult)
        ensures
            r.category@ == "homebrew"@,
            r.items_cleaned == scan.items.len(),
            r.bytes_freed == scan.total_size,
            r.items_failed@.len() == 0,
            r.clean_duration_ms == duration_ms,
    {
        CleanResult {
            category: String::from_str("homebrew"),
            items_cleaned: scan.items.len(),
            bytes_freed: scan.total_size,
            items_failed: Vec::new(),
            clean_duration_ms: duration_ms,
        }
    }

    pub fn new(config: &HomebrewConfig) -> (r: HomebrewCleaner)
        ensures
            r.keep_versions == config.keep_versions,
    {
        HomebrewCleaner { keep_versions: config.keep_versions }
    }

    /// The scan result from what `brew cleanup --dry-run` printed (or the
    /// text of the error running it), with the estimate of what would be
    /// freed (0 when unknown). `brew_found` says whether `brew` was found at
    /// all: without it the result is empty.
    pub fn scan(&self, brew_found: bool, dry_run_out: &Result<String, String>, estimate: Option<u64>, duration_ms: u64) -> (r: ScanResult)
        ensures
            r.category@ == "homebrew"@,
            !brew_found ==> r.items@.len() == 0 && r.total_size == 0 && r.errors@.len() == 0 && r.scan_duration_ms == 0,
            brew_found ==> r.scan_duration_ms == duration_ms && match dry_run_out {
                Err(e) => r.items@.len() == 0 && r.total_size == 0 && sviews(r.errors@) == seq![
                    "Failed to run brew cleanup --dry-run: "@ + e@,
                ],
                Ok(out) => item_views(r.items@) == brew_items(lines(out@)) && r.total_size == (match estimate {
                    Some(n) => n,
                    None => 0,
                }) && r.errors@.len() == 0,
            },
    {
        if !brew_found {
            return ScanResult::empty("homebrew");
        }
        match dry_run_out {
            Err(e) => {
                let mut errors: Vec<String> = Vec::new();
                errors.push(concat2("Failed to run brew cleanup --dry-run: ", e.as_str()));
                proof {
                    assert(sviews(errors@) =~= seq!["Failed to run brew cleanup --dry-run: "@ + e@]);
                }
                ScanResult {
                    category: String::from_str("homebrew"),
                    items: Vec::new(),
                    total_size: 0,
                    scan_duration_ms: duration_ms,
                    errors,
                }
            },
            Ok(out) => {
                let ls = lines_of(out.as_str());
                let mut items: Vec<CleanableItem> = Vec::new();
                let mut i: usize = 0;
                while i < ls.len()
                    invariant
                        i <= ls@.len(),
                        item_views(items@) == brew_items(sviews(ls@).take(i as int)),
                    decreases ls@.len() - i,
                {
                    proof {
                        assert(sviews(ls@).take(i + 1).drop_last() =~= sviews(ls@).take(i as int));
                    }
                    let line = &ls[i];
                    if line.unicode_len() > 0 && !str_starts_with(line.as_str(), "==>") {
                        let ghost old = item_views(items@);
                        let it = CleanableItem {
                            path: str_trim(line.as_str()),
                            size: 0,
                            item_type: ItemType::Directory,
                            age_days: None,
                            description: line.clone(),
                            requires_force: false,
                            risk_level: RiskLevel::Low,
                        };
                        let ghost iv = it@;
                        items.push(it);
                        proof {
                            assert(item_views(items@) =~= old.push(iv));
                        }
                    }
                    i = i + 1;
                }
                proof {
                    assert(sviews(ls@).take(ls@.len() as int) =~= sviews(ls@));
                }
                let total = match estimate {
                    Some(n) => n,
                    None => 0,
                };
                ScanResult {
                    category: String::from_str("homebrew"),
                    items,
                    total_size: total,
                    scan_duration_ms: duration_ms,
                    errors: Vec::new(),
                }
            },
        }
    }

    /// The result of running `brew cleanup`: on success, one item cleaned
    /// per line printed and no bytes counted; on failure, the failure of
    /// `brew cleanup` with its error text.
    pub fn cleanup_result(&self, outcome: &Result<String, String>, duration_ms: u64) -> (r: CleanResult)
        ensures
            r.category@ == "homebrew"@,
            r.bytes_freed == 0,
            r.clean_duration_ms == duration_ms,
            match outcome {
                Ok(out) => r.items_cleaned == lines(out@).len() && r.items_failed@.len() == 0,
                Err(e) => r.items_cleaned == 0 && r.items_failed@.len() == 1 && r.items_failed@[0].0@
                    == "brew cleanup"@ && r.items_failed@[0].1@ == e@,
            },
    {
        match outcome {
            Ok(out) => {
                let ls = lines_of(out.as_str());
                assert(sviews(ls@).len() == ls@.len());
                CleanResult {
                    category: String::from_str("homebrew"),
                    items_cleaned: ls.len(),
                    bytes_freed: 0,
                    items_failed: Vec::new(),
                    clean_duration_ms: duration_ms,
                }
            },
            Err(e) => {
                let mut failed: Vec<(String, String)> = Vec::new();
                failed.push((String::from_str("brew cleanup"), e.clone()));
                CleanResult {
                    category: String::from_str("homebrew"),
                    items_cleaned: 0,
                    bytes_freed: 0,
                    items_failed: failed,
                    clean_duration_ms: duration_ms,
                }
            },
        }
    }
}

impl Cleaner for HomebrewCleaner {
    fn id(&self) -> (r: &'static str)
        ensures
            r@ == "homebrew"@,
    {
        "homebrew"
    }

    fn name(&self) -> (r: &'static str)
        ensures
            r@ == "Homebrew"@,
    {
        "Homebrew"
    }

    fn description(&self) -> (r: &'static str)
        ensures
            r@ == "Homebrew cache and old package versions"@,
    {
        "Homebrew cache and old package versions"
    }

    fn category(&self) -> (r: CleanerCategory)
        ensures
            r == CleanerCategory::Developer,
    {
        CleanerCategory::Developer
    }

    fn safe_boundary(&self) -> (r: SafeBoundary)
        ensures
            sviews(r.roots@) == lviews(seq!["/opt/homebrew", "/usr/local/Homebrew", "/usr/local/Cellar"]),
            r.max_depth is None,
            r.description@ == "Homebrew directories"@,
    {
        homebrew()
    }
}

} // verus!
