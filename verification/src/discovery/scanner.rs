//! Discovery walks: which entries are entered, where discovery looks, and
//! which directories are recorded.

use vstd::prelude::*;
use crate::db::models::{DiscoveredPath, PathCategory};
use crate::path::{Os, join, join_path};
use crate::scanner::size::{calculate_dir_size, sum_u64};
use crate::text::{lviews, str_eq, str_in, str_starts_with, strings_of, sviews};

verus! {

/// Configuration for path discovery.
#[derive(Debug, Clone)]
pub struct DiscoveryConfig {
    /// Maximum depth to scan from root directories.
    pub max_depth: usize,
    /// Minimum directory size (bytes) to consider.
    pub min_size: u64,
    /// Directory names to skip entirely, each once.
    pub skip_dirs: Vec<String>,
    /// Use cached paths if available and recent.
    pub use_cache: bool,
    /// Cache freshness threshold in hours.
    pub cache_max_age_hours: u32,
}

pub open spec fn default_skip_dirs() -> Seq<&'static str> {
    seq![".git", ".svn", ".hg", ".Trash", "Photos Library.photoslibrary", "Music", "Movies"]
}

impl DiscoveryConfig {
    /// No directory name is skipped twice.
    pub open spec fn wf(&self) -> bool {
        forall|i: int, j: int| 0 <= i < j < self.skip_dirs@.len() ==> #[trigger] self.skip_dirs@[i]@ != #[trigger] self.skip_dirs@[j]@
    }
}

impl Default for DiscoveryConfig {
    /// Depth 5, at least 1 MiB, version-control, trash and media directories
    /// skipped, the cache used for 24 hours.
    fn default() -> (r: Self)
        ensures
            r.max_depth == 5,
            r.min_size == 1048576,
            sviews(r.skip_dirs@) == lviews(default_skip_dirs()),
            r.use_cache,
            r.cache_max_age_hours == 24,
            r.wf(),
    {
        let names: Vec<&str> = vec![".git", ".svn", ".hg", ".Trash", "Photos Library.photoslibrary", "Music", "Movies"];
        let skip_dirs = strings_of(&names);
        proof {
            reveal_strlit(".git");
            reveal_strlit(".svn");
            reveal_strlit(".hg");
            reveal_strlit(".Trash");
            reveal_strlit("Photos Library.photoslibrary");
            reveal_strlit("Music");
            reveal_strlit("Movies");
            assert forall|i: int, j: int| 0 <= i < j < skip_dirs@.len() implies #[trigger] skip_dirs@[i]@
                != #[trigger] skip_dirs@[j]@ by {
                assert(sviews(skip_dirs@).len() == 7);
                assert(skip_dirs@[i]@ == sviews(skip_dirs@)[i]);
                assert(skip_dirs@[j]@ == sviews(skip_dirs@)[j]);
                assert(lviews(default_skip_dirs())[i] == default_skip_dirs()[i]@);
                assert(lviews(default_skip_dirs())[j] == default_skip_dirs()[j]@);
                if i == 0 && j == 1 {
                    assert(".git"@[1] != ".svn"@[1]);
                }
                if i == 0 && j == 2 {
                    assert(".git"@.len() != ".hg"@.len());
                }
                if i == 0 && j == 3 {
                    assert(".git"@.len() != ".Trash"@.len());
                }
                if i == 0 && j == 4 {
                    assert(".git"@.len() != "Photos Library.photoslibrary"@.len());
                }
                if i == 0 && j == 5 {
                    assert(".git"@.len() != "Music"@.len());
                }
                if i == 0 && j == 6 {
                    assert(".git"@.len() != "Movies"@.len());
                }
                if i == 1 && j == 2 {
                    assert(".svn"@.len() != ".hg"@.len());
                }
                if i == 1 && j == 3 {
                    assert(".svn"@.len() != ".Trash"@.len());
                }
                if i == 1 && j == 4 {
                    assert(".svn"@.len() != "Photos Library.photoslibrary"@.len());
                }
                if i == 1 && j == 5 {
                    assert(".svn"@.len() != "Music"@.len());
                }
                if i == 1 && j == 6 {
                    assert(".svn"@.len() != "Movies"@.len());
                }
                if i == 2 && j == 3 {
                    assert(".hg"@.len() != ".Trash"@.len());
                }
                if i == 2 && j == 4 {
                    assert(".hg"@.len() != "Photos Library.photoslibrary"@.len());
                }
                if i == 2 && j == 5 {
                    assert(".hg"@.len() != "Music"@.len());
                }
                if i == 2 && j == 6 {
                    assert(".hg"@.len() != "Movies"@.len());
                }
                if i == 3 && j == 4 {
                    assert(".Trash"@.len() != "Photos Library.photoslibrary"@.len());
                }
                if i == 3 && j == 5 {
                    assert(".Trash"@.len() != "Music"@.len());
                }
                if i == 3 && j == 6 {
                    assert(".Trash"@[0] != "Movies"@[0]);
                }
                if i == 4 && j == 5 {
                    assert("Photos Library.photoslibrary"@.len() != "Music"@.len());
                }
                if i == 4 && j == 6 {
                    assert("Photos Library.photoslibrary"@.len() != "Movies"@.len());
                }
                if i == 5 && j == 6 {
                    assert("Music"@.len() != "Movies"@.len());
                }
            }
        }
        DiscoveryConfig { max_depth: 5, min_size: 1048576, skip_dirs, use_cache: true, cache_max_age_hours: 24 }
    }
}

pub open spec fn interesting_hidden(name: Seq<char>) -> bool {
    name == ".cargo"@ || name == ".npm"@ || name == ".yarn"@ || name == ".cache"@
}

/// A hidden directory discovery looks into all the same.
pub fn is_interesting_hidden_dir(name: &str) -> (r: bool)
    ensures
        r == interesting_hidden(name@),
{
    str_eq(name, ".cargo") || str_eq(name, ".npm") || str_eq(name, ".yarn") || str_eq(name, ".cache")
}

/// The walk enters an entry: one whose name is hidden (and not of interest)
/// or skipped is left out; an entry whose name is not text is entered.
pub open spec fn process_spec(config: DiscoveryConfig, name: Option<Seq<char>>) -> bool {
    match name {
        None => true,
        Some(n) => !("."@.is_prefix_of(n) && !interesting_hidden(n)) && !sviews(config.skip_dirs@).contains(n),
    }
}

/// Whether the discovery walk enters the entry named `name` (`None` when
/// its name is not text).
pub fn should_process_entry(config: &DiscoveryConfig, name: &Option<String>) -> (r: bool)
    ensures
        r == process_spec(*config, crate::path::oview(*name)),
{
    match name {
        None => true,
        Some(n) => {
            if str_starts_with(n.as_str(), ".") && !is_interesting_hidden_dir(n.as_str()) {
                return false;
            }
            let mut i: usize = 0;
            while i < config.skip_dirs.len()
                invariant
                    i <= config.skip_dirs@.len(),
                    crate::path::oview(*name) == Some(n@),
                    !("."@.is_prefix_of(n@) && !interesting_hidden(n@)),
                    forall|j: int| 0 <= j < i ==> sviews(config.skip_dirs@)[j] != n@,
                decreases config.skip_dirs@.len() - i,
            {
                if str_eq(config.skip_dirs[i].as_str(), n.as_str()) {
                    assert(sviews(config.skip_dirs@)[i as int] == n@);
                    return false;
                }
                i = i + 1;
            }
            true
        },
    }
}

/// Where a full discovery looks, in order: `Library/Caches`, `Library/Logs`
/// and `Library/Developer` of the home directory, then its `.cargo`,
/// `.npm`, `.yarn` and `.cache` (when the home directory is known), then
/// `/opt/homebrew` when it exists.
pub open spec fn roots_spec(os: Os, home: Option<Seq<char>>, homebrew_exists: bool) -> Seq<Seq<char>> {
    let in_home = match home {
        Some(h) => seq![
            join(os, join(os, h, "Library"@), "Caches"@),
            join(os, join(os, h, "Library"@), "Logs"@),
            join(os, join(os, h, "Library"@), "Developer"@),
            join(os, h, ".cargo"@),
            join(os, h, ".npm"@),
            join(os, h, ".yarn"@),
            join(os, h, ".cache"@),
        ],
        None => seq![],
    };
    if homebrew_exists { in_home.push("/opt/homebrew"@) } else { in_home }
}

/// The roots of a full discovery.
pub fn discovery_roots(os: Os, home: &Option<String>, homebrew_exists: bool) -> (r: Vec<String>)
    ensures
        sviews(r@) == roots_spec(os, crate::path::oview(*home), homebrew_exists),
{
    let mut r: Vec<String> = Vec::new();
    match home {
        Some(h) => {
            let library = join_path(os, h.as_str(), "Library");
            r.push(join_path(os, library.as_str(), "Caches"));
            r.push(join_path(os, library.as_str(), "Logs"));
            r.push(join_path(os, library.as_str(), "Developer"));
            r.push(join_path(os, h.as_str(), ".cargo"));
            r.push(join_path(os, h.as_str(), ".npm"));
            r.push(join_path(os, h.as_str(), ".yarn"));
            r.push(join_path(os, h.as_str(), ".cache"));
        },
        None => {},
    }
    let ghost before = sviews(r@);
    if homebrew_exists {
        r.push(String::from_str("/opt/homebrew"));
        assert(sviews(r@) =~= before.push("/opt/homebrew"@));
    }
    assert(sviews(r@) =~= roots_spec(os, crate::path::oview(*home), homebrew_exists));
    r
}

/// The record for a directory found by a discovery walk, at `now` (seconds
/// since the Unix epoch): only a directory that is not protected, that the
/// heuristics call cleanable (`detection`), and that is at least the
/// minimum size is recorded.
pub fn discovered_entry(
    config: &DiscoveryConfig,
    path: &str,
    is_dir: bool,
    protected: bool,
    detection: Option<(PathCategory, u32)>,
    size: u64,
    now: i64,
) -> (r: Option<DiscoveredPath>)
    ensures
        (is_dir && !protected && detection is Some && size >= config.min_size) == r is Some,
        r matches Some(d) ==> (detection matches Some((c, conf)) && d.id is None && d.path@ == path@ && d.category == c
            && d.confidence == conf && d.discovery_method@ == "heuristic"@ && d.last_seen == now && d.first_seen
            == now && d.last_size == Some(size) && d.times_cleaned == 0 && d.is_active),
{
    if !is_dir || protected {
        return None;
    }
    match detection {
        Some((category, confidence)) => {
            if size >= config.min_size {
                Some(
                    DiscoveredPath {
                        id: None,
                        path: String::from_str(path),
                        category,
                        discovery_method: String::from_str("heuristic"),
                        confidence,
                        last_seen: now,
                        first_seen: now,
                        last_size: Some(size),
                        times_cleaned: 0,
                        is_active: true,
                    },
                )
            } else {
                None
            }
        },
        None => None,
    }
}

/// The cached paths are fresh: the cache is used, a scan was recorded, and
/// fewer whole hours than the threshold have passed since (hours counted as
/// `chrono` does, towards zero).
pub open spec fn cache_fresh_spec(use_cache: bool, last_scan: Option<i64>, now: i64, max_age_hours: u32) -> bool {
    use_cache && match last_scan {
        Some(t) => {
            let d = now - t;
            let hours = if d >= 0 { d / 3600 } else { -((-d) / 3600) };
            hours < max_age_hours
        },
        None => false,
    }
}

/// Whether the cached paths may be used, at `now`, after the last scan at
/// `last_scan` (seconds since the Unix epoch).
pub fn cache_is_fresh(config: &DiscoveryConfig, last_scan: Option<i64>, now: i64) -> (r: bool)
    ensures
        r == cache_fresh_spec(config.use_cache, last_scan, now, config.cache_max_age_hours),
{
    if !config.use_cache {
        return false;
    }
    match last_scan {
        Some(t) => {
            let d: i128 = now as i128 - t as i128;
            let hours: i128 = if d >= 0 { d / 3600 } else { -((-d) / 3600) };
            hours < config.cache_max_age_hours as i128
        },
        None => false,
    }
}

/// The sizes recorded for the discovered paths, those without one left out.
pub open spec fn recorded_sizes(ps: Seq<DiscoveredPath>) -> Seq<u64>
    decreases ps.len(),
{
    if ps.len() == 0 {
        seq![]
    } else {
        let prev = recorded_sizes(ps.drop_last());
        match ps.last().last_size {
            Some(n) => prev.push(n),
            None => prev,
        }
    }
}

/// The total of the sizes recorded for the discovered paths, as a scan
/// records it.
pub fn discovered_total(paths: &Vec<DiscoveredPath>) -> (r: u64)
    requires
        sum_u64(recorded_sizes(paths@)) <= u64::MAX,
    ensures
        r == sum_u64(recorded_sizes(paths@)),
{
    let mut sizes: Vec<u64> = Vec::new();
    let mut i: usize = 0;
    while i < paths.len()
        invariant
            i <= paths.len(),
            sizes@ == recorded_sizes(paths@.take(i as int)),
        decreases paths.len() - i,
    {
        assert(paths@.take(i + 1).drop_last() =~= paths@.take(i as int));
        match paths[i].last_size {
            Some(n) => sizes.push(n),
            None => {},
        }
        i = i + 1;
    }
    assert(paths@.take(i as int) =~= paths@);
    calculate_dir_size(&sizes)
}

} // verus!
