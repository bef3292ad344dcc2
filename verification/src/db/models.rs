//! Records of the discovery database: categories of discovered paths,
//! discovered paths, discovery patterns and scans.

use vstd::prelude::*;
use crate::text::{all_ascii, ascii_lower, str_eq, to_lowercase, unicode_lowercase};

verus! {

/// Category of a discovered path.
#[derive(Debug, Clone, Copy, PartialEq, Eq, Structural)]
pub enum PathCategory {
    Cache,
    Logs,
    Temp,
    Build,
    Deps,
    Archive,
    Other,
}

pub open spec fn category_text(c: PathCategory) -> Seq<char> {
    match c {
        PathCategory::Cache => "cache"@,
        PathCategory::Logs => "logs"@,
        PathCategory::Temp => "temp"@,
        PathCategory::Build => "build"@,
        PathCategory::Deps => "deps"@,
        PathCategory::Archive => "archive"@,
        PathCategory::Other => "other"@,
    }
}

/// The category a lower-case name stands for (`Other` for any other name).
pub open spec fn category_named(s: Seq<char>) -> PathCategory {
    if s == "cache"@ {
        PathCategory::Cache
    } else if s == "logs"@ {
        PathCategory::Logs
    } else if s == "temp"@ {
        PathCategory::Temp
    } else if s == "build"@ {
        PathCategory::Build
    } else if s == "deps"@ {
        PathCategory::Deps
    } else if s == "archive"@ {
        PathCategory::Archive
    } else {
        PathCategory::Other
    }
}

/// The category of an ASCII name, in any case.
pub open spec fn category_of_ascii(s: Seq<char>) -> PathCategory {
    category_named(s.map_values(|c: char| ascii_lower(c)))
}

fn category_named_exec(s: &str) -> (r: PathCategory)
    ensures
        r == category_named(s@),
{
    if str_eq(s, "cache") {
        PathCategory::Cache
    } else if str_eq(s, "logs") {
        PathCategory::Logs
    } else if str_eq(s, "temp") {
        PathCategory::Temp
    } else if str_eq(s, "build") {
        PathCategory::Build
    } else if str_eq(s, "deps") {
        PathCategory::Deps
    } else if str_eq(s, "archive") {
        PathCategory::Archive
    } else {
        PathCategory::Other
    }
}

impl PathCategory {
    /// The category a name stands for, in any case; `Other` for any name
    /// that is none of the categories'.
    pub fn from_str(s: &str) -> (r: PathCategory)
        ensures
            r == category_named(unicode_lowercase(s@)),
            all_ascii(s@) ==> r == category_of_ascii(s@),
    {
        let lower = to_lowercase(s);
        category_named_exec(lower.as_str())
    }

    pub fn as_str(&self) -> (r: &'static str)
        ensures
            r@ == category_text(*self),
    {
        match self {
            PathCategory::Cache => "cache",
            PathCategory::Logs => "logs",
            PathCategory::Temp => "temp",
            PathCategory::Build => "build",
            PathCategory::Deps => "deps",
            PathCategory::Archive => "archive",
            PathCategory::Other => "other",
        }
    }
}

/// Reading back the name of a category gives the category.
pub proof fn law_category_round_trip(c: PathCategory)
    ensures
        all_ascii(category_text(c)),
        category_of_ascii(category_text(c)) == c,
{
    reveal_strlit("cache");
    reveal_strlit("logs");
    reveal_strlit("temp");
    reveal_strlit("build");
    reveal_strlit("deps");
    reveal_strlit("archive");
    reveal_strlit("other");
    let t = category_text(c);
    assert(t.map_values(|ch: char| ascii_lower(ch)) =~= t);
    assert("cache"@.len() == 5 && "logs"@.len() == 4 && "temp"@.len() == 4 && "build"@.len() == 5);
    assert("deps"@.len() == 4 && "archive"@.len() == 7 && "other"@.len() == 5);
    match c {
        PathCategory::Cache => {},
        PathCategory::Logs => {
            assert(t != "cache"@);
        },
        PathCategory::Temp => {
            assert(t != "cache"@);
            assert(t[0] != "logs"@[0]);
        },
        PathCategory::Build => {
            assert(t[0] != "cache"@[0]);
            assert(t != "logs"@ && t != "temp"@);
        },
        PathCategory::Deps => {
            assert(t != "cache"@ && t != "build"@);
            assert(t[0] != "logs"@[0]);
            assert(t[0] != "temp"@[0]);
        },
        PathCategory::Archive => {},
        PathCategory::Other => {
            assert(t[0] != "cache"@[0]);
            assert(t[0] != "build"@[0]);
        },
    }
}

/// A discovered path record.
#[derive(Debug, Clone)]
pub struct DiscoveredPath {
    pub id: Option<i64>,
    pub path: String,
    pub category: PathCategory,
    pub discovery_method: String,
    /// Confidence that the path is cleanable, in percent.
    pub confidence: u32,
    /// Last seen, in seconds since the Unix epoch.
    pub last_seen: i64,
    /// First seen, in seconds since the Unix epoch.
    pub first_seen: i64,
    pub last_size: Option<u64>,
    pub times_cleaned: u32,
    pub is_active: bool,
}

/// Discovery pattern for finding cleanable paths.
#[derive(Debug, Clone)]
pub struct DiscoveryPattern {
    pub id: Option<i64>,
    pub pattern: String,
    pub category: PathCategory,
    pub pattern_type: PatternType,
    pub priority: i32,
    pub enabled: bool,
    pub description: Option<String>,
}

/// Pattern matching type.
#[derive(Debug, Clone, Copy, PartialEq, Eq, Structural)]
pub enum PatternType {
    Glob,
    Regex,
    NameContains,
}

pub open spec fn pattern_type_text(t: PatternType) -> Seq<char> {
    match t {
        PatternType::Glob => "glob"@,
        PatternType::Regex => "regex"@,
        PatternType::NameContains => "name_contains"@,
    }
}

pub open spec fn pattern_type_named(s: Seq<char>) -> PatternType {
    if s == "glob"@ {
        PatternType::Glob
    } else if s == "regex"@ {
        PatternType::Regex
    } else {
        PatternType::NameContains
    }
}

impl PatternType {
    /// The pattern type of a name: `glob`, `regex`, anything else names
    /// `NameContains`.
    pub fn from_str(s: &str) -> (r: PatternType)
        ensures
            r == pattern_type_named(s@),
    {
        if str_eq(s, "glob") {
            PatternType::Glob
        } else if str_eq(s, "regex") {
            PatternType::Regex
        } else {
            PatternType::NameContains
        }
    }

    pub fn as_str(&self) -> (r: &'static str)
        ensures
            r@ == pattern_type_text(*self),
    {
        match self {
            PatternType::Glob => "glob",
            PatternType::Regex => "regex",
            PatternType::NameContains => "name_contains",
        }
    }
}

/// Reading back the name of a pattern type gives the pattern type.
pub proof fn law_pattern_type_round_trip(t: PatternType)
    ensures
        pattern_type_named(pattern_type_text(t)) == t,
{
    reveal_strlit("glob");
    reveal_strlit("regex");
    reveal_strlit("name_contains");
    assert("glob"@.len() == 4 && "regex"@.len() == 5 && "name_contains"@.len() == 13);
}

/// Scan history record.
#[derive(Debug, Clone)]
pub struct ScanRecord {
    pub id: Option<i64>,
    pub scan_id: String,
    /// Start, in seconds since the Unix epoch.
    pub started_at: i64,
    /// End, in seconds since the Unix epoch.
    pub completed_at: Option<i64>,
    pub scan_type: ScanType,
    pub total_items: Option<u32>,
    pub total_size: Option<u64>,
    pub duration_ms: Option<u64>,
    pub error: Option<String>,
}

/// Type of scan performed.
#[derive(Debug, Clone, Copy, PartialEq, Eq, Structural)]
pub enum ScanType {
    Full,
    Incremental,
}

pub open spec fn scan_type_text(t: ScanType) -> Seq<char> {
    match t {
        ScanType::Full => "full"@,
        ScanType::Incremental => "incremental"@,
    }
}

impl ScanType {
    pub fn as_str(&self) -> (r: &'static str)
        ensures
            r@ == scan_type_text(*self),
    {
        match self {
            ScanType::Full => "full",
            ScanType::Incremental => "incremental",
        }
    }

    /// `full` names a full scan; anything else an incremental one.
    pub fn from_str(s: &str) -> (r: ScanType)
        ensures
            r == (if s@ == "full"@ { ScanType::Full } else { ScanType::Incremental }),
    {
        if str_eq(s, "full") {
            ScanType::Full
        } else {
            ScanType::Incremental
        }
    }
}

/// Reading back the name of a scan type gives the scan type.
pub proof fn law_scan_type_round_trip(t: ScanType)
    ensures
        (if scan_type_text(t) == "full"@ { ScanType::Full } else { ScanType::Incremental }) == t,
{
    reveal_strlit("full");
    reveal_strlit("incremental");
    assert("full"@.len() == 4 && "incremental"@.len() == 11);
}

} // verus!
