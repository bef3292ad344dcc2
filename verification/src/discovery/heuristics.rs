//! Heuristics for identifying cleanable directories, and the risk of
//! cleaning them.
//!
//! Confidence is held in percent.

use vstd::prelude::*;
use crate::db::models::PathCategory;
use crate::path::{Os, file_name, file_name_of, name_extension, name_extension_chars, parent_of};
use crate::text::{chars_of, contains_seq, str_contains, str_ends_with, str_eq, to_lowercase, unicode_lowercase};

verus! {

/// A character that is numeric (`char::is_numeric`).
pub uninterp spec fn unicode_numeric(c: char) -> bool;

/// Trusted: `char::is_numeric`. The answer is named by `unicode_numeric`, a
/// function of the character alone; for `0`-`9` it is true, as the
/// documentation of `is_numeric` shows. Other characters depend on Unicode's
/// numeric categories, which are not stated here.
#[verifier::external_body]
fn char_is_numeric(c: char) -> (r: bool)
    ensures
        r == unicode_numeric(c),
        '0' <= c <= '9' ==> r,
{
    c.is_numeric()
}

/// Patterns of the lower-cased path that mark a known cleanable location,
/// in the order they are tried.
pub open spec fn location_patterns() -> Seq<(&'static str, PathCategory, u32)> {
    seq![
        ("library/caches/", PathCategory::Cache, 95),
        ("_cacache", PathCategory::Cache, 95),
        (".cache/", PathCategory::Cache, 90),
        ("library/logs/", PathCategory::Logs, 95),
        ("deriveddata", PathCategory::Build, 95),
        ("library/developer/xcode/deriveddata", PathCategory::Build, 98),
        (".npm/_cacache", PathCategory::Cache, 95),
        (".cargo/registry/cache", PathCategory::Cache, 95),
        (".yarn/cache", PathCategory::Cache, 95),
    ]
}

/// Endings of the lower-cased name that mark a cleanable directory, in the
/// order they are tried.
pub open spec fn name_patterns() -> Seq<(&'static str, PathCategory, u32)> {
    seq![
        ("caches", PathCategory::Cache, 75),
        ("cache", PathCategory::Cache, 70),
        ("logs", PathCategory::Logs, 70),
        ("temp", PathCategory::Temp, 60),
        ("tmp", PathCategory::Temp, 60),
        ("target", PathCategory::Build, 50),
        ("dist", PathCategory::Build, 40),
        ("build", PathCategory::Build, 40),
    ]
}

/// The first location pattern the path holds, from index `i` on.
pub open spec fn first_location(p: Seq<char>, i: int) -> Option<(PathCategory, u32)>
    decreases location_patterns().len() - i,
{
    if 0 <= i < location_patterns().len() {
        let (pat, c, conf) = location_patterns()[i];
        if contains_seq(p, pat@) { Some((c, conf)) } else { first_location(p, i + 1) }
    } else {
        None
    }
}

/// The first name pattern the name ends with, from index `i` on.
pub open spec fn first_name(n: Seq<char>, i: int) -> Option<(PathCategory, u32)>
    decreases name_patterns().len() - i,
{
    if 0 <= i < name_patterns().len() {
        let (pat, c, conf) = name_patterns()[i];
        if n == pat@ || pat@.is_suffix_of(n) { Some((c, conf)) } else { first_name(n, i + 1) }
    } else {
        None
    }
}

/// A name made of numbers and `-`, `_`, `.` only (a timestamp).
pub open spec fn looks_timestamped(n: Seq<char>) -> bool {
    forall|i: int| 0 <= i < n.len() ==> unicode_numeric(#[trigger] n[i]) || n[i] == '-' || n[i] == '_' || n[i] == '.'
}

pub open spec fn count_where(names: Seq<Seq<char>>, f: spec_fn(Seq<char>) -> bool) -> nat
    decreases names.len(),
{
    if names.len() == 0 {
        0
    } else {
        count_where(names.drop_last(), f) + if f(names.last()) { 1nat } else { 0nat }
    }
}

/// What the entries of a directory suggest: more than 3 entries, more than
/// half of them (and more than 5 in all) timestamped, a cache; else more
/// than half of them `.log` files, logs.
pub open spec fn content_guess(names: Seq<Seq<char>>) -> Option<(PathCategory, u32)> {
    let n = names.len();
    if n > 3 {
        let stamped = count_where(names, |s: Seq<char>| looks_timestamped(s));
        let logs = count_where(names, |s: Seq<char>| name_extension(s) == Some("log"@));
        if stamped > n / 2 && n > 5 {
            Some((PathCategory::Cache, 60))
        } else if logs > n / 2 {
            Some((PathCategory::Logs, 70))
        } else {
            None
        }
    } else {
        None
    }
}

/// What `detect_cleanable_directory` decides: nothing for a path without a
/// file name; a known location, by the lower-cased path; a known name
/// ending, by the lower-cased name; `node_modules`, as dependencies, with
/// lower confidence when a `package.json` lies beside it (and nothing when
/// it has no parent); else what its entries suggest.
pub open spec fn detect_spec(
    os: Os,
    path: Seq<char>,
    package_json_beside: bool,
    entries: Option<Seq<Seq<char>>>,
) -> Option<(PathCategory, u32)> {
    match file_name(os, path) {
        None => None,
        Some(name) => {
            match first_location(unicode_lowercase(path), 0) {
                Some(r) => Some(r),
                None => match first_name(unicode_lowercase(name), 0) {
                    Some(r) => Some(r),
                    None => if name == "node_modules"@ {
                        if parent_of(os, path) is None {
                            None
                        } else if package_json_beside {
                            Some((PathCategory::Deps, 30))
                        } else {
                            Some((PathCategory::Deps, 60))
                        }
                    } else {
                        match entries {
                            Some(es) => content_guess(es),
                            None => None,
                        }
                    },
                },
            }
        },
    }
}

fn location_list() -> (r: Vec<(&'static str, PathCategory, u32)>)
    ensures
        r@ == location_patterns(),
{
    vec![
        ("library/caches/", PathCategory::Cache, 95),
        ("_cacache", PathCategory::Cache, 95),
        (".cache/", PathCategory::Cache, 90),
        ("library/logs/", PathCategory::Logs, 95),
        ("deriveddata", PathCategory::Build, 95),
        ("library/developer/xcode/deriveddata", PathCategory::Build, 98),
        (".npm/_cacache", PathCategory::Cache, 95),
        (".cargo/registry/cache", PathCategory::Cache, 95),
        (".yarn/cache", PathCategory::Cache, 95),
    ]
}

fn name_list() -> (r: Vec<(&'static str, PathCategory, u32)>)
    ensures
        r@ == name_patterns(),
{
    vec![
        ("caches", PathCategory::Cache, 75),
        ("cache", PathCategory::Cache, 70),
        ("logs", PathCategory::Logs, 70),
        ("temp", PathCategory::Temp, 60),
        ("tmp", PathCategory::Temp, 60),
        ("target", PathCategory::Build, 50),
        ("dist", PathCategory::Build, 40),
        ("build", PathCategory::Build, 40),
    ]
}

fn timestamped_exec(n: &str) -> (r: bool)
    ensures
        r == looks_timestamped(n@),
{
    let v = chars_of(n);
    let mut i: usize = 0;
    while i < v.len()
        invariant
            i <= v@.len(),
            v@ == n@,
            forall|j: int| 0 <= j < i ==> unicode_numeric(#[trigger] v@[j]) || v@[j] == '-' || v@[j] == '_' || v@[j] == '.',
        decreases v@.len() - i,
    {
        let c = v[i];
        if !(char_is_numeric(c) || c == '-' || c == '_' || c == '.') {
            return false;
        }
        i = i + 1;
    }
    true
}

fn is_log_name(n: &str) -> (r: bool)
    requires
        n@.len() < 0x7fff_ffff_ffff_ffff,
    ensures
        r == (name_extension(n@) == Some("log"@)),
{
    let v = chars_of(n);
    match name_extension_chars(&v) {
        Some(e) => crate::text::chars_eq(&e, &chars_of("log")),
        None => false,
    }
}

/// What the entries of a directory suggest.
pub fn guess_from_entries(names: &Vec<String>) -> (r: Option<(PathCategory, u32)>)
    requires
        forall|i: int| 0 <= i < names@.len() ==> (#[trigger] names@[i])@.len() < 0x7fff_ffff_ffff_ffff,
    ensures
        r == content_guess(crate::text::sviews(names@)),
{
    let ghost sv = crate::text::sviews(names@);
    let n = names.len();
    if n <= 3 {
        return None;
    }
    let mut stamped: usize = 0;
    let mut logs: usize = 0;
    let mut i: usize = 0;
    while i < n
        invariant
            n == names@.len(),
            i <= n,
            sv == crate::text::sviews(names@),
            forall|q: int| 0 <= q < names@.len() ==> (#[trigger] names@[q])@.len() < 0x7fff_ffff_ffff_ffff,
            stamped == count_where(sv.take(i as int), |s: Seq<char>| looks_timestamped(s)),
            logs == count_where(sv.take(i as int), |s: Seq<char>| name_extension(s) == Some("log"@)),
            stamped <= i,
            logs <= i,
        decreases n - i,
    {
        proof {
            assert(sv.take(i + 1).drop_last() =~= sv.take(i as int));
            assert(sv.take(i + 1).last() == names@[i as int]@);
        }
        if timestamped_exec(names[i].as_str()) {
            stamped = stamped + 1;
        }
        if is_log_name(names[i].as_str()) {
            logs = logs + 1;
        }
        i = i + 1;
    }
    assert(sv.take(n as int) =~= sv);
    if stamped > n / 2 && n > 5 {
        Some((PathCategory::Cache, 60))
    } else if logs > n / 2 {
        Some((PathCategory::Logs, 70))
    } else {
        None
    }
}

/// Detect whether a directory is cleanable: its category and the confidence
/// in percent. `package_json_beside` says whether a `package.json` lies next
/// to it, and `entries` holds the names of its entries (`None` when they
/// could not be read).
pub fn detect_cleanable_directory(
    os: Os,
    path: &str,
    package_json_beside: bool,
    entries: &Option<Vec<String>>,
) -> (r: Option<(PathCategory, u32)>)
    requires
        path@.len() < 0x7fff_ffff_ffff_ffff,
        entries matches Some(es) ==> forall|i: int| 0 <= i < es@.len() ==> (#[trigger] es@[i])@.len() < 0x7fff_ffff_ffff_ffff,
    ensures
        r == detect_spec(os, path@, package_json_beside, match entries {
            Some(es) => Some(crate::text::sviews(es@)),
            None => None,
        }),
{
    let name = match file_name_of(os, path) {
        Some(n) => n,
        None => {
            return None;
        },
    };
    let lower_path = to_lowercase(path);
    let locs = location_list();
    let mut i: usize = 0;
    while i < locs.len()
        invariant
            i <= locs@.len(),
            locs@ == location_patterns(),
            first_location(lower_path@, 0) == first_location(lower_path@, i as int),
            lower_path@ == unicode_lowercase(path@),
            file_name(os, path@) == Some(name@),
        decreases locs@.len() - i,
    {
        let (pat, cat, conf) = locs[i];
        assert(location_patterns()[i as int] == (pat, cat, conf));
        if str_contains(lower_path.as_str(), pat) {
            assert(first_location(lower_path@, i as int) == Some((cat, conf)));
            return Some((cat, conf));
        }
        i = i + 1;
    }
    let lower_name = to_lowercase(name.as_str());
    let names = name_list();
    let mut j: usize = 0;
    while j < names.len()
        invariant
            j <= names@.len(),
            names@ == name_patterns(),
            first_name(lower_name@, 0) == first_name(lower_name@, j as int),
            lower_name@ == unicode_lowercase(name@),
            file_name(os, path@) == Some(name@),
            first_location(unicode_lowercase(path@), 0) is None,
        decreases names@.len() - j,
    {
        let (pat, cat, conf) = names[j];
        assert(name_patterns()[j as int] == (pat, cat, conf));
        if str_eq(lower_name.as_str(), pat) || str_ends_with(lower_name.as_str(), pat) {
            assert(first_name(lower_name@, j as int) == Some((cat, conf)));
            return Some((cat, conf));
        }
        j = j + 1;
    }
    if str_eq(name.as_str(), "node_modules") {
        match crate::path::parent_of_exec(os, path) {
            None => {
                return None;
            },
            Some(_) => {},
        }
        if package_json_beside {
            return Some((PathCategory::Deps, 30));
        }
        return Some((PathCategory::Deps, 60));
    }
    match entries {
        Some(es) => guess_from_entries(es),
        None => None,
    }
}

/// The base risk of cleaning a category.
pub open spec fn base_risk(c: PathCategory) -> int {
    match c {
        PathCategory::Cache => 10,
        PathCategory::Logs => 20,
        PathCategory::Temp => 15,
        PathCategory::Build => 30,
        PathCategory::Deps => 50,
        PathCategory::Archive => 60,
        PathCategory::Other => 70,
    }
}

/// More risk for a lower-cased path that looks important: a backup, or
/// something important, or data (but not derived data).
pub open spec fn risk_modifier(p: Seq<char>) -> int {
    if contains_seq(p, "backup"@) {
        20
    } else if contains_seq(p, "important"@) {
        30
    } else if contains_seq(p, "data"@) && !contains_seq(p, "deriveddata"@) {
        10
    } else {
        0
    }
}

/// Risk score of cleaning a path of a category, from 0 to 100; lower is
/// safer.
pub open spec fn risk_score(path: Seq<char>, category: PathCategory) -> int {
    let s = base_risk(category) + risk_modifier(unicode_lowercase(path));
    if s < 0 { 0 } else if s > 100 { 100 } else { s }
}

/// Calculate a risk score for cleaning a directory; lower scores are safer.
pub fn calculate_risk_score(path: &str, category: PathCategory) -> (r: u8)
    ensures
        r as int == risk_score(path@, category),
{
    let base: i8 = match category {
        PathCategory::Cache => 10,
        PathCategory::Logs => 20,
        PathCategory::Temp => 15,
        PathCategory::Build => 30,
        PathCategory::Deps => 50,
        PathCategory::Archive => 60,
        PathCategory::Other => 70,
    };
    let p = to_lowercase(path);
    let modifier: i8 = if str_contains(p.as_str(), "backup") {
        20
    } else if str_contains(p.as_str(), "important") {
        30
    } else if str_contains(p.as_str(), "data") && !str_contains(p.as_str(), "deriveddata") {
        10
    } else {
        0
    };
    let s = base + modifier;
    let c: i8 = if s < 0 { 0 } else if s > 100 { 100 } else { s };
    c as u8
}

/// For the same path, cleaning a cache is always less risky than cleaning
/// dependencies, and every score lies between 0 and 100.
pub proof fn law_cache_safer_than_deps(path: Seq<char>)
    ensures
        risk_score(path, PathCategory::Cache) < risk_score(path, PathCategory::Deps),
        forall|c: PathCategory| 0 <= #[trigger] risk_score(path, c) <= 100,
{
}


/// A path that holds none of the known locations is judged by how its
/// lower-cased name ends: `caches` gives a cache at 75%, `cache` a cache at
/// 70%, `logs` logs at 70%, `temp` and `tmp` temporary files at 60%,
/// `target` a build directory at 50%, `dist` and `build` a build directory
/// at 40%; whatever lies beside it or inside it.
pub proof fn law_names_decide_without_a_location(
    os: Os,
    path: Seq<char>,
    name: Seq<char>,
    package_json_beside: bool,
    entries: Option<Seq<Seq<char>>>,
)
    requires
        file_name(os, path) == Some(name),
        !contains_seq(unicode_lowercase(path), "library/caches/"@) && !contains_seq(unicode_lowercase(path), "_cacache"@) && !contains_seq(unicode_lowercase(path), ".cache/"@) && !contains_seq(unicode_lowercase(path), "library/logs/"@) && !contains_seq(unicode_lowercase(path), "deriveddata"@) && !contains_seq(unicode_lowercase(path), "library/developer/xcode/deriveddata"@) && !contains_seq(unicode_lowercase(path), ".npm/_cacache"@) && !contains_seq(unicode_lowercase(path), ".cargo/registry/cache"@) && !contains_seq(unicode_lowercase(path), ".yarn/cache"@),
    ensures
        ("caches"@.is_suffix_of(unicode_lowercase(name))) ==> detect_spec(os, path, package_json_beside, entries) == Some((PathCategory::Cache, 75u32)),
        ("cache"@.is_suffix_of(unicode_lowercase(name))) ==> detect_spec(os, path, package_json_beside, entries) == Some((PathCategory::Cache, 70u32)),
        ("logs"@.is_suffix_of(unicode_lowercase(name))) ==> detect_spec(os, path, package_json_beside, entries) == Some((PathCategory::Logs, 70u32)),
        ("temp"@.is_suffix_of(unicode_lowercase(name))) ==> detect_spec(os, path, package_json_beside, entries) == Some((PathCategory::Temp, 60u32)),
        ("tmp"@.is_suffix_of(unicode_lowercase(name))) ==> detect_spec(os, path, package_json_beside, entries) == Some((PathCategory::Temp, 60u32)),
        ("target"@.is_suffix_of(unicode_lowercase(name))) ==> detect_spec(os, path, package_json_beside, entries) == Some((PathCategory::Build, 50u32)),
        ("dist"@.is_suffix_of(unicode_lowercase(name))) ==> detect_spec(os, path, package_json_beside, entries) == Some((PathCategory::Build, 40u32)),
        ("build"@.is_suffix_of(unicode_lowercase(name))) ==> detect_spec(os, path, package_json_beside, entries) == Some((PathCategory::Build, 40u32)),
{
    reveal_with_fuel(first_location, 10);
    reveal_with_fuel(first_name, 9);
    reveal_strlit("caches");
    reveal_strlit("cache");
    reveal_strlit("logs");
    reveal_strlit("temp");
    reveal_strlit("tmp");
    reveal_strlit("target");
    reveal_strlit("dist");
    reveal_strlit("build");
    let ln = unicode_lowercase(name);
    assert(first_location(unicode_lowercase(path), 0) is None);
    if "cache"@.is_suffix_of(ln) {
        if "caches"@.is_suffix_of(ln) {
            assert(ln[ln.len() - 1] == "cache"@[4]);
            assert(ln[ln.len() - 1] == "caches"@[5]);
        }
    }
    if "logs"@.is_suffix_of(ln) {
        if "caches"@.is_suffix_of(ln) {
            assert(ln[ln.len() - 2] == "logs"@[2]);
            assert(ln[ln.len() - 2] == "caches"@[4]);
        }
        if "cache"@.is_suffix_of(ln) {
            assert(ln[ln.len() - 1] == "logs"@[3]);
            assert(ln[ln.len() - 1] == "cache"@[4]);
        }
    }
    if "temp"@.is_suffix_of(ln) {
        if "caches"@.is_suffix_of(ln) {
            assert(ln[ln.len() - 1] == "temp"@[3]);
            assert(ln[ln.len() - 1] == "caches"@[5]);
        }
        if "cache"@.is_suffix_of(ln) {
            assert(ln[ln.len() - 1] == "temp"@[3]);
            assert(ln[ln.len() - 1] == "cache"@[4]);
        }
        if "logs"@.is_suffix_of(ln) {
            assert(ln[ln.len() - 1] == "temp"@[3]);
            assert(ln[ln.len() - 1] == "logs"@[3]);
        }
    }
    if "tmp"@.is_suffix_of(ln) {
        if "caches"@.is_suffix_of(ln) {
            assert(ln[ln.len() - 1] == "tmp"@[2]);
            assert(ln[ln.len() - 1] == "caches"@[5]);
        }
        if "cache"@.is_suffix_of(ln) {
            assert(ln[ln.len() - 1] == "tmp"@[2]);
            assert(ln[ln.len() - 1] == "cache"@[4]);
        }
        if "logs"@.is_suffix_of(ln) {
            assert(ln[ln.len() - 1] == "tmp"@[2]);
            assert(ln[ln.len() - 1] == "logs"@[3]);
        }
        if "temp"@.is_suffix_of(ln) {
            assert(ln[ln.len() - 3] == "tmp"@[0]);
            assert(ln[ln.len() - 3] == "temp"@[1]);
        }
    }
    if "target"@.is_suffix_of(ln) {
        if "caches"@.is_suffix_of(ln) {
            assert(ln[ln.len() - 1] == "target"@[5]);
            assert(ln[ln.len() - 1] == "caches"@[5]);
        }
        if "cache"@.is_suffix_of(ln) {
            assert(ln[ln.len() - 1] == "target"@[5]);
            assert(ln[ln.len() - 1] == "cache"@[4]);
        }
        if "logs"@.is_suffix_of(ln) {
            assert(ln[ln.len() - 1] == "target"@[5]);
            assert(ln[ln.len() - 1] == "logs"@[3]);
        }
        if "temp"@.is_suffix_of(ln) {
            assert(ln[ln.len() - 1] == "target"@[5]);
            assert(ln[ln.len() - 1] == "temp"@[3]);
        }
        if "tmp"@.is_suffix_of(ln) {
            assert(ln[ln.len() - 1] == "target"@[5]);
            assert(ln[ln.len() - 1] == "tmp"@[2]);
        }
    }
    if "dist"@.is_suffix_of(ln) {
        if "caches"@.is_suffix_of(ln) {
            assert(ln[ln.len() - 1] == "dist"@[3]);
            assert(ln[ln.len() - 1] == "caches"@[5]);
        }
        if "cache"@.is_suffix_of(ln) {
            assert(ln[ln.len() - 1] == "dist"@[3]);
            assert(ln[ln.len() - 1] == "cache"@[4]);
        }
        if "logs"@.is_suffix_of(ln) {
            assert(ln[ln.len() - 1] == "dist"@[3]);
            assert(ln[ln.len() - 1] == "logs"@[3]);
        }
        if "temp"@.is_suffix_of(ln) {
            assert(ln[ln.len() - 1] == "dist"@[3]);
            assert(ln[ln.len() - 1] == "temp"@[3]);
        }
        if "tmp"@.is_suffix_of(ln) {
            assert(ln[ln.len() - 1] == "dist"@[3]);
            assert(ln[ln.len() - 1] == "tmp"@[2]);
        }
        if "target"@.is_suffix_of(ln) {
            assert(ln[ln.len() - 2] == "dist"@[2]);
            assert(ln[ln.len() - 2] == "target"@[4]);
        }
    }
    if "build"@.is_suffix_of(ln) {
        if "caches"@.is_suffix_of(ln) {
            assert(ln[ln.len() - 1] == "build"@[4]);
            assert(ln[ln.len() - 1] == "caches"@[5]);
        }
        if "cache"@.is_suffix_of(ln) {
            assert(ln[ln.len() - 1] == "build"@[4]);
            assert(ln[ln.len() - 1] == "cache"@[4]);
        }
        if "logs"@.is_suffix_of(ln) {
            assert(ln[ln.len() - 1] == "build"@[4]);
            assert(ln[ln.len() - 1] == "logs"@[3]);
        }
        if "temp"@.is_suffix_of(ln) {
            assert(ln[ln.len() - 1] == "build"@[4]);
            assert(ln[ln.len() - 1] == "temp"@[3]);
        }
        if "tmp"@.is_suffix_of(ln) {
            assert(ln[ln.len() - 1] == "build"@[4]);
            assert(ln[ln.len() - 1] == "tmp"@[2]);
        }
        if "target"@.is_suffix_of(ln) {
            assert(ln[ln.len() - 1] == "build"@[4]);
            assert(ln[ln.len() - 1] == "target"@[5]);
        }
        if "dist"@.is_suffix_of(ln) {
            assert(ln[ln.len() - 1] == "build"@[4]);
            assert(ln[ln.len() - 1] == "dist"@[3]);
        }
    }
}


/// A path whose lower-cased form holds a known location is judged by the
/// first location it holds, in this order, whatever its name, its
/// neighbours or its entries: `library/caches/`, `_cacache`, `.cache/` a
/// cache (95%, 95%, 90%); `library/logs/` logs (95%); `deriveddata` a build
/// directory (95%, which already catches Xcode's own DerivedData); then the
/// npm, Cargo and Yarn caches (95%).
pub proof fn law_locations_decide_first(
    os: Os,
    path: Seq<char>,
    name: Seq<char>,
    package_json_beside: bool,
    entries: Option<Seq<Seq<char>>>,
)
    requires
        file_name(os, path) == Some(name),
    ensures
        ({
            let lp = unicode_lowercase(path);
            &&& (contains_seq(lp, "library/caches/"@)) ==> detect_spec(os, path, package_json_beside, entries) == Some((PathCategory::Cache, 95u32))
            &&& (contains_seq(lp, "_cacache"@) && !contains_seq(lp, "library/caches/"@)) ==> detect_spec(os, path, package_json_beside, entries) == Some((PathCategory::Cache, 95u32))
            &&& (contains_seq(lp, ".cache/"@) && !contains_seq(lp, "library/caches/"@) && !contains_seq(lp, "_cacache"@)) ==> detect_spec(os, path, package_json_beside, entries) == Some((PathCategory::Cache, 90u32))
            &&& (contains_seq(lp, "library/logs/"@) && !contains_seq(lp, "library/caches/"@) && !contains_seq(lp, "_cacache"@) && !contains_seq(lp, ".cache/"@)) ==> detect_spec(os, path, package_json_beside, entries) == Some((PathCategory::Logs, 95u32))
            &&& (contains_seq(lp, "deriveddata"@) && !contains_seq(lp, "library/caches/"@) && !contains_seq(lp, "_cacache"@) && !contains_seq(lp, ".cache/"@) && !contains_seq(lp, "library/logs/"@)) ==> detect_spec(os, path, package_json_beside, entries) == Some((PathCategory::Build, 95u32))
            &&& (contains_seq(lp, "library/developer/xcode/deriveddata"@) && !contains_seq(lp, "library/caches/"@) && !contains_seq(lp, "_cacache"@) && !contains_seq(lp, ".cache/"@) && !contains_seq(lp, "library/logs/"@) && !contains_seq(lp, "deriveddata"@)) ==> detect_spec(os, path, package_json_beside, entries) == Some((PathCategory::Build, 98u32))
            &&& (contains_seq(lp, ".npm/_cacache"@) && !contains_seq(lp, "library/caches/"@) && !contains_seq(lp, "_cacache"@) && !contains_seq(lp, ".cache/"@) && !contains_seq(lp, "library/logs/"@) && !contains_seq(lp, "deriveddata"@) && !contains_seq(lp, "library/developer/xcode/deriveddata"@)) ==> detect_spec(os, path, package_json_beside, entries) == Some((PathCategory::Cache, 95u32))
            &&& (contains_seq(lp, ".cargo/registry/cache"@) && !contains_seq(lp, "library/caches/"@) && !contains_seq(lp, "_cacache"@) && !contains_seq(lp, ".cache/"@) && !contains_seq(lp, "library/logs/"@) && !contains_seq(lp, "deriveddata"@) && !contains_seq(lp, "library/developer/xcode/deriveddata"@) && !contains_seq(lp, ".npm/_cacache"@)) ==> detect_spec(os, path, package_json_beside, entries) == Some((PathCategory::Cache, 95u32))
            &&& (contains_seq(lp, ".yarn/cache"@) && !contains_seq(lp, "library/caches/"@) && !contains_seq(lp, "_cacache"@) && !contains_seq(lp, ".cache/"@) && !contains_seq(lp, "library/logs/"@) && !contains_seq(lp, "deriveddata"@) && !contains_seq(lp, "library/developer/xcode/deriveddata"@) && !contains_seq(lp, ".npm/_cacache"@) && !contains_seq(lp, ".cargo/registry/cache"@)) ==> detect_spec(os, path, package_json_beside, entries) == Some((PathCategory::Cache, 95u32))
        }),
{
    reveal_with_fuel(first_location, 10);
}

} // verus!
