//! Predefined boundaries for common cleaning operations.
//!
//! Boundaries below the user's home directory take that directory.

use vstd::prelude::*;
use crate::path::{Os, join, join_path};
use crate::text::{lviews, strings_of, sviews};
use super::SafeBoundary;

verus! {

/// The home directory joined with each relative path.
pub open spec fn joined_all(os: Os, home: Seq<char>, rels: Seq<Seq<char>>) -> Seq<Seq<char>> {
    rels.map_values(|u: Seq<char>| join(os, home, u))
}

fn join_all(os: Os, home: &str, rels: &Vec<&str>) -> (r: Vec<String>)
    ensures
        sviews(r@) == joined_all(os, home@, lviews(rels@)),
{
    let mut r: Vec<String> = Vec::new();
    let mut i: usize = 0;
    while i < rels.len()
        invariant
            i <= rels.len(),
            sviews(r@) == joined_all(os, home@, lviews(rels@.take(i as int))),
        decreases rels.len() - i,
    {
        let ghost old_r = r@;
        r.push(join_path(os, home, rels[i]));
        i = i + 1;
        proof {
            assert(sviews(r@) =~= sviews(old_r).push(join(os, home@, rels@[i - 1]@)));
            assert(joined_all(os, home@, lviews(rels@.take(i as int))) =~= joined_all(
                os,
                home@,
                lviews(rels@.take(i - 1)),
            ).push(join(os, home@, rels@[i - 1]@)));
        }
    }
    assert(rels@.take(rels.len() as int) =~= rels@);
    r
}

/// A boundary without depth limit over `home` joined with each of `rels`.
pub open spec fn home_boundary(b: SafeBoundary, os: Os, home: Seq<char>, rels: Seq<&str>, description: &str) -> bool {
    &&& sviews(b.roots@) == joined_all(os, home, lviews(rels))
    &&& b.max_depth is None
    &&& b.description@ == description@
}

fn under_home(os: Os, home: &str, rels: Vec<&str>, description: &str) -> (r: SafeBoundary)
    ensures
        home_boundary(r, os, home@, rels@, description),
{
    SafeBoundary::new(join_all(os, home, &rels), description)
}

/// Boundary of the user cache directories.
pub fn user_caches(os: Os, home: &str) -> (r: SafeBoundary)
    ensures
        home_boundary(r, os, home@, seq!["Library/Caches"], "User cache directories"),
{
    let v: Vec<&str> = vec!["Library/Caches"];
    assert(v@ =~= seq!["Library/Caches"]);
    under_home(os, home, v, "User cache directories")
}

/// Boundary of the user log directories.
pub fn user_logs(os: Os, home: &str) -> (r: SafeBoundary)
    ensures
        home_boundary(r, os, home@, seq!["Library/Logs"], "User log directories"),
{
    let v: Vec<&str> = vec!["Library/Logs"];
    assert(v@ =~= seq!["Library/Logs"]);
    under_home(os, home, v, "User log directories")
}

/// Boundary of the user's trash.
pub fn user_trash(os: Os, home: &str) -> (r: SafeBoundary)
    ensures
        home_boundary(r, os, home@, seq![".Trash"], "User trash"),
{
    let v: Vec<&str> = vec![".Trash"];
    assert(v@ =~= seq![".Trash"]);
    under_home(os, home, v, "User trash")
}

/// Boundary of the Xcode developer directories.
pub fn xcode(os: Os, home: &str) -> (r: SafeBoundary)
    ensures
        home_boundary(
            r,
            os,
            home@,
            seq![
                "Library/Developer/Xcode/DerivedData",
                "Library/Developer/Xcode/Archives",
                "Library/Developer/Xcode/iOS DeviceSupport",
                "Library/Developer/Xcode/watchOS DeviceSupport",
                "Library/Developer/Xcode/tvOS DeviceSupport",
            ],
            "Xcode developer directories",
        ),
{
    under_home(
        os,
        home,
        vec![
            "Library/Developer/Xcode/DerivedData",
            "Library/Developer/Xcode/Archives",
            "Library/Developer/Xcode/iOS DeviceSupport",
            "Library/Developer/Xcode/watchOS DeviceSupport",
            "Library/Developer/Xcode/tvOS DeviceSupport",
        ],
        "Xcode developer directories",
    )
}

/// Boundary of the Homebrew directories.
pub fn homebrew() -> (r: SafeBoundary)
    ensures
        sviews(r.roots@) == lviews(seq!["/opt/homebrew", "/usr/local/Homebrew", "/usr/local/Cellar"]),
        r.max_depth is None,
        r.description@ == "Homebrew directories"@,
{
    let v: Vec<&str> = vec!["/opt/homebrew", "/usr/local/Homebrew", "/usr/local/Cellar"];
    SafeBoundary::new(strings_of(&v), "Homebrew directories")
}

/// Boundary of the npm cache.
pub fn npm(os: Os, home: &str) -> (r: SafeBoundary)
    ensures
        home_boundary(r, os, home@, seq![".npm"], "npm cache"),
{
    let v: Vec<&str> = vec![".npm"];
    assert(v@ =~= seq![".npm"]);
    under_home(os, home, v, "npm cache")
}

/// Boundary of the yarn caches.
pub fn yarn(os: Os, home: &str) -> (r: SafeBoundary)
    ensures
        home_boundary(r, os, home@, seq![".yarn/cache", "Library/Caches/Yarn"], "yarn cache"),
{
    under_home(os, home, vec![".yarn/cache", "Library/Caches/Yarn"], "yarn cache")
}

/// Boundary of the Cargo caches.
pub fn cargo(os: Os, home: &str) -> (r: SafeBoundary)
    ensures
        home_boundary(r, os, home@, seq![".cargo/registry/cache", ".cargo/registry/src"], "Cargo cache"),
{
    under_home(os, home, vec![".cargo/registry/cache", ".cargo/registry/src"], "Cargo cache")
}

/// Boundary of the pip caches.
pub fn pip(os: Os, home: &str) -> (r: SafeBoundary)
    ensures
        home_boundary(r, os, home@, seq!["Library/Caches/pip", ".cache/pip"], "pip cache"),
{
    under_home(os, home, vec!["Library/Caches/pip", ".cache/pip"], "pip cache")
}

} // verus!
