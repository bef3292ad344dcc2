//! The decisions behind the foreign-function entry points: which cleaners a
//! configuration enables, how the paths handed to a clean request are routed
//! to the cleaners that found them, and how the outcomes are counted.

use vstd::prelude::*;
use crate::cleaners::traits::{item_views, CleanResult, CleanerCategory, CleanableItem, ItemView};
use crate::config::schema::Config;
use crate::ffi::conversions::cleaner_category_spec;
use crate::ffi::types::{FFICleanFailure, FFICleanResult, FFICleanerCategory, FFICleanerInfo, FFIScanResult};
use crate::path::{Os, same_path, same_path_exec};
use crate::safety::protected_paths::{is_protected, protected_spec, ProtectionEnv};
use crate::scanner::apps::InstalledApp;
use crate::text::{clone_strings, concat3, str_eq, sviews};

verus! {

/// The cleaners the library offers.
#[derive(Debug, Clone, Copy, PartialEq, Eq, Structural)]
pub enum CleanerKind {
    SystemCache,
    SystemLogs,
    Npm,
    Yarn,
    Cargo,
    Pip,
    Trash,
    Docker,
    Apps,
    Homebrew,
    Xcode,
}

pub open spec fn kind_id(k: CleanerKind) -> Seq<char> {
    match k {
        CleanerKind::SystemCache => "system-cache"@,
        CleanerKind::SystemLogs => "system-logs"@,
        CleanerKind::Npm => "npm"@,
        CleanerKind::Yarn => "yarn"@,
        CleanerKind::Cargo => "cargo"@,
        CleanerKind::Pip => "pip"@,
        CleanerKind::Trash => "trash"@,
        CleanerKind::Docker => "docker"@,
        CleanerKind::Apps => "apps"@,
        CleanerKind::Homebrew => "homebrew"@,
        CleanerKind::Xcode => "xcode"@,
    }
}

pub open spec fn kind_name(k: CleanerKind) -> Seq<char> {
    match k {
        CleanerKind::SystemCache => "System Caches"@,
        CleanerKind::SystemLogs => "System Logs"@,
        CleanerKind::Npm => "npm Cache"@,
        CleanerKind::Yarn => "Yarn Cache"@,
        CleanerKind::Cargo => "Cargo Cache"@,
        CleanerKind::Pip => "pip Cache"@,
        CleanerKind::Trash => "Trash"@,
        CleanerKind::Docker => "Docker"@,
        CleanerKind::Apps => "App Leftovers"@,
        CleanerKind::Homebrew => "Homebrew"@,
        CleanerKind::Xcode => "Xcode"@,
    }
}

pub open spec fn kind_description(k: CleanerKind) -> Seq<char> {
    match k {
        CleanerKind::SystemCache => "User application caches (~/Library/Caches)"@,
        CleanerKind::SystemLogs => "User application logs (~/Library/Logs)"@,
        CleanerKind::Npm => "npm package cache (~/.npm/_cacache)"@,
        CleanerKind::Yarn => "Yarn package cache"@,
        CleanerKind::Cargo => "Rust/Cargo package cache (~/.cargo/registry)"@,
        CleanerKind::Pip => "Python pip package cache"@,
        CleanerKind::Trash => "Empty the user's trash (~/.Trash)"@,
        CleanerKind::Docker => "Docker images, containers, volumes, and build cache"@,
        CleanerKind::Apps => "Leftover files from uninstalled applications"@,
        CleanerKind::Homebrew => "Homebrew cache and old package versions"@,
        CleanerKind::Xcode => "Xcode build artifacts (DerivedData, Archives, DeviceSupport)"@,
    }
}

pub open spec fn kind_category(k: CleanerKind) -> CleanerCategory {
    match k {
        CleanerKind::SystemCache | CleanerKind::SystemLogs | CleanerKind::Trash => CleanerCategory::System,
        CleanerKind::Apps => CleanerCategory::Apps,
        _ => CleanerCategory::Developer,
    }
}

impl CleanerKind {
    /// Unique identifier of the cleaner.
    pub fn id(&self) -> (r: &'static str)
        ensures
            r@ == kind_id(*self),
    {
        match self {
            CleanerKind::SystemCache => "system-cache",
            CleanerKind::SystemLogs => "system-logs",
            CleanerKind::Npm => "npm",
            CleanerKind::Yarn => "yarn",
            CleanerKind::Cargo => "cargo",
            CleanerKind::Pip => "pip",
            CleanerKind::Trash => "trash",
            CleanerKind::Docker => "docker",
            CleanerKind::Apps => "apps",
            CleanerKind::Homebrew => "homebrew",
            CleanerKind::Xcode => "xcode",
        }
    }

    /// Human-readable name of the cleaner.
    pub fn name(&self) -> (r: &'static str)
        ensures
            r@ == kind_name(*self),
    {
        match self {
            CleanerKind::SystemCache => "System Caches",
            CleanerKind::SystemLogs => "System Logs",
            CleanerKind::Npm => "npm Cache",
            CleanerKind::Yarn => "Yarn Cache",
            CleanerKind::Cargo => "Cargo Cache",
            CleanerKind::Pip => "pip Cache",
            CleanerKind::Trash => "Trash",
            CleanerKind::Docker => "Docker",
            CleanerKind::Apps => "App Leftovers",
            CleanerKind::Homebrew => "Homebrew",
            CleanerKind::Xcode => "Xcode",
        }
    }

    /// What the cleaner cleans.
    pub fn description(&self) -> (r: &'static str)
        ensures
            r@ == kind_description(*self),
    {
        match self {
            CleanerKind::SystemCache => "User application caches (~/Library/Caches)",
            CleanerKind::SystemLogs => "User application logs (~/Library/Logs)",
            CleanerKind::Npm => "npm package cache (~/.npm/_cacache)",
            CleanerKind::Yarn => "Yarn package cache",
            CleanerKind::Cargo => "Rust/Cargo package cache (~/.cargo/registry)",
            CleanerKind::Pip => "Python pip package cache",
            CleanerKind::Trash => "Empty the user's trash (~/.Trash)",
            CleanerKind::Docker => "Docker images, containers, volumes, and build cache",
            CleanerKind::Apps => "Leftover files from uninstalled applications",
            CleanerKind::Homebrew => "Homebrew cache and old package versions",
            CleanerKind::Xcode => "Xcode build artifacts (DerivedData, Archives, DeviceSupport)",
        }
    }

    /// Category group of the cleaner.
    pub fn category(&self) -> (r: CleanerCategory)
        ensures
            r == kind_category(*self),
    {
        match self {
            CleanerKind::SystemCache | CleanerKind::SystemLogs | CleanerKind::Trash => CleanerCategory::System,
            CleanerKind::Apps => CleanerCategory::Apps,
            _ => CleanerCategory::Developer,
        }
    }
}

/// `k` alone where `on` holds, else nothing.
pub open spec fn kind_if(on: bool, k: CleanerKind) -> Seq<CleanerKind> {
    if on { seq![k] } else { seq![] }
}

/// The cleaners that `config` enables on `os`, in the order in which they
/// are offered: the system caches and logs, the package caches, the trash,
/// Docker, application leftovers, then Homebrew (macOS and Linux) and Xcode
/// (macOS).
pub open spec fn enabled_kinds(config: Config, os: Os) -> Seq<CleanerKind> {
    let c = config.categories;
    kind_if(c.system_cache.enabled, CleanerKind::SystemCache)
        + kind_if(c.system_logs.enabled, CleanerKind::SystemLogs)
        + kind_if(c.npm.enabled, CleanerKind::Npm)
        + kind_if(c.yarn.enabled, CleanerKind::Yarn)
        + kind_if(c.cargo.base.enabled, CleanerKind::Cargo)
        + kind_if(c.pip.enabled, CleanerKind::Pip)
        + kind_if(c.trash.base.enabled, CleanerKind::Trash)
        + kind_if(c.docker.base.enabled, CleanerKind::Docker)
        + kind_if(c.apps.base.enabled, CleanerKind::Apps)
        + kind_if(c.homebrew.base.enabled && (os == Os::MacOs || os == Os::Linux), CleanerKind::Homebrew)
        + kind_if(c.xcode.base.enabled && os == Os::MacOs, CleanerKind::Xcode)
}

fn push_if(v: &mut Vec<CleanerKind>, on: bool, k: CleanerKind)
    ensures
        final(v)@ == old(v)@ + kind_if(on, k),
{
    if on {
        v.push(k);
    }
    proof {
        assert(final(v)@ == old(v)@ + kind_if(on, k));
    }
}

/// The cleaners that `config` enables on `os`.
pub fn get_cleaners_with_config(config: &Config, os: Os) -> (r: Vec<CleanerKind>)
    ensures
        r@ == enabled_kinds(*config, os),
{
    let c = &config.categories;
    let mut v: Vec<CleanerKind> = Vec::new();
    push_if(&mut v, c.system_cache.enabled, CleanerKind::SystemCache);
    push_if(&mut v, c.system_logs.enabled, CleanerKind::SystemLogs);
    push_if(&mut v, c.npm.enabled, CleanerKind::Npm);
    push_if(&mut v, c.yarn.enabled, CleanerKind::Yarn);
    push_if(&mut v, c.cargo.base.enabled, CleanerKind::Cargo);
    push_if(&mut v, c.pip.enabled, CleanerKind::Pip);
    push_if(&mut v, c.trash.base.enabled, CleanerKind::Trash);
    push_if(&mut v, c.docker.base.enabled, CleanerKind::Docker);
    push_if(&mut v, c.apps.base.enabled, CleanerKind::Apps);
    let brew_os = match os {
        Os::MacOs | Os::Linux => true,
        _ => false,
    };
    push_if(&mut v, c.homebrew.base.enabled && brew_os, CleanerKind::Homebrew);
    let mac = match os {
        Os::MacOs => true,
        _ => false,
    };
    push_if(&mut v, c.xcode.base.enabled && mac, CleanerKind::Xcode);
    proof {
        assert(v@ == enabled_kinds(*config, os));
    }
    v
}

/// What is reported of a cleaner: its identity and whether it can run on
/// this machine (`available`, as the cleaner found it).
pub fn cleaner_info(kind: CleanerKind, available: bool) -> (r: FFICleanerInfo)
    ensures
        r.id@ == kind_id(kind),
        r.name@ == kind_name(kind),
        r.description@ == kind_description(kind),
        r.category == cleaner_category_spec(kind_category(kind)),
        r.available == available,
{
    let category = match kind.category() {
        CleanerCategory::System => FFICleanerCategory::System,
        CleanerCategory::Developer => FFICleanerCategory::Developer,
        CleanerCategory::Apps => FFICleanerCategory::Apps,
    };
    FFICleanerInfo {
        id: String::from_str(kind.id()),
        name: String::from_str(kind.name()),
        description: String::from_str(kind.description()),
        category,
        available,
    }
}

/// The first of `kinds` whose identifier is `id`.
pub fn find_cleaner(kinds: &Vec<CleanerKind>, id: &str) -> (r: Option<usize>)
    ensures
        match r {
            Some(i) => i < kinds.len() && kind_id(kinds@[i as int]) == id@
                && forall|j: int| 0 <= j < i ==> kind_id(#[trigger] kinds@[j]) != id@,
            None => forall|j: int| 0 <= j < kinds.len() ==> kind_id(#[trigger] kinds@[j]) != id@,
        },
{
    let mut i: usize = 0;
    while i < kinds.len()
        invariant
            i <= kinds.len(),
            forall|j: int| 0 <= j < i ==> kind_id(#[trigger] kinds@[j]) != id@,
        decreases kinds.len() - i,
    {
        if str_eq(kinds[i].id(), id) {
            return Some(i);
        }
        i = i + 1;
    }
    None
}

/// The scan result reported for a category that no available cleaner
/// serves.
pub fn unknown_category_result(category_id: String) -> (r: FFIScanResult)
    ensures
        r.category@ == category_id@,
        r.category_name@ == "Unknown"@,
        r.items@.len() == 0,
        r.total_size == 0,
        r.scan_duration_ms == 0,
        r.errors@.len() == 1,
        r.errors@[0]@ == "Category not found or not available"@,
{
    let mut errors: Vec<String> = Vec::new();
    errors.push(String::from_str("Category not found or not available"));
    FFIScanResult {
        category: category_id,
        category_name: String::from_str("Unknown"),
        items: Vec::new(),
        total_size: 0,
        scan_duration_ms: 0,
        errors,
    }
}

/// Where the index of scanned items files the path `p`: its last entry for
/// that path, as a later scan replaces an earlier one.
pub open spec fn index_lookup(index: Seq<(usize, ItemView)>, p: Seq<char>) -> Option<(usize, ItemView)>
    decreases index.len(),
{
    if index.len() == 0 {
        None
    } else if index.last().1.path == p {
        Some(index.last())
    } else {
        index_lookup(index.drop_last(), p)
    }
}

/// The index with each item taken by its view.
pub open spec fn index_views(index: Seq<(usize, CleanableItem)>) -> Seq<(usize, ItemView)> {
    index.map_values(|e: (usize, CleanableItem)| (e.0, e.1@))
}

/// Where a path of a clean request goes.
pub enum RouteView {
    /// To the cleaner with this position, as this item.
    ToCleaner(usize, ItemView),
    /// Refused: the item needs the force flag and the request lacks it.
    NeedsForce,
    /// Cleaned on its own: no cleaner's scan holds it, or an earlier copy of
    /// the path in the request took its entry.
    Manual,
}

/// Route of the path at position `i` of a request: each entry of the index
/// serves the first copy of its path only.
pub open spec fn route_of(index: Seq<(usize, ItemView)>, paths: Seq<Seq<char>>, i: int, force: bool) -> RouteView {
    let p = paths[i];
    if paths.take(i).contains(p) {
        RouteView::Manual
    } else {
        match index_lookup(index, p) {
            Some(e) => if e.1.requires_force && !force {
                RouteView::NeedsForce
            } else {
                RouteView::ToCleaner(e.0, e.1)
            },
            None => RouteView::Manual,
        }
    }
}

/// The items that the first `n` paths route to cleaner `c`, in order.
pub open spec fn routed_to(index: Seq<(usize, ItemView)>, paths: Seq<Seq<char>>, force: bool, c: usize, n: nat) -> Seq<ItemView>
    decreases n,
{
    if n == 0 {
        seq![]
    } else {
        let prev = routed_to(index, paths, force, c, (n - 1) as nat);
        match route_of(index, paths, n - 1, force) {
            RouteView::ToCleaner(k, it) => if k == c { prev.push(it) } else { prev },
            _ => prev,
        }
    }
}

/// The paths among the first `n` refused for want of the force flag.
pub open spec fn refused_upto(index: Seq<(usize, ItemView)>, paths: Seq<Seq<char>>, force: bool, n: nat) -> Seq<Seq<char>>
    decreases n,
{
    if n == 0 {
        seq![]
    } else {
        let prev = refused_upto(index, paths, force, (n - 1) as nat);
        if route_of(index, paths, n - 1, force) is NeedsForce { prev.push(paths[n - 1]) } else { prev }
    }
}

/// The paths among the first `n` to be cleaned on their own.
pub open spec fn manual_upto(index: Seq<(usize, ItemView)>, paths: Seq<Seq<char>>, force: bool, n: nat) -> Seq<Seq<char>>
    decreases n,
{
    if n == 0 {
        seq![]
    } else {
        let prev = manual_upto(index, paths, force, (n - 1) as nat);
        if route_of(index, paths, n - 1, force) is Manual { prev.push(paths[n - 1]) } else { prev }
    }
}

/// The routing of a clean request.
pub struct CleanRouting {
    /// For each cleaner, the items routed to it, in request order.
    pub groups: Vec<Vec<CleanableItem>>,
    /// The paths refused because their items need the force flag.
    pub needs_force: Vec<String>,
    /// The paths to be cleaned on their own.
    pub manual: Vec<String>,
}

/// The entry of `index` for `p`, as `index_lookup` finds it.
fn index_find(index: &Vec<(usize, CleanableItem)>, p: &str) -> (r: Option<usize>)
    ensures
        match r {
            Some(k) => k < index.len() && index_lookup(index_views(index@), p@) == Some(index_views(index@)[k as int]),
            None => index_lookup(index_views(index@), p@) is None,
        },
{
    let ghost iv = index_views(index@);
    let mut j: usize = index.len();
    assert(iv.take(j as int) =~= iv);
    while j > 0
        invariant
            j <= index.len(),
            iv == index_views(index@),
            index_lookup(iv, p@) == index_lookup(iv.take(j as int), p@),
        decreases j,
    {
        assert(iv.take(j as int).drop_last() =~= iv.take(j - 1));
        if str_eq(index[j - 1].1.path.as_str(), p) {
            return Some(j - 1);
        }
        j = j - 1;
    }
    assert(iv.take(0).len() == 0);
    None
}

/// Whether `paths[i]` occurs among the paths before it.
fn seen_before(paths: &Vec<String>, i: usize) -> (r: bool)
    requires
        i < paths.len(),
    ensures
        r == sviews(paths@).take(i as int).contains(paths@[i as int]@),
{
    let ghost pv = sviews(paths@);
    let mut j: usize = 0;
    while j < i
        invariant
            i < paths.len(),
            j <= i,
            pv == sviews(paths@),
            forall|k: int| 0 <= k < j ==> pv[k] != pv[i as int],
        decreases i - j,
    {
        if str_eq(paths[j].as_str(), paths[i].as_str()) {
            assert(pv.take(i as int)[j as int] == pv[i as int]);
            return true;
        }
        j = j + 1;
    }
    assert forall|k: int| 0 <= k < pv.take(i as int).len() implies pv.take(i as int)[k] != pv[i as int] by {}
    false
}

/// A routing decision, by positions: the cleaner and the index entry.
enum Decision {
    ToCleaner(usize, usize),
    NeedsForce,
    Manual,
}

spec fn decision_fits(d: Decision, iv: Seq<(usize, ItemView)>, r: RouteView) -> bool {
    match d {
        Decision::ToCleaner(c, k) => k < iv.len() && iv[k as int].0 == c && r == RouteView::ToCleaner(c, iv[k as int].1),
        Decision::NeedsForce => r is NeedsForce,
        Decision::Manual => r is Manual,
    }
}

fn decide_routes(paths: &Vec<String>, index: &Vec<(usize, CleanableItem)>, force: bool) -> (r: Vec<Decision>)
    ensures
        r.len() == paths.len(),
        forall|i: int| 0 <= i < r.len() ==> decision_fits(#[trigger] r@[i], index_views(index@), route_of(index_views(index@), sviews(paths@), i, force)),
{
    let ghost iv = index_views(index@);
    let ghost pv = sviews(paths@);
    let mut r: Vec<Decision> = Vec::new();
    let mut i: usize = 0;
    while i < paths.len()
        invariant
            i <= paths.len(),
            r.len() == i,
            iv == index_views(index@),
            pv == sviews(paths@),
            forall|j: int| 0 <= j < i ==> decision_fits(#[trigger] r@[j], iv, route_of(iv, pv, j, force)),
        decreases paths.len() - i,
    {
        let d = if seen_before(paths, i) {
            Decision::Manual
        } else {
            match index_find(index, paths[i].as_str()) {
                Some(k) => if index[k].1.requires_force && !force {
                    Decision::NeedsForce
                } else {
                    Decision::ToCleaner(index[k].0, k)
                },
                None => Decision::Manual,
            }
        };
        assert(decision_fits(d, iv, route_of(iv, pv, i as int, force)));
        r.push(d);
        i = i + 1;
    }
    r
}

fn items_for(index: &Vec<(usize, CleanableItem)>, ds: &Vec<Decision>, c: usize, Ghost(pv): Ghost<Seq<Seq<char>>>, force: bool) -> (r: Vec<CleanableItem>)
    requires
        ds.len() == pv.len(),
        forall|i: int| 0 <= i < ds.len() ==> decision_fits(#[trigger] ds@[i], index_views(index@), route_of(index_views(index@), pv, i, force)),
    ensures
        item_views(r@) == routed_to(index_views(index@), pv, force, c, pv.len()),
{
    let ghost iv = index_views(index@);
    let mut r: Vec<CleanableItem> = Vec::new();
    let mut i: usize = 0;
    while i < ds.len()
        invariant
            i <= ds.len(),
            ds.len() == pv.len(),
            iv == index_views(index@),
            forall|j: int| 0 <= j < ds.len() ==> decision_fits(#[trigger] ds@[j], iv, route_of(iv, pv, j, force)),
            item_views(r@) == routed_to(iv, pv, force, c, i as nat),
        decreases ds.len() - i,
    {
        assert(decision_fits(ds@[i as int], iv, route_of(iv, pv, i as int, force)));
        match &ds[i] {
            Decision::ToCleaner(k, e) => {
                if *k == c {
                    let ghost old = item_views(r@);
                    let it = index[*e].1.duplicate();
                    r.push(it);
                    assert(item_views(r@) =~= old.push(iv[*e as int].1));
                }
            },
            _ => {},
        }
        i = i + 1;
    }
    r
}

/// Routes the paths of a clean request: each path whose item a cleaner's
/// scan holds goes to that cleaner, unless the item needs the force flag and
/// `force` is off; every other path is left to be cleaned on its own.
/// `index` holds, for each scanned item, the position of the cleaner that
/// found it, in scan order.
pub fn route_clean_paths(paths: &Vec<String>, index: &Vec<(usize, CleanableItem)>, cleaners: usize, force: bool) -> (r: CleanRouting)
    ensures
        r.groups.len() == cleaners,
        forall|c: int| 0 <= c < cleaners ==> item_views((#[trigger] r.groups@[c])@) == routed_to(index_views(index@), sviews(paths@), force, c as usize, paths.len() as nat),
        sviews(r.needs_force@) == refused_upto(index_views(index@), sviews(paths@), force, paths.len() as nat),
        sviews(r.manual@) == manual_upto(index_views(index@), sviews(paths@), force, paths.len() as nat),
{
    let ghost iv = index_views(index@);
    let ghost pv = sviews(paths@);
    let ds = decide_routes(paths, index, force);
    let mut needs_force: Vec<String> = Vec::new();
    let mut manual: Vec<String> = Vec::new();
    let mut i: usize = 0;
    while i < ds.len()
        invariant
            i <= ds.len(),
            ds.len() == paths.len(),
            iv == index_views(index@),
            pv == sviews(paths@),
            forall|j: int| 0 <= j < ds.len() ==> decision_fits(#[trigger] ds@[j], iv, route_of(iv, pv, j, force)),
            sviews(needs_force@) == refused_upto(iv, pv, force, i as nat),
            sviews(manual@) == manual_upto(iv, pv, force, i as nat),
        decreases ds.len() - i,
    {
        assert(decision_fits(ds@[i as int], iv, route_of(iv, pv, i as int, force)));
        let ghost n0 = sviews(needs_force@);
        let ghost m0 = sviews(manual@);
        match &ds[i] {
            Decision::NeedsForce => {
                needs_force.push(paths[i].clone());
                assert(sviews(needs_force@) =~= n0.push(pv[i as int]));
            },
            Decision::Manual => {
                manual.push(paths[i].clone());
                assert(sviews(manual@) =~= m0.push(pv[i as int]));
            },
            _ => {},
        }
        i = i + 1;
    }
    let mut groups: Vec<Vec<CleanableItem>> = Vec::new();
    let mut c: usize = 0;
    while c < cleaners
        invariant
            c <= cleaners,
            groups.len() == c,
            ds.len() == pv.len(),
            iv == index_views(index@),
            pv == sviews(paths@),
            forall|j: int| 0 <= j < ds.len() ==> decision_fits(#[trigger] ds@[j], iv, route_of(iv, pv, j, force)),
            forall|k: int| 0 <= k < c ==> item_views((#[trigger] groups@[k])@) == routed_to(iv, pv, force, k as usize, pv.len()),
        decreases cleaners - c,
    {
        let g = items_for(index, &ds, c, Ghost(pv), force);
        groups.push(g);
        c = c + 1;
    }
    CleanRouting { groups, needs_force, manual }
}

/// The items of one cleaner's scan, each tagged with the cleaner's position.
pub open spec fn tagged(c: usize, items: Seq<ItemView>) -> Seq<(usize, ItemView)> {
    items.map_values(|it: ItemView| (c, it))
}

/// The scans of the cleaners taken by their views (`None`: the cleaner was
/// not available and did not scan).
pub open spec fn scan_views(scans: Seq<Option<Vec<CleanableItem>>>) -> Seq<Option<Seq<ItemView>>> {
    scans.map_values(|o: Option<Vec<CleanableItem>>| match o {
        Some(v) => Some(item_views(v@)),
        None => None,
    })
}

/// The index of everything the cleaners found, in scan order.
pub open spec fn index_of_scans(scans: Seq<Option<Seq<ItemView>>>) -> Seq<(usize, ItemView)>
    decreases scans.len(),
{
    if scans.len() == 0 {
        seq![]
    } else {
        let prev = index_of_scans(scans.drop_last());
        match scans.last() {
            Some(items) => prev + tagged((scans.len() - 1) as usize, items),
            None => prev,
        }
    }
}

/// The index of the items that the available cleaners found: for the
/// cleaner at each position, its items in order, tagged with the position.
pub fn build_scan_index(scans: &Vec<Option<Vec<CleanableItem>>>) -> (r: Vec<(usize, CleanableItem)>)
    ensures
        index_views(r@) == index_of_scans(scan_views(scans@)),
{
    let ghost sv = scan_views(scans@);
    let mut r: Vec<(usize, CleanableItem)> = Vec::new();
    let mut c: usize = 0;
    while c < scans.len()
        invariant
            c <= scans.len(),
            sv == scan_views(scans@),
            index_views(r@) == index_of_scans(sv.take(c as int)),
        decreases scans.len() - c,
    {
        assert(sv.take(c + 1).drop_last() =~= sv.take(c as int));
        match &scans[c] {
            Some(items) => {
                let ghost base = index_views(r@);
                let mut k: usize = 0;
                while k < items.len()
                    invariant
                        k <= items.len(),
                        index_views(r@) == base + tagged(c, item_views(items@).take(k as int)),
                    decreases items.len() - k,
                {
                    let ghost before = index_views(r@);
                    let it = items[k].duplicate();
                    r.push((c, it));
                    assert(tagged(c, item_views(items@).take(k + 1)) =~= tagged(c, item_views(items@).take(k as int)).push((c, items@[k as int]@)));
                    assert(index_views(r@) =~= before.push((c, items@[k as int]@)));
                    k = k + 1;
                }
                assert(item_views(items@).take(k as int) =~= item_views(items@));
            },
            None => {},
        }
        c = c + 1;
    }
    assert(sv.take(c as int) =~= sv);
    r
}

/// A failure by its view: the path and the reason.
pub open spec fn failure_views(fs: Seq<FFICleanFailure>) -> Seq<(Seq<char>, Seq<char>)> {
    fs.map_values(|f: FFICleanFailure| (f.path@, f.reason@))
}

/// A list of (path, reason) pairs by their views.
pub open spec fn pair_views(ps: Seq<(String, String)>) -> Seq<(Seq<char>, Seq<char>)> {
    ps.map_values(|p: (String, String)| (p.0@, p.1@))
}

/// What happens to a path that is cleaned on its own.
pub enum ManualStep {
    /// Refused, for the reason given.
    Refused(String),
    /// Dry run: the path exists and counts with its size.
    Counted,
    /// Dry run: the path does not exist.
    Missing,
    /// The path goes to the trash.
    Move,
}

/// The decision for a path cleaned on its own: a protected path is refused
/// whatever the mode (`canonical` is where the path resolves, or the path
/// itself where it does not resolve); a dry run counts a path that exists
/// and reports one that does not; otherwise the path goes to the trash.
pub fn manual_step(env: &ProtectionEnv, path: &str, canonical: &str, dry_run: bool, path_exists: bool) -> (r: ManualStep)
    ensures
        protected_spec(*env, path@, canonical@) ==> (r matches ManualStep::Refused(m) && m@ == "SAFETY VIOLATION: '"@ + path@ + "' is protected"@),
        !protected_spec(*env, path@, canonical@) ==> r == (if dry_run {
            if path_exists { ManualStep::Counted } else { ManualStep::Missing }
        } else {
            ManualStep::Move
        }),
{
    if is_protected(env, path, canonical) {
        ManualStep::Refused(concat3("SAFETY VIOLATION: '", path, "' is protected"))
    } else if dry_run {
        if path_exists { ManualStep::Counted } else { ManualStep::Missing }
    } else {
        ManualStep::Move
    }
}

/// The counts of a clean request as it goes.
pub struct RequestTally {
    pub items_cleaned: u32,
    pub bytes_freed: u64,
    pub failures: Vec<FFICleanFailure>,
}

impl RequestTally {
    /// Nothing counted yet.
    pub fn new() -> (r: RequestTally)
        ensures
            r.items_cleaned == 0,
            r.bytes_freed == 0,
            r.failures@.len() == 0,
    {
        RequestTally { items_cleaned: 0, bytes_freed: 0, failures: Vec::new() }
    }

    /// Count an item cleaned that freed `size` bytes.
    pub fn cleaned(&mut self, size: u64)
        requires
            old(self).items_cleaned < u32::MAX,
            old(self).bytes_freed + size <= u64::MAX,
        ensures
            final(self).items_cleaned == old(self).items_cleaned + 1,
            final(self).bytes_freed == old(self).bytes_freed + size,
            final(self).failures@ == old(self).failures@,
    {
        self.items_cleaned = self.items_cleaned + 1;
        self.bytes_freed = self.bytes_freed + size;
    }

    /// Count a path that failed, with the reason.
    pub fn failed(&mut self, path: String, reason: String)
        ensures
            final(self).items_cleaned == old(self).items_cleaned,
            final(self).bytes_freed == old(self).bytes_freed,
            failure_views(final(self).failures@) == failure_views(old(self).failures@).push((path@, reason@)),
    {
        let ghost before = failure_views(self.failures@);
        self.failures.push(FFICleanFailure { path, reason });
        assert(failure_views(self.failures@) =~= before.push((path@, reason@)));
    }

    /// Count a path refused for want of the force flag.
    pub fn needs_force(&mut self, path: String)
        ensures
            final(self).items_cleaned == old(self).items_cleaned,
            final(self).bytes_freed == old(self).bytes_freed,
            failure_views(final(self).failures@) == failure_views(old(self).failures@).push((path@, "Requires --force flag"@)),
    {
        self.failed(path, String::from_str("Requires --force flag"));
    }

    /// Add what a cleaner reports of the items routed to it (its count of
    /// cleaned items taken to 32 bits).
    pub fn absorb(&mut self, result: CleanResult)
        requires
            old(self).items_cleaned + (result.items_cleaned as u32) <= u32::MAX,
            old(self).bytes_freed + result.bytes_freed <= u64::MAX,
        ensures
            final(self).items_cleaned == old(self).items_cleaned + (result.items_cleaned as u32),
            final(self).bytes_freed == old(self).bytes_freed + result.bytes_freed,
            failure_views(final(self).failures@) == failure_views(old(self).failures@) + pair_views(result.items_failed@),
    {
        self.items_cleaned = self.items_cleaned + (result.items_cleaned as u32);
        self.bytes_freed = self.bytes_freed + result.bytes_freed;
        let ghost base = failure_views(self.failures@);
        let ghost fv = pair_views(result.items_failed@);
        let ghost counts = (self.items_cleaned, self.bytes_freed);
        let mut i: usize = 0;
        while i < result.items_failed.len()
            invariant
                i <= result.items_failed.len(),
                counts == (self.items_cleaned, self.bytes_freed),
                fv == pair_views(result.items_failed@),
                failure_views(self.failures@) == base + fv.take(i as int),
            decreases result.items_failed.len() - i,
        {
            let ghost before = failure_views(self.failures@);
            let (p, reason) = &result.items_failed[i];
            self.failures.push(FFICleanFailure { path: p.clone(), reason: reason.clone() });
            assert(fv.take(i + 1) =~= fv.take(i as int).push(fv[i as int]));
            assert(failure_views(self.failures@) =~= before.push(fv[i as int]));
            i = i + 1;
        }
        assert(fv.take(i as int) =~= fv);
    }

    /// Count the outcome of a move to the trash of `path`, which held `size`
    /// bytes: the error's text where the move failed.
    pub fn record_move(&mut self, path: String, size: u64, moved: Result<(), String>)
        requires
            moved is Ok ==> old(self).items_cleaned < u32::MAX && old(self).bytes_freed + size <= u64::MAX,
        ensures
            match moved {
                Ok(_) => final(self).items_cleaned == old(self).items_cleaned + 1
                    && final(self).bytes_freed == old(self).bytes_freed + size
                    && final(self).failures@ == old(self).failures@,
                Err(e) => final(self).items_cleaned == old(self).items_cleaned
                    && final(self).bytes_freed == old(self).bytes_freed
                    && failure_views(final(self).failures@) == failure_views(old(self).failures@).push((path@, e@)),
            },
    {
        match moved {
            Ok(_) => self.cleaned(size),
            Err(e) => self.failed(path, e),
        }
    }

    /// Count the outcome of a path cleaned on its own after `step`: `size`
    /// is what the path holds, `moved` the outcome of the move where the
    /// step was one.
    pub fn record_manual(&mut self, path: String, step: ManualStep, size: u64, moved: Result<(), String>)
        requires
            (step is Counted || (step is Move && moved is Ok)) ==> old(self).items_cleaned < u32::MAX
                && old(self).bytes_freed + size <= u64::MAX,
        ensures
            match step {
                ManualStep::Refused(m) => final(self).items_cleaned == old(self).items_cleaned
                    && final(self).bytes_freed == old(self).bytes_freed
                    && failure_views(final(self).failures@) == failure_views(old(self).failures@).push((path@, m@)),
                ManualStep::Missing => final(self).items_cleaned == old(self).items_cleaned
                    && final(self).bytes_freed == old(self).bytes_freed
                    && failure_views(final(self).failures@) == failure_views(old(self).failures@).push((path@, "Path not found"@)),
                ManualStep::Counted => final(self).items_cleaned == old(self).items_cleaned + 1
                    && final(self).bytes_freed == old(self).bytes_freed + size
                    && final(self).failures@ == old(self).failures@,
                ManualStep::Move => match moved {
                    Ok(_) => final(self).items_cleaned == old(self).items_cleaned + 1
                        && final(self).bytes_freed == old(self).bytes_freed + size
                        && final(self).failures@ == old(self).failures@,
                    Err(e) => final(self).items_cleaned == old(self).items_cleaned
                        && final(self).bytes_freed == old(self).bytes_freed
                        && failure_views(final(self).failures@) == failure_views(old(self).failures@).push((path@, e@)),
                },
            },
    {
        match step {
            ManualStep::Refused(m) => self.failed(path, m),
            ManualStep::Missing => self.failed(path, String::from_str("Path not found")),
            ManualStep::Counted => self.cleaned(size),
            ManualStep::Move => self.record_move(path, size, moved),
        }
    }

    /// The result of the request, of `category`, that took `duration_ms`.
    pub fn finish(self, category: &str, duration_ms: u64) -> (r: FFICleanResult)
        ensures
            r.category@ == category@,
            r.items_cleaned == self.items_cleaned,
            r.bytes_freed == self.bytes_freed,
            r.failures@ == self.failures@,
            r.clean_duration_ms == duration_ms,
    {
        FFICleanResult {
            category: String::from_str(category),
            items_cleaned: self.items_cleaned,
            bytes_freed: self.bytes_freed,
            failures: self.failures,
            clean_duration_ms: duration_ms,
        }
    }
}

/// The leftovers of the first of `apps` at `path` (the same path on `os`,
/// compared component by component), if any is.
pub open spec fn first_app_leftovers(os: Os, apps: Seq<InstalledApp>, path: Seq<char>) -> Option<Seq<Seq<char>>>
    decreases apps.len(),
{
    if apps.len() == 0 {
        None
    } else if same_path(os, apps[0].path@, path) {
        Some(sviews(apps[0].leftovers@))
    } else {
        first_app_leftovers(os, apps.drop_first(), path)
    }
}

/// What an uninstall moves to the trash, in order: the application where it
/// exists, then, where asked, the leftovers of the first scanned application
/// at `app_path` on `os`.
pub open spec fn uninstall_targets_spec(os: Os, app_path: Seq<char>, app_exists: bool, include_leftovers: bool, apps: Seq<InstalledApp>) -> Seq<Seq<char>> {
    let head: Seq<Seq<char>> = if app_exists { seq![app_path] } else { seq![] };
    match first_app_leftovers(os, apps, app_path) {
        Some(l) => if include_leftovers { head + l } else { head },
        None => head,
    }
}

/// The paths an uninstall of `app_path` moves to the trash.
pub fn uninstall_targets(os: Os, app_path: &str, app_exists: bool, include_leftovers: bool, apps: &Vec<InstalledApp>) -> (r: Vec<String>)
    ensures
        sviews(r@) == uninstall_targets_spec(os, app_path@, app_exists, include_leftovers, apps@),
{
    let mut r: Vec<String> = Vec::new();
    if app_exists {
        r.push(String::from_str(app_path));
    }
    let ghost head = sviews(r@);
    assert(head =~= (if app_exists { seq![app_path@] } else { Seq::<Seq<char>>::empty() }));
    if include_leftovers {
        let mut i: usize = 0;
        assert(apps@.skip(0) =~= apps@);
        while i < apps.len()
            invariant
                i <= apps.len(),
                include_leftovers,
                head == (if app_exists { seq![app_path@] } else { Seq::<Seq<char>>::empty() }),
                sviews(r@) == head,
                first_app_leftovers(os, apps@, app_path@) == first_app_leftovers(os, apps@.skip(i as int), app_path@),
            decreases apps.len() - i,
        {
            assert(apps@.skip(i as int).drop_first() =~= apps@.skip(i + 1));
            if same_path_exec(os, apps[i].path.as_str(), app_path) {
                assert(apps@.skip(i as int)[0] == apps@[i as int]);
                let mut extra = clone_strings(&apps[i].leftovers);
                let ghost ev = sviews(extra@);
                r.append(&mut extra);
                assert(sviews(r@) =~= head + ev);
                return r;
            }
            i = i + 1;
        }
        assert(apps@.skip(i as int).len() == 0);
    }
    r
}

/// Without the force flag, no item that needs it reaches a cleaner.
pub proof fn law_unforced_requests_spare_forced_items(index: Seq<(usize, ItemView)>, paths: Seq<Seq<char>>, c: usize, n: nat)
    requires
        n <= paths.len(),
    ensures
        forall|k: int| 0 <= k < routed_to(index, paths, false, c, n).len()
            ==> !(#[trigger] routed_to(index, paths, false, c, n)[k]).requires_force,
    decreases n,
{
    if n > 0 {
        law_unforced_requests_spare_forced_items(index, paths, c, (n - 1) as nat);
    }
}

/// With the force flag, no path is refused.
pub proof fn law_forced_requests_refuse_nothing(index: Seq<(usize, ItemView)>, paths: Seq<Seq<char>>, n: nat)
    requires
        n <= paths.len(),
    ensures
        refused_upto(index, paths, true, n).len() == 0,
    decreases n,
{
    if n > 0 {
        law_forced_requests_refuse_nothing(index, paths, (n - 1) as nat);
    }
}

/// How many of the first `n` paths go to some cleaner.
pub open spec fn routed_count(index: Seq<(usize, ItemView)>, paths: Seq<Seq<char>>, force: bool, n: nat) -> nat
    decreases n,
{
    if n == 0 {
        0
    } else {
        routed_count(index, paths, force, (n - 1) as nat) + if route_of(index, paths, n - 1, force) is ToCleaner {
            1nat
        } else {
            0nat
        }
    }
}

/// Every path of a request goes exactly one way: to a cleaner, refused, or
/// cleaned on its own.
pub proof fn law_every_path_routed_once(index: Seq<(usize, ItemView)>, paths: Seq<Seq<char>>, force: bool, n: nat)
    requires
        n <= paths.len(),
    ensures
        routed_count(index, paths, force, n) + refused_upto(index, paths, force, n).len()
            + manual_upto(index, paths, force, n).len() == n,
    decreases n,
{
    if n > 0 {
        law_every_path_routed_once(index, paths, force, (n - 1) as nat);
    }
}

} // verus!
