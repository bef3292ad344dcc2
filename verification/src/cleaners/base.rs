//! What the cleaners that move directories to the trash share: turning
//! scanned entries into items, and deciding, item by item, what cleaning
//! does.

use vstd::prelude::*;
use crate::cleaners::traits::{
    CleanableItem, CleanerContext, ItemType, ItemView, RiskLevel, ScanResult, item_views, items_size,
    sum_item_sizes,
};
use crate::error::{CleanmacError, message_spec};
use crate::path::{Os, file_name, file_name_of, path_starts_with, same_path, same_path_exec, starts_with_path};
use crate::safety::boundaries::SafeBoundary;
use crate::safety::validator::{PathProbe, ValidationResult, ValidationView, validate_spec};
use crate::scanner::walker::ScannedItem;
use crate::text::{concat2, concat3, debug_quote, debug_quoted, sviews};
use crate::trash::mover::{TrashMover, move_decision_ok, validated_outcome};

verus! {

/// Base cleaner that provides common scanning and cleaning logic.
#[derive(Debug, Clone)]
pub struct BaseCleaner {
    pub trash_mover: TrashMover,
}

/// The description of an item: its file name, or `unknown`.
pub open spec fn describe_spec(os: Os, path: Seq<char>) -> Seq<char> {
    match file_name(os, path) {
        Some(n) => n,
        None => "unknown"@,
    }
}

/// Describe an item by its path.
pub fn describe_item(os: Os, path: &str) -> (r: String)
    ensures
        r@ == describe_spec(os, path@),
{
    match file_name_of(os, path) {
        Some(n) => n,
        None => String::from_str("unknown"),
    }
}

/// The item for a scanned entry: a directory, a symlink or a file, low
/// risk, described by its name.
pub open spec fn scanned_item(os: Os, s: ScannedItem) -> ItemView {
    ItemView {
        path: s.path@,
        size: s.size,
        item_type: if s.is_dir { ItemType::Directory } else if s.is_symlink { ItemType::Symlink } else { ItemType::File },
        age_days: s.age_days,
        description: describe_spec(os, s.path@),
        requires_force: false,
        risk_level: RiskLevel::Low,
    }
}

/// An entry is kept unless recent entries are kept and it is younger than
/// that (an entry of unknown age is kept).
pub open spec fn old_enough(keep_recent_days: u32, age_days: Option<u32>) -> bool {
    !(keep_recent_days > 0 && (age_days matches Some(a) && a < keep_recent_days))
}

/// What scanning one root gave: the entries found, or the text of the
/// failure.
#[derive(Debug)]
pub struct RootScan {
    pub root: String,
    pub outcome: Result<Vec<ScannedItem>, String>,
}

pub open spec fn root_items(os: Os, keep: u32, ss: Seq<ScannedItem>) -> Seq<ItemView>
    decreases ss.len(),
{
    if ss.len() == 0 {
        seq![]
    } else {
        let d = root_items(os, keep, ss.drop_last());
        if old_enough(keep, ss.last().age_days) { d.push(scanned_item(os, ss.last())) } else { d }
    }
}

/// The items of the scans, root after root.
pub open spec fn scans_items(os: Os, keep: u32, scans: Seq<RootScan>) -> Seq<ItemView>
    decreases scans.len(),
{
    if scans.len() == 0 {
        seq![]
    } else {
        scans_items(os, keep, scans.drop_last()) + match scans.last().outcome {
            Ok(ss) => root_items(os, keep, ss@),
            Err(_) => seq![],
        }
    }
}

/// The errors of the scans, root after root.
pub open spec fn scans_errors(scans: Seq<RootScan>) -> Seq<Seq<char>>
    decreases scans.len(),
{
    if scans.len() == 0 {
        seq![]
    } else {
        let d = scans_errors(scans.drop_last());
        match scans.last().outcome {
            Ok(_) => d,
            Err(e) => d.push("Error scanning "@ + scans.last().root@ + ": "@ + e@),
        }
    }
}

/// What cleaning decides for an item.
#[derive(Debug, Clone)]
pub enum CleanDecision {
    /// The item is refused before any attempt, with the reason.
    Refuse(String),
    /// The item fails, with the reason.
    Fail(String),
    /// The item counts as cleaned (a dry run).
    Count,
    /// The item is left alone silently.
    Skip,
    /// Move this canonical path to the trash.
    Trash(String),
}

/// The text of a validation result as `{:?}` writes it.
pub open spec fn validation_debug(v: ValidationView) -> Seq<char> {
    match v {
        ValidationView::Safe => "Safe"@,
        ValidationView::HardProtected(r) => "HardProtected { reason: "@ + debug_quoted(r) + " }"@,
        ValidationView::UserExcluded => "UserExcluded"@,
        ValidationView::BoundaryViolation(r) => "BoundaryViolation { reason: "@ + debug_quoted(r) + " }"@,
        ValidationView::NotFound => "NotFound"@,
        ValidationView::PermissionDenied => "PermissionDenied"@,
    }
}

fn validation_debug_exec(v: &ValidationResult) -> (r: String)
    ensures
        r@ == validation_debug(v@),
{
    match v {
        ValidationResult::Safe => String::from_str("Safe"),
        ValidationResult::HardProtected { reason } => {
            let q = debug_quote(reason.as_str());
            concat3("HardProtected { reason: ", q.as_str(), " }")
        },
        ValidationResult::UserExcluded => String::from_str("UserExcluded"),
        ValidationResult::BoundaryViolation { reason } => {
            let q = debug_quote(reason.as_str());
            concat3("BoundaryViolation { reason: ", q.as_str(), " }")
        },
        ValidationResult::NotFound => String::from_str("NotFound"),
        ValidationResult::PermissionDenied => String::from_str("PermissionDenied"),
    }
}

impl BaseCleaner {
    pub fn new(trash_mover: TrashMover) -> (r: BaseCleaner)
        ensures
            r.trash_mover == trash_mover,
    {
        BaseCleaner { trash_mover }
    }

    /// The scan result of a cleaner from the scans of its roots: the
    /// entries old enough become low-risk items, root after root; a root
    /// whose scan failed adds an error instead.
    pub fn scan_dirs(&self, os: Os, cleaner_id: &str, scans: &Vec<RootScan>, ctx: &CleanerContext, duration_ms: u64) -> (r: ScanResult)
        requires
            items_size(scans_items(os, ctx.keep_recent_days, scans@)) <= u64::MAX,
        ensures
            r.category@ == cleaner_id@,
            item_views(r.items@) == scans_items(os, ctx.keep_recent_days, scans@),
            r.total_size == items_size(scans_items(os, ctx.keep_recent_days, scans@)),
            r.scan_duration_ms == duration_ms,
            sviews(r.errors@) == scans_errors(scans@),
    {
        let keep = ctx.keep_recent_days;
        let mut items: Vec<CleanableItem> = Vec::new();
        let mut errors: Vec<String> = Vec::new();
        let mut i: usize = 0;
        while i < scans.len()
            invariant
                i <= scans@.len(),
                keep == ctx.keep_recent_days,
                item_views(items@) == scans_items(os, keep, scans@.take(i as int)),
                sviews(errors@) == scans_errors(scans@.take(i as int)),
            decreases scans@.len() - i,
        {
            proof {
                assert(scans@.take(i + 1).drop_last() =~= scans@.take(i as int));
            }
            let ghost before = item_views(items@);
            match &scans[i].outcome {
                Ok(ss) => {
                    let mut j: usize = 0;
                    while j < ss.len()
                        invariant
                            j <= ss@.len(),
                            item_views(items@) == before + root_items(os, keep, ss@.take(j as int)),
                        decreases ss@.len() - j,
                    {
                        proof {
                            assert(ss@.take(j + 1).drop_last() =~= ss@.take(j as int));
                        }
                        let s = &ss[j];
                        let keep_it = !(keep > 0 && match s.age_days {
                            Some(a) => a < keep,
                            None => false,
                        });
                        if keep_it {
                            let ghost old = item_views(items@);
                            let it = CleanableItem {
                                path: s.path.clone(),
                                size: s.size,
                                item_type: if s.is_dir {
                                    ItemType::Directory
                                } else if s.is_symlink {
                                    ItemType::Symlink
                                } else {
                                    ItemType::File
                                },
                                age_days: s.age_days,
                                description: describe_item(os, s.path.as_str()),
                                requires_force: false,
                                risk_level: RiskLevel::Low,
                            };
                            let ghost iv = it@;
                            items.push(it);
                            proof {
                                assert(item_views(items@) =~= old.push(iv));
                                assert(root_items(os, keep, ss@.take(j + 1)) == root_items(os, keep, ss@.take(j as int)).push(iv));
                            }
                        }
                        j = j + 1;
                    }
                    proof {
                        assert(ss@.take(ss@.len() as int) =~= ss@);
                    }
                },
                Err(e) => {
                    let ghost old = sviews(errors@);
                    let mut m = concat3("Error scanning ", scans[i].root.as_str(), ": ");
                    m.append(e.as_str());
                    errors.push(m);
                    proof {
                        assert(sviews(errors@) =~= old.push("Error scanning "@ + scans@[i as int].root@ + ": "@ + e@));
                    }
                    assert(item_views(items@) =~= before + Seq::<ItemView>::empty());
                },
            }
            i = i + 1;
        }
        proof {
            assert(scans@.take(scans@.len() as int) =~= scans@);
        }
        let total = sum_item_sizes(&items);
        ScanResult {
            category: String::from_str(cleaner_id),
            items,
            total_size: total,
            scan_duration_ms: duration_ms,
            errors,
        }
    }

    /// What cleaning decides for `item`. An item needing the force flag
    /// without it is refused. In a dry run the item is validated: a safe item
    /// counts, an excluded one is skipped, any other fails as `Would fail`.
    /// Otherwise the trash mover decides, after validation, whether the item
    /// goes to the trash: exactly when it is safe and may be moved; else it
    /// fails with the mover's error.
    pub fn clean_decision(&self, item: &CleanableItem, boundary: &SafeBoundary, probe: &PathProbe, ctx: &CleanerContext) -> (r: CleanDecision)
        requires
            probe.root_canonicals.len() == boundary.roots.len(),
        ensures
            item.requires_force && !ctx.force ==> (r matches CleanDecision::Refuse(m) && m@ == "Requires --force flag"@),
            !(item.requires_force && !ctx.force) && ctx.dry_run ==> match validate_spec(
                self.trash_mover.validator,
                item.path@,
                *boundary,
                *probe,
            ) {
                ValidationView::Safe => r is Count,
                ValidationView::UserExcluded => r is Skip,
                v => r matches CleanDecision::Fail(m) && m@ == "Would fail: "@ + validation_debug(v),
            },
            !(item.requires_force && !ctx.force) && !ctx.dry_run ==> if validate_spec(
                self.trash_mover.validator,
                item.path@,
                *boundary,
                *probe,
            ) is Safe && probe.canonical is Some && move_decision_ok(
                self.trash_mover.validator.env,
                item.path@,
                Ok(probe.canonical->0),
            ) {
                r matches CleanDecision::Trash(c) && c@ == probe.canonical->0@
            } else {
                r is Fail
            },
            !(item.requires_force && !ctx.force) && !ctx.dry_run ==> match r {
                CleanDecision::Trash(c) => validated_outcome(self.trash_mover.validator, item.path@, *boundary, *probe, Ok(c)),
                CleanDecision::Fail(m) => exists|e: CleanmacError|
                    #[trigger] validated_outcome(self.trash_mover.validator, item.path@, *boundary, *probe, Err(e))
                        && m@ == message_spec(e),
                _ => false,
            },
    {
        if item.requires_force && !ctx.force {
            return CleanDecision::Refuse(String::from_str("Requires --force flag"));
        }
        if ctx.dry_run {
            let v = self.trash_mover.validator().validate(item.path.as_str(), boundary, probe);
            match v {
                ValidationResult::Safe => CleanDecision::Count,
                ValidationResult::UserExcluded => CleanDecision::Skip,
                _ => {
                    let d = validation_debug_exec(&v);
                    CleanDecision::Fail(concat2("Would fail: ", d.as_str()))
                },
            }
        } else {
            match self.trash_mover.move_to_trash_validated(item.path.as_str(), boundary, probe) {
                Ok(c) => CleanDecision::Trash(c),
                Err(e) => {
                    let m = e.message();
                    proof {
                        assert(validated_outcome(self.trash_mover.validator, item.path@, *boundary, *probe, Err(e)));
                    }
                    CleanDecision::Fail(m)
                },
            }
        }
    }
}

/// The item lies under, or is, one of the excluded paths.
pub open spec fn is_excluded(os: Os, path: Seq<char>, exclude: Seq<Seq<char>>) -> bool {
    exists|i: int| 0 <= i < exclude.len() && (path_starts_with(os, path, #[trigger] exclude[i]) || same_path(os, path, exclude[i]))
}

pub open spec fn not_excluded(os: Os, items: Seq<ItemView>, exclude: Seq<Seq<char>>) -> Seq<ItemView>
    decreases items.len(),
{
    if items.len() == 0 {
        seq![]
    } else {
        let d = not_excluded(os, items.drop_last(), exclude);
        if is_excluded(os, items.last().path, exclude) { d } else { d.push(items.last()) }
    }
}

fn excluded_exec(os: Os, path: &str, exclude: &Vec<String>) -> (r: bool)
    ensures
        r == is_excluded(os, path@, sviews(exclude@)),
{
    let mut i: usize = 0;
    while i < exclude.len()
        invariant
            i <= exclude@.len(),
            forall|j: int| 0 <= j < i ==> !(path_starts_with(os, path@, #[trigger] sviews(exclude@)[j]) || same_path(os, path@, sviews(exclude@)[j])),
        decreases exclude@.len() - i,
    {
        if starts_with_path(os, path, exclude[i].as_str()) || same_path_exec(os, path, exclude[i].as_str()) {
            assert(sviews(exclude@)[i as int] == exclude@[i as int]@);
            return true;
        }
        assert(sviews(exclude@)[i as int] == exclude@[i as int]@);
        i = i + 1;
    }
    false
}

/// The scan result without the items under the excluded paths, its total
/// size counted anew.
pub fn without_excluded(os: Os, result: ScanResult, exclude: &Vec<String>) -> (r: ScanResult)
    requires
        items_size(item_views(result.items@)) <= u64::MAX,
    ensures
        r.category == result.category,
        item_views(r.items@) == not_excluded(os, item_views(result.items@), sviews(exclude@)),
        r.total_size == items_size(not_excluded(os, item_views(result.items@), sviews(exclude@))),
        r.scan_duration_ms == result.scan_duration_ms,
        r.errors == result.errors,
{
    let mut kept: Vec<CleanableItem> = Vec::new();
    let mut i: usize = 0;
    while i < result.items.len()
        invariant
            i <= result.items@.len(),
            item_views(kept@) == not_excluded(os, item_views(result.items@.take(i as int)), sviews(exclude@)),
        decreases result.items@.len() - i,
    {
        proof {
            assert(item_views(result.items@.take(i + 1)).drop_last() =~= item_views(result.items@.take(i as int)));
        }
        let it = &result.items[i];
        if !excluded_exec(os, it.path.as_str(), exclude) {
            let ghost old = item_views(kept@);
            let c = CleanableItem {
                path: it.path.clone(),
                size: it.size,
                item_type: it.item_type,
                age_days: it.age_days,
                description: it.description.clone(),
                requires_force: it.requires_force,
                risk_level: it.risk_level,
            };
            kept.push(c);
            proof {
                assert(item_views(kept@) =~= old.push(it@));
            }
        }
        i = i + 1;
    }
    proof {
        assert(result.items@.take(result.items@.len() as int) =~= result.items@);
        lemma_not_excluded_size(os, item_views(result.items@), sviews(exclude@));
    }
    let total = sum_item_sizes(&kept);
    ScanResult {
        category: result.category,
        items: kept,
        total_size: total,
        scan_duration_ms: result.scan_duration_ms,
        errors: result.errors,
    }
}

proof fn lemma_not_excluded_size(os: Os, items: Seq<ItemView>, exclude: Seq<Seq<char>>)
    ensures
        items_size(not_excluded(os, items, exclude)) <= items_size(items),
    decreases items.len(),
{
    if items.len() > 0 {
        lemma_not_excluded_size(os, items.drop_last(), exclude);
        let d = not_excluded(os, items.drop_last(), exclude);
        if !is_excluded(os, items.last().path, exclude) {
            assert(d.push(items.last()).drop_last() =~= d);
        }
    }
}


proof fn lemma_root_items_ages(os: Os, k: u32, ss: Seq<ScannedItem>)
    ensures
        forall|i: int| 0 <= i < root_items(os, k, ss).len() ==> {
            let a = (#[trigger] root_items(os, k, ss)[i]).age_days;
            k == 0 || a is None || a->0 >= k
        },
    decreases ss.len(),
{
    if ss.len() > 0 {
        lemma_root_items_ages(os, k, ss.drop_last());
    }
}

proof fn lemma_root_items_keep(os: Os, k: u32, ss: Seq<ScannedItem>, m: int)
    requires
        0 <= m < ss.len(),
        k == 0 || ss[m].age_days is None || ss[m].age_days->0 >= k,
    ensures
        root_items(os, k, ss).contains(scanned_item(os, ss[m])),
    decreases ss.len(),
{
    let d = root_items(os, k, ss.drop_last());
    if m == ss.len() - 1 {
        assert(root_items(os, k, ss) == d.push(scanned_item(os, ss[m])));
        assert(root_items(os, k, ss)[d.len() as int] == scanned_item(os, ss[m]));
    } else {
        assert(ss.drop_last()[m] == ss[m]);
        lemma_root_items_keep(os, k, ss.drop_last(), m);
        let i = choose|i: int| 0 <= i < d.len() && d[i] == scanned_item(os, ss[m]);
        assert(root_items(os, k, ss)[i] == d[i]);
    }
}

proof fn lemma_scans_items_ages(os: Os, k: u32, scans: Seq<RootScan>)
    ensures
        forall|i: int| 0 <= i < scans_items(os, k, scans).len() ==> {
            let a = (#[trigger] scans_items(os, k, scans)[i]).age_days;
            k == 0 || a is None || a->0 >= k
        },
    decreases scans.len(),
{
    if scans.len() > 0 {
        lemma_scans_items_ages(os, k, scans.drop_last());
        let d = scans_items(os, k, scans.drop_last());
        let e: Seq<ItemView> = match scans.last().outcome {
            Ok(ss) => root_items(os, k, ss@),
            Err(_) => seq![],
        };
        match scans.last().outcome {
            Ok(ss) => lemma_root_items_ages(os, k, ss@),
            Err(_) => {},
        }
        assert forall|i: int| 0 <= i < scans_items(os, k, scans).len() implies {
            let a = (#[trigger] scans_items(os, k, scans)[i]).age_days;
            k == 0 || a is None || a->0 >= k
        } by {
            if i < d.len() {
                assert(scans_items(os, k, scans)[i] == d[i]);
            } else {
                assert(scans_items(os, k, scans)[i] == e[i - d.len()]);
            }
        }
    }
}

proof fn lemma_scans_items_keep(os: Os, k: u32, scans: Seq<RootScan>, j: int, m: int)
    requires
        0 <= j < scans.len(),
        scans[j].outcome is Ok,
        0 <= m < scans[j].outcome->Ok_0@.len(),
        ({
            let a = scans[j].outcome->Ok_0@[m].age_days;
            k == 0 || a is None || a->0 >= k
        }),
    ensures
        scans_items(os, k, scans).contains(scanned_item(os, scans[j].outcome->Ok_0@[m])),
    decreases scans.len(),
{
    let d = scans_items(os, k, scans.drop_last());
    let e: Seq<ItemView> = match scans.last().outcome {
        Ok(ss) => root_items(os, k, ss@),
        Err(_) => seq![],
    };
    let it = scanned_item(os, scans[j].outcome->Ok_0@[m]);
    assert(scans_items(os, k, scans) == d + e);
    if j == scans.len() - 1 {
        lemma_root_items_keep(os, k, scans[j].outcome->Ok_0@, m);
        let i = choose|i: int| 0 <= i < e.len() && e[i] == it;
        assert((d + e)[d.len() + i] == it);
    } else {
        assert(scans.drop_last()[j] == scans[j]);
        lemma_scans_items_keep(os, k, scans.drop_last(), j, m);
        let i = choose|i: int| 0 <= i < d.len() && d[i] == it;
        assert((d + e)[i] == it);
    }
}

/// Recent entries are left out of a scan and old ones kept: with
/// `keep_recent_days` k, every entry a root's scan found whose age is
/// unknown, or at least k days (or when k is 0), becomes an item of the
/// result; and no item of the result is younger than k days.
pub proof fn law_scan_keeps_old_and_drops_recent(os: Os, scans: Seq<RootScan>, ctx: CleanerContext, j: int, m: int)
    requires
        0 <= j < scans.len(),
        scans[j].outcome is Ok,
        0 <= m < scans[j].outcome->Ok_0@.len(),
    ensures
        ({
            let a = scans[j].outcome->Ok_0@[m].age_days;
            (ctx.keep_recent_days == 0 || a is None || a->0 >= ctx.keep_recent_days) ==> scans_items(
                os,
                ctx.keep_recent_days,
                scans,
            ).contains(scanned_item(os, scans[j].outcome->Ok_0@[m]))
        }),
        forall|i: int| 0 <= i < scans_items(os, ctx.keep_recent_days, scans).len() ==> {
            let a = (#[trigger] scans_items(os, ctx.keep_recent_days, scans)[i]).age_days;
            ctx.keep_recent_days == 0 || a is None || a->0 >= ctx.keep_recent_days
        },
{
    let k = ctx.keep_recent_days;
    let a = scans[j].outcome->Ok_0@[m].age_days;
    if k == 0 || a is None || a->0 >= k {
        lemma_scans_items_keep(os, k, scans, j, m);
    }
    lemma_scans_items_ages(os, k, scans);
}


proof fn lemma_not_excluded_clear(os: Os, items: Seq<ItemView>, exclude: Seq<Seq<char>>)
    ensures
        forall|i: int, e: int| 0 <= i < not_excluded(os, items, exclude).len() && 0 <= e < exclude.len() ==> !(
            path_starts_with(os, (#[trigger] not_excluded(os, items, exclude)[i]).path, #[trigger] exclude[e])
            || same_path(os, not_excluded(os, items, exclude)[i].path, exclude[e])),
    decreases items.len(),
{
    if items.len() > 0 {
        lemma_not_excluded_clear(os, items.drop_last(), exclude);
    }
}

proof fn lemma_not_excluded_keep(os: Os, items: Seq<ItemView>, exclude: Seq<Seq<char>>, m: int)
    requires
        0 <= m < items.len(),
        forall|e: int| 0 <= e < exclude.len() ==> !(path_starts_with(os, items[m].path, #[trigger] exclude[e])
            || same_path(os, items[m].path, exclude[e])),
    ensures
        not_excluded(os, items, exclude).contains(items[m]),
    decreases items.len(),
{
    let d = not_excluded(os, items.drop_last(), exclude);
    if m == items.len() - 1 {
        assert(!is_excluded(os, items[m].path, exclude));
        assert(not_excluded(os, items, exclude)[d.len() as int] == items[m]);
    } else {
        assert(items.drop_last()[m] == items[m]);
        lemma_not_excluded_keep(os, items.drop_last(), exclude, m);
        let i = choose|i: int| 0 <= i < d.len() && d[i] == items[m];
        assert(not_excluded(os, items, exclude)[i] == items[m]);
    }
}

/// Excluded paths are dropped and nothing else: no item left lies under, or
/// is, an excluded path, and every item that lies under none of them is
/// kept.
pub proof fn law_exclusions_drop_exactly_the_excluded(os: Os, items: Seq<ItemView>, exclude: Seq<Seq<char>>, m: int)
    ensures
        forall|i: int, e: int| 0 <= i < not_excluded(os, items, exclude).len() && 0 <= e < exclude.len() ==> !(
            path_starts_with(os, (#[trigger] not_excluded(os, items, exclude)[i]).path, #[trigger] exclude[e])
            || same_path(os, not_excluded(os, items, exclude)[i].path, exclude[e])),
        (0 <= m < items.len() && forall|e: int| 0 <= e < exclude.len() ==> !(path_starts_with(
            os,
            items[m].path,
            #[trigger] exclude[e],
        ) || same_path(os, items[m].path, exclude[e]))) ==> not_excluded(os, items, exclude).contains(items[m]),
{
    lemma_not_excluded_clear(os, items, exclude);
    if 0 <= m < items.len() && forall|e: int| 0 <= e < exclude.len() ==> !(path_starts_with(
        os,
        items[m].path,
        #[trigger] exclude[e],
    ) || same_path(os, items[m].path, exclude[e])) {
        lemma_not_excluded_keep(os, items, exclude, m);
    }
}


proof fn lemma_root_items_plain(os: Os, k: u32, ss: Seq<ScannedItem>)
    ensures
        forall|i: int| 0 <= i < root_items(os, k, ss).len() ==> {
            &&& (#[trigger] root_items(os, k, ss)[i]).risk_level == RiskLevel::Low
            &&& !root_items(os, k, ss)[i].requires_force
            &&& exists|m: int| 0 <= m < ss.len() && root_items(os, k, ss)[i].path == (#[trigger] ss[m]).path@
                && root_items(os, k, ss)[i].size == ss[m].size
        },
    decreases ss.len(),
{
    if ss.len() > 0 {
        let d = ss.drop_last();
        lemma_root_items_plain(os, k, d);
        assert forall|i: int| 0 <= i < root_items(os, k, ss).len() implies {
            &&& (#[trigger] root_items(os, k, ss)[i]).risk_level == RiskLevel::Low
            &&& !root_items(os, k, ss)[i].requires_force
            &&& exists|m: int| 0 <= m < ss.len() && root_items(os, k, ss)[i].path == (#[trigger] ss[m]).path@
                && root_items(os, k, ss)[i].size == ss[m].size
        } by {
            if i < root_items(os, k, d).len() {
                assert(root_items(os, k, ss)[i] == root_items(os, k, d)[i]);
                let m = choose|m: int| 0 <= m < d.len() && root_items(os, k, d)[i].path == (#[trigger] d[m]).path@
                    && root_items(os, k, d)[i].size == d[m].size;
                assert(d[m] == ss[m]);
            } else {
                assert(root_items(os, k, ss)[i] == scanned_item(os, ss[ss.len() - 1]));
            }
        }
    }
}

proof fn lemma_scans_errors_hold(scans: Seq<RootScan>, j: int)
    requires
        0 <= j < scans.len(),
        scans[j].outcome is Err,
    ensures
        scans_errors(scans).contains("Error scanning "@ + scans[j].root@ + ": "@ + scans[j].outcome->Err_0@),
    decreases scans.len(),
{
    let d = scans_errors(scans.drop_last());
    let msg = "Error scanning "@ + scans[j].root@ + ": "@ + scans[j].outcome->Err_0@;
    if j == scans.len() - 1 {
        assert(scans_errors(scans)[d.len() as int] == msg);
    } else {
        assert(scans.drop_last()[j] == scans[j]);
        lemma_scans_errors_hold(scans.drop_last(), j);
        let i = choose|i: int| 0 <= i < d.len() && d[i] == msg;
        match scans.last().outcome {
            Ok(_) => assert(scans_errors(scans)[i] == msg),
            Err(_) => assert(scans_errors(scans)[i] == msg),
        }
    }
}

/// The items of a scan are the low-risk entries of its roots, none needing
/// the force flag, each with the path and size of an entry a root's scan
/// found; and a root whose scan failed is reported as `Error scanning
/// <root>: <error>`.
pub proof fn law_scan_items_and_errors(os: Os, scans: Seq<RootScan>, k: u32, j: int)
    ensures
        forall|i: int| 0 <= i < scans_items(os, k, scans).len() ==> {
            &&& (#[trigger] scans_items(os, k, scans)[i]).risk_level == RiskLevel::Low
            &&& !scans_items(os, k, scans)[i].requires_force
            &&& exists|q: int, m: int| 0 <= q < scans.len() && scans[q].outcome is Ok && 0 <= m < scans[q].outcome->Ok_0@.len()
                && scans_items(os, k, scans)[i].path == (#[trigger] scans[q].outcome->Ok_0@[m]).path@
                && scans_items(os, k, scans)[i].size == scans[q].outcome->Ok_0@[m].size
        },
        (0 <= j < scans.len() && scans[j].outcome is Err) ==> scans_errors(scans).contains(
            "Error scanning "@ + scans[j].root@ + ": "@ + scans[j].outcome->Err_0@,
        ),
    decreases scans.len(),
{
    if 0 <= j < scans.len() && scans[j].outcome is Err {
        lemma_scans_errors_hold(scans, j);
    }
    if scans.len() > 0 {
        let w = scans.drop_last();
        law_scan_items_and_errors(os, w, k, -1);
        let d = scans_items(os, k, w);
        let e: Seq<ItemView> = match scans.last().outcome {
            Ok(ss) => root_items(os, k, ss@),
            Err(_) => seq![],
        };
        assert(scans_items(os, k, scans) == d + e);
        match scans.last().outcome {
            Ok(ss) => lemma_root_items_plain(os, k, ss@),
            Err(_) => {},
        }
        assert forall|i: int| 0 <= i < scans_items(os, k, scans).len() implies {
            &&& (#[trigger] scans_items(os, k, scans)[i]).risk_level == RiskLevel::Low
            &&& !scans_items(os, k, scans)[i].requires_force
            &&& exists|q: int, m: int| 0 <= q < scans.len() && scans[q].outcome is Ok && 0 <= m < scans[q].outcome->Ok_0@.len()
                && scans_items(os, k, scans)[i].path == (#[trigger] scans[q].outcome->Ok_0@[m]).path@
                && scans_items(os, k, scans)[i].size == scans[q].outcome->Ok_0@[m].size
        } by {
            if i < d.len() {
                assert(scans_items(os, k, scans)[i] == d[i]);
                let (q, m) = choose|q: int, m: int| 0 <= q < w.len() && w[q].outcome is Ok && 0 <= m < w[q].outcome->Ok_0@.len()
                    && d[i].path == (#[trigger] w[q].outcome->Ok_0@[m]).path@ && d[i].size == w[q].outcome->Ok_0@[m].size;
                assert(w[q] == scans[q]);
            } else {
                assert(scans_items(os, k, scans)[i] == e[i - d.len()]);
                let ss = scans.last().outcome->Ok_0@;
                let m = choose|m: int| 0 <= m < ss.len() && e[i - d.len()].path == (#[trigger] ss[m]).path@
                    && e[i - d.len()].size == ss[m].size;
                let q = scans.len() - 1;
                assert(scans[q].outcome->Ok_0@[m] == ss[m]);
            }
        }
    }
}

} // verus!
