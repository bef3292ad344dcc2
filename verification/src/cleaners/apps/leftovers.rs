//! Leftovers of uninstalled applications: what counts as one, what a scan
//! lists, and where a leftover goes when cleaned.

use vstd::prelude::*;
use crate::cleaners::traits::{
    CleanableItem, CleanerCategory, CleanerContext, Cleaner, ItemType, ItemView, RiskLevel, ScanResult, item_views,
    items_size, sum_item_sizes,
};
use crate::config::schema::AppsConfig;
use crate::path::{Os, file_name, file_name_of, join, join_path, oview};
use crate::safety::boundaries::SafeBoundary;
use crate::scanner::apps::bundle_id_from_plist;
use crate::scanner::walker::ScannedItem;
use crate::text::{concat2, concat3, str_ends_with, str_eq, sviews, lviews, clone_strings, chars_of, string_of_range};

verus! {

/// Cleaner for leftover files of uninstalled applications.
#[derive(Debug, Clone)]
pub struct AppsLeftoversCleaner {
    pub os: Os,
    /// Bundle identifiers and names of apps known to be uninstalled.
    pub known_apps: Vec<String>,
    /// Where leftovers are looked for.
    pub search_paths: Vec<String>,
    /// The home directory (`/tmp` when unknown).
    pub home_dir: String,
}

pub open spec fn search_dir_names() -> Seq<&'static str> {
    seq![
        "Library/Application Support", "Library/Preferences", "Library/Caches", "Library/Logs",
        "Library/Containers", "Library/Group Containers", "Library/Saved Application State",
    ]
}

/// `s` without every trailing `.app`.
pub open spec fn trim_app_suffix(s: Seq<char>) -> Seq<char>
    decreases s.len(),
{
    if ".app"@.is_suffix_of(s) && s.len() >= 4 { trim_app_suffix(s.take(s.len() - 4)) } else { s }
}

fn trim_app_suffix_exec(s: &str) -> (r: String)
    ensures
        r@ == trim_app_suffix(s@),
{
    proof {
        reveal_strlit(".app");
    }
    let v = chars_of(s);
    let mut n = v.len();
    assert(v@.take(n as int) =~= s@);
    while n >= 4 && v[n - 4] == '.' && v[n - 3] == 'a' && v[n - 2] == 'p' && v[n - 1] == 'p'
        invariant
            n <= v@.len(),
            v@ == s@,
            trim_app_suffix(s@) == trim_app_suffix(v@.take(n as int)),
        decreases n,
    {
        proof {
            reveal_strlit(".app");
            let t = v@.take(n as int);
            assert(t.subrange(t.len() - 4, t.len() as int) =~= ".app"@);
            assert(t.take(t.len() - 4) =~= v@.take(n - 4));
        }
        n = n - 4;
    }
    proof {
        reveal_strlit(".app");
        let t = v@.take(n as int);
        if ".app"@.is_suffix_of(t) && t.len() >= 4 {
            let sfx = t.subrange(t.len() - 4, t.len() as int);
            assert(sfx == ".app"@);
            assert(sfx[0] == t[t.len() - 4] && sfx[1] == t[t.len() - 3] && sfx[2] == t[t.len() - 2] && sfx[3] == t[t.len() - 1]);
            assert(t[t.len() - 4] == v@[n - 4]);
            assert(false);
        }
    }
    let r = string_of_range(&v, 0, n);
    assert(v@.subrange(0, n as int) =~= v@.take(n as int));
    r
}

/// The names an installed bundle stands for: its bundle identifier (when
/// its `Info.plist` holds one) and its name without `.app`.
pub open spec fn bundle_names(name: Seq<char>, plist: Option<Seq<char>>) -> Seq<Seq<char>> {
    let id = match plist {
        Some(c) => crate::scanner::apps::bundle_id_spec(c),
        None => None,
    };
    match id {
        Some(b) => seq![b, trim_app_suffix(name)],
        None => seq![trim_app_suffix(name)],
    }
}

pub open spec fn installed_acc(entries: Seq<(Seq<char>, Option<Seq<char>>)>) -> Seq<Seq<char>>
    decreases entries.len(),
{
    if entries.len() == 0 {
        seq![]
    } else {
        let d = installed_acc(entries.drop_last());
        let (n, p) = entries.last();
        if ".app"@.is_suffix_of(n) { d + bundle_names(n, p) } else { d }
    }
}

pub open spec fn entry_views(es: Seq<(String, Option<String>)>) -> Seq<(Seq<char>, Option<Seq<char>>)> {
    es.map_values(|e: (String, Option<String>)| (e.0@, oview(e.1)))
}

/// The names of the installed apps from the entries of the application
/// directories: each entry's name and the content of its `Info.plist`
/// (`None` when it could not be read). Entries not ending in `.app` are
/// left out.
pub fn installed_app_names(entries: &Vec<(String, Option<String>)>) -> (r: Vec<String>)
    ensures
        sviews(r@) == installed_acc(entry_views(entries@)),
{
    let mut r: Vec<String> = Vec::new();
    let mut i: usize = 0;
    while i < entries.len()
        invariant
            i <= entries@.len(),
            sviews(r@) == installed_acc(entry_views(entries@.take(i as int))),
        decreases entries@.len() - i,
    {
        proof {
            assert(entry_views(entries@.take(i + 1)).drop_last() =~= entry_views(entries@.take(i as int)));
        }
        let (name, plist) = &entries[i];
        if str_ends_with(name.as_str(), ".app") {
            let ghost old = sviews(r@);
            let id = match plist {
                Some(c) => bundle_id_from_plist(c.as_str()),
                None => None,
            };
            match id {
                Some(b) => {
                    r.push(b);
                },
                None => {},
            }
            r.push(trim_app_suffix_exec(name.as_str()));
            proof {
                assert(sviews(r@) =~= old + bundle_names(name@, oview(*plist)));
            }
        }
        i = i + 1;
    }
    assert(entries@.take(entries@.len() as int) =~= entries@);
    r
}

/// The item for a leftover found by the scan.
pub open spec fn leftover_item(os: Os, s: ScannedItem) -> ItemView {
    let name = match file_name(os, s.path@) {
        Some(n) => n,
        None => seq![],
    };
    ItemView {
        path: s.path@,
        size: s.size,
        item_type: ItemType::Directory,
        age_days: s.age_days,
        description: "Leftover: "@ + name,
        requires_force: true,
        risk_level: RiskLevel::High,
    }
}

pub open spec fn leftover_items(os: Os, known: Seq<Seq<char>>, ss: Seq<ScannedItem>) -> Seq<ItemView>
    decreases ss.len(),
{
    if ss.len() == 0 {
        seq![]
    } else {
        let d = leftover_items(os, known, ss.drop_last());
        let name = match file_name(os, ss.last().path@) {
            Some(n) => n,
            None => seq![],
        };
        if known.contains(name) { d.push(leftover_item(os, ss.last())) } else { d }
    }
}

/// What cleaning decides for a leftover.
#[derive(Debug, Clone)]
pub enum LeftoverStep {
    /// The item fails, with the reason.
    Fail(String),
    /// The item counts as cleaned (a dry run).
    Count,
    /// Move the item to this path in the trash.
    MoveTo(String),
}

impl AppsLeftoversCleaner {
    /// A cleaner for the apps the configuration knows as uninstalled, in the
    /// home directory (`/tmp` when unknown).
    pub fn new(os: Os, home: &Option<String>, config: &AppsConfig) -> (r: AppsLeftoversCleaner)
        ensures
            r.os == os,
            r.home_dir@ == match home {
                Some(h) => h@,
                None => "/tmp"@,
            },
            r.known_apps@ == config.known_apps@,
            sviews(r.search_paths@) == lviews(search_dir_names()).map_values(|n: Seq<char>| join(os, r.home_dir@, n)),
    {
        let home_dir = match home {
            Some(h) => h.clone(),
            None => String::from_str("/tmp"),
        };
        let names: Vec<&str> = vec![
            "Library/Application Support", "Library/Preferences", "Library/Caches", "Library/Logs",
            "Library/Containers", "Library/Group Containers", "Library/Saved Application State",
        ];
        assert(names@ == search_dir_names());
        let mut search_paths: Vec<String> = Vec::new();
        let mut i: usize = 0;
        while i < names.len()
            invariant
                i <= names@.len(),
                names@ == search_dir_names(),
                sviews(search_paths@) == lviews(names@.take(i as int)).map_values(|n: Seq<char>| join(os, home_dir@, n)),
            decreases names@.len() - i,
        {
            let ghost old = sviews(search_paths@);
            search_paths.push(join_path(os, home_dir.as_str(), names[i]));
            i = i + 1;
            proof {
                assert(sviews(search_paths@) =~= old.push(join(os, home_dir@, names@[i - 1]@)));
                let want = lviews(names@.take(i as int)).map_values(|n: Seq<char>| join(os, home_dir@, n));
                assert(sviews(search_paths@) =~= want) by {
                    assert forall|q: int| 0 <= q < want.len() implies sviews(search_paths@)[q] == want[q] by {
                        if q < i - 1 {
                            assert(old[q] == lviews(names@.take(i - 1)).map_values(|n: Seq<char>| join(os, home_dir@, n))[q]);
                        }
                    }
                }
            }
        }
        assert(names@.take(names@.len() as int) =~= names@);
        AppsLeftoversCleaner { os, known_apps: clone_strings(&config.known_apps), search_paths, home_dir }
    }

    /// Whether an entry named `name` is a leftover: only when it is listed
    /// among the apps known to be uninstalled. A name that resembles an
    /// installed app is never one, and neither is any other name.
    pub fn is_leftover(&self, name: &str, installed: &Vec<String>) -> (r: bool)
        ensures
            r == sviews(self.known_apps@).contains(name@),
    {
        let mut i: usize = 0;
        while i < self.known_apps.len()
            invariant
                i <= self.known_apps@.len(),
                forall|j: int| 0 <= j < i ==> sviews(self.known_apps@)[j] != name@,
            decreases self.known_apps@.len() - i,
        {
            if str_eq(self.known_apps[i].as_str(), name) {
                assert(sviews(self.known_apps@)[i as int] == name@);
                return true;
            }
            i = i + 1;
        }
        false
    }

    /// The scan result from the top-level directories found in each search
    /// path (those that exist): the leftovers among them, requiring the
    /// force flag. `installed` holds the names of the installed apps (see
    /// `installed_app_names`), which `is_leftover` is asked with.
    pub fn scan(&self, found: &Vec<Vec<ScannedItem>>, installed: &Vec<String>, duration_ms: u64) -> (r: ScanResult)
        requires
            items_size(found@.map_values(|ss: Vec<ScannedItem>| leftover_items(self.os, sviews(self.known_apps@), ss@)).fold_left(
                Seq::<ItemView>::empty(),
                |acc: Seq<ItemView>, x: Seq<ItemView>| acc + x,
            )) <= u64::MAX,
        ensures
            r.category@ == "apps"@,
            item_views(r.items@) == found@.map_values(|ss: Vec<ScannedItem>| leftover_items(self.os, sviews(self.known_apps@), ss@)).fold_left(
                Seq::<ItemView>::empty(),
                |acc: Seq<ItemView>, x: Seq<ItemView>| acc + x,
            ),
            r.total_size == items_size(item_views(r.items@)),
            r.scan_duration_ms == duration_ms,
            r.errors@.len() == 0,
    {
        let ghost known = sviews(self.known_apps@);
        let ghost per = found@.map_values(|ss: Vec<ScannedItem>| leftover_items(self.os, known, ss@));
        let mut items: Vec<CleanableItem> = Vec::new();
        let mut i: usize = 0;
        while i < found.len()
            invariant
                i <= found@.len(),
                known == sviews(self.known_apps@),
                per == found@.map_values(|ss: Vec<ScannedItem>| leftover_items(self.os, known, ss@)),
                item_views(items@) == per.take(i as int).fold_left(
                    Seq::<ItemView>::empty(),
                    |acc: Seq<ItemView>, x: Seq<ItemView>| acc + x,
                ),
            decreases found@.len() - i,
        {
            let ghost before = item_views(items@);
            let ss = &found[i];
            let mut j: usize = 0;
            while j < ss.len()
                invariant
                    j <= ss@.len(),
                    known == sviews(self.known_apps@),
                    item_views(items@) == before + leftover_items(self.os, known, ss@.take(j as int)),
                decreases ss@.len() - j,
            {
                proof {
                    assert(ss@.take(j + 1).drop_last() =~= ss@.take(j as int));
                }
                let s = &ss[j];
                let name = match file_name_of(self.os, s.path.as_str()) {
                    Some(n) => n,
                    None => String::new(),
                };
                if self.is_leftover(name.as_str(), installed) {
                    let ghost old = item_views(items@);
                    let it = CleanableItem {
                        path: s.path.clone(),
                        size: s.size,
                        item_type: ItemType::Directory,
                        age_days: s.age_days,
                        description: concat2("Leftover: ", name.as_str()),
                        requires_force: true,
                        risk_level: RiskLevel::High,
                    };
                    let ghost iv = it@;
                    items.push(it);
                    proof {
                        assert(item_views(items@) =~= old.push(iv));
                    }
                }
                j = j + 1;
            }
            proof {
                assert(ss@.take(ss@.len() as int) =~= ss@);
                assert(per.take(i + 1).drop_last() =~= per.take(i as int));
                assert(per.take(i + 1).last() == per[i as int]);
            }
            i = i + 1;
        }
        proof {
            assert(per.take(found@.len() as int) =~= per);
        }
        let total = sum_item_sizes(&items);
        ScanResult { category: String::from_str("apps"), items, total_size: total, scan_duration_ms: duration_ms, errors: Vec::new() }
    }

    /// What cleaning decides for a leftover: without the force flag it
    /// fails; in a dry run it counts; otherwise it moves into the trash of
    /// the home directory under its name and `stamp` (the time, as
    /// `%Y%m%d_%H%M%S`).
    pub fn clean_step(&self, item: &CleanableItem, ctx: &CleanerContext, stamp: &str) -> (r: LeftoverStep)
        ensures
            !ctx.force ==> (r matches LeftoverStep::Fail(m) && m@ == "App leftovers require --force flag"@),
            ctx.force && ctx.dry_run ==> r is Count,
            ctx.force && !ctx.dry_run ==> (r matches LeftoverStep::MoveTo(d) && d@ == join(
                self.os,
                join(self.os, self.home_dir@, ".Trash"@),
                (match file_name(self.os, item.path@) {
                    Some(n) => n,
                    None => seq![],
                }) + "_"@ + stamp@,
            )),
    {
        if !ctx.force {
            return LeftoverStep::Fail(String::from_str("App leftovers require --force flag"));
        }
        if ctx.dry_run {
            return LeftoverStep::Count;
        }
        let trash = join_path(self.os, self.home_dir.as_str(), ".Trash");
        let name = match file_name_of(self.os, item.path.as_str()) {
            Some(n) => n,
            None => String::new(),
        };
        let trash_name = concat3(name.as_str(), "_", stamp);
        LeftoverStep::MoveTo(join_path(self.os, trash.as_str(), trash_name.as_str()))
    }
}

impl Cleaner for AppsLeftoversCleaner {
    fn id(&self) -> (r: &'static str)
        ensures
            r@ == "apps"@,
    {
        "apps"
    }

    fn name(&self) -> (r: &'static str)
        ensures
            r@ == "App Leftovers"@,
    {
        "App Leftovers"
    }

    fn description(&self) -> (r: &'static str)
        ensures
            r@ == "Leftover files from uninstalled applications"@,
    {
        "Leftover files from uninstalled applications"
    }

    fn category(&self) -> (r: CleanerCategory)
        ensures
            r == CleanerCategory::Apps,
    {
        CleanerCategory::Apps
    }

    fn safe_boundary(&self) -> (r: SafeBoundary)
        ensures
            r.roots@ == self.search_paths@,
            r.max_depth is None,
            r.description@ == "Application support directories"@,
    {
        SafeBoundary::new(clone_strings(&self.search_paths), "Application support directories")
    }
}

} // verus!
