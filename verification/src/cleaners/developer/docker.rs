//! Docker: images, volumes and the build cache, as Docker reports them.
//!
//! Running `docker` is the caller's part; it hands in what each command
//! printed (`None` when the command failed).

use vstd::prelude::*;
use crate::cleaners::traits::{
    CleanResult, CleanableItem, Cleaner, CleanerCategory, ItemType, ItemView, RiskLevel, ScanResult, item_views,
};
use crate::config::schema::DockerConfig;
use crate::path::{Os, same_path, same_path_exec};
use crate::safety::boundaries::SafeBoundary;
use crate::text::{concat2, lines, lines_of, str_starts_with, sviews, trim, str_trim, str_eq, chars_of, string_of_range};

verus! {

/// Cleaner for Docker images, containers, volumes and build cache.
#[derive(Debug, Clone)]
pub struct DockerCleaner {
    pub dangling_only: bool,
    pub clean_volumes: bool,
    pub clean_build_cache: bool,
}

/// What Docker reported for a scan.
#[derive(Debug, Clone)]
pub struct DockerReport {
    /// `docker info` succeeded.
    pub running: bool,
    /// Output of `docker images -f dangling=true -q`.
    pub dangling_images: Option<String>,
    /// Output of `docker images -q`.
    pub images: Option<String>,
    /// Output of `docker volume ls -f dangling=true -q`.
    pub dangling_volumes: Option<String>,
    /// Total of the sizes `docker system df` reported, when it succeeded.
    pub disk_usage: Option<u64>,
}

/// The trimmed non-empty lines.
pub open spec fn ids_in(ls: Seq<Seq<char>>) -> Seq<Seq<char>>
    decreases ls.len(),
{
    if ls.len() == 0 {
        seq![]
    } else {
        let d = ids_in(ls.drop_last());
        if trim(ls.last()).len() > 0 { d.push(trim(ls.last())) } else { d }
    }
}

/// The identifiers a command printed, one per line.
pub open spec fn ids_of(out: Option<String>) -> Seq<Seq<char>> {
    match out {
        Some(s) => ids_in(lines(s@)),
        None => seq![],
    }
}

pub open spec fn image_item(id: Seq<char>, dangling: bool) -> ItemView {
    ItemView {
        path: "docker:image:"@ + id,
        size: 0,
        item_type: ItemType::File,
        age_days: None,
        description: if dangling { "Dangling image: "@ + id } else { "Unused image: "@ + id },
        requires_force: !dangling,
        risk_level: if dangling { RiskLevel::Low } else { RiskLevel::Medium },
    }
}

pub open spec fn volume_item(id: Seq<char>) -> ItemView {
    ItemView {
        path: "docker:volume:"@ + id,
        size: 0,
        item_type: ItemType::Directory,
        age_days: None,
        description: "Dangling volume: "@ + id,
        requires_force: true,
        risk_level: RiskLevel::High,
    }
}

pub open spec fn build_cache_item() -> ItemView {
    ItemView {
        path: "docker:buildcache"@,
        size: 0,
        item_type: ItemType::Directory,
        age_days: None,
        description: "Docker build cache"@,
        requires_force: false,
        risk_level: RiskLevel::Low,
    }
}

/// Some item of `items` has the path `p`.
pub open spec fn has_path(os: Os, items: Seq<ItemView>, p: Seq<char>) -> bool {
    exists|i: int| 0 <= i < items.len() && same_path(os, #[trigger] items[i].path, p)
}

/// `items` followed by an unused image for each id whose path is not yet
/// listed.
pub open spec fn with_unused(os: Os, items: Seq<ItemView>, ids: Seq<Seq<char>>) -> Seq<ItemView>
    decreases ids.len(),
{
    if ids.len() == 0 {
        items
    } else {
        let a = with_unused(os, items, ids.drop_last());
        if has_path(os, a, "docker:image:"@ + ids.last()) { a } else { a.push(image_item(ids.last(), false)) }
    }
}

/// The items a scan finds: dangling images; unused images not already
/// listed (unless only dangling ones are cleaned); the build cache when it
/// is cleaned; dangling volumes when they are cleaned.
pub open spec fn docker_items(os: Os, c: DockerCleaner, r: DockerReport) -> Seq<ItemView> {
    let dangling = ids_of(r.dangling_images).map_values(|id: Seq<char>| image_item(id, true));
    let with_images = if c.dangling_only { dangling } else { with_unused(os, dangling, ids_of(r.images)) };
    let with_cache = if c.clean_build_cache { with_images.push(build_cache_item()) } else { with_images };
    if c.clean_volumes {
        with_cache + ids_of(r.dangling_volumes).map_values(|id: Seq<char>| volume_item(id))
    } else {
        with_cache
    }
}

fn ids_exec(out: &Option<String>) -> (r: Vec<String>)
    ensures
        sviews(r@) == ids_of(*out),
{
    let mut r: Vec<String> = Vec::new();
    match out {
        None => {},
        Some(s) => {
            let ls = lines_of(s.as_str());
            let mut i: usize = 0;
            while i < ls.len()
                invariant
                    i <= ls@.len(),
                    sviews(r@) == ids_in(sviews(ls@).take(i as int)),
                decreases ls@.len() - i,
            {
                proof {
                    assert(sviews(ls@).take(i + 1).drop_last() =~= sviews(ls@).take(i as int));
                }
                let t = str_trim(ls[i].as_str());
                let ghost old = sviews(r@);
                if t.unicode_len() > 0 {
                    r.push(t);
                    proof {
                        assert(sviews(r@) =~= old.push(trim(ls@[i as int]@)));
                    }
                }
                i = i + 1;
            }
            assert(sviews(ls@).take(ls@.len() as int) =~= sviews(ls@));
        },
    }
    r
}

fn image_item_exec(id: &str, dangling: bool) -> (r: CleanableItem)
    ensures
        r@ == image_item(id@, dangling),
{
    CleanableItem {
        path: concat2("docker:image:", id),
        size: 0,
        item_type: ItemType::File,
        age_days: None,
        description: if dangling { concat2("Dangling image: ", id) } else { concat2("Unused image: ", id) },
        requires_force: !dangling,
        risk_level: if dangling { RiskLevel::Low } else { RiskLevel::Medium },
    }
}

impl DockerCleaner {
    /// The result of a dry run over `items`: each counts as cleaned, no
    /// bytes are counted as freed.
    pub fn dry_run_result(&self, items: &Vec<CleanableItem>, duration_ms: u64) -> (r: CleanResult)
        ensures
            r.category@ == "docker"@,
            r.items_cleaned == items.len(),
            r.bytes_freed == 0,
            r.items_failed@.len() == 0,
            r.clean_duration_ms == duration_ms,
    {
        CleanResult {
            category: String::from_str("docker"),
            items_cleaned: items.len(),
            bytes_freed: 0,
            items_failed: Vec::new(),
            clean_duration_ms: duration_ms,
        }
    }

    pub fn new(config: &DockerConfig) -> (r: DockerCleaner)
        ensures
            r.dangling_only == config.dangling_only,
            r.clean_volumes == config.clean_volumes,
            r.clean_build_cache == config.clean_build_cache,
    {
        DockerCleaner {
            dangling_only: config.dangling_only,
            clean_volumes: config.clean_volumes,
            clean_build_cache: config.clean_build_cache,
        }
    }

    /// The scan result from what Docker reported: when Docker is not
    /// running, no items and the error `Docker is not running`; otherwise
    /// the items found, with Docker's total disk usage (0 when unknown) as
    /// the total size.
    pub fn scan(&self, os: Os, report: &DockerReport, duration_ms: u64) -> (r: ScanResult)
        ensures
            r.category@ == "docker"@,
            r.scan_duration_ms == duration_ms,
            !report.running ==> r.items@.len() == 0 && r.total_size == 0 && sviews(r.errors@) == seq![
                "Docker is not running"@,
            ],
            report.running ==> item_views(r.items@) == docker_items(os, *self, *report) && r.total_size == (
            match report.disk_usage {
                Some(n) => n,
                None => 0,
            }) && r.errors@.len() == 0,
    {
        if !report.running {
            let mut errors: Vec<String> = Vec::new();
            errors.push(String::from_str("Docker is not running"));
            proof {
                assert(sviews(errors@) =~= seq!["Docker is not running"@]);
            }
            return ScanResult {
                category: String::from_str("docker"),
                items: Vec::new(),
                total_size: 0,
                scan_duration_ms: duration_ms,
                errors,
            };
        }
        let mut items: Vec<CleanableItem> = Vec::new();
        let dangling = ids_exec(&report.dangling_images);
        let mut i: usize = 0;
        while i < dangling.len()
            invariant
                i <= dangling@.len(),
                item_views(items@) == sviews(dangling@).take(i as int).map_values(|id: Seq<char>| image_item(id, true)),
            decreases dangling@.len() - i,
        {
            let ghost old = item_views(items@);
            let it = image_item_exec(dangling[i].as_str(), true);
            let ghost it_v = it@;
            items.push(it);
            i = i + 1;
            proof {
                assert(item_views(items@) =~= old.push(it_v));
                let want = sviews(dangling@).take(i as int).map_values(|id: Seq<char>| image_item(id, true));
                assert(item_views(items@) =~= want) by {
                    assert forall|q: int| 0 <= q < want.len() implies item_views(items@)[q] == want[q] by {
                        if q < i - 1 {
                            assert(item_views(items@)[q] == old[q]);
                        }
                    }
                }
            }
        }
        proof {
            assert(sviews(dangling@).take(dangling@.len() as int) =~= sviews(dangling@));
        }
        let ghost base = item_views(items@);
        if !self.dangling_only {
            let images = ids_exec(&report.images);
            let mut j: usize = 0;
            while j < images.len()
                invariant
                    j <= images@.len(),
                    item_views(items@) == with_unused(os, base, sviews(images@).take(j as int)),
                decreases images@.len() - j,
            {
                proof {
                    assert(sviews(images@).take(j + 1).drop_last() =~= sviews(images@).take(j as int));
                }
                let path = concat2("docker:image:", images[j].as_str());
                let mut k: usize = 0;
                let mut seen = false;
                while k < items.len()
                    invariant
                        k <= items@.len(),
                        !seen ==> forall|q: int| 0 <= q < k ==> !same_path(os, (#[trigger] items@[q])@.path, path@),
                        seen ==> has_path(os, item_views(items@), path@),
                    decreases items@.len() - k,
                {
                    if !seen && same_path_exec(os, items[k].path.as_str(), path.as_str()) {
                        seen = true;
                        assert(item_views(items@)[k as int].path == items@[k as int].path@);
                    }
                    k = k + 1;
                }
                proof {
                    if !seen {
                        assert(!has_path(os, item_views(items@), path@)) by {
                            if has_path(os, item_views(items@), path@) {
                                let q = choose|q: int| 0 <= q < item_views(items@).len() && same_path(os, item_views(items@)[q].path, path@);
                                assert(item_views(items@)[q].path == items@[q].path@);
                            }
                        }
                    }
                }
                if !seen {
                    let ghost old = item_views(items@);
                    items.push(image_item_exec(images[j].as_str(), false));
                    proof {
                        assert(item_views(items@) =~= old.push(image_item(images@[j as int]@, false)));
                    }
                }
                j = j + 1;
            }
            proof {
                assert(sviews(images@).take(images@.len() as int) =~= sviews(images@));
            }
        }
        let ghost with_images = item_views(items@);
        if self.clean_build_cache {
            items.push(
                CleanableItem {
                    path: String::from_str("docker:buildcache"),
                    size: 0,
                    item_type: ItemType::Directory,
                    age_days: None,
                    description: String::from_str("Docker build cache"),
                    requires_force: false,
                    risk_level: RiskLevel::Low,
                },
            );
            proof {
                assert(item_views(items@) =~= with_images.push(build_cache_item()));
            }
        }
        let ghost with_cache = item_views(items@);
        if self.clean_volumes {
            let volumes = ids_exec(&report.dangling_volumes);
            let mut v: usize = 0;
            while v < volumes.len()
                invariant
                    v <= volumes@.len(),
                    item_views(items@) == with_cache + sviews(volumes@).take(v as int).map_values(|id: Seq<char>| volume_item(id)),
                decreases volumes@.len() - v,
            {
                let ghost old_v = item_views(items@);
                items.push(
                    CleanableItem {
                        path: concat2("docker:volume:", volumes[v].as_str()),
                        size: 0,
                        item_type: ItemType::Directory,
                        age_days: None,
                        description: concat2("Dangling volume: ", volumes[v].as_str()),
                        requires_force: true,
                        risk_level: RiskLevel::High,
                    },
                );
                v = v + 1;
                proof {
                    assert(item_views(items@) =~= old_v.push(volume_item(volumes@[v - 1]@)));
                    let want = with_cache + sviews(volumes@).take(v as int).map_values(|id: Seq<char>| volume_item(id));
                    assert(item_views(items@) =~= want) by {
                        assert forall|q: int| 0 <= q < want.len() implies item_views(items@)[q] == want[q] by {
                            if q < want.len() - 1 {
                                assert(item_views(items@)[q] == old_v[q]);
                            }
                        }
                    }
                }
            }
            proof {
                assert(sviews(volumes@).take(volumes@.len() as int) =~= sviews(volumes@));
            }
        }
        let total = match report.disk_usage {
            Some(n) => n,
            None => 0,
        };
        ScanResult {
            category: String::from_str("docker"),
            items,
            total_size: total,
            scan_duration_ms: duration_ms,
            errors: Vec::new(),
        }
    }
}

/// What cleaning an item asks of Docker.
#[derive(Debug, Clone, PartialEq, Eq)]
pub enum DockerAction {
    /// `docker rmi <id>`.
    RemoveImage(String),
    /// `docker volume rm <id>`.
    RemoveVolume(String),
    /// `docker builder prune -f`.
    PruneBuildCache,
}

/// The action for an item path: an image, a volume, or the build cache;
/// `None` for any other path (the item is skipped).
pub open spec fn docker_action_spec(p: Seq<char>) -> Option<(u8, Seq<char>)> {
    if "docker:image:"@.is_prefix_of(p) {
        Some((0, p.skip(13)))
    } else if "docker:volume:"@.is_prefix_of(p) {
        Some((1, p.skip(14)))
    } else if p == "docker:buildcache"@ {
        Some((2, seq![]))
    } else {
        None
    }
}

pub open spec fn action_view(a: DockerAction) -> (u8, Seq<char>) {
    match a {
        DockerAction::RemoveImage(id) => (0, id@),
        DockerAction::RemoveVolume(id) => (1, id@),
        DockerAction::PruneBuildCache => (2, seq![]),
    }
}

/// The Docker action that cleans the item at `path`.
pub fn docker_action(path: &str) -> (r: Option<DockerAction>)
    ensures
        match docker_action_spec(path@) {
            Some(v) => r matches Some(a) && action_view(a) == v,
            None => r is None,
        },
{
    proof {
        reveal_strlit("docker:image:");
        reveal_strlit("docker:volume:");
    }
    let v = chars_of(path);
    if str_starts_with(path, "docker:image:") {
        let id = string_of_range(&v, 13, v.len());
        assert(v@.subrange(13, v@.len() as int) =~= path@.skip(13));
        Some(DockerAction::RemoveImage(id))
    } else if str_starts_with(path, "docker:volume:") {
        let id = string_of_range(&v, 14, v.len());
        assert(v@.subrange(14, v@.len() as int) =~= path@.skip(14));
        Some(DockerAction::RemoveVolume(id))
    } else if str_eq(path, "docker:buildcache") {
        Some(DockerAction::PruneBuildCache)
    } else {
        None
    }
}

impl Cleaner for DockerCleaner {
    fn id(&self) -> (r: &'static str)
        ensures
            r@ == "docker"@,
    {
        "docker"
    }

    fn name(&self) -> (r: &'static str)
        ensures
            r@ == "Docker"@,
    {
        "Docker"
    }

    fn description(&self) -> (r: &'static str)
        ensures
            r@ == "Docker images, containers, volumes, and build cache"@,
    {
        "Docker images, containers, volumes, and build cache"
    }

    fn category(&self) -> (r: CleanerCategory)
        ensures
            r == CleanerCategory::Developer,
    {
        CleanerCategory::Developer
    }

    /// Docker manages its own storage: no roots.
    fn safe_boundary(&self) -> (r: SafeBoundary)
        ensures
            r.roots@.len() == 0,
            r.max_depth is None,
            r.description@ == "Docker managed storage"@,
    {
        SafeBoundary::new(Vec::new(), "Docker managed storage")
    }
}


/// What to do with an item when cleaning.
#[derive(Debug, Clone)]
pub enum DockerStep {
    /// Refuse the item, for the reason given: it needs the force flag.
    Refuse { path: String, reason: String },
    /// Run the action for the item, whose size is given.
    Run { path: String, size: u64, action: DockerAction },
}

pub open spec fn step_view(s: DockerStep) -> (bool, Seq<char>, (u8, Seq<char>), u64) {
    match s {
        DockerStep::Refuse { path, reason } => (false, path@, (0, reason@), 0),
        DockerStep::Run { path, size, action } => (true, path@, action_view(action), size),
    }
}

/// The steps for the items, in order: an item that needs the force flag
/// without it is refused; an item with a Docker action gets it; any other
/// item is left out.
pub open spec fn docker_plan(items: Seq<ItemView>, force: bool) -> Seq<(bool, Seq<char>, (u8, Seq<char>), u64)>
    decreases items.len(),
{
    if items.len() == 0 {
        seq![]
    } else {
        let p = docker_plan(items.drop_last(), force);
        let it = items.last();
        if it.requires_force && !force {
            p.push((false, it.path, (0, "Requires --force flag"@), 0))
        } else {
            match docker_action_spec(it.path) {
                Some(a) => p.push((true, it.path, a, it.size)),
                None => p,
            }
        }
    }
}

/// The steps of cleaning `items` (not a dry run).
pub fn plan_docker_clean(items: &Vec<CleanableItem>, force: bool) -> (r: Vec<DockerStep>)
    ensures
        r@.map_values(|s: DockerStep| step_view(s)) == docker_plan(item_views(items@), force),
{
    let mut r: Vec<DockerStep> = Vec::new();
    let mut i: usize = 0;
    while i < items.len()
        invariant
            i <= items@.len(),
            r@.map_values(|s: DockerStep| step_view(s)) == docker_plan(item_views(items@.take(i as int)), force),
        decreases items@.len() - i,
    {
        proof {
            assert(item_views(items@.take(i + 1)).drop_last() =~= item_views(items@.take(i as int)));
        }
        let ghost old = r@.map_values(|s: DockerStep| step_view(s));
        let it = &items[i];
        if it.requires_force && !force {
            r.push(DockerStep::Refuse { path: it.path.clone(), reason: String::from_str("Requires --force flag") });
            proof {
                assert(r@.map_values(|s: DockerStep| step_view(s)) =~= old.push((false, it.path@, (0u8, "Requires --force flag"@), 0u64)));
            }
        } else {
            match docker_action(it.path.as_str()) {
                Some(a) => {
                    let ghost av = action_view(a);
                    r.push(DockerStep::Run { path: it.path.clone(), size: it.size, action: a });
                    proof {
                        assert(r@.map_values(|s: DockerStep| step_view(s)) =~= old.push((true, it.path@, av, it.size)));
                    }
                },
                None => {},
            }
        }
        i = i + 1;
    }
    assert(items@.take(items@.len() as int) =~= items@);
    r
}

} // verus!
