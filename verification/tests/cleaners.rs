use crystal_clear_core::cleaners::base::{BaseCleaner, CleanDecision};
use crystal_clear_core::cleaners::developer::docker::{docker_action, plan_docker_clean, DockerAction, DockerCleaner, DockerStep};
use crystal_clear_core::cleaners::dynamic::{DiscoveredFacts, DynamicCleaner};
use crystal_clear_core::cleaners::traits::{CleanTally, CleanableItem, Cleaner, CleanerCategory, CleanerContext, ItemType, RiskLevel};
use crystal_clear_core::config::schema::DockerConfig;
use crystal_clear_core::db::models::{DiscoveredPath, PathCategory};
use crystal_clear_core::discovery::heuristics::guess_from_entries;
use crystal_clear_core::path::Os;
use crystal_clear_core::safety::boundaries::SafeBoundary;
use crystal_clear_core::safety::protected_paths::ProtectionEnv;
use crystal_clear_core::safety::validator::PathProbe;
use crystal_clear_core::trash::mover::TrashMover;

fn linux_env() -> ProtectionEnv {
    ProtectionEnv { os: Os::Linux, home: Some("/home/test".to_string()), extra_system_paths: Vec::new() }
}

fn base() -> BaseCleaner {
    BaseCleaner::new(TrashMover::default_mover(linux_env()).unwrap())
}

fn item(path: &str, requires_force: bool) -> CleanableItem {
    CleanableItem {
        path: path.to_string(),
        size: 10,
        item_type: ItemType::Directory,
        age_days: None,
        description: String::new(),
        requires_force,
        risk_level: RiskLevel::Low,
    }
}

fn probe(path: &str) -> PathProbe {
    PathProbe {
        exists: true,
        canonical: Some(path.to_string()),
        permission_denied: false,
        recanonical: Some(path.to_string()),
        root_canonicals: vec![Some("/".to_string())],
        is_symlink: false,
        symlink_problem: None,
    }
}

fn ctx(dry_run: bool, force: bool) -> CleanerContext {
    CleanerContext { dry_run, force, keep_recent_days: 0, min_size: None, max_items: None, skip_confirm: true }
}

#[test]
fn dry_run_reports_why_a_clean_would_fail() {
    let boundary = SafeBoundary::new(vec!["/".to_string()], "everything");
    let d = base().clean_decision(&item("/usr", false), &boundary, &probe("/usr"), &ctx(true, false));
    match d {
        CleanDecision::Fail(m) => assert_eq!(m, "Would fail: HardProtected { reason: \"'/usr' is protected\" }"),
        _ => panic!("expected a failure"),
    }
}

#[test]
fn clean_decisions_follow_validation() {
    let boundary = SafeBoundary::new(vec!["/".to_string()], "everything");
    let b = base();
    let p = "/home/test/work/cache";
    assert!(matches!(b.clean_decision(&item(p, false), &boundary, &probe(p), &ctx(true, false)), CleanDecision::Count));
    match b.clean_decision(&item(p, true), &boundary, &probe(p), &ctx(true, false)) {
        CleanDecision::Refuse(m) => assert_eq!(m, "Requires --force flag"),
        _ => panic!("expected a refusal"),
    }
    match b.clean_decision(&item(p, false), &boundary, &probe(p), &ctx(false, false)) {
        CleanDecision::Trash(c) => assert_eq!(c, p),
        _ => panic!("expected a move"),
    }
}

#[test]
fn cleaning_a_protected_path_fails_with_the_safety_error() {
    let boundary = SafeBoundary::new(vec!["/".to_string()], "everything");
    match base().clean_decision(&item("/usr", false), &boundary, &probe("/usr"), &ctx(false, false)) {
        CleanDecision::Fail(m) => {
            assert_eq!(m, "SAFETY VIOLATION: '/usr' is a protected system path and cannot be modified")
        }
        _ => panic!("expected a failure"),
    }
    let mut gone = probe("/home/test/work/cache");
    gone.exists = false;
    match base().clean_decision(&item("/home/test/work/cache", false), &boundary, &gone, &ctx(false, false)) {
        CleanDecision::Fail(m) => assert_eq!(m, "Path not found: '/home/test/work/cache'"),
        _ => panic!("expected a failure"),
    }
}

#[test]
fn test_dynamic_cleaner_creation() {
    let cleaner = DynamicCleaner::new(base(), Os::MacOs, PathCategory::Cache);
    assert_eq!(cleaner.id(), "dynamic-cache");
    assert_eq!(cleaner.name(), "Discovered Caches");
    assert!(cleaner.safe_boundary().roots.is_empty());
}

#[test]
fn discovered_cleaners_are_system_cleaners_without_an_estimate() {
    let cleaner = DynamicCleaner::new(base(), Os::Linux, PathCategory::Logs);
    assert_eq!(Cleaner::category(&cleaner), CleanerCategory::System);
    assert_eq!(cleaner.estimate_size(), None);
}

#[test]
fn dynamic_scan_rates_by_confidence() {
    let cleaner = DynamicCleaner::new(base(), Os::Linux, PathCategory::Build);
    let record = |p: &str, confidence: u32, size: Option<u64>| DiscoveredPath {
        id: Some(1),
        path: p.to_string(),
        category: PathCategory::Build,
        discovery_method: "heuristic".to_string(),
        confidence,
        last_seen: 0,
        first_seen: 0,
        last_size: size,
        times_cleaned: 0,
        is_active: true,
    };
    let found = vec![
        DiscoveredFacts { record: record("/w/target", 95, Some(100)), exists: true, measured_size: 7, age_days: Some(3) },
        DiscoveredFacts { record: record("/w/dist", 40, None), exists: true, measured_size: 7, age_days: Some(3) },
        DiscoveredFacts { record: record("/w/gone", 95, Some(5)), exists: false, measured_size: 0, age_days: None },
    ];
    let r = cleaner.scan(&Ok(found), &ctx(true, false), 3);
    assert_eq!(r.category, "dynamic-build");
    assert_eq!(r.items.len(), 2);
    assert_eq!(r.items[0].description, "target (95% confidence)");
    assert_eq!(r.items[0].risk_level, RiskLevel::Low);
    assert!(!r.items[0].requires_force);
    assert_eq!(r.items[1].size, 7);
    assert_eq!(r.items[1].risk_level, RiskLevel::High);
    assert!(r.items[1].requires_force);
    assert_eq!(r.total_size, 107);
    let failed = cleaner.scan(&Err("database is locked".to_string()), &ctx(true, false), 0);
    assert_eq!(failed.errors, vec!["database is locked".to_string()]);
}

#[test]
fn timestamped_entries_look_like_a_cache() {
    let names: Vec<String> = (1..=6).map(|i| format!("2024010{}", i)).collect();
    assert_eq!(guess_from_entries(&names), Some((PathCategory::Cache, 60)));
    let words: Vec<String> = (1..=6).map(|i| format!("file{}", i)).collect();
    assert_eq!(guess_from_entries(&words), None);
}

#[test]
fn docker_items_map_to_commands() {
    assert!(matches!(docker_action("docker:image:abc"), Some(DockerAction::RemoveImage(id)) if id == "abc"));
    assert!(matches!(docker_action("docker:volume:v1"), Some(DockerAction::RemoveVolume(id)) if id == "v1"));
    assert!(matches!(docker_action("docker:buildcache"), Some(DockerAction::PruneBuildCache)));
    assert!(docker_action("/tmp/x").is_none());
    let mut volume = item("docker:volume:v1", true);
    volume.item_type = ItemType::File;
    let items = vec![item("docker:image:abc", false), volume, item("/tmp/x", false)];
    let plan = plan_docker_clean(&items, false);
    assert_eq!(plan.len(), 2);
    assert!(matches!(&plan[0], DockerStep::Run { path, .. } if path == "docker:image:abc"));
    assert!(matches!(&plan[1], DockerStep::Refuse { path, reason } if path == "docker:volume:v1" && reason == "Requires --force flag"));
    let cleaner = DockerCleaner::new(&DockerConfig::default());
    let dry = cleaner.dry_run_result(&items, 5);
    assert_eq!(dry.items_cleaned, 3);
    assert_eq!(dry.bytes_freed, 0);
}

#[test]
fn clean_tally_counts() {
    let mut t = CleanTally::new();
    t.cleaned(5);
    t.cleaned(7);
    t.failed("/x".to_string(), "no".to_string());
    let r = t.finish("npm", 9);
    assert_eq!(r.items_cleaned, 2);
    assert_eq!(r.bytes_freed, 12);
    assert_eq!(r.items_failed, vec![("/x".to_string(), "no".to_string())]);
    assert_eq!(r.category, "npm");
}
