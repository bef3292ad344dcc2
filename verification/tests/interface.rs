use crystal_clear_core::audit::entry::{
    days_before, is_at_or_after, is_blank_line, last_entries, readable_lines, retain_recent, AuditEntry, AuditOperation,
    AuditTime,
};
use crystal_clear_core::cleaners::traits::{CleanResult, CleanableItem, CleanerCategory, ItemType, RiskLevel, ScanResult};
use crystal_clear_core::config::schema::Config;
use crystal_clear_core::ffi::conversions::{ffi_clean_result, ffi_disk_info, ffi_download_category, ffi_scan_result};
use crystal_clear_core::ffi::entry::{
    build_scan_index, cleaner_info, find_cleaner, get_cleaners_with_config, manual_step, route_clean_paths,
    uninstall_targets, unknown_category_result, CleanerKind, ManualStep, RequestTally,
};
use crystal_clear_core::ffi::types::{FFICleanerCategory, FFIDownloadCategory};
use crystal_clear_core::disk::DiskInfo;
use crystal_clear_core::path::Os;
use crystal_clear_core::safety::protected_paths::ProtectionEnv;
use crystal_clear_core::scanner::apps::InstalledApp;
use crystal_clear_core::scanner::downloads::DownloadCategory;

fn item(path: &str, size: u64, requires_force: bool) -> CleanableItem {
    CleanableItem {
        path: path.to_string(),
        size,
        item_type: ItemType::Directory,
        age_days: None,
        description: String::new(),
        requires_force,
        risk_level: RiskLevel::Low,
    }
}

fn strings(v: &[&str]) -> Vec<String> {
    v.iter().map(|s| s.to_string()).collect()
}

#[test]
fn default_config_enables_cleaners_by_platform() {
    let config = Config::default();
    let mac = get_cleaners_with_config(&config, Os::MacOs);
    assert_eq!(mac.len(), 11);
    assert_eq!(mac[0], CleanerKind::SystemCache);
    assert_eq!(mac[10], CleanerKind::Xcode);
    let linux = get_cleaners_with_config(&config, Os::Linux);
    assert_eq!(linux.len(), 10);
    assert_eq!(linux[9], CleanerKind::Homebrew);
    let windows = get_cleaners_with_config(&config, Os::Windows);
    assert_eq!(windows.len(), 9);
    assert!(!windows.contains(&CleanerKind::Homebrew));
}

#[test]
fn disabled_categories_are_left_out() {
    let mut config = Config::default();
    config.categories.docker.base.enabled = false;
    config.categories.npm.enabled = false;
    let kinds = get_cleaners_with_config(&config, Os::Linux);
    assert!(!kinds.contains(&CleanerKind::Docker));
    assert!(!kinds.contains(&CleanerKind::Npm));
    assert_eq!(kinds.len(), 8);
}

#[test]
fn cleaners_are_found_by_id() {
    let kinds = get_cleaners_with_config(&Config::default(), Os::MacOs);
    let i = find_cleaner(&kinds, "docker").unwrap();
    assert_eq!(kinds[i], CleanerKind::Docker);
    assert_eq!(find_cleaner(&kinds, "nothing"), None);
    let info = cleaner_info(CleanerKind::SystemCache, true);
    assert_eq!(info.id, "system-cache");
    assert_eq!(info.name, "System Caches");
    assert_eq!(info.category, FFICleanerCategory::System);
    assert!(info.available);
    assert_eq!(CleanerKind::Apps.category(), CleanerCategory::Apps);
}

#[test]
fn unknown_category_reports_error() {
    let r = unknown_category_result("bogus".to_string());
    assert_eq!(r.category, "bogus");
    assert_eq!(r.category_name, "Unknown");
    assert!(r.items.is_empty());
    assert_eq!(r.errors, vec!["Category not found or not available".to_string()]);
}

#[test]
fn clean_requests_are_routed() {
    let scans = vec![
        Some(vec![item("/c/a", 10, false), item("/c/b", 20, true)]),
        None,
        Some(vec![item("/n/x", 5, false), item("/c/a", 11, false)]),
    ];
    let index = build_scan_index(&scans);
    assert_eq!(index.len(), 4);
    assert_eq!(index[2].0, 2);
    let paths = strings(&["/c/a", "/c/b", "/m/manual", "/n/x", "/c/a"]);
    let r = route_clean_paths(&paths, &index, 3, false);
    // A later scan's entry for a path replaces an earlier one.
    assert_eq!(r.groups[0].len(), 0);
    assert_eq!(r.groups[1].len(), 0);
    assert_eq!(r.groups[2].iter().map(|i| i.path.as_str()).collect::<Vec<_>>(), vec!["/c/a", "/n/x"]);
    assert_eq!(r.groups[2][0].size, 11);
    assert_eq!(r.needs_force, strings(&["/c/b"]));
    // The second copy of a path finds its entry taken.
    assert_eq!(r.manual, strings(&["/m/manual", "/c/a"]));

    let forced = route_clean_paths(&paths, &index, 3, true);
    assert!(forced.needs_force.is_empty());
    assert_eq!(forced.groups[0].len(), 1);
}

#[test]
fn manual_paths_are_decided() {
    let env = ProtectionEnv { os: Os::Linux, home: Some("/home/test".to_string()), extra_system_paths: Vec::new() };
    match manual_step(&env, "/usr", "/usr", true, true) {
        ManualStep::Refused(m) => assert_eq!(m, "SAFETY VIOLATION: '/usr' is protected"),
        _ => panic!("expected a refusal"),
    }
    assert!(matches!(manual_step(&env, "/home/test/big.iso", "/home/test/big.iso", true, true), ManualStep::Counted));
    assert!(matches!(manual_step(&env, "/home/test/gone", "/home/test/gone", true, false), ManualStep::Missing));
    assert!(matches!(manual_step(&env, "/home/test/big.iso", "/home/test/big.iso", false, true), ManualStep::Move));
}

#[test]
fn request_tally_counts_outcomes() {
    let mut t = RequestTally::new();
    t.needs_force("/c/b".to_string());
    t.absorb(CleanResult {
        category: "npm".to_string(),
        items_cleaned: 2,
        bytes_freed: 300,
        items_failed: vec![("/n/y".to_string(), "busy".to_string())],
        clean_duration_ms: 4,
    });
    t.record_manual("/m/a".to_string(), ManualStep::Counted, 50, Ok(()));
    t.record_manual("/m/b".to_string(), ManualStep::Missing, 0, Ok(()));
    t.record_manual("/m/c".to_string(), ManualStep::Move, 7, Err("Failed to move to trash: denied".to_string()));
    t.record_move("/m/d".to_string(), 8, Ok(()));
    let r = t.finish("mixed", 12);
    assert_eq!(r.category, "mixed");
    assert_eq!(r.items_cleaned, 4);
    assert_eq!(r.bytes_freed, 358);
    let reasons: Vec<(&str, &str)> = r.failures.iter().map(|f| (f.path.as_str(), f.reason.as_str())).collect();
    assert_eq!(
        reasons,
        vec![
            ("/c/b", "Requires --force flag"),
            ("/n/y", "busy"),
            ("/m/b", "Path not found"),
            ("/m/c", "Failed to move to trash: denied"),
        ]
    );
    assert_eq!(r.clean_duration_ms, 12);
}

#[test]
fn uninstall_moves_app_then_leftovers() {
    let app = InstalledApp {
        name: "Foo".to_string(),
        path: "/Applications/Foo.app".to_string(),
        size: 10,
        bundle_id: Some("com.example.foo".to_string()),
        leftovers: strings(&["/Users/t/Library/Caches/com.example.foo"]),
        leftover_size: 3,
    };
    let apps = vec![app];
    assert_eq!(
        uninstall_targets(Os::MacOs, "/Applications/Foo.app", true, true, &apps),
        strings(&["/Applications/Foo.app", "/Users/t/Library/Caches/com.example.foo"])
    );
    assert_eq!(uninstall_targets(Os::MacOs, "/Applications/Foo.app", true, false, &apps), strings(&["/Applications/Foo.app"]));
    assert_eq!(
        uninstall_targets(Os::MacOs, "/Applications/Foo.app", false, true, &apps),
        strings(&["/Users/t/Library/Caches/com.example.foo"])
    );
    assert!(uninstall_targets(Os::MacOs, "/Applications/Bar.app", false, true, &apps).is_empty());
    assert_eq!(
        uninstall_targets(Os::MacOs, "/Applications/Foo.app/", false, true, &apps),
        strings(&["/Users/t/Library/Caches/com.example.foo"])
    );
}

#[test]
fn interface_conversions() {
    let r = ffi_clean_result(CleanResult {
        category: "trash".to_string(),
        items_cleaned: 3,
        bytes_freed: 9,
        items_failed: vec![("/p".to_string(), "why".to_string())],
        clean_duration_ms: 1,
    });
    assert_eq!(r.items_cleaned, 3);
    assert_eq!(r.failures[0].path, "/p");
    assert_eq!(r.failures[0].reason, "why");
    let d = ffi_disk_info(DiskInfo {
        name: "n".to_string(),
        mount_point: "/".to_string(),
        device_node: "/dev/x".to_string(),
        filesystem: "apfs".to_string(),
        total_bytes: 3,
        used_bytes: 1,
        free_bytes: 2,
    });
    assert_eq!(d.mount_point, "/");
    assert_eq!(d.free_bytes, 2);
    assert_eq!(ffi_download_category(DownloadCategory::LargeMedia), FFIDownloadCategory::LargeMedia);
}

#[test]
fn audit_entries_carry_their_fields() {
    let e = AuditEntry::cleaned("npm", "/home/t/.npm/x".to_string(), 500).unwrap();
    assert_eq!(e.operation, AuditOperation::MoveToTrash);
    assert_eq!(e.size_human, "500 B");
    assert!(e.success && !e.dry_run);
    assert_eq!((e.id >> 76) & 0xf, 4);
    assert_eq!((e.id >> 62) & 0x3, 2);
    let d = AuditEntry::dry_run("npm", "/x".to_string(), 1).unwrap();
    assert_eq!(d.context.as_deref(), Some("DRY RUN - no actual deletion"));
    let err = AuditEntry::error("npm", "/x".to_string(), "boom").unwrap();
    assert_eq!(err.error.as_deref(), Some("boom"));
    assert_eq!(err.size_human, "0 B");
    assert!(!err.success);
    let s = AuditEntry::skipped("npm", "/x".to_string(), "excluded").unwrap().with_context("other".to_string());
    assert_eq!(s.operation, AuditOperation::Skip);
    assert_eq!(s.context.as_deref(), Some("other"));
    assert_eq!(AuditEntry::scan("npm", "/x".to_string(), 2).unwrap().operation, AuditOperation::Scan);
    // The time is the current time: well after 2020.
    assert!(e.timestamp.secs > 1_600_000_000);
    assert!(e.timestamp.nanos < 1_000_000_000);
    let at = AuditTime { secs: 7, nanos: 9 };
    let t = AuditEntry::stamped(42, at, AuditOperation::Skip, "c", "/p".to_string(), 3, "3 B".to_string(), true, false, None, None);
    assert_eq!(t.id, 42);
    assert_eq!(t.timestamp, at);
    assert_eq!(t.cleaner_id, "c");
    assert_eq!(t.size_human, "3 B");
    // Two entries get different identifiers.
    assert_ne!(AuditEntry::scan("a", "/x".to_string(), 0).unwrap().id, AuditEntry::scan("a", "/x".to_string(), 0).unwrap().id);
}

#[test]
fn audit_log_reading_and_cleanup() {
    let entries: Vec<AuditEntry> = (0..5).map(|i| AuditEntry::scan("c", format!("/p{}", i), i).unwrap()).collect();
    let last = last_entries(entries, 2);
    assert_eq!(last.iter().map(|e| e.path.as_str()).collect::<Vec<_>>(), vec!["/p3", "/p4"]);
    let all = last_entries(last, 10);
    assert_eq!(all.len(), 2);

    assert!(is_blank_line("   \t"));
    assert!(!is_blank_line(" {} "));
    let now = AuditTime { secs: 10 * 86400, nanos: 5 };
    let cutoff = days_before(now, 3);
    assert_eq!(cutoff, AuditTime { secs: 7 * 86400, nanos: 5 });
    assert!(is_at_or_after(AuditTime { secs: 7 * 86400, nanos: 5 }, cutoff));
    assert!(!is_at_or_after(AuditTime { secs: 7 * 86400, nanos: 4 }, cutoff));
    let lines = strings(&["old", "", "new", "garbled"]);
    let stamps = vec![
        Some(AuditTime { secs: 0, nanos: 0 }),
        None,
        Some(AuditTime { secs: 9 * 86400, nanos: 0 }),
        None,
    ];
    let (kept, removed) = retain_recent(&lines, &stamps, cutoff);
    assert_eq!(kept, strings(&["new", "garbled"]));
    assert_eq!(removed, 1);
}

#[test]
fn scan_results_keep_their_items_in_interface_form() {
    let result = ScanResult {
        category: "npm".to_string(),
        items: vec![item("/home/test/.npm/_cacache", 300, false)],
        total_size: 300,
        scan_duration_ms: 7,
        errors: vec!["Error scanning /x: denied".to_string()],
    };
    let r = ffi_scan_result(result);
    assert_eq!(r.category, "npm");
    assert_eq!(r.category_name, "npm");
    assert_eq!(r.items.len(), 1);
    assert_eq!(r.items[0].path, "/home/test/.npm/_cacache");
    assert_eq!(r.items[0].size, 300);
    assert_eq!(r.total_size, 300);
    assert_eq!(r.scan_duration_ms, 7);
    assert_eq!(r.errors, vec!["Error scanning /x: denied".to_string()]);
}

#[test]
fn written_log_lines_are_read_back_in_order() {
    let log: Vec<String> = vec!["{\"path\":\"/old\"}".to_string(), "   ".to_string()];
    let written = vec![
        "{\"path\":\"/test/path\"}".to_string(),
        "{\"path\":\"/test/path2\"}".to_string(),
        "{\"path\":\"/test/path3\"}".to_string(),
    ];
    let mut all = log.clone();
    all.extend(written.iter().cloned());
    let read = readable_lines(&all);
    assert_eq!(read.len(), 4);
    assert_eq!(read[0], log[0]);
    assert_eq!(&read[1..], &written[..]);
    let entries: Vec<AuditEntry> = read
        .iter()
        .map(|l| AuditEntry::scan("c", l.clone(), 0).unwrap())
        .collect();
    let recent = last_entries(entries, 2);
    assert_eq!(recent.iter().map(|e| e.path.clone()).collect::<Vec<_>>(), written[1..].to_vec());
}
