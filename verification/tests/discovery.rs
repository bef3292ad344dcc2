use crystal_clear_core::config::loader::{config_path_in, expand_tilde, generate_default_config_toml, validate_config};
use crystal_clear_core::config::schema::Config;
use crystal_clear_core::db::models::{PathCategory, PatternType, ScanType};
use crystal_clear_core::discovery::heuristics::{calculate_risk_score, detect_cleanable_directory, guess_from_entries};
use crystal_clear_core::discovery::scanner::{
    cache_is_fresh, discovered_entry, discovery_roots, is_interesting_hidden_dir, should_process_entry, DiscoveryConfig,
};
use crystal_clear_core::path::Os;

#[test]
fn test_detect_cache_directories() {
    let result = detect_cleanable_directory(Os::MacOs, "/Users/test/Library/Caches/com.apple.Safari", false, &None);
    assert!(result.is_some());
    let (category, confidence) = result.unwrap();
    assert_eq!(category, PathCategory::Cache);
    assert!(confidence > 90);
}

#[test]
fn test_detect_logs() {
    let result = detect_cleanable_directory(Os::MacOs, "/Users/test/Library/Logs/DiagnosticReports", false, &None);
    assert!(result.is_some());
    let (category, _) = result.unwrap();
    assert_eq!(category, PathCategory::Logs);
}

#[test]
fn test_detect_build_directory() {
    let result = detect_cleanable_directory(Os::MacOs, "/Users/test/Library/Developer/Xcode/DerivedData", false, &None);
    assert!(result.is_some());
    let (category, confidence) = result.unwrap();
    assert_eq!(category, PathCategory::Build);
    assert!(confidence > 90);
}

#[test]
fn detect_node_modules_by_package_json() {
    assert_eq!(
        detect_cleanable_directory(Os::Linux, "/home/test/app/node_modules", true, &None),
        Some((PathCategory::Deps, 30))
    );
    assert_eq!(
        detect_cleanable_directory(Os::Linux, "/home/test/app/node_modules", false, &None),
        Some((PathCategory::Deps, 60))
    );
}

#[test]
fn detect_ordinary_directory_is_not_cleanable() {
    assert_eq!(detect_cleanable_directory(Os::Linux, "/home/test/photos/2020", false, &Some(Vec::new())), None);
}

#[test]
fn entries_with_log_files_look_like_logs() {
    let names: Vec<String> = vec!["a.log", "b.log", "c.log", "d.log", "e.txt"].into_iter().map(String::from).collect();
    let guess = guess_from_entries(&names);
    assert_eq!(guess.map(|g| g.0), Some(PathCategory::Logs));
    let few: Vec<String> = vec!["a.log".to_string()];
    assert_eq!(guess_from_entries(&few), None);
}

#[test]
fn test_risk_scores() {
    let cache_risk = calculate_risk_score("/test/cache", PathCategory::Cache);
    let deps_risk = calculate_risk_score("/test/deps", PathCategory::Deps);
    assert!(cache_risk < deps_risk);
}

#[test]
fn test_discovery_config_defaults() {
    let config = DiscoveryConfig::default();
    assert_eq!(config.max_depth, 5);
    assert!(config.skip_dirs.contains(&".git".to_string()));
}

#[test]
fn discovery_skips_hidden_and_listed_directories() {
    let config = DiscoveryConfig::default();
    assert!(is_interesting_hidden_dir(".cargo"));
    assert!(!is_interesting_hidden_dir(".ssh"));
    assert!(should_process_entry(&config, &Some(".npm".to_string())));
    assert!(!should_process_entry(&config, &Some(".ssh".to_string())));
    assert!(!should_process_entry(&config, &Some("Music".to_string())));
    assert!(should_process_entry(&config, &Some("Projects".to_string())));
    assert!(should_process_entry(&config, &None));
}

#[test]
fn discovery_roots_under_home() {
    let roots = discovery_roots(Os::MacOs, &Some("/Users/test".to_string()), true);
    assert_eq!(roots.len(), 8);
    assert_eq!(roots[0], "/Users/test/Library/Caches");
    assert_eq!(roots[7], "/opt/homebrew");
    assert_eq!(discovery_roots(Os::MacOs, &None, false).len(), 0);
}

#[test]
fn discovered_entry_needs_size_and_detection() {
    let config = DiscoveryConfig::default();
    let d = discovered_entry(&config, "/h/.cache/x", true, false, Some((PathCategory::Cache, 90)), 2 * 1048576, 1000);
    let d = d.unwrap();
    assert_eq!(d.confidence, 90);
    assert_eq!(d.discovery_method, "heuristic");
    assert_eq!(d.last_size, Some(2 * 1048576));
    assert!(discovered_entry(&config, "/h/.cache/x", true, false, Some((PathCategory::Cache, 90)), 10, 1000).is_none());
    assert!(discovered_entry(&config, "/h/.cache/x", true, true, Some((PathCategory::Cache, 90)), 2 * 1048576, 1000).is_none());
}

#[test]
fn cache_freshness_counts_whole_hours() {
    let config = DiscoveryConfig::default();
    assert!(cache_is_fresh(&config, Some(0), 23 * 3600 + 3599));
    assert!(!cache_is_fresh(&config, Some(0), 24 * 3600));
    assert!(!cache_is_fresh(&config, None, 10));
}

#[test]
fn category_names_round_trip() {
    for c in [
        PathCategory::Cache,
        PathCategory::Logs,
        PathCategory::Temp,
        PathCategory::Build,
        PathCategory::Deps,
        PathCategory::Archive,
        PathCategory::Other,
    ] {
        assert_eq!(PathCategory::from_str(c.as_str()), c);
    }
    assert_eq!(PathCategory::from_str("nonsense"), PathCategory::Other);
    assert_eq!(ScanType::from_str(ScanType::Incremental.as_str()), ScanType::Incremental);
    assert_eq!(PatternType::from_str(PatternType::Glob.as_str()), PatternType::Glob);
}

#[test]
fn test_expand_tilde() {
    let expanded = expand_tilde(Os::Linux, "~/test", &Some("/home/test".to_string()));
    assert!(!expanded.starts_with("~"));
    assert!(expanded.starts_with("/home/test"));
    assert_eq!(expanded, "/home/test/test");
    assert_eq!(expand_tilde(Os::Linux, "~user/x", &Some("/home/test".to_string())), "~user/x");
    assert_eq!(expand_tilde(Os::Linux, "~/x", &None), "~/x");
}

#[test]
fn default_config_text_and_values() {
    let text = generate_default_config_toml();
    assert!(text.starts_with("# Crystal Clear Configuration File"));
    assert!(text.contains("[categories.docker]"));
    let config = Config::default();
    assert!(config.general.dry_run_default);
    assert!(config.safety.always_confirm);
    assert_eq!(config.safety.warn_threshold, 10 * 1024 * 1024 * 1024);
    assert!(validate_config(&config).is_ok());
}

#[test]
fn config_file_location() {
    assert_eq!(
        config_path_in(Os::Linux, &Some("/home/test/.config".to_string()), &Some("/home/test".to_string())),
        "/home/test/.config/crystal-clear/config.toml"
    );
    assert_eq!(config_path_in(Os::Linux, &None, &None), "/tmp/.config/crystal-clear/config.toml");
}
