use crystal_clear_core::error::CleanmacError;
use crystal_clear_core::path::Os;
use crystal_clear_core::safety::boundaries::SafeBoundary;
use crystal_clear_core::safety::protected_paths::{
    get_protected_paths, is_protected, matches_protected_pattern, ProtectionEnv,
};
use crystal_clear_core::safety::symlinks::{SymlinkWalk, WalkStep};
use crystal_clear_core::safety::validator::{PathProbe, PathValidator, ValidationResult};
use crystal_clear_core::trash::mover::TrashMover;

fn env(os: Os, home: &str) -> ProtectionEnv {
    ProtectionEnv { os, home: Some(home.to_string()), extra_system_paths: Vec::new() }
}

fn mac() -> ProtectionEnv {
    env(Os::MacOs, "/Users/test")
}

fn linux() -> ProtectionEnv {
    env(Os::Linux, "/home/test")
}

fn windows() -> ProtectionEnv {
    env(Os::Windows, "C:\\Users\\test")
}

fn protected(e: &ProtectionEnv, p: &str) -> bool {
    is_protected(e, p, p)
}

fn probe(path: &str, roots: Vec<Option<String>>) -> PathProbe {
    PathProbe {
        exists: true,
        canonical: Some(path.to_string()),
        permission_denied: false,
        recanonical: Some(path.to_string()),
        root_canonicals: roots,
        is_symlink: false,
        symlink_problem: None,
    }
}

#[test]
fn test_system_paths_protected() {
    let m = mac();
    assert!(protected(&m, "/"));
    assert!(protected(&m, "/System"));
    assert!(protected(&m, "/Applications"));
    assert!(protected(&m, "/Library"));
    assert!(protected(&m, "/bin"));
    assert!(protected(&m, "/usr"));

    let l = linux();
    assert!(protected(&l, "/"));
    assert!(protected(&l, "/usr"));
    assert!(protected(&l, "/etc"));

    let w = windows();
    assert!(protected(&w, "C:\\Windows"));
    assert!(protected(&w, "C:\\Program Files"));
}

#[test]
fn test_user_paths_protected() {
    let m = mac();
    assert!(protected(&m, "/Users/test/Documents"));
    assert!(protected(&m, "/Users/test/Desktop"));
    assert!(protected(&m, "/Users/test/.ssh"));
    assert!(protected(&m, "/Users/test/.gnupg"));
    assert!(protected(&m, "/Users/test/Library/Keychains"));

    let l = linux();
    assert!(protected(&l, "/home/test/Documents"));
    assert!(protected(&l, "/home/test/Desktop"));
    assert!(protected(&l, "/home/test/.ssh"));
    assert!(protected(&l, "/home/test/.gnupg"));
    assert!(protected(&l, "/home/test/.local/share/keyrings"));
}

#[test]
fn test_patterns_protected() {
    assert!(matches_protected_pattern(Os::MacOs, "/some/path/login.keychain"));
    assert!(matches_protected_pattern(Os::MacOs, "/some/path/cert.p12"));
    assert!(matches_protected_pattern(Os::MacOs, "/some/path/.DS_Store"));
    assert!(matches_protected_pattern(Os::Windows, "C:\\some\\path\\desktop.ini"));
}

#[test]
fn test_safe_paths_not_protected() {
    let m = get_protected_paths(&mac());
    assert!(!m.contains(&"/Users/test/Library/Caches".to_string()));
    assert!(!m.contains(&"/Users/test/Library/Logs".to_string()));
    let l = get_protected_paths(&linux());
    assert!(!l.contains(&"/home/test/.cache".to_string()));
}

#[test]
fn protected_children_of_user_folders() {
    let m = mac();
    assert!(protected(&m, "/Users/test/Documents/report.txt"));
    assert!(!protected(&m, "/Users/test/Library/Caches/com.example"));
    // The home directory itself is protected, its ordinary children are not.
    assert!(protected(&m, "/Users/test"));
    assert!(!protected(&m, "/Users/test/projects/build"));
    // A path inside a git repository is protected.
    assert!(protected(&m, "/Users/test/projects/app/.git/config"));
}

#[test]
fn protection_follows_the_canonical_path() {
    let m = mac();
    assert!(is_protected(&m, "/Users/test/link", "/System"));
    // System directories are protected themselves, not their children.
    assert!(!is_protected(&m, "/Users/test/link", "/System/Library/Caches/x"));
    assert!(!is_protected(&m, "/Users/test/link", "/Users/test/Library/Caches/x"));
}

#[test]
fn test_boundary_contains_direct_child() {
    let boundary = SafeBoundary::new(vec!["/tmp/root".to_string()], "test");
    let r = boundary.contains(
        Os::Linux,
        "/tmp/root/child",
        &Ok("/tmp/root/child".to_string()),
        &vec![Some("/tmp/root".to_string())],
    );
    assert!(r.unwrap());
}

#[test]
fn boundary_contains_its_root() {
    let boundary = SafeBoundary::new(vec!["/tmp/root".to_string(), "/tmp/other".to_string()], "test");
    let roots = vec![Some("/tmp/root".to_string()), None];
    assert!(boundary.contains(Os::Linux, "/tmp/root", &Ok("/tmp/root".to_string()), &roots).unwrap());
    // A root that does not exist holds nothing.
    assert!(!boundary.contains(Os::Linux, "/tmp/other/x", &Ok("/tmp/other/x".to_string()), &roots).unwrap());
}

#[test]
fn test_boundary_rejects_outside_path() {
    let boundary = SafeBoundary::new(vec!["/tmp/one".to_string()], "test");
    let r = boundary.contains(
        Os::Linux,
        "/tmp/two",
        &Ok("/tmp/two".to_string()),
        &vec![Some("/tmp/one".to_string())],
    );
    assert!(!r.unwrap());
}

#[test]
fn test_boundary_depth_limit() {
    let boundary = SafeBoundary::new(vec!["/tmp/root".to_string()], "test").with_max_depth(2);
    let roots = vec![Some("/tmp/root".to_string())];
    let l1 = "/tmp/root/level1";
    let l2 = "/tmp/root/level1/level2";
    let l3 = "/tmp/root/level1/level2/level3";
    assert!(boundary.contains(Os::Linux, l1, &Ok(l1.to_string()), &roots).unwrap());
    assert!(boundary.contains(Os::Linux, l2, &Ok(l2.to_string()), &roots).unwrap());
    assert!(!boundary.contains(Os::Linux, l3, &Ok(l3.to_string()), &roots).unwrap());
}

#[test]
fn test_symlink_escape_detected() {
    let boundary = SafeBoundary::new(vec!["/tmp/base/safe".to_string()], "test");
    let r = boundary.contains(
        Os::Linux,
        "/tmp/base/safe/escape",
        &Ok("/tmp".to_string()),
        &vec![Some("/tmp/base/safe".to_string())],
    );
    assert!(!r.unwrap());
}

#[test]
fn boundary_reports_unresolvable_path() {
    let boundary = SafeBoundary::new(vec!["/tmp/root".to_string()], "test");
    let r = boundary.contains(
        Os::Linux,
        "/tmp/root/gone",
        &Err("No such file or directory (os error 2)".to_string()),
        &vec![Some("/tmp/root".to_string())],
    );
    assert!(matches!(r, Err(CleanmacError::Filesystem { .. })));
}

#[test]
fn boundary_text_lists_roots() {
    let boundary = SafeBoundary::new(vec!["/a".to_string(), "/b".to_string()], "Two roots");
    assert_eq!(boundary.to_string(), "Two roots [/a, /b]");
    let deep = SafeBoundary::new(vec!["/a".to_string()], "One").with_max_depth(3);
    assert_eq!(deep.to_string(), "One [/a] (max depth: 3)");
}

#[test]
fn test_system_paths_rejected() {
    let m = mac();
    let validator = PathValidator::default_validator(m);
    let boundary = SafeBoundary::new(vec!["/".to_string()], "test");
    for p in ["/", "/System", "/Applications", "/Library", "/bin", "/usr"] {
        let result = validator.validate(p, &boundary, &probe(p, vec![Some("/".to_string())]));
        assert!(matches!(result, ValidationResult::HardProtected { .. }), "Expected {} to be protected", p);
    }
    let l = linux();
    let validator = PathValidator::default_validator(l);
    for p in ["/", "/usr", "/etc"] {
        let result = validator.validate(p, &boundary, &probe(p, vec![Some("/".to_string())]));
        assert!(matches!(result, ValidationResult::HardProtected { .. }), "Expected {} to be protected", p);
    }
}

#[test]
fn test_user_exclusions() {
    let excluded = "/home/test/work/excluded";
    let validator = PathValidator::new(linux(), vec![Some(excluded.to_string())]);
    let boundary = SafeBoundary::new(vec!["/home/test/work".to_string()], "test");
    let result = validator.validate(excluded, &boundary, &probe(excluded, vec![Some("/home/test/work".to_string())]));
    assert_eq!(result, ValidationResult::UserExcluded);
}

#[test]
fn test_nonexistent_path() {
    let validator = PathValidator::default_validator(linux());
    let boundary = SafeBoundary::new(vec!["/home/test/work".to_string()], "test");
    let mut p = probe("/home/test/work/does-not-exist", vec![Some("/home/test/work".to_string())]);
    p.exists = false;
    p.canonical = None;
    let result = validator.validate("/home/test/work/does-not-exist", &boundary, &p);
    assert_eq!(result, ValidationResult::NotFound);
}

#[test]
fn test_safe_path_accepted() {
    let validator = PathValidator::default_validator(linux());
    let boundary = SafeBoundary::new(vec!["/home/test/work".to_string()], "test");
    let f = "/home/test/work/safe-file.txt";
    let result = validator.validate(f, &boundary, &probe(f, vec![Some("/home/test/work".to_string())]));
    assert_eq!(result, ValidationResult::Safe);
}

#[test]
fn test_symlink_outside_boundary_rejected() {
    let validator = PathValidator::default_validator(linux());
    let boundary = SafeBoundary::new(vec!["/home/test/work/safe".to_string()], "test");
    let mut p = probe("/home/test/work/safe/escape", vec![Some("/home/test/work/safe".to_string())]);
    p.canonical = Some("/home/test/work/outside".to_string());
    p.recanonical = Some("/home/test/work/outside".to_string());
    p.is_symlink = true;
    let result = validator.validate("/home/test/work/safe/escape", &boundary, &p);
    assert!(
        matches!(result, ValidationResult::BoundaryViolation { .. })
            || matches!(result, ValidationResult::HardProtected { .. }),
        "Expected symlink escape to be rejected, got {:?}",
        result
    );
}

#[test]
fn permission_denied_when_resolution_fails_for_lack_of_rights() {
    let validator = PathValidator::default_validator(linux());
    let boundary = SafeBoundary::new(vec!["/home/test/work".to_string()], "test");
    let mut p = probe("/home/test/work/locked", vec![Some("/home/test/work".to_string())]);
    p.canonical = None;
    p.permission_denied = true;
    assert_eq!(validator.validate("/home/test/work/locked", &boundary, &p), ValidationResult::PermissionDenied);
}

#[test]
fn validation_results_skip_or_fail() {
    assert!(ValidationResult::UserExcluded.should_skip());
    assert!(ValidationResult::NotFound.should_skip());
    assert!(!ValidationResult::Safe.should_skip());
    assert!(ValidationResult::PermissionDenied.is_error());
    assert!(ValidationResult::HardProtected { reason: "x".to_string() }.is_error());
    assert!(!ValidationResult::UserExcluded.is_error());
}

#[test]
fn symlink_walk_detects_loop() {
    let mut walk = SymlinkWalk::start(Os::Linux, "/tmp/a");
    assert_eq!(walk.step(true, &Ok("/tmp/b".to_string())), WalkStep::Continue);
    assert_eq!(walk.step(true, &Ok("/tmp/a".to_string())), WalkStep::Continue);
    match walk.step(true, &Ok("/tmp/b".to_string())) {
        WalkStep::Finished(Some(m)) => assert_eq!(m, "Symlink loop detected: '/tmp/a' revisits '/tmp/a'"),
        other => panic!("unexpected {:?}", other),
    }
}

#[test]
fn symlink_walk_resolves_relative_targets() {
    let mut walk = SymlinkWalk::start(Os::Linux, "/tmp/dir/link");
    assert_eq!(walk.step(true, &Ok("target".to_string())), WalkStep::Continue);
    assert_eq!(walk.current, "/tmp/dir/target");
    assert_eq!(walk.step(false, &Err(String::new())), WalkStep::Finished(None));
}

#[test]
fn symlink_walk_stops_at_forty_levels() {
    let mut walk = SymlinkWalk::start(Os::Linux, "/tmp/l0");
    for i in 0..40 {
        let next = format!("/tmp/l{}", i + 1);
        assert_eq!(walk.step(true, &Ok(next)), WalkStep::Continue);
    }
    match walk.step(true, &Ok("/tmp/again".to_string())) {
        WalkStep::Finished(Some(m)) => assert_eq!(m, "Symlink chain too deep (>40 levels): '/tmp/l0'"),
        other => panic!("unexpected {:?}", other),
    }
}

#[test]
fn test_protected_path_rejected() {
    let mover = TrashMover::default_mover(mac()).unwrap();
    let result = mover.move_to_trash("/System", &Ok("/System".to_string()));
    assert!(result.is_err());
    let mover = TrashMover::default_mover(linux()).unwrap();
    let result = mover.move_to_trash("/usr", &Ok("/usr".to_string()));
    assert!(result.is_err());
    let mover = TrashMover::default_mover(windows()).unwrap();
    let result = mover.move_to_trash("C:\\Windows", &Ok("C:\\Windows".to_string()));
    assert!(result.is_err());
}

#[test]
fn move_to_trash_gives_the_canonical_path() {
    let mover = TrashMover::default_mover(linux()).unwrap();
    let result = mover.move_to_trash("/home/test/work/link", &Ok("/home/test/work/file.txt".to_string()));
    assert_eq!(result.unwrap(), "/home/test/work/file.txt");
    // A path that cannot be resolved is not moved.
    let failed = mover.move_to_trash("/home/test/work/gone", &Err("not found".to_string()));
    assert!(matches!(failed, Err(CleanmacError::Filesystem { .. })));
}

#[test]
fn test_is_supported() {
    assert!(TrashMover::is_supported(Os::MacOs));
    assert!(TrashMover::is_supported(Os::Linux));
    assert!(TrashMover::is_supported(Os::Windows));
    assert!(!TrashMover::is_supported(Os::Other));
}

#[test]
fn validated_moves_hand_over_the_canonical_path() {
    let mover = TrashMover::default_mover(linux()).unwrap();
    let boundary = SafeBoundary::new(vec!["/home/test/.cache".to_string()], "caches");
    let roots = vec![Some("/home/test/.cache".to_string())];
    let ok = mover.move_to_trash_validated("/home/test/.cache/app", &boundary, &probe("/home/test/.cache/app", roots.clone()));
    assert_eq!(ok.unwrap(), "/home/test/.cache/app");
    let outside = mover.move_to_trash_validated("/home/test/work", &boundary, &probe("/home/test/work", roots.clone()));
    assert!(matches!(outside, Err(CleanmacError::BoundaryEscape { .. })));
    let protected = mover.move_to_trash_validated("/usr", &boundary, &probe("/usr", roots));
    assert!(matches!(protected, Err(CleanmacError::ProtectedPath { .. })));
}

#[test]
fn system_paths_stay_protected_without_a_home_directory() {
    let boundary = SafeBoundary::new(vec!["/".to_string()], "test");
    for (os, paths) in [
        (Os::Linux, vec!["/", "/usr", "/etc", "/bin"]),
        (Os::MacOs, vec!["/", "/System", "/Applications", "/Library", "/bin", "/usr"]),
    ] {
        let homeless = ProtectionEnv { os, home: None, extra_system_paths: Vec::new() };
        let mover = TrashMover::default_mover(homeless.clone()).unwrap();
        let validator = PathValidator::default_validator(homeless.clone());
        for p in paths {
            assert!(is_protected(&homeless, p, p), "{} must be protected", p);
            match mover.move_to_trash(p, &Ok(p.to_string())) {
                Err(CleanmacError::ProtectedPath { path }) => assert_eq!(path, p),
                _ => panic!("{} must be refused", p),
            }
            let result = validator.validate(p, &boundary, &probe(p, vec![Some("/".to_string())]));
            assert!(matches!(result, ValidationResult::HardProtected { .. }), "Expected {} to be protected", p);
        }
        assert!(!is_protected(&homeless, "/srv/data/cache", "/srv/data/cache"));
    }
}
