use crystal_clear_core::error::exit_codes;
use crystal_clear_core::error::CleanmacError;
use crystal_clear_core::ffi::conversions::ffi_error;
use crystal_clear_core::ffi::types::FFIError;
use crystal_clear_core::safety::validator::ValidationResult;

fn s(x: &str) -> String {
    x.to_string()
}

#[test]
fn error_messages() {
    assert_eq!(
        CleanmacError::ProtectedPath { path: s("/System") }.message(),
        "SAFETY VIOLATION: '/System' is a protected system path and cannot be modified"
    );
    assert_eq!(
        CleanmacError::BoundaryEscape { path: s("/a/l"), resolved: s("/etc") }.message(),
        "SAFETY VIOLATION: '/a/l' resolves to '/etc' which escapes the safe boundary"
    );
    assert_eq!(CleanmacError::SymlinkLoop { path: s("/x") }.message(), "SAFETY VIOLATION: Symlink loop detected at '/x'");
    assert_eq!(CleanmacError::Config { message: s("bad") }.message(), "Configuration error: bad");
    assert_eq!(CleanmacError::InvalidConfigPath { path: s("~x") }.message(), "Invalid path in configuration: '~x'");
    assert_eq!(CleanmacError::PermissionDenied { path: s("/r") }.message(), "Permission denied: '/r'");
    assert_eq!(CleanmacError::PathNotFound { path: s("/n") }.message(), "Path not found: '/n'");
    assert_eq!(
        CleanmacError::Filesystem { path: s("/f"), source: s("boom") }.message(),
        "Filesystem error at '/f': boom"
    );
    assert_eq!(
        CleanmacError::TrashFailed { path: s("/t"), reason: s("full") }.message(),
        "Failed to move to trash: '/t' - full"
    );
    assert_eq!(
        CleanmacError::SizeLimitExceeded { size: 60, limit: 50 }.message(),
        "Size limit exceeded: 60 bytes exceeds 50 bytes. Use --force to proceed."
    );
    assert_eq!(CleanmacError::Cancelled.message(), "Operation cancelled by user");
    assert_eq!(
        CleanmacError::CleanerFailed { cleaner: s("npm"), message: s("x") }.message(),
        "Cleaner 'npm' failed: x"
    );
    assert_eq!(
        CleanmacError::CleanerUnavailable { cleaner: s("xcode"), reason: s("no Xcode") }.message(),
        "Cleaner 'xcode' is not available: no Xcode"
    );
}

#[test]
fn error_severity_and_exit_codes() {
    let protected = CleanmacError::ProtectedPath { path: s("/") };
    assert!(protected.is_fatal());
    assert!(!protected.is_recoverable());
    assert_eq!(protected.exit_code(), exit_codes::SAFETY_VIOLATION);
    let config = CleanmacError::Config { message: s("x") };
    assert_eq!(config.exit_code(), exit_codes::CONFIG_ERROR);
    assert!(config.is_fatal());
    let missing = CleanmacError::PathNotFound { path: s("/n") };
    assert!(missing.is_recoverable());
    assert!(!missing.is_fatal());
    assert_eq!(missing.exit_code(), exit_codes::ERROR);
    assert_eq!(CleanmacError::Cancelled.exit_code(), exit_codes::CANCELLED);
}

#[test]
fn validation_results_become_errors() {
    assert!(ValidationResult::Safe.into_result("/p", "/p").is_ok());
    match ValidationResult::UserExcluded.into_result("/p", "/p") {
        Err(CleanmacError::TrashFailed { path, reason }) => {
            assert_eq!(path, "/p");
            assert_eq!(reason, "Path is excluded by user configuration");
        }
        _ => panic!("an excluded path is an error"),
    }
    assert!(matches!(
        ValidationResult::HardProtected { reason: s("r") }.into_result("/p", "/p"),
        Err(CleanmacError::ProtectedPath { path }) if path == "/p"
    ));
    assert!(matches!(
        ValidationResult::BoundaryViolation { reason: s("r") }.into_result("/p", "/q"),
        Err(CleanmacError::BoundaryEscape { path, resolved }) if path == "/p" && resolved == "/q"
    ));
    assert!(matches!(ValidationResult::NotFound.into_result("/p", "/p"), Err(CleanmacError::PathNotFound { .. })));
    assert!(matches!(
        ValidationResult::PermissionDenied.into_result("/p", "/p"),
        Err(CleanmacError::PermissionDenied { .. })
    ));
}

#[test]
fn interface_errors() {
    match ffi_error(CleanmacError::ProtectedPath { path: s("/System") }) {
        FFIError::ProtectedPath { path } => assert_eq!(path, "/System"),
        other => panic!("unexpected {:?}", other),
    }
    match ffi_error(CleanmacError::Cancelled) {
        FFIError::CleanFailed { message } => assert_eq!(message, "Operation cancelled by user"),
        other => panic!("unexpected {:?}", other),
    }
}
