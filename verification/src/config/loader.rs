//! The configuration file: its default text, validation, and paths.

use vstd::prelude::*;
use crate::config::schema::Config;
use crate::error::CleanmacError;
use crate::path::{Os, is_sep, is_sep_exec, join, join_path};
use crate::text::{chars_of, string_of_range};

verus! {

/// The default configuration file, with comments.
pub const DEFAULT_CONFIG_TOML: &'static str = r#"# Crystal Clear Configuration File
# Location: ~/.config/crystal-clear/config.toml

[general]
# Default to dry-run mode (shows what would be cleaned without actually cleaning)
dry_run_default = true

# Keep files newer than this many days (0 = clean all regardless of age)
keep_recent_days = 0

# Output format: "table", "json", or "plain"
output_format = "table"

# Enable colored output
color = true

# Verbosity level (0 = quiet, 1 = normal, 2 = verbose, 3 = debug)
verbosity = 1

[safety]
# Show warning when cleaning more than this many bytes (10GB)
warn_threshold = 10737418240

# Require --force flag when cleaning more than this many bytes (50GB)
force_threshold = 53687091200

# Always ask for confirmation before cleaning
always_confirm = true

# Enable audit logging (records all cleaning operations)
audit_enabled = true

# Keep audit logs for this many days
audit_retention_days = 90

# Additional paths to protect (on top of hardcoded system paths)
# protected_paths = [
#     "~/Projects",
#     "~/Work",
# ]

# Global exclusions (these paths will never be cleaned)
# exclusions = [
#     "~/Library/Caches/important-app",
# ]

[categories.system_cache]
enabled = true
# exclude = ["~/Library/Caches/com.apple.Safari"]

[categories.system_logs]
enabled = true

[categories.trash]
enabled = true
# Only clean items older than this many days
min_age_days = 0

[categories.xcode]
enabled = true
# Keep archives newer than this many days
keep_recent_archives_days = 0
# iOS versions to always keep (e.g., ["17.0", "17.1"])
keep_ios_versions = []

[categories.homebrew]
enabled = true
# Number of old versions to keep per formula
keep_versions = 0

[categories.npm]
enabled = true

[categories.yarn]
enabled = true

[categories.cargo]
enabled = true
# Keep crates used in the last N days
keep_recent_days = 0

[categories.pip]
enabled = true

[categories.docker]
enabled = true
# Only clean dangling images (safer)
dangling_only = true
# Clean unused volumes (CAUTION: may contain important data!)
clean_volumes = false
# Clean build cache
clean_build_cache = true

[categories.apps]
enabled = true
# Known uninstalled app bundle IDs to look for leftovers
# known_apps = ["com.example.uninstalled-app"]
"#;

/// The default configuration file content, with comments.
pub fn generate_default_config_toml() -> (r: String)
    ensures
        r@ == DEFAULT_CONFIG_TOML@,
{
    String::from_str(DEFAULT_CONFIG_TOML)
}

/// Validate the configuration. Paths that do not exist only draw warnings,
/// so a configuration is always accepted.
pub fn validate_config(config: &Config) -> (r: Result<(), CleanmacError>)
    ensures
        r is Ok,
{
    Ok(())
}

/// The part of `path` after a leading `~` component, when it has one:
/// the text after the `~` and the separators that follow it.
pub open spec fn after_tilde(os: Os, path: Seq<char>) -> Option<Seq<char>> {
    if path.len() > 0 && path[0] == '~' && (path.len() == 1 || is_sep(os, path[1])) {
        Some(path.skip(1 + seps_at(os, path.skip(1)) as int))
    } else {
        None
    }
}

/// Number of separators at the start of `s`.
pub open spec fn seps_at(os: Os, s: Seq<char>) -> nat
    decreases s.len(),
{
    if s.len() > 0 && is_sep(os, s[0]) { 1 + seps_at(os, s.skip(1)) } else { 0 }
}

/// `~` at the start of a path expanded to the home directory: the home
/// directory joined with the rest of the path; a path without a leading `~`
/// component, or with no known home directory, stays as it is.
pub open spec fn expand_tilde_spec(os: Os, path: Seq<char>, home: Option<Seq<char>>) -> Seq<char> {
    match (after_tilde(os, path), home) {
        (Some(rest), Some(h)) => join(os, h, rest),
        _ => path,
    }
}

/// Expand `~` at the start of `path` to `home`.
pub fn expand_tilde(os: Os, path: &str, home: &Option<String>) -> (r: String)
    ensures
        r@ == expand_tilde_spec(os, path@, crate::path::oview(*home)),
{
    let v = chars_of(path);
    if v.len() > 0 && v[0] == '~' && (v.len() == 1 || is_sep_exec(os, v[1])) {
        match home {
            Some(h) => {
                let mut k: usize = 1;
                while k < v.len() && is_sep_exec(os, v[k])
                    invariant
                        1 <= k <= v@.len(),
                        seps_at(os, v@.skip(1)) == (k - 1) + seps_at(os, v@.skip(k as int)),
                    decreases v@.len() - k,
                {
                    proof {
                        assert(v@.skip(k as int).skip(1) =~= v@.skip(k + 1));
                    }
                    k = k + 1;
                }
                let rest = string_of_range(&v, k, v.len());
                proof {
                    assert(v@.subrange(k as int, v@.len() as int) =~= v@.skip(k as int));
                    assert(seps_at(os, v@.skip(k as int)) == 0);
                }
                join_path(os, h.as_str(), rest.as_str())
            },
            None => String::from_str(path),
        }
    } else {
        String::from_str(path)
    }
}

/// Where the configuration file lives: `crystal-clear/config.toml` in the
/// configuration directory, or in `.config` of the home directory, or in
/// `/tmp/.config`.
pub open spec fn config_path_spec(os: Os, config_dir: Option<Seq<char>>, home: Option<Seq<char>>) -> Seq<char> {
    let base = match config_dir {
        Some(c) => c,
        None => match home {
            Some(h) => join(os, h, ".config"@),
            None => "/tmp/.config"@,
        },
    };
    join(os, join(os, base, "crystal-clear"@), "config.toml"@)
}

/// The configuration file's path from the configuration and home
/// directories.
pub fn config_path_in(os: Os, config_dir: &Option<String>, home: &Option<String>) -> (r: String)
    ensures
        r@ == config_path_spec(os, crate::path::oview(*config_dir), crate::path::oview(*home)),
{
    let base = match config_dir {
        Some(c) => c.clone(),
        None => match home {
            Some(h) => join_path(os, h.as_str(), ".config"),
            None => String::from_str("/tmp/.config"),
        },
    };
    let dir = join_path(os, base.as_str(), "crystal-clear");
    join_path(os, dir.as_str(), "config.toml")
}

} // verus!
