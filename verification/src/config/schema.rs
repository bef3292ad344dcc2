//! The configuration: its sections and their defaults.

use vstd::prelude::*;

verus! {

/// Main configuration structure.
#[derive(Debug, Clone)]
pub struct Config {
    /// General settings.
    pub general: GeneralConfig,
    /// Safety settings.
    pub safety: SafetyConfig,
    /// Terminal interface settings.
    pub tui: TuiConfig,
    /// Category-specific settings.
    pub categories: CategoryConfigs,
    /// Paths to always exclude from cleaning.
    pub exclusions: Vec<String>,
}

/// General application settings.
#[derive(Debug, Clone)]
pub struct GeneralConfig {
    /// Default to dry-run mode.
    pub dry_run_default: bool,
    /// Number of days to keep recent files (0: clean all).
    pub keep_recent_days: u32,
    /// Output format: `table`, `json` or `plain`.
    pub output_format: String,
    /// Enable colored output.
    pub color: bool,
    /// Verbosity level (0-3).
    pub verbosity: u8,
}

/// Safety-related settings.
#[derive(Debug, Clone)]
pub struct SafetyConfig {
    /// Size threshold for a warning, in bytes.
    pub warn_threshold: u64,
    /// Size threshold requiring the force flag, in bytes.
    pub force_threshold: u64,
    /// Always require confirmation before cleaning.
    pub always_confirm: bool,
    /// Additional protected paths (on top of the hardcoded ones).
    pub protected_paths: Vec<String>,
    /// Enable audit logging.
    pub audit_enabled: bool,
    /// Audit log retention in days.
    pub audit_retention_days: u32,
}

/// Terminal interface settings.
#[derive(Debug, Clone)]
pub struct TuiConfig {
    /// Hide zero-byte rows by default.
    pub hide_zero_byte_items: bool,
    /// Show a clean report when a clean operation completes.
    pub show_clean_report_on_complete: bool,
    /// Number of parallel scan workers (0: automatic).
    pub scan_parallelism: u8,
    /// Style used for confirm key hints.
    pub confirm_keys_hint_style: String,
}

/// Category-specific configurations.
#[derive(Debug, Clone)]
pub struct CategoryConfigs {
    pub system_cache: CategoryConfig,
    pub system_logs: CategoryConfig,
    pub trash: TrashConfig,
    pub xcode: XcodeConfig,
    pub homebrew: HomebrewConfig,
    pub npm: CategoryConfig,
    pub yarn: CategoryConfig,
    pub cargo: CargoConfig,
    pub pip: CategoryConfig,
    pub docker: DockerConfig,
    pub apps: AppsConfig,
}

/// Base category configuration.
#[derive(Debug, Clone)]
pub struct CategoryConfig {
    /// Enable this category.
    pub enabled: bool,
    /// Additional paths for this category.
    pub paths: Vec<String>,
    /// Paths to exclude within this category.
    pub exclude: Vec<String>,
    /// Patterns to exclude (glob).
    pub exclude_patterns: Vec<String>,
}

/// Trash-specific configuration.
#[derive(Debug, Clone)]
pub struct TrashConfig {
    pub base: CategoryConfig,
    /// Minimum age in days before items can be cleaned from the trash.
    pub min_age_days: u32,
}

/// Xcode-specific configuration.
#[derive(Debug, Clone)]
pub struct XcodeConfig {
    pub base: CategoryConfig,
    /// Keep archives newer than this many days.
    pub keep_recent_archives_days: u32,
    /// iOS versions to always keep.
    pub keep_ios_versions: Vec<String>,
}

/// Homebrew-specific configuration.
#[derive(Debug, Clone)]
pub struct HomebrewConfig {
    pub base: CategoryConfig,
    /// Number of old versions to keep per formula.
    pub keep_versions: u32,
}

/// Cargo-specific configuration.
#[derive(Debug, Clone)]
pub struct CargoConfig {
    pub base: CategoryConfig,
    /// Keep crates used in the last N days.
    pub keep_recent_days: u32,
}

/// Docker-specific configuration.
#[derive(Debug, Clone)]
pub struct DockerConfig {
    pub base: CategoryConfig,
    /// Only clean dangling images (vs all unused).
    pub dangling_only: bool,
    /// Clean unused volumes (they may contain data).
    pub clean_volumes: bool,
    /// Clean the build cache.
    pub clean_build_cache: bool,
}

/// Apps leftovers configuration.
#[derive(Debug, Clone)]
pub struct AppsConfig {
    pub base: CategoryConfig,
    /// Known app bundle identifiers to look for leftovers.
    pub known_apps: Vec<String>,
}

/// 10 GiB.
pub const DEFAULT_WARN_THRESHOLD: u64 = 10737418240;

/// 50 GiB.
pub const DEFAULT_FORCE_THRESHOLD: u64 = 53687091200;

impl CategoryConfig {
    pub open spec fn is_default(&self) -> bool {
        &&& self.enabled
        &&& self.paths@.len() == 0
        &&& self.exclude@.len() == 0
        &&& self.exclude_patterns@.len() == 0
    }
}

impl Default for CategoryConfig {
    /// Enabled, with no extra paths or exclusions.
    fn default() -> (r: Self)
        ensures
            r.is_default(),
    {
        CategoryConfig { enabled: true, paths: Vec::new(), exclude: Vec::new(), exclude_patterns: Vec::new() }
    }
}

impl Default for TrashConfig {
    fn default() -> (r: Self)
        ensures
            r.base.is_default(),
            r.min_age_days == 0,
    {
        TrashConfig { base: CategoryConfig::default(), min_age_days: 0 }
    }
}

impl Default for XcodeConfig {
    fn default() -> (r: Self)
        ensures
            r.base.is_default(),
            r.keep_recent_archives_days == 0,
            r.keep_ios_versions@.len() == 0,
    {
        XcodeConfig { base: CategoryConfig::default(), keep_recent_archives_days: 0, keep_ios_versions: Vec::new() }
    }
}

impl Default for HomebrewConfig {
    fn default() -> (r: Self)
        ensures
            r.base.is_default(),
            r.keep_versions == 0,
    {
        HomebrewConfig { base: CategoryConfig::default(), keep_versions: 0 }
    }
}

impl Default for CargoConfig {
    fn default() -> (r: Self)
        ensures
            r.base.is_default(),
            r.keep_recent_days == 0,
    {
        CargoConfig { base: CategoryConfig::default(), keep_recent_days: 0 }
    }
}

impl Default for DockerConfig {
    /// Dangling images only, no volumes, the build cache.
    fn default() -> (r: Self)
        ensures
            r.base.is_default(),
            r.dangling_only,
            !r.clean_volumes,
            r.clean_build_cache,
    {
        DockerConfig { base: CategoryConfig::default(), dangling_only: true, clean_volumes: false, clean_build_cache: true }
    }
}

impl Default for AppsConfig {
    fn default() -> (r: Self)
        ensures
            r.base.is_default(),
            r.known_apps@.len() == 0,
    {
        AppsConfig { base: CategoryConfig::default(), known_apps: Vec::new() }
    }
}

impl CategoryConfigs {
    /// Every category enabled, with its own defaults.
    pub open spec fn is_default(&self) -> bool {
        &&& self.system_cache.is_default()
        &&& self.system_logs.is_default()
        &&& self.trash.base.is_default() && self.trash.min_age_days == 0
        &&& self.xcode.base.is_default() && self.xcode.keep_recent_archives_days == 0
            && self.xcode.keep_ios_versions@.len() == 0
        &&& self.homebrew.base.is_default() && self.homebrew.keep_versions == 0
        &&& self.npm.is_default()
        &&& self.yarn.is_default()
        &&& self.cargo.base.is_default() && self.cargo.keep_recent_days == 0
        &&& self.pip.is_default()
        &&& self.docker.base.is_default() && self.docker.dangling_only && !self.docker.clean_volumes
            && self.docker.clean_build_cache
        &&& self.apps.base.is_default() && self.apps.known_apps@.len() == 0
    }
}

impl Default for CategoryConfigs {
    fn default() -> (r: Self)
        ensures
            r.is_default(),
    {
        CategoryConfigs {
            system_cache: CategoryConfig::default(),
            system_logs: CategoryConfig::default(),
            trash: TrashConfig::default(),
            xcode: XcodeConfig::default(),
            homebrew: HomebrewConfig::default(),
            npm: CategoryConfig::default(),
            yarn: CategoryConfig::default(),
            cargo: CargoConfig::default(),
            pip: CategoryConfig::default(),
            docker: DockerConfig::default(),
            apps: AppsConfig::default(),
        }
    }
}

impl Default for GeneralConfig {
    /// Dry run, nothing kept by age, table output in color, normal verbosity.
    fn default() -> (r: Self)
        ensures
            r.dry_run_default,
            r.keep_recent_days == 0,
            r.output_format@ == "table"@,
            r.color,
            r.verbosity == 1,
    {
        GeneralConfig {
            dry_run_default: true,
            keep_recent_days: 0,
            output_format: String::from_str("table"),
            color: true,
            verbosity: 1,
        }
    }
}

impl Default for SafetyConfig {
    /// Warn above 10 GiB, require force above 50 GiB, always confirm, audit
    /// for 90 days.
    fn default() -> (r: Self)
        ensures
            r.warn_threshold == DEFAULT_WARN_THRESHOLD,
            r.force_threshold == DEFAULT_FORCE_THRESHOLD,
            r.always_confirm,
            r.protected_paths@.len() == 0,
            r.audit_enabled,
            r.audit_retention_days == 90,
    {
        SafetyConfig {
            warn_threshold: DEFAULT_WARN_THRESHOLD,
            force_threshold: DEFAULT_FORCE_THRESHOLD,
            always_confirm: true,
            protected_paths: Vec::new(),
            audit_enabled: true,
            audit_retention_days: 90,
        }
    }
}

impl Default for TuiConfig {
    fn default() -> (r: Self)
        ensures
            r.hide_zero_byte_items,
            r.show_clean_report_on_complete,
            r.scan_parallelism == 0,
            r.confirm_keys_hint_style@ == "explicit"@,
    {
        TuiConfig {
            hide_zero_byte_items: true,
            show_clean_report_on_complete: true,
            scan_parallelism: 0,
            confirm_keys_hint_style: String::from_str("explicit"),
        }
    }
}

impl Default for Config {
    fn default() -> (r: Self)
        ensures
            r.general.dry_run_default,
            r.general.keep_recent_days == 0,
            r.safety.warn_threshold == DEFAULT_WARN_THRESHOLD,
            r.safety.force_threshold == DEFAULT_FORCE_THRESHOLD,
            r.safety.always_confirm,
            r.safety.audit_enabled,
            r.safety.audit_retention_days == 90,
            r.categories.is_default(),
            r.exclusions@.len() == 0,
    {
        Config {
            general: GeneralConfig::default(),
            safety: SafetyConfig::default(),
            tui: TuiConfig::default(),
            categories: CategoryConfigs::default(),
            exclusions: Vec::new(),
        }
    }
}

} // verus!
