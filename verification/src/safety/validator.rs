//! Path validation: protected paths, boundary escapes, symlink chains and
//! user exclusions.
//!
//! Validation is a decision over facts about a path that the caller gathers
//! from the file system (`PathProbe`). Following a chain of symlinks is a
//! walk that alternates between asking the file system and deciding; the
//! deciding part is `SymlinkWalk`.

use vstd::prelude::*;
use crate::error::CleanmacError;
use crate::path::{Os, is_sep, is_sep_exec, join, join_path, normal_components, normal_components_exec, same_path, path_starts_with};
use crate::safety::boundaries::{SafeBoundary, boundary_text, oviews, within};
use crate::safety::protected_paths::{
    ProtectionEnv, get_protected_paths, get_protection_reason, in_path_list, in_path_list_exec,
    is_protected, protected_paths_spec, protected_spec, protection_reason_spec, under_some,
    under_some_exec,
};
use crate::text::{chars_of, concat2, concat3, decimal, string_of_range, sviews, u64_to_decimal};

verus! {

/// Result of path validation.
#[derive(Debug, Clone, PartialEq, Eq)]
pub enum ValidationResult {
    /// Path is safe to clean.
    Safe,
    /// Path is protected and cannot be cleaned under any circumstances.
    HardProtected { reason: String },
    /// Path is excluded by user configuration.
    UserExcluded,
    /// Path escapes safe boundaries (symlink escape, etc.).
    BoundaryViolation { reason: String },
    /// Path doesn't exist.
    NotFound,
    /// Permission denied.
    PermissionDenied,
}

/// A validation result with its texts as sequences.
pub enum ValidationView {
    Safe,
    HardProtected(Seq<char>),
    UserExcluded,
    BoundaryViolation(Seq<char>),
    NotFound,
    PermissionDenied,
}

impl View for ValidationResult {
    type V = ValidationView;

    open spec fn view(&self) -> ValidationView {
        match self {
            ValidationResult::Safe => ValidationView::Safe,
            ValidationResult::HardProtected { reason } => ValidationView::HardProtected(reason@),
            ValidationResult::UserExcluded => ValidationView::UserExcluded,
            ValidationResult::BoundaryViolation { reason } => ValidationView::BoundaryViolation(reason@),
            ValidationResult::NotFound => ValidationView::NotFound,
            ValidationResult::PermissionDenied => ValidationView::PermissionDenied,
        }
    }
}

/// What the file system says about a path under validation.
#[derive(Debug, Clone)]
pub struct PathProbe {
    /// The path exists.
    pub exists: bool,
    /// The path resolved to its canonical form (`None`: resolution failed).
    pub canonical: Option<String>,
    /// Reading the path's metadata failed for lack of permission.
    pub permission_denied: bool,
    /// The canonical form resolved once more (`None`: resolution failed).
    pub recanonical: Option<String>,
    /// Each boundary root resolved (`None` where a root does not exist).
    pub root_canonicals: Vec<Option<String>>,
    /// The path is itself a symlink.
    pub is_symlink: bool,
    /// What following the path's symlink chain found wrong, if anything
    /// (see `SymlinkWalk`).
    pub symlink_problem: Option<String>,
}

/// Path validator with configurable exclusions.
#[derive(Debug, Clone)]
pub struct PathValidator {
    /// Where the validator runs: the operating system and home directory.
    pub env: ProtectionEnv,
    /// Canonical forms of the user-configured exclusions, each path once.
    pub exclusions: Vec<String>,
    /// The protected paths of the environment.
    pub protected_paths: Vec<String>,
}

/// No two entries name the same path.
pub open spec fn distinct_paths(os: Os, l: Seq<Seq<char>>) -> bool {
    forall|i: int, j: int| 0 <= i < j < l.len() ==> !same_path(os, #[trigger] l[i], #[trigger] l[j])
}

/// The resolved exclusions, each path kept once, in first-seen order.
pub open spec fn dedup_paths(os: Os, l: Seq<Option<Seq<char>>>) -> Seq<Seq<char>>
    decreases l.len(),
{
    if l.len() == 0 {
        seq![]
    } else {
        let d = dedup_paths(os, l.drop_last());
        match l.last() {
            Some(p) => if in_path_list(os, p, d) { d } else { d.push(p) },
            None => d,
        }
    }
}

impl PathValidator {
    pub open spec fn wf(&self) -> bool {
        distinct_paths(self.env.os, sviews(self.exclusions@))
    }

    /// Create a validator. `exclusion_canonicals` holds what resolving each
    /// configured exclusion gave; those that could not be resolved are left
    /// out, and each path is kept once.
    pub fn new(env: ProtectionEnv, exclusion_canonicals: Vec<Option<String>>) -> (r: PathValidator)
        ensures
            r.wf(),
            r.env == env,
            sviews(r.exclusions@) == dedup_paths(env.os, oviews(exclusion_canonicals@)),
            sviews(r.protected_paths@) == protected_paths_spec(env),
    {
        let os = env.os;
        let mut ex: Vec<String> = Vec::new();
        let mut i: usize = 0;
        while i < exclusion_canonicals.len()
            invariant
                i <= exclusion_canonicals.len(),
                sviews(ex@) == dedup_paths(os, oviews(exclusion_canonicals@.take(i as int))),
                distinct_paths(os, sviews(ex@)),
            decreases exclusion_canonicals.len() - i,
        {
            proof {
                assert(oviews(exclusion_canonicals@.take(i + 1)).drop_last() =~= oviews(
                    exclusion_canonicals@.take(i as int),
                ));
            }
            match &exclusion_canonicals[i] {
                Some(p) => {
                    if !in_path_list_exec(os, p.as_str(), &ex) {
                        let ghost old = sviews(ex@);
                        ex.push(p.clone());
                        proof {
                            assert(sviews(ex@) =~= old.push(p@));
                            assert forall|a: int, b: int| 0 <= a < b < sviews(ex@).len() implies !same_path(
                                os,
                                #[trigger] sviews(ex@)[a],
                                #[trigger] sviews(ex@)[b],
                            ) by {
                                if b == old.len() {
                                    assert(sviews(ex@)[a] == old[a]);
                                    if same_path(os, sviews(ex@)[a], sviews(ex@)[b]) {
                                        assert(same_path(os, p@, old[a]));
                                    }
                                } else {
                                    assert(sviews(ex@)[a] == old[a]);
                                    assert(sviews(ex@)[b] == old[b]);
                                }
                            }
                        }
                    }
                },
                None => {},
            }
            i = i + 1;
        }
        assert(exclusion_canonicals@.take(exclusion_canonicals.len() as int) =~= exclusion_canonicals@);
        let protected_paths = get_protected_paths(&env);
        PathValidator { env, exclusions: ex, protected_paths }
    }

    /// A validator with no extra exclusions.
    pub fn default_validator(env: ProtectionEnv) -> (r: PathValidator)
        ensures
            r.wf(),
            r.env == env,
            r.exclusions@.len() == 0,
            sviews(r.protected_paths@) == protected_paths_spec(env),
    {
        let none: Vec<Option<String>> = Vec::new();
        assert(oviews(none@) =~= Seq::<Option<Seq<char>>>::empty());
        let r = PathValidator::new(env, none);
        assert(sviews(r.exclusions@).len() == r.exclusions@.len());
        r
    }

    /// Quick check whether a path is protected (without full validation);
    /// `canonical` is the path resolved, or the path itself when it cannot
    /// be resolved.
    pub fn is_protected(&self, path: &str, canonical: &str) -> (r: bool)
        ensures
            r == protected_spec(self.env, path@, canonical@),
    {
        is_protected(&self.env, path, canonical)
    }

    /// The canonical path is one of the exclusions or lies under one.
    pub fn is_user_excluded(&self, canonical: &str) -> (r: bool)
        ensures
            r == under_some(self.env.os, canonical@, sviews(self.exclusions@)),
    {
        under_some_exec(self.env.os, canonical, &self.exclusions)
    }

    /// Validate a path against protected paths, the boundary, its symlink
    /// chain and the exclusions, in that order, from what `probe` found.
    pub fn validate(&self, path: &str, boundary: &SafeBoundary, probe: &PathProbe) -> (r: ValidationResult)
        requires
            probe.root_canonicals.len() == boundary.roots.len(),
        ensures
            r@ == validate_spec(*self, path@, *boundary, *probe),
    {
        if !probe.exists {
            return ValidationResult::NotFound;
        }
        let c = match &probe.canonical {
            Some(c) => c,
            None => {
                if probe.permission_denied {
                    return ValidationResult::PermissionDenied;
                }
                return ValidationResult::NotFound;
            },
        };
        let rc: &String = match &probe.recanonical {
            Some(x) => x,
            None => c,
        };
        match get_protection_reason(&self.env, c.as_str(), rc.as_str()) {
            Some(reason) => {
                return ValidationResult::HardProtected { reason };
            },
            None => {},
        }
        let inside = boundary.contains(
            self.env.os,
            c.as_str(),
            &match &probe.recanonical {
                Some(x) => Ok(x.clone()),
                None => Err(String::new()),
            },
            &probe.root_canonicals,
        );
        match inside {
            Ok(true) => {},
            Ok(false) => {
                let mut reason = concat3("Path '", path, "' resolves to '");
                reason.append(c.as_str());
                reason.append("' which is outside boundary: ");
                let b = boundary.to_string();
                reason.append(b.as_str());
                return ValidationResult::BoundaryViolation { reason };
            },
            Err(_) => {
                let reason = concat3("Cannot verify path '", path, "' is within boundary");
                return ValidationResult::BoundaryViolation { reason };
            },
        }
        if probe.is_symlink {
            match &probe.symlink_problem {
                Some(reason) => {
                    return ValidationResult::BoundaryViolation { reason: reason.clone() };
                },
                None => {},
            }
        }
        if self.is_user_excluded(c.as_str()) {
            return ValidationResult::UserExcluded;
        }
        ValidationResult::Safe
    }
}

/// What `validate` decides.
pub open spec fn validate_spec(v: PathValidator, path: Seq<char>, boundary: SafeBoundary, probe: PathProbe) -> ValidationView {
    let os = v.env.os;
    if !probe.exists {
        ValidationView::NotFound
    } else {
        match probe.canonical {
            None => if probe.permission_denied {
                ValidationView::PermissionDenied
            } else {
                ValidationView::NotFound
            },
            Some(c) => {
                let rc = match probe.recanonical {
                    Some(x) => x@,
                    None => c@,
                };
                if protected_spec(v.env, c@, rc) {
                    ValidationView::HardProtected("'"@ + c@ + "' is protected"@)
                } else {
                    match probe.recanonical {
                        None => ValidationView::BoundaryViolation(
                            "Cannot verify path '"@ + path + "' is within boundary"@,
                        ),
                        Some(x) => if !within(os, x@, oviews(probe.root_canonicals@), boundary.max_depth) {
                            ValidationView::BoundaryViolation(
                                "Path '"@ + path + "' resolves to '"@ + c@ + "' which is outside boundary: "@
                                    + boundary_text(boundary),
                            )
                        } else if probe.is_symlink && probe.symlink_problem is Some {
                            ValidationView::BoundaryViolation(probe.symlink_problem->0@)
                        } else if under_some(os, c@, sviews(v.exclusions@)) {
                            ValidationView::UserExcluded
                        } else {
                            ValidationView::Safe
                        },
                    }
                }
            },
        }
    }
}

/// A path found safe exists, is not protected, lies inside the boundary, has
/// a sound symlink chain and is not excluded; a protected path is never
/// found safe.
pub proof fn law_safe_paths_pass_every_check(
    v: PathValidator,
    path: Seq<char>,
    boundary: SafeBoundary,
    probe: PathProbe,
)
    requires
        validate_spec(v, path, boundary, probe) is Safe,
    ensures
        probe.exists,
        probe.canonical is Some,
        probe.recanonical is Some,
        !protected_spec(v.env, probe.canonical->0@, probe.recanonical->0@),
        within(v.env.os, probe.recanonical->0@, oviews(probe.root_canonicals@), boundary.max_depth),
        probe.is_symlink ==> probe.symlink_problem is None,
        !under_some(v.env.os, probe.canonical->0@, sviews(v.exclusions@)),
{
}

/// A path whose canonical form is protected is refused as protected,
/// whatever the boundary, its symlinks or the exclusions say.
pub proof fn law_protected_paths_are_refused(
    v: PathValidator,
    path: Seq<char>,
    boundary: SafeBoundary,
    probe: PathProbe,
)
    requires
        probe.exists,
        probe.canonical is Some,
        protected_spec(
            v.env,
            probe.canonical->0@,
            match probe.recanonical {
                Some(x) => x@,
                None => probe.canonical->0@,
            },
        ),
    ensures
        validate_spec(v, path, boundary, probe) is HardProtected,
{
}

impl ValidationResult {
    /// Convert to a `Result`: `Safe` becomes `Ok(())`, every other result
    /// the matching error for `path` (an excluded path the trash failure
    /// that says so). `resolved` is the path resolved, or the path itself
    /// when it cannot be resolved.
    pub fn into_result(self, path: &str, resolved: &str) -> (r: Result<(), CleanmacError>)
        ensures
            match self {
                ValidationResult::Safe => r is Ok,
                ValidationResult::UserExcluded => r matches Err(CleanmacError::TrashFailed { path: p, reason: q })
                    && p@ == path@ && q@ == "Path is excluded by user configuration"@,
                ValidationResult::HardProtected { .. } => r matches Err(CleanmacError::ProtectedPath { path: p })
                    && p@ == path@,
                ValidationResult::BoundaryViolation { .. } => r matches Err(
                    CleanmacError::BoundaryEscape { path: p, resolved: q },
                ) && p@ == path@ && q@ == resolved@,
                ValidationResult::NotFound => r matches Err(CleanmacError::PathNotFound { path: p }) && p@
                    == path@,
                ValidationResult::PermissionDenied => r matches Err(CleanmacError::PermissionDenied { path: p })
                    && p@ == path@,
            },
    {
        match self {
            ValidationResult::Safe => Ok(()),
            ValidationResult::HardProtected { .. } => Err(
                CleanmacError::ProtectedPath { path: String::from_str(path) },
            ),
            ValidationResult::UserExcluded => Err(
                CleanmacError::TrashFailed {
                    path: String::from_str(path),
                    reason: String::from_str("Path is excluded by user configuration"),
                },
            ),
            ValidationResult::BoundaryViolation { .. } => Err(
                CleanmacError::BoundaryEscape {
                    path: String::from_str(path),
                    resolved: String::from_str(resolved),
                },
            ),
            ValidationResult::NotFound => Err(CleanmacError::PathNotFound { path: String::from_str(path) }),
            ValidationResult::PermissionDenied => Err(
                CleanmacError::PermissionDenied { path: String::from_str(path) },
            ),
        }
    }

    /// The path should be skipped without an error.
    pub fn should_skip(&self) -> (r: bool)
        ensures
            r == (self is UserExcluded || self is NotFound),
    {
        match self {
            ValidationResult::UserExcluded | ValidationResult::NotFound => true,
            _ => false,
        }
    }

    /// The result is a blocking error.
    pub fn is_error(&self) -> (r: bool)
        ensures
            r == (self is HardProtected || self is BoundaryViolation || self is PermissionDenied),
    {
        match self {
            ValidationResult::HardProtected { .. }
            | ValidationResult::BoundaryViolation { .. }
            | ValidationResult::PermissionDenied => true,
            _ => false,
        }
    }
}

/// A result is at most one of: safe, to skip, an error; and every result is
/// one of the three.
pub proof fn law_results_partition(r: ValidationResult)
    ensures
        (r is Safe) || (r is UserExcluded || r is NotFound) || (r is HardProtected || r is BoundaryViolation
            || r is PermissionDenied),
        !((r is UserExcluded || r is NotFound) && (r is HardProtected || r is BoundaryViolation
            || r is PermissionDenied)),
{
}

} // verus!
