//! The checks made before an item goes to the trash.
//!
//! Moving an item is file-system work that the caller does; this module
//! decides whether an item may be moved, and which path to hand to the
//! trash, so that no protected path ever reaches it.

use vstd::prelude::*;
use crate::error::CleanmacError;
use crate::path::Os;
use crate::safety::boundaries::{SafeBoundary, is_fs_error, oviews};
use crate::safety::protected_paths::{ProtectionEnv, is_protected, protected_spec};
use crate::safety::validator::{PathProbe, PathValidator, ValidationResult, ValidationView, dedup_paths, validate_spec};
use crate::text::{concat2, sviews};

verus! {

/// Trash mover that safely moves files to the system trash.
#[derive(Debug, Clone)]
pub struct TrashMover {
    /// Path validator for safety checks.
    pub validator: PathValidator,
}

/// What `move_to_trash` decides for `path`, given what resolving it gave:
/// `Ok` with the canonical path to hand to the trash, or the error.
pub open spec fn move_decision_ok(env: ProtectionEnv, path: Seq<char>, canonical: Result<String, String>) -> bool {
    let fallback = match canonical {
        Ok(c) => c@,
        Err(_) => path,
    };
    !protected_spec(env, path, fallback) && canonical is Ok && !protected_spec(
        env,
        canonical->Ok_0@,
        canonical->Ok_0@,
    )
}

/// `r` is what moving `path` to the trash after validating it against
/// `boundary` gives: a safe path is decided by `move_to_trash` on its
/// canonical form (not found when it has none); every other validation
/// result is the matching error.
pub open spec fn validated_outcome(
    v: PathValidator,
    path: Seq<char>,
    boundary: SafeBoundary,
    probe: PathProbe,
    r: Result<String, CleanmacError>,
) -> bool {
    match validate_spec(v, path, boundary, probe) {
        ValidationView::Safe => match probe.canonical {
            None => r matches Err(CleanmacError::PathNotFound { path: p }) && p@ == path,
            Some(c) => if protected_spec(v.env, path, c@) {
                r matches Err(CleanmacError::ProtectedPath { path: p }) && p@ == path
            } else if protected_spec(v.env, c@, c@) {
                r matches Err(CleanmacError::ProtectedPath { path: p }) && p@ == c@
            } else {
                r matches Ok(t) && t@ == c@
            },
        },
        ValidationView::HardProtected(_) => r matches Err(CleanmacError::ProtectedPath { path: p }) && p@ == path,
        ValidationView::BoundaryViolation(_) => r matches Err(CleanmacError::BoundaryEscape { path: p, resolved: q })
            && p@ == path && q@ == (match probe.canonical {
            Some(c) => c@,
            None => path,
        }),
        ValidationView::UserExcluded => r matches Err(CleanmacError::TrashFailed { path: p, reason: q }) && p@ == path
            && q@ == "Path is excluded by user configuration"@,
        ValidationView::NotFound => r matches Err(CleanmacError::PathNotFound { path: p }) && p@ == path,
        ValidationView::PermissionDenied => r matches Err(CleanmacError::PermissionDenied { path: p }) && p@ == path,
    }
}

impl TrashMover {
    /// Create a trash mover. `exclusion_canonicals` holds what resolving
    /// each configured exclusion gave.
    pub fn new(env: ProtectionEnv, exclusion_canonicals: Vec<Option<String>>) -> (r: Result<TrashMover, CleanmacError>)
        ensures
            r matches Ok(m) && m.validator.env == env && m.validator.wf() && sviews(m.validator.exclusions@)
                == dedup_paths(env.os, oviews(exclusion_canonicals@)),
    {
        let validator = PathValidator::new(env, exclusion_canonicals);
        Ok(TrashMover { validator })
    }

    /// Create a trash mover with no exclusions.
    pub fn default_mover(env: ProtectionEnv) -> (r: Result<TrashMover, CleanmacError>)
        ensures
            r matches Ok(m) && m.validator.env == env && m.validator.exclusions@.len() == 0 && m.validator.wf(),
    {
        let validator = PathValidator::default_validator(env);
        Ok(TrashMover { validator })
    }

    /// Decide whether `path` may go to the trash. `canonical` is what
    /// resolving `path` gave. The path is refused when it is protected (as
    /// written, or as resolved), and fails when it cannot be resolved; it
    /// is accepted otherwise, and `Ok` holds the canonical path to hand to
    /// the trash. The canonical path is checked as its own canonical form.
    pub fn move_to_trash(&self, path: &str, canonical: &Result<String, String>) -> (r: Result<String, CleanmacError>)
        ensures
            move_decision_ok(self.validator.env, path@, *canonical) ==> (r matches Ok(c) && c@ == canonical->Ok_0@),
            !move_decision_ok(self.validator.env, path@, *canonical) ==> r is Err,
            ({
                let fallback = match canonical {
                    Ok(c) => c@,
                    Err(_) => path@,
                };
                protected_spec(self.validator.env, path@, fallback) ==> (r matches Err(
                    CleanmacError::ProtectedPath { path: p },
                ) && p@ == path@)
            }),
            ({
                let fallback = match canonical {
                    Ok(c) => c@,
                    Err(_) => path@,
                };
                !protected_spec(self.validator.env, path@, fallback) ==> match canonical {
                    Err(e) => r is Err && is_fs_error(r->Err_0, path@, e@),
                    Ok(c) => protected_spec(self.validator.env, c@, c@) ==> (r matches Err(
                        CleanmacError::ProtectedPath { path: p },
                    ) && p@ == c@),
                }
            }),
    {
        let env = &self.validator.env;
        let fallback: &str = match canonical {
            Ok(c) => c.as_str(),
            Err(_) => path,
        };
        if is_protected(env, path, fallback) {
            return Err(CleanmacError::ProtectedPath { path: String::from_str(path) });
        }
        match canonical {
            Err(e) => Err(CleanmacError::Filesystem { path: String::from_str(path), source: e.clone() }),
            Ok(c) => {
                if is_protected(env, c.as_str(), c.as_str()) {
                    return Err(CleanmacError::ProtectedPath { path: c.clone() });
                }
                Ok(c.clone())
            },
        }
    }

    /// The error for an item the trash refused, with the trash's `reason`.
    pub fn trash_failed(path: &str, reason: &str) -> (r: CleanmacError)
        ensures
            r matches CleanmacError::TrashFailed { path: p, reason: q } && p@ == path@ && q@
                == "Failed to move to trash: "@ + reason@,
    {
        CleanmacError::TrashFailed {
            path: String::from_str(path),
            reason: concat2("Failed to move to trash: ", reason),
        }
    }

    /// Decide whether `path` may go to the trash after validating it against
    /// `boundary`: only a path found safe is then decided by
    /// `move_to_trash`; every other validation result is the matching error.
    pub fn move_to_trash_validated(&self, path: &str, boundary: &SafeBoundary, probe: &PathProbe) -> (r: Result<String, CleanmacError>)
        requires
            probe.root_canonicals.len() == boundary.roots.len(),
        ensures
            validated_outcome(self.validator, path@, *boundary, *probe, r),
            r is Ok ==> validate_spec(self.validator, path@, *boundary, *probe) is Safe
                && probe.canonical is Some && move_decision_ok(
                self.validator.env,
                path@,
                Ok(probe.canonical->0),
            ),
    {
        let result = self.validator.validate(path, boundary, probe);
        match result {
            ValidationResult::Safe => {
                match &probe.canonical {
                    Some(c) => self.move_to_trash(path, &Ok(c.clone())),
                    None => Err(CleanmacError::PathNotFound { path: String::from_str(path) }),
                }
            },
            ValidationResult::HardProtected { .. } => Err(
                CleanmacError::ProtectedPath { path: String::from_str(path) },
            ),
            ValidationResult::BoundaryViolation { .. } => {
                let resolved = match &probe.canonical {
                    Some(c) => c.clone(),
                    None => String::from_str(path),
                };
                Err(CleanmacError::BoundaryEscape { path: String::from_str(path), resolved })
            },
            ValidationResult::UserExcluded => Err(
                CleanmacError::TrashFailed {
                    path: String::from_str(path),
                    reason: String::from_str("Path is excluded by user configuration"),
                },
            ),
            ValidationResult::NotFound => Err(CleanmacError::PathNotFound { path: String::from_str(path) }),
            ValidationResult::PermissionDenied => Err(
                CleanmacError::PermissionDenied { path: String::from_str(path) },
            ),
        }
    }

    /// Whether the system trash is available on `os` (macOS, Linux and
    /// Windows).
    pub fn is_supported(os: Os) -> (r: bool)
        ensures
            r == (os == Os::MacOs || os == Os::Linux || os == Os::Windows),
    {
        match os {
            Os::MacOs | Os::Linux | Os::Windows => true,
            Os::Other => false,
        }
    }

    /// The path validator.
    pub fn validator(&self) -> (r: &PathValidator)
        ensures
            *r == self.validator,
    {
        &self.validator
    }
}

/// Nothing protected ever reaches the trash: when the mover accepts a path,
/// neither the path as written nor its canonical form is protected.
pub proof fn law_protected_paths_never_trashed(env: ProtectionEnv, path: Seq<char>, canonical: Result<String, String>)
    requires
        move_decision_ok(env, path, canonical),
    ensures
        canonical is Ok,
        !protected_spec(env, path, canonical->Ok_0@),
        !protected_spec(env, canonical->Ok_0@, canonical->Ok_0@),
{
}

/// A path that validation and the mover both accept is safe, and what goes
/// to the trash is its canonical form, which is not protected, nor is the
/// path as written.
pub proof fn law_validated_moves_are_safe(
    v: PathValidator,
    path: Seq<char>,
    boundary: SafeBoundary,
    probe: PathProbe,
    target: String,
)
    requires
        validated_outcome(v, path, boundary, probe, Ok(target)),
    ensures
        validate_spec(v, path, boundary, probe) is Safe,
        probe.canonical matches Some(c) && target@ == c@,
        !protected_spec(v.env, path, target@),
        !protected_spec(v.env, target@, target@),
{
}

} // verus!
