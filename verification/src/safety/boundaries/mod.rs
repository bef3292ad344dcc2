//! Safe boundaries of cleaners.
//!
//! Each cleaner works within a boundary: a set of root directories, with an
//! optional limit on how deep below a root it may reach. A path is inside the
//! boundary when its resolved (canonical) form lies under the resolved form
//! of a root. Resolving paths is the caller's part: it hands in what each
//! resolution gave.

use vstd::prelude::*;
use crate::error::CleanmacError;
use crate::path::{Os, components, components_exec, oview, path_starts_with, starts_with_path};
use crate::text::{chars_of, concat2, join_strings, join_with, sviews, u64_to_decimal, decimal};

pub mod presets;

verus! {

/// Defines the safe boundary within which a cleaner can operate.
#[derive(Debug, Clone)]
pub struct SafeBoundary {
    /// The root paths that define the boundary.
    pub roots: Vec<String>,
    /// Maximum depth below a root (`None`: unlimited).
    pub max_depth: Option<usize>,
    /// Human-readable description for error messages.
    pub description: String,
}

/// Views of optional strings.
pub open spec fn oviews(v: Seq<Option<String>>) -> Seq<Option<Seq<char>>> {
    v.map_values(|o: Option<String>| oview(o))
}

/// Number of components of `p` below `root`.
pub open spec fn depth_below(os: Os, p: Seq<char>, root: Seq<char>) -> int {
    components(os, p).len() - components(os, root).len()
}

pub open spec fn depth_ok(os: Os, p: Seq<char>, root: Seq<char>, max_depth: Option<usize>) -> bool {
    match max_depth {
        Some(m) => depth_below(os, p, root) <= m,
        None => true,
    }
}

/// The answer for the resolved path `p`, looking at the resolved roots from
/// index `i` on: the first root that `p` lies under decides, by the depth
/// limit; roots that could not be resolved are skipped.
pub open spec fn within_from(
    os: Os,
    p: Seq<char>,
    roots: Seq<Option<Seq<char>>>,
    max_depth: Option<usize>,
    i: int,
) -> bool
    decreases roots.len() - i,
{
    if 0 <= i < roots.len() {
        match roots[i] {
            Some(r) => if path_starts_with(os, p, r) {
                depth_ok(os, p, r, max_depth)
            } else {
                within_from(os, p, roots, max_depth, i + 1)
            },
            None => within_from(os, p, roots, max_depth, i + 1),
        }
    } else {
        false
    }
}

/// The resolved path `p` lies inside a boundary whose resolved roots are
/// `roots`.
pub open spec fn within(os: Os, p: Seq<char>, roots: Seq<Option<Seq<char>>>, max_depth: Option<usize>) -> bool {
    within_from(os, p, roots, max_depth, 0)
}

/// `result` is the file-system error raised for `path` with the text `source`.
pub open spec fn is_fs_error(e: CleanmacError, path: Seq<char>, source: Seq<char>) -> bool {
    e matches CleanmacError::Filesystem { path: p, source: s } && p@ == path && s@ == source
}

/// Text of a boundary: its description, its roots in brackets, and its depth
/// limit if it has one.
pub open spec fn boundary_text(b: SafeBoundary) -> Seq<char> {
    let base = b.description@ + " ["@ + join_with(sviews(b.roots@), ", "@) + "]"@;
    match b.max_depth {
        Some(d) => base + " (max depth: "@ + decimal(d as nat) + ")"@,
        None => base,
    }
}

impl SafeBoundary {
    /// Create a new safe boundary with the given roots and no depth limit.
    pub fn new(roots: Vec<String>, description: &str) -> (r: SafeBoundary)
        ensures
            r.roots@ == roots@,
            r.max_depth is None,
            r.description@ == description@,
    {
        SafeBoundary { roots, max_depth: None, description: String::from_str(description) }
    }

    /// Set a maximum depth limit for this boundary.
    pub fn with_max_depth(self, depth: usize) -> (r: SafeBoundary)
        ensures
            r.roots@ == self.roots@,
            r.max_depth == Some(depth),
            r.description@ == self.description@,
    {
        SafeBoundary { roots: self.roots, max_depth: Some(depth), description: self.description }
    }

    /// The root paths of this boundary.
    pub fn roots(&self) -> (r: &Vec<String>)
        ensures
            r@ == self.roots@,
    {
        &self.roots
    }

    /// Whether `path` is within the boundary. `canonical` is what resolving
    /// `path` gave (its text, or the text of the error), and
    /// `root_canonicals[i]` what resolving the `i`-th root gave (`None`
    /// where that root does not exist).
    ///
    /// `Err` when `path` could not be resolved; otherwise `Ok(true)` when
    /// the first resolved root that the resolved path lies under is within
    /// the depth limit, and `Ok(false)` when there is none or it is too deep.
    pub fn contains(
        &self,
        os: Os,
        path: &str,
        canonical: &Result<String, String>,
        root_canonicals: &Vec<Option<String>>,
    ) -> (r: Result<bool, CleanmacError>)
        requires
            root_canonicals.len() == self.roots.len(),
        ensures
            match canonical {
                Err(e) => r is Err && is_fs_error(r->Err_0, path@, e@),
                Ok(c) => r == Ok::<bool, CleanmacError>(within(os, c@, oviews(root_canonicals@), self.max_depth)),
            },
    {
        match canonical {
            Err(e) => Err(CleanmacError::Filesystem { path: String::from_str(path), source: e.clone() }),
            Ok(c) => Ok(Self::within_resolved(os, c.as_str(), root_canonicals, self.max_depth)),
        }
    }

    fn within_resolved(os: Os, c: &str, roots: &Vec<Option<String>>, max_depth: Option<usize>) -> (r: bool)
        ensures
            r == within(os, c@, oviews(roots@), max_depth),
    {
        let ghost rv = oviews(roots@);
        let mut i: usize = 0;
        while i < roots.len()
            invariant
                i <= roots.len(),
                rv == oviews(roots@),
                within(os, c@, rv, max_depth) == within_from(os, c@, rv, max_depth, i as int),
            decreases roots.len() - i,
        {
            match &roots[i] {
                Some(root) => {
                    assert(rv[i as int] == Some(root@));
                    if starts_with_path(os, c, root.as_str()) {
                        match max_depth {
                            Some(m) => {
                                let pc = components_exec(os, &chars_of(c));
                                let rc = components_exec(os, &chars_of(root.as_str()));
                                assert(pc@.len() == components(os, c@).len());
                                assert(rc@.len() == components(os, root@).len());
                                assert(rc@.len() <= pc@.len()) by {
                                    assert(components(os, root@).is_prefix_of(components(os, c@)));
                                }
                                return pc.len() - rc.len() <= m;
                            },
                            None => {
                                return true;
                            },
                        }
                    }
                },
                None => {},
            }
            i = i + 1;
        }
        false
    }

    /// Validate that `path` is within bounds: `Err` with a file-system error
    /// when it could not be resolved, `Err(BoundaryEscape)` when it lies
    /// outside, `Ok` otherwise.
    pub fn validate(
        &self,
        os: Os,
        path: &str,
        canonical: &Result<String, String>,
        root_canonicals: &Vec<Option<String>>,
    ) -> (r: Result<(), CleanmacError>)
        requires
            root_canonicals.len() == self.roots.len(),
        ensures
            match canonical {
                Err(e) => r is Err && is_fs_error(r->Err_0, path@, e@),
                Ok(c) => if within(os, c@, oviews(root_canonicals@), self.max_depth) {
                    r is Ok
                } else {
                    r matches Err(CleanmacError::BoundaryEscape { path: p, resolved: q })
                        && p@ == path@ && q@ == c@
                },
            },
    {
        match self.contains(os, path, canonical, root_canonicals) {
            Err(e) => Err(e),
            Ok(true) => Ok(()),
            Ok(false) => {
                let c = match canonical {
                    Ok(c) => c.clone(),
                    Err(e) => e.clone(),
                };
                Err(CleanmacError::BoundaryEscape { path: String::from_str(path), resolved: c })
            },
        }
    }

    /// The boundary as text: `description [root, root] (max depth: n)`.
    pub fn to_string(&self) -> (r: String)
        ensures
            r@ == boundary_text(*self),
    {
        let mut r = concat2(self.description.as_str(), " [");
        let roots = join_strings(&self.roots, ", ");
        r.append(roots.as_str());
        r.append("]");
        match self.max_depth {
            Some(d) => {
                r.append(" (max depth: ");
                let n = u64_to_decimal(d as u64);
                r.append(n.as_str());
                r.append(")");
            },
            None => {},
        }
        r
    }
}

/// A path inside a boundary lies under one of its resolved roots, no deeper
/// than the depth limit allows.
pub proof fn law_contained_paths_lie_under_a_root(
    os: Os,
    p: Seq<char>,
    roots: Seq<Option<Seq<char>>>,
    max_depth: Option<usize>,
)
    requires
        within(os, p, roots, max_depth),
    ensures
        exists|i: int|
            0 <= i < roots.len() && #[trigger] roots[i] is Some && path_starts_with(os, p, roots[i]->0)
                && depth_ok(os, p, roots[i]->0, max_depth),
{
    lemma_within_from_sound(os, p, roots, max_depth, 0);
}

proof fn lemma_within_from_sound(
    os: Os,
    p: Seq<char>,
    roots: Seq<Option<Seq<char>>>,
    max_depth: Option<usize>,
    i: int,
)
    requires
        within_from(os, p, roots, max_depth, i),
    ensures
        exists|k: int|
            i <= k < roots.len() && #[trigger] roots[k] is Some && path_starts_with(os, p, roots[k]->0)
                && depth_ok(os, p, roots[k]->0, max_depth),
    decreases roots.len() - i,
{
    match roots[i] {
        Some(r) => {
            if !path_starts_with(os, p, r) {
                lemma_within_from_sound(os, p, roots, max_depth, i + 1);
            }
        },
        None => {
            lemma_within_from_sound(os, p, roots, max_depth, i + 1);
        },
    }
}

/// A boundary whose first root resolves holds that root itself, whatever
/// its depth limit.
pub proof fn law_first_root_is_inside(os: Os, roots: Seq<Option<Seq<char>>>, max_depth: Option<usize>)
    requires
        roots.len() > 0,
        roots[0] is Some,
    ensures
        within(os, roots[0]->0, roots, max_depth),
{
    let r = roots[0]->0;
    assert(components(os, r).is_prefix_of(components(os, r)));
}

} // verus!
