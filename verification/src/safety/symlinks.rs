//! Following a chain of symlinks, to find loops and chains that are too
//! long.
//!
//! The walk alternates between the file system (is the current path a
//! symlink, and where does it point) and a decision. `SymlinkWalk` holds the
//! state of the walk and makes the decisions; the caller asks the file system
//! about `current` and hands the answers to `step`, until the walk finishes.

use vstd::prelude::*;
use crate::path::{Os, join, join_path, lemma_parent_len, oview, parent_of, parent_of_exec, same_path};
use crate::safety::protected_paths::{in_path_list, in_path_list_exec};
use crate::safety::validator::distinct_paths;
use crate::text::{concat2, concat3, sviews};

verus! {

/// Most links a chain may have before it counts as too deep.
pub const MAX_SYMLINK_DEPTH: usize = 40;

/// The state of a walk along a symlink chain.
#[derive(Debug, Clone)]
pub struct SymlinkWalk {
    pub os: Os,
    /// The path the walk started from.
    pub origin: String,
    /// The path to look at next.
    pub current: String,
    /// The links followed so far, each path once.
    pub visited: Vec<String>,
}

/// What a step of the walk decided.
#[derive(Debug, Clone, PartialEq, Eq)]
pub enum WalkStep {
    /// The walk is over: `None` when the chain is sound, or what is wrong.
    Finished(Option<String>),
    /// Look at the new `current` path next.
    Continue,
}

/// The path a link at `current` pointing to `target` leads to: the target
/// itself when it is absolute, else the target relative to the link's
/// directory (`/` when the link has none).
pub open spec fn link_destination(os: Os, current: Seq<char>, target: Seq<char>) -> Seq<char> {
    let dir = match parent_of(os, current) {
        Some(d) => d,
        None => seq!['/'],
    };
    join(os, dir, target)
}

pub open spec fn too_deep_text(origin: Seq<char>) -> Seq<char> {
    "Symlink chain too deep (>40 levels): '"@ + origin + "'"@
}

pub open spec fn loop_text(origin: Seq<char>, current: Seq<char>) -> Seq<char> {
    "Symlink loop detected: '"@ + origin + "' revisits '"@ + current + "'"@
}

pub open spec fn unreadable_text(e: Seq<char>) -> Seq<char> {
    "Cannot read symlink: "@ + e
}

impl SymlinkWalk {
    pub open spec fn wf(&self) -> bool {
        &&& self.visited@.len() <= MAX_SYMLINK_DEPTH
        &&& distinct_paths(self.os, sviews(self.visited@))
        &&& self.current@.len() < 0x7fff_ffff_ffff_ffff
    }

    /// Start a walk at `path`.
    pub fn start(os: Os, path: &str) -> (r: SymlinkWalk)
        requires
            path@.len() < 0x7fff_ffff_ffff_ffff,
        ensures
            r.wf(),
            r.os == os,
            r.origin@ == path@,
            r.current@ == path@,
            r.visited@.len() == 0,
    {
        SymlinkWalk {
            os,
            origin: String::from_str(path),
            current: String::from_str(path),
            visited: Vec::new(),
        }
    }

    /// Decide on the current path. `is_symlink` says whether it is a
    /// symlink and `target` what reading the link gave (its target, or the
    /// text of the error). The answers are not used when the chain is
    /// already too deep, and `target` is not used when the path is no
    /// symlink or was seen before.
    pub fn step(&mut self, is_symlink: bool, target: &Result<String, String>) -> (r: WalkStep)
        requires
            old(self).wf(),
            match target {
                Ok(t) => t@.len() < 0x3fff_ffff_ffff_ffff,
                Err(_) => true,
            },
            old(self).current@.len() < 0x3fff_ffff_ffff_ffff,
        ensures
            final(self).os == old(self).os,
            final(self).origin == old(self).origin,
            old(self).visited@.len() >= MAX_SYMLINK_DEPTH ==> (r matches WalkStep::Finished(Some(m))
                && m@ == too_deep_text(old(self).origin@) && *final(self) == *old(self)),
            old(self).visited@.len() < MAX_SYMLINK_DEPTH && !is_symlink ==> r == WalkStep::Finished(None)
                && *final(self) == *old(self),
            old(self).visited@.len() < MAX_SYMLINK_DEPTH && is_symlink && in_path_list(
                old(self).os,
                old(self).current@,
                sviews(old(self).visited@),
            ) ==> (r matches WalkStep::Finished(Some(m)) && m@ == loop_text(
                old(self).origin@,
                old(self).current@,
            ) && *final(self) == *old(self)),
            old(self).visited@.len() < MAX_SYMLINK_DEPTH && is_symlink && !in_path_list(
                old(self).os,
                old(self).current@,
                sviews(old(self).visited@),
            ) ==> {
                &&& sviews(final(self).visited@) == sviews(old(self).visited@).push(old(self).current@)
                &&& match target {
                    Err(e) => r matches WalkStep::Finished(Some(m)) && m@ == unreadable_text(e@),
                    Ok(t) => r == WalkStep::Continue && final(self).current@ == link_destination(
                        old(self).os,
                        old(self).current@,
                        t@,
                    ),
                }
            },
            r == WalkStep::Continue ==> final(self).wf() && final(self).visited@.len() == old(
                self,
            ).visited@.len() + 1,
    {
        if self.visited.len() >= MAX_SYMLINK_DEPTH {
            return WalkStep::Finished(Some(concat3("Symlink chain too deep (>40 levels): '", self.origin.as_str(), "'")));
        }
        if !is_symlink {
            return WalkStep::Finished(None);
        }
        if in_path_list_exec(self.os, self.current.as_str(), &self.visited) {
            let mut m = concat3("Symlink loop detected: '", self.origin.as_str(), "' revisits '");
            m.append(self.current.as_str());
            m.append("'");
            return WalkStep::Finished(Some(m));
        }
        let ghost old_visited = sviews(self.visited@);
        let os = self.os;
        let cur = self.current.clone();
        self.visited.push(cur);
        proof {
            assert(sviews(self.visited@) =~= old_visited.push(self.current@));
            assert forall|a: int, b: int| 0 <= a < b < sviews(self.visited@).len() implies !same_path(
                os,
                #[trigger] sviews(self.visited@)[a],
                #[trigger] sviews(self.visited@)[b],
            ) by {
                assert(sviews(self.visited@)[a] == old_visited[a]);
                if b < old_visited.len() {
                    assert(sviews(self.visited@)[b] == old_visited[b]);
                }
            }
        }
        match target {
            Err(e) => WalkStep::Finished(Some(concat2("Cannot read symlink: ", e.as_str()))),
            Ok(t) => {
                let dir = match parent_of_exec(os, self.current.as_str()) {
                    Some(d) => d,
                    None => String::from_str("/"),
                };
                proof {
                    reveal_strlit("/");
                    assert("/"@ =~= seq!['/']);
                    lemma_parent_len(os, self.current@);
                }
                let next = join_path(os, dir.as_str(), t.as_str());
                self.current = next;
                WalkStep::Continue
            },
        }
    }
}

} // verus!
