//! Hardcoded protected paths that are never touched.
//!
//! These locations cannot be overridden by any configuration. Protection
//! depends on the operating system and on the user's home directory; both are
//! held in a `ProtectionEnv`.

use vstd::prelude::*;
use crate::path::{
    Os, file_name, file_name_chars, is_sep, join, join_path, oview, path_starts_with,
    components, proper_ancestor_named, proper_ancestor_named_exec, same_path, same_path_exec,
    starts_with_path,
};
use crate::text::{
    chars_of, concat3, ends_with, eq_ignore_ascii_case, eq_ignore_case, chars_eq, lviews,
    strings_of, sviews,
};

verus! {

/// What protection depends on: the operating system, the user's home
/// directory, and (on Windows) the system locations named by environment
/// variables (`%WINDIR%`, `%WINDIR%\System32`, `%WINDIR%\SysWOW64`,
/// `%ProgramFiles%`, `%ProgramFiles(x86)%`, `%ProgramData%`).
#[derive(Debug, Clone)]
pub struct ProtectionEnv {
    pub os: Os,
    pub home: Option<String>,
    pub extra_system_paths: Vec<String>,
}

/// Absolute system paths that are never touched (the directories themselves).
pub open spec fn system_path_lits(os: Os) -> Seq<&'static str> {
    match os {
        Os::MacOs => seq![
            "/", "/System", "/Library", "/Applications", "/Users", "/bin", "/sbin", "/usr",
            "/var", "/etc", "/tmp", "/private", "/cores", "/opt", "/Volumes", "/dev",
            "/Network", "/net",
        ],
        Os::Linux => seq![
            "/", "/bin", "/sbin", "/usr", "/var", "/etc", "/tmp", "/opt", "/dev", "/proc",
            "/sys", "/boot", "/lib", "/lib64", "/root", "/home", "/mnt", "/media", "/run",
            "/srv",
        ],
        Os::Windows => seq![
            "C:\\Windows", "C:\\Windows\\System32", "C:\\Windows\\SysWOW64", "C:\\Program Files",
            "C:\\Program Files (x86)", "C:\\Users", "C:\\ProgramData",
        ],
        Os::Other => seq!["/"],
    }
}

/// Paths relative to the home directory under which nothing is touched.
pub open spec fn user_path_lits(os: Os) -> Seq<&'static str> {
    let common = seq!["Desktop", "Documents", "Downloads", ".ssh", ".gnupg", ".aws", ".kube", ".docker/certs.d"];
    match os {
        Os::MacOs => common + seq![
            "Movies", "Music", "Pictures", "Public", "Library/Keychains", "Library/Mail",
            "Library/Messages", "Library/Safari", "Library/Calendars", "Library/Contacts",
            "Library/Notes", "Library/Reminders", "Library/HomeKit", "Library/Accounts",
            "Library/IdentityServices", "Library/Passwords",
            "Library/Application Support/MobileSync",
            "Library/Preferences/com.apple.security.plist",
        ],
        Os::Linux => common + seq![
            "Music", "Pictures", "Videos", "Public", ".local/share/keyrings", ".mozilla",
            ".thunderbird", ".config/chromium", ".config/google-chrome", ".pki",
        ],
        Os::Windows => common + seq![
            "Music", "Pictures", "Videos", "AppData\\Roaming\\Microsoft\\Credentials",
            "AppData\\Roaming\\Microsoft\\Protect", "AppData\\Local\\Microsoft\\Credentials",
            "AppData\\Roaming\\Microsoft\\SystemCertificates",
        ],
        Os::Other => common,
    }
}

/// File-name suffixes that are never touched (the `*.ext` patterns).
pub open spec fn suffix_pattern_lits(os: Os) -> Seq<&'static str> {
    let common = seq![".keychain", ".keychain-db", ".p12", ".pfx", ".cer", ".pem", ".key"];
    if os == Os::MacOs {
        common + seq![".mobileprovision"]
    } else {
        common
    }
}

/// File names that are never touched (compared without case on Windows).
pub open spec fn exact_pattern_lits(os: Os) -> Seq<&'static str> {
    match os {
        Os::MacOs => seq![".git", ".DS_Store", ".localized"],
        Os::Windows => seq![".git", "desktop.ini", "thumbs.db", "Thumbs.db"],
        _ => seq![".git"],
    }
}

/// Paths protected as themselves but not their contents.
pub open spec fn exact_only_lits(os: Os) -> Seq<&'static str> {
    match os {
        Os::MacOs => seq!["/", "/Users"],
        Os::Linux => seq!["/", "/home"],
        Os::Windows => seq!["C:\\Users"],
        Os::Other => seq!["/"],
    }
}

pub open spec fn system_paths(env: ProtectionEnv) -> Seq<Seq<char>> {
    lviews(system_path_lits(env.os)) + sviews(env.extra_system_paths@)
}

pub open spec fn exact_only_paths(env: ProtectionEnv) -> Seq<Seq<char>> {
    match env.home {
        Some(h) => lviews(exact_only_lits(env.os)).push(h@),
        None => lviews(exact_only_lits(env.os)),
    }
}

/// The protected user trees: the home directory joined with each user path.
pub open spec fn protected_trees(os: Os, home: Seq<char>) -> Seq<Seq<char>> {
    lviews(user_path_lits(os)).map_values(|u: Seq<char>| join(os, home, u))
}

pub open spec fn in_path_list(os: Os, p: Seq<char>, l: Seq<Seq<char>>) -> bool {
    exists|i: int| 0 <= i < l.len() && same_path(os, p, #[trigger] l[i])
}

pub open spec fn under_some(os: Os, p: Seq<char>, l: Seq<Seq<char>>) -> bool {
    exists|i: int| 0 <= i < l.len() && path_starts_with(os, p, #[trigger] l[i])
}

pub open spec fn name_matches_exact(os: Os, f: Seq<char>, p: Seq<char>) -> bool {
    if os == Os::Windows {
        eq_ignore_ascii_case(f, p)
    } else {
        f == p
    }
}

/// The file name matches a protected pattern.
pub open spec fn name_matches_pattern(os: Os, f: Seq<char>) -> bool {
    ||| exists|i: int| 0 <= i < suffix_pattern_lits(os).len()
        && (#[trigger] suffix_pattern_lits(os)[i])@.is_suffix_of(f)
    ||| exists|i: int| 0 <= i < exact_pattern_lits(os).len()
        && name_matches_exact(os, f, (#[trigger] exact_pattern_lits(os)[i])@)
}

/// What `matches_protected_pattern` decides: the file name matches a
/// protected pattern, or some proper ancestor is a `.git` directory.
pub open spec fn matches_pattern_spec(os: Os, p: Seq<char>) -> bool {
    match file_name(os, p) {
        None => false,
        Some(f) => name_matches_pattern(os, f) || proper_ancestor_named(os, p, ".git"@),
    }
}

/// What `is_protected` decides for a path and its canonical form.
pub open spec fn protected_spec(env: ProtectionEnv, written: Seq<char>, canonical: Seq<char>) -> bool {
    let os = env.os;
    if matches_pattern_spec(os, written) || matches_pattern_spec(os, canonical) {
        true
    } else if in_path_list(os, written, exact_only_paths(env)) || in_path_list(
        os,
        canonical,
        exact_only_paths(env),
    ) {
        true
    } else {
        ||| in_path_list(os, written, system_paths(env))
        ||| in_path_list(os, canonical, system_paths(env))
        ||| match env.home {
            None => false,
            Some(h) => under_some(os, canonical, protected_trees(os, h@)),
        }
    }
}

/// What `get_protected_paths` lists.
pub open spec fn protected_paths_spec(env: ProtectionEnv) -> Seq<Seq<char>> {
    match env.home {
        Some(h) => system_paths(env).push(h@) + protected_trees(env.os, h@),
        None => system_paths(env),
    }
}

fn system_path_list(os: Os) -> (v: Vec<&'static str>)
    ensures
        v@ == system_path_lits(os),
{
    let v = match os {
        Os::MacOs => vec![
            "/", "/System", "/Library", "/Applications", "/Users", "/bin", "/sbin", "/usr",
            "/var", "/etc", "/tmp", "/private", "/cores", "/opt", "/Volumes", "/dev",
            "/Network", "/net",
        ],
        Os::Linux => vec![
            "/", "/bin", "/sbin", "/usr", "/var", "/etc", "/tmp", "/opt", "/dev", "/proc",
            "/sys", "/boot", "/lib", "/lib64", "/root", "/home", "/mnt", "/media", "/run",
            "/srv",
        ],
        Os::Windows => vec![
            "C:\\Windows", "C:\\Windows\\System32", "C:\\Windows\\SysWOW64", "C:\\Program Files",
            "C:\\Program Files (x86)", "C:\\Users", "C:\\ProgramData",
        ],
        Os::Other => vec!["/"],
    };
    assert(v@ =~= system_path_lits(os));
    v
}

fn user_path_list(os: Os) -> (v: Vec<&'static str>)
    ensures
        v@ == user_path_lits(os),
{
    let v = match os {
        Os::MacOs => vec![
            "Desktop", "Documents", "Downloads", ".ssh", ".gnupg", ".aws", ".kube",
            ".docker/certs.d", "Movies", "Music", "Pictures", "Public", "Library/Keychains",
            "Library/Mail", "Library/Messages", "Library/Safari", "Library/Calendars",
            "Library/Contacts", "Library/Notes", "Library/Reminders", "Library/HomeKit",
            "Library/Accounts", "Library/IdentityServices", "Library/Passwords",
            "Library/Application Support/MobileSync",
            "Library/Preferences/com.apple.security.plist",
        ],
        Os::Linux => vec![
            "Desktop", "Documents", "Downloads", ".ssh", ".gnupg", ".aws", ".kube",
            ".docker/certs.d", "Music", "Pictures", "Videos", "Public", ".local/share/keyrings",
            ".mozilla", ".thunderbird", ".config/chromium", ".config/google-chrome", ".pki",
        ],
        Os::Windows => vec![
            "Desktop", "Documents", "Downloads", ".ssh", ".gnupg", ".aws", ".kube",
            ".docker/certs.d", "Music", "Pictures", "Videos",
            "AppData\\Roaming\\Microsoft\\Credentials", "AppData\\Roaming\\Microsoft\\Protect",
            "AppData\\Local\\Microsoft\\Credentials",
            "AppData\\Roaming\\Microsoft\\SystemCertificates",
        ],
        Os::Other => vec![
            "Desktop", "Documents", "Downloads", ".ssh", ".gnupg", ".aws", ".kube",
            ".docker/certs.d",
        ],
    };
    assert(v@ =~= user_path_lits(os));
    v
}

fn suffix_pattern_list(os: Os) -> (v: Vec<&'static str>)
    ensures
        v@ == suffix_pattern_lits(os),
{
    let v = if os == Os::MacOs {
        vec![".keychain", ".keychain-db", ".p12", ".pfx", ".cer", ".pem", ".key", ".mobileprovision"]
    } else {
        vec![".keychain", ".keychain-db", ".p12", ".pfx", ".cer", ".pem", ".key"]
    };
    assert(v@ =~= suffix_pattern_lits(os));
    v
}

fn exact_pattern_list(os: Os) -> (v: Vec<&'static str>)
    ensures
        v@ == exact_pattern_lits(os),
{
    let v = match os {
        Os::MacOs => vec![".git", ".DS_Store", ".localized"],
        Os::Windows => vec![".git", "desktop.ini", "thumbs.db", "Thumbs.db"],
        _ => vec![".git"],
    };
    assert(v@ =~= exact_pattern_lits(os));
    v
}

fn exact_only_list(os: Os) -> (v: Vec<&'static str>)
    ensures
        v@ == exact_only_lits(os),
{
    let v = match os {
        Os::MacOs => vec!["/", "/Users"],
        Os::Linux => vec!["/", "/home"],
        Os::Windows => vec!["C:\\Users"],
        Os::Other => vec!["/"],
    };
    assert(v@ =~= exact_only_lits(os));
    v
}

/// Whether `p` equals (as a path) some path of `l`.
pub fn in_path_list_exec(os: Os, p: &str, l: &Vec<String>) -> (r: bool)
    ensures
        r == in_path_list(os, p@, sviews(l@)),
{
    let mut i: usize = 0;
    while i < l.len()
        invariant
            i <= l.len(),
            forall|j: int| 0 <= j < i ==> !same_path(os, p@, #[trigger] sviews(l@)[j]),
        decreases l.len() - i,
    {
        if same_path_exec(os, p, l[i].as_str()) {
            assert(same_path(os, p@, sviews(l@)[i as int]));
            return true;
        }
        i = i + 1;
    }
    false
}

/// Whether `p` lies under (starts with) some path of `l`.
pub fn under_some_exec(os: Os, p: &str, l: &Vec<String>) -> (r: bool)
    ensures
        r == under_some(os, p@, sviews(l@)),
{
    let mut i: usize = 0;
    while i < l.len()
        invariant
            i <= l.len(),
            forall|j: int| 0 <= j < i ==> !path_starts_with(os, p@, #[trigger] sviews(l@)[j]),
        decreases l.len() - i,
    {
        if starts_with_path(os, p, l[i].as_str()) {
            assert(path_starts_with(os, p@, sviews(l@)[i as int]));
            return true;
        }
        i = i + 1;
    }
    false
}

/// The protected user trees of a home directory.
pub fn protected_tree_list(os: Os, home: &str) -> (r: Vec<String>)
    ensures
        sviews(r@) == protected_trees(os, home@),
{
    let users = user_path_list(os);
    let mut r: Vec<String> = Vec::new();
    let mut i: usize = 0;
    while i < users.len()
        invariant
            i <= users.len(),
            users@ == user_path_lits(os),
            sviews(r@) == protected_trees(os, home@).take(i as int),
        decreases users.len() - i,
    {
        let ghost old_r = r@;
        let t = join_path(os, home, users[i]);
        r.push(t);
        i = i + 1;
        proof {
            let tr = protected_trees(os, home@);
            assert(lviews(user_path_lits(os))[i - 1] == users@[i - 1]@);
            assert(tr[i - 1] == join(os, home@, users@[i - 1]@));
            assert(sviews(r@) =~= sviews(old_r).push(tr[i - 1]));
            assert(tr.take(i as int) =~= tr.take(i - 1).push(tr[i - 1]));
        }
    }
    assert(protected_trees(os, home@).take(users.len() as int) =~= protected_trees(os, home@));
    r
}

/// The system paths of an environment.
pub fn system_path_strings(env: &ProtectionEnv) -> (r: Vec<String>)
    ensures
        sviews(r@) == system_paths(*env),
{
    let mut r = strings_of(&system_path_list(env.os));
    let mut extra = env.extra_system_paths.clone();
    let ghost r0 = r@;
    let ghost e0 = extra@;
    r.append(&mut extra);
    assert(sviews(r@) =~= sviews(r0) + sviews(e0));
    r
}

fn exact_only_strings(env: &ProtectionEnv) -> (r: Vec<String>)
    ensures
        sviews(r@) == exact_only_paths(*env),
{
    let mut r = strings_of(&exact_only_list(env.os));
    match &env.home {
        Some(h) => {
            let ghost r0 = r@;
            r.push(h.clone());
            assert(sviews(r@) =~= sviews(r0).push(h@));
        },
        None => {},
    }
    r
}

fn name_matches_pattern_exec(os: Os, f: &Vec<char>) -> (r: bool)
    ensures
        r == name_matches_pattern(os, f@),
{
    let suffixes = suffix_pattern_list(os);
    let mut i: usize = 0;
    while i < suffixes.len()
        invariant
            i <= suffixes.len(),
            suffixes@ == suffix_pattern_lits(os),
            forall|j: int| 0 <= j < i ==> !(#[trigger] suffix_pattern_lits(os)[j])@.is_suffix_of(f@),
        decreases suffixes.len() - i,
    {
        if ends_with(f, &chars_of(suffixes[i])) {
            assert(suffix_pattern_lits(os)[i as int]@.is_suffix_of(f@));
            return true;
        }
        i = i + 1;
    }
    let exacts = exact_pattern_list(os);
    let mut k: usize = 0;
    while k < exacts.len()
        invariant
            k <= exacts.len(),
            exacts@ == exact_pattern_lits(os),
            forall|j: int| 0 <= j < k ==> !name_matches_exact(os, f@, (#[trigger] exact_pattern_lits(os)[j])@),
        decreases exacts.len() - k,
    {
        let pc = chars_of(exacts[k]);
        let m = if os == Os::Windows { eq_ignore_case(f, &pc) } else { chars_eq(f, &pc) };
        if m {
            assert(name_matches_exact(os, f@, exact_pattern_lits(os)[k as int]@));
            return true;
        }
        k = k + 1;
    }
    false
}

/// Check whether a path matches a protected file pattern (`*.keychain`,
/// `*.p12`, `.git`, ...) or lies inside a `.git` directory.
pub fn matches_protected_pattern(os: Os, path: &str) -> (r: bool)
    ensures
        r == matches_pattern_spec(os, path@),
{
    let p = chars_of(path);
    match file_name_chars(os, &p) {
        None => false,
        Some(f) => {
            if name_matches_pattern_exec(os, &f) {
                return true;
            }
            let git = chars_of(".git");
            proper_ancestor_named_exec(os, &p, &git)
        },
    }
}

/// Check whether a path is protected, given the path as written and its
/// canonical form (the path itself when it cannot be resolved).
///
/// A path is protected when it matches a protected pattern, is one of the
/// exact-only locations (`/`, the users' directory, the home directory), lies
/// under a protected user tree, or is a protected system directory.
pub fn is_protected(env: &ProtectionEnv, path: &str, canonical: &str) -> (r: bool)
    ensures
        r == protected_spec(*env, path@, canonical@),
{
    let os = env.os;
    if matches_protected_pattern(os, path) || matches_protected_pattern(os, canonical) {
        return true;
    }
    let exact = exact_only_strings(env);
    if in_path_list_exec(os, path, &exact) || in_path_list_exec(os, canonical, &exact) {
        return true;
    }
    let sys = system_path_strings(env);
    if in_path_list_exec(os, path, &sys) || in_path_list_exec(os, canonical, &sys) {
        return true;
    }
    match &env.home {
        None => false,
        Some(h) => {
            let trees = protected_tree_list(os, h.as_str());
            under_some_exec(os, canonical, &trees)
        },
    }
}

/// All protected paths of an environment: the system paths, then the home
/// directory and the protected user trees under it.
pub fn get_protected_paths(env: &ProtectionEnv) -> (r: Vec<String>)
    ensures
        sviews(r@) == protected_paths_spec(*env),
{
    let mut r = system_path_strings(env);
    match &env.home {
        Some(h) => {
            let ghost r0 = r@;
            r.push(h.clone());
            let mut trees = protected_tree_list(env.os, h.as_str());
            let ghost r1 = r@;
            let ghost t0 = trees@;
            r.append(&mut trees);
            assert(sviews(r1) =~= sviews(r0).push(h@));
            assert(sviews(r@) =~= sviews(r1) + sviews(t0));
        },
        None => {},
    }
    r
}

pub open spec fn protection_reason_spec(env: ProtectionEnv, path: Seq<char>, canonical: Seq<char>) -> Option<Seq<char>> {
    if protected_spec(env, path, canonical) {
        Some("'"@ + path + "' is protected"@)
    } else {
        None
    }
}

/// A human-readable reason why a path is protected, or `None` when it is not.
pub fn get_protection_reason(env: &ProtectionEnv, path: &str, canonical: &str) -> (r: Option<String>)
    ensures
        oview(r) == protection_reason_spec(*env, path@, canonical@),
{
    if is_protected(env, path, canonical) {
        Some(concat3("'", path, "' is protected"))
    } else {
        None
    }
}

/// Every hardcoded system directory (and every system location of the
/// environment) is protected, in every environment, whether or not a home
/// directory is known: a path that is one of them, as written or as
/// resolved, is protected.
pub proof fn law_system_paths_protected(env: ProtectionEnv, written: Seq<char>, canonical: Seq<char>)
    requires
        in_path_list(env.os, written, system_paths(env)) || in_path_list(env.os, canonical, system_paths(env)),
    ensures
        protected_spec(env, written, canonical),
{
}

/// Everything under a protected user tree (Documents, Desktop, .ssh, ...) is
/// protected, whatever it is called.
pub proof fn law_user_trees_protected(env: ProtectionEnv, written: Seq<char>, canonical: Seq<char>, i: int)
    requires
        env.home is Some,
        0 <= i < protected_trees(env.os, env.home->0@).len(),
        path_starts_with(env.os, canonical, protected_trees(env.os, env.home->0@)[i]),
    ensures
        protected_spec(env, written, canonical),
{
    let os = env.os;
    let trees = protected_trees(os, env.home->0@);
    assert(under_some(os, canonical, trees));
}

/// A path whose file name matches a protected pattern is protected.
pub proof fn law_patterns_protected(env: ProtectionEnv, written: Seq<char>, canonical: Seq<char>)
    requires
        matches_pattern_spec(env.os, written) || matches_pattern_spec(env.os, canonical),
    ensures
        protected_spec(env, written, canonical),
{
}

/// The home directory itself and the root directory are protected.
pub proof fn law_home_and_root_protected(env: ProtectionEnv, canonical: Seq<char>)
    requires
        env.home is Some,
        same_path(env.os, canonical, env.home->0@),
    ensures
        protected_spec(env, canonical, canonical),
{
    let l = exact_only_paths(env);
    assert(l[l.len() - 1] == env.home->0@);
    assert(same_path(env.os, canonical, l[l.len() - 1]));
}

/// Every path that `get_protected_paths` lists is protected, whether or not
/// a home directory is known.
pub proof fn law_listed_paths_protected(env: ProtectionEnv, i: int)
    requires
        0 <= i < protected_paths_spec(env).len(),
    ensures
        protected_spec(env, protected_paths_spec(env)[i], protected_paths_spec(env)[i]),
{
    let os = env.os;
    let s = system_paths(env);
    let p = protected_paths_spec(env)[i];
    if i < s.len() {
        assert(p == s[i]);
        assert(same_path(os, p, s[i]));
        law_system_paths_protected(env, p, p);
    } else {
        let h = env.home->0@;
        if i == s.len() {
            assert(p == h);
            law_home_and_root_protected(env, p);
        } else {
            let t = protected_trees(os, h);
            let k = i - s.len() - 1;
            assert(p == t[k]);
            assert(components(os, p).is_prefix_of(components(os, p))) by {
                assert(components(os, p).subrange(0, components(os, p).len() as int) =~= components(os, p));
            }
            law_user_trees_protected(env, p, p, k);
        }
    }
}

/// Added system locations only add protection: a path protected in an
/// environment stays protected when more locations are listed.
pub proof fn law_extra_locations_only_add(env: ProtectionEnv, more: ProtectionEnv, written: Seq<char>, canonical: Seq<char>)
    requires
        more.os == env.os,
        more.home == env.home,
        sviews(env.extra_system_paths@).is_prefix_of(sviews(more.extra_system_paths@)),
        protected_spec(env, written, canonical),
    ensures
        protected_spec(more, written, canonical),
{
    let os = env.os;
    let a = system_paths(env);
    let b = system_paths(more);
    assert(exact_only_paths(more) == exact_only_paths(env));
    assert forall|i: int| 0 <= i < a.len() implies b[i] == a[i] by {
        let base = lviews(system_path_lits(os));
        if i >= base.len() {
            assert(a[i] == sviews(env.extra_system_paths@)[i - base.len()]);
            assert(b[i] == sviews(more.extra_system_paths@)[i - base.len()]);
        }
    }
    assert(a.len() <= b.len());
    if in_path_list(os, written, a) {
        let i = choose|i: int| 0 <= i < a.len() && same_path(os, written, #[trigger] a[i]);
        assert(same_path(os, written, b[i]));
    }
    if in_path_list(os, canonical, a) {
        let i = choose|i: int| 0 <= i < a.len() && same_path(os, canonical, #[trigger] a[i]);
        assert(same_path(os, canonical, b[i]));
    }
}

} // verus!
