//! Installed applications: their bundles, bundle identifiers, the leftovers
//! they leave behind, and the list ranked by size.

use vstd::prelude::*;
use crate::ffi::types::FFIInstalledApp;
use crate::order::{is_stable_desc_order, stable_desc_order};
use crate::path::{Os, extension, extension_of, join, join_path};
use crate::text::{
    chars_of, contains_seq, find_from, find_str, lviews, str_contains, string_of_range, sviews, to_lowercase,
    unicode_lowercase, clone_strings,
};

verus! {

/// Information about an installed application.
#[derive(Debug, Clone)]
pub struct InstalledApp {
    /// Name of the application.
    pub name: String,
    /// Path to the `.app` bundle.
    pub path: String,
    /// Size of the bundle in bytes.
    pub size: u64,
    /// Bundle identifier (e.g. `com.apple.Safari`).
    pub bundle_id: Option<String>,
    /// Paths to leftover files in `~/Library`.
    pub leftovers: Vec<String>,
    /// Total size of the leftovers.
    pub leftover_size: u64,
}

/// A path is an application bundle: its extension is `app`.
pub fn is_app_bundle(os: Os, path: &str) -> (r: bool)
    requires
        path@.len() < 0x7fff_ffff_ffff_ffff,
    ensures
        r == (extension(os, path@) == Some("app"@)),
{
    match extension_of(os, path) {
        Some(e) => crate::text::str_eq(e.as_str(), "app"),
        None => false,
    }
}

pub open spec fn plist_key() -> Seq<char> {
    "<key>CFBundleIdentifier</key>"@
}

/// The bundle identifier an `Info.plist` holds: the text between the first
/// `<string>` after the `CFBundleIdentifier` key and the `</string>` that
/// follows it.
pub open spec fn bundle_id_spec(content: Seq<char>) -> Option<Seq<char>> {
    let pos = find_from(content, plist_key(), 0);
    if pos < 0 {
        None
    } else {
        let after = content.skip(pos);
        let st = find_from(after, "<string>"@, 0);
        if st < 0 {
            None
        } else {
            let vs = st + 8;
            let e = find_from(after.skip(vs), "</string>"@, 0);
            if e < 0 { None } else { Some(after.subrange(vs, vs + e)) }
        }
    }
}

proof fn lemma_find_bounds(s: Seq<char>, p: Seq<char>, i: int)
    ensures
        find_from(s, p, i) >= 0 ==> i <= find_from(s, p, i) && find_from(s, p, i) + p.len() <= s.len(),
    decreases s.len() + 1 - i,
{
    if 0 <= i <= s.len() && !crate::text::occurs_at(s, p, i) {
        lemma_find_bounds(s, p, i + 1);
    }
}

/// The bundle identifier in the content of an `Info.plist`.
pub fn bundle_id_from_plist(content: &str) -> (r: Option<String>)
    ensures
        crate::path::oview(r) == bundle_id_spec(content@),
{
    proof {
        reveal_strlit("<string>");
    }
    let c = chars_of(content);
    let key = chars_of("<key>CFBundleIdentifier</key>");
    let pos = match find_str(&c, &key) {
        Some(p) => p,
        None => {
            return None;
        },
    };
    proof {
        lemma_find_bounds(c@, key@, 0);
    }
    let after_v = string_of_range(&c, pos, c.len());
    let after = chars_of(after_v.as_str());
    assert(after@ =~= content@.skip(pos as int));
    let open = chars_of("<string>");
    let st = match find_str(&after, &open) {
        Some(s) => s,
        None => {
            return None;
        },
    };
    proof {
        lemma_find_bounds(after@, open@, 0);
    }
    let vs = st + 8;
    let rest_v = string_of_range(&after, vs, after.len());
    let rest = chars_of(rest_v.as_str());
    assert(rest@ =~= after@.skip(vs as int));
    let close = chars_of("</string>");
    let e = match find_str(&rest, &close) {
        Some(e) => e,
        None => {
            return None;
        },
    };
    proof {
        lemma_find_bounds(rest@, close@, 0);
    }
    Some(string_of_range(&after, vs, vs + e))
}

/// Bytes of a character in UTF-8.
pub open spec fn utf8_width(c: char) -> nat {
    if (c as u32) < 0x80 {
        1
    } else if (c as u32) < 0x800 {
        2
    } else if (c as u32) < 0x10000 {
        3
    } else {
        4
    }
}

/// Length of text in UTF-8 bytes (`str::len`).
pub open spec fn utf8_len(s: Seq<char>) -> nat
    decreases s.len(),
{
    if s.len() == 0 { 0 } else { utf8_len(s.drop_last()) + utf8_width(s.last()) }
}

/// Segments found so far and the segment being read, splitting at `c`.
pub open spec fn split_acc(s: Seq<char>, c: char) -> (Seq<Seq<char>>, Seq<char>)
    decreases s.len(),
{
    if s.len() == 0 {
        (seq![], seq![])
    } else {
        let (d, cur) = split_acc(s.drop_last(), c);
        if s.last() == c { (d.push(cur), seq![]) } else { (d, cur.push(s.last())) }
    }
}

/// `str::split(c)`: every segment between the separators, empty ones too.
pub open spec fn split_at_char(s: Seq<char>, c: char) -> Seq<Seq<char>> {
    let (d, cur) = split_acc(s, c);
    d.push(cur)
}

/// The parts of a bundle identifier after its first, longer than three
/// bytes, lower-cased.
pub open spec fn id_parts(parts: Seq<Seq<char>>) -> Seq<Seq<char>>
    decreases parts.len(),
{
    if parts.len() == 0 {
        seq![]
    } else {
        let d = id_parts(parts.drop_last());
        if utf8_len(parts.last()) > 3 { d.push(unicode_lowercase(parts.last())) } else { d }
    }
}

/// What leftovers of an app are recognised by: its name, its bundle
/// identifier, and the longer parts of that identifier after the first,
/// all lower-cased.
pub open spec fn leftover_patterns_spec(name: Seq<char>, bundle_id: Option<Seq<char>>) -> Seq<Seq<char>> {
    let base = seq![unicode_lowercase(name)];
    match bundle_id {
        Some(b) => base.push(unicode_lowercase(b)) + id_parts(split_at_char(b, '.').skip(1)),
        None => base,
    }
}

fn utf8_len_exec(v: &Vec<char>) -> (r: u64)
    requires
        v@.len() < 0x1000_0000_0000_0000,
    ensures
        r == utf8_len(v@),
{
    let mut n: u64 = 0;
    let mut i: usize = 0;
    while i < v.len()
        invariant
            i <= v@.len() < 0x1000_0000_0000_0000,
            n == utf8_len(v@.take(i as int)),
            n <= 4 * i,
        decreases v@.len() - i,
    {
        assert(v@.take(i + 1).drop_last() =~= v@.take(i as int));
        let c = v[i] as u32;
        let w: u64 = if c < 0x80 {
            1
        } else if c < 0x800 {
            2
        } else if c < 0x10000 {
            3
        } else {
            4
        };
        n = n + w;
        i = i + 1;
    }
    assert(v@.take(v@.len() as int) =~= v@);
    n
}

/// The patterns leftovers of an app are recognised by.
pub fn leftover_patterns(app_name: &str, bundle_id: &Option<String>) -> (r: Vec<String>)
    requires
        bundle_id matches Some(b) ==> b@.len() < 0x1000_0000_0000_0000,
    ensures
        sviews(r@) == leftover_patterns_spec(app_name@, crate::path::oview(*bundle_id)),
{
    let mut r: Vec<String> = Vec::new();
    r.push(to_lowercase(app_name));
    match bundle_id {
        None => {
            assert(sviews(r@) =~= seq![unicode_lowercase(app_name@)]);
        },
        Some(b) => {
            r.push(to_lowercase(b.as_str()));
            let ghost base = sviews(r@);
            assert(base =~= seq![unicode_lowercase(app_name@)].push(unicode_lowercase(b@)));
            // split at '.', keeping every segment
            let v = chars_of(b.as_str());
            let mut parts: Vec<Vec<char>> = Vec::new();
            let mut cur: Vec<char> = Vec::new();
            let mut i: usize = 0;
            while i < v.len()
                invariant
                    i <= v@.len(),
                    v@ == b@,
                    (crate::path::views(parts@), cur@) == split_acc(v@.take(i as int), '.'),
                    forall|q: int| 0 <= q < parts@.len() ==> (#[trigger] parts@[q])@.len() <= i,
                    cur@.len() <= i,
                decreases v@.len() - i,
            {
                assert(v@.take(i + 1).drop_last() =~= v@.take(i as int));
                if v[i] == '.' {
                    let ghost old = crate::path::views(parts@);
                    parts.push(cur);
                    cur = Vec::new();
                    assert(crate::path::views(parts@) =~= old.push(split_acc(v@.take(i as int), '.').1));
                } else {
                    cur.push(v[i]);
                }
                i = i + 1;
            }
            assert(v@.take(v@.len() as int) =~= v@);
            let ghost old_parts = crate::path::views(parts@);
            parts.push(cur);
            let ghost all = crate::path::views(parts@);
            assert(all =~= split_at_char(b@, '.'));
            let mut k: usize = 1;
            while k < parts.len()
                invariant
                    1 <= k <= parts@.len(),
                    crate::path::views(parts@) == split_at_char(b@, '.'),
                    forall|q: int| 0 <= q < parts@.len() ==> (#[trigger] parts@[q])@.len() < 0x1000_0000_0000_0000,
                    sviews(r@) == base + id_parts(split_at_char(b@, '.').skip(1).take(k - 1)),
                decreases parts@.len() - k,
            {
                proof {
                    let sk = split_at_char(b@, '.').skip(1);
                    assert(sk.take(k as int).drop_last() =~= sk.take(k - 1));
                    assert(sk.take(k as int).last() == parts@[k as int]@);
                }
                if utf8_len_exec(&parts[k]) > 3 {
                    let ghost old = sviews(r@);
                    let s = crate::text::string_of(&parts[k]);
                    r.push(to_lowercase(s.as_str()));
                    assert(sviews(r@) =~= old.push(unicode_lowercase(parts@[k as int]@)));
                }
                k = k + 1;
            }
            assert(split_at_char(b@, '.').skip(1).take(parts@.len() - 1) =~= split_at_char(b@, '.').skip(1));
        },
    }
    r
}

/// An entry name marks a leftover: lower-cased, it holds one of the
/// patterns.
pub open spec fn is_leftover_name(name: Seq<char>, patterns: Seq<Seq<char>>) -> bool {
    exists|i: int| 0 <= i < patterns.len() && contains_seq(unicode_lowercase(name), #[trigger] patterns[i])
}

/// Whether the entry named `name` is a leftover of an app with `patterns`.
pub fn is_app_leftover(name: &str, patterns: &Vec<String>) -> (r: bool)
    ensures
        r == is_leftover_name(name@, sviews(patterns@)),
{
    let lower = to_lowercase(name);
    let mut i: usize = 0;
    while i < patterns.len()
        invariant
            i <= patterns@.len(),
            lower@ == unicode_lowercase(name@),
            forall|j: int| 0 <= j < i ==> !contains_seq(unicode_lowercase(name@), #[trigger] sviews(patterns@)[j]),
        decreases patterns@.len() - i,
    {
        assert(sviews(patterns@)[i as int] == patterns@[i as int]@);
        if str_contains(lower.as_str(), patterns[i].as_str()) {
            return true;
        }
        i = i + 1;
    }
    false
}

/// The directories of `~/Library` searched for leftovers.
pub open spec fn leftover_dir_names() -> Seq<&'static str> {
    seq!["Application Support", "Caches", "Preferences", "Logs", "Containers", "Saved Application State"]
}

/// The directories searched for leftovers of apps.
pub fn leftover_search_dirs(os: Os, home: &str) -> (r: Vec<String>)
    ensures
        sviews(r@) == lviews(leftover_dir_names()).map_values(|n: Seq<char>| join(os, join(os, home@, "Library"@), n)),
{
    let library = join_path(os, home, "Library");
    let names: Vec<&str> = vec!["Application Support", "Caches", "Preferences", "Logs", "Containers", "Saved Application State"];
    assert(names@ == leftover_dir_names());
    let mut r: Vec<String> = Vec::new();
    let mut i: usize = 0;
    while i < names.len()
        invariant
            i <= names@.len(),
            names@ == leftover_dir_names(),
            library@ == join(os, home@, "Library"@),
            sviews(r@) == lviews(names@.take(i as int)).map_values(|n: Seq<char>| join(os, library@, n)),
        decreases names@.len() - i,
    {
        let ghost old = sviews(r@);
        r.push(join_path(os, library.as_str(), names[i]));
        i = i + 1;
        assert(sviews(r@) =~= old.push(join(os, library@, names@[i - 1]@)));
        let ghost want = lviews(names@.take(i as int)).map_values(|n: Seq<char>| join(os, library@, n));
        assert(sviews(r@) =~= want) by {
            assert forall|q: int| 0 <= q < want.len() implies sviews(r@)[q] == want[q] by {
                if q < i - 1 {
                    assert(old[q] == lviews(names@.take(i - 1)).map_values(|n: Seq<char>| join(os, library@, n))[q]);
                }
            }
        }
    }
    assert(names@.take(names@.len() as int) =~= names@);
    r
}

impl InstalledApp {
    fn duplicate(&self) -> (r: InstalledApp)
        ensures
            r.name == self.name,
            r.path == self.path,
            r.size == self.size,
            r.bundle_id == self.bundle_id,
            r.leftovers@ == self.leftovers@,
            r.leftover_size == self.leftover_size,
    {
        InstalledApp {
            name: self.name.clone(),
            path: self.path.clone(),
            size: self.size,
            bundle_id: match &self.bundle_id {
                Some(b) => Some(b.clone()),
                None => None,
            },
            leftovers: clone_strings(&self.leftovers),
            leftover_size: self.leftover_size,
        }
    }
}

pub open spec fn app_sizes(apps: Seq<InstalledApp>) -> Seq<u64> {
    apps.map_values(|a: InstalledApp| a.size)
}

/// The apps largest first (apps of equal size in the order found).
pub fn sort_apps_by_size(apps: &Vec<InstalledApp>) -> (r: Vec<InstalledApp>)
    ensures
        r@.len() == apps@.len(),
        exists|ord: Seq<usize>|
            #[trigger] is_stable_desc_order(app_sizes(apps@), ord) && forall|j: int|
                0 <= j < r@.len() ==> (#[trigger] r@[j]).path == apps@[ord[j] as int].path && r@[j].name
                    == apps@[ord[j] as int].name && r@[j].size == apps@[ord[j] as int].size && r@[j].bundle_id
                    == apps@[ord[j] as int].bundle_id && r@[j].leftovers@ == apps@[ord[j] as int].leftovers@
                    && r@[j].leftover_size == apps@[ord[j] as int].leftover_size,
{
    let mut sizes: Vec<u64> = Vec::new();
    let mut i: usize = 0;
    while i < apps.len()
        invariant
            i <= apps@.len(),
            sizes@ == app_sizes(apps@.take(i as int)),
        decreases apps@.len() - i,
    {
        sizes.push(apps[i].size);
        i = i + 1;
        assert(sizes@ =~= app_sizes(apps@.take(i as int)));
    }
    assert(apps@.take(apps@.len() as int) =~= apps@);
    let ord = stable_desc_order(&sizes);
    let mut r: Vec<InstalledApp> = Vec::new();
    let mut t: usize = 0;
    while t < ord.len()
        invariant
            t <= ord@.len(),
            is_stable_desc_order(sizes@, ord@),
            sizes@ == app_sizes(apps@),
            r@.len() == t,
            forall|j: int|
                0 <= j < t ==> (#[trigger] r@[j]).path == apps@[ord@[j] as int].path && r@[j].name == apps@[ord@[j] as int].name
                    && r@[j].size == apps@[ord@[j] as int].size && r@[j].bundle_id == apps@[ord@[j] as int].bundle_id
                    && r@[j].leftovers@ == apps@[ord@[j] as int].leftovers@ && r@[j].leftover_size
                    == apps@[ord@[j] as int].leftover_size,
        decreases ord@.len() - t,
    {
        let x = ord[t];
        r.push(apps[x].duplicate());
        t = t + 1;
    }
    r
}

/// The interface form of an installed app.
pub fn ffi_installed_app(app: InstalledApp) -> (r: FFIInstalledApp)
    ensures
        r.name == app.name,
        r.path == app.path,
        r.size == app.size,
        r.bundle_id == app.bundle_id,
        r.leftover_paths@ == app.leftovers@,
        r.leftover_size == app.leftover_size,
{
    FFIInstalledApp {
        name: app.name,
        path: app.path,
        size: app.size,
        bundle_id: app.bundle_id,
        leftover_paths: app.leftovers,
        leftover_size: app.leftover_size,
    }
}

} // verus!
