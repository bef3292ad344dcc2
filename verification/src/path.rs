//! A model of file-system paths held as text.
//!
//! A path is split into components the way `std::path::Path::components`
//! does: a root marker when the path is absolute, then the non-empty segments
//! between separators, leaving out `.` segments. Two paths are equal when
//! their components are equal, and one path starts with another when the
//! other's components are a prefix of its own. The separator depends on the
//! operating system: `/` everywhere, and `\` as well on Windows.

use vstd::prelude::*;
use crate::text::{chars_eq, chars_of, concat2, owned, string_of, string_of_range};

verus! {

/// Operating systems with distinct path rules and protected locations.
#[derive(Debug, Clone, Copy, PartialEq, Eq, Structural)]
pub enum Os {
    MacOs,
    Linux,
    Windows,
    Other,
}

impl Os {
    /// Name of the operating system as reported to users.
    pub fn as_str(&self) -> (r: &'static str)
        ensures
            r@ == os_name(*self),
    {
        match self {
            Os::MacOs => "macos",
            Os::Linux => "linux",
            Os::Windows => "windows",
            Os::Other => "unknown",
        }
    }

    /// Unix-like systems (macOS and Linux here).
    pub fn is_unix(&self) -> (r: bool)
        ensures
            r == (*self == Os::MacOs || *self == Os::Linux),
    {
        match self {
            Os::MacOs | Os::Linux => true,
            _ => false,
        }
    }
}

pub open spec fn os_name(os: Os) -> Seq<char> {
    match os {
        Os::MacOs => "macos"@,
        Os::Linux => "linux"@,
        Os::Windows => "windows"@,
        Os::Other => "unknown"@,
    }
}

/// Path separators of `os`.
pub open spec fn is_sep(os: Os, c: char) -> bool {
    c == '/' || (os == Os::Windows && c == '\\')
}

/// The separator written when joining paths.
pub open spec fn main_sep(os: Os) -> char {
    if os == Os::Windows { '\\' } else { '/' }
}

/// Marker standing for the root directory in a component list (no real
/// component can hold a separator).
pub open spec fn root_marker() -> Seq<char> {
    seq!['/']
}

pub open spec fn dot() -> Seq<char> {
    seq!['.']
}

pub open spec fn dotdot() -> Seq<char> {
    seq!['.', '.']
}

/// A segment that is a component: non-empty and not `.`.
pub open spec fn is_kept(seg: Seq<char>) -> bool {
    seg.len() > 0 && seg != dot()
}

/// Components found so far and the segment being read.
pub open spec fn comps_acc(os: Os, s: Seq<char>) -> (Seq<Seq<char>>, Seq<char>)
    decreases s.len(),
{
    if s.len() == 0 {
        (seq![], seq![])
    } else {
        let (d, c) = comps_acc(os, s.drop_last());
        if is_sep(os, s.last()) {
            (if is_kept(c) { d.push(c) } else { d }, seq![])
        } else {
            (d, c.push(s.last()))
        }
    }
}

/// The normal components of `s` (every component but the root).
pub open spec fn normal_components(os: Os, s: Seq<char>) -> Seq<Seq<char>> {
    let (d, c) = comps_acc(os, s);
    if is_kept(c) { d.push(c) } else { d }
}

/// `s` is absolute: it starts with a separator (or, on Windows, a drive).
pub open spec fn has_root(os: Os, s: Seq<char>) -> bool {
    (s.len() > 0 && is_sep(os, s[0])) || (os == Os::Windows && s.len() >= 2 && s[1] == ':')
}

/// All components of `s`, the root marker first when `s` is absolute.
pub open spec fn components(os: Os, s: Seq<char>) -> Seq<Seq<char>> {
    if has_root(os, s) {
        seq![root_marker()] + normal_components(os, s)
    } else {
        normal_components(os, s)
    }
}

/// Paths that compare equal (`Path == Path`, also set membership).
pub open spec fn same_path(os: Os, a: Seq<char>, b: Seq<char>) -> bool {
    components(os, a) == components(os, b)
}

/// `Path::starts_with`.
pub open spec fn path_starts_with(os: Os, p: Seq<char>, base: Seq<char>) -> bool {
    components(os, base).is_prefix_of(components(os, p))
}

/// `Path::file_name`: the last normal component, unless it is `..`.
pub open spec fn file_name(os: Os, s: Seq<char>) -> Option<Seq<char>> {
    let n = normal_components(os, s);
    if n.len() > 0 && n.last() != dotdot() {
        Some(n.last())
    } else {
        None
    }
}

/// Index of the last occurrence of `c` in `s`, or -1.
pub open spec fn last_index(s: Seq<char>, c: char) -> int
    decreases s.len(),
{
    if s.len() == 0 {
        -1
    } else if s.last() == c {
        s.len() - 1
    } else {
        last_index(s.drop_last(), c)
    }
}

/// Extension of a file name: the text after its last `.`, when that dot is
/// not the first character.
pub open spec fn name_extension(f: Seq<char>) -> Option<Seq<char>> {
    let i = last_index(f, '.');
    if i > 0 { Some(f.skip(i + 1)) } else { None }
}

/// Stem of a file name: the text before its last `.`, when that dot is not
/// the first character; the whole name otherwise.
pub open spec fn name_stem(f: Seq<char>) -> Seq<char> {
    let i = last_index(f, '.');
    if i > 0 { f.take(i) } else { f }
}

/// `Path::extension`.
pub open spec fn extension(os: Os, s: Seq<char>) -> Option<Seq<char>> {
    match file_name(os, s) {
        Some(f) => name_extension(f),
        None => None,
    }
}

/// `Path::file_stem`.
pub open spec fn file_stem(os: Os, s: Seq<char>) -> Option<Seq<char>> {
    match file_name(os, s) {
        Some(f) => Some(name_stem(f)),
        None => None,
    }
}

/// `PathBuf::join`: an absolute `rel` replaces `base`; otherwise `rel` is
/// appended, with a separator in between when `base` is non-empty and does
/// not already end with one.
pub open spec fn join(os: Os, base: Seq<char>, rel: Seq<char>) -> Seq<char> {
    if has_root(os, rel) {
        rel
    } else if base.len() > 0 && !is_sep(os, base.last()) {
        base.push(main_sep(os)) + rel
    } else {
        base + rel
    }
}

/// Some proper ancestor of `s` has the file name `name`
/// (`path.ancestors().skip(1)`).
pub open spec fn proper_ancestor_named(os: Os, s: Seq<char>, name: Seq<char>) -> bool {
    let n = normal_components(os, s);
    exists|j: int| 0 <= j < n.len() - 1 && n[j] == name
}

/// Views of a vector of character vectors.
pub open spec fn views(v: Seq<Vec<char>>) -> Seq<Seq<char>> {
    v.map_values(|x: Vec<char>| x@)
}

/// View of an optional string.
pub open spec fn oview(o: Option<String>) -> Option<Seq<char>> {
    match o {
        Some(s) => Some(s@),
        None => None,
    }
}

pub fn is_sep_exec(os: Os, c: char) -> (r: bool)
    ensures
        r == is_sep(os, c),
{
    c == '/' || (os == Os::Windows && c == '\\')
}

fn is_kept_exec(seg: &Vec<char>) -> (r: bool)
    ensures
        r == is_kept(seg@),
{
    if seg.len() == 0 {
        return false;
    }
    if seg.len() == 1 && seg[0] == '.' {
        assert(seg@ =~= dot());
        return false;
    }
    assert(seg@ != dot()) by {
        if seg@.len() == 1 {
            assert(seg@[0] != '.');
            assert(dot()[0] == '.');
        }
    }
    true
}

/// The normal components of a path.
pub fn normal_components_exec(os: Os, s: &Vec<char>) -> (r: Vec<Vec<char>>)
    ensures
        views(r@) == normal_components(os, s@),
{
    let mut d: Vec<Vec<char>> = Vec::new();
    let mut c: Vec<char> = Vec::new();
    let mut i: usize = 0;
    proof {
        assert(s@.take(0) =~= Seq::<char>::empty());
        assert(views(d@) =~= Seq::<Seq<char>>::empty());
    }
    while i < s.len()
        invariant
            i <= s.len(),
            (views(d@), c@) == comps_acc(os, s@.take(i as int)),
        decreases s.len() - i,
    {
        let ch = s[i];
        proof {
            let t = s@.take(i + 1);
            assert(t.drop_last() =~= s@.take(i as int));
            assert(t.last() == ch);
        }
        if is_sep_exec(os, ch) {
            if is_kept_exec(&c) {
                let ghost old_d = d@;
                let ghost cv = c@;
                d.push(c);
                proof {
                    assert(views(d@) =~= views(old_d).push(cv));
                }
            }
            c = Vec::new();
            proof {
                assert(c@ =~= Seq::<char>::empty());
            }
        } else {
            c.push(ch);
        }
        i = i + 1;
    }
    proof {
        assert(s@.take(s.len() as int) =~= s@);
    }
    if is_kept_exec(&c) {
        let ghost old_d = d@;
        let ghost cv = c@;
        d.push(c);
        proof {
            assert(views(d@) =~= views(old_d).push(cv));
        }
    }
    d
}

pub fn has_root_exec(os: Os, s: &Vec<char>) -> (r: bool)
    ensures
        r == has_root(os, s@),
{
    (s.len() > 0 && is_sep_exec(os, s[0])) || (os == Os::Windows && s.len() >= 2 && s[1] == ':')
}

/// All components of a path, the root marker first when it is absolute.
pub fn components_exec(os: Os, s: &Vec<char>) -> (r: Vec<Vec<char>>)
    ensures
        views(r@) == components(os, s@),
{
    let n = normal_components_exec(os, s);
    if has_root_exec(os, s) {
        let mut r: Vec<Vec<char>> = Vec::new();
        let mut m: Vec<char> = Vec::new();
        m.push('/');
        proof {
            assert(m@ =~= root_marker());
        }
        r.push(m);
        let mut i: usize = 0;
        while i < n.len()
            invariant
                i <= n.len(),
                r@.len() == i + 1,
                r@[0]@ == root_marker(),
                forall|j: int| 0 <= j < i ==> (#[trigger] r@[j + 1])@ == n@[j]@,
            decreases n.len() - i,
        {
            r.push(n[i].clone());
            i = i + 1;
        }
        proof {
            assert(views(r@) =~= seq![root_marker()] + views(n@)) by {
                assert forall|j: int| 0 <= j < r@.len() implies views(r@)[j] == (seq![root_marker()] + views(n@))[j] by {
                    if j > 0 {
                        assert(r@[(j - 1) + 1]@ == n@[j - 1]@);
                    }
                }
            }
        }
        r
    } else {
        n
    }
}

/// Character-vector sequences equal, element by element.
pub fn comps_eq(a: &Vec<Vec<char>>, b: &Vec<Vec<char>>) -> (r: bool)
    ensures
        r == (views(a@) == views(b@)),
{
    if a.len() != b.len() {
        assert(views(a@).len() != views(b@).len());
        return false;
    }
    let mut i: usize = 0;
    while i < a.len()
        invariant
            a.len() == b.len(),
            i <= a.len(),
            forall|j: int| 0 <= j < i ==> (#[trigger] a@[j])@ == b@[j]@,
        decreases a.len() - i,
    {
        if !chars_eq(&a[i], &b[i]) {
            assert(views(a@)[i as int] != views(b@)[i as int]);
            return false;
        }
        i = i + 1;
    }
    assert(views(a@) =~= views(b@)) by {
        assert forall|j: int| 0 <= j < a@.len() implies views(a@)[j] == views(b@)[j] by {
            assert(a@[j]@ == b@[j]@);
        }
    }
    true
}

/// Components of `base` are a prefix of those of `p`.
pub fn comps_prefix(p: &Vec<Vec<char>>, base: &Vec<Vec<char>>) -> (r: bool)
    ensures
        r == views(base@).is_prefix_of(views(p@)),
{
    if base.len() > p.len() {
        return false;
    }
    let mut i: usize = 0;
    while i < base.len()
        invariant
            base.len() <= p.len(),
            i <= base.len(),
            forall|j: int| 0 <= j < i ==> (#[trigger] base@[j])@ == p@[j]@,
        decreases base.len() - i,
    {
        if !chars_eq(&base[i], &p[i]) {
            assert(views(p@).subrange(0, base@.len() as int)[i as int] != views(base@)[i as int]);
            return false;
        }
        i = i + 1;
    }
    assert(views(base@) =~= views(p@).subrange(0, base@.len() as int)) by {
        assert forall|j: int| 0 <= j < base@.len() implies views(base@)[j] == views(p@).subrange(0, base@.len() as int)[j] by {
            assert(base@[j]@ == p@[j]@);
        }
    }
    true
}

/// `Path == Path`.
pub fn same_path_exec(os: Os, a: &str, b: &str) -> (r: bool)
    ensures
        r == same_path(os, a@, b@),
{
    let ca = components_exec(os, &chars_of(a));
    let cb = components_exec(os, &chars_of(b));
    comps_eq(&ca, &cb)
}

/// `Path::starts_with`.
pub fn starts_with_path(os: Os, p: &str, base: &str) -> (r: bool)
    ensures
        r == path_starts_with(os, p@, base@),
{
    let cp = components_exec(os, &chars_of(p));
    let cb = components_exec(os, &chars_of(base));
    comps_prefix(&cp, &cb)
}

fn is_dotdot(v: &Vec<char>) -> (r: bool)
    ensures
        r == (v@ == dotdot()),
{
    if v.len() == 2 && v[0] == '.' && v[1] == '.' {
        assert(v@ =~= dotdot());
        true
    } else {
        assert(v@ != dotdot()) by {
            if v@.len() == 2 {
                assert(dotdot()[0] == '.' && dotdot()[1] == '.');
            }
        }
        false
    }
}

/// `Path::file_name`, as characters.
pub fn file_name_chars(os: Os, s: &Vec<char>) -> (r: Option<Vec<char>>)
    ensures
        match r {
            Some(v) => file_name(os, s@) == Some(v@),
            None => file_name(os, s@) is None,
        },
{
    let n = normal_components_exec(os, s);
    if n.len() == 0 {
        return None;
    }
    let last = n[n.len() - 1].clone();
    proof {
        assert(views(n@).last() == last@);
    }
    if is_dotdot(&last) {
        None
    } else {
        Some(last)
    }
}

/// `Path::file_name`.
pub fn file_name_of(os: Os, s: &str) -> (r: Option<String>)
    ensures
        oview(r) == file_name(os, s@),
{
    match file_name_chars(os, &chars_of(s)) {
        Some(v) => Some(string_of(&v)),
        None => None,
    }
}

proof fn lemma_last_index(s: Seq<char>, c: char)
    ensures
        -1 <= last_index(s, c) < s.len(),
        last_index(s, c) >= 0 ==> s[last_index(s, c)] == c,
        forall|j: int| last_index(s, c) < j < s.len() ==> s[j] != c,
    decreases s.len(),
{
    if s.len() > 0 && s.last() != c {
        lemma_last_index(s.drop_last(), c);
        assert forall|j: int| last_index(s, c) < j < s.len() implies s[j] != c by {
            if j < s.len() - 1 {
                assert(s[j] == s.drop_last()[j]);
            }
        }
    }
}

proof fn lemma_last_index_char(s: Seq<char>, c: char, k: int)
    requires
        -1 <= k < s.len(),
        k >= 0 ==> s[k] == c,
        forall|j: int| k < j < s.len() ==> s[j] != c,
    ensures
        last_index(s, c) == k,
    decreases s.len(),
{
    if s.len() > 0 && k < s.len() - 1 {
        assert(s.last() != c);
        let t = s.drop_last();
        assert forall|j: int| k < j < t.len() implies t[j] != c by {
            assert(t[j] == s[j]);
        }
        if k >= 0 {
            assert(t[k] == s[k]);
        }
        lemma_last_index_char(t, c, k);
    }
}

/// Index of the last `.` in `f`, or -1.
pub fn last_dot(f: &Vec<char>) -> (r: i64)
    requires
        f.len() < 0x7fff_ffff_ffff_ffff,
    ensures
        r == last_index(f@, '.'),
{
    let mut i: usize = f.len();
    while i > 0
        invariant
            i <= f.len() < 0x7fff_ffff_ffff_ffff,
            forall|j: int| i <= j < f.len() ==> f@[j] != '.',
        decreases i,
    {
        if f[i - 1] == '.' {
            proof {
                lemma_last_index_char(f@, '.', i - 1);
            }
            return (i - 1) as i64;
        }
        i = i - 1;
    }
    proof {
        lemma_last_index_char(f@, '.', -1);
    }
    -1
}

/// Extension of a file name.
pub fn name_extension_chars(f: &Vec<char>) -> (r: Option<Vec<char>>)
    requires
        f.len() < 0x7fff_ffff_ffff_ffff,
    ensures
        match r {
            Some(v) => name_extension(f@) == Some(v@),
            None => name_extension(f@) is None,
        },
{
    let i = last_dot(f);
    if i > 0 {
        proof {
            lemma_last_index(f@, '.');
        }
        let start = (i as usize) + 1;
        let mut v: Vec<char> = Vec::new();
        let mut k = start;
        while k < f.len()
            invariant
                start <= k <= f.len(),
                v@ == f@.subrange(start as int, k as int),
            decreases f.len() - k,
        {
            v.push(f[k]);
            k = k + 1;
            assert(v@ =~= f@.subrange(start as int, k as int));
        }
        assert(v@ =~= f@.skip(start as int));
        Some(v)
    } else {
        None
    }
}

/// Stem of a file name.
pub fn name_stem_chars(f: &Vec<char>) -> (r: Vec<char>)
    requires
        f.len() < 0x7fff_ffff_ffff_ffff,
    ensures
        r@ == name_stem(f@),
{
    let i = last_dot(f);
    if i > 0 {
        proof {
            lemma_last_index(f@, '.');
        }
        let end = i as usize;
        let mut v: Vec<char> = Vec::new();
        let mut k: usize = 0;
        while k < end
            invariant
                k <= end <= f.len(),
                v@ == f@.take(k as int),
            decreases end - k,
        {
            v.push(f[k]);
            k = k + 1;
            assert(v@ =~= f@.take(k as int));
        }
        v
    } else {
        f.clone()
    }
}

/// `Path::extension`, as characters.
pub fn extension_chars(os: Os, s: &Vec<char>) -> (r: Option<Vec<char>>)
    requires
        s.len() < 0x7fff_ffff_ffff_ffff,
    ensures
        match r {
            Some(v) => extension(os, s@) == Some(v@),
            None => extension(os, s@) is None,
        },
{
    match file_name_chars(os, s) {
        Some(f) => {
            proof {
                lemma_file_name_len(os, s@);
            }
            name_extension_chars(&f)
        },
        None => None,
    }
}

/// `Path::extension`.
pub fn extension_of(os: Os, s: &str) -> (r: Option<String>)
    requires
        s@.len() < 0x7fff_ffff_ffff_ffff,
    ensures
        oview(r) == extension(os, s@),
{
    match extension_chars(os, &chars_of(s)) {
        Some(v) => Some(string_of(&v)),
        None => None,
    }
}

/// `Path::file_stem`.
pub fn file_stem_of(os: Os, s: &str) -> (r: Option<String>)
    requires
        s@.len() < 0x7fff_ffff_ffff_ffff,
    ensures
        oview(r) == file_stem(os, s@),
{
    let v = chars_of(s);
    match file_name_chars(os, &v) {
        Some(f) => {
            proof {
                lemma_file_name_len(os, s@);
            }
            let st = name_stem_chars(&f);
            Some(string_of(&st))
        },
        None => None,
    }
}

proof fn lemma_comps_acc_len(os: Os, s: Seq<char>)
    ensures
        comps_acc(os, s).1.len() <= s.len(),
        forall|j: int| 0 <= j < comps_acc(os, s).0.len() ==> (#[trigger] comps_acc(os, s).0[j]).len() <= s.len(),
    decreases s.len(),
{
    if s.len() > 0 {
        lemma_comps_acc_len(os, s.drop_last());
    }
}

/// A file name is no longer than its path.
pub proof fn lemma_file_name_len(os: Os, s: Seq<char>)
    ensures
        file_name(os, s) matches Some(f) ==> f.len() <= s.len(),
{
    lemma_comps_acc_len(os, s);
    let (d, c) = comps_acc(os, s);
    let n = normal_components(os, s);
    if n.len() > 0 {
        if is_kept(c) {
            assert(n.last() == c);
        } else {
            assert(n.last() == d[d.len() - 1]);
        }
    }
}

/// `PathBuf::join`.
pub fn join_path(os: Os, base: &str, rel: &str) -> (r: String)
    ensures
        r@ == join(os, base@, rel@),
{
    let b = chars_of(base);
    let rv = chars_of(rel);
    if has_root_exec(os, &rv) {
        return owned(rel);
    }
    if b.len() > 0 && !is_sep_exec(os, b[b.len() - 1]) {
        let mut out = String::from_str(base);
        if os == Os::Windows {
            out.append("\\");
            proof {
                reveal_strlit("\\");
            }
        } else {
            out.append("/");
            proof {
                reveal_strlit("/");
            }
        }
        out.append(rel);
        assert(out@ =~= base@.push(main_sep(os)) + rel@);
        out
    } else {
        concat2(base, rel)
    }
}

/// Whether some proper ancestor of `s` is named `name`.
pub fn proper_ancestor_named_exec(os: Os, s: &Vec<char>, name: &Vec<char>) -> (r: bool)
    ensures
        r == proper_ancestor_named(os, s@, name@),
{
    let n = normal_components_exec(os, s);
    if n.len() == 0 {
        return false;
    }
    let mut j: usize = 0;
    while j < n.len() - 1
        invariant
            n.len() > 0,
            j <= n.len() - 1,
            views(n@) == normal_components(os, s@),
            forall|k: int| 0 <= k < j ==> views(n@)[k] != name@,
        decreases n.len() - 1 - j,
    {
        if chars_eq(&n[j], name) {
            assert(views(n@)[j as int] == name@);
            return true;
        }
        j = j + 1;
    }
    false
}


/// Length of `s` once trailing separators and trailing `.` components are
/// dropped.
pub open spec fn end_trim(os: Os, s: Seq<char>) -> nat
    decreases s.len(),
{
    if s.len() == 0 {
        0
    } else if is_sep(os, s.last()) {
        end_trim(os, s.drop_last())
    } else if s.len() >= 2 && s.last() == '.' && is_sep(os, s[s.len() - 2]) {
        end_trim(os, s.drop_last())
    } else {
        s.len()
    }
}

/// Index of the last separator in `s`, or -1.
pub open spec fn last_sep(os: Os, s: Seq<char>) -> int
    decreases s.len(),
{
    if s.len() == 0 {
        -1
    } else if is_sep(os, s.last()) {
        s.len() - 1
    } else {
        last_sep(os, s.drop_last())
    }
}

/// The directory that holds the last component of `s` (`Path::parent`):
/// `None` when `s` has no such component (the root, or an empty path).
pub open spec fn parent_of(os: Os, s: Seq<char>) -> Option<Seq<char>> {
    if normal_components(os, s).len() == 0 {
        None
    } else {
        let t = s.take(end_trim(os, s) as int);
        let k = last_sep(os, t);
        if k < 0 {
            Some(seq![])
        } else {
            let u = t.take(end_trim(os, t.take(k)) as int);
            if u.len() == 0 { Some(t.take(1)) } else { Some(u) }
        }
    }
}

proof fn lemma_end_trim_le(os: Os, s: Seq<char>)
    ensures
        end_trim(os, s) <= s.len(),
    decreases s.len(),
{
    if s.len() > 0 {
        lemma_end_trim_le(os, s.drop_last());
    }
}

proof fn lemma_last_sep_range(os: Os, s: Seq<char>)
    ensures
        -1 <= last_sep(os, s) < s.len(),
    decreases s.len(),
{
    if s.len() > 0 {
        lemma_last_sep_range(os, s.drop_last());
    }
}

fn end_trim_exec(os: Os, v: &Vec<char>, n: usize) -> (r: usize)
    requires
        n <= v.len(),
    ensures
        r == end_trim(os, v@.take(n as int)),
{
    let mut i = n;
    while i > 0
        invariant
            i <= n <= v.len(),
            end_trim(os, v@.take(n as int)) == end_trim(os, v@.take(i as int)),
        decreases i,
    {
        let ghost t = v@.take(i as int);
        assert(t.drop_last() =~= v@.take(i - 1));
        assert(t.last() == v@[i - 1]);
        if is_sep_exec(os, v[i - 1]) {
            i = i - 1;
        } else if i >= 2 && v[i - 1] == '.' && is_sep_exec(os, v[i - 2]) {
            assert(t[t.len() - 2] == v@[i - 2]);
            i = i - 1;
        } else {
            return i;
        }
    }
    i
}

fn last_sep_exec(os: Os, v: &Vec<char>, n: usize) -> (r: i64)
    requires
        n <= v.len() < 0x7fff_ffff_ffff_ffff,
    ensures
        r == last_sep(os, v@.take(n as int)),
{
    let mut i = n;
    while i > 0
        invariant
            i <= n <= v.len() < 0x7fff_ffff_ffff_ffff,
            last_sep(os, v@.take(n as int)) == last_sep(os, v@.take(i as int)),
        decreases i,
    {
        let ghost t = v@.take(i as int);
        assert(t.drop_last() =~= v@.take(i - 1));
        assert(t.last() == v@[i - 1]);
        if is_sep_exec(os, v[i - 1]) {
            return (i - 1) as i64;
        }
        i = i - 1;
    }
    -1
}

/// `Path::parent`, as text.
pub fn parent_of_exec(os: Os, s: &str) -> (r: Option<String>)
    requires
        s@.len() < 0x7fff_ffff_ffff_ffff,
    ensures
        oview(r) == parent_of(os, s@),
{
    let v = chars_of(s);
    let n = normal_components_exec(os, &v);
    if n.len() == 0 {
        return None;
    }
    let e = end_trim_exec(os, &v, v.len());
    proof {
        lemma_end_trim_le(os, v@);
        assert(v@.take(v@.len() as int) =~= v@);
    }
    let k = last_sep_exec(os, &v, e);
    let ghost t = v@.take(e as int);
    proof {
        lemma_last_sep_range(os, t);
    }
    if k < 0 {
        return Some(String::new());
    }
    let ku = k as usize;
    let f = end_trim_exec(os, &v, ku);
    proof {
        assert(v@.take(ku as int) =~= t.take(k as int));
        lemma_end_trim_le(os, t.take(k as int));
    }
    if f == 0 {
        let r = string_of_range(&v, 0, 1);
        assert(v@.subrange(0, 1) =~= t.take(1));
        Some(r)
    } else {
        let r = string_of_range(&v, 0, f);
        assert(v@.subrange(0, f as int) =~= t.take(f as int));
        Some(r)
    }
}


/// A parent is no longer than the path itself.
pub proof fn lemma_parent_len(os: Os, s: Seq<char>)
    ensures
        parent_of(os, s) matches Some(p) ==> p.len() <= s.len(),
{
    if normal_components(os, s).len() > 0 {
        lemma_end_trim_le(os, s);
        let t = s.take(end_trim(os, s) as int);
        let k = last_sep(os, t);
        lemma_last_sep_range(os, t);
        if k >= 0 {
            lemma_end_trim_le(os, t.take(k));
        }
    }
}

} // verus!
