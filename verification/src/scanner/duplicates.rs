//! Duplicate files: which entries the walk enters, which files are worth
//! hashing, the partial hash of a file, and the groups of duplicates.
//!
//! Files are compared by size first; only files whose size is shared are
//! hashed, on their size, their first 4 KiB and (when larger than 8 KiB)
//! their last 4 KiB. Files with equal size and hash form a group.

use vstd::prelude::*;
use crate::order::{is_stable_desc_order, stable_desc_order};
use crate::path::{Os, file_name, file_name_of};
use crate::safety::protected_paths::{ProtectionEnv, is_protected, protected_spec};
use crate::scanner::downloads::{is_hidden, is_hidden_exec};
use crate::text::{lviews, str_in, sviews};

verus! {

/// A group of duplicate files.
#[derive(Debug, Clone)]
pub struct DuplicateGroup {
    /// Hash identifying this group.
    pub hash: String,
    /// Size of each file in the group.
    pub size: u64,
    /// Total wasted space (`size * (count - 1)`).
    pub wasted_size: u64,
    /// Paths of the duplicate files.
    pub paths: Vec<String>,
    /// Number of duplicates.
    pub count: u32,
}

/// Options for scanning duplicates.
#[derive(Debug, Clone)]
pub struct DuplicateScanOptions {
    /// Minimum file size to consider.
    pub min_size_bytes: u64,
    /// Maximum number of groups to return.
    pub max_groups: u32,
    /// Include hidden files.
    pub include_hidden: bool,
}

impl Default for DuplicateScanOptions {
    /// At least 1 MiB, at most 50 groups, hidden files left out.
    fn default() -> (r: Self)
        ensures
            r.min_size_bytes == 1048576,
            r.max_groups == 50,
            !r.include_hidden,
    {
        DuplicateScanOptions { min_size_bytes: 1048576, max_groups: 50, include_hidden: false }
    }
}

/// Result of duplicate scanning.
#[derive(Debug, Clone)]
pub struct DuplicateScanResult {
    /// Groups of duplicate files.
    pub groups: Vec<DuplicateGroup>,
    /// Total wasted space across the groups.
    pub total_wasted: u64,
    /// Total files scanned.
    pub files_scanned: u64,
}

impl DuplicateGroup {
    /// The paths of the group as text.
    pub fn path_strings(&self) -> (r: Vec<String>)
        ensures
            r@ == self.paths@,
    {
        let mut r: Vec<String> = Vec::new();
        let mut i: usize = 0;
        while i < self.paths.len()
            invariant
                i <= self.paths@.len(),
                r@ == self.paths@.take(i as int),
            decreases self.paths@.len() - i,
        {
            r.push(self.paths[i].clone());
            i = i + 1;
            assert(r@ =~= self.paths@.take(i as int));
        }
        assert(self.paths@.take(self.paths@.len() as int) =~= self.paths@);
        r
    }
}

/// Directory names the walk does not enter.
pub open spec fn duplicate_skip_names() -> Seq<&'static str> {
    seq!["Library", ".Trash", ".cache", "node_modules", ".git", ".cargo", ".rustup", "target", "DerivedData"]
}

/// The walk enters an entry: it is not hidden unless asked for, not
/// protected, and not a directory with a skipped name.
pub open spec fn enters_duplicate_walk_spec(env: ProtectionEnv, include_hidden: bool, path: Seq<char>, canonical: Seq<char>, is_dir: bool) -> bool {
    &&& include_hidden || !is_hidden(env.os, path)
    &&& !protected_spec(env, path, canonical)
    &&& !(is_dir && (file_name(env.os, path) matches Some(n) && lviews(duplicate_skip_names()).contains(n)))
}

/// Whether the duplicate walk enters the entry at `path`.
pub fn enters_duplicate_walk(env: &ProtectionEnv, include_hidden: bool, path: &str, canonical: &str, is_dir: bool) -> (r: bool)
    ensures
        r == enters_duplicate_walk_spec(*env, include_hidden, path@, canonical@, is_dir),
{
    if !include_hidden && is_hidden_exec(env.os, path) {
        return false;
    }
    if is_protected(env, path, canonical) {
        return false;
    }
    if is_dir {
        match file_name_of(env.os, path) {
            Some(n) => {
                let names: Vec<&str> = vec![
                    "Library", ".Trash", ".cache", "node_modules", ".git", ".cargo", ".rustup", "target",
                    "DerivedData",
                ];
                assert(names@ == duplicate_skip_names());
                if str_in(n.as_str(), &names) {
                    return false;
                }
            },
            None => {},
        }
    }
    true
}

/// A file found by the walk, with its size.
#[derive(Debug, Clone)]
pub struct SizedFile {
    pub path: String,
    pub size: u64,
}

/// Number of files of `size` bytes.
pub open spec fn count_of_size(fs: Seq<SizedFile>, size: u64) -> nat
    decreases fs.len(),
{
    if fs.len() == 0 {
        0
    } else {
        count_of_size(fs.drop_last(), size) + if fs.last().size == size { 1nat } else { 0nat }
    }
}

/// Files at least `min` bytes large whose size another such file shares,
/// in the order found.
pub open spec fn worth_hashing(fs: Seq<SizedFile>, min: u64) -> Seq<SizedFile> {
    let big = fs.filter(|f: SizedFile| f.size >= min);
    big.filter(|f: SizedFile| count_of_size(big, f.size) >= 2)
}

fn count_size_exec(fs: &Vec<SizedFile>, size: u64) -> (r: usize)
    ensures
        r == count_of_size(fs@, size),
{
    let mut n: usize = 0;
    let mut i: usize = 0;
    while i < fs.len()
        invariant
            i <= fs@.len(),
            n == count_of_size(fs@.take(i as int), size),
            n <= i,
        decreases fs@.len() - i,
    {
        proof {
            assert(fs@.take(i + 1).drop_last() =~= fs@.take(i as int));
        }
        if fs[i].size == size {
            n = n + 1;
        }
        i = i + 1;
    }
    assert(fs@.take(fs@.len() as int) =~= fs@);
    n
}

fn keep_if<'a>(fs: &Vec<SizedFile>, min: u64) -> (r: Vec<SizedFile>)
    ensures
        r@ == fs@.filter(|f: SizedFile| f.size >= min),
{
    let mut r: Vec<SizedFile> = Vec::new();
    let mut i: usize = 0;
    while i < fs.len()
        invariant
            i <= fs@.len(),
            r@ == fs@.take(i as int).filter(|f: SizedFile| f.size >= min),
        decreases fs@.len() - i,
    {
        proof {
            reveal(Seq::filter);
            assert(fs@.take(i + 1).drop_last() =~= fs@.take(i as int));
        }
        if fs[i].size >= min {
            r.push(SizedFile { path: fs[i].path.clone(), size: fs[i].size });
        }
        i = i + 1;
    }
    assert(fs@.take(fs@.len() as int) =~= fs@);
    r
}

/// The files worth hashing: at least `min_size` bytes large, with a size
/// that another such file shares.
pub fn files_worth_hashing(files: &Vec<SizedFile>, min_size: u64) -> (r: Vec<SizedFile>)
    ensures
        r@ == worth_hashing(files@, min_size),
{
    let big = keep_if(files, min_size);
    let ghost bv = big@;
    let mut r: Vec<SizedFile> = Vec::new();
    let mut i: usize = 0;
    while i < big.len()
        invariant
            i <= big@.len(),
            bv == big@,
            r@ == bv.take(i as int).filter(|f: SizedFile| count_of_size(bv, f.size) >= 2),
        decreases big@.len() - i,
    {
        proof {
            reveal(Seq::filter);
            assert(bv.take(i + 1).drop_last() =~= bv.take(i as int));
        }
        let c = count_size_exec(&big, big[i].size);
        if c >= 2 {
            r.push(SizedFile { path: big[i].path.clone(), size: big[i].size });
        }
        i = i + 1;
    }
    assert(bv.take(bv.len() as int) =~= bv);
    r
}

/// Bytes read from each end of a file for its partial hash.
pub const HASH_CHUNK: usize = 4096;

/// Files larger than this are hashed on their last chunk too.
pub const TAIL_THRESHOLD: u64 = 8192;

/// Whether a file of `size` bytes is hashed on its last chunk too.
pub fn reads_tail(size: u64) -> (r: bool)
    ensures
        r == (size > TAIL_THRESHOLD),
{
    size > TAIL_THRESHOLD
}

/// The BLAKE3 hash of some bytes, as lower-case hexadecimal text.
pub uninterp spec fn blake3_hex(data: Seq<u8>) -> Seq<char>;

/// Trusted: `blake3::Hasher` fed `data` and finalized, written with
/// `to_hex`. The text is named by `blake3_hex`, a function of the bytes
/// alone; nothing more is claimed of it.
#[verifier::external_body]
fn blake3_hex_of(data: &Vec<u8>) -> (r: String)
    ensures
        r@ == blake3_hex(data@),
{
    let mut hasher = blake3::Hasher::new();
    hasher.update(data.as_slice());
    hasher.finalize().to_hex().to_string()
}

/// The eight bytes of `n`, least significant first.
pub open spec fn le_bytes(n: u64) -> Seq<u8> {
    Seq::new(8, |i: int| ((n as int / pow256(i)) % 256) as u8)
}

pub open spec fn pow256(i: int) -> int
    decreases i,
{
    if i <= 0 { 1 } else { 256 * pow256(i - 1) }
}

/// What the partial hash of a file is taken of: its size in little-endian
/// bytes, its first chunk, and its last chunk when it has one.
pub open spec fn partial_hash_input(size: u64, head: Seq<u8>, tail: Option<Seq<u8>>) -> Seq<u8> {
    le_bytes(size) + head + match tail {
        Some(t) => t,
        None => seq![],
    }
}

/// The partial hash of a file of `size` bytes whose first chunk is `head`
/// and whose last chunk, read when the file is larger than the threshold,
/// is `tail`.
pub fn partial_hash(size: u64, head: &Vec<u8>, tail: &Option<Vec<u8>>) -> (r: String)
    ensures
        r@ == blake3_hex(partial_hash_input(size, head@, match tail {
            Some(t) => Some(t@),
            None => None,
        })),
{
    let mut data: Vec<u8> = Vec::new();
    let mut n = size;
    let mut k: usize = 0;
    while k < 8
        invariant
            k <= 8,
            data@.len() == k,
            n as int == size as int / pow256(k as int),
            forall|j: int| 0 <= j < k ==> data@[j] == le_bytes(size)[j],
        decreases 8 - k,
    {
        proof {
            assert(pow256(k as int + 1) == 256 * pow256(k as int));
            assert(pow256(k as int) > 0) by {
                lemma_pow256_pos(k as int);
            }
            vstd::arithmetic::div_mod::lemma_div_denominator(size as int, pow256(k as int), 256);
        }
        data.push((n % 256) as u8);
        n = n / 256;
        k = k + 1;
    }
    let mut i: usize = 0;
    while i < head.len()
        invariant
            i <= head@.len(),
            data@ == le_bytes(size) + head@.take(i as int),
        decreases head@.len() - i,
    {
        data.push(head[i]);
        i = i + 1;
        assert(data@ =~= le_bytes(size) + head@.take(i as int));
    }
    assert(head@.take(head@.len() as int) =~= head@);
    let ghost base = data@;
    match tail {
        Some(t) => {
            let mut j: usize = 0;
            while j < t.len()
                invariant
                    j <= t@.len(),
                    data@ == base + t@.take(j as int),
                decreases t@.len() - j,
            {
                data.push(t[j]);
                j = j + 1;
                assert(data@ =~= base + t@.take(j as int));
            }
            assert(t@.take(t@.len() as int) =~= t@);
        },
        None => {
            assert(data@ =~= base + Seq::<u8>::empty());
        },
    }
    blake3_hex_of(&data)
}

proof fn lemma_pow256_pos(i: int)
    ensures
        pow256(i) > 0,
    decreases i,
{
    if i > 0 {
        lemma_pow256_pos(i - 1);
    }
}


/// A file worth hashing with its partial hash (`None` when it could not be
/// read).
#[derive(Debug, Clone)]
pub struct HashedFile {
    pub path: String,
    pub size: u64,
    pub hash: Option<String>,
}

/// What groups a file: its size and hash, when it has a hash.
pub open spec fn file_key(f: HashedFile) -> Option<(u64, Seq<char>)> {
    match f.hash {
        Some(h) => Some((f.size, h@)),
        None => None,
    }
}

/// The keys of the hashed files, each once, in the order first found.
pub open spec fn dup_keys(hs: Seq<HashedFile>) -> Seq<(u64, Seq<char>)>
    decreases hs.len(),
{
    if hs.len() == 0 {
        seq![]
    } else {
        let d = dup_keys(hs.drop_last());
        match file_key(hs.last()) {
            Some(k) => if d.contains(k) { d } else { d.push(k) },
            None => d,
        }
    }
}

/// The paths of the files with key `k`, in the order found.
pub open spec fn members(hs: Seq<HashedFile>, k: (u64, Seq<char>)) -> Seq<Seq<char>>
    decreases hs.len(),
{
    if hs.len() == 0 {
        seq![]
    } else {
        let m = members(hs.drop_last(), k);
        if file_key(hs.last()) == Some(k) { m.push(hs.last().path@) } else { m }
    }
}

/// Sum of the sizes of the files that have a hash.
pub open spec fn hashed_total(hs: Seq<HashedFile>) -> nat
    decreases hs.len(),
{
    if hs.len() == 0 {
        0
    } else {
        hashed_total(hs.drop_last()) + if hs.last().hash is Some { hs.last().size as nat } else { 0nat }
    }
}

/// A group of files with equal key: the key and the paths.
pub type GroupView = (u64, Seq<char>, Seq<Seq<char>>);

/// The groups of files with equal key, in the order their keys were first
/// found, those with at least two files only.
pub open spec fn duplicate_groups(hs: Seq<HashedFile>) -> Seq<GroupView> {
    dup_keys(hs).map_values(|k: (u64, Seq<char>)| (k.0, k.1, members(hs, k))).filter(|g: GroupView| is_multi(g))
}

/// Space wasted by a group: all copies but one.
pub open spec fn wasted(g: GroupView) -> nat {
    g.0 as nat * (g.2.len() - 1) as nat
}

/// The group reported for a view.
pub open spec fn group_is(g: DuplicateGroup, v: GroupView) -> bool {
    &&& g.size == v.0
    &&& g.hash@ == v.1
    &&& sviews(g.paths@) == v.2
    &&& g.count as nat == v.2.len()
    &&& g.wasted_size as nat == wasted(v)
}

pub open spec fn sum_nat(s: Seq<nat>) -> nat
    decreases s.len(),
{
    if s.len() == 0 { 0 } else { sum_nat(s.drop_last()) + s.last() }
}

proof fn lemma_sum_update(s: Seq<nat>, i: int, x: nat)
    requires
        0 <= i < s.len(),
    ensures
        sum_nat(s.update(i, x)) + s[i] == sum_nat(s) + x,
    decreases s.len(),
{
    if i < s.len() - 1 {
        lemma_sum_update(s.drop_last(), i, x);
        assert(s.update(i, x).drop_last() =~= s.drop_last().update(i, x));
    } else {
        assert(s.update(i, x).drop_last() =~= s.drop_last());
    }
}

proof fn lemma_sum_push(s: Seq<nat>, x: nat)
    ensures
        sum_nat(s.push(x)) == sum_nat(s) + x,
{
    assert(s.push(x).drop_last() =~= s);
}

/// The entries of `s` at the positions `pos`.
pub open spec fn at_positions(s: Seq<nat>, pos: Seq<usize>) -> Seq<nat> {
    pos.map_values(|p: usize| s[p as int])
}

/// The sum over distinct positions of `s` is at most the sum of `s`.
proof fn lemma_sum_positions(s: Seq<nat>, pos: Seq<usize>)
    requires
        forall|j: int| 0 <= j < pos.len() ==> (#[trigger] pos[j]) < s.len(),
        forall|a: int, b: int| 0 <= a < b < pos.len() ==> #[trigger] pos[a] != #[trigger] pos[b],
    ensures
        sum_nat(at_positions(s, pos)) <= sum_nat(s),
    decreases pos.len(),
{
    if pos.len() > 0 {
        let o = pos.last() as int;
        let s2 = s.update(o, 0);
        let rest = pos.drop_last();
        assert forall|a: int, b: int| 0 <= a < b < rest.len() implies #[trigger] rest[a] != #[trigger] rest[b] by {
            assert(rest[a] == pos[a] && rest[b] == pos[b]);
        }
        lemma_sum_positions(s2, rest);
        lemma_sum_update(s, o, 0);
        assert(at_positions(s2, rest) =~= at_positions(s, rest)) by {
            assert forall|j: int| 0 <= j < rest.len() implies #[trigger] at_positions(s2, rest)[j] == at_positions(s, rest)[j] by {
                assert(rest[j] == pos[j]);
                assert(pos[j] != pos[pos.len() - 1]);
            }
        }
        assert(at_positions(s, pos).drop_last() =~= at_positions(s, rest));
    }
}

proof fn lemma_not_key_no_members(hs: Seq<HashedFile>, k: (u64, Seq<char>))
    requires
        !dup_keys(hs).contains(k),
    ensures
        members(hs, k).len() == 0,
    decreases hs.len(),
{
    if hs.len() > 0 {
        let d = dup_keys(hs.drop_last());
        assert(!d.contains(k)) by {
            if d.contains(k) {
                let j = choose|j: int| 0 <= j < d.len() && d[j] == k;
                assert(dup_keys(hs).contains(k)) by {
                    match file_key(hs.last()) {
                        Some(k2) => if !d.contains(k2) {
                            assert(dup_keys(hs)[j] == k);
                        },
                        None => {},
                    }
                }
            }
        }
        lemma_not_key_no_members(hs.drop_last(), k);
        if file_key(hs.last()) == Some(k) {
            assert(dup_keys(hs).contains(k)) by {
                if !d.contains(k) {
                    assert(dup_keys(hs)[d.len() as int] == k);
                }
            }
        }
    }
}

proof fn lemma_keys_distinct(hs: Seq<HashedFile>)
    ensures
        forall|a: int, b: int| 0 <= a < b < dup_keys(hs).len() ==> #[trigger] dup_keys(hs)[a] != #[trigger] dup_keys(hs)[b],
    decreases hs.len(),
{
    if hs.len() > 0 {
        let d = dup_keys(hs.drop_last());
        lemma_keys_distinct(hs.drop_last());
        match file_key(hs.last()) {
            Some(k) => if !d.contains(k) {
                assert forall|a: int, b: int| 0 <= a < b < dup_keys(hs).len() implies #[trigger] dup_keys(hs)[a]
                    != #[trigger] dup_keys(hs)[b] by {
                    if b == d.len() {
                        if d[a] == k {
                            assert(d.contains(k));
                        }
                    }
                }
            },
            None => {},
        }
    }
}

/// The exec form of a group being built: key and paths.
pub open spec fn build_view(g: (u64, String, Vec<String>)) -> GroupView {
    (g.0, g.1@, sviews(g.2@))
}

pub open spec fn group_weight(g: GroupView) -> nat {
    g.0 as nat * g.2.len()
}

proof fn lemma_hashed_total_prefix(hs: Seq<HashedFile>, i: int)
    requires
        0 <= i <= hs.len(),
    ensures
        hashed_total(hs.take(i)) <= hashed_total(hs),
    decreases hs.len() - i,
{
    if i < hs.len() {
        lemma_hashed_total_prefix(hs, i + 1);
        assert(hs.take(i + 1).drop_last() =~= hs.take(i));
    } else {
        assert(hs.take(i) =~= hs);
    }
}

/// The groups of files with equal size and hash, as they are found.
fn build_groups(hashed: &Vec<HashedFile>) -> (r: Vec<(u64, String, Vec<String>)>)
    requires
        hashed_total(hashed@) <= u64::MAX,
        hashed@.len() <= u32::MAX,
    ensures
        r@.map_values(|g: (u64, String, Vec<String>)| build_view(g)) == dup_keys(hashed@).map_values(
            |k: (u64, Seq<char>)| (k.0, k.1, members(hashed@, k)),
        ),
        sum_nat(r@.map_values(|g: (u64, String, Vec<String>)| group_weight(build_view(g)))) <= u64::MAX,
        forall|j: int| 0 <= j < r@.len() ==> (#[trigger] r@[j]).2@.len() <= u32::MAX,
{
    let mut groups: Vec<(u64, String, Vec<String>)> = Vec::new();
    let mut i: usize = 0;
    while i < hashed.len()
        invariant
            i <= hashed@.len(),
            hashed_total(hashed@) <= u64::MAX,
            hashed@.len() <= u32::MAX,
            ({
                let p = hashed@.take(i as int);
                &&& groups@.len() == dup_keys(p).len()
                &&& forall|j: int|
                    0 <= j < groups@.len() ==> build_view(#[trigger] groups@[j]) == (
                        dup_keys(p)[j].0,
                        dup_keys(p)[j].1,
                        members(p, dup_keys(p)[j]),
                    )
                &&& sum_nat(groups@.map_values(|g: (u64, String, Vec<String>)| group_weight(build_view(g))))
                    == hashed_total(p)
                &&& forall|j: int| 0 <= j < groups@.len() ==> (#[trigger] groups@[j]).2@.len() <= i
            }),
        decreases hashed@.len() - i,
    {
        let ghost p = hashed@.take(i as int);
        let ghost p1 = hashed@.take(i + 1);
        let ghost ws = groups@.map_values(|g: (u64, String, Vec<String>)| group_weight(build_view(g)));
        proof {
            assert(p1.drop_last() =~= p);
            assert(p1.last() == hashed@[i as int]);
            lemma_keys_distinct(p);
            lemma_hashed_total_prefix(hashed@, i + 1);
        }
        let f = &hashed[i];
        match &f.hash {
            None => {
                proof {
                    assert forall|j: int| 0 <= j < groups@.len() implies build_view(#[trigger] groups@[j]) == (
                        dup_keys(p1)[j].0,
                        dup_keys(p1)[j].1,
                        members(p1, dup_keys(p1)[j]),
                    ) by {
                        assert(members(p1, dup_keys(p)[j]) == members(p, dup_keys(p)[j]));
                    }
                }
            },
            Some(h) => {
                let ghost k = (f.size, h@);
                let mut idx: usize = 0;
                while idx < groups.len() && !(groups[idx].0 == f.size && crate::text::str_eq(
                    groups[idx].1.as_str(),
                    h.as_str(),
                ))
                    invariant
                        idx <= groups@.len(),
                        k == (f.size, h@),
                        forall|q: int| 0 <= q < idx ==> (#[trigger] groups@[q]).0 != k.0 || groups@[q].1@ != k.1,
                    decreases groups@.len() - idx,
                {
                    idx = idx + 1;
                }
                let found = idx < groups.len();
                if found {
                    proof {
                        assert(dup_keys(p)[idx as int] == k);
                        assert(dup_keys(p).contains(k));
                        assert(dup_keys(p1) == dup_keys(p));
                    }
                    let ghost old_groups = groups@;
                    let (sz, hh, mut ps) = groups.remove(idx);
                    ps.push(f.path.clone());
                    groups.insert(idx, (sz, hh, ps));
                    proof {
                        assert(groups@ =~= old_groups.update(idx as int, (sz, hh, ps)));
                        assert forall|j: int| 0 <= j < groups@.len() implies build_view(#[trigger] groups@[j]) == (
                            dup_keys(p1)[j].0,
                            dup_keys(p1)[j].1,
                            members(p1, dup_keys(p1)[j]),
                        ) by {
                            if j == idx {
                                assert(sviews(ps@) =~= sviews(old_groups[j].2@).push(f.path@));
                            } else {
                                assert(groups@[j] == old_groups[j]);
                                assert(dup_keys(p)[j] != k);
                            }
                        }
                        let ws1 = groups@.map_values(|g: (u64, String, Vec<String>)| group_weight(build_view(g)));
                        assert(ws1 =~= ws.update(idx as int, ws[idx as int] + f.size as nat)) by {
                            assert(sviews(ps@).len() == sviews(old_groups[idx as int].2@).len() + 1);
                            assert(group_weight(build_view(groups@[idx as int])) == f.size as nat * (sviews(old_groups[idx as int].2@).len() + 1));
                            assert(f.size as nat * (sviews(old_groups[idx as int].2@).len() + 1) == f.size as nat * sviews(old_groups[idx as int].2@).len() + f.size as nat) by (nonlinear_arith);
                        }
                        lemma_sum_update(ws, idx as int, ws[idx as int] + f.size as nat);
                    }
                } else {
                    proof {
                        assert(!dup_keys(p).contains(k)) by {
                            if dup_keys(p).contains(k) {
                                let q = choose|q: int| 0 <= q < dup_keys(p).len() && dup_keys(p)[q] == k;
                                assert(build_view(groups@[q]) == (
                                    dup_keys(p)[q].0,
                                    dup_keys(p)[q].1,
                                    members(p, dup_keys(p)[q]),
                                ));
                                assert(groups@[q].0 == k.0 && groups@[q].1@ == k.1);
                            }
                        }
                        lemma_not_key_no_members(p, k);
                        assert(dup_keys(p1) == dup_keys(p).push(k));
                    }
                    let ghost old_groups = groups@;
                    let mut ps: Vec<String> = Vec::new();
                    ps.push(f.path.clone());
                    groups.push((f.size, h.clone(), ps));
                    proof {
                        assert forall|j: int| 0 <= j < groups@.len() implies build_view(#[trigger] groups@[j]) == (
                            dup_keys(p1)[j].0,
                            dup_keys(p1)[j].1,
                            members(p1, dup_keys(p1)[j]),
                        ) by {
                            if j == old_groups.len() {
                                assert(sviews(ps@) =~= seq![f.path@]);
                                assert(members(p, k) =~= Seq::<Seq<char>>::empty());
                            } else {
                                assert(groups@[j] == old_groups[j]);
                                assert(dup_keys(p)[j] != k);
                            }
                        }
                        let ws1 = groups@.map_values(|g: (u64, String, Vec<String>)| group_weight(build_view(g)));
                        assert(sviews(ps@).len() == 1);
                        assert(ws1 =~= ws.push(f.size as nat)) by {
                            assert forall|j: int| 0 <= j < ws1.len() implies ws1[j] == ws.push(f.size as nat)[j] by {
                                if j < old_groups.len() {
                                    assert(groups@[j] == old_groups[j]);
                                } else {
                                    let n = sviews(groups@[j].2@).len();
                                    assert(n == 1);
                                    assert(f.size as nat * n == f.size as nat) by (nonlinear_arith)
                                        requires
                                            n == 1,
                                    ;
                                }
                            }
                        }
                        lemma_sum_push(ws, f.size as nat);
                    }
                }
            },
        }
        i = i + 1;
    }
    proof {
        assert(hashed@.take(hashed@.len() as int) =~= hashed@);
    }
    groups
}


pub open spec fn weights(gs: Seq<GroupView>) -> Seq<nat> {
    gs.map_values(|g: GroupView| group_weight(g))
}

pub open spec fn wasted_nats(gs: Seq<GroupView>) -> Seq<nat> {
    gs.map_values(|g: GroupView| wasted(g))
}

pub open spec fn wasted_keys(gs: Seq<GroupView>) -> Seq<u64> {
    gs.map_values(|g: GroupView| wasted(g) as u64)
}

pub open spec fn is_multi(g: GroupView) -> bool {
    g.2.len() >= 2
}

proof fn lemma_filter_weights(gs: Seq<GroupView>)
    ensures
        sum_nat(weights(gs.filter(|g: GroupView| is_multi(g)))) <= sum_nat(weights(gs)),
    decreases gs.len(),
{
    reveal(Seq::filter);
    if gs.len() > 0 {
        lemma_filter_weights(gs.drop_last());
        let f = gs.drop_last().filter(|g: GroupView| is_multi(g));
        assert(weights(gs).drop_last() =~= weights(gs.drop_last()));
        if is_multi(gs.last()) {
            assert(gs.filter(|g: GroupView| is_multi(g)) == f.push(gs.last()));
            assert(weights(f.push(gs.last())).drop_last() =~= weights(f));
        } else {
            assert(gs.filter(|g: GroupView| is_multi(g)) == f);
        }
    }
}

proof fn lemma_sum_le(a: Seq<nat>, b: Seq<nat>)
    requires
        a.len() == b.len(),
        forall|i: int| 0 <= i < a.len() ==> a[i] <= b[i],
    ensures
        sum_nat(a) <= sum_nat(b),
    decreases a.len(),
{
    if a.len() > 0 {
        lemma_sum_le(a.drop_last(), b.drop_last());
    }
}

proof fn lemma_elem_le_sum(s: Seq<nat>, i: int)
    requires
        0 <= i < s.len(),
    ensures
        s[i] <= sum_nat(s),
    decreases s.len(),
{
    if i < s.len() - 1 {
        lemma_elem_le_sum(s.drop_last(), i);
    }
}

/// The groups of duplicates among the hashed files: files with equal size
/// and hash, at least two of them; groups wasting the most space first
/// (equal waste in the order found), at most `max_groups` of them, with the
/// space they waste in total. `files_scanned` is passed through.
pub fn group_duplicates(hashed: &Vec<HashedFile>, max_groups: u32, files_scanned: u64) -> (r: DuplicateScanResult)
    requires
        hashed_total(hashed@) <= u64::MAX,
        hashed@.len() <= u32::MAX,
    ensures
        ({
            let d = duplicate_groups(hashed@);
            let n = if d.len() < max_groups { d.len() } else { max_groups as nat };
            &&& r.groups@.len() == n
            &&& r.files_scanned == files_scanned
            &&& exists|ord: Seq<usize>|
                #[trigger] is_stable_desc_order(wasted_keys(d), ord) && (forall|j: int|
                    0 <= j < n ==> group_is(#[trigger] r.groups@[j], d[ord[j] as int])) && r.total_wasted
                    == sum_nat(at_positions(wasted_nats(d), ord.take(n as int)))
        }),
{
    let built = build_groups(hashed);
    let ghost all = dup_keys(hashed@).map_values(|k: (u64, Seq<char>)| (k.0, k.1, members(hashed@, k)));
    let ghost d = duplicate_groups(hashed@);
    proof {
        assert(built@.map_values(|g: (u64, String, Vec<String>)| build_view(g)) == all);
        assert(d == all.filter(|g: GroupView| is_multi(g)));
        assert(weights(all) =~= built@.map_values(|g: (u64, String, Vec<String>)| group_weight(build_view(g)))) by {
            assert forall|j: int| 0 <= j < all.len() implies weights(all)[j] == built@.map_values(
                |g: (u64, String, Vec<String>)| group_weight(build_view(g)),
            )[j] by {
                assert(build_view(built@[j]) == all[j]);
            }
        }
        lemma_filter_weights(all);
    }
    // the groups of at least two files, with the space each wastes
    let mut multi: Vec<(u64, String, Vec<String>)> = Vec::new();
    let mut i: usize = 0;
    while i < built.len()
        invariant
            i <= built@.len(),
            built@.map_values(|g: (u64, String, Vec<String>)| build_view(g)) == all,
            forall|j: int| 0 <= j < built@.len() ==> (#[trigger] built@[j]).2@.len() <= u32::MAX,
            multi@.map_values(|g: (u64, String, Vec<String>)| build_view(g)) == all.take(i as int).filter(
                |g: GroupView| is_multi(g),
            ),
            forall|j: int| 0 <= j < multi@.len() ==> (#[trigger] multi@[j]).2@.len() <= u32::MAX,
        decreases built@.len() - i,
    {
        proof {
            reveal(Seq::filter);
            assert(all.take(i + 1).drop_last() =~= all.take(i as int));
            assert(build_view(built@[i as int]) == all[i as int]);
        }
        let ghost old_multi = multi@;
        if built[i].2.len() >= 2 {
            let g = &built[i];
            multi.push((g.0, g.1.clone(), crate::text::clone_strings(&g.2)));
            proof {
                assert(multi@.map_values(|g: (u64, String, Vec<String>)| build_view(g)) =~= old_multi.map_values(
                    |g: (u64, String, Vec<String>)| build_view(g),
                ).push(all[i as int]));
            }
        }
        i = i + 1;
    }
    proof {
        assert(all.take(all.len() as int) =~= all);
        assert(multi@.map_values(|g: (u64, String, Vec<String>)| build_view(g)) == d);
        assert forall|j: int| 0 <= j < d.len() implies weights(d)[j] <= u64::MAX by {
            lemma_elem_le_sum(weights(d), j);
        }
    }
    let mut keys: Vec<u64> = Vec::new();
    let mut j: usize = 0;
    while j < multi.len()
        invariant
            j <= multi@.len(),
            multi@.map_values(|g: (u64, String, Vec<String>)| build_view(g)) == d,
            forall|q: int| 0 <= q < multi@.len() ==> (#[trigger] multi@[q]).2@.len() <= u32::MAX,
            forall|q: int| 0 <= q < d.len() ==> weights(d)[q] <= u64::MAX,
            d == all.filter(|g: GroupView| is_multi(g)),
            keys@.len() == j,
            forall|q: int| 0 <= q < j ==> keys@[q] as nat == #[trigger] wasted(d[q]),
        decreases multi@.len() - j,
    {
        let g = &multi[j];
        proof {
            assert(build_view(multi@[j as int]) == d[j as int]);
            assert(is_multi(d[j as int])) by {
                all.lemma_filter_pred(|g: GroupView| is_multi(g), j as int);
            }
        }
        let cnt: u64 = (g.2.len() - 1) as u64;
        proof {
            assert(weights(d)[j as int] == group_weight(d[j as int]));
            assert(g.0 as nat * cnt as nat <= g.0 as nat * (cnt as nat + 1)) by (nonlinear_arith);
        }
        keys.push(g.0 * cnt);
        j = j + 1;
    }
    assert(keys@ =~= wasted_keys(d));
    let ord = stable_desc_order(&keys);
    let limit: usize = if (max_groups as usize) < ord.len() { max_groups as usize } else { ord.len() };
    let ghost wn = wasted_nats(d);
    proof {
        assert forall|q: int| 0 <= q < d.len() implies wn[q] <= weights(d)[q] by {
            assert(wasted(d[q]) <= group_weight(d[q])) by {
                let a = d[q].0 as nat;
                let c = d[q].2.len();
                assert(a * (c - 1) as nat <= a * c) by (nonlinear_arith)
                    requires
                        c >= 1,
                ;
            }
        }
        lemma_sum_le(wn, weights(d));
    }
    let mut groups: Vec<DuplicateGroup> = Vec::new();
    let mut total: u64 = 0;
    let mut t: usize = 0;
    while t < limit
        invariant
            limit <= ord@.len(),
            t <= limit,
            is_stable_desc_order(keys@, ord@),
            keys@ == wasted_keys(d),
            keys@.len() == multi@.len(),
            multi@.map_values(|g: (u64, String, Vec<String>)| build_view(g)) == d,
            forall|q: int| 0 <= q < multi@.len() ==> (#[trigger] multi@[q]).2@.len() <= u32::MAX,
            forall|q: int| 0 <= q < d.len() ==> keys@[q] as nat == #[trigger] wasted(d[q]),
            sum_nat(wn) <= u64::MAX,
            wn == wasted_nats(d),
            groups@.len() == t,
            forall|q: int| 0 <= q < t ==> group_is(#[trigger] groups@[q], d[ord@[q] as int]),
            total == sum_nat(at_positions(wn, ord@.take(t as int))),
        decreases limit - t,
    {
        let x = ord[t];
        let g = &multi[x];
        proof {
            assert(build_view(multi@[x as int]) == d[x as int]);
            assert(at_positions(wn, ord@.take(t + 1)) =~= at_positions(wn, ord@.take(t as int)).push(wn[x as int]));
            lemma_sum_push(at_positions(wn, ord@.take(t as int)), wn[x as int]);
            lemma_sum_positions(wn, ord@.take(t + 1));
        }
        total = total + keys[x];
        groups.push(
            DuplicateGroup {
                hash: g.1.clone(),
                size: g.0,
                wasted_size: keys[x],
                paths: crate::text::clone_strings(&g.2),
                count: g.2.len() as u32,
            },
        );
        t = t + 1;
    }
    DuplicateScanResult { groups, total_wasted: total, files_scanned }
}

} // verus!
