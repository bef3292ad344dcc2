//! Large files: which entries of the home directory are walked, and how the
//! large files found are ranked, rated and described.

use vstd::prelude::*;
use crate::ffi::types::{FFICleanableItem, FFIItemType, FFIRiskLevel};
use crate::order::{goes_before, is_stable_desc_order, stable_desc_order};
use crate::path::{Os, extension, extension_of, file_name, file_name_of, parent_of, parent_of_exec};
use crate::safety::protected_paths::{ProtectionEnv, is_protected, protected_spec};
use crate::scanner::downloads::{is_hidden, is_hidden_exec};
use crate::scanner::size::{byte_size_text, format_size};
use crate::text::{concat2, concat3, contains_seq, lviews, str_contains, str_ends_with, str_in, to_lowercase, unicode_lowercase};

verus! {

/// Options for scanning large files.
#[derive(Debug, Clone)]
pub struct LargeFileScanOptions {
    /// Minimum file size in bytes.
    pub min_size_bytes: u64,
    /// Maximum number of results to return.
    pub max_results: u32,
    /// Include hidden files and directories.
    pub include_hidden: bool,
}

impl Default for LargeFileScanOptions {
    /// At least 100 MiB, at most 100 results, hidden entries left out.
    fn default() -> (r: Self)
        ensures
            r.min_size_bytes == 104857600,
            r.max_results == 100,
            !r.include_hidden,
    {
        LargeFileScanOptions { min_size_bytes: 104857600, max_results: 100, include_hidden: false }
    }
}

/// A file found by the walk, with its size and age.
#[derive(Debug, Clone)]
pub struct LargeFileEntry {
    pub path: String,
    pub size: u64,
    pub is_dir: bool,
    pub age_days: Option<u32>,
}

/// Directory names below which the walk does not go.
pub open spec fn large_skip_names() -> Seq<&'static str> {
    seq!["Library", ".Trash", ".cache", "node_modules", ".git", ".cargo", ".rustup", "target"]
}

/// The path's text holds `/name/` or ends with `/name`.
pub open spec fn mentions_dir(path: Seq<char>, name: Seq<char>) -> bool {
    contains_seq(path, seq!['/'] + name + seq!['/']) || (seq!['/'] + name).is_suffix_of(path)
}

/// The walk enters (or lists) an entry: it is not hidden unless asked for,
/// not protected, and not within a skipped directory.
pub open spec fn enters_large_walk(env: ProtectionEnv, include_hidden: bool, path: Seq<char>, canonical: Seq<char>) -> bool {
    &&& include_hidden || !is_hidden(env.os, path)
    &&& !protected_spec(env, path, canonical)
    &&& forall|i: int| 0 <= i < large_skip_names().len() ==> !mentions_dir(path, (#[trigger] large_skip_names()[i])@)
}

fn mentions_dir_exec(path: &str, name: &str) -> (r: bool)
    ensures
        r == mentions_dir(path@, name@),
{
    let mut a = String::from_str("/");
    a.append(name);
    let b = a.clone();
    a.append("/");
    proof {
        reveal_strlit("/");
        assert(a@ =~= seq!['/'] + name@ + seq!['/']);
        assert(b@ =~= seq!['/'] + name@);
    }
    str_contains(path, a.as_str()) || str_ends_with(path, b.as_str())
}

/// Whether the large-file walk enters the entry at `path` (`canonical` is
/// the path resolved, or the path itself).
pub fn enters_large_file_walk(env: &ProtectionEnv, include_hidden: bool, path: &str, canonical: &str) -> (r: bool)
    ensures
        r == enters_large_walk(*env, include_hidden, path@, canonical@),
{
    if !include_hidden && is_hidden_exec(env.os, path) {
        return false;
    }
    if is_protected(env, path, canonical) {
        return false;
    }
    let names: Vec<&str> = vec!["Library", ".Trash", ".cache", "node_modules", ".git", ".cargo", ".rustup", "target"];
    assert(names@ == large_skip_names());
    let mut i: usize = 0;
    while i < names.len()
        invariant
            i <= names.len(),
            names@ == large_skip_names(),
            forall|j: int| 0 <= j < i ==> !mentions_dir(path@, (#[trigger] large_skip_names()[j])@),
        decreases names.len() - i,
    {
        if mentions_dir_exec(path, names[i]) {
            return false;
        }
        i = i + 1;
    }
    true
}

pub open spec fn high_risk_exts() -> Seq<&'static str> {
    seq![
        "doc", "docx", "xls", "xlsx", "ppt", "pptx", "pdf", "key", "pages", "numbers", "db", "sqlite",
        "sqlite3", "sql", "rs", "py", "js", "ts", "swift", "java", "cpp", "c", "h", "go",
    ]
}

pub open spec fn low_risk_exts() -> Seq<&'static str> {
    seq![
        "dmg", "pkg", "iso", "zip", "tar", "gz", "rar", "7z", "mp4", "mov", "avi", "mkv", "webm", "m4v",
        "mp3", "wav", "flac", "m4a", "aac",
    ]
}

/// Risk of removing a large file, from its lower-cased path and extension:
/// documents, databases and source code are high risk; downloads, archives,
/// installers and media are low risk; anything else is medium.
pub open spec fn risk_for(lower_path: Seq<char>, lower_ext: Option<Seq<char>>) -> FFIRiskLevel {
    if contains_seq(lower_path, "/documents/"@) {
        FFIRiskLevel::High
    } else if lower_ext matches Some(e) && lviews(high_risk_exts()).contains(e) {
        FFIRiskLevel::High
    } else if contains_seq(lower_path, "/downloads/"@) {
        FFIRiskLevel::Low
    } else if lower_ext matches Some(e) && lviews(low_risk_exts()).contains(e) {
        FFIRiskLevel::Low
    } else {
        FFIRiskLevel::Medium
    }
}

/// Risk of a large file from its lower-cased path and lower-cased
/// extension.
pub fn risk_for_lowercase(lower_path: &str, lower_ext: &Option<String>) -> (r: FFIRiskLevel)
    ensures
        r == risk_for(lower_path@, crate::path::oview(*lower_ext)),
{
    let high: Vec<&str> = vec![
        "doc", "docx", "xls", "xlsx", "ppt", "pptx", "pdf", "key", "pages", "numbers", "db", "sqlite",
        "sqlite3", "sql", "rs", "py", "js", "ts", "swift", "java", "cpp", "c", "h", "go",
    ];
    let low: Vec<&str> = vec![
        "dmg", "pkg", "iso", "zip", "tar", "gz", "rar", "7z", "mp4", "mov", "avi", "mkv", "webm", "m4v",
        "mp3", "wav", "flac", "m4a", "aac",
    ];
    assert(high@ == high_risk_exts());
    assert(low@ == low_risk_exts());
    if str_contains(lower_path, "/documents/") {
        return FFIRiskLevel::High;
    }
    match lower_ext {
        Some(e) => {
            if str_in(e.as_str(), &high) {
                return FFIRiskLevel::High;
            }
        },
        None => {},
    }
    if str_contains(lower_path, "/downloads/") {
        return FFIRiskLevel::Low;
    }
    match lower_ext {
        Some(e) => {
            if str_in(e.as_str(), &low) {
                return FFIRiskLevel::Low;
            }
        },
        None => {},
    }
    FFIRiskLevel::Medium
}

pub open spec fn path_risk(os: Os, path: Seq<char>) -> FFIRiskLevel {
    risk_for(
        unicode_lowercase(path),
        match extension(os, path) {
            Some(e) => Some(unicode_lowercase(e)),
            None => None,
        },
    )
}

/// Risk of removing the large file at `path`.
pub fn determine_risk(os: Os, path: &str) -> (r: FFIRiskLevel)
    requires
        path@.len() < 0x7fff_ffff_ffff_ffff,
    ensures
        r == path_risk(os, path@),
{
    let lower = to_lowercase(path);
    let ext = match extension_of(os, path) {
        Some(e) => Some(to_lowercase(e.as_str())),
        None => None,
    };
    risk_for_lowercase(lower.as_str(), &ext)
}

/// Description of a large file: its name, the name of the directory holding
/// it when there is one, and its size.
pub open spec fn large_description(os: Os, path: Seq<char>, size: u64) -> Seq<char> {
    let name = match file_name(os, path) {
        Some(n) => n,
        None => "Unknown"@,
    };
    let parent = match parent_of(os, path) {
        Some(p) => file_name(os, p),
        None => None,
    };
    match parent {
        Some(p) => name + " in "@ + p + " ("@ + byte_size_text(size) + ")"@,
        None => name + " ("@ + byte_size_text(size) + ")"@,
    }
}

/// Describe the large file at `path` of `size` bytes.
pub fn format_description(os: Os, path: &str, size: u64) -> (r: String)
    requires
        path@.len() < 0x7fff_ffff_ffff_ffff,
    ensures
        r@ == large_description(os, path@, size),
{
    let name = match file_name_of(os, path) {
        Some(n) => n,
        None => String::from_str("Unknown"),
    };
    let parent = match parent_of_exec(os, path) {
        Some(p) => file_name_of(os, p.as_str()),
        None => None,
    };
    let size_str = format_size(size);
    match parent {
        Some(p) => {
            let mut r = concat3(name.as_str(), " in ", p.as_str());
            r.append(" (");
            r.append(size_str.as_str());
            r.append(")");
            r
        },
        None => {
            let mut r = concat3(name.as_str(), " (", size_str.as_str());
            r.append(")");
            r
        },
    }
}

/// The item listed for a large file.
pub open spec fn large_item(os: Os, item: FFICleanableItem, e: LargeFileEntry) -> bool {
    &&& item.path@ == e.path@
    &&& item.size == e.size
    &&& item.item_type == (if e.is_dir { FFIItemType::Directory } else { FFIItemType::File })
    &&& item.age_days == e.age_days
    &&& item.description@ == large_description(os, e.path@, e.size)
    &&& !item.requires_force
    &&& item.risk_level == path_risk(os, e.path@)
}

/// The entries at least `min` bytes large, in the order found.
pub open spec fn at_least(es: Seq<LargeFileEntry>, min: u64) -> Seq<LargeFileEntry>
    decreases es.len(),
{
    if es.len() == 0 {
        seq![]
    } else {
        let k = at_least(es.drop_last(), min);
        if es.last().size >= min { k.push(es.last()) } else { k }
    }
}

proof fn lemma_at_least_paths(es: Seq<LargeFileEntry>, min: u64)
    requires
        forall|i: int| 0 <= i < es.len() ==> (#[trigger] es[i]).path@.len() < 0x7fff_ffff_ffff_ffff,
    ensures
        forall|j: int| 0 <= j < at_least(es, min).len() ==> (#[trigger] at_least(es, min)[j]).path@.len() < 0x7fff_ffff_ffff_ffff,
    decreases es.len(),
{
    if es.len() > 0 {
        let d = es.drop_last();
        assert forall|i: int| 0 <= i < d.len() implies (#[trigger] d[i]).path@.len() < 0x7fff_ffff_ffff_ffff by {
            assert(d[i] == es[i]);
        }
        lemma_at_least_paths(d, min);
    }
}

pub open spec fn large_sizes(es: Seq<LargeFileEntry>) -> Seq<u64> {
    es.map_values(|e: LargeFileEntry| e.size)
}

/// The large files of a scan: the files found (in walk order) that are at
/// least the minimum size, largest first (equal sizes in the order found),
/// at most `max_results` of them, each rated and described.
pub fn select_large_files(os: Os, found: &Vec<LargeFileEntry>, options: &LargeFileScanOptions) -> (r: Vec<FFICleanableItem>)
    requires
        forall|i: int| 0 <= i < found@.len() ==> (#[trigger] found@[i]).path@.len() < 0x7fff_ffff_ffff_ffff,
    ensures
        ({
            let k = at_least(found@, options.min_size_bytes);
            &&& r@.len() == if k.len() < options.max_results { k.len() } else { options.max_results as nat }
            &&& exists|ord: Seq<usize>|
                #[trigger] is_stable_desc_order(large_sizes(k), ord) && forall|j: int|
                    0 <= j < r@.len() ==> large_item(os, #[trigger] r@[j], k[ord[j] as int])
        }),
        r@.len() <= options.max_results,
        forall|j: int| 0 <= j < r@.len() ==> (#[trigger] r@[j]).size >= options.min_size_bytes,
        forall|i: int, j: int| 0 <= i < j < r@.len() ==> (#[trigger] r@[i]).size >= (#[trigger] r@[j]).size,
{
    let ghost k = at_least(found@, options.min_size_bytes);
    let mut kept: Vec<&LargeFileEntry> = Vec::new();
    let mut i: usize = 0;
    while i < found.len()
        invariant
            i <= found@.len(),
            kept@.len() == at_least(found@.take(i as int), options.min_size_bytes).len(),
            forall|j: int| 0 <= j < kept@.len() ==> *(#[trigger] kept@[j]) == at_least(found@.take(i as int), options.min_size_bytes)[j],
        decreases found@.len() - i,
    {
        proof {
            assert(found@.take(i + 1).drop_last() =~= found@.take(i as int));
        }
        if found[i].size >= options.min_size_bytes {
            kept.push(&found[i]);
        }
        i = i + 1;
    }
    proof {
        assert(found@.take(found@.len() as int) =~= found@);
    }
    let mut sizes: Vec<u64> = Vec::new();
    let mut j: usize = 0;
    while j < kept.len()
        invariant
            j <= kept@.len(),
            sizes@.len() == j,
            forall|q: int| 0 <= q < j ==> sizes@[q] == (#[trigger] kept@[q]).size,
        decreases kept@.len() - j,
    {
        sizes.push(kept[j].size);
        j = j + 1;
    }
    let ord = stable_desc_order(&sizes);
    proof {
        assert(large_sizes(k) =~= sizes@) by {
            assert forall|q: int| 0 <= q < sizes@.len() implies large_sizes(k)[q] == sizes@[q] by {
                assert(*kept@[q] == k[q]);
            }
        }
        lemma_at_least_paths(found@, options.min_size_bytes);
    }
    let limit: usize = if (options.max_results as usize) < ord.len() { options.max_results as usize } else { ord.len() };
    let mut out: Vec<FFICleanableItem> = Vec::new();
    let mut t: usize = 0;
    while t < limit
        invariant
            limit <= ord@.len(),
            t <= limit,
            is_stable_desc_order(sizes@, ord@),
            sizes@.len() == kept@.len(),
            kept@.len() == k.len(),
            forall|q: int| 0 <= q < kept@.len() ==> *(#[trigger] kept@[q]) == k[q],
            forall|q: int| 0 <= q < found@.len() ==> (#[trigger] found@[q]).path@.len() < 0x7fff_ffff_ffff_ffff,
            forall|q: int| 0 <= q < k.len() ==> (#[trigger] k[q]).path@.len() < 0x7fff_ffff_ffff_ffff,
            out@.len() == t,
            forall|q: int| 0 <= q < t ==> large_item(os, #[trigger] out@[q], k[ord@[q] as int]),
        decreases limit - t,
    {
        let e = kept[ord[t]];
        out.push(
            FFICleanableItem {
                path: e.path.clone(),
                size: e.size,
                item_type: if e.is_dir { FFIItemType::Directory } else { FFIItemType::File },
                age_days: e.age_days,
                description: format_description(os, e.path.as_str(), e.size),
                requires_force: false,
                risk_level: determine_risk(os, e.path.as_str()),
            },
        );
        t = t + 1;
    }
    proof {
        law_large_files_are_those_over_the_minimum(found@, options.min_size_bytes, 0);
        assert forall|j: int| 0 <= j < out@.len() implies (#[trigger] out@[j]).size >= options.min_size_bytes by {
            assert(ord@[j] < k.len());
        }
        assert forall|i: int, j: int| 0 <= i < j < out@.len() implies (#[trigger] out@[i]).size >= (#[trigger] out@[j]).size by {
            assert(goes_before(sizes@, ord@[i] as int, ord@[j] as int));
            assert(sizes@[ord@[i] as int] == large_sizes(k)[ord@[i] as int]);
            assert(sizes@[ord@[j] as int] == large_sizes(k)[ord@[j] as int]);
        }
    }
    out
}


/// The extension of a path, lower-cased.
pub open spec fn lowered_extension(os: Os, path: Seq<char>) -> Option<Seq<char>> {
    match extension(os, path) {
        Some(e) => Some(unicode_lowercase(e)),
        None => None,
    }
}

/// A large file whose lower-cased extension is a document, database or
/// source-code extension is rated high risk wherever it lies; none is ever
/// rated low.
pub proof fn law_documents_databases_and_code_are_high_risk(os: Os, path: Seq<char>, x: Seq<char>)
    requires
        lowered_extension(os, path) == Some(x),
        x == "doc"@ || x == "docx"@ || x == "xls"@ || x == "xlsx"@ || x == "ppt"@ || x == "pptx"@ || x == "pdf"@ || x == "key"@ || x == "pages"@ || x == "numbers"@ || x == "db"@ || x == "sqlite"@ || x == "sqlite3"@ || x == "sql"@ || x == "rs"@ || x == "py"@ || x == "js"@ || x == "ts"@ || x == "swift"@ || x == "java"@ || x == "cpp"@ || x == "c"@ || x == "h"@ || x == "go"@,
    ensures
        path_risk(os, path) == FFIRiskLevel::High,
        path_risk(os, path) != FFIRiskLevel::Low,
{
    let l = lviews(high_risk_exts());
    assert(l =~= seq!["doc"@, "docx"@, "xls"@, "xlsx"@, "ppt"@, "pptx"@, "pdf"@, "key"@, "pages"@, "numbers"@, "db"@, "sqlite"@, "sqlite3"@, "sql"@, "rs"@, "py"@, "js"@, "ts"@, "swift"@, "java"@, "cpp"@, "c"@, "h"@, "go"@]);
    if !contains_seq(unicode_lowercase(path), "/documents/"@) {
        if x == "doc"@ {
            assert(l[0] == x);
        } else if x == "docx"@ {
            assert(l[1] == x);
        } else if x == "xls"@ {
            assert(l[2] == x);
        } else if x == "xlsx"@ {
            assert(l[3] == x);
        } else if x == "ppt"@ {
            assert(l[4] == x);
        } else if x == "pptx"@ {
            assert(l[5] == x);
        } else if x == "pdf"@ {
            assert(l[6] == x);
        } else if x == "key"@ {
            assert(l[7] == x);
        } else if x == "pages"@ {
            assert(l[8] == x);
        } else if x == "numbers"@ {
            assert(l[9] == x);
        } else if x == "db"@ {
            assert(l[10] == x);
        } else if x == "sqlite"@ {
            assert(l[11] == x);
        } else if x == "sqlite3"@ {
            assert(l[12] == x);
        } else if x == "sql"@ {
            assert(l[13] == x);
        } else if x == "rs"@ {
            assert(l[14] == x);
        } else if x == "py"@ {
            assert(l[15] == x);
        } else if x == "js"@ {
            assert(l[16] == x);
        } else if x == "ts"@ {
            assert(l[17] == x);
        } else if x == "swift"@ {
            assert(l[18] == x);
        } else if x == "java"@ {
            assert(l[19] == x);
        } else if x == "cpp"@ {
            assert(l[20] == x);
        } else if x == "c"@ {
            assert(l[21] == x);
        } else if x == "h"@ {
            assert(l[22] == x);
        } else if x == "go"@ {
            assert(l[23] == x);
        }
    }
}

/// A large file under a `documents` directory is rated high risk whatever
/// it is.
pub proof fn law_documents_folder_is_high_risk(os: Os, path: Seq<char>)
    requires
        contains_seq(unicode_lowercase(path), "/documents/"@),
    ensures
        path_risk(os, path) == FFIRiskLevel::High,
{
}

/// A large file outside any `documents` directory whose lower-cased
/// extension is an installer, archive or media extension is rated low
/// risk.
pub proof fn law_installers_archives_and_media_are_low_risk(os: Os, path: Seq<char>, x: Seq<char>)
    requires
        !contains_seq(unicode_lowercase(path), "/documents/"@),
        lowered_extension(os, path) == Some(x),
        x == "dmg"@ || x == "pkg"@ || x == "iso"@ || x == "zip"@ || x == "tar"@ || x == "gz"@ || x == "rar"@ || x == "7z"@ || x == "mp4"@ || x == "mov"@ || x == "avi"@ || x == "mkv"@ || x == "webm"@ || x == "m4v"@ || x == "mp3"@ || x == "wav"@ || x == "flac"@ || x == "m4a"@ || x == "aac"@,
    ensures
        path_risk(os, path) == FFIRiskLevel::Low,
{
    let h = lviews(high_risk_exts());
    let l = lviews(low_risk_exts());
    assert(h =~= seq!["doc"@, "docx"@, "xls"@, "xlsx"@, "ppt"@, "pptx"@, "pdf"@, "key"@, "pages"@, "numbers"@, "db"@, "sqlite"@, "sqlite3"@, "sql"@, "rs"@, "py"@, "js"@, "ts"@, "swift"@, "java"@, "cpp"@, "c"@, "h"@, "go"@]);
    assert(l =~= seq!["dmg"@, "pkg"@, "iso"@, "zip"@, "tar"@, "gz"@, "rar"@, "7z"@, "mp4"@, "mov"@, "avi"@, "mkv"@, "webm"@, "m4v"@, "mp3"@, "wav"@, "flac"@, "m4a"@, "aac"@]);
    reveal_strlit("doc");
    reveal_strlit("docx");
    reveal_strlit("xls");
    reveal_strlit("xlsx");
    reveal_strlit("ppt");
    reveal_strlit("pptx");
    reveal_strlit("pdf");
    reveal_strlit("key");
    reveal_strlit("pages");
    reveal_strlit("numbers");
    reveal_strlit("db");
    reveal_strlit("sqlite");
    reveal_strlit("sqlite3");
    reveal_strlit("sql");
    reveal_strlit("rs");
    reveal_strlit("py");
    reveal_strlit("js");
    reveal_strlit("ts");
    reveal_strlit("swift");
    reveal_strlit("java");
    reveal_strlit("cpp");
    reveal_strlit("c");
    reveal_strlit("h");
    reveal_strlit("go");
    reveal_strlit("dmg");
    reveal_strlit("pkg");
    reveal_strlit("iso");
    reveal_strlit("zip");
    reveal_strlit("tar");
    reveal_strlit("gz");
    reveal_strlit("rar");
    reveal_strlit("7z");
    reveal_strlit("mp4");
    reveal_strlit("mov");
    reveal_strlit("avi");
    reveal_strlit("mkv");
    reveal_strlit("webm");
    reveal_strlit("m4v");
    reveal_strlit("mp3");
    reveal_strlit("wav");
    reveal_strlit("flac");
    reveal_strlit("m4a");
    reveal_strlit("aac");
    assert forall|i: int| 0 <= i < h.len() implies h[i] != x by {
        if h[i] == x {
            assert(h[i].len() == x.len());
            assert(h[i][0] == x[0]);
            assert(h[i][h[i].len() - 1] == x[x.len() - 1]);
        }
    }
    if !contains_seq(unicode_lowercase(path), "/downloads/"@) {
        if x == "dmg"@ {
            assert(l[0] == x);
        } else if x == "pkg"@ {
            assert(l[1] == x);
        } else if x == "iso"@ {
            assert(l[2] == x);
        } else if x == "zip"@ {
            assert(l[3] == x);
        } else if x == "tar"@ {
            assert(l[4] == x);
        } else if x == "gz"@ {
            assert(l[5] == x);
        } else if x == "rar"@ {
            assert(l[6] == x);
        } else if x == "7z"@ {
            assert(l[7] == x);
        } else if x == "mp4"@ {
            assert(l[8] == x);
        } else if x == "mov"@ {
            assert(l[9] == x);
        } else if x == "avi"@ {
            assert(l[10] == x);
        } else if x == "mkv"@ {
            assert(l[11] == x);
        } else if x == "webm"@ {
            assert(l[12] == x);
        } else if x == "m4v"@ {
            assert(l[13] == x);
        } else if x == "mp3"@ {
            assert(l[14] == x);
        } else if x == "wav"@ {
            assert(l[15] == x);
        } else if x == "flac"@ {
            assert(l[16] == x);
        } else if x == "m4a"@ {
            assert(l[17] == x);
        } else if x == "aac"@ {
            assert(l[18] == x);
        }
    }
}


/// A large file outside any `documents` directory but under a `downloads`
/// directory is rated low risk unless its lower-cased extension is a
/// document, database or source-code extension.
pub proof fn law_downloads_folder_is_low_risk(os: Os, path: Seq<char>)
    requires
        !contains_seq(unicode_lowercase(path), "/documents/"@),
        contains_seq(unicode_lowercase(path), "/downloads/"@),
        match lowered_extension(os, path) {
            Some(x) => !(x == "doc"@ || x == "docx"@ || x == "xls"@ || x == "xlsx"@ || x == "ppt"@ || x == "pptx"@ || x == "pdf"@ || x == "key"@ || x == "pages"@ || x == "numbers"@ || x == "db"@ || x == "sqlite"@ || x == "sqlite3"@ || x == "sql"@ || x == "rs"@ || x == "py"@ || x == "js"@ || x == "ts"@ || x == "swift"@ || x == "java"@ || x == "cpp"@ || x == "c"@ || x == "h"@ || x == "go"@),
            None => true,
        },
    ensures
        path_risk(os, path) == FFIRiskLevel::Low,
{
    let h = lviews(high_risk_exts());
    assert(h =~= seq!["doc"@, "docx"@, "xls"@, "xlsx"@, "ppt"@, "pptx"@, "pdf"@, "key"@, "pages"@, "numbers"@, "db"@, "sqlite"@, "sqlite3"@, "sql"@, "rs"@, "py"@, "js"@, "ts"@, "swift"@, "java"@, "cpp"@, "c"@, "h"@, "go"@]);
    match lowered_extension(os, path) {
        Some(x) => {
            assert forall|i: int| 0 <= i < h.len() implies h[i] != x by {}
        },
        None => {},
    }
}

/// Any other large file is rated medium risk: outside `documents` and
/// `downloads` directories, with an extension (if any) on none of the
/// high-risk and low-risk lists.
pub proof fn law_other_large_files_are_medium_risk(os: Os, path: Seq<char>)
    requires
        !contains_seq(unicode_lowercase(path), "/documents/"@),
        !contains_seq(unicode_lowercase(path), "/downloads/"@),
        match lowered_extension(os, path) {
            Some(x) => !(x == "doc"@ || x == "docx"@ || x == "xls"@ || x == "xlsx"@ || x == "ppt"@ || x == "pptx"@ || x == "pdf"@ || x == "key"@ || x == "pages"@ || x == "numbers"@ || x == "db"@ || x == "sqlite"@ || x == "sqlite3"@ || x == "sql"@ || x == "rs"@ || x == "py"@ || x == "js"@ || x == "ts"@ || x == "swift"@ || x == "java"@ || x == "cpp"@ || x == "c"@ || x == "h"@ || x == "go"@) && !(x == "dmg"@ || x == "pkg"@ || x == "iso"@ || x == "zip"@ || x == "tar"@ || x == "gz"@ || x == "rar"@ || x == "7z"@ || x == "mp4"@ || x == "mov"@ || x == "avi"@ || x == "mkv"@ || x == "webm"@ || x == "m4v"@ || x == "mp3"@ || x == "wav"@ || x == "flac"@ || x == "m4a"@ || x == "aac"@),
            None => true,
        },
    ensures
        path_risk(os, path) == FFIRiskLevel::Medium,
{
    let h = lviews(high_risk_exts());
    let l = lviews(low_risk_exts());
    assert(h =~= seq!["doc"@, "docx"@, "xls"@, "xlsx"@, "ppt"@, "pptx"@, "pdf"@, "key"@, "pages"@, "numbers"@, "db"@, "sqlite"@, "sqlite3"@, "sql"@, "rs"@, "py"@, "js"@, "ts"@, "swift"@, "java"@, "cpp"@, "c"@, "h"@, "go"@]);
    assert(l =~= seq!["dmg"@, "pkg"@, "iso"@, "zip"@, "tar"@, "gz"@, "rar"@, "7z"@, "mp4"@, "mov"@, "avi"@, "mkv"@, "webm"@, "m4v"@, "mp3"@, "wav"@, "flac"@, "m4a"@, "aac"@]);
    match lowered_extension(os, path) {
        Some(x) => {
            assert forall|i: int| 0 <= i < h.len() implies h[i] != x by {}
            assert forall|i: int| 0 <= i < l.len() implies l[i] != x by {}
        },
        None => {},
    }
}

/// The files kept by size are exactly those at least the minimum size: each
/// kept file is that large, and each found file that large is kept.
pub proof fn law_large_files_are_those_over_the_minimum(es: Seq<LargeFileEntry>, min: u64, m: int)
    ensures
        forall|i: int| 0 <= i < at_least(es, min).len() ==> (#[trigger] at_least(es, min)[i]).size >= min,
        0 <= m < es.len() && es[m].size >= min ==> at_least(es, min).contains(es[m]),
    decreases es.len(),
{
    if es.len() > 0 {
        let d = es.drop_last();
        law_large_files_are_those_over_the_minimum(d, min, m);
        if 0 <= m < es.len() - 1 && es[m].size >= min {
            assert(d[m] == es[m]);
            let i = choose|i: int| 0 <= i < at_least(d, min).len() && at_least(d, min)[i] == es[m];
            assert(at_least(es, min)[i] == es[m]);
        }
        if m == es.len() - 1 && es[m].size >= min {
            assert(at_least(es, min)[at_least(d, min).len() as int] == es[m]);
        }
    }
}

} // verus!
