//! Downloads folder analysis: each item is put in a category by its type and
//! age, and the items are listed largest first with totals per category.
//!
//! Walking the folder and reading metadata is the caller's part; it hands in
//! a `DownloadEntry` for each entry found directly in the folder.

use vstd::prelude::*;
use crate::order::{goes_before, is_stable_desc_order, stable_desc_order};
use crate::path::{Os, extension, extension_of, file_name, file_name_of, join, join_path};
use crate::safety::protected_paths::{ProtectionEnv, is_protected, protected_spec};
use crate::text::{chars_of, concat3, lviews, str_in, to_lowercase, unicode_lowercase};
use crate::ffi::types::{FFICleanableItem, FFIItemType, FFIRiskLevel};
use crate::scanner::size::{byte_size_text, format_size};

verus! {

/// Category of a download item.
#[derive(Debug, Clone, Copy, PartialEq, Eq, Structural)]
pub enum DownloadCategory {
    /// Files older than the age threshold.
    OldFiles,
    /// Archive files (zip, tar, gz, ...).
    Archives,
    /// Large media files (videos, audio).
    LargeMedia,
    /// Document files.
    Documents,
    /// Disk images and installers.
    Installers,
    /// Other files.
    Other,
}

pub open spec fn category_name(c: DownloadCategory) -> Seq<char> {
    match c {
        DownloadCategory::OldFiles => "Old Files (30+ days)"@,
        DownloadCategory::Archives => "Archives"@,
        DownloadCategory::LargeMedia => "Large Media"@,
        DownloadCategory::Documents => "Documents"@,
        DownloadCategory::Installers => "Installers"@,
        DownloadCategory::Other => "Other"@,
    }
}

impl DownloadCategory {
    pub fn as_str(&self) -> (r: &'static str)
        ensures
            r@ == category_name(*self),
    {
        match self {
            DownloadCategory::OldFiles => "Old Files (30+ days)",
            DownloadCategory::Archives => "Archives",
            DownloadCategory::LargeMedia => "Large Media",
            DownloadCategory::Documents => "Documents",
            DownloadCategory::Installers => "Installers",
            DownloadCategory::Other => "Other",
        }
    }
}

/// A categorized download item.
#[derive(Debug, Clone)]
pub struct DownloadItem {
    pub path: String,
    pub size: u64,
    pub category: DownloadCategory,
    pub age_days: Option<u32>,
    pub is_dir: bool,
}

/// Result of a downloads scan.
#[derive(Debug, Clone)]
pub struct DownloadsScanResult {
    /// All download items found, largest first.
    pub items: Vec<DownloadItem>,
    /// Total size of all items.
    pub total_size: u64,
    /// Size by category, in the order of the categories' declaration.
    pub size_by_category: [(DownloadCategory, u64); 6],
}

/// Options for scanning downloads.
#[derive(Debug, Clone)]
pub struct DownloadsScanOptions {
    /// Age threshold for "old" files, in days.
    pub old_threshold_days: u32,
    /// Include hidden files.
    pub include_hidden: bool,
}

impl Default for DownloadsScanOptions {
    fn default() -> (r: Self)
        ensures
            r.old_threshold_days == 30,
            !r.include_hidden,
    {
        DownloadsScanOptions { old_threshold_days: 30, include_hidden: false }
    }
}

/// What the file system says of an entry of the downloads folder.
#[derive(Debug, Clone, Copy, PartialEq, Eq, Structural)]
pub enum EntryKind {
    File,
    Dir,
    /// Neither a file nor a directory (a symlink, a socket...).
    Other,
    /// Its metadata could not be read.
    Unreadable,
}

/// An entry found directly in the downloads folder.
#[derive(Debug, Clone)]
pub struct DownloadEntry {
    pub path: String,
    /// The path resolved, or the path itself when it cannot be resolved.
    pub canonical: String,
    pub kind: EntryKind,
    /// A file's length, or the total length of the files in a directory.
    pub size: u64,
    /// Days since the last modification, when known.
    pub age_days: Option<u32>,
}

pub open spec fn installer_exts() -> Seq<&'static str> {
    seq!["dmg", "pkg", "iso", "app", "mpkg"]
}

pub open spec fn archive_exts() -> Seq<&'static str> {
    seq!["zip", "tar", "gz", "bz2", "xz", "rar", "7z", "tgz", "tbz2"]
}

pub open spec fn video_exts() -> Seq<&'static str> {
    seq!["mp4", "mov", "avi", "mkv", "webm", "m4v", "wmv", "flv"]
}

pub open spec fn audio_exts() -> Seq<&'static str> {
    seq!["mp3", "wav", "flac", "m4a", "aac", "ogg", "wma"]
}

pub open spec fn document_exts() -> Seq<&'static str> {
    seq!["pdf", "doc", "docx", "xls", "xlsx", "ppt", "pptx", "txt", "rtf", "odt", "ods", "odp"]
}

/// Media above this size counts as large (50 MiB).
pub const LARGE_MEDIA_BYTES: u64 = 52428800;

/// The category of an item from its lower-cased extension, size and age:
/// installers first, then archives, large media, documents, old files.
pub open spec fn category_for(ext: Seq<char>, size: u64, age_days: Option<u32>, old_threshold: u32) -> DownloadCategory {
    if lviews(installer_exts()).contains(ext) {
        DownloadCategory::Installers
    } else if lviews(archive_exts()).contains(ext) {
        DownloadCategory::Archives
    } else if size > LARGE_MEDIA_BYTES && (lviews(video_exts()).contains(ext) || lviews(audio_exts()).contains(ext)) {
        DownloadCategory::LargeMedia
    } else if lviews(document_exts()).contains(ext) {
        DownloadCategory::Documents
    } else if age_days matches Some(d) && d >= old_threshold {
        DownloadCategory::OldFiles
    } else {
        DownloadCategory::Other
    }
}

/// The lower-cased extension of a path, empty when it has none.
pub open spec fn lower_extension(os: Os, path: Seq<char>) -> Seq<char> {
    match extension(os, path) {
        Some(e) => unicode_lowercase(e),
        None => seq![],
    }
}

pub open spec fn download_category(os: Os, path: Seq<char>, size: u64, age_days: Option<u32>, old_threshold: u32) -> DownloadCategory {
    category_for(lower_extension(os, path), size, age_days, old_threshold)
}

/// Category of an item from its lower-cased extension (empty when it has
/// none), its size and its age.
pub fn categorize_by_extension(ext: &str, size: u64, age_days: Option<u32>, old_threshold: u32) -> (r: DownloadCategory)
    ensures
        r == category_for(ext@, size, age_days, old_threshold),
{
    let installers: Vec<&str> = vec!["dmg", "pkg", "iso", "app", "mpkg"];
    assert(installers@ == installer_exts());
    if str_in(ext, &installers) {
        return DownloadCategory::Installers;
    }
    let archives: Vec<&str> = vec!["zip", "tar", "gz", "bz2", "xz", "rar", "7z", "tgz", "tbz2"];
    assert(archives@ == archive_exts());
    if str_in(ext, &archives) {
        return DownloadCategory::Archives;
    }
    if size > LARGE_MEDIA_BYTES {
        let video: Vec<&str> = vec!["mp4", "mov", "avi", "mkv", "webm", "m4v", "wmv", "flv"];
        assert(video@ == video_exts());
        if str_in(ext, &video) {
            return DownloadCategory::LargeMedia;
        }
        let audio: Vec<&str> = vec!["mp3", "wav", "flac", "m4a", "aac", "ogg", "wma"];
        assert(audio@ == audio_exts());
        if str_in(ext, &audio) {
            return DownloadCategory::LargeMedia;
        }
    }
    let docs: Vec<&str> = vec![
        "pdf", "doc", "docx", "xls", "xlsx", "ppt", "pptx", "txt", "rtf", "odt", "ods", "odp",
    ];
    assert(docs@ == document_exts());
    if str_in(ext, &docs) {
        return DownloadCategory::Documents;
    }
    match age_days {
        Some(days) => {
            if days >= old_threshold {
                return DownloadCategory::OldFiles;
            }
        },
        None => {},
    }
    DownloadCategory::Other
}

/// Category of a download item at `path`.
pub fn categorize_download(os: Os, path: &str, size: u64, age_days: Option<u32>, old_threshold: u32) -> (r: DownloadCategory)
    requires
        path@.len() < 0x7fff_ffff_ffff_ffff,
    ensures
        r == download_category(os, path@, size, age_days, old_threshold),
{
    let ext = match extension_of(os, path) {
        Some(e) => to_lowercase(e.as_str()),
        None => String::new(),
    };
    categorize_by_extension(ext.as_str(), size, age_days, old_threshold)
}

/// A hidden entry: its file name starts with a dot.
pub open spec fn is_hidden(os: Os, path: Seq<char>) -> bool {
    file_name(os, path) matches Some(n) && n.len() > 0 && n[0] == '.'
}

/// Whether the entry at `path` is hidden.
pub fn is_hidden_exec(os: Os, path: &str) -> (r: bool)
    ensures
        r == is_hidden(os, path@),
{
    match file_name_of(os, path) {
        Some(n) => {
            let c = chars_of(n.as_str());
            c.len() > 0 && c[0] == '.'
        },
        None => false,
    }
}

/// An entry is listed: it is not protected, it is not hidden (unless hidden
/// entries are asked for), and it is a file or a directory.
pub open spec fn is_listed(env: ProtectionEnv, opts: DownloadsScanOptions, e: DownloadEntry) -> bool {
    &&& !protected_spec(env, e.path@, e.canonical@)
    &&& opts.include_hidden || !is_hidden(env.os, e.path@)
    &&& (e.kind == EntryKind::File || e.kind == EntryKind::Dir)
}

/// The listed entries, in the order found.
pub open spec fn listed(env: ProtectionEnv, opts: DownloadsScanOptions, es: Seq<DownloadEntry>) -> Seq<DownloadEntry>
    decreases es.len(),
{
    if es.len() == 0 {
        seq![]
    } else {
        let k = listed(env, opts, es.drop_last());
        if is_listed(env, opts, es.last()) { k.push(es.last()) } else { k }
    }
}

pub open spec fn entry_sizes(es: Seq<DownloadEntry>) -> Seq<u64> {
    es.map_values(|e: DownloadEntry| e.size)
}

pub open spec fn size_total(es: Seq<DownloadEntry>) -> nat
    decreases es.len(),
{
    if es.len() == 0 { 0 } else { size_total(es.drop_last()) + es.last().size as nat }
}

pub open spec fn entry_category(os: Os, thr: u32, e: DownloadEntry) -> DownloadCategory {
    download_category(os, e.path@, e.size, e.age_days, thr)
}

pub open spec fn category_total(os: Os, thr: u32, es: Seq<DownloadEntry>, c: DownloadCategory) -> nat
    decreases es.len(),
{
    if es.len() == 0 {
        0
    } else {
        category_total(os, thr, es.drop_last(), c) + if entry_category(os, thr, es.last()) == c {
            es.last().size as nat
        } else {
            0
        }
    }
}

/// The item listed for an entry.
pub open spec fn item_for(os: Os, thr: u32, item: DownloadItem, e: DownloadEntry) -> bool {
    &&& item.path@ == e.path@
    &&& item.size == e.size
    &&& item.category == entry_category(os, thr, e)
    &&& item.age_days == e.age_days
    &&& item.is_dir == (e.kind == EntryKind::Dir)
}

pub open spec fn all_categories() -> Seq<DownloadCategory> {
    seq![
        DownloadCategory::OldFiles,
        DownloadCategory::Archives,
        DownloadCategory::LargeMedia,
        DownloadCategory::Documents,
        DownloadCategory::Installers,
        DownloadCategory::Other,
    ]
}

/// Sum of the six category totals.
pub open spec fn categories_sum(os: Os, thr: u32, es: Seq<DownloadEntry>) -> nat {
    category_total(os, thr, es, DownloadCategory::OldFiles) + category_total(os, thr, es, DownloadCategory::Archives)
        + category_total(os, thr, es, DownloadCategory::LargeMedia) + category_total(
        os,
        thr,
        es,
        DownloadCategory::Documents,
    ) + category_total(os, thr, es, DownloadCategory::Installers) + category_total(
        os,
        thr,
        es,
        DownloadCategory::Other,
    )
}

/// The totals per category add up to the total size.
pub proof fn law_category_totals_add_up(os: Os, thr: u32, es: Seq<DownloadEntry>)
    ensures
        categories_sum(os, thr, es) == size_total(es),
    decreases es.len(),
{
    if es.len() > 0 {
        law_category_totals_add_up(os, thr, es.drop_last());
    }
}

proof fn lemma_listed_prefix_total(env: ProtectionEnv, opts: DownloadsScanOptions, es: Seq<DownloadEntry>, i: int)
    requires
        0 <= i <= es.len(),
    ensures
        size_total(listed(env, opts, es.take(i))) <= size_total(listed(env, opts, es)),
    decreases es.len() - i,
{
    if i < es.len() {
        lemma_listed_prefix_total(env, opts, es, i + 1);
        assert(es.take(i + 1).drop_last() =~= es.take(i));
        let a = listed(env, opts, es.take(i));
        let b = listed(env, opts, es.take(i + 1));
        if b != a {
            assert(b == a.push(es[i]));
            assert(b.drop_last() =~= a);
        }
    } else {
        assert(es.take(i) =~= es);
    }
}

impl DownloadItem {
    fn duplicate(&self) -> (r: DownloadItem)
        ensures
            r == *self,
    {
        DownloadItem {
            path: self.path.clone(),
            size: self.size,
            category: self.category,
            age_days: self.age_days,
            is_dir: self.is_dir,
        }
    }
}

/// A scan result with nothing found.
pub fn empty_downloads_result() -> (r: DownloadsScanResult)
    ensures
        r.items@.len() == 0,
        r.total_size == 0,
        forall|i: int| 0 <= i < 6 ==> (#[trigger] r.size_by_category@[i]).0 == all_categories()[i] && r.size_by_category@[i].1 == 0,
{
    DownloadsScanResult {
        items: Vec::new(),
        total_size: 0,
        size_by_category: [
            (DownloadCategory::OldFiles, 0),
            (DownloadCategory::Archives, 0),
            (DownloadCategory::LargeMedia, 0),
            (DownloadCategory::Documents, 0),
            (DownloadCategory::Installers, 0),
            (DownloadCategory::Other, 0),
        ],
    }
}

/// The downloads folder: the system's download directory, or else
/// `Downloads` in the home directory; `None` when neither is known.
pub fn downloads_location(os: Os, download_dir: Option<String>, home: Option<String>) -> (r: Option<String>)
    ensures
        match download_dir {
            Some(d) => r == Some(d),
            None => match home {
                Some(h) => r matches Some(p) && p@ == join(os, h@, "Downloads"@),
                None => r is None,
            },
        },
{
    match download_dir {
        Some(d) => Some(d),
        None => match home {
            Some(h) => Some(join_path(os, h.as_str(), "Downloads")),
            None => None,
        },
    }
}

/// Summarize the entries of the downloads folder: the listed entries become
/// items, largest first (items of equal size in the order found), with the
/// total size and the size of each category.
pub fn summarize_downloads(env: &ProtectionEnv, entries: &Vec<DownloadEntry>, options: &DownloadsScanOptions) -> (r: DownloadsScanResult)
    requires
        size_total(listed(*env, *options, entries@)) <= u64::MAX,
        forall|i: int| 0 <= i < entries@.len() ==> (#[trigger] entries@[i]).path@.len() < 0x7fff_ffff_ffff_ffff,
    ensures
        ({
            let k = listed(*env, *options, entries@);
            let thr = options.old_threshold_days;
            &&& r.items@.len() == k.len()
            &&& exists|ord: Seq<usize>|
                #[trigger] is_stable_desc_order(entry_sizes(k), ord) && forall|j: int|
                    0 <= j < ord.len() ==> item_for(env.os, thr, #[trigger] r.items@[j], k[ord[j] as int])
            &&& r.total_size == size_total(k)
            &&& forall|i: int|
                0 <= i < 6 ==> (#[trigger] r.size_by_category@[i]).0 == all_categories()[i]
                    && r.size_by_category@[i].1 == category_total(env.os, thr, k, all_categories()[i])
        }),
{
    let os = env.os;
    let thr = options.old_threshold_days;
    let ghost k_all = listed(*env, *options, entries@);
    let mut found: Vec<DownloadItem> = Vec::new();
    let mut total: u64 = 0;
    let mut old_files: u64 = 0;
    let mut archives: u64 = 0;
    let mut media: u64 = 0;
    let mut documents: u64 = 0;
    let mut installers: u64 = 0;
    let mut other: u64 = 0;
    let mut i: usize = 0;
    while i < entries.len()
        invariant
            i <= entries.len(),
            os == env.os,
            thr == options.old_threshold_days,
            k_all == listed(*env, *options, entries@),
            size_total(k_all) <= u64::MAX,
            forall|j: int| 0 <= j < entries@.len() ==> (#[trigger] entries@[j]).path@.len() < 0x7fff_ffff_ffff_ffff,
            ({
                let k = listed(*env, *options, entries@.take(i as int));
                &&& found@.len() == k.len()
                &&& forall|j: int| 0 <= j < k.len() ==> item_for(os, thr, #[trigger] found@[j], k[j])
                &&& total == size_total(k)
                &&& old_files == category_total(os, thr, k, DownloadCategory::OldFiles)
                &&& archives == category_total(os, thr, k, DownloadCategory::Archives)
                &&& media == category_total(os, thr, k, DownloadCategory::LargeMedia)
                &&& documents == category_total(os, thr, k, DownloadCategory::Documents)
                &&& installers == category_total(os, thr, k, DownloadCategory::Installers)
                &&& other == category_total(os, thr, k, DownloadCategory::Other)
            }),
        decreases entries.len() - i,
    {
        let e = &entries[i];
        let ghost pre = entries@.take(i as int);
        let ghost post = entries@.take(i + 1);
        proof {
            assert(post.drop_last() =~= pre);
            assert(post.last() == entries@[i as int]);
        }
        let listed_here = !is_protected(env, e.path.as_str(), e.canonical.as_str()) && (options.include_hidden
            || !is_hidden_exec(os, e.path.as_str())) && (e.kind == EntryKind::File || e.kind
            == EntryKind::Dir);
        if listed_here {
            let ghost k1 = listed(*env, *options, post);
            proof {
                lemma_listed_prefix_total(*env, *options, entries@, i + 1);
                law_category_totals_add_up(os, thr, k1);
                assert(k1 == listed(*env, *options, pre).push(*e));
                assert(k1.drop_last() =~= listed(*env, *options, pre));
            }
            let category = categorize_download(os, e.path.as_str(), e.size, e.age_days, thr);
            total = total + e.size;
            match category {
                DownloadCategory::OldFiles => old_files = old_files + e.size,
                DownloadCategory::Archives => archives = archives + e.size,
                DownloadCategory::LargeMedia => media = media + e.size,
                DownloadCategory::Documents => documents = documents + e.size,
                DownloadCategory::Installers => installers = installers + e.size,
                DownloadCategory::Other => other = other + e.size,
            }
            found.push(
                DownloadItem {
                    path: e.path.clone(),
                    size: e.size,
                    category,
                    age_days: e.age_days,
                    is_dir: e.kind == EntryKind::Dir,
                },
            );
        }
        i = i + 1;
    }
    proof {
        assert(entries@.take(entries@.len() as int) =~= entries@);
    }
    let mut sizes: Vec<u64> = Vec::new();
    let mut j: usize = 0;
    while j < found.len()
        invariant
            j <= found@.len(),
            sizes@.len() == j,
            forall|q: int| 0 <= q < j ==> sizes@[q] == (#[trigger] found@[q]).size,
        decreases found@.len() - j,
    {
        sizes.push(found[j].size);
        j = j + 1;
    }
    let ord = stable_desc_order(&sizes);
    let ghost ksizes = entry_sizes(k_all);
    proof {
        assert(ksizes =~= sizes@) by {
            assert forall|q: int| 0 <= q < ksizes.len() implies ksizes[q] == sizes@[q] by {
                assert(item_for(os, thr, found@[q], k_all[q]));
            }
        }
    }
    let mut items: Vec<DownloadItem> = Vec::new();
    let mut t: usize = 0;
    while t < ord.len()
        invariant
            t <= ord@.len(),
            is_stable_desc_order(sizes@, ord@),
            sizes@.len() == found@.len(),
            found@.len() == k_all.len(),
            forall|q: int| 0 <= q < k_all.len() ==> item_for(os, thr, #[trigger] found@[q], k_all[q]),
            items@.len() == t,
            forall|q: int| 0 <= q < t ==> item_for(os, thr, #[trigger] items@[q], k_all[ord@[q] as int]),
        decreases ord@.len() - t,
    {
        let x = ord[t];
        assert(ord@[t as int] < sizes@.len());
        items.push(found[x].duplicate());
        t = t + 1;
    }
    proof {
        assert(is_stable_desc_order(ksizes, ord@));
    }
    DownloadsScanResult {
        items,
        total_size: total,
        size_by_category: [
            (DownloadCategory::OldFiles, old_files),
            (DownloadCategory::Archives, archives),
            (DownloadCategory::LargeMedia, media),
            (DownloadCategory::Documents, documents),
            (DownloadCategory::Installers, installers),
            (DownloadCategory::Other, other),
        ],
    }
}


/// Risk of removing a download of a category: documents and other files are
/// medium risk, everything else low.
pub open spec fn download_risk(c: DownloadCategory) -> FFIRiskLevel {
    match c {
        DownloadCategory::Documents | DownloadCategory::Other => FFIRiskLevel::Medium,
        _ => FFIRiskLevel::Low,
    }
}

impl DownloadItem {
    /// The interface form of a download item: described by its category and
    /// size.
    pub fn to_ffi(&self) -> (r: FFICleanableItem)
        ensures
            r.path@ == self.path@,
            r.size == self.size,
            r.item_type == (if self.is_dir { FFIItemType::Directory } else { FFIItemType::File }),
            r.age_days == self.age_days,
            r.description@ == category_name(self.category) + " - "@ + byte_size_text(self.size),
            !r.requires_force,
            r.risk_level == download_risk(self.category),
    {
        let risk = match self.category {
            DownloadCategory::OldFiles => FFIRiskLevel::Low,
            DownloadCategory::Archives => FFIRiskLevel::Low,
            DownloadCategory::Installers => FFIRiskLevel::Low,
            DownloadCategory::LargeMedia => FFIRiskLevel::Low,
            DownloadCategory::Documents => FFIRiskLevel::Medium,
            DownloadCategory::Other => FFIRiskLevel::Medium,
        };
        let size_str = format_size(self.size);
        let description = concat3(self.category.as_str(), " - ", size_str.as_str());
        FFICleanableItem {
            path: self.path.clone(),
            size: self.size,
            item_type: if self.is_dir { FFIItemType::Directory } else { FFIItemType::File },
            age_days: self.age_days,
            description,
            requires_force: false,
            risk_level: risk,
        }
    }
}


/// An item whose lower-cased extension is an installer extension is an
/// installer, whatever its size and age.
pub proof fn law_installers_by_extension(os: Os, path: Seq<char>, size: u64, age_days: Option<u32>, old_threshold: u32)
    requires
        ({
            let x = lower_extension(os, path);
            x == "dmg"@ || x == "pkg"@ || x == "iso"@ || x == "app"@ || x == "mpkg"@
        }),
    ensures
        download_category(os, path, size, age_days, old_threshold) == DownloadCategory::Installers,
{
    let x = lower_extension(os, path);
    let l = lviews(installer_exts());
    assert(l =~= seq!["dmg"@, "pkg"@, "iso"@, "app"@, "mpkg"@]);
        if x == "dmg"@ {
            assert(l[0] == x);
        } else if x == "pkg"@ {
            assert(l[1] == x);
        } else if x == "iso"@ {
            assert(l[2] == x);
        } else if x == "app"@ {
            assert(l[3] == x);
        } else if x == "mpkg"@ {
            assert(l[4] == x);
        }
}

/// An item whose lower-cased extension is an archive extension is an
/// archive, whatever its size and age.
pub proof fn law_archives_by_extension(os: Os, path: Seq<char>, size: u64, age_days: Option<u32>, old_threshold: u32)
    requires
        ({
            let x = lower_extension(os, path);
            x == "zip"@ || x == "tar"@ || x == "gz"@ || x == "bz2"@ || x == "xz"@ || x == "rar"@ || x == "7z"@ || x == "tgz"@ || x == "tbz2"@
        }),
    ensures
        download_category(os, path, size, age_days, old_threshold) == DownloadCategory::Archives,
{
    let x = lower_extension(os, path);
    let n = lviews(installer_exts());
    let l = lviews(archive_exts());
    assert(n =~= seq!["dmg"@, "pkg"@, "iso"@, "app"@, "mpkg"@]);
    assert(l =~= seq!["zip"@, "tar"@, "gz"@, "bz2"@, "xz"@, "rar"@, "7z"@, "tgz"@, "tbz2"@]);
    reveal_strlit("dmg");
    reveal_strlit("pkg");
    reveal_strlit("iso");
    reveal_strlit("app");
    reveal_strlit("mpkg");
    reveal_strlit("zip");
    reveal_strlit("tar");
    reveal_strlit("gz");
    reveal_strlit("bz2");
    reveal_strlit("xz");
    reveal_strlit("rar");
    reveal_strlit("7z");
    reveal_strlit("tgz");
    reveal_strlit("tbz2");
    assert forall|i: int| 0 <= i < n.len() implies n[i] != x by {
        if n[i] == x {
            assert(n[i].len() == x.len());
            assert(n[i][0] == x[0]);
            assert(n[i][n[i].len() - 1] == x[x.len() - 1]);
        }
    }
        if x == "zip"@ {
            assert(l[0] == x);
        } else if x == "tar"@ {
            assert(l[1] == x);
        } else if x == "gz"@ {
            assert(l[2] == x);
        } else if x == "bz2"@ {
            assert(l[3] == x);
        } else if x == "xz"@ {
            assert(l[4] == x);
        } else if x == "rar"@ {
            assert(l[5] == x);
        } else if x == "7z"@ {
            assert(l[6] == x);
        } else if x == "tgz"@ {
            assert(l[7] == x);
        } else if x == "tbz2"@ {
            assert(l[8] == x);
        }
}

/// An item larger than 50 MiB whose lower-cased extension is a video or an
/// audio extension is large media, whatever its age; no such item is
/// counted among the other files.
pub proof fn law_large_audio_and_video_are_media(os: Os, path: Seq<char>, size: u64, age_days: Option<u32>, old_threshold: u32)
    requires
        size > 52_428_800,
        ({
            let x = lower_extension(os, path);
            x == "mp4"@ || x == "mov"@ || x == "avi"@ || x == "mkv"@ || x == "webm"@ || x == "m4v"@ || x == "wmv"@ || x == "flv"@ || x == "mp3"@ || x == "wav"@ || x == "flac"@ || x == "m4a"@ || x == "aac"@ || x == "ogg"@ || x == "wma"@
        }),
    ensures
        download_category(os, path, size, age_days, old_threshold) == DownloadCategory::LargeMedia,
{
    let x = lower_extension(os, path);
    let n = lviews(installer_exts());
    let a = lviews(archive_exts());
    let v = lviews(video_exts());
    let u = lviews(audio_exts());
    assert(n =~= seq!["dmg"@, "pkg"@, "iso"@, "app"@, "mpkg"@]);
    assert(a =~= seq!["zip"@, "tar"@, "gz"@, "bz2"@, "xz"@, "rar"@, "7z"@, "tgz"@, "tbz2"@]);
    assert(v =~= seq!["mp4"@, "mov"@, "avi"@, "mkv"@, "webm"@, "m4v"@, "wmv"@, "flv"@]);
    assert(u =~= seq!["mp3"@, "wav"@, "flac"@, "m4a"@, "aac"@, "ogg"@, "wma"@]);
    reveal_strlit("dmg");
    reveal_strlit("pkg");
    reveal_strlit("iso");
    reveal_strlit("app");
    reveal_strlit("mpkg");
    reveal_strlit("zip");
    reveal_strlit("tar");
    reveal_strlit("gz");
    reveal_strlit("bz2");
    reveal_strlit("xz");
    reveal_strlit("rar");
    reveal_strlit("7z");
    reveal_strlit("tgz");
    reveal_strlit("tbz2");
    reveal_strlit("mp4");
    reveal_strlit("mov");
    reveal_strlit("avi");
    reveal_strlit("mkv");
    reveal_strlit("webm");
    reveal_strlit("m4v");
    reveal_strlit("wmv");
    reveal_strlit("flv");
    reveal_strlit("mp3");
    reveal_strlit("wav");
    reveal_strlit("flac");
    reveal_strlit("m4a");
    reveal_strlit("aac");
    reveal_strlit("ogg");
    reveal_strlit("wma");
    assert forall|i: int| 0 <= i < n.len() implies n[i] != x by {
        if n[i] == x {
            assert(n[i].len() == x.len());
            assert(n[i][0] == x[0]);
            assert(n[i][n[i].len() - 1] == x[x.len() - 1]);
        }
    }
    assert forall|i: int| 0 <= i < a.len() implies a[i] != x by {
        if a[i] == x {
            assert(a[i].len() == x.len());
            assert(a[i][0] == x[0]);
            assert(a[i][a[i].len() - 1] == x[x.len() - 1]);
        }
    }
        if x == "mp4"@ {
            assert(v[0] == x);
        } else if x == "mov"@ {
            assert(v[1] == x);
        } else if x == "avi"@ {
            assert(v[2] == x);
        } else if x == "mkv"@ {
            assert(v[3] == x);
        } else if x == "webm"@ {
            assert(v[4] == x);
        } else if x == "m4v"@ {
            assert(v[5] == x);
        } else if x == "wmv"@ {
            assert(v[6] == x);
        } else if x == "flv"@ {
            assert(v[7] == x);
        }
        if x == "mp3"@ {
            assert(u[0] == x);
        } else if x == "wav"@ {
            assert(u[1] == x);
        } else if x == "flac"@ {
            assert(u[2] == x);
        } else if x == "m4a"@ {
            assert(u[3] == x);
        } else if x == "aac"@ {
            assert(u[4] == x);
        } else if x == "ogg"@ {
            assert(u[5] == x);
        } else if x == "wma"@ {
            assert(u[6] == x);
        }
}


/// An item whose lower-cased extension is a document extension is a
/// document, whatever its size and age.
pub proof fn law_documents_by_extension(os: Os, path: Seq<char>, size: u64, age_days: Option<u32>, old_threshold: u32)
    requires
        ({
            let x = lower_extension(os, path);
            x == "pdf"@ || x == "doc"@ || x == "docx"@ || x == "xls"@ || x == "xlsx"@ || x == "ppt"@ || x == "pptx"@ || x == "txt"@ || x == "rtf"@ || x == "odt"@ || x == "ods"@ || x == "odp"@
        }),
    ensures
        download_category(os, path, size, age_days, old_threshold) == DownloadCategory::Documents,
{
    let x = lower_extension(os, path);
    let n = lviews(installer_exts());
    let a = lviews(archive_exts());
    let v = lviews(video_exts());
    let u = lviews(audio_exts());
    let d = lviews(document_exts());
    assert(n =~= seq!["dmg"@, "pkg"@, "iso"@, "app"@, "mpkg"@]);
    assert(a =~= seq!["zip"@, "tar"@, "gz"@, "bz2"@, "xz"@, "rar"@, "7z"@, "tgz"@, "tbz2"@]);
    assert(v =~= seq!["mp4"@, "mov"@, "avi"@, "mkv"@, "webm"@, "m4v"@, "wmv"@, "flv"@]);
    assert(u =~= seq!["mp3"@, "wav"@, "flac"@, "m4a"@, "aac"@, "ogg"@, "wma"@]);
    assert(d =~= seq!["pdf"@, "doc"@, "docx"@, "xls"@, "xlsx"@, "ppt"@, "pptx"@, "txt"@, "rtf"@, "odt"@, "ods"@, "odp"@]);
    reveal_strlit("dmg");
    reveal_strlit("pkg");
    reveal_strlit("iso");
    reveal_strlit("app");
    reveal_strlit("mpkg");
    reveal_strlit("zip");
    reveal_strlit("tar");
    reveal_strlit("gz");
    reveal_strlit("bz2");
    reveal_strlit("xz");
    reveal_strlit("rar");
    reveal_strlit("7z");
    reveal_strlit("tgz");
    reveal_strlit("tbz2");
    reveal_strlit("mp4");
    reveal_strlit("mov");
    reveal_strlit("avi");
    reveal_strlit("mkv");
    reveal_strlit("webm");
    reveal_strlit("m4v");
    reveal_strlit("wmv");
    reveal_strlit("flv");
    reveal_strlit("mp3");
    reveal_strlit("wav");
    reveal_strlit("flac");
    reveal_strlit("m4a");
    reveal_strlit("aac");
    reveal_strlit("ogg");
    reveal_strlit("wma");
    reveal_strlit("pdf");
    reveal_strlit("doc");
    reveal_strlit("docx");
    reveal_strlit("xls");
    reveal_strlit("xlsx");
    reveal_strlit("ppt");
    reveal_strlit("pptx");
    reveal_strlit("txt");
    reveal_strlit("rtf");
    reveal_strlit("odt");
    reveal_strlit("ods");
    reveal_strlit("odp");
    assert forall|i: int| 0 <= i < n.len() implies n[i] != x by {
        if n[i] == x {
            assert(n[i].len() == x.len());
            assert(n[i][0] == x[0]);
            assert(n[i][n[i].len() - 1] == x[x.len() - 1]);
        }
    }
    assert forall|i: int| 0 <= i < a.len() implies a[i] != x by {
        if a[i] == x {
            assert(a[i].len() == x.len());
            assert(a[i][0] == x[0]);
            assert(a[i][a[i].len() - 1] == x[x.len() - 1]);
        }
    }
    assert forall|i: int| 0 <= i < v.len() implies v[i] != x by {
        if v[i] == x {
            assert(v[i].len() == x.len());
            assert(v[i][0] == x[0]);
            assert(v[i][v[i].len() - 1] == x[x.len() - 1]);
        }
    }
    assert forall|i: int| 0 <= i < u.len() implies u[i] != x by {
        if u[i] == x {
            assert(u[i].len() == x.len());
            assert(u[i][0] == x[0]);
            assert(u[i][u[i].len() - 1] == x[x.len() - 1]);
        }
    }
    if x == "pdf"@ {
        assert(d[0] == x);
    } else if x == "doc"@ {
        assert(d[1] == x);
    } else if x == "docx"@ {
        assert(d[2] == x);
    } else if x == "xls"@ {
        assert(d[3] == x);
    } else if x == "xlsx"@ {
        assert(d[4] == x);
    } else if x == "ppt"@ {
        assert(d[5] == x);
    } else if x == "pptx"@ {
        assert(d[6] == x);
    } else if x == "txt"@ {
        assert(d[7] == x);
    } else if x == "rtf"@ {
        assert(d[8] == x);
    } else if x == "odt"@ {
        assert(d[9] == x);
    } else if x == "ods"@ {
        assert(d[10] == x);
    } else if x == "odp"@ {
        assert(d[11] == x);
    }
}

/// An item that is no installer, archive, document or large media (a video
/// or audio file over 50 MiB) is an old file when its age is known and at
/// least the threshold, and otherwise falls among the other files.
pub proof fn law_old_files_by_age(os: Os, path: Seq<char>, size: u64, age_days: Option<u32>, old_threshold: u32)
    requires
        ({
            let x = lower_extension(os, path);
            &&& !(x == "dmg"@ || x == "pkg"@ || x == "iso"@ || x == "app"@ || x == "mpkg"@)
            &&& !(x == "zip"@ || x == "tar"@ || x == "gz"@ || x == "bz2"@ || x == "xz"@ || x == "rar"@ || x == "7z"@ || x == "tgz"@ || x == "tbz2"@)
            &&& !(x == "pdf"@ || x == "doc"@ || x == "docx"@ || x == "xls"@ || x == "xlsx"@ || x == "ppt"@ || x == "pptx"@ || x == "txt"@ || x == "rtf"@ || x == "odt"@ || x == "ods"@ || x == "odp"@)
            &&& !(size > 52_428_800 && (x == "mp4"@ || x == "mov"@ || x == "avi"@ || x == "mkv"@ || x == "webm"@ || x == "m4v"@ || x == "wmv"@ || x == "flv"@ || x == "mp3"@ || x == "wav"@ || x == "flac"@ || x == "m4a"@ || x == "aac"@ || x == "ogg"@ || x == "wma"@))
        }),
    ensures
        download_category(os, path, size, age_days, old_threshold) == if age_days matches Some(a) && a >= old_threshold {
            DownloadCategory::OldFiles
        } else {
            DownloadCategory::Other
        },
{
    let x = lower_extension(os, path);
    let n = lviews(installer_exts());
    let a = lviews(archive_exts());
    let v = lviews(video_exts());
    let u = lviews(audio_exts());
    let d = lviews(document_exts());
    assert(n =~= seq!["dmg"@, "pkg"@, "iso"@, "app"@, "mpkg"@]);
    assert(a =~= seq!["zip"@, "tar"@, "gz"@, "bz2"@, "xz"@, "rar"@, "7z"@, "tgz"@, "tbz2"@]);
    assert(v =~= seq!["mp4"@, "mov"@, "avi"@, "mkv"@, "webm"@, "m4v"@, "wmv"@, "flv"@]);
    assert(u =~= seq!["mp3"@, "wav"@, "flac"@, "m4a"@, "aac"@, "ogg"@, "wma"@]);
    assert(d =~= seq!["pdf"@, "doc"@, "docx"@, "xls"@, "xlsx"@, "ppt"@, "pptx"@, "txt"@, "rtf"@, "odt"@, "ods"@, "odp"@]);
    assert forall|i: int| 0 <= i < n.len() implies n[i] != x by {}
    assert forall|i: int| 0 <= i < a.len() implies a[i] != x by {}
    assert forall|i: int| 0 <= i < d.len() implies d[i] != x by {}
    if size > 52_428_800 {
        assert forall|i: int| 0 <= i < v.len() implies v[i] != x by {}
        assert forall|i: int| 0 <= i < u.len() implies u[i] != x by {}
    }
}

} // verus!
