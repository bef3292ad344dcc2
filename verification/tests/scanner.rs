use crystal_clear_core::ffi::types::{FFIItemType, FFIRiskLevel};
use crystal_clear_core::path::Os;
use crystal_clear_core::safety::protected_paths::ProtectionEnv;
use crystal_clear_core::scanner::downloads::{
    categorize_download, summarize_downloads, DownloadCategory, DownloadEntry, DownloadsScanOptions, EntryKind,
};
use crystal_clear_core::scanner::duplicates::{files_worth_hashing, group_duplicates, partial_hash, reads_tail, HashedFile, SizedFile};
use crystal_clear_core::scanner::large_files::{determine_risk, format_description, select_large_files, LargeFileEntry, LargeFileScanOptions};
use crystal_clear_core::scanner::size::{calculate_size, format_size, get_age_days, size_parts, SizeKind};
use crystal_clear_core::scanner::walker::{scan_directories, total_size, ScannedItem};

fn linux_env() -> ProtectionEnv {
    ProtectionEnv { os: Os::Linux, home: Some("/home/test".to_string()), extra_system_paths: Vec::new() }
}

#[test]
fn test_categorize_installer() {
    let cat = categorize_download(Os::MacOs, "/Downloads/App.dmg", 1000, Some(5), 30);
    assert_eq!(cat, DownloadCategory::Installers);
}

#[test]
fn test_categorize_archive() {
    let cat = categorize_download(Os::MacOs, "/Downloads/files.zip", 1000, Some(5), 30);
    assert_eq!(cat, DownloadCategory::Archives);
}

#[test]
fn test_categorize_old_file() {
    let cat = categorize_download(Os::MacOs, "/Downloads/random.xyz", 1000, Some(60), 30);
    assert_eq!(cat, DownloadCategory::OldFiles);
}

#[test]
fn categorize_by_size_and_kind() {
    // Media counts as large only from 100 MiB on.
    assert_eq!(categorize_download(Os::Linux, "/d/movie.MP4", 104857600, Some(1), 30), DownloadCategory::LargeMedia);
    assert_eq!(categorize_download(Os::Linux, "/d/clip.mp4", 1000, Some(1), 30), DownloadCategory::Other);
    assert_eq!(categorize_download(Os::Linux, "/d/report.pdf", 10, None, 30), DownloadCategory::Documents);
    // The extension decides before the age does, for installers and archives.
    assert_eq!(categorize_download(Os::Linux, "/d/setup.pkg", 10, Some(365), 30), DownloadCategory::Installers);
    assert_eq!(categorize_download(Os::Linux, "/d/setup.exe", 10, Some(365), 30), DownloadCategory::OldFiles);
}

#[test]
fn downloads_summary_orders_and_totals() {
    let entry = |p: &str, size: u64, age: Option<u32>| DownloadEntry {
        path: p.to_string(),
        canonical: p.to_string(),
        kind: EntryKind::File,
        size,
        age_days: age,
    };
    let entries = vec![
        entry("/srv/dl/a.zip", 10, Some(1)),
        entry("/srv/dl/b.dmg", 30, Some(1)),
        entry("/srv/dl/.hidden.zip", 50, Some(1)),
        entry("/srv/dl/c.bin", 20, Some(90)),
        // Everything under the protected Downloads folder of the home is left out.
        entry("/home/test/Downloads/d.zip", 70, Some(1)),
    ];
    let options = DownloadsScanOptions { old_threshold_days: 30, include_hidden: false };
    let r = summarize_downloads(&linux_env(), &entries, &options);
    let paths: Vec<&str> = r.items.iter().map(|i| i.path.as_str()).collect();
    assert_eq!(paths, vec!["/srv/dl/b.dmg", "/srv/dl/c.bin", "/srv/dl/a.zip"]);
    assert_eq!(r.total_size, 60);
    let by: Vec<(DownloadCategory, u64)> = r.size_by_category.to_vec();
    assert!(by.contains(&(DownloadCategory::Installers, 30)));
    assert!(by.contains(&(DownloadCategory::OldFiles, 20)));
    assert!(by.contains(&(DownloadCategory::Archives, 10)));
    let sum: u64 = by.iter().map(|(_, s)| s).sum();
    assert_eq!(sum, r.total_size);
}

#[test]
fn test_determine_risk() {
    assert_eq!(determine_risk(Os::MacOs, "/Users/test/Downloads/file.dmg"), FFIRiskLevel::Low);
    assert_eq!(determine_risk(Os::MacOs, "/Users/test/Documents/report.pdf"), FFIRiskLevel::High);
    assert_eq!(determine_risk(Os::MacOs, "/Users/test/random.bin"), FFIRiskLevel::Medium);
}

#[test]
fn large_file_description_names_the_folder() {
    assert_eq!(format_description(Os::Linux, "/home/test/videos/big.mkv", 500), "big.mkv in videos (500 B)");
}

#[test]
fn large_files_largest_first_and_capped() {
    let e = |p: &str, size: u64| LargeFileEntry { path: p.to_string(), size, is_dir: false, age_days: Some(3) };
    let found = vec![e("/h/a.iso", 300), e("/h/b.txt", 50), e("/h/c.mov", 900), e("/h/d.db", 600)];
    let options = LargeFileScanOptions { min_size_bytes: 100, max_results: 2, include_hidden: false };
    let r = select_large_files(Os::Linux, &found, &options);
    assert_eq!(r.len(), 2);
    assert_eq!(r[0].path, "/h/c.mov");
    assert_eq!(r[0].risk_level, FFIRiskLevel::Low);
    assert_eq!(r[0].item_type, FFIItemType::File);
    assert_eq!(r[1].path, "/h/d.db");
    assert_eq!(r[1].risk_level, FFIRiskLevel::High);
}

#[test]
fn test_partial_hash_same_content() {
    let content = vec![0u8; 10000];
    let size = content.len() as u64;
    let tail = if reads_tail(size) { Some(content[content.len() - 4096..].to_vec()) } else { None };
    let hash1 = partial_hash(size, &content[..4096].to_vec(), &tail);
    let hash2 = partial_hash(size, &content[..4096].to_vec(), &tail);
    assert_eq!(hash1, hash2);
}

#[test]
fn test_partial_hash_different_content() {
    let content1 = vec![0u8; 10000];
    let content2 = vec![1u8; 10000];
    let size = 10000u64;
    let hash1 = partial_hash(size, &content1[..4096].to_vec(), &Some(content1[10000 - 4096..].to_vec()));
    let hash2 = partial_hash(size, &content2[..4096].to_vec(), &Some(content2[10000 - 4096..].to_vec()));
    assert_ne!(hash1, hash2);
}

#[test]
fn partial_hash_is_blake3_of_size_and_bytes() {
    // The size comes first, as eight little-endian bytes.
    let h = partial_hash(3, &vec![1, 2, 3], &None);
    let mut data = 3u64.to_le_bytes().to_vec();
    data.extend_from_slice(&[1, 2, 3]);
    assert_eq!(h, blake3::hash(&data).to_hex().to_string());
    assert_eq!(h.len(), 64);
    assert!(!reads_tail(8192));
    assert!(reads_tail(8193));
}

#[test]
fn only_shared_sizes_are_hashed() {
    let f = |p: &str, size: u64| SizedFile { path: p.to_string(), size };
    let files = vec![f("/a", 5), f("/b", 2000), f("/c", 2000), f("/d", 3000), f("/e", 5)];
    let r = files_worth_hashing(&files, 100);
    let paths: Vec<&str> = r.iter().map(|x| x.path.as_str()).collect();
    assert_eq!(paths, vec!["/b", "/c"]);
}

#[test]
fn duplicate_groups_by_wasted_space() {
    let h = |p: &str, size: u64, hash: &str| HashedFile { path: p.to_string(), size, hash: Some(hash.to_string()) };
    let hashed = vec![
        h("/a1", 100, "aa"),
        h("/b1", 1000, "bb"),
        h("/a2", 100, "aa"),
        h("/b2", 1000, "bb"),
        h("/a3", 100, "aa"),
        h("/c1", 100, "cc"),
        HashedFile { path: "/x".to_string(), size: 100, hash: None },
    ];
    let r = group_duplicates(&hashed, 10, 7);
    assert_eq!(r.files_scanned, 7);
    assert_eq!(r.groups.len(), 2);
    assert_eq!(r.groups[0].hash, "bb");
    assert_eq!(r.groups[0].wasted_size, 1000);
    assert_eq!(r.groups[0].count, 2);
    assert_eq!(r.groups[1].hash, "aa");
    assert_eq!(r.groups[1].wasted_size, 200);
    assert_eq!(r.groups[1].paths, vec!["/a1".to_string(), "/a2".to_string(), "/a3".to_string()]);
    assert_eq!(r.total_wasted, 1200);
    let capped = group_duplicates(&hashed, 1, 7);
    assert_eq!(capped.groups.len(), 1);
    assert_eq!(capped.total_wasted, 1000);
}

#[test]
fn test_format_size() {
    assert!(format_size(1024).contains("KB") || format_size(1024).contains("K"));
    assert!(format_size(10_000_000).contains("MB") || format_size(10_000_000).contains("M"));
}

#[test]
fn format_size_small_counts_are_bytes() {
    assert_eq!(format_size(0), "0 B");
    assert_eq!(format_size(999), "999 B");
    assert_ne!(format_size(1024), "1024");
}

#[test]
fn size_parts_split_unit() {
    assert_eq!(size_parts("100"), ("100".to_string(), 1));
    assert_eq!(size_parts("100B"), ("100".to_string(), 1));
    assert_eq!(size_parts(" 1kb "), ("1".to_string(), 1024));
    assert_eq!(size_parts("1MB"), ("1".to_string(), 1024 * 1024));
    assert_eq!(size_parts("1.5GB"), ("1.5".to_string(), 1024 * 1024 * 1024));
    assert_eq!(size_parts("2 TB"), ("2".to_string(), 1024u64 * 1024 * 1024 * 1024));
}

#[test]
fn size_of_files_dirs_and_others() {
    assert_eq!(calculate_size(Some(SizeKind::File), 10, 99), 10);
    assert_eq!(calculate_size(Some(SizeKind::Dir), 10, 99), 99);
    assert_eq!(calculate_size(None, 10, 99), 0);
    assert_eq!(get_age_days(Some(86400 * 3 + 5)), Some(3));
    assert_eq!(get_age_days(None), None);
}

#[test]
fn scan_directories_combines_existing_roots() {
    let item = |p: &str, size: u64| ScannedItem {
        path: p.to_string(),
        size,
        is_dir: false,
        is_symlink: false,
        age_days: None,
        modified: None,
    };
    let scans = vec![Some(vec![item("/r1/a", 1), item("/r1/b", 2)]), None, Some(vec![item("/r3/c", 4)])];
    let all = scan_directories(scans);
    let paths: Vec<&str> = all.iter().map(|i| i.path.as_str()).collect();
    assert_eq!(paths, vec!["/r1/a", "/r1/b", "/r3/c"]);
    assert_eq!(total_size(&all), 7);
}
