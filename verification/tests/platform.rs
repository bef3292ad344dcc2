use crystal_clear_core::disk::smartctl::{extract_last_number, extract_number, get_base_device, parse_text_output};
use crystal_clear_core::disk::{
    disk_health, get_all_disk_health, get_root_disk_info, parse_df, parse_smart_status, DiskInfo, DiskReading, SmartData,
    SmartStatus,
};
use crystal_clear_core::path::Os;
use crystal_clear_core::platform::disk::{is_reported_disk, DiskInfoProvider};
use crystal_clear_core::platform::locations::UserDirs;
use crystal_clear_core::platform::paths::PlatformPaths;

const LINUX_DF: &str = "Filesystem     1K-blocks     Used Available Use% Mounted on\n/dev/sda1      100000000 40000000  60000000  40% /\n";
const LINUX_MOUNTS: &str = "proc /proc proc rw 0 0\n/dev/sda1 / ext4 rw,relatime 0 0\n/dev/nvme0n1p2 /data xfs rw 0 0\ntmpfs /run tmpfs rw 0 0\n";
const MAC_DF: &str = "Filesystem   1024-blocks      Used Available Capacity iused ifree %iused  Mounted on\n/dev/disk3s1s1 488245288 10000000 300000000     4%  1  2  0%   /\n";
const MAC_DISKUTIL: &str = "   Device Identifier:         disk3s1s1\n   Volume Name:               Macintosh HD\n   Type (Bundle):             apfs\n   File System Personality:   APFS\n   SMART Status:              Verified\n";

fn user_dirs(home: Option<&str>) -> UserDirs {
    UserDirs {
        home: home.map(String::from),
        cache: home.map(|h| format!("{}/.cache", h)),
        config: home.map(|h| format!("{}/.config", h)),
        data: home.map(|h| format!("{}/.local/share", h)),
        data_local: home.map(|h| format!("{}/.local/share", h)),
        download: home.map(|h| format!("{}/Downloads", h)),
    }
}

#[test]
fn test_get_root_disk() {
    let provider = DiskInfoProvider::new(Os::Linux);
    let disk = provider.get_root_disk(&Some(LINUX_DF.to_string()), &Some(LINUX_MOUNTS.to_string()));
    if let Some(d) = disk {
        assert!(d.total_bytes > 0);
    }
    let d = provider.get_root_disk(&Some(LINUX_DF.to_string()), &Some(LINUX_MOUNTS.to_string())).unwrap();
    assert_eq!(d.mount_point, "/");
    assert_eq!(d.device_node, "/dev/sda1");
    assert_eq!(d.filesystem, "ext4");
    assert_eq!(d.total_bytes, 100000000 * 1024);
    assert_eq!(d.used_bytes, 40000000 * 1024);
    assert_eq!(d.free_bytes, 60000000 * 1024);
}

#[test]
fn root_disk_on_macos_reads_diskutil() {
    let provider = DiskInfoProvider::new(Os::MacOs);
    let d = get_root_disk_info(&provider, &Some(MAC_DF.to_string()), &Some(MAC_DISKUTIL.to_string())).unwrap();
    assert_eq!(d.name, "Macintosh HD");
    // The bundle type comes before the personality and wins.
    assert_eq!(d.filesystem, "apfs");
    assert_eq!(d.device_node, "/dev/disk3s1s1");
    let bare = get_root_disk_info(&provider, &Some(MAC_DF.to_string()), &None).unwrap();
    assert_eq!(bare.name, "Unknown");
    assert!(get_root_disk_info(&provider, &None, &None).is_none());
    assert!(get_root_disk_info(&DiskInfoProvider::new(Os::Windows), &Some(MAC_DF.to_string()), &None).is_none());
}

#[test]
fn test_list_mounted_disks() {
    let provider = DiskInfoProvider::new(Os::Linux);
    let mounts = provider.mounts_to_list(&Some(LINUX_MOUNTS.to_string()));
    assert_eq!(mounts, vec!["/".to_string(), "/data".to_string()]);
    let mut found = Vec::new();
    for m in &mounts {
        if let Some(d) = provider.get_disk_info(m, &Some(LINUX_DF.to_string()), &Some(LINUX_MOUNTS.to_string())) {
            found.push(d);
        }
    }
    let disks = provider.list_mounted_disks(true, found, None);
    assert_eq!(disks.len(), 2);
    for disk in &disks {
        assert!(!disk.mount_point.is_empty());
        assert_eq!(disk.used_bytes, disk.total_bytes.saturating_sub(disk.free_bytes));
        assert!(is_reported_disk(disk));
    }
}

#[test]
fn mounted_disks_fall_back_to_root() {
    let root = DiskInfo {
        name: "root".to_string(),
        mount_point: "/".to_string(),
        device_node: "/dev/sda1".to_string(),
        filesystem: "ext4".to_string(),
        total_bytes: 10,
        used_bytes: 4,
        free_bytes: 6,
    };
    let linux = DiskInfoProvider::new(Os::Linux);
    assert_eq!(linux.list_mounted_disks(false, Vec::new(), Some(root.clone())).len(), 1);
    let mac = DiskInfoProvider::new(Os::MacOs);
    assert_eq!(mac.list_mounted_disks(true, Vec::new(), Some(root.clone())).len(), 1);
    assert_eq!(mac.list_mounted_disks(false, Vec::new(), Some(root.clone())).len(), 0);
    let windows = DiskInfoProvider::new(Os::Windows);
    assert_eq!(windows.list_mounted_disks(true, Vec::new(), Some(root)).len(), 0);
}

#[test]
fn df_output_is_read() {
    let (dev, total, avail) = parse_df(LINUX_DF).unwrap();
    assert_eq!(dev, "/dev/sda1");
    assert_eq!(total, 100000000);
    assert_eq!(avail, 60000000);
    assert!(parse_df("Filesystem only header\n").is_none());
}

#[test]
fn smart_status_from_diskutil() {
    assert_eq!(parse_smart_status(&Some(MAC_DISKUTIL.to_string())), SmartStatus::Verified);
    assert_eq!(parse_smart_status(&Some("   SMART Status: Failing\n".to_string())), SmartStatus::Failing);
    assert_eq!(parse_smart_status(&Some("Volume Name: x\n".to_string())), SmartStatus::NotSupported);
    assert_eq!(parse_smart_status(&None), SmartStatus::Unknown);
}

#[test]
fn disk_health_keeps_data_only_with_smartctl() {
    let disk = DiskInfo {
        name: "d".to_string(),
        mount_point: "/".to_string(),
        device_node: "/dev/sda".to_string(),
        filesystem: "ext4".to_string(),
        total_bytes: 1,
        used_bytes: 0,
        free_bytes: 1,
    };
    let data = SmartData::default();
    let h = disk_health(disk.clone(), SmartStatus::Verified, false, Some(data.clone()));
    assert!(h.smart_data.is_none());
    let all = get_all_disk_health(
        vec![DiskReading { disk, smart_status: SmartStatus::Unknown, smart_data: Some(data) }],
        true,
    );
    assert_eq!(all.len(), 1);
    assert!(all[0].smart_data.is_some());
    assert_eq!(all[0].smart_status, SmartStatus::Unknown);
}

#[test]
fn smartctl_text_helpers() {
    assert_eq!(get_base_device("/dev/disk0"), "/dev/disk0");
    assert_eq!(get_base_device("/dev/disk0s2"), "/dev/disk0");
    assert_eq!(get_base_device("/dev/disk12s3"), "/dev/disk12");
    assert_eq!(get_base_device("/dev/disks"), "/dev/disks");
    assert_eq!(get_base_device("/dev/sda1"), "/dev/sda1");
    assert_eq!(extract_number("Temperature: 35 Celsius"), Some(35));
    assert_eq!(extract_last_number("9 Power_On_Hours 0x0032 100 100 000 Old_age Always - 1234"), Some(1234));
    let data = parse_text_output("Temperature:                        41 Celsius\nPower On Hours:                     120\n").unwrap();
    assert_eq!(data.temperature_celsius, Some(41));
    assert_eq!(data.power_on_hours, Some(120));
    let ata = parse_text_output(
        "  9 Power_On_Hours          0x0032   099   099   000    Old_age   Always       -       1234\n\
         12 Power_Cycle_Count       0x0032   099   099   000    Old_age   Always       -       321\n\
         194 Temperature_Celsius     0x0022   036   045   000    Old_age   Always       -       36\n",
    )
    .unwrap();
    assert_eq!(ata.power_on_hours, Some(1234));
    assert_eq!(ata.power_cycles, Some(321));
    assert_eq!(ata.temperature_celsius, Some(36));
}

#[test]
fn test_current_os() {
    for os in [Os::MacOs, Os::Linux, Os::Windows, Os::Other] {
        let paths = PlatformPaths::new(os, user_dirs(Some("/home/test")));
        let name = paths.current_os();
        assert!(["macos", "linux", "windows", "unknown"].contains(&name));
    }
    assert_eq!(PlatformPaths::new(Os::Linux, user_dirs(None)).current_os(), "linux");
}

#[test]
fn test_cache_dirs_not_empty() {
    let paths = PlatformPaths::new(Os::Linux, user_dirs(Some("/home/test")));
    let dirs = paths.cache_dirs(&Vec::new());
    assert!(!dirs.is_empty());
    assert_eq!(dirs, vec!["/home/test/.cache".to_string()]);
    let mac = PlatformPaths::new(Os::MacOs, user_dirs(Some("/Users/test")));
    assert_eq!(mac.cache_dirs(&Vec::new()), vec!["/Users/test/Library/Caches".to_string()]);
}

#[test]
fn test_npm_cache_dir() {
    let paths = PlatformPaths::new(Os::Linux, user_dirs(Some("/home/test")));
    assert_eq!(paths.npm_cache_dir(), Some("/home/test/.npm".to_string()));
    assert!(PlatformPaths::new(Os::Linux, user_dirs(None)).npm_cache_dir().is_none());
}

#[test]
fn test_cargo_cache_dirs() {
    let paths = PlatformPaths::new(Os::Linux, user_dirs(Some("/home/test")));
    let dirs = paths.cargo_cache_dirs();
    assert!(!dirs.is_empty());
    assert_eq!(dirs, vec!["/home/test/.cargo/registry/cache".to_string(), "/home/test/.cargo/registry/src".to_string()]);
}

#[test]
fn log_dirs_only_where_they_exist() {
    let paths = PlatformPaths::new(Os::Linux, user_dirs(Some("/home/test")));
    assert!(paths.log_dirs(&Vec::new()).is_empty());
    let existing = vec!["/home/test/.local/state".to_string()];
    assert_eq!(paths.log_dirs(&existing), existing);
}

#[test]
fn yarn_and_application_dirs() {
    let mac = PlatformPaths::new(Os::MacOs, user_dirs(Some("/Users/test")));
    assert_eq!(
        mac.yarn_cache_dirs(),
        vec!["/Users/test/.yarn/cache".to_string(), "/Users/test/Library/Caches/Yarn".to_string()]
    );
    assert_eq!(
        mac.application_dirs(&Vec::new(), None, None),
        vec!["/Applications".to_string(), "/Users/test/Applications".to_string()]
    );
    assert_eq!(mac.app_support_dirs(&Vec::new()).len(), 6);
    let linux = PlatformPaths::new(Os::Linux, user_dirs(Some("/home/test")));
    assert_eq!(linux.yarn_cache_dirs(), vec!["/home/test/.yarn/cache".to_string(), "/home/test/.cache/yarn".to_string()]);
    // The data directory already lists .local/share; .config is listed by the configuration directory.
    let existing = vec!["/home/test/.local/share".to_string(), "/home/test/.config".to_string()];
    assert_eq!(
        linux.app_support_dirs(&existing),
        vec!["/home/test/.local/share".to_string(), "/home/test/.config".to_string()]
    );
}

#[test]
fn trash_locations() {
    let mac = PlatformPaths::new(Os::MacOs, user_dirs(Some("/Users/test")));
    assert_eq!(mac.trash_dir(), Some("/Users/test/.Trash".to_string()));
    let linux = PlatformPaths::new(Os::Linux, user_dirs(Some("/home/test")));
    assert_eq!(linux.trash_dir(), Some("/home/test/.local/share/Trash/files".to_string()));
    let mut no_data = user_dirs(Some("/home/test"));
    no_data.data_local = None;
    assert_eq!(
        PlatformPaths::new(Os::Linux, no_data).trash_dir(),
        Some("/home/test/.local/share/Trash/files".to_string())
    );
    let windows = PlatformPaths::new(Os::Windows, user_dirs(Some("C:\\Users\\test")));
    assert_eq!(windows.trash_dir(), None);
    assert!(mac.is_unix());
    assert!(windows.is_windows());
}

#[test]
fn windows_drive_is_named_by_its_letter() {
    assert_eq!(DiskInfoProvider::windows_drive_name("C:\\"), "Drive C");
    assert_eq!(DiskInfoProvider::windows_drive_name("D:"), "Drive D");
    assert_eq!(DiskInfoProvider::windows_drive_name("\\\\server\\share"), "\\\\server\\share");
    assert_eq!(DiskInfoProvider::windows_drive_name("C"), "C");
}

#[test]
fn windows_disk_info_from_free_space() {
    let disk = DiskInfoProvider::get_windows_disk_info("C:\\", Some((300, 1000))).unwrap();
    assert_eq!(disk.name, "Drive C");
    assert_eq!(disk.mount_point, "C:\\");
    assert_eq!(disk.device_node, "C:\\");
    assert_eq!(disk.filesystem, "NTFS");
    assert_eq!(disk.total_bytes, 1000);
    assert_eq!(disk.used_bytes, 700);
    assert_eq!(disk.free_bytes, 300);
    let odd = DiskInfoProvider::get_windows_disk_info("E:\\", Some((2000, 1000))).unwrap();
    assert_eq!(odd.used_bytes, 0);
    assert!(DiskInfoProvider::get_windows_disk_info("C:\\", None).is_none());
}

#[test]
fn windows_drives_run_from_a_to_z() {
    let drives = DiskInfoProvider::windows_drives();
    assert_eq!(drives.len(), 26);
    assert_eq!(drives[0], "A:\\");
    assert_eq!(drives[2], "C:\\");
    assert_eq!(drives[25], "Z:\\");
}

#[test]
fn pip_cache_follows_the_platform() {
    let linux = PlatformPaths::new(Os::Linux, user_dirs(Some("/home/test")));
    assert_eq!(linux.pip_cache_dir(), Some("/home/test/.cache/pip".to_string()));
    let mac = PlatformPaths::new(Os::MacOs, user_dirs(Some("/Users/test")));
    assert_eq!(mac.pip_cache_dir(), Some("/Users/test/Library/Caches/pip".to_string()));
    assert_eq!(PlatformPaths::new(Os::Other, user_dirs(Some("/home/test"))).pip_cache_dir(), None);
}

#[test]
fn smart_status_follows_the_health_verdict() {
    let linux = DiskInfoProvider::new(Os::Linux);
    let passed = "smartctl 7.3\n=== START OF READ SMART DATA SECTION ===\nSMART overall-health self-assessment test result: PASSED\n";
    let failed = "SMART overall-health self-assessment test result: FAILED!\n";
    let scsi = "SMART Health Status: OK\n";
    let missing = "Smartctl open device: /dev/nope failed: No such device\n";
    assert_eq!(linux.get_smart_status(&None, true, &Some(passed.to_string())), SmartStatus::Verified);
    assert_eq!(linux.get_smart_status(&None, true, &Some(failed.to_string())), SmartStatus::Failing);
    assert_eq!(linux.get_smart_status(&None, true, &Some(scsi.to_string())), SmartStatus::Verified);
    assert_eq!(linux.get_smart_status(&None, true, &Some(missing.to_string())), SmartStatus::Unknown);
    assert_eq!(linux.get_smart_status(&None, true, &None), SmartStatus::Unknown);
    assert_eq!(linux.get_smart_status(&None, false, &Some(passed.to_string())), SmartStatus::NotSupported);
}
