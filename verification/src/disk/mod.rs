//! Disks: their space, their SMART health, and what `df`, `diskutil` and
//! `/proc/mounts` report of them.
//!
//! Running the commands and reading the files is the caller's part; this
//! module reads what they printed.

use vstd::prelude::*;
use crate::path::{Os, file_name, file_name_of};
use crate::text::{
    lines, lines_of, parse_u64_spec, str_eq, str_parse_u64, str_skip, str_starts_with, str_trim, sviews, to_lowercase,
    trim, unicode_lowercase, words, words_of, join_with, join_strings,
};

pub mod smartctl;

use crate::platform::disk::{df_fits, disk_info_fits, DiskInfoProvider};

verus! {

/// Basic disk information.
#[derive(Debug, Clone)]
pub struct DiskInfo {
    /// Disk name (e.g. `Macintosh HD`).
    pub name: String,
    /// Mount point (e.g. `/`).
    pub mount_point: String,
    /// Device node (e.g. `/dev/disk0s2`).
    pub device_node: String,
    /// Filesystem type (e.g. `APFS`).
    pub filesystem: String,
    /// Total size in bytes.
    pub total_bytes: u64,
    /// Used space in bytes.
    pub used_bytes: u64,
    /// Free space in bytes.
    pub free_bytes: u64,
}

/// SMART health status.
#[derive(Debug, Clone, Copy, PartialEq, Eq, Structural)]
pub enum SmartStatus {
    /// SMART status verified (healthy).
    Verified,
    /// SMART status failing.
    Failing,
    /// SMART status unknown.
    Unknown,
    /// SMART not supported on this disk.
    NotSupported,
}

/// Detailed SMART data.
#[derive(Debug, Clone)]
pub struct SmartData {
    pub temperature_celsius: Option<u32>,
    pub power_on_hours: Option<u64>,
    pub power_cycles: Option<u64>,
    /// Percentage of life used (SSD wear).
    pub percentage_used: Option<u8>,
    pub available_spare: Option<u8>,
    pub read_error_rate: Option<u64>,
    pub write_error_rate: Option<u64>,
    pub reallocated_sectors: Option<u64>,
    pub pending_sectors: Option<u64>,
    pub uncorrectable_sectors: Option<u64>,
    /// Data units read (in 512-byte units).
    pub data_units_read: Option<u64>,
    /// Data units written (in 512-byte units).
    pub data_units_written: Option<u64>,
    pub unsafe_shutdowns: Option<u64>,
    pub media_errors: Option<u64>,
}

impl SmartData {
    pub open spec fn is_empty(&self) -> bool {
        &&& self.temperature_celsius is None && self.power_on_hours is None && self.power_cycles is None
        &&& self.percentage_used is None && self.available_spare is None && self.read_error_rate is None
        &&& self.write_error_rate is None && self.reallocated_sectors is None && self.pending_sectors is None
        &&& self.uncorrectable_sectors is None && self.data_units_read is None && self.data_units_written is None
        &&& self.unsafe_shutdowns is None && self.media_errors is None
    }
}

impl Default for SmartData {
    /// Nothing known.
    fn default() -> (r: Self)
        ensures
            r.is_empty(),
    {
        SmartData {
            temperature_celsius: None,
            power_on_hours: None,
            power_cycles: None,
            percentage_used: None,
            available_spare: None,
            read_error_rate: None,
            write_error_rate: None,
            reallocated_sectors: None,
            pending_sectors: None,
            uncorrectable_sectors: None,
            data_units_read: None,
            data_units_written: None,
            unsafe_shutdowns: None,
            media_errors: None,
        }
    }
}

/// Combined disk health information.
#[derive(Debug, Clone)]
pub struct DiskHealth {
    pub disk: DiskInfo,
    pub smart_status: SmartStatus,
    pub smart_data: Option<SmartData>,
}

/// A number read from `df`: its value, or 0 when it is no number.
pub open spec fn kb_value(w: Seq<char>) -> u64 {
    match parse_u64_spec(w) {
        Some(n) => n,
        None => 0,
    }
}

/// The device, total and available kilobytes of the first line after the
/// header of `df -k` output with at least six columns.
pub open spec fn df_spec(out: Seq<char>) -> Option<(Seq<char>, u64, u64)> {
    let ls = lines(out);
    if ls.len() < 2 {
        None
    } else {
        let p = words(ls[1]);
        if p.len() < 6 { None } else { Some((p[0], kb_value(p[1]), kb_value(p[3]))) }
    }
}

/// Read `df -k` output: the device, total kilobytes and available kilobytes.
pub fn parse_df(out: &str) -> (r: Option<(String, u64, u64)>)
    ensures
        match df_spec(out@) {
            Some((d, t, a)) => r matches Some((rd, rt, ra)) && rd@ == d && rt == t && ra == a,
            None => r is None,
        },
{
    let ls = lines_of(out);
    if ls.len() < 2 {
        return None;
    }
    assert(sviews(ls@)[1] == ls@[1]@);
    let p = words_of(ls[1].as_str());
    if p.len() < 6 {
        return None;
    }
    assert(sviews(p@)[0] == p@[0]@ && sviews(p@)[1] == p@[1]@ && sviews(p@)[3] == p@[3]@);
    let total = match str_parse_u64(p[1].as_str()) {
        Some(n) => n,
        None => 0,
    };
    let avail = match str_parse_u64(p[3].as_str()) {
        Some(n) => n,
        None => 0,
    };
    Some((p[0].clone(), total, avail))
}

/// Disk information from what `df` reported of a mount point: used space is
/// the total less the available space (not below zero), free space the
/// available space; kilobytes become bytes.
pub fn disk_info_from_df(
    mount_point: &str,
    device: String,
    total_kb: u64,
    available_kb: u64,
    name: String,
    filesystem: String,
) -> (r: DiskInfo)
    requires
        total_kb * 1024 <= u64::MAX,
        available_kb * 1024 <= u64::MAX,
    ensures
        r.name == name,
        r.mount_point@ == mount_point@,
        r.device_node == device,
        r.filesystem == filesystem,
        r.total_bytes == total_kb * 1024,
        r.used_bytes == (if total_kb >= available_kb { total_kb - available_kb } else { 0 }) * 1024,
        r.free_bytes == available_kb * 1024,
{
    let used_kb: u64 = total_kb.saturating_sub(available_kb);
    DiskInfo {
        name,
        mount_point: String::from_str(mount_point),
        device_node: device,
        filesystem,
        total_bytes: total_kb * 1024,
        used_bytes: used_kb * 1024,
        free_bytes: available_kb * 1024,
    }
}

/// The value of a `key` line of `diskutil info`: the text after the key,
/// trimmed.
pub open spec fn after_key(line: Seq<char>, key: Seq<char>) -> Seq<char> {
    trim(line.skip(key.len() as int))
}

/// The volume name and filesystem `diskutil info` printed, scanning its
/// trimmed lines: the last `Volume Name:`; the last `Type (Bundle):`, or a
/// `File System Personality:` seen while no filesystem is known yet.
pub open spec fn diskutil_acc(ls: Seq<Seq<char>>) -> (Seq<char>, Seq<char>)
    decreases ls.len(),
{
    if ls.len() == 0 {
        (seq![], seq![])
    } else {
        let (n, f) = diskutil_acc(ls.drop_last());
        let l = trim(ls.last());
        if "Volume Name:"@.is_prefix_of(l) {
            (after_key(l, "Volume Name:"@), f)
        } else if "Type (Bundle):"@.is_prefix_of(l) {
            (n, after_key(l, "Type (Bundle):"@))
        } else if "File System Personality:"@.is_prefix_of(l) && f.len() == 0 {
            (n, after_key(l, "File System Personality:"@))
        } else {
            (n, f)
        }
    }
}

pub open spec fn or_unknown(s: Seq<char>) -> Seq<char> {
    if s.len() == 0 { "Unknown"@ } else { s }
}

/// Read `diskutil info` output: the volume name and the filesystem, each
/// `Unknown` when not found.
pub fn parse_diskutil_info(out: &str) -> (r: (String, String))
    ensures
        r.0@ == or_unknown(diskutil_acc(lines(out@)).0),
        r.1@ == or_unknown(diskutil_acc(lines(out@)).1),
{
    proof {
        reveal_strlit("Volume Name:");
        reveal_strlit("Type (Bundle):");
        reveal_strlit("File System Personality:");
    }
    let ls = lines_of(out);
    let mut name = String::new();
    let mut fs = String::new();
    let mut i: usize = 0;
    while i < ls.len()
        invariant
            i <= ls@.len(),
            (name@, fs@) == diskutil_acc(sviews(ls@).take(i as int)),
        decreases ls@.len() - i,
    {
        proof {
            assert(sviews(ls@).take(i + 1).drop_last() =~= sviews(ls@).take(i as int));
            assert(sviews(ls@).take(i + 1).last() == ls@[i as int]@);
        }
        proof {
            reveal_strlit("Volume Name:");
            reveal_strlit("Type (Bundle):");
            reveal_strlit("File System Personality:");
        }
        let l = str_trim(ls[i].as_str());
        if str_starts_with(l.as_str(), "Volume Name:") {
            let rest = str_skip(l.as_str(), 12);
            name = str_trim(rest.as_str());
        } else if str_starts_with(l.as_str(), "Type (Bundle):") {
            let rest = str_skip(l.as_str(), 14);
            fs = str_trim(rest.as_str());
        } else if str_starts_with(l.as_str(), "File System Personality:") && fs.unicode_len() == 0 {
            let rest = str_skip(l.as_str(), 24);
            fs = str_trim(rest.as_str());
        }
        i = i + 1;
    }
    assert(sviews(ls@).take(ls@.len() as int) =~= sviews(ls@));
    if name.unicode_len() == 0 {
        name = String::from_str("Unknown");
    }
    if fs.unicode_len() == 0 {
        fs = String::from_str("Unknown");
    }
    (name, fs)
}

/// The SMART status named by `diskutil info`: the first `SMART Status:`
/// line decides by its lower-cased value; without one, not supported.
pub open spec fn smart_status_acc(ls: Seq<Seq<char>>) -> SmartStatus
    decreases ls.len(),
{
    if ls.len() == 0 {
        SmartStatus::NotSupported
    } else {
        let l = trim(ls[0]);
        if "SMART Status:"@.is_prefix_of(l) {
            let v = unicode_lowercase(after_key(l, "SMART Status:"@));
            if v == "verified"@ {
                SmartStatus::Verified
            } else if v == "failing"@ {
                SmartStatus::Failing
            } else if v == "not supported"@ {
                SmartStatus::NotSupported
            } else {
                SmartStatus::Unknown
            }
        } else {
            smart_status_acc(ls.skip(1))
        }
    }
}

/// The SMART status from `diskutil info` output (`None` when the command
/// failed: unknown).
pub fn parse_smart_status(out: &Option<String>) -> (r: SmartStatus)
    ensures
        match out {
            None => r == SmartStatus::Unknown,
            Some(o) => r == smart_status_acc(lines(o@)),
        },
{
    proof {
        reveal_strlit("SMART Status:");
    }
    match out {
        None => SmartStatus::Unknown,
        Some(o) => {
            let ls = lines_of(o.as_str());
            let mut i: usize = 0;
            assert(sviews(ls@).skip(0) =~= sviews(ls@));
            while i < ls.len()
                invariant
                    i <= ls@.len(),
                    *out == Some(*o),
                    smart_status_acc(lines(o@)) == smart_status_acc(sviews(ls@).skip(i as int)),
                    sviews(ls@) == lines(o@),
                decreases ls@.len() - i,
            {
                proof {
                    assert(sviews(ls@).skip(i as int)[0] == ls@[i as int]@);
                    assert(sviews(ls@).skip(i as int).skip(1) =~= sviews(ls@).skip(i + 1));
                }
                proof {
                    reveal_strlit("SMART Status:");
                }
                let l = str_trim(ls[i].as_str());
                if str_starts_with(l.as_str(), "SMART Status:") {
                    let rest = str_skip(l.as_str(), 13);
                    let v0 = str_trim(rest.as_str());
                    let v = to_lowercase(v0.as_str());
                    return if str_eq(v.as_str(), "verified") {
                        SmartStatus::Verified
                    } else if str_eq(v.as_str(), "failing") {
                        SmartStatus::Failing
                    } else if str_eq(v.as_str(), "not supported") {
                        SmartStatus::NotSupported
                    } else {
                        SmartStatus::Unknown
                    };
                }
                i = i + 1;
            }
            SmartStatus::NotSupported
        },
    }
}

/// The health verdict that `smartctl -H` prints, from the first of its
/// verdict lines: `SMART overall-health self-assessment test result:` (ATA
/// and NVMe disks) is verified when it says `PASSED` and failing otherwise;
/// `SMART Health Status:` (SCSI disks) is verified when it says `OK` and
/// failing otherwise. Without a verdict line the status is unknown.
pub open spec fn smartctl_health_acc(ls: Seq<Seq<char>>) -> SmartStatus
    decreases ls.len(),
{
    if ls.len() == 0 {
        SmartStatus::Unknown
    } else {
        let l = trim(ls[0]);
        if "SMART overall-health self-assessment test result:"@.is_prefix_of(l) {
            if after_key(l, "SMART overall-health self-assessment test result:"@) == "PASSED"@ {
                SmartStatus::Verified
            } else {
                SmartStatus::Failing
            }
        } else if "SMART Health Status:"@.is_prefix_of(l) {
            if after_key(l, "SMART Health Status:"@) == "OK"@ {
                SmartStatus::Verified
            } else {
                SmartStatus::Failing
            }
        } else {
            smartctl_health_acc(ls.skip(1))
        }
    }
}

/// The SMART status from the output of `smartctl -H` (see
/// `smartctl_health_acc`).
pub fn parse_smartctl_health(out: &str) -> (r: SmartStatus)
    ensures
        r == smartctl_health_acc(lines(out@)),
{
    let ls = lines_of(out);
    let mut i: usize = 0;
    assert(sviews(ls@).skip(0) =~= sviews(ls@));
    while i < ls.len()
        invariant
            i <= ls@.len(),
            sviews(ls@) == lines(out@),
            smartctl_health_acc(lines(out@)) == smartctl_health_acc(sviews(ls@).skip(i as int)),
        decreases ls@.len() - i,
    {
        proof {
            assert(sviews(ls@).skip(i as int)[0] == ls@[i as int]@);
            assert(sviews(ls@).skip(i as int).skip(1) =~= sviews(ls@).skip(i + 1));
            reveal_strlit("SMART overall-health self-assessment test result:");
            reveal_strlit("SMART Health Status:");
        }
        let l = str_trim(ls[i].as_str());
        if str_starts_with(l.as_str(), "SMART overall-health self-assessment test result:") {
            let rest = str_skip(l.as_str(), 49);
            let v = str_trim(rest.as_str());
            return if str_eq(v.as_str(), "PASSED") {
                SmartStatus::Verified
            } else {
                SmartStatus::Failing
            };
        }
        if str_starts_with(l.as_str(), "SMART Health Status:") {
            let rest = str_skip(l.as_str(), 20);
            let v = str_trim(rest.as_str());
            return if str_eq(v.as_str(), "OK") {
                SmartStatus::Verified
            } else {
                SmartStatus::Failing
            };
        }
        i = i + 1;
    }
    SmartStatus::Unknown
}

/// The mount point of a `df` line: its ninth column and the rest, joined by
/// spaces, when there are that many; else the last column.
pub open spec fn df_mount_of(p: Seq<Seq<char>>) -> Seq<char> {
    if p.len() >= 9 { join_with(p.skip(8), " "@) } else { p.last() }
}

/// The mount points of the disks `df -k` lists: lines after the header with
/// at least six columns whose device starts with `/dev/disk`.
pub open spec fn df_mounts_acc(ls: Seq<Seq<char>>) -> Seq<Seq<char>>
    decreases ls.len(),
{
    if ls.len() == 0 {
        seq![]
    } else {
        let d = df_mounts_acc(ls.drop_last());
        let p = words(ls.last());
        if p.len() >= 6 && "/dev/disk"@.is_prefix_of(p[0]) { d.push(df_mount_of(p)) } else { d }
    }
}

/// The mount points of the disks `df -k` listed.
pub fn df_mount_points(out: &str) -> (r: Vec<String>)
    ensures
        sviews(r@) == (if lines(out@).len() == 0 { seq![] } else { df_mounts_acc(lines(out@).skip(1)) }),
{
    let ls = lines_of(out);
    let mut r: Vec<String> = Vec::new();
    if ls.len() == 0 {
        return r;
    }
    let ghost body = sviews(ls@).skip(1);
    let mut i: usize = 1;
    while i < ls.len()
        invariant
            1 <= i <= ls@.len(),
            body == sviews(ls@).skip(1),
            sviews(r@) == df_mounts_acc(body.take(i - 1)),
        decreases ls@.len() - i,
    {
        proof {
            assert(body.take(i as int).drop_last() =~= body.take(i - 1));
            assert(body.take(i as int).last() == ls@[i as int]@);
        }
        let p = words_of(ls[i].as_str());
        if p.len() >= 6 && str_starts_with(p[0].as_str(), "/dev/disk") {
            assert(sviews(p@)[0] == p@[0]@);
            let m = if p.len() >= 9 {
                let mut tail: Vec<String> = Vec::new();
                let mut k: usize = 8;
                while k < p.len()
                    invariant
                        8 <= k <= p@.len(),
                        sviews(tail@) == sviews(p@).skip(8).take(k - 8),
                    decreases p@.len() - k,
                {
                    let ghost old = sviews(tail@);
                    tail.push(p[k].clone());
                    k = k + 1;
                    assert(sviews(tail@) =~= old.push(p@[k - 1]@));
                    assert(sviews(p@).skip(8)[k - 9] == p@[k - 1]@);
                    assert(sviews(tail@) =~= sviews(p@).skip(8).take(k - 8));
                }
                assert(sviews(p@).skip(8).take(p@.len() - 8) =~= sviews(p@).skip(8));
                join_strings(&tail, " ")
            } else {
                assert(sviews(p@).last() == p@[p@.len() - 1]@);
                p[p.len() - 1].clone()
            };
            let ghost old = sviews(r@);
            r.push(m);
            assert(sviews(r@) =~= old.push(df_mount_of(sviews(p@))));
        }
        i = i + 1;
    }
    assert(body.take(ls@.len() - 1) =~= body);
    r
}

/// Device prefixes of real disks on Linux.
pub open spec fn linux_disk_prefixes() -> Seq<&'static str> {
    seq!["/dev/sd", "/dev/nvme", "/dev/vd", "/dev/xvd", "/dev/hd"]
}

pub open spec fn is_linux_disk(device: Seq<char>) -> bool {
    exists|i: int| 0 <= i < linux_disk_prefixes().len() && (#[trigger] linux_disk_prefixes()[i])@.is_prefix_of(device)
}

/// The mount points of the real disks `/proc/mounts` lists.
pub open spec fn proc_mounts_acc(ls: Seq<Seq<char>>) -> Seq<Seq<char>>
    decreases ls.len(),
{
    if ls.len() == 0 {
        seq![]
    } else {
        let d = proc_mounts_acc(ls.drop_last());
        let p = words(ls.last());
        if p.len() >= 2 && is_linux_disk(p[0]) { d.push(p[1]) } else { d }
    }
}

fn is_linux_disk_exec(device: &str) -> (r: bool)
    ensures
        r == is_linux_disk(device@),
{
    let prefixes: Vec<&str> = vec!["/dev/sd", "/dev/nvme", "/dev/vd", "/dev/xvd", "/dev/hd"];
    assert(prefixes@ == linux_disk_prefixes());
    let mut i: usize = 0;
    while i < prefixes.len()
        invariant
            i <= prefixes@.len(),
            prefixes@ == linux_disk_prefixes(),
            forall|j: int| 0 <= j < i ==> !(#[trigger] linux_disk_prefixes()[j])@.is_prefix_of(device@),
        decreases prefixes@.len() - i,
    {
        if str_starts_with(device, prefixes[i]) {
            return true;
        }
        i = i + 1;
    }
    false
}

/// The mount points of the real disks (`/dev/sd*`, `/dev/nvme*`, ...)
/// listed in `/proc/mounts`.
pub fn linux_disk_mounts(content: &str) -> (r: Vec<String>)
    ensures
        sviews(r@) == proc_mounts_acc(lines(content@)),
{
    let ls = lines_of(content);
    let mut r: Vec<String> = Vec::new();
    let mut i: usize = 0;
    while i < ls.len()
        invariant
            i <= ls@.len(),
            sviews(r@) == proc_mounts_acc(sviews(ls@).take(i as int)),
        decreases ls@.len() - i,
    {
        proof {
            assert(sviews(ls@).take(i + 1).drop_last() =~= sviews(ls@).take(i as int));
            assert(sviews(ls@).take(i + 1).last() == ls@[i as int]@);
        }
        let p = words_of(ls[i].as_str());
        if p.len() >= 2 && is_linux_disk_exec(p[0].as_str()) {
            assert(sviews(p@)[0] == p@[0]@ && sviews(p@)[1] == p@[1]@);
            let ghost old = sviews(r@);
            r.push(p[1].clone());
            assert(sviews(r@) =~= old.push(p@[1]@));
        }
        i = i + 1;
    }
    assert(sviews(ls@).take(ls@.len() as int) =~= sviews(ls@));
    r
}

/// The filesystem `/proc/mounts` gives a device: the third column of the
/// first line (with at least three columns) for that device.
pub open spec fn proc_fs_acc(ls: Seq<Seq<char>>, device: Seq<char>) -> Option<Seq<char>>
    decreases ls.len(),
{
    if ls.len() == 0 {
        None
    } else {
        let p = words(ls[0]);
        if p.len() >= 3 && p[0] == device { Some(p[2]) } else { proc_fs_acc(ls.skip(1), device) }
    }
}

/// The filesystem of a device from `/proc/mounts`.
pub fn linux_filesystem(content: &str, device: &str) -> (r: Option<String>)
    ensures
        crate::path::oview(r) == proc_fs_acc(lines(content@), device@),
{
    let ls = lines_of(content);
    let mut i: usize = 0;
    assert(sviews(ls@).skip(0) =~= sviews(ls@));
    while i < ls.len()
        invariant
            i <= ls@.len(),
            proc_fs_acc(lines(content@), device@) == proc_fs_acc(sviews(ls@).skip(i as int), device@),
            sviews(ls@) == lines(content@),
        decreases ls@.len() - i,
    {
        proof {
            assert(sviews(ls@).skip(i as int)[0] == ls@[i as int]@);
            assert(sviews(ls@).skip(i as int).skip(1) =~= sviews(ls@).skip(i + 1));
        }
        let p = words_of(ls[i].as_str());
        if p.len() >= 3 && str_eq(p[0].as_str(), device) {
            assert(sviews(p@)[0] == p@[0]@ && sviews(p@)[2] == p@[2]@);
            return Some(p[2].clone());
        }
        i = i + 1;
    }
    None
}

/// The name of a Linux volume: the file name of its mount point; `Root`
/// for `/`; else the mount point itself.
pub open spec fn linux_volume_name_spec(mount: Seq<char>) -> Seq<char> {
    match file_name(Os::Linux, mount) {
        Some(n) => n,
        None => if mount == "/"@ { "Root"@ } else { mount },
    }
}

/// The name of the Linux volume mounted at `mount`.
pub fn linux_volume_name(mount: &str) -> (r: String)
    ensures
        r@ == linux_volume_name_spec(mount@),
{
    match file_name_of(Os::Linux, mount) {
        Some(n) => n,
        None => if str_eq(mount, "/") { String::from_str("Root") } else { String::from_str(mount) },
    }
}

/// Information about the root disk, as the platform reads it from the
/// outputs of the commands for the root mount point.
pub fn get_root_disk_info(provider: &DiskInfoProvider, df_out: &Option<String>, details: &Option<String>) -> (r: Option<DiskInfo>)
    requires
        df_out matches Some(o) ==> df_fits(o@),
    ensures
        disk_info_fits(provider.os, (if provider.os == Os::Windows { "C:\\"@ } else { "/"@ }), *df_out, *details, r),
{
    provider.get_root_disk(df_out, details)
}

/// The health of one disk: its information, its SMART status and, where
/// `smartctl` is available, the detailed data it could read (`None` where
/// it could not).
pub fn disk_health(disk: DiskInfo, smart_status: SmartStatus, smartctl_available: bool, smart_data: Option<SmartData>) -> (r: DiskHealth)
    ensures
        r.disk == disk,
        r.smart_status == smart_status,
        r.smart_data == (if smartctl_available { smart_data } else { None }),
{
    let data = if smartctl_available { smart_data } else { None };
    DiskHealth { disk, smart_status, smart_data: data }
}

/// What was read of one mounted disk: its information, its SMART status and
/// the detailed data `smartctl` gave (`None` where it gave none).
pub struct DiskReading {
    pub disk: DiskInfo,
    pub smart_status: SmartStatus,
    pub smart_data: Option<SmartData>,
}

/// The health of each mounted disk, in order.
pub fn get_all_disk_health(readings: Vec<DiskReading>, smartctl_available: bool) -> (r: Vec<DiskHealth>)
    ensures
        r@.len() == readings@.len(),
        forall|i: int| 0 <= i < r@.len() ==> {
            &&& (#[trigger] r@[i]).disk == readings@[i].disk
            &&& r@[i].smart_status == readings@[i].smart_status
            &&& r@[i].smart_data == (if smartctl_available { readings@[i].smart_data } else { None })
        },
{
    let ghost all = readings@;
    let mut rest = readings;
    let mut r: Vec<DiskHealth> = Vec::new();
    while rest.len() > 0
        invariant
            r@.len() + rest@.len() == all.len(),
            rest@ == all.skip(r@.len() as int),
            forall|i: int| 0 <= i < r@.len() ==> {
                &&& (#[trigger] r@[i]).disk == all[i].disk
                &&& r@[i].smart_status == all[i].smart_status
                &&& r@[i].smart_data == (if smartctl_available { all[i].smart_data } else { None })
            },
        decreases rest@.len(),
    {
        let ghost k = r@.len();
        let reading = rest.remove(0);
        assert(reading == all[k as int]);
        let h = disk_health(reading.disk, reading.smart_status, smartctl_available, reading.smart_data);
        r.push(h);
        assert(rest@ =~= all.skip(r@.len() as int));
    }
    r
}

} // verus!
