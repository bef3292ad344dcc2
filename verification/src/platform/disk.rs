//! Disk information of each platform, from what `df`, `diskutil` and
//! `/proc/mounts` report.

use vstd::prelude::*;
use crate::disk::{
    DiskInfo, SmartStatus, df_mounts_acc, df_spec, disk_info_from_df, linux_disk_mounts, linux_filesystem,
    linux_volume_name, linux_volume_name_spec, or_unknown, diskutil_acc, parse_df, parse_diskutil_info,
    parse_smart_status, parse_smartctl_health, smartctl_health_acc, proc_fs_acc, proc_mounts_acc, smart_status_acc, df_mount_points,
};
use crate::path::{Os, oview};
use crate::text::{chars_of, concat2, lines, push_char, string_of_range, sviews};

verus! {

/// Disk information provider of a platform.
#[derive(Debug, Clone, Copy)]
pub struct DiskInfoProvider {
    pub os: Os,
}

/// The values `df` reports fit in bytes.
pub open spec fn df_fits(df_out: Seq<char>) -> bool {
    match df_spec(df_out) {
        Some((_, t, a)) => t * 1024 <= u64::MAX && a * 1024 <= u64::MAX,
        None => true,
    }
}

/// A disk as the providers report it: it has a mount point, and its used
/// space is its total less its free space (not below zero).
pub open spec fn reported_disk(d: DiskInfo) -> bool {
    &&& d.mount_point@.len() > 0
    &&& d.used_bytes == (if d.total_bytes >= d.free_bytes { d.total_bytes - d.free_bytes } else { 0 })
}

/// Whether `d` is a disk as the providers report it (see `reported_disk`).
pub fn is_reported_disk(d: &DiskInfo) -> (r: bool)
    ensures
        r == reported_disk(*d),
{
    d.mount_point.unicode_len() > 0 && d.used_bytes == d.total_bytes.saturating_sub(d.free_bytes)
}

/// `r` is the disk information for `mount_point` that the outputs give on
/// `os` (see `get_disk_info`).
pub open spec fn disk_info_fits(os: Os, mount_point: Seq<char>, df_out: Option<String>, details: Option<String>, r: Option<DiskInfo>) -> bool {
    &&& ((os == Os::MacOs || os == Os::Linux) && match df_out {
        Some(o) => df_spec(o@) is Some,
        None => false,
    }) == r is Some
    &&& match (r, df_out) {
        (Some(d), Some(o)) => match df_spec(o@) {
            Some((dev, t, a)) => {
                &&& d.mount_point@ == mount_point
                &&& d.device_node@ == dev
                &&& d.total_bytes == t * 1024
                &&& d.free_bytes == a * 1024
                &&& d.used_bytes == (if t >= a { t - a } else { 0 }) * 1024
                &&& os == Os::MacOs ==> d.name@ == match details {
                    Some(x) => or_unknown(diskutil_acc(lines(x@)).0),
                    None => "Unknown"@,
                } && d.filesystem@ == match details {
                    Some(x) => or_unknown(diskutil_acc(lines(x@)).1),
                    None => "Unknown"@,
                }
                &&& os == Os::Linux ==> d.name@ == linux_volume_name_spec(mount_point) && d.filesystem@
                    == match details {
                    Some(x) => match proc_fs_acc(lines(x@), dev) {
                        Some(f) => f,
                        None => "Unknown"@,
                    },
                    None => "Unknown"@,
                }
            },
            None => false,
        },
        (Some(_), None) => false,
        _ => true,
    }
}

/// The name of a Windows drive: `Drive X` for a mount point whose second
/// character is a colon (`X:` or `X:\\`), the mount point itself otherwise.
pub open spec fn windows_drive_name_spec(mount_point: Seq<char>) -> Seq<char> {
    if mount_point.len() >= 2 && mount_point[1] == ':' {
        "Drive "@ + seq![mount_point[0]]
    } else {
        mount_point
    }
}

/// `r` is the disk information of a Windows drive whose space query gave
/// `space` (the bytes available to the caller and the total bytes; `None`
/// when the query failed).
pub open spec fn windows_disk_info_fits(mount_point: Seq<char>, space: Option<(u64, u64)>, r: Option<DiskInfo>) -> bool {
    match space {
        Some((available, total)) => r matches Some(d) && {
            &&& d.name@ == windows_drive_name_spec(mount_point)
            &&& d.mount_point@ == mount_point
            &&& d.device_node@ == mount_point
            &&& d.filesystem@ == "NTFS"@
            &&& d.total_bytes == total
            &&& d.used_bytes == (if total >= available { total - available } else { 0 })
            &&& d.free_bytes == available
        },
        None => r is None,
    }
}

impl DiskInfoProvider {
    pub fn new(os: Os) -> (r: DiskInfoProvider)
        ensures
            r.os == os,
    {
        DiskInfoProvider { os }
    }

    /// Disk information for a mount point, from the output of `df -k
    /// <mount>` (`None` when it failed) and, on macOS, of `diskutil info
    /// <device>` or, on Linux, the content of `/proc/mounts` (`None` when
    /// unavailable). On macOS the name and filesystem come from `diskutil`
    /// (`Unknown` without it); on Linux the filesystem comes from
    /// `/proc/mounts` and the name from the mount point. Windows drives are
    /// read by `get_windows_disk_info`: `None` here.
    pub fn get_disk_info(&self, mount_point: &str, df_out: &Option<String>, details: &Option<String>) -> (r: Option<DiskInfo>)
        requires
            df_out matches Some(o) ==> df_fits(o@),
        ensures
            disk_info_fits(self.os, mount_point@, *df_out, *details, r),
            r matches Some(d) ==> d.mount_point@ == mount_point@ && (mount_point@.len() > 0 ==> reported_disk(d)),
    {
        if !(self.os == Os::MacOs || self.os == Os::Linux) {
            return None;
        }
        let out = match df_out {
            Some(o) => o,
            None => {
                return None;
            },
        };
        let (device, total, avail) = match parse_df(out.as_str()) {
            Some(x) => x,
            None => {
                return None;
            },
        };
        if self.os == Os::MacOs {
            let (name, fs) = match details {
                Some(x) => parse_diskutil_info(x.as_str()),
                None => (String::from_str("Unknown"), String::from_str("Unknown")),
            };
            Some(disk_info_from_df(mount_point, device, total, avail, name, fs))
        } else {
            let fs = match details {
                Some(x) => match linux_filesystem(x.as_str(), device.as_str()) {
                    Some(f) => f,
                    None => String::from_str("Unknown"),
                },
                None => String::from_str("Unknown"),
            };
            let name = linux_volume_name(mount_point);
            Some(disk_info_from_df(mount_point, device, total, avail, name, fs))
        }
    }

    /// The mount points whose disks are listed: on macOS those of `df -k`
    /// with a `/dev/disk` device; on Linux those of real disks in
    /// `/proc/mounts`; none otherwise (or without a listing).
    pub fn mounts_to_list(&self, listing: &Option<String>) -> (r: Vec<String>)
        ensures
            sviews(r@) == match listing {
                Some(l) => match self.os {
                    Os::MacOs => if lines(l@).len() == 0 { seq![] } else { df_mounts_acc(lines(l@).skip(1)) },
                    Os::Linux => proc_mounts_acc(lines(l@)),
                    _ => seq![],
                },
                None => seq![],
            },
    {
        match listing {
            Some(l) => match self.os {
                Os::MacOs => df_mount_points(l.as_str()),
                Os::Linux => linux_disk_mounts(l.as_str()),
                _ => {
                    let r: Vec<String> = Vec::new();
                    assert(sviews(r@) =~= Seq::<Seq<char>>::empty());
                    r
                },
            },
            None => {
                let r: Vec<String> = Vec::new();
                assert(sviews(r@) =~= Seq::<Seq<char>>::empty());
                r
            },
        }
    }

    /// The SMART status of a device: on macOS from `diskutil info` (unknown
    /// when it failed); on Linux, where `smartctl` is available, the health
    /// verdict of `smartctl -H` (unknown when it could not be run or gave no
    /// verdict), and not supported without `smartctl`; not supported on
    /// other systems.
    pub fn get_smart_status(&self, diskutil_out: &Option<String>, smartctl_available: bool, smartctl_health: &Option<String>) -> (r: SmartStatus)
        ensures
            r == match self.os {
                Os::MacOs => match diskutil_out {
                    Some(o) => smart_status_acc(lines(o@)),
                    None => SmartStatus::Unknown,
                },
                Os::Linux => if !smartctl_available {
                    SmartStatus::NotSupported
                } else {
                    match smartctl_health {
                        Some(o) => smartctl_health_acc(lines(o@)),
                        None => SmartStatus::Unknown,
                    }
                },
                _ => SmartStatus::NotSupported,
            },
    {
        match self.os {
            Os::MacOs => parse_smart_status(diskutil_out),
            Os::Linux => if !smartctl_available {
                SmartStatus::NotSupported
            } else {
                match smartctl_health {
                    Some(o) => parse_smartctl_health(o.as_str()),
                    None => SmartStatus::Unknown,
                }
            },
            _ => SmartStatus::NotSupported,
        }
    }

    /// The filesystem of a Windows drive: reported as NTFS for every drive.
    fn get_windows_filesystem(_drive: &str) -> (r: Option<String>)
        ensures
            r matches Some(f) && f@ == "NTFS"@,
    {
        proof {
            reveal_strlit("NTFS");
        }
        Some(String::from_str("NTFS"))
    }

    /// The name of a Windows drive (see `windows_drive_name_spec`).
    pub fn windows_drive_name(mount_point: &str) -> (r: String)
        ensures
            r@ == windows_drive_name_spec(mount_point@),
    {
        let v = chars_of(mount_point);
        if v.len() >= 2 && v[1] == ':' {
            let first = string_of_range(&v, 0, 1);
            proof {
                reveal_strlit("Drive ");
                assert(v@.subrange(0, 1) =~= seq![mount_point@[0]]);
            }
            concat2("Drive ", first.as_str())
        } else {
            String::from_str(mount_point)
        }
    }

    /// Disk information of a Windows drive, from what the free-space query
    /// of the drive gave: the bytes available to the caller and the total
    /// bytes, or `None` when the query failed. Used space is the total less
    /// the available space, not below zero.
    pub fn get_windows_disk_info(mount_point: &str, space: Option<(u64, u64)>) -> (r: Option<DiskInfo>)
        ensures
            windows_disk_info_fits(mount_point@, space, r),
            r matches Some(d) ==> (mount_point@.len() > 0 ==> reported_disk(d)),
    {
        let (available, total) = match space {
            Some(x) => x,
            None => {
                return None;
            },
        };
        let filesystem = match Self::get_windows_filesystem(mount_point) {
            Some(f) => f,
            None => String::from_str("NTFS"),
        };
        Some(DiskInfo {
            name: Self::windows_drive_name(mount_point),
            mount_point: String::from_str(mount_point),
            device_node: String::from_str(mount_point),
            filesystem,
            total_bytes: total,
            used_bytes: total.saturating_sub(available),
            free_bytes: available,
        })
    }

    /// The drives looked at on Windows: `A:\\` to `Z:\\`, in order.
    pub fn windows_drives() -> (r: Vec<String>)
        ensures
            r@.len() == 26,
            forall|i: int| 0 <= i < 26 ==> (#[trigger] r@[i])@ == seq![(65 + i) as char, ':', '\\'],
    {
        let mut r: Vec<String> = Vec::new();
        let mut i: u8 = 0;
        while i < 26
            invariant
                i <= 26,
                r@.len() == i,
                forall|j: int| 0 <= j < i ==> (#[trigger] r@[j])@ == seq![(65 + j) as char, ':', '\\'],
            decreases 26 - i,
        {
            let letter: char = (65u8 + i) as char;
            proof {
                reveal_strlit(":\\");
                assert(letter == (65 + i) as char);
            }
            let mut drive = String::new();
            push_char(&mut drive, letter);
            drive.append(":\\");
            assert(drive@ =~= seq![(65 + i) as char, ':', '\\']);
            r.push(drive);
            i = i + 1;
        }
        r
    }

    /// The mount point of the main disk: `C:\` on Windows, `/` elsewhere.
    pub fn root_mount_point(&self) -> (r: &'static str)
        ensures
            r@ == (if self.os == Os::Windows { "C:\\"@ } else { "/"@ }),
    {
        if self.os == Os::Windows {
            "C:\\"
        } else {
            "/"
        }
    }

    /// The root disk (`C:\\` on Windows, `/` elsewhere), from the outputs
    /// of the commands for its mount point, as `get_disk_info` reads them.
    pub fn get_root_disk(&self, df_out: &Option<String>, details: &Option<String>) -> (r: Option<DiskInfo>)
        requires
            df_out matches Some(o) ==> df_fits(o@),
        ensures
            disk_info_fits(self.os, (if self.os == Os::Windows { "C:\\"@ } else { "/"@ }), *df_out, *details, r),
    {
        let root = self.root_mount_point();
        self.get_disk_info(root, df_out, details)
    }

    /// The mounted disks: those found at the listed mount points, or, where
    /// none was found, the root disk where it could be read (`root`). On
    /// macOS a listing that could not be had gives no disks at all; on
    /// Windows there is no fallback to the root disk.
    pub fn list_mounted_disks(&self, listing_read: bool, found: Vec<DiskInfo>, root: Option<DiskInfo>) -> (r: Vec<DiskInfo>)
        requires
            forall|i: int| 0 <= i < found@.len() ==> reported_disk(#[trigger] found@[i]),
            root matches Some(d) ==> reported_disk(d),
        ensures
            forall|i: int| 0 <= i < r@.len() ==> reported_disk(#[trigger] r@[i]),
            r@ == (if self.os == Os::MacOs && !listing_read {
                Seq::<DiskInfo>::empty()
            } else if (self.os == Os::MacOs || self.os == Os::Linux) && found@.len() == 0 {
                match root {
                    Some(d) => seq![d],
                    None => Seq::<DiskInfo>::empty(),
                }
            } else {
                found@
            }),
    {
        if self.os == Os::MacOs && !listing_read {
            return Vec::new();
        }
        if (self.os == Os::MacOs || self.os == Os::Linux) && found.len() == 0 {
            let mut r: Vec<DiskInfo> = Vec::new();
            match root {
                Some(d) => r.push(d),
                None => {},
            }
            return r;
        }
        found
    }
}

} // verus!
