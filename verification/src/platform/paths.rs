//! Standard locations of each platform: caches, logs, application data,
//! applications and the trash.
//!
//! Locations that are only used when they exist are checked by the caller:
//! `existing` lists the candidate paths (from `candidates_to_check`) found to
//! exist.

use vstd::prelude::*;
use crate::path::{Os, join, join_path, oview, same_path, same_path_exec};
use crate::platform::locations::UserDirs;
use crate::safety::protected_paths::{in_path_list, in_path_list_exec};
use crate::text::{sviews, str_eq};

verus! {

/// Standard paths of a platform, from the user's directories.
#[derive(Debug, Clone)]
pub struct PlatformPaths {
    pub os: Os,
    pub dirs: UserDirs,
}

pub open spec fn push_opt(v: Seq<Seq<char>>, o: Option<Seq<char>>) -> Seq<Seq<char>> {
    match o {
        Some(p) => v.push(p),
        None => v,
    }
}

/// `p` is added when it exists and is not listed yet.
pub open spec fn push_if_new(os: Os, v: Seq<Seq<char>>, p: Seq<char>, existing: Seq<Seq<char>>) -> Seq<Seq<char>> {
    if in_path_list(os, p, existing) && !in_path_list(os, p, v) { v.push(p) } else { v }
}

/// `p` is added when it exists.
pub open spec fn push_if_exists(os: Os, v: Seq<Seq<char>>, p: Seq<char>, existing: Seq<Seq<char>>) -> Seq<Seq<char>> {
    if in_path_list(os, p, existing) { v.push(p) } else { v }
}

fn push_if_new_exec(os: Os, v: &mut Vec<String>, p: String, existing: &Vec<String>)
    ensures
        sviews(final(v)@) == push_if_new(os, sviews(old(v)@), p@, sviews(existing@)),
{
    if in_path_list_exec(os, p.as_str(), existing) && !in_path_list_exec(os, p.as_str(), v) {
        let ghost before = sviews(v@);
        v.push(p);
        assert(sviews(v@) =~= before.push(p@));
    }
}

fn push_if_exists_exec(os: Os, v: &mut Vec<String>, p: String, existing: &Vec<String>)
    ensures
        sviews(final(v)@) == push_if_exists(os, sviews(old(v)@), p@, sviews(existing@)),
{
    if in_path_list_exec(os, p.as_str(), existing) {
        let ghost before = sviews(v@);
        v.push(p);
        assert(sviews(v@) =~= before.push(p@));
    }
}

fn push_some(v: &mut Vec<String>, o: &Option<String>)
    ensures
        sviews(final(v)@) == push_opt(sviews(old(v)@), oview(*o)),
{
    match o {
        Some(p) => {
            let ghost before = sviews(v@);
            v.push(p.clone());
            assert(sviews(v@) =~= before.push(p@));
        },
        None => {},
    }
}

pub open spec fn opt_join(os: Os, base: Option<String>, rel: Seq<char>) -> Option<Seq<char>> {
    match base {
        Some(b) => Some(join(os, b@, rel)),
        None => None,
    }
}

fn home_join_exec(os: Os, home: &Option<String>, rel: &str) -> (r: Option<String>)
    ensures
        oview(r) == opt_join(os, *home, rel@),
{
    match home {
        Some(h) => Some(join_path(os, h.as_str(), rel)),
        None => None,
    }
}

/// The user cache directories: on macOS `Library/Caches` of the home
/// directory; on Linux the cache directory, then `.cache` of the home
/// directory when it exists and is not that; on Windows the cache directory,
/// then `AppData\Local\Temp` of the home directory when it exists.
pub open spec fn cache_dirs_spec(os: Os, d: UserDirs, existing: Seq<Seq<char>>) -> Seq<Seq<char>> {
    match os {
        Os::MacOs => push_opt(seq![], opt_join(os, d.home, "Library/Caches"@)),
        Os::Linux => {
            let v = push_opt(seq![], oview(d.cache));
            match opt_join(os, d.home, ".cache"@) {
                Some(c) => push_if_new(os, v, c, existing),
                None => v,
            }
        },
        Os::Windows => {
            let v = push_opt(seq![], oview(d.cache));
            match opt_join(os, d.home, "AppData\\Local\\Temp"@) {
                Some(t) => push_if_exists(os, v, t, existing),
                None => v,
            }
        },
        Os::Other => seq![],
    }
}

/// The user log directories: on macOS `Library/Logs` of the home directory;
/// on Linux `.local/share/logs` and `.local/state` of the home directory that
/// exist; on Windows `Logs` of the local data directory when it exists.
pub open spec fn log_dirs_spec(os: Os, d: UserDirs, existing: Seq<Seq<char>>) -> Seq<Seq<char>> {
    match os {
        Os::MacOs => push_opt(seq![], opt_join(os, d.home, "Library/Logs"@)),
        Os::Linux => match d.home {
            Some(h) => push_if_exists(
                os,
                push_if_exists(os, seq![], join(os, h@, ".local/share/logs"@), existing),
                join(os, h@, ".local/state"@),
                existing,
            ),
            None => seq![],
        },
        Os::Windows => match opt_join(os, d.data_local, "Logs"@) {
            Some(l) => push_if_exists(os, seq![], l, existing),
            None => seq![],
        },
        Os::Other => seq![],
    }
}

/// The trash directory: `.Trash` of the home directory on macOS; on Linux
/// the XDG trash, `Trash/files` of the local data directory (or else
/// `.local/share/Trash/files` of the home directory); none on Windows, whose
/// recycle bin the system manages.
pub open spec fn trash_dir_spec(os: Os, d: UserDirs) -> Option<Seq<char>> {
    match os {
        Os::MacOs => opt_join(os, d.home, ".Trash"@),
        Os::Linux => match d.data_local {
            Some(l) => Some(join(os, l@, "Trash/files"@)),
            None => opt_join(os, d.home, ".local/share/Trash/files"@),
        },
        _ => None,
    }
}

impl PlatformPaths {
    pub fn new(os: Os, dirs: UserDirs) -> (r: PlatformPaths)
        ensures
            r.os == os,
            r.dirs == dirs,
    {
        PlatformPaths { os, dirs }
    }

    /// The paths whose existence decides the cache, log and application
    /// directories.
    pub fn candidates_to_check(&self) -> (r: Vec<String>)
        ensures
            sviews(r@) == candidates_spec(self.os, self.dirs),
    {
        let os = self.os;
        let home = &self.dirs.home;
        let mut r: Vec<String> = Vec::new();
        assert(sviews(r@) =~= Seq::<Seq<char>>::empty());
        push_some(&mut r, &home_join_exec(os, home, ".cache"));
        push_some(&mut r, &home_join_exec(os, home, "AppData\\Local\\Temp"));
        push_some(&mut r, &home_join_exec(os, home, ".local/share/logs"));
        push_some(&mut r, &home_join_exec(os, home, ".local/state"));
        push_some(&mut r, &home_join_exec(os, home, ".local/share"));
        push_some(&mut r, &home_join_exec(os, home, ".config"));
        push_some(&mut r, &home_join_exec(os, home, "AppData\\Local"));
        push_some(&mut r, &home_join_exec(os, home, "AppData\\Roaming"));
        push_some(&mut r, &home_join_exec(os, &self.dirs.data_local, "Logs"));
        push_some(&mut r, &home_join_exec(os, &self.dirs.data_local, "Programs"));
        r
    }

    /// The user cache directories.
    pub fn cache_dirs(&self, existing: &Vec<String>) -> (r: Vec<String>)
        ensures
            sviews(r@) == cache_dirs_spec(self.os, self.dirs, sviews(existing@)),
    {
        let os = self.os;
        let mut r: Vec<String> = Vec::new();
        assert(sviews(r@) =~= Seq::<Seq<char>>::empty());
        match os {
            Os::MacOs => {
                push_some(&mut r, &home_join_exec(os, &self.dirs.home, "Library/Caches"));
            },
            Os::Linux => {
                push_some(&mut r, &self.dirs.cache);
                match home_join_exec(os, &self.dirs.home, ".cache") {
                    Some(c) => push_if_new_exec(os, &mut r, c, existing),
                    None => {},
                }
            },
            Os::Windows => {
                push_some(&mut r, &self.dirs.cache);
                match home_join_exec(os, &self.dirs.home, "AppData\\Local\\Temp") {
                    Some(t) => push_if_exists_exec(os, &mut r, t, existing),
                    None => {},
                }
            },
            Os::Other => {},
        }
        r
    }

    /// The user log directories.
    pub fn log_dirs(&self, existing: &Vec<String>) -> (r: Vec<String>)
        ensures
            sviews(r@) == log_dirs_spec(self.os, self.dirs, sviews(existing@)),
    {
        let os = self.os;
        let mut r: Vec<String> = Vec::new();
        match os {
            Os::MacOs => {
                push_some(&mut r, &home_join_exec(os, &self.dirs.home, "Library/Logs"));
            },
            Os::Linux => match &self.dirs.home {
                Some(h) => {
                    push_if_exists_exec(os, &mut r, join_path(os, h.as_str(), ".local/share/logs"), existing);
                    push_if_exists_exec(os, &mut r, join_path(os, h.as_str(), ".local/state"), existing);
                },
                None => {},
            },
            Os::Windows => match home_join_exec(os, &self.dirs.data_local, "Logs") {
                Some(l) => push_if_exists_exec(os, &mut r, l, existing),
                None => {},
            },
            Os::Other => {},
        }
        r
    }

    /// The user's trash directory.
    pub fn trash_dir(&self) -> (r: Option<String>)
        ensures
            oview(r) == trash_dir_spec(self.os, self.dirs),
    {
        let os = self.os;
        match os {
            Os::MacOs => home_join_exec(os, &self.dirs.home, ".Trash"),
            Os::Linux => match &self.dirs.data_local {
                Some(l) => Some(join_path(os, l.as_str(), "Trash/files")),
                None => home_join_exec(os, &self.dirs.home, ".local/share/Trash/files"),
            },
            _ => None,
        }
    }

    /// The operating system's name.
    pub fn current_os(&self) -> (r: &'static str)
        ensures
            r@ == crate::path::os_name(self.os),
    {
        self.os.as_str()
    }

    /// The platform is Unix-like.
    pub fn is_unix(&self) -> (r: bool)
        ensures
            r == (self.os == Os::MacOs || self.os == Os::Linux),
    {
        self.os.is_unix()
    }

    /// The platform is Windows.
    pub fn is_windows(&self) -> (r: bool)
        ensures
            r == (self.os == Os::Windows),
    {
        self.os == Os::Windows
    }

    /// The npm cache directory: `.npm` of the home directory.
    pub fn npm_cache_dir(&self) -> (r: Option<String>)
        ensures
            oview(r) == opt_join(self.os, self.dirs.home, ".npm"@),
    {
        home_join_exec(self.os, &self.dirs.home, ".npm")
    }

    /// The Cargo cache directories of the home directory.
    pub fn cargo_cache_dirs(&self) -> (r: Vec<String>)
        ensures
            sviews(r@) == match self.dirs.home {
                Some(h) => seq![join(self.os, h@, ".cargo/registry/cache"@), join(self.os, h@, ".cargo/registry/src"@)],
                None => seq![],
            },
    {
        let mut r: Vec<String> = Vec::new();
        match &self.dirs.home {
            Some(h) => {
                r.push(join_path(self.os, h.as_str(), ".cargo/registry/cache"));
                r.push(join_path(self.os, h.as_str(), ".cargo/registry/src"));
            },
            None => {},
        }
        assert(sviews(r@) =~= match self.dirs.home {
            Some(h) => seq![join(self.os, h@, ".cargo/registry/cache"@), join(self.os, h@, ".cargo/registry/src"@)],
            None => seq![],
        });
        r
    }

    /// The pip cache directory: on macOS in the home directory's caches; on
    /// Linux `pip` of the cache directory, or `.cache/pip` of the home
    /// directory; on Windows `pip\Cache` of the local data directory.
    pub fn pip_cache_dir(&self) -> (r: Option<String>)
        ensures
            oview(r) == match self.os {
                Os::MacOs => opt_join(self.os, self.dirs.home, "Library/Caches/pip"@),
                Os::Linux => match self.dirs.cache {
                    Some(c) => Some(join(self.os, c@, "pip"@)),
                    None => opt_join(self.os, self.dirs.home, ".cache/pip"@),
                },
                Os::Windows => opt_join(self.os, self.dirs.data_local, "pip\\Cache"@),
                Os::Other => None,
            },
    {
        let os = self.os;
        match os {
            Os::MacOs => home_join_exec(os, &self.dirs.home, "Library/Caches/pip"),
            Os::Linux => match &self.dirs.cache {
                Some(c) => Some(join_path(os, c.as_str(), "pip")),
                None => home_join_exec(os, &self.dirs.home, ".cache/pip"),
            },
            Os::Windows => home_join_exec(os, &self.dirs.data_local, "pip\\Cache"),
            Os::Other => None,
        }
    }

    /// The Yarn cache directories: `.yarn/cache` of the home directory, then
    /// on macOS the home directory's `Library/Caches/Yarn`, on Linux `yarn`
    /// of the cache directory, on Windows `Yarn\Cache` of the local data
    /// directory.
    pub fn yarn_cache_dirs(&self) -> (r: Vec<String>)
        ensures
            sviews(r@) == yarn_cache_dirs_spec(self.os, self.dirs),
    {
        let os = self.os;
        let mut r: Vec<String> = Vec::new();
        assert(sviews(r@) =~= Seq::<Seq<char>>::empty());
        match os {
            Os::MacOs => match &self.dirs.home {
                Some(h) => {
                    r.push(join_path(os, h.as_str(), ".yarn/cache"));
                    r.push(join_path(os, h.as_str(), "Library/Caches/Yarn"));
                },
                None => {},
            },
            Os::Linux => {
                push_some(&mut r, &home_join_exec(os, &self.dirs.home, ".yarn/cache"));
                push_some(&mut r, &home_join_exec(os, &self.dirs.cache, "yarn"));
            },
            Os::Windows => {
                push_some(&mut r, &home_join_exec(os, &self.dirs.home, ".yarn\\cache"));
                push_some(&mut r, &home_join_exec(os, &self.dirs.data_local, "Yarn\\Cache"));
            },
            Os::Other => {},
        }
        assert(sviews(r@) =~= yarn_cache_dirs_spec(self.os, self.dirs));
        r
    }

    /// The directories where applications are installed (on Windows
    /// `program_files` and `program_files_x86` are the values of the
    /// `ProgramFiles` and `ProgramFiles(x86)` variables, where set).
    pub fn application_dirs(&self, existing: &Vec<String>, program_files: Option<String>, program_files_x86: Option<String>) -> (r: Vec<String>)
        ensures
            sviews(r@) == application_dirs_spec(self.os, self.dirs, sviews(existing@), oview(program_files), oview(program_files_x86)),
    {
        let os = self.os;
        let mut r: Vec<String> = Vec::new();
        assert(sviews(r@) =~= Seq::<Seq<char>>::empty());
        match os {
            Os::MacOs => {
                r.push(String::from_str("/Applications"));
                push_some(&mut r, &home_join_exec(os, &self.dirs.home, "Applications"));
            },
            Os::Linux => {
                r.push(String::from_str("/usr/share/applications"));
                r.push(String::from_str("/usr/local/share/applications"));
                push_some(&mut r, &home_join_exec(os, &self.dirs.home, ".local/share/applications"));
            },
            Os::Windows => {
                push_some(&mut r, &program_files);
                push_some(&mut r, &program_files_x86);
                match home_join_exec(os, &self.dirs.data_local, "Programs") {
                    Some(p) => push_if_exists_exec(os, &mut r, p, existing),
                    None => {},
                }
            },
            Os::Other => {},
        }
        assert(sviews(r@) =~= application_dirs_spec(self.os, self.dirs, sviews(existing@), oview(program_files), oview(program_files_x86)));
        r
    }

    /// The directories where applications keep their data, searched for
    /// leftovers.
    pub fn app_support_dirs(&self, existing: &Vec<String>) -> (r: Vec<String>)
        ensures
            sviews(r@) == app_support_dirs_spec(self.os, self.dirs, sviews(existing@)),
    {
        let os = self.os;
        let mut r: Vec<String> = Vec::new();
        assert(sviews(r@) =~= Seq::<Seq<char>>::empty());
        match os {
            Os::MacOs => match &self.dirs.home {
                Some(h) => {
                    r.push(join_path(os, h.as_str(), "Library/Application Support"));
                    r.push(join_path(os, h.as_str(), "Library/Preferences"));
                    r.push(join_path(os, h.as_str(), "Library/Caches"));
                    r.push(join_path(os, h.as_str(), "Library/Containers"));
                    r.push(join_path(os, h.as_str(), "Library/Group Containers"));
                    r.push(join_path(os, h.as_str(), "Library/Saved Application State"));
                    assert(sviews(r@) =~= seq![
                        join(os, h@, "Library/Application Support"@),
                        join(os, h@, "Library/Preferences"@),
                        join(os, h@, "Library/Caches"@),
                        join(os, h@, "Library/Containers"@),
                        join(os, h@, "Library/Group Containers"@),
                        join(os, h@, "Library/Saved Application State"@),
                    ]);
                },
                None => {},
            },
            Os::Linux => {
                push_some(&mut r, &self.dirs.data);
                push_some(&mut r, &self.dirs.config);
                match &self.dirs.home {
                    Some(h) => {
                        push_if_new_exec(os, &mut r, join_path(os, h.as_str(), ".local/share"), existing);
                        push_if_new_exec(os, &mut r, join_path(os, h.as_str(), ".config"), existing);
                    },
                    None => {},
                }
            },
            Os::Windows => {
                push_some(&mut r, &self.dirs.data_local);
                push_some(&mut r, &self.dirs.data);
                match &self.dirs.home {
                    Some(h) => {
                        push_if_new_exec(os, &mut r, join_path(os, h.as_str(), "AppData\\Local"), existing);
                        push_if_new_exec(os, &mut r, join_path(os, h.as_str(), "AppData\\Roaming"), existing);
                    },
                    None => {},
                }
            },
            Os::Other => {},
        }
        assert(sviews(r@) =~= app_support_dirs_spec(self.os, self.dirs, sviews(existing@)));
        r
    }
}

/// The Yarn cache directories (see `yarn_cache_dirs`).
pub open spec fn yarn_cache_dirs_spec(os: Os, d: UserDirs) -> Seq<Seq<char>> {
    match os {
        Os::MacOs => match d.home {
            Some(h) => seq![join(os, h@, ".yarn/cache"@), join(os, h@, "Library/Caches/Yarn"@)],
            None => seq![],
        },
        Os::Linux => push_opt(push_opt(seq![], opt_join(os, d.home, ".yarn/cache"@)), opt_join(os, d.cache, "yarn"@)),
        Os::Windows => push_opt(
            push_opt(seq![], opt_join(os, d.home, ".yarn\\cache"@)),
            opt_join(os, d.data_local, "Yarn\\Cache"@),
        ),
        Os::Other => seq![],
    }
}

/// The application directories: on macOS `/Applications` and the home
/// directory's `Applications`; on Linux the system and the user's
/// `share/applications`; on Windows the program files directories, then the
/// local data directory's `Programs` where it exists.
pub open spec fn application_dirs_spec(os: Os, d: UserDirs, existing: Seq<Seq<char>>, pf: Option<Seq<char>>, pf86: Option<Seq<char>>) -> Seq<Seq<char>> {
    match os {
        Os::MacOs => push_opt(seq!["/Applications"@], opt_join(os, d.home, "Applications"@)),
        Os::Linux => push_opt(
            seq!["/usr/share/applications"@, "/usr/local/share/applications"@],
            opt_join(os, d.home, ".local/share/applications"@),
        ),
        Os::Windows => {
            let v = push_opt(push_opt(seq![], pf), pf86);
            match opt_join(os, d.data_local, "Programs"@) {
                Some(p) => push_if_exists(os, v, p, existing),
                None => v,
            }
        },
        Os::Other => seq![],
    }
}

/// The application data directories: on macOS six folders of the home
/// directory's `Library`; on Linux the data and configuration directories,
/// then the home directory's `.local/share` and `.config` where they exist
/// and are not listed yet; on Windows the local and roaming data
/// directories, then the home directory's `AppData\Local` and
/// `AppData\Roaming` likewise.
pub open spec fn app_support_dirs_spec(os: Os, d: UserDirs, existing: Seq<Seq<char>>) -> Seq<Seq<char>> {
    match os {
        Os::MacOs => match d.home {
            Some(h) => seq![
                join(os, h@, "Library/Application Support"@),
                join(os, h@, "Library/Preferences"@),
                join(os, h@, "Library/Caches"@),
                join(os, h@, "Library/Containers"@),
                join(os, h@, "Library/Group Containers"@),
                join(os, h@, "Library/Saved Application State"@),
            ],
            None => seq![],
        },
        Os::Linux => {
            let v = push_opt(push_opt(seq![], oview(d.data)), oview(d.config));
            match d.home {
                Some(h) => push_if_new(os, push_if_new(os, v, join(os, h@, ".local/share"@), existing), join(os, h@, ".config"@), existing),
                None => v,
            }
        },
        Os::Windows => {
            let v = push_opt(push_opt(seq![], oview(d.data_local)), oview(d.data));
            match d.home {
                Some(h) => push_if_new(os, push_if_new(os, v, join(os, h@, "AppData\\Local"@), existing), join(os, h@, "AppData\\Roaming"@), existing),
                None => v,
            }
        },
        Os::Other => seq![],
    }
}

/// The candidate paths whose existence is checked: eight places in the home
/// directory, then `Logs` and `Programs` of the local data directory.
pub open spec fn candidates_spec(os: Os, d: UserDirs) -> Seq<Seq<char>> {
    let h = d.home;
    let v = push_opt(push_opt(push_opt(push_opt(seq![], opt_join(os, h, ".cache"@)), opt_join(os, h, "AppData\\Local\\Temp"@)),
        opt_join(os, h, ".local/share/logs"@)), opt_join(os, h, ".local/state"@));
    let w = push_opt(push_opt(push_opt(push_opt(v, opt_join(os, h, ".local/share"@)), opt_join(os, h, ".config"@)),
        opt_join(os, h, "AppData\\Local"@)), opt_join(os, h, "AppData\\Roaming"@));
    push_opt(push_opt(w, opt_join(os, d.data_local, "Logs"@)), opt_join(os, d.data_local, "Programs"@))
}

} // verus!
