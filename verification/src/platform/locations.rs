//! The user's standard directories, as the `dirs` crate finds them.

use vstd::prelude::*;

verus! {

/// Trusted: `dirs::home_dir`, as text. It depends on the environment and
/// the system, so nothing is claimed of the result.
#[verifier::external_body]
fn home_dir() -> (r: Option<String>) {
    ::dirs::home_dir().map(|p| p.to_string_lossy().into_owned())
}

/// Trusted: `dirs::cache_dir`, as text; nothing is claimed of the result.
#[verifier::external_body]
fn cache_dir() -> (r: Option<String>) {
    ::dirs::cache_dir().map(|p| p.to_string_lossy().into_owned())
}

/// Trusted: `dirs::config_dir`, as text; nothing is claimed of the result.
#[verifier::external_body]
fn config_dir() -> (r: Option<String>) {
    ::dirs::config_dir().map(|p| p.to_string_lossy().into_owned())
}

/// Trusted: `dirs::data_dir`, as text; nothing is claimed of the result.
#[verifier::external_body]
fn data_dir() -> (r: Option<String>) {
    ::dirs::data_dir().map(|p| p.to_string_lossy().into_owned())
}

/// Trusted: `dirs::data_local_dir`, as text; nothing is claimed of the
/// result.
#[verifier::external_body]
fn data_local_dir() -> (r: Option<String>) {
    ::dirs::data_local_dir().map(|p| p.to_string_lossy().into_owned())
}

/// Trusted: `dirs::download_dir`, as text; nothing is claimed of the
/// result.
#[verifier::external_body]
fn download_dir() -> (r: Option<String>) {
    ::dirs::download_dir().map(|p| p.to_string_lossy().into_owned())
}

/// The user's standard directories (`None` where one is not known).
#[derive(Debug, Clone)]
pub struct UserDirs {
    pub home: Option<String>,
    pub cache: Option<String>,
    pub config: Option<String>,
    pub data: Option<String>,
    pub data_local: Option<String>,
    pub download: Option<String>,
}

impl UserDirs {
    /// The directories of the user running this process.
    pub fn current() -> (r: UserDirs) {
        UserDirs {
            home: home_dir(),
            cache: cache_dir(),
            config: config_dir(),
            data: data_dir(),
            data_local: data_local_dir(),
            download: download_dir(),
        }
    }
}

} // verus!
