//! User-level defaults for new sandboxes.
//!
//! The application reads an optional TOML file from the platform config
//! directory and hands the parsed values to the library as an
//! [`AppConfig`]; every field is optional and only the fields present
//! override the create-dialog's built-in defaults.
use vstd::prelude::*;

verus! {

/// Default sandbox parameters loaded from the user's config file.
#[derive(Debug, Clone, PartialEq)]
pub struct AppConfig {
    /// Default container image (e.g. `"alpine"`).
    pub image: Option<String>,
    /// Default number of CPUs.
    pub cpus: Option<u32>,
    /// Default memory size in MiB.
    pub memory_mib: Option<u32>,
    /// Default hostname.
    pub hostname: Option<String>,
    /// Default working directory inside the sandbox.
    pub workdir: Option<String>,
    /// Default user to run as inside the sandbox.
    pub user: Option<String>,
    /// Default shell path (e.g. `"/bin/sh"`).
    pub shell: Option<String>,
}

impl AppConfig {
    /// The configuration with every field unset.
    pub fn empty() -> (r: Self)
        ensures
            r.image is None,
            r.cpus is None,
            r.memory_mib is None,
            r.hostname is None,
            r.workdir is None,
            r.user is None,
            r.shell is None,
    {
        AppConfig {
            image: None,
            cpus: None,
            memory_mib: None,
            hostname: None,
            workdir: None,
            user: None,
            shell: None,
        }
    }
}

impl Default for AppConfig {
    fn default() -> (r: Self)
        ensures
            r.image is None,
            r.cpus is None,
            r.memory_mib is None,
            r.hostname is None,
            r.workdir is None,
            r.user is None,
            r.shell is None,
    {
        AppConfig::empty()
    }
}

} // verus!
