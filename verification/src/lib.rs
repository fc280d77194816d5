//! Resolution of canonical, per-application filesystem locations.
//!
//! Given an application name prefix, the library computes the
//! configuration, cache, data and executable ("bin") home directories
//! under three platform conventions: the XDG Base Directory specification,
//! Apple's `Library` layout, and the Windows Known Folder scheme.
//! Resolution is a pure computation over a one-time snapshot of the
//! process environment; reading that snapshot (environment variables, the
//! home directory, the Known Folder system call) is the caller's concern,
//! and no resolved directory is created or checked for existence.

use vstd::prelude::*;

pub mod error;
pub mod osx;
pub mod paths;
pub mod unix;
pub mod windows;

use crate::error::DirsError;

verus! {

/// The process environment as one platform-tagged snapshot. Exactly one
/// platform's resolution rules apply to a given snapshot.
pub enum Environment {
    /// A Unix environment: the home directory and the XDG override
    /// variables.
    Unix(unix::UnixEnv),
    /// A macOS environment: the home directory alone.
    MacOs(osx::MacEnv),
    /// A Windows environment: the system temporary directory and the
    /// recorded Known Folder outcomes.
    Windows(windows::sys::WinEnv),
}

/// The main type of the library: an immutable set of application-specific
/// directories, resolved once from one snapshot of the environment.
/// Repeated environment changes after construction are not reflected.
pub struct Directories {
    /// Resolved directory for user-specific executables.
    pub bin_home: String,
    /// Resolved directory for user-specific cache files.
    pub cache_home: String,
    /// Resolved directory for user-specific configuration files.
    pub config_home: String,
    /// Resolved directory for user-specific data files.
    pub data_home: String,
}

/// True when resolution succeeds for the given snapshot.
pub open spec fn resolution_ok(env: Environment) -> bool {
    match env {
        Environment::Unix(e) => unix::home_usable(e.home),
        Environment::MacOs(e) => osx::home_usable(e.home),
        Environment::Windows(e) => windows::resolvable(e),
    }
}

/// What a successful resolution yields, pointwise, under the platform
/// that the snapshot selects.
pub open spec fn resolves_to(d: Directories, env: Environment, prefix: Seq<char>) -> bool {
    match env {
        Environment::Unix(e) => unix::resolved_set_spec(
            e,
            prefix,
            d.bin_home@,
            d.cache_home@,
            d.config_home@,
            d.data_home@,
        ),
        Environment::MacOs(e) => osx::resolved_set_spec(
            e,
            prefix,
            d.bin_home@,
            d.cache_home@,
            d.config_home@,
            d.data_home@,
        ),
        Environment::Windows(e) => windows::resolved_set_spec(
            e,
            prefix,
            d.bin_home@,
            d.cache_home@,
            d.config_home@,
            d.data_home@,
        ),
    }
}

/// The error a failed resolution reports under the platform that the
/// snapshot selects.
pub open spec fn resolution_error(env: Environment, e: DirsError) -> bool
    recommends
        !resolution_ok(env),
{
    match env {
        Environment::Unix(_) => e is HomeMissing,
        Environment::MacOs(_) => e is HomeMissing,
        Environment::Windows(w) => windows::error_spec(w, e),
    }
}

impl Directories {
    /// Creates a `Directories` value that can be queried for application-
    /// specific paths, such as configuration and cache locations. All
    /// fallibility is here: resolution is all-or-nothing, and the first
    /// error encountered fails the whole construction with no partial
    /// directory set observable.
    pub fn with_prefix(prefix: &str, env: &Environment) -> (r: Result<Directories, DirsError>)
        ensures
            resolution_ok(*env) ==> (r matches Ok(d) && resolves_to(d, *env, prefix@)),
            !resolution_ok(*env) ==> (r matches Err(e) && resolution_error(*env, e)),
    {
        match env {
            Environment::Unix(e) => match unix::Directories::with_prefix(prefix, e) {
                Ok(d) => Ok(
                    Directories {
                        bin_home: d.bin_home,
                        cache_home: d.cache_home,
                        config_home: d.config_home,
                        data_home: d.data_home,
                    },
                ),
                Err(er) => Err(er),
            },
            Environment::MacOs(e) => match osx::Directories::with_prefix(prefix, e) {
                Ok(d) => Ok(
                    Directories {
                        bin_home: d.bin_home,
                        cache_home: d.cache_home,
                        config_home: d.config_home,
                        data_home: d.data_home,
                    },
                ),
                Err(er) => Err(er),
            },
            Environment::Windows(e) => match windows::Directories::with_prefix(prefix, e) {
                Ok(d) => Ok(
                    Directories {
                        bin_home: d.bin_home,
                        cache_home: d.cache_home,
                        config_home: d.config_home,
                        data_home: d.data_home,
                    },
                ),
                Err(er) => Err(er),
            },
        }
    }

    /// The user-specific directory for executables. Never fails: the path
    /// was computed at construction.
    pub fn bin_home(&self) -> (r: String)
        ensures
            r@ == self.bin_home@,
    {
        self.bin_home.clone()
    }

    /// The user-specific directory for cache files. Never fails: the path
    /// was computed at construction.
    pub fn cache_home(&self) -> (r: String)
        ensures
            r@ == self.cache_home@,
    {
        self.cache_home.clone()
    }

    /// The user-specific directory for configuration files. Never fails:
    /// the path was computed at construction.
    pub fn config_home(&self) -> (r: String)
        ensures
            r@ == self.config_home@,
    {
        self.config_home.clone()
    }

    /// The user-specific directory for data files. Never fails: the path
    /// was computed at construction.
    pub fn data_home(&self) -> (r: String)
        ensures
            r@ == self.data_home@,
    {
        self.data_home.clone()
    }
}

/// Resolution is a pure function of the snapshot: any two directory sets
/// resolved from the same snapshot and the same prefix are pointwise
/// equal.
pub proof fn lemma_resolution_deterministic(
    d1: Directories,
    d2: Directories,
    env: Environment,
    prefix: Seq<char>,
)
    requires
        resolves_to(d1, env, prefix),
        resolves_to(d2, env, prefix),
    ensures
        d1.bin_home@ == d2.bin_home@,
        d1.cache_home@ == d2.cache_home@,
        d1.config_home@ == d2.config_home@,
        d1.data_home@ == d2.data_home@,
{
}

} // verus!
