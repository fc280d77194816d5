//! The macOS platform resolver.
//!
//! Directories live under the user's `Library` directory. No environment
//! variable overrides exist on this platform: the XDG override mechanism is
//! Unix-specific and does not apply here. Only the home directory is read.

use vstd::prelude::*;
use crate::error::DirsError;
use crate::paths::{join_spec, join_component};

verus! {

/// A one-time snapshot of what macOS directory resolution reads from the
/// process environment: the home directory alone. `None` stands for a home
/// directory that could not be determined.
pub struct MacEnv {
    /// The user's home directory, when one could be determined.
    pub home: Option<String>,
}

/// True when the home entry can serve as a base: present and non-empty.
/// An empty home is treated exactly like a missing one.
pub open spec fn home_usable(home: Option<String>) -> bool {
    home matches Some(h) && h@.len() > 0
}

/// The set of directories resolved once, by one construction call, under
/// the macOS rules. A value of this type never changes after construction.
pub struct Directories {
    /// Resolved directory for user-specific executables.
    pub bin_home: String,
    /// Resolved directory for user-specific cache files.
    pub cache_home: String,
    /// Resolved directory for user-specific configuration files.
    pub config_home: String,
    /// Resolved directory for user-specific data files.
    pub data_home: String,
}

/// What a successful macOS resolution yields for each directory kind:
/// `~/Library/<prefix>` for configuration, `~/Library/Caches/<prefix>` for
/// cache, `~/Library/<prefix>/bin` for executables and
/// `~/Library/Application Support/<prefix>` for data.
pub open spec fn resolved_set_spec(
    env: MacEnv,
    prefix: Seq<char>,
    bin: Seq<char>,
    cache: Seq<char>,
    config: Seq<char>,
    data: Seq<char>,
) -> bool {
    let library = join_spec(env.home->Some_0@, "Library"@, '/');
    &&& config == join_spec(library, prefix, '/')
    &&& cache == join_spec(join_spec(library, "Caches"@, '/'), prefix, '/')
    &&& bin == join_spec(join_spec(library, prefix, '/'), "bin"@, '/')
    &&& data == join_spec(join_spec(library, "Application Support"@, '/'), prefix, '/')
}

/// What a successfully constructed macOS directory set holds, field by
/// field.
pub open spec fn directories_spec(d: Directories, env: MacEnv, prefix: Seq<char>) -> bool {
    resolved_set_spec(env, prefix, d.bin_home@, d.cache_home@, d.config_home@, d.data_home@)
}

impl Directories {
    /// Resolves the whole directory set for `prefix` from the given
    /// environment snapshot. Succeeds exactly when the home entry is
    /// usable; a missing or empty home fails with `HomeMissing`.
    pub fn with_prefix(prefix: &str, env: &MacEnv) -> (r: Result<Directories, DirsError>)
        ensures
            home_usable(env.home) ==> (r matches Ok(d) && directories_spec(d, *env, prefix@)),
            !home_usable(env.home) ==> (r matches Err(e) && e is HomeMissing),
    {
        proof {
            reveal_strlit("/");
        }
        let home = match &env.home {
            Option::Some(h) => h,
            Option::None => return Err(DirsError::HomeMissing),
        };
        if home.as_str().unicode_len() == 0 {
            return Err(DirsError::HomeMissing);
        }
        let library = join_component(home.as_str(), "/", "Library");
        let config_home = join_component(library.as_str(), "/", prefix);
        let caches = join_component(library.as_str(), "/", "Caches");
        let cache_home = join_component(caches.as_str(), "/", prefix);
        let bin_home = join_component(config_home.as_str(), "/", "bin");
        let support = join_component(library.as_str(), "/", "Application Support");
        let data_home = join_component(support.as_str(), "/", prefix);
        Ok(Directories { bin_home, cache_home, config_home, data_home })
    }

    /// The resolved directory for user-specific executables.
    pub fn bin_home(&self) -> (r: &String)
        ensures
            r@ == self.bin_home@,
    {
        &self.bin_home
    }

    /// The resolved directory for user-specific cache files.
    pub fn cache_home(&self) -> (r: &String)
        ensures
            r@ == self.cache_home@,
    {
        &self.cache_home
    }

    /// The resolved directory for user-specific configuration files.
    pub fn config_home(&self) -> (r: &String)
        ensures
            r@ == self.config_home@,
    {
        &self.config_home
    }

    /// The resolved directory for user-specific data files.
    pub fn data_home(&self) -> (r: &String)
        ensures
            r@ == self.data_home@,
    {
        &self.data_home
    }
}

} // verus!
