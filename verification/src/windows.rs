//! The Windows platform resolver.
//!
//! Each directory kind is backed by one Known Folder: configuration by
//! `RoamingAppData`, executables by `UserProgramFiles` and data by the
//! per-user `LocalAppData` (the system-wide `ProgramData` folder stays
//! available through the accessor for callers that want it). The cache
//! directory is the documented exception: it comes from the system
//! temporary directory, the `Temp` special case that never touches the
//! Known Folder API.

use vstd::prelude::*;
use crate::error::DirsError;
use crate::paths::{join_spec, join_component};
use crate::windows::sys::{
    KnownFolder,
    WinEnv,
    get_known_folder_path,
    folder_ok,
    folder_path_spec,
    folder_error_spec,
};

pub mod sys;

verus! {

/// The set of directories resolved once, by one construction call, under
/// the Windows rules. A value of this type never changes after
/// construction.
pub struct Directories {
    /// Resolved directory for user-specific executables.
    pub bin_home: String,
    /// Resolved directory for user-specific cache files.
    pub cache_home: String,
    /// Resolved directory for user-specific configuration files.
    pub config_home: String,
    /// Resolved directory for user-specific data files.
    pub data_home: String,
}

/// True when every Known Folder the resolver queries resolves from the
/// snapshot. The cache directory, backed by `Temp`, always does.
pub open spec fn resolvable(env: WinEnv) -> bool {
    &&& folder_ok(env, KnownFolder::RoamingAppData)
    &&& folder_ok(env, KnownFolder::UserProgramFiles)
    &&& folder_ok(env, KnownFolder::LocalAppData)
}

/// What a successful Windows resolution yields for each directory kind:
/// each backing folder's path with the prefix appended.
pub open spec fn resolved_set_spec(
    env: WinEnv,
    prefix: Seq<char>,
    bin: Seq<char>,
    cache: Seq<char>,
    config: Seq<char>,
    data: Seq<char>,
) -> bool {
    &&& cache == join_spec(env.temp_dir@, prefix, '\\')
    &&& config == join_spec(folder_path_spec(env, KnownFolder::RoamingAppData), prefix, '\\')
    &&& bin == join_spec(folder_path_spec(env, KnownFolder::UserProgramFiles), prefix, '\\')
    &&& data == join_spec(folder_path_spec(env, KnownFolder::LocalAppData), prefix, '\\')
}

/// What a successfully constructed Windows directory set holds, field by
/// field.
pub open spec fn directories_spec(d: Directories, env: WinEnv, prefix: Seq<char>) -> bool {
    resolved_set_spec(env, prefix, d.bin_home@, d.cache_home@, d.config_home@, d.data_home@)
}

/// The error a failed construction reports: the first failure in the
/// order the folders are queried — configuration, then executables, then
/// data.
pub open spec fn error_spec(env: WinEnv, e: DirsError) -> bool
    recommends
        !resolvable(env),
{
    if !folder_ok(env, KnownFolder::RoamingAppData) {
        folder_error_spec(env, KnownFolder::RoamingAppData, e)
    } else if !folder_ok(env, KnownFolder::UserProgramFiles) {
        folder_error_spec(env, KnownFolder::UserProgramFiles, e)
    } else {
        folder_error_spec(env, KnownFolder::LocalAppData, e)
    }
}

impl Directories {
    /// Resolves the whole directory set for `prefix` from the given
    /// snapshot of system-call outcomes. Any failure to resolve a Known
    /// Folder fails the whole construction with that folder's error.
    pub fn with_prefix(prefix: &str, env: &WinEnv) -> (r: Result<Directories, DirsError>)
        ensures
            resolvable(*env) ==> (r matches Ok(d) && directories_spec(d, *env, prefix@)),
            !resolvable(*env) ==> (r matches Err(e) && error_spec(*env, e)),
    {
        proof {
            reveal_strlit("\\");
        }
        let cache_base = match get_known_folder_path(KnownFolder::Temp, env) {
            Ok(p) => p,
            Err(e) => return Err(e),
        };
        let config_base = match get_known_folder_path(KnownFolder::RoamingAppData, env) {
            Ok(p) => p,
            Err(e) => return Err(e),
        };
        let bin_base = match get_known_folder_path(KnownFolder::UserProgramFiles, env) {
            Ok(p) => p,
            Err(e) => return Err(e),
        };
        let data_base = match get_known_folder_path(KnownFolder::LocalAppData, env) {
            Ok(p) => p,
            Err(e) => return Err(e),
        };
        Ok(
            Directories {
                bin_home: join_component(bin_base.as_str(), "\\", prefix),
                cache_home: join_component(cache_base.as_str(), "\\", prefix),
                config_home: join_component(config_base.as_str(), "\\", prefix),
                data_home: join_component(data_base.as_str(), "\\", prefix),
            },
        )
    }

    /// The resolved directory for user-specific executables.
    pub fn bin_home(&self) -> (r: &String)
        ensures
            r@ == self.bin_home@,
    {
        &self.bin_home
    }

    /// The resolved directory for user-specific cache files.
    pub fn cache_home(&self) -> (r: &String)
        ensures
            r@ == self.cache_home@,
    {
        &self.cache_home
    }

    /// The resolved directory for user-specific configuration files.
    pub fn config_home(&self) -> (r: &String)
        ensures
            r@ == self.config_home@,
    {
        &self.config_home
    }

    /// The resolved directory for user-specific data files.
    pub fn data_home(&self) -> (r: &String)
        ensures
            r@ == self.data_home@,
    {
        &self.data_home
    }
}

} // verus!
