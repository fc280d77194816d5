//! The Unix/XDG platform resolver.
//!
//! Directories follow the XDG Base Directory specification: an override
//! environment variable, when set to a non-empty value, names the base
//! directory for its kind; otherwise a fixed subpath under the user's home
//! directory is used. The bin directory has no override variable and always
//! uses the home-directory rule.

use vstd::prelude::*;
use crate::error::DirsError;
use crate::paths::{join_spec, join_component};

verus! {

/// A one-time snapshot of the pieces of the Unix process environment that
/// directory resolution reads: the home directory and the three XDG
/// override variables. `None` stands for an entry that is not set.
pub struct UnixEnv {
    /// The user's home directory, when one could be determined.
    pub home: Option<String>,
    /// The value of `XDG_CONFIG_HOME`, when set.
    pub xdg_config_home: Option<String>,
    /// The value of `XDG_CACHE_HOME`, when set.
    pub xdg_cache_home: Option<String>,
    /// The value of `XDG_DATA_HOME`, when set.
    pub xdg_data_home: Option<String>,
}

/// True when an override variable is set to a non-empty value. An override
/// that is set but empty counts as unset: resolution then falls back to the
/// home-directory rule rather than silently resolving relative to the
/// process's current directory.
pub open spec fn override_active(v: Option<String>) -> bool {
    v matches Some(s) && s@.len() > 0
}

/// True when the home entry can serve as a fallback base: present and
/// non-empty. An empty home is treated exactly like a missing one.
pub open spec fn home_usable(home: Option<String>) -> bool {
    home matches Some(h) && h@.len() > 0
}

/// The base directory chosen for one directory kind: the override value
/// when it is active, otherwise the fixed `fallback` subpath under the home
/// directory.
pub open spec fn base_spec(v: Option<String>, home: Seq<char>, fallback: Seq<char>) -> Seq<char> {
    if override_active(v) {
        v->Some_0@
    } else {
        join_spec(home, fallback, '/')
    }
}

/// The fully resolved directory for one kind: the chosen base with the
/// prefix appended as a final path component.
pub open spec fn resolved_spec(
    v: Option<String>,
    home: Seq<char>,
    fallback: Seq<char>,
    prefix: Seq<char>,
) -> Seq<char> {
    join_spec(base_spec(v, home, fallback), prefix, '/')
}

/// Resolves one directory kind by the home-directory rule alone: the fixed
/// `fallback` subpath under the home directory, with the prefix appended.
/// Fails with `HomeMissing` exactly when the home entry is absent or empty.
pub fn resolve_fallback(home: &Option<String>, fallback: &str, prefix: &str) -> (r: Result<
    String,
    DirsError,
>)
    ensures
        home_usable(*home) ==> (r matches Ok(p) && p@ == join_spec(
            join_spec(home->Some_0@, fallback@, '/'),
            prefix@,
            '/',
        )),
        !home_usable(*home) ==> (r matches Err(e) && e is HomeMissing),
{
    proof {
        reveal_strlit("/");
    }
    match home {
        Option::Some(h) => {
            if h.as_str().unicode_len() == 0 {
                Err(DirsError::HomeMissing)
            } else {
                let base = join_component(h.as_str(), "/", fallback);
                Ok(join_component(base.as_str(), "/", prefix))
            }
        },
        Option::None => Err(DirsError::HomeMissing),
    }
}

/// Resolves one directory kind by the full precedence rule: an active
/// (set and non-empty) override variable names the base directory;
/// otherwise the home-directory fallback applies.
pub fn resolve_one(
    var: &Option<String>,
    home: &Option<String>,
    fallback: &str,
    prefix: &str,
) -> (r: Result<String, DirsError>)
    ensures
        override_active(*var) ==> (r matches Ok(p) && p@ == join_spec(
            var->Some_0@,
            prefix@,
            '/',
        )),
        !override_active(*var) && home_usable(*home) ==> (r matches Ok(p) && p@ == join_spec(
            join_spec(home->Some_0@, fallback@, '/'),
            prefix@,
            '/',
        )),
        !override_active(*var) && !home_usable(*home) ==> (r matches Err(e) && e is HomeMissing),
{
    match var {
        Option::Some(v) => {
            if v.as_str().unicode_len() > 0 {
                proof {
                    reveal_strlit("/");
                }
                Ok(join_component(v.as_str(), "/", prefix))
            } else {
                resolve_fallback(home, fallback, prefix)
            }
        },
        Option::None => resolve_fallback(home, fallback, prefix),
    }
}

/// The set of directories resolved once, by one construction call, under
/// the Unix rules. A value of this type never changes after construction.
pub struct Directories {
    /// Resolved directory for user-specific executables.
    pub bin_home: String,
    /// Resolved directory for user-specific cache files.
    pub cache_home: String,
    /// Resolved directory for user-specific configuration files.
    pub config_home: String,
    /// Resolved directory for user-specific data files.
    pub data_home: String,
}

/// What a successful Unix resolution yields for each directory kind, as a
/// function of the environment snapshot and the prefix.
pub open spec fn resolved_set_spec(
    env: UnixEnv,
    prefix: Seq<char>,
    bin: Seq<char>,
    cache: Seq<char>,
    config: Seq<char>,
    data: Seq<char>,
) -> bool {
    let home = env.home->Some_0@;
    &&& bin == join_spec(join_spec(home, ".local/bin"@, '/'), prefix, '/')
    &&& cache == resolved_spec(env.xdg_cache_home, home, ".cache"@, prefix)
    &&& config == resolved_spec(env.xdg_config_home, home, ".config"@, prefix)
    &&& data == resolved_spec(env.xdg_data_home, home, ".local/share"@, prefix)
}

/// What a successfully constructed Unix directory set holds, field by
/// field.
pub open spec fn directories_spec(d: Directories, env: UnixEnv, prefix: Seq<char>) -> bool {
    resolved_set_spec(env, prefix, d.bin_home@, d.cache_home@, d.config_home@, d.data_home@)
}

/// An active override wins: the resolved directory is exactly the
/// override value with the prefix appended, untouched by the home
/// directory and the fallback subpath.
pub proof fn lemma_override_wins(
    v: Option<String>,
    home: Seq<char>,
    fallback: Seq<char>,
    prefix: Seq<char>,
)
    requires
        override_active(v),
    ensures
        resolved_spec(v, home, fallback, prefix) == join_spec(v->Some_0@, prefix, '/'),
{
}

/// Without an active override the fixed base applies: the home directory,
/// then the fallback subpath, then the prefix.
pub proof fn lemma_fallback_applies(
    v: Option<String>,
    home: Seq<char>,
    fallback: Seq<char>,
    prefix: Seq<char>,
)
    requires
        !override_active(v),
    ensures
        resolved_spec(v, home, fallback, prefix) == join_spec(
            join_spec(home, fallback, '/'),
            prefix,
            '/',
        ),
{
}

/// An override variable that is set to the empty string resolves exactly
/// as an unset one: the home-directory fallback applies, with no error
/// and no empty base path.
pub proof fn lemma_empty_override_like_unset(
    v: Option<String>,
    home: Seq<char>,
    fallback: Seq<char>,
    prefix: Seq<char>,
)
    requires
        v matches Some(s) && s@.len() == 0,
    ensures
        resolved_spec(v, home, fallback, prefix) == resolved_spec(
            Option::<String>::None,
            home,
            fallback,
            prefix,
        ),
{
}

/// Setting `XDG_CONFIG_HOME` to the empty string changes nothing: a Unix
/// environment with an empty configuration override resolves exactly as
/// the same environment with the variable unset — success does not depend
/// on the override, and every directory comes out the same.
pub proof fn lemma_empty_config_override_env(
    e1: UnixEnv,
    e2: UnixEnv,
    prefix: Seq<char>,
    bin: Seq<char>,
    cache: Seq<char>,
    config: Seq<char>,
    data: Seq<char>,
)
    requires
        e1.home == e2.home,
        e1.xdg_cache_home == e2.xdg_cache_home,
        e1.xdg_data_home == e2.xdg_data_home,
        e1.xdg_config_home matches Some(s) && s@.len() == 0,
        e2.xdg_config_home is None,
    ensures
        home_usable(e1.home) == home_usable(e2.home),
        resolved_set_spec(e1, prefix, bin, cache, config, data) == resolved_set_spec(
            e2,
            prefix,
            bin,
            cache,
            config,
            data,
        ),
{
}

impl Directories {
    /// Resolves the whole directory set for `prefix` from the given
    /// environment snapshot. Succeeds exactly when the home entry is
    /// usable — the bin directory has no override variable, so a missing
    /// or empty home fails the whole construction with `HomeMissing`.
    pub fn with_prefix(prefix: &str, env: &UnixEnv) -> (r: Result<Directories, DirsError>)
        ensures
            home_usable(env.home) ==> (r matches Ok(d) && directories_spec(d, *env, prefix@)),
            !home_usable(env.home) ==> (r matches Err(e) && e is HomeMissing),
    {
        let bin = resolve_fallback(&env.home, ".local/bin", prefix);
        let cache = resolve_one(&env.xdg_cache_home, &env.home, ".cache", prefix);
        let config = resolve_one(&env.xdg_config_home, &env.home, ".config", prefix);
        let data = resolve_one(&env.xdg_data_home, &env.home, ".local/share", prefix);
        let bin_home = match bin {
            Ok(p) => p,
            Err(e) => return Err(e),
        };
        let cache_home = match cache {
            Ok(p) => p,
            Err(e) => return Err(e),
        };
        let config_home = match config {
            Ok(p) => p,
            Err(e) => return Err(e),
        };
        let data_home = match data {
            Ok(p) => p,
            Err(e) => return Err(e),
        };
        Ok(Directories { bin_home, cache_home, config_home, data_home })
    }

    /// The resolved directory for user-specific executables.
    pub fn bin_home(&self) -> (r: &String)
        ensures
            r@ == self.bin_home@,
    {
        &self.bin_home
    }

    /// The resolved directory for user-specific cache files.
    pub fn cache_home(&self) -> (r: &String)
        ensures
            r@ == self.cache_home@,
    {
        &self.cache_home
    }

    /// The resolved directory for user-specific configuration files.
    pub fn config_home(&self) -> (r: &String)
        ensures
            r@ == self.config_home@,
    {
        &self.config_home
    }

    /// The resolved directory for user-specific data files.
    pub fn data_home(&self) -> (r: &String)
        ensures
            r@ == self.data_home@,
    {
        &self.data_home
    }
}

} // verus!
