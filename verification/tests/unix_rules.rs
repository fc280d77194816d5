//! The Unix/XDG resolution rules on concrete environments.

use dirs::error::DirsError;
use dirs::unix::{Directories, UnixEnv};
use dirs::{Directories as Facade, Environment};

fn env(
    home: Option<&str>,
    config: Option<&str>,
    cache: Option<&str>,
    data: Option<&str>,
) -> UnixEnv {
    UnixEnv {
        home: home.map(|s| s.to_owned()),
        xdg_config_home: config.map(|s| s.to_owned()),
        xdg_cache_home: cache.map(|s| s.to_owned()),
        xdg_data_home: data.map(|s| s.to_owned()),
    }
}

#[test]
fn defaults_under_home() {
    let e = env(Some("/home/alice"), None, None, None);
    let d = Directories::with_prefix("foobar", &e).unwrap();
    assert_eq!(d.config_home().as_str(), "/home/alice/.config/foobar");
    assert_eq!(d.cache_home().as_str(), "/home/alice/.cache/foobar");
    assert_eq!(d.data_home().as_str(), "/home/alice/.local/share/foobar");
    assert_eq!(d.bin_home().as_str(), "/home/alice/.local/bin/foobar");
}

#[test]
fn cache_override_leaves_others_home_derived() {
    let e = env(Some("/home/alice"), None, Some("/tmp/xdgcache"), None);
    let d = Directories::with_prefix("foobar", &e).unwrap();
    assert_eq!(d.cache_home().as_str(), "/tmp/xdgcache/foobar");
    assert_eq!(d.config_home().as_str(), "/home/alice/.config/foobar");
    assert_eq!(d.data_home().as_str(), "/home/alice/.local/share/foobar");
    assert_eq!(d.bin_home().as_str(), "/home/alice/.local/bin/foobar");
}

#[test]
fn active_overrides_win_exactly() {
    let e = env(
        Some("/home/alice"),
        Some("/etc/xdg/conf"),
        Some("/var/cache/x"),
        Some("/srv/data"),
    );
    let d = Directories::with_prefix("app", &e).unwrap();
    assert_eq!(d.config_home().as_str(), "/etc/xdg/conf/app");
    assert_eq!(d.cache_home().as_str(), "/var/cache/x/app");
    assert_eq!(d.data_home().as_str(), "/srv/data/app");
    // bin has no override variable: always home-derived
    assert_eq!(d.bin_home().as_str(), "/home/alice/.local/bin/app");
}

#[test]
fn override_with_trailing_separator_joins_simply() {
    let e = env(Some("/home/alice"), Some("/tmp/xdg/"), None, None);
    let d = Directories::with_prefix("app", &e).unwrap();
    assert_eq!(d.config_home().as_str(), "/tmp/xdg/app");
}

#[test]
fn empty_override_behaves_as_unset() {
    let set_empty = env(Some("/home/alice"), Some(""), None, None);
    let unset = env(Some("/home/alice"), None, None, None);
    let d1 = Directories::with_prefix("foobar", &set_empty).unwrap();
    let d2 = Directories::with_prefix("foobar", &unset).unwrap();
    assert_eq!(d1.config_home(), d2.config_home());
    assert_eq!(d1.config_home().as_str(), "/home/alice/.config/foobar");
}

#[test]
fn home_missing_fails_whole_resolution() {
    let e = env(None, None, None, None);
    let r = Directories::with_prefix("foobar", &e);
    assert!(matches!(r, Err(DirsError::HomeMissing)));
}

#[test]
fn empty_home_counts_as_missing() {
    let e = env(Some(""), None, None, None);
    let r = Directories::with_prefix("foobar", &e);
    assert!(matches!(r, Err(DirsError::HomeMissing)));
}

#[test]
fn overrides_do_not_rescue_missing_home() {
    // bin always needs the home directory, so even a fully overridden
    // environment fails without one
    let e = env(None, Some("/a"), Some("/b"), Some("/c"));
    let r = Directories::with_prefix("foobar", &e);
    assert!(matches!(r, Err(DirsError::HomeMissing)));
}

#[test]
fn repeated_resolution_is_pointwise_equal() {
    let e = env(Some("/home/alice"), None, Some("/tmp/xdgcache"), None);
    let d1 = Facade::with_prefix("foobar", &Environment::Unix(env(
        Some("/home/alice"),
        None,
        Some("/tmp/xdgcache"),
        None,
    )))
    .unwrap();
    let d2 = Facade::with_prefix("foobar", &Environment::Unix(e)).unwrap();
    assert_eq!(d1.config_home(), d2.config_home());
    assert_eq!(d1.cache_home(), d2.cache_home());
    assert_eq!(d1.data_home(), d2.data_home());
    assert_eq!(d1.bin_home(), d2.bin_home());
}

#[test]
fn facade_matches_platform_resolver() {
    let d = Facade::with_prefix(
        "foobar",
        &Environment::Unix(env(Some("/home/alice"), None, None, None)),
    )
    .unwrap();
    assert_eq!(d.config_home().as_str(), "/home/alice/.config/foobar");
    assert_eq!(d.cache_home().as_str(), "/home/alice/.cache/foobar");
    assert_eq!(d.data_home().as_str(), "/home/alice/.local/share/foobar");
    assert_eq!(d.bin_home().as_str(), "/home/alice/.local/bin/foobar");
}

#[test]
fn non_ascii_home_joins_by_characters() {
    let e = env(Some("/home/müller"), None, None, None);
    let d = Directories::with_prefix("äpp", &e).unwrap();
    assert_eq!(d.config_home().as_str(), "/home/müller/.config/äpp");
}
