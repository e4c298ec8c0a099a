//! The catalog of well-known configuration file locations.
//!
//! Composes the XDG resolver's directories with the application folder
//! (`mycroft` unless overridden per call) and the fixed leaf file names, and
//! yields the precedence chain of candidate configuration paths.

use vstd::prelude::*;

use crate::xdg::{
    Env, path_join, spec_join, spec_xdg_cache_home, spec_xdg_config_dirs, spec_xdg_config_home,
    spec_xdg_data_dirs, spec_xdg_data_home, xdg_cache_home, xdg_config_dirs, xdg_config_home,
    xdg_data_dirs, xdg_data_home,
};

verus! {

/// The folder under each base directory: the caller's override, or
/// `mycroft`.
pub open spec fn spec_folder(folder: Option<&str>) -> Seq<char> {
    match folder {
        Some(f) => f@,
        None => "mycroft"@,
    }
}

/// Each directory of `dirs` with `leaf` joined onto it, in order.
pub open spec fn spec_join_all(dirs: Seq<Seq<char>>, leaf: Seq<char>) -> Seq<Seq<char>> {
    Seq::new(dirs.len(), |i: int| spec_join(dirs[i], leaf))
}

/// Joins `leaf` onto every directory of `dirs`.
fn join_all(dirs: &Vec<String>, leaf: &str) -> (r: Vec<String>)
    ensures
        r.deep_view() == spec_join_all(dirs.deep_view(), leaf@),
{
    let mut out: Vec<String> = Vec::new();
    let mut i: usize = 0;
    while i < dirs.len()
        invariant
            i <= dirs.len(),
            out.deep_view().len() == i,
            forall|j: int|
                0 <= j < i ==> out.deep_view()[j] == spec_join(dirs.deep_view()[j], leaf@),
        decreases dirs.len() - i,
    {
        let ghost prev = out.deep_view();
        out.push(path_join(dirs[i].as_str(), leaf));
        proof {
            assert(out.deep_view() =~~= prev.push(spec_join(dirs.deep_view()[i as int], leaf@)));
        }
        i += 1;
    }
    proof {
        assert(out.deep_view() =~~= spec_join_all(dirs.deep_view(), leaf@));
    }
    out
}

/// The XDG config directories for the folder: every entry of the config
/// directory list, then the config home, each with the folder appended.
pub open spec fn spec_get_xdg_config_dirs(folder: Option<&str>, env: Env) -> Seq<Seq<char>> {
    spec_join_all(
        spec_xdg_config_dirs(env).push(spec_xdg_config_home(env)),
        spec_folder(folder),
    )
}

/// Returns the candidate XDG config directories for the given folder.
pub fn get_xdg_config_dirs(folder: Option<&str>, env: &Env) -> (r: Vec<String>)
    ensures
        r.deep_view() == spec_get_xdg_config_dirs(folder, *env),
{
    let mut xdg_dirs = xdg_config_dirs(env);
    let ghost before = xdg_dirs.deep_view();
    xdg_dirs.push(xdg_config_home(env));
    proof {
        assert(xdg_dirs.deep_view() =~~= before.push(spec_xdg_config_home(*env)));
    }
    match folder {
        Some(f) => join_all(&xdg_dirs, f),
        None => join_all(&xdg_dirs, "mycroft"),
    }
}

/// The XDG data directories for the folder: every entry of the data
/// directory list with the folder appended.
pub open spec fn spec_get_xdg_data_dirs(folder: Option<&str>, env: Env) -> Seq<Seq<char>> {
    spec_join_all(spec_xdg_data_dirs(env), spec_folder(folder))
}

/// Returns the candidate XDG data directories for the given folder.
pub fn get_xdg_data_dirs(folder: Option<&str>, env: &Env) -> (r: Vec<String>)
    ensures
        r.deep_view() == spec_get_xdg_data_dirs(folder, *env),
{
    let xdg_dirs = xdg_data_dirs(env);
    match folder {
        Some(f) => join_all(&xdg_dirs, f),
        None => join_all(&xdg_dirs, "mycroft"),
    }
}

/// The save directory for config files: the folder under the config home.
pub open spec fn spec_get_xdg_config_save_path(folder: Option<&str>, env: Env) -> Seq<char> {
    spec_join(spec_xdg_config_home(env), spec_folder(folder))
}

/// Returns the directory in which the folder's config files are saved.
pub fn get_xdg_config_save_path(folder: Option<&str>, env: &Env) -> (r: String)
    ensures
        r@ == spec_get_xdg_config_save_path(folder, *env),
{
    let base = xdg_config_home(env);
    match folder {
        Some(f) => path_join(base.as_str(), f),
        None => path_join(base.as_str(), "mycroft"),
    }
}

/// The save directory for data files: the folder under the data home.
pub open spec fn spec_get_xdg_data_save_path(folder: Option<&str>, env: Env) -> Seq<char> {
    spec_join(spec_xdg_data_home(env), spec_folder(folder))
}

/// Returns the directory in which the folder's data files are saved.
pub fn get_xdg_data_save_path(folder: Option<&str>, env: &Env) -> (r: String)
    ensures
        r@ == spec_get_xdg_data_save_path(folder, *env),
{
    let base = xdg_data_home(env);
    match folder {
        Some(f) => path_join(base.as_str(), f),
        None => path_join(base.as_str(), "mycroft"),
    }
}

/// The save directory for cache files: the folder under the cache home.
pub open spec fn spec_get_xdg_cache_save_path(folder: Option<&str>, env: Env) -> Seq<char> {
    spec_join(spec_xdg_cache_home(env), spec_folder(folder))
}

/// Returns the directory in which the folder's cache files are saved.
pub fn get_xdg_cache_save_path(folder: Option<&str>, env: &Env) -> (r: String)
    ensures
        r@ == spec_get_xdg_cache_save_path(folder, *env),
{
    let base = xdg_cache_home(env);
    match folder {
        Some(f) => path_join(base.as_str(), f),
        None => path_join(base.as_str(), "mycroft"),
    }
}

/// The current user config path under the XDG save directory.
pub open spec fn spec_user_config_path(env: Env) -> Seq<char> {
    spec_join(spec_get_xdg_config_save_path(None, env), "mycroft.conf"@)
}

/// Returns the XDG-resolved user config file path, the save target for user
/// configuration.
pub fn user_config_path(env: &Env) -> (r: String)
    ensures
        r@ == spec_user_config_path(*env),
{
    let dir = get_xdg_config_save_path(None, env);
    path_join(dir.as_str(), "mycroft.conf")
}

/// The legacy home-dotfile config path, built from the raw `HOME` value (or
/// the root path when unset, with no emptiness check — the historical
/// behaviour).
pub open spec fn spec_old_user_config_path(env: Env) -> Seq<char> {
    spec_join(
        match env.home {
            Some(h) => h@,
            None => "/"@,
        },
        ".mycroft/mycroft.conf"@,
    )
}

/// Returns the legacy `~/.mycroft/mycroft.conf` path.
pub fn old_user_config_path(env: &Env) -> (r: String)
    ensures
        r@ == spec_old_user_config_path(*env),
{
    let home = match &env.home {
        Some(h) => h.clone(),
        None => String::from_str("/"),
    };
    path_join(home.as_str(), ".mycroft/mycroft.conf")
}

/// Which path `find_user_config` yields, given whether each candidate
/// exists as a regular file: the XDG path when it exists, else the legacy
/// path when that exists, else the XDG path as the save target.
pub open spec fn spec_find_user_config(env: Env, xdg_is_file: bool, legacy_is_file: bool) -> Seq<
    char,
> {
    if xdg_is_file {
        spec_user_config_path(env)
    } else if legacy_is_file {
        spec_old_user_config_path(env)
    } else {
        spec_user_config_path(env)
    }
}

/// Picks the user config file.  `xdg_is_file` and `legacy_is_file` say
/// whether the XDG-resolved path and the legacy dotfile path currently
/// exist as regular files; the caller observes the file system and passes
/// the answers in.
pub fn find_user_config(env: &Env, xdg_is_file: bool, legacy_is_file: bool) -> (r: String)
    ensures
        r@ == spec_find_user_config(*env, xdg_is_file, legacy_is_file),
{
    let path = user_config_path(env);
    if xdg_is_file {
        path
    } else {
        if legacy_is_file {
            old_user_config_path(env)
        } else {
            path
        }
    }
}

/// The webcache location under the XDG save directory.
pub open spec fn spec_get_webcache_location(env: Env) -> Seq<char> {
    spec_join(spec_get_xdg_config_save_path(None, env), "web_cache.json"@)
}

/// Returns the path of the cached copy of remote configuration.
pub fn get_webcache_location(env: &Env) -> (r: String)
    ensures
        r@ == spec_get_webcache_location(*env),
{
    let dir = get_xdg_config_save_path(None, env);
    path_join(dir.as_str(), "web_cache.json")
}

/// The full precedence chain of candidate config files, lowest priority
/// first: default, distribution, system (the system entry coincides with
/// the default one unless deployments repoint it), webcache, legacy user
/// and XDG user path.
pub open spec fn spec_get_config_locations(env: Env) -> Seq<Seq<char>> {
    seq![
        "/etc/mycroft/mycroft.conf"@,
        "/usr/share/mycroft/mycroft.conf"@,
        "/etc/mycroft/mycroft.conf"@,
        spec_get_webcache_location(env),
        spec_old_user_config_path(env),
        spec_user_config_path(env),
    ]
}

/// Returns every candidate config file path, in precedence order (later
/// entries override earlier ones when merged).
pub fn get_config_locations(env: &Env) -> (r: Vec<String>)
    ensures
        r.deep_view() == spec_get_config_locations(*env),
{
    let mut locs: Vec<String> = Vec::new();
    locs.push(String::from_str("/etc/mycroft/mycroft.conf"));
    locs.push(String::from_str("/usr/share/mycroft/mycroft.conf"));
    locs.push(String::from_str("/etc/mycroft/mycroft.conf"));
    locs.push(get_webcache_location(env));
    locs.push(old_user_config_path(env));
    locs.push(user_config_path(env));
    proof {
        assert(locs.deep_view() =~~= spec_get_config_locations(*env));
    }
    locs
}

/// The per-directory `mycroft.conf` candidates, reversed so that the most
/// specific directory (the config home) comes last.
pub open spec fn spec_get_xdg_config_locations(env: Env) -> Seq<Seq<char>> {
    spec_join_all(spec_get_xdg_config_dirs(None, env), "mycroft.conf"@).reverse()
}

/// Returns the `mycroft.conf` path under every XDG config directory, most
/// specific last.
pub fn get_xdg_config_locations(env: &Env) -> (r: Vec<String>)
    ensures
        r.deep_view() == spec_get_xdg_config_locations(*env),
{
    let dirs = get_xdg_config_dirs(None, env);
    let paths = join_all(&dirs, "mycroft.conf");
    let mut out: Vec<String> = Vec::new();
    let ghost pview = paths.deep_view();
    let mut i: usize = paths.len();
    while i > 0
        invariant
            i <= paths.len(),
            paths.deep_view() == pview,
            out.deep_view().len() == pview.len() - i,
            forall|j: int|
                0 <= j < pview.len() - i ==> out.deep_view()[j] == pview[pview.len() - 1 - j],
        decreases i,
    {
        i = i - 1;
        let ghost prev = out.deep_view();
        out.push(paths[i].clone());
        proof {
            assert(out.deep_view() =~~= prev.push(pview[i as int]));
        }
    }
    proof {
        assert(out.deep_view() =~~= pview.reverse());
    }
    out
}

/// The default config path, fixed.
pub open spec fn spec_default_config_path() -> Seq<char> {
    "/etc/mycroft/mycroft.conf"@
}

/// Returns the path the default layer binds to.
pub fn default_config_path() -> (r: String)
    ensures
        r@ == spec_default_config_path(),
{
    String::from_str("/etc/mycroft/mycroft.conf")
}

/// The distribution config path: the `OVOS_DISTRIBUTION_CONFIG` value when
/// set, else the fixed default.
pub open spec fn spec_distribution_config_path(env: Env) -> Seq<char> {
    match env.ovos_distribution_config {
        Some(p) => p@,
        None => "/usr/share/mycroft/mycroft.conf"@,
    }
}

/// Returns the path the distribution layer binds to.
pub fn distribution_config_path(env: &Env) -> (r: String)
    ensures
        r@ == spec_distribution_config_path(*env),
{
    match &env.ovos_distribution_config {
        Some(p) => p.clone(),
        None => String::from_str("/usr/share/mycroft/mycroft.conf"),
    }
}

/// The system config path: the `MYCROFT_SYSTEM_CONFIG` value when set, else
/// the fixed default.
pub open spec fn spec_system_config_path(env: Env) -> Seq<char> {
    match env.mycroft_system_config {
        Some(p) => p@,
        None => "/etc/mycroft/mycroft.conf"@,
    }
}

/// Returns the path the system layer binds to.
pub fn system_config_path(env: &Env) -> (r: String)
    ensures
        r@ == spec_system_config_path(*env),
{
    match &env.mycroft_system_config {
        Some(p) => p.clone(),
        None => String::from_str("/etc/mycroft/mycroft.conf"),
    }
}

/// The webcache path: the `MYCROFT_WEB_CACHE` value when set, else the
/// XDG-resolved webcache location.
pub open spec fn spec_web_config_cache_path(env: Env) -> Seq<char> {
    match env.mycroft_web_cache {
        Some(p) => p@,
        None => spec_get_webcache_location(env),
    }
}

/// Returns the path of the web configuration cache.
pub fn web_config_cache_path(env: &Env) -> (r: String)
    ensures
        r@ == spec_web_config_cache_path(*env),
{
    match &env.mycroft_web_cache {
        Some(p) => p.clone(),
        None => get_webcache_location(env),
    }
}

} // verus!
