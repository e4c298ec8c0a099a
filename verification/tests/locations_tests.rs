use ovos_config::locations::{
    default_config_path, distribution_config_path, find_user_config, get_config_locations,
    get_webcache_location, get_xdg_cache_save_path, get_xdg_config_dirs,
    get_xdg_config_locations, get_xdg_config_save_path, get_xdg_data_dirs,
    get_xdg_data_save_path, old_user_config_path, system_config_path, user_config_path,
    web_config_cache_path,
};
use ovos_config::xdg::Env;

fn plain_env() -> Env {
    let mut env = Env::unset();
    env.home = Some(String::from("/home/u"));
    env
}

#[test]
fn xdg_config_dirs_append_folder_and_config_home() {
    let env = plain_env();
    assert_eq!(
        get_xdg_config_dirs(None, &env),
        vec!["/etc/xdg/mycroft", "/home/u/.config/mycroft"]
    );
    assert_eq!(
        get_xdg_config_dirs(Some("other"), &env),
        vec!["/etc/xdg/other", "/home/u/.config/other"]
    );
}

#[test]
fn xdg_data_dirs_append_folder() {
    let env = plain_env();
    assert_eq!(
        get_xdg_data_dirs(None, &env),
        vec!["/usr/local/share/mycroft", "/usr/share/mycroft"]
    );
}

#[test]
fn save_paths_use_the_folder() {
    let env = plain_env();
    assert_eq!(get_xdg_config_save_path(None, &env), "/home/u/.config/mycroft");
    assert_eq!(get_xdg_data_save_path(Some("app"), &env), "/home/u/.local/share/app");
    assert_eq!(get_xdg_cache_save_path(None, &env), "/home/u/.cache/mycroft");
}

#[test]
fn user_config_paths() {
    let env = plain_env();
    assert_eq!(user_config_path(&env), "/home/u/.config/mycroft/mycroft.conf");
    assert_eq!(old_user_config_path(&env), "/home/u/.mycroft/mycroft.conf");
    assert_eq!(old_user_config_path(&Env::unset()), "/.mycroft/mycroft.conf");
}

#[test]
fn find_user_config_prefers_existing_xdg_path() {
    let env = plain_env();
    assert_eq!(
        find_user_config(&env, true, true),
        "/home/u/.config/mycroft/mycroft.conf"
    );
    assert_eq!(find_user_config(&env, false, true), "/home/u/.mycroft/mycroft.conf");
    assert_eq!(
        find_user_config(&env, false, false),
        "/home/u/.config/mycroft/mycroft.conf"
    );
}

#[test]
fn config_locations_full_precedence_chain() {
    let env = plain_env();
    assert_eq!(
        get_config_locations(&env),
        vec![
            "/etc/mycroft/mycroft.conf",
            "/usr/share/mycroft/mycroft.conf",
            "/etc/mycroft/mycroft.conf",
            "/home/u/.config/mycroft/web_cache.json",
            "/home/u/.mycroft/mycroft.conf",
            "/home/u/.config/mycroft/mycroft.conf",
        ]
    );
}

#[test]
fn xdg_config_locations_most_specific_last() {
    let mut env = plain_env();
    env.xdg_config_dirs = Some(String::from("/one:/two"));
    assert_eq!(
        get_xdg_config_locations(&env),
        vec![
            "/home/u/.config/mycroft/mycroft.conf",
            "/two/mycroft/mycroft.conf",
            "/one/mycroft/mycroft.conf",
        ]
    );
}

#[test]
fn webcache_location_under_config_save_path() {
    let env = plain_env();
    assert_eq!(get_webcache_location(&env), "/home/u/.config/mycroft/web_cache.json");
}

#[test]
fn named_paths_follow_environment_overrides() {
    let mut env = plain_env();
    assert_eq!(default_config_path(), "/etc/mycroft/mycroft.conf");
    assert_eq!(distribution_config_path(&env), "/usr/share/mycroft/mycroft.conf");
    assert_eq!(system_config_path(&env), "/etc/mycroft/mycroft.conf");
    assert_eq!(web_config_cache_path(&env), "/home/u/.config/mycroft/web_cache.json");
    env.ovos_distribution_config = Some(String::from("/opt/dist.conf"));
    env.mycroft_system_config = Some(String::from("/opt/system.conf"));
    env.mycroft_web_cache = Some(String::from("/opt/web.json"));
    assert_eq!(distribution_config_path(&env), "/opt/dist.conf");
    assert_eq!(system_config_path(&env), "/opt/system.conf");
    assert_eq!(web_config_cache_path(&env), "/opt/web.json");
}
