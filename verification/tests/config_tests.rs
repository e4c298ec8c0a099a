use ovos_config::config::{
    is_yaml_path, parse_commented_json, ConfError, FileFormat, LocalConf, MycroftDefaultConfig,
    MycroftSystemConfig, MycroftUserConfig, MycroftXDGConfig, OvosDistributionConfig,
    ReadOnlyConfig,
};
use ovos_config::dict::ConfigDict;
use ovos_config::xdg::Env;
use serde_json::Value;

fn plain_env() -> Env {
    let mut env = Env::unset();
    env.home = Some(String::from("/home/u"));
    env
}

#[test]
fn yaml_extension_detection() {
    assert!(is_yaml_path("/etc/a.yml"));
    assert!(is_yaml_path("/etc/a.yaml"));
    assert!(is_yaml_path("b.tar.yml"));
    assert!(!is_yaml_path("/etc/a.json"));
    assert!(!is_yaml_path("/etc/a.YML"));
    assert!(!is_yaml_path("/etc/.yml"));
    assert!(!is_yaml_path(".yaml"));
    assert!(!is_yaml_path("/etc/conf"));
    assert!(!is_yaml_path(""));
}

#[test]
fn file_format_prefers_override_then_bound_path() {
    let conf = LocalConf::new(Some(String::from("/etc/a.yaml")));
    assert_eq!(conf.get_file_format(None), FileFormat::Yaml);
    assert_eq!(conf.get_file_format(Some("/etc/b.json")), FileFormat::Json);
    let unbound = LocalConf::new(None);
    assert_eq!(unbound.get_file_format(None), FileFormat::Json);
}

#[test]
fn commented_json_parses_without_comments() {
    let d = parse_commented_json("// comment\n{\"a\": 1 /* note */}").expect("parses");
    assert_eq!(d.get("a"), Some(&Value::from(1)));
    assert_eq!(d.len(), 1);
}

#[test]
fn commented_json_rejects_malformed_text() {
    assert!(parse_commented_json("{\"a\": }").is_none());
}

#[test]
fn load_merges_keys_with_overwrite() {
    let mut conf = LocalConf::new(Some(String::from("/tmp/a.json")));
    conf.load_text(None, "{\"k\": 1}", None).unwrap();
    conf.load_text(None, "{\"k\": 2, \"j\": 3}", None).unwrap();
    assert_eq!(conf.get("k"), Some(&Value::from(2)));
    assert_eq!(conf.get("j"), Some(&Value::from(3)));
    assert_eq!(conf.len(), 2);
}

#[test]
fn load_twice_is_idempotent() {
    let mut once = LocalConf::new(Some(String::from("/tmp/a.json")));
    once.load_text(None, "{\"k\": 1, \"j\": [1, 2]}", None).unwrap();
    let mut twice = LocalConf::new(Some(String::from("/tmp/a.json")));
    twice.load_text(None, "{\"k\": 1, \"j\": [1, 2]}", None).unwrap();
    twice.load_text(None, "{\"k\": 1, \"j\": [1, 2]}", None).unwrap();
    assert_eq!(twice.len(), once.len());
    assert_eq!(twice.get("k"), once.get("k"));
    assert_eq!(twice.get("j"), once.get("j"));
}

#[test]
fn load_yaml_by_extension() {
    let mut conf = LocalConf::new(Some(String::from("/tmp/a.yaml")));
    conf.load_text(None, "k: 1\nname: test\n", None).unwrap();
    assert_eq!(conf.get("k"), Some(&Value::from(1)));
    assert_eq!(conf.get("name"), Some(&Value::from("test")));
}

#[test]
fn load_reports_malformed_json() {
    let mut conf = LocalConf::new(Some(String::from("/tmp/a.json")));
    assert_eq!(conf.load_text(None, "{oops", None), Err(ConfError::ParseError));
    assert_eq!(conf.len(), 0);
}

#[test]
fn load_reports_malformed_yaml() {
    let mut conf = LocalConf::new(Some(String::from("/tmp/a.yaml")));
    assert_eq!(conf.load_text(None, "- not\n- a\n- mapping\n", None), Err(ConfError::ParseError));
    assert_eq!(conf.len(), 0);
}

#[test]
fn load_without_any_path_is_a_no_op() {
    let mut conf = LocalConf::new(None);
    assert_eq!(conf.load_text(None, "{\"k\": 1}", None), Ok(()));
    assert_eq!(conf.len(), 0);
}

#[test]
fn staleness_marker_recorded_for_bound_path_only() {
    let mut conf = LocalConf::new(Some(String::from("/tmp/a.json")));
    conf.load_text(Some("/tmp/other.json"), "{\"k\": 1}", Some(5)).unwrap();
    assert_eq!(conf.last_loaded(), None);
    conf.load_text(None, "{\"k\": 2}", Some(100)).unwrap();
    assert_eq!(conf.last_loaded(), Some(100));
    conf.load_text(Some("/tmp/a.json"), "{\"k\": 3}", Some(200)).unwrap();
    assert_eq!(conf.last_loaded(), Some(200));
}

#[test]
fn reload_skipped_when_file_not_newer() {
    let mut conf = LocalConf::new(Some(String::from("/tmp/a.json")));
    conf.load_text(None, "{\"k\": 1}", Some(100)).unwrap();
    assert!(!conf.should_reload(100));
    assert!(!conf.should_reload(50));
    assert!(conf.should_reload(101));
    // The caller skips the read and the parse when should_reload is false,
    // so a since-corrupted file with an unchanged timestamp is never parsed
    // and the dictionary stays as it is.
    assert_eq!(conf.get("k"), Some(&Value::from(1)));
}

#[test]
fn reload_wanted_before_any_load() {
    let conf = LocalConf::new(Some(String::from("/tmp/a.json")));
    assert!(conf.should_reload(0));
}

#[test]
fn store_without_any_path_reports_no_save_location() {
    let conf = LocalConf::new(None);
    assert_eq!(conf.store_string(None), Err(ConfError::NoSaveLocation));
}

#[test]
fn json_round_trip_through_store_and_load() {
    let mut conf = LocalConf::new(Some(String::from("/tmp/a.json")));
    conf.load_text(None, "{\"k\": 1, \"s\": \"text\", \"nested\": {\"x\": [1, 2, true, null]}}", None)
        .unwrap();
    let stored = conf.store_string(None).unwrap();
    let mut fresh = LocalConf::new(Some(String::from("/tmp/a.json")));
    fresh.load_text(None, stored.as_str(), None).unwrap();
    assert_eq!(fresh.len(), 3);
    assert_eq!(fresh.get("k"), conf.get("k"));
    assert_eq!(fresh.get("s"), conf.get("s"));
    assert_eq!(fresh.get("nested"), conf.get("nested"));
}

#[test]
fn load_is_additive_and_keeps_unrelated_keys() {
    let mut conf = LocalConf::new(Some(String::from("/tmp/a.json")));
    conf.load_text(None, "{\"a\": 1}", None).unwrap();
    conf.load_text(None, "{\"b\": 2}", None).unwrap();
    assert_eq!(conf.get("a"), Some(&Value::from(1)));
    assert_eq!(conf.get("b"), Some(&Value::from(2)));
    assert_eq!(conf.len(), 2);
}

#[test]
fn comment_stripping_applies_even_inside_string_values() {
    // The stripper pays no regard to string literals, so a stored value
    // that contains `//` defeats the JSON store/load round trip.
    let mut conf = LocalConf::new(Some(String::from("/tmp/a.json")));
    let mut d = ConfigDict::new();
    d.insert(String::from("url"), Value::from("http://example"));
    conf.merge(&d);
    let stored = conf.store_string(None).unwrap();
    let mut fresh = LocalConf::new(Some(String::from("/tmp/a.json")));
    assert_eq!(fresh.load_text(None, stored.as_str(), None), Err(ConfError::ParseError));
}

#[test]
fn empty_dictionary_round_trips() {
    let conf = LocalConf::new(Some(String::from("/tmp/a.json")));
    let stored = conf.store_string(None).unwrap();
    let mut fresh = LocalConf::new(Some(String::from("/tmp/a.json")));
    fresh.load_text(None, stored.as_str(), None).unwrap();
    assert_eq!(fresh.len(), 0);
}

#[test]
fn yaml_round_trip_through_store_and_load() {
    let mut conf = LocalConf::new(Some(String::from("/tmp/a.yaml")));
    conf.load_text(None, "k: 1\ns: text\nnested:\n  x: [1, 2]\n", None).unwrap();
    let stored = conf.store_string(None).unwrap();
    let mut fresh = LocalConf::new(Some(String::from("/tmp/a.yaml")));
    fresh.load_text(None, stored.as_str(), None).unwrap();
    assert_eq!(fresh.len(), 3);
    assert_eq!(fresh.get("k"), conf.get("k"));
    assert_eq!(fresh.get("s"), conf.get("s"));
    assert_eq!(fresh.get("nested"), conf.get("nested"));
}

#[test]
fn store_format_follows_override_path() {
    let mut conf = LocalConf::new(Some(String::from("/tmp/a.json")));
    conf.load_text(None, "{\"k\": 1}", None).unwrap();
    let as_yaml = conf.store_string(Some("/tmp/b.yml")).unwrap();
    let parsed: serde_yaml::Value = serde_yaml::from_str(&as_yaml).unwrap();
    assert_eq!(parsed.get("k"), Some(&serde_yaml::Value::from(1)));
}

#[test]
fn merge_overwrites_by_key() {
    let mut conf = LocalConf::new(None);
    conf.load_text(Some("/tmp/a.json"), "{\"k\": 1}", None).unwrap();
    let mut incoming = ConfigDict::new();
    incoming.insert(String::from("k"), Value::from(2));
    incoming.insert(String::from("j"), Value::from(3));
    conf.merge(&incoming);
    assert_eq!(conf.get("k"), Some(&Value::from(2)));
    assert_eq!(conf.get("j"), Some(&Value::from(3)));
    assert_eq!(conf.len(), 2);
    // The merged-from dictionary is untouched.
    assert_eq!(incoming.get("k"), Some(&Value::from(2)));
    assert_eq!(incoming.len(), 2);
}

#[test]
fn dict_insert_get_len() {
    let mut d = ConfigDict::new();
    assert_eq!(d.len(), 0);
    d.insert(String::from("a"), Value::from(1));
    d.insert(String::from("b"), Value::from(2));
    d.insert(String::from("a"), Value::from(3));
    assert_eq!(d.len(), 2);
    assert_eq!(d.get("a"), Some(&Value::from(3)));
    assert_eq!(d.get("b"), Some(&Value::from(2)));
    assert_eq!(d.get("missing"), None);
}

#[test]
fn dict_merge_from_unions_keys() {
    let mut a = ConfigDict::new();
    a.insert(String::from("only_a"), Value::from(1));
    a.insert(String::from("both"), Value::from(2));
    let mut b = ConfigDict::new();
    b.insert(String::from("both"), Value::from(20));
    b.insert(String::from("only_b"), Value::from(30));
    a.merge_from(&b);
    assert_eq!(a.get("only_a"), Some(&Value::from(1)));
    assert_eq!(a.get("both"), Some(&Value::from(20)));
    assert_eq!(a.get("only_b"), Some(&Value::from(30)));
    assert_eq!(a.len(), 3);
}

#[test]
fn read_only_layer_rejects_set() {
    let mut conf = ReadOnlyConfig::new(String::from("/etc/a.json"), false);
    assert_eq!(conf.set("k", Value::from(1)), Err(ConfError::ReadOnly));
    assert_eq!(conf.get("k"), None);
}

#[test]
fn writable_layer_accepts_set() {
    let mut conf = ReadOnlyConfig::new(String::from("/etc/a.json"), true);
    assert_eq!(conf.set("k", Value::from(1)), Ok(()));
    assert_eq!(conf.get("k"), Some(&Value::from(1)));
}

#[test]
fn read_only_layer_rejects_merge_and_store() {
    let mut conf = ReadOnlyConfig::new(String::from("/etc/a.json"), false);
    let mut incoming = ConfigDict::new();
    incoming.insert(String::from("k"), Value::from(1));
    assert_eq!(conf.merge(&incoming), Err(ConfError::ReadOnly));
    assert_eq!(conf.store_string(None), Err(ConfError::ReadOnly));
    assert_eq!(conf.get("k"), None);
}

#[test]
fn writable_layer_merges_and_stores() {
    let mut conf = ReadOnlyConfig::new(String::from("/etc/a.json"), true);
    let mut incoming = ConfigDict::new();
    incoming.insert(String::from("k"), Value::from(1));
    assert_eq!(conf.merge(&incoming), Ok(()));
    let stored = conf.store_string(None).unwrap();
    let parsed: serde_json::Value = serde_json::from_str(&stored).unwrap();
    assert_eq!(parsed.get("k"), Some(&Value::from(1)));
}

#[test]
fn reload_is_allowed_on_read_only_layer() {
    let mut conf = ReadOnlyConfig::new(String::from("/etc/a.json"), false);
    assert_eq!(conf.reload_from("{\"k\": 1}", 100), Ok(()));
    assert_eq!(conf.get("k"), Some(&Value::from(1)));
    // The restriction is restored afterwards.
    assert!(!conf.allows_overwrite());
    assert_eq!(conf.set("k", Value::from(2)), Err(ConfError::ReadOnly));
    assert!(!conf.should_reload(100));
    assert!(conf.should_reload(101));
}

#[test]
fn default_config_binds_fixed_path() {
    let conf = MycroftDefaultConfig::new();
    assert_eq!(conf.0.path().unwrap(), "/etc/mycroft/mycroft.conf");
    assert!(!conf.0.allows_overwrite());
}

#[test]
fn default_config_can_be_repointed() {
    let mut conf = MycroftDefaultConfig::new();
    conf.set_root_config_path(String::from("/opt/app/root.conf"));
    assert_eq!(conf.0.path().unwrap(), "/opt/app/root.conf");
    assert_eq!(conf.0.reload_from("{\"root\": true}", 1), Ok(()));
    assert_eq!(conf.0.get("root"), Some(&Value::from(true)));
}

#[test]
fn distribution_and_system_configs_bind_env_paths() {
    let mut env = plain_env();
    let dist = OvosDistributionConfig::new(true, &env);
    assert_eq!(dist.0.path().unwrap(), "/usr/share/mycroft/mycroft.conf");
    assert!(dist.0.allows_overwrite());
    let sys = MycroftSystemConfig::new(false, &env);
    assert_eq!(sys.0.path().unwrap(), "/etc/mycroft/mycroft.conf");
    env.ovos_distribution_config = Some(String::from("/opt/dist.conf"));
    env.mycroft_system_config = Some(String::from("/opt/system.conf"));
    let dist2 = OvosDistributionConfig::new(false, &env);
    assert_eq!(dist2.0.path().unwrap(), "/opt/dist.conf");
    let sys2 = MycroftSystemConfig::new(true, &env);
    assert_eq!(sys2.0.path().unwrap(), "/opt/system.conf");
}

#[test]
fn user_config_binds_xdg_save_path() {
    let env = plain_env();
    let user = MycroftUserConfig::new(&env);
    assert_eq!(user.0.path().unwrap(), "/home/u/.config/mycroft/mycroft.conf");
    let alias: MycroftXDGConfig = MycroftXDGConfig::new(&env);
    assert_eq!(alias.0.path().unwrap(), "/home/u/.config/mycroft/mycroft.conf");
}
