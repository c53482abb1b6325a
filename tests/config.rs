use genpolicy_config::config::Config;
use genpolicy_config::options::CommandLineOptions;
use genpolicy_config::paths::join_path_exec;

fn options() -> CommandLineOptions {
    CommandLineOptions::default()
}

#[test]
fn defaults_without_flags() {
    let o = options();
    assert_eq!(o.settings_file_name, "genpolicy-settings.json");
    assert_eq!(o.input_files_path, ".");
    assert!(!o.use_cached_files);
    assert!(!o.raw_out);
    assert!(!o.base64_out);
    assert!(!o.silent_unsupported_fields);
    assert_eq!(o.yaml_file, None);
    assert_eq!(o.config_map_file, None);

    let c = Config::new(o);
    assert_eq!(c.yaml_file, None);
    assert_eq!(c.config_map_files, None);
    assert_eq!(c.rules_file, "./rules.rego");
    assert_eq!(c.settings_file, "./genpolicy-settings.json");
    assert!(!c.use_cache);
    assert!(!c.raw_out);
    assert!(!c.base64_out);
    assert!(!c.silent_unsupported_fields);
}

#[test]
fn path_derivation_from_input_files_path() {
    let mut o = options();
    o.input_files_path = String::from("/etc/genpolicy");
    let c = Config::new(o);
    assert_eq!(c.rules_file, "/etc/genpolicy/rules.rego");
    assert_eq!(c.settings_file, "/etc/genpolicy/genpolicy-settings.json");
}

#[test]
fn custom_settings_file_name() {
    let mut o = options();
    o.input_files_path = String::from("policy");
    o.settings_file_name = String::from("my-settings.json");
    let c = Config::new(o);
    assert_eq!(c.settings_file, "policy/my-settings.json");
    assert_eq!(c.rules_file, "policy/rules.rego");
}

#[test]
fn trailing_separators_collapse() {
    let mut o = options();
    o.input_files_path = String::from("/etc/genpolicy//");
    let c = Config::new(o);
    assert_eq!(c.rules_file, "/etc/genpolicy/rules.rego");
    assert_eq!(c.settings_file, "/etc/genpolicy/genpolicy-settings.json");
}

#[test]
fn join_edge_cases() {
    assert_eq!(join_path_exec("", "rules.rego"), "/rules.rego");
    assert_eq!(join_path_exec("/", "rules.rego"), "/rules.rego");
    assert_eq!(join_path_exec("a/b", "c"), "a/b/c");
    assert_eq!(join_path_exec("a/b/", "c"), "a/b/c");
    assert_eq!(join_path_exec("dir", ""), "dir/");
    assert_eq!(join_path_exec("d\u{e9}j\u{e0}/", "x"), "d\u{e9}j\u{e0}/x");
}

#[test]
fn config_map_file_becomes_list() {
    let mut o = options();
    o.config_map_file = Some(String::from("cm.yaml"));
    let c = Config::new(o);
    assert_eq!(c.config_map_files, Some(vec![String::from("cm.yaml")]));
}

#[test]
fn config_map_file_absent() {
    let c = Config::new(options());
    assert_eq!(c.config_map_files, None);
}

#[test]
fn resolving_twice_gives_equal_configs() {
    let mut o1 = options();
    o1.yaml_file = Some(String::from("pod.yaml"));
    o1.config_map_file = Some(String::from("cm.yaml"));
    o1.input_files_path = String::from("/opt/rules/");
    o1.base64_out = true;
    o1.silent_unsupported_fields = true;
    let mut o2 = options();
    o2.yaml_file = Some(String::from("pod.yaml"));
    o2.config_map_file = Some(String::from("cm.yaml"));
    o2.input_files_path = String::from("/opt/rules/");
    o2.base64_out = true;
    o2.silent_unsupported_fields = true;
    let a = Config::new(o1);
    let b = Config::new(o2);
    assert_eq!(a.use_cache, b.use_cache);
    assert_eq!(a.yaml_file, b.yaml_file);
    assert_eq!(a.rules_file, b.rules_file);
    assert_eq!(a.settings_file, b.settings_file);
    assert_eq!(a.config_map_files, b.config_map_files);
    assert_eq!(a.silent_unsupported_fields, b.silent_unsupported_fields);
    assert_eq!(a.raw_out, b.raw_out);
    assert_eq!(a.base64_out, b.base64_out);
    assert_eq!(a.rules_file, "/opt/rules/rules.rego");
    assert!(a.base64_out && a.silent_unsupported_fields);
}

#[test]
fn yaml_file_with_cache_and_raw_out() {
    // What `-y pod.yaml -u -r` sets.
    let mut o = options();
    o.yaml_file = Some(String::from("pod.yaml"));
    o.use_cached_files = true;
    o.raw_out = true;
    let c = Config::new(o);
    assert_eq!(c.yaml_file, Some(String::from("pod.yaml")));
    assert!(c.use_cache);
    assert!(c.raw_out);
    assert!(!c.base64_out);
    assert!(!c.silent_unsupported_fields);
    assert_eq!(c.settings_file, "./genpolicy-settings.json");
    assert_eq!(c.rules_file, "./rules.rego");
    assert_eq!(c.config_map_files, None);
}

#[test]
fn cloned_config_keeps_fields() {
    let mut o = options();
    o.config_map_file = Some(String::from("cm.yaml"));
    let c = Config::new(o);
    let d = c.clone();
    assert_eq!(c.rules_file, d.rules_file);
    assert_eq!(c.config_map_files, d.config_map_files);
}
