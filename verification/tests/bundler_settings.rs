use rv_exec::bundler_settings::config_file_for;
use rv_exec::bundler_settings::config_for_content;
use rv_exec::bundler_settings::double_dots;
use rv_exec::bundler_settings::first_mapping;
use rv_exec::bundler_settings::get_bool_env_config;
use rv_exec::bundler_settings::get_bool_file_config;
use rv_exec::bundler_settings::get_string_env_config;
use rv_exec::bundler_settings::get_string_file_config;
use rv_exec::bundler_settings::token_key_for;
use rv_exec::bundler_settings::BundlerSettings;
use rv_exec::settings::InstallPath;
use rv_exec::settings::SettingsLayer;
use saphyr::LoadableYamlNode;
use saphyr::Yaml;

fn no_env() -> Vec<(String, String)> {
    Vec::new()
}

fn env_of(pairs: &[(&str, &str)]) -> Vec<(String, String)> {
    pairs
        .iter()
        .map(|(name, value)| (name.to_string(), value.to_string()))
        .collect()
}

fn absolute_of(relative: &str) -> String {
    let cwd = std::path::Path::new(".").canonicalize().unwrap();
    cwd.join(relative).to_str().unwrap().to_string()
}

#[test]
fn test_local_config() {
    let config_content = "---\n\nBUNDLE_PATH: foo\n";

    let bundler_settings = BundlerSettings::new(None, Some(config_content));

    assert_eq!(
        absolute_of("foo"),
        bundler_settings.path(&no_env()).unwrap().to_string()
    )
}

#[test]
fn test_global_config() {
    let config_content = "---\n\nBUNDLE_PATH: foo\n";

    let bundler_settings = BundlerSettings::new(Some(config_content), None);

    assert_eq!(
        absolute_of("foo"),
        bundler_settings.path(&no_env()).unwrap().to_string()
    )
}

#[test]
fn test_local_and_global_config() {
    let global_config_content = "---\n\nBUNDLE_PATH: foo\n";
    let local_config_content = "---\n\nBUNDLE_PATH: bar\n";

    let bundler_settings =
        BundlerSettings::new(Some(global_config_content), Some(local_config_content));

    assert_eq!(
        absolute_of("bar"),
        bundler_settings.path(&no_env()).unwrap().to_string()
    )
}

#[test]
fn test_local_with_path_system() {
    let local_config_content = "---\n\nBUNDLE_PATH__SYSTEM: true\n";

    let bundler_settings = BundlerSettings::new(None, Some(local_config_content));

    assert_eq!(None, bundler_settings.path(&no_env()))
}

#[test]
fn test_local_with_deployment() {
    let local_config_content = "---\n\nBUNDLE_DEPLOYMENT: true\n";

    let bundler_settings = BundlerSettings::new(None, Some(local_config_content));

    assert_eq!(
        absolute_of("vendor/bundle"),
        bundler_settings.path(&no_env()).unwrap().to_string()
    )
}

#[test]
fn system_gems_in_the_project_hide_a_global_path() {
    let settings = BundlerSettings::new(
        Some("---\nBUNDLE_PATH: foo\n"),
        Some("---\nBUNDLE_PATH__SYSTEM: true\n"),
    );
    assert_eq!(
        settings.install_policy(&no_env()),
        Some(InstallPath {
            explicit_path: None,
            use_system_gems: true
        })
    );
    assert_eq!(settings.path(&no_env()), None);
}

#[test]
fn environment_path_wins_over_a_local_deployment_flag() {
    let settings = BundlerSettings::new(None, Some("---\nBUNDLE_DEPLOYMENT: true\n"));
    let env = env_of(&[("BUNDLE_PATH", "x")]);
    assert_eq!(
        settings.install_policy(&env),
        Some(InstallPath {
            explicit_path: Some("x".to_string()),
            use_system_gems: false
        })
    );
    assert_eq!(settings.path(&env).unwrap().to_string(), absolute_of("x"));
}

#[test]
fn environment_stands_between_project_and_global() {
    let settings = BundlerSettings::new(Some("---\nBUNDLE_PATH: from_global\n"), None);
    let env = env_of(&[("BUNDLE_PATH", "from_env")]);
    assert_eq!(
        settings.install_policy(&env).unwrap().explicit_path,
        Some("from_env".to_string())
    );
    let settings = BundlerSettings::new(
        Some("---\nBUNDLE_PATH: from_global\n"),
        Some("---\nBUNDLE_PATH: from_project\n"),
    );
    assert_eq!(
        settings.install_policy(&env).unwrap().explicit_path,
        Some("from_project".to_string())
    );
}

#[test]
fn nothing_configured_gives_no_policy_and_no_path() {
    let settings = BundlerSettings::new(None, None);
    assert_eq!(settings.install_policy(&no_env()), None);
    assert_eq!(settings.path(&no_env()), None);
}

#[test]
fn deployment_off_means_system_gems() {
    let settings = BundlerSettings::new(None, Some("---\nBUNDLE_DEPLOYMENT: false\n"));
    assert_eq!(
        settings.install_policy(&no_env()),
        Some(InstallPath {
            explicit_path: None,
            use_system_gems: true
        })
    );
    assert_eq!(settings.path(&no_env()), None);
}

#[test]
fn resolving_twice_gives_the_same_result() {
    let settings = BundlerSettings::new(
        Some("---\nBUNDLE_PATH: foo\n"),
        Some("---\nBUNDLE_DEPLOYMENT: true\n"),
    );
    let env = env_of(&[("BUNDLE_PATH__SYSTEM", "false")]);
    assert_eq!(settings.install_policy(&env), settings.install_policy(&env));
    assert_eq!(settings.path(&env), settings.path(&env));
    assert_eq!(
        settings.token_for("rubygems.org", &env),
        settings.token_for("rubygems.org", &env)
    );
}

#[test]
fn layers_are_read_from_their_sources() {
    let settings = BundlerSettings::new(
        Some("---\nBUNDLE_PATH__SYSTEM: false\nBUNDLE_DEPLOYMENT: true\n"),
        Some("---\nBUNDLE_PATH: vendor\n"),
    );
    assert_eq!(
        settings.local_path_config(),
        SettingsLayer {
            path: Some("vendor".to_string()),
            path_system: None,
            deployment: None
        }
    );
    assert_eq!(
        settings.global_path_config(),
        SettingsLayer {
            path: None,
            path_system: Some(false),
            deployment: Some(true)
        }
    );
    assert_eq!(BundlerSettings::path_config(&None), SettingsLayer::empty());
    let env = env_of(&[
        ("BUNDLE_PATH", "gems"),
        ("BUNDLE_PATH__SYSTEM", "true"),
        ("BUNDLE_DEPLOYMENT", "yes"),
    ]);
    assert_eq!(
        BundlerSettings::env_path_config(&env),
        SettingsLayer {
            path: Some("gems".to_string()),
            path_system: Some(true),
            deployment: Some(false)
        }
    );
    assert_eq!(
        BundlerSettings::env_path_config(&no_env()),
        SettingsLayer::empty()
    );
}

#[test]
fn environment_booleans_are_true_only_for_the_word_true() {
    let env = env_of(&[
        ("A", "true"),
        ("B", "false"),
        ("C", "TRUE"),
        ("D", "1"),
        ("E", ""),
        ("F", " true"),
    ]);
    assert_eq!(get_bool_env_config(&env, "A"), Some(true));
    assert_eq!(get_bool_env_config(&env, "B"), Some(false));
    assert_eq!(get_bool_env_config(&env, "C"), Some(false));
    assert_eq!(get_bool_env_config(&env, "D"), Some(false));
    assert_eq!(get_bool_env_config(&env, "E"), Some(false));
    assert_eq!(get_bool_env_config(&env, "F"), Some(false));
    assert_eq!(get_bool_env_config(&env, "G"), None);
}

#[test]
fn environment_strings_come_from_the_first_entry_of_that_name() {
    let env = env_of(&[("A", "1"), ("B", "2"), ("A", "3")]);
    assert_eq!(get_string_env_config(&env, "A"), Some("1".to_string()));
    assert_eq!(get_string_env_config(&env, "B"), Some("2".to_string()));
    assert_eq!(get_string_env_config(&env, "a"), None);
    assert_eq!(get_string_env_config(&no_env(), "A"), None);
}

#[test]
fn file_settings_are_read_by_type() {
    let settings = config_for_content(
        "---\nBUNDLE_PATH: foo\nBUNDLE_DEPLOYMENT: true\nBUNDLE_JOBS: 4\nBUNDLE_WITHOUT: \"true\"\n",
    )
    .unwrap();
    assert_eq!(
        get_string_file_config(&settings, "BUNDLE_PATH"),
        Some("foo".to_string())
    );
    assert_eq!(get_bool_file_config(&settings, "BUNDLE_PATH"), None);
    assert_eq!(get_bool_file_config(&settings, "BUNDLE_DEPLOYMENT"), Some(true));
    assert_eq!(get_string_file_config(&settings, "BUNDLE_DEPLOYMENT"), None);
    assert_eq!(get_string_file_config(&settings, "BUNDLE_JOBS"), None);
    assert_eq!(get_bool_file_config(&settings, "BUNDLE_JOBS"), None);
    assert_eq!(
        get_string_file_config(&settings, "BUNDLE_WITHOUT"),
        Some("true".to_string())
    );
    assert_eq!(get_bool_file_config(&settings, "BUNDLE_WITHOUT"), None);
    assert_eq!(get_string_file_config(&settings, "BUNDLE_MISSING"), None);
    assert_eq!(get_bool_file_config(&settings, "BUNDLE_MISSING"), None);
}

#[test]
fn a_string_path_in_a_file_next_to_a_boolean_one() {
    let settings = BundlerSettings::new(
        None,
        Some("---\nBUNDLE_PATH: foo\nBUNDLE_PATH__SYSTEM: true\n"),
    );
    assert_eq!(
        settings.install_policy(&no_env()),
        Some(InstallPath {
            explicit_path: Some("foo".to_string()),
            use_system_gems: true
        })
    );
    assert_eq!(settings.path(&no_env()), None);
}

#[test]
fn malformed_or_foreign_documents_are_no_configuration() {
    assert!(config_for_content("").is_none());
    assert!(config_for_content("just a string\n").is_none());
    assert!(config_for_content("- a\n- list\n").is_none());
    assert!(config_for_content("key: [unclosed\n").is_none());
    assert!(config_for_content("a: 1\na: 2\n").is_none());
    assert!(config_for_content("---\nBUNDLE_PATH: foo\n").is_some());
    let settings = BundlerSettings::new(Some("key: [unclosed\n"), Some("- a\n"));
    assert_eq!(settings.local, None);
    assert_eq!(settings.global, None);
    assert_eq!(settings.path(&no_env()), None);
}

#[test]
fn only_the_first_document_counts() {
    let settings = config_for_content("---\nBUNDLE_PATH: one\n---\nBUNDLE_PATH: two\n").unwrap();
    assert_eq!(
        get_string_file_config(&settings, "BUNDLE_PATH"),
        Some("one".to_string())
    );
    assert!(config_for_content("---\n- a\n---\nBUNDLE_PATH: two\n").is_none());
}

#[test]
fn first_mapping_takes_the_first_document_if_it_is_a_mapping() {
    assert_eq!(first_mapping(Vec::new()), None);
    let docs = Yaml::load_from_str("a: 1\n---\nb: 2\n").unwrap();
    let first = docs[0].clone();
    assert_eq!(first_mapping(docs), Some(first));
    let docs = Yaml::load_from_str("text\n---\nb: 2\n").unwrap();
    assert_eq!(first_mapping(docs), None);
}

#[test]
fn token_keys_are_upper_case_with_doubled_dots() {
    assert_eq!(token_key_for("rubygems.org"), "BUNDLE_RUBYGEMS__ORG");
    assert_eq!(token_key_for("gems.example.co.uk"), "BUNDLE_GEMS__EXAMPLE__CO__UK");
    assert_eq!(token_key_for(""), "BUNDLE_");
    assert_eq!(token_key_for("localhost"), "BUNDLE_LOCALHOST");
    assert_eq!(token_key_for("stra\u{df}e.de"), "BUNDLE_STRASSE__DE");
    assert_eq!(double_dots("a.b..c"), "a__b____c");
    assert_eq!(double_dots("..."), "______");
    assert_eq!(double_dots("none"), "none");
    assert_eq!(double_dots(""), "");
}

#[test]
fn tokens_come_from_project_then_environment_then_global() {
    let global = "---\nBUNDLE_GEMS__EXAMPLE__COM: global-token\n";
    let local = "---\nBUNDLE_GEMS__EXAMPLE__COM: local-token\n";
    let env = env_of(&[("BUNDLE_GEMS__EXAMPLE__COM", "env-token")]);

    let all = BundlerSettings::new(Some(global), Some(local));
    assert_eq!(
        all.token_for("gems.example.com", &env),
        Some("local-token".to_string())
    );
    let without_local = BundlerSettings::new(Some(global), None);
    assert_eq!(
        without_local.token_for("gems.example.com", &env),
        Some("env-token".to_string())
    );
    assert_eq!(
        without_local.token_for("gems.example.com", &no_env()),
        Some("global-token".to_string())
    );
    assert_eq!(without_local.token_for("other.example.com", &env), None);
    let nothing = BundlerSettings::new(None, None);
    assert_eq!(nothing.token_for("gems.example.com", &no_env()), None);
}

#[test]
fn a_token_that_is_no_string_in_the_project_falls_through() {
    let local = "---\nBUNDLE_GEMS__EXAMPLE__COM: true\n";
    let global = "---\nBUNDLE_GEMS__EXAMPLE__COM: global-token\n";
    let settings = BundlerSettings::new(Some(global), Some(local));
    assert_eq!(
        settings.token_for("gems.example.com", &no_env()),
        Some("global-token".to_string())
    );
}

#[test]
fn the_configuration_file_lies_in_the_bundle_directory() {
    assert_eq!(config_file_for("/home/me"), "/home/me/.bundle/config");
    assert_eq!(config_file_for("project/"), "project/.bundle/config");
    assert_eq!(config_file_for(""), ".bundle/config");
}
