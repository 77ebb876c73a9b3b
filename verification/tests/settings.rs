use camino::Utf8PathBuf;
use rv_exec::settings::deployment_fallback;
use rv_exec::settings::install_directory;
use rv_exec::settings::resolve_install_path;
use rv_exec::settings::resolve_install_policy;
use rv_exec::settings::resolve_layers;
use rv_exec::settings::InstallPath;
use rv_exec::settings::SettingsLayer;

fn layer(path: Option<&str>, path_system: Option<bool>, deployment: Option<bool>) -> SettingsLayer {
    SettingsLayer {
        path: path.map(str::to_string),
        path_system,
        deployment,
    }
}

fn empty() -> SettingsLayer {
    SettingsLayer::empty()
}

fn policy(explicit_path: Option<&str>, use_system_gems: bool) -> InstallPath {
    InstallPath {
        explicit_path: explicit_path.map(str::to_string),
        use_system_gems,
    }
}

#[test]
fn a_local_path_is_used() {
    let path = resolve_install_path(layer(Some("foo"), None, None), empty(), empty()).unwrap();
    assert!(path.is_absolute());
    assert!(path.ends_with("foo"));
}

#[test]
fn a_global_path_is_used_when_nothing_else_is_set() {
    let path = resolve_install_path(empty(), empty(), layer(Some("foo"), None, None)).unwrap();
    assert!(path.is_absolute());
    assert!(path.ends_with("foo"));
}

#[test]
fn a_local_path_wins_over_a_global_one() {
    let path = resolve_install_path(
        layer(Some("bar"), None, None),
        empty(),
        layer(Some("foo"), None, None),
    )
    .unwrap();
    assert!(path.is_absolute());
    assert!(path.ends_with("bar"));
    assert!(!path.ends_with("foo"));
}

#[test]
fn local_system_gems_short_circuit_a_global_path() {
    assert_eq!(
        resolve_install_path(
            layer(None, Some(true), None),
            empty(),
            layer(Some("foo"), None, None)
        ),
        None
    );
    assert_eq!(
        resolve_install_policy(
            layer(None, Some(true), None),
            empty(),
            layer(Some("foo"), None, None)
        ),
        Some(policy(None, true))
    );
}

#[test]
fn deployment_falls_back_to_the_vendor_directory() {
    let path = resolve_install_path(layer(None, None, Some(true)), empty(), empty()).unwrap();
    assert!(path.is_absolute());
    assert!(path.ends_with("vendor/bundle"));
    assert_eq!(
        resolve_install_policy(layer(None, None, Some(true)), empty(), empty()),
        Some(policy(Some("vendor/bundle"), false))
    );
}

#[test]
fn a_later_path_wins_over_an_earlier_deployment_flag() {
    let path = resolve_install_path(
        layer(None, None, Some(true)),
        layer(Some("x"), None, None),
        empty(),
    )
    .unwrap();
    assert!(path.is_absolute());
    assert!(path.ends_with("x"));
    assert!(!path.ends_with("vendor/bundle"));
}

#[test]
fn the_first_deployment_flag_is_the_one_recorded() {
    assert_eq!(
        resolve_install_policy(
            layer(None, None, Some(false)),
            layer(None, None, Some(true)),
            empty()
        ),
        Some(policy(None, true))
    );
    assert_eq!(
        resolve_install_policy(
            empty(),
            layer(None, None, Some(true)),
            layer(None, None, Some(false))
        ),
        Some(policy(Some("vendor/bundle"), false))
    );
    assert_eq!(
        resolve_install_policy(empty(), empty(), layer(None, None, Some(true))),
        Some(policy(Some("vendor/bundle"), false))
    );
}

#[test]
fn no_setting_at_all_gives_nothing() {
    assert_eq!(resolve_install_policy(empty(), empty(), empty()), None);
    assert_eq!(resolve_install_path(empty(), empty(), empty()), None);
    assert_eq!(resolve_layers(&Vec::new()), None);
}

#[test]
fn a_layer_decides_from_its_own_two_settings() {
    assert_eq!(layer(Some("p"), None, None).policy(), policy(Some("p"), false));
    assert_eq!(layer(Some("p"), Some(true), None).policy(), policy(Some("p"), true));
    assert_eq!(layer(Some("p"), Some(false), None).policy(), policy(Some("p"), false));
    assert_eq!(layer(None, Some(false), None).policy(), policy(None, false));
    assert_eq!(layer(None, Some(true), None).policy(), policy(None, true));
    assert!(layer(Some("p"), None, None).decides());
    assert!(layer(None, Some(false), None).decides());
    assert!(!layer(None, None, Some(true)).decides());
    assert!(!empty().decides());
}

#[test]
fn a_system_flag_off_without_a_path_uses_the_default_directory() {
    let resolved = resolve_install_policy(layer(None, Some(false), None), empty(), empty()).unwrap();
    assert_eq!(resolved, policy(None, false));
    assert_eq!(resolved.target(), Some(".bundle".to_string()));
    let path = resolved.path().unwrap();
    assert!(path.is_absolute());
    assert!(path.ends_with(".bundle"));
}

#[test]
fn fields_are_not_merged_across_layers() {
    assert_eq!(
        resolve_install_policy(
            layer(Some("local"), None, None),
            layer(None, Some(true), None),
            layer(Some("global"), Some(true), Some(true))
        ),
        Some(policy(Some("local"), false))
    );
    assert_eq!(
        resolve_install_policy(
            empty(),
            layer(None, Some(false), None),
            layer(Some("global"), None, None)
        ),
        Some(policy(None, false))
    );
}

#[test]
fn any_number_of_layers_resolves_by_the_same_rule() {
    let layers = vec![
        layer(None, None, None),
        layer(None, None, Some(false)),
        layer(None, None, Some(true)),
        layer(Some("fourth"), None, None),
        layer(Some("fifth"), Some(true), None),
    ];
    assert_eq!(resolve_layers(&layers), Some(policy(Some("fourth"), false)));
    assert_eq!(resolve_layers(&layers[..3].to_vec()), Some(policy(None, true)));
    assert_eq!(resolve_layers(&layers[..1].to_vec()), None);
}

#[test]
fn targets_follow_the_policy() {
    assert_eq!(policy(Some("foo"), true).target(), None);
    assert_eq!(policy(None, true).target(), None);
    assert_eq!(policy(Some("foo"), false).target(), Some("foo".to_string()));
    assert_eq!(policy(None, false).target(), Some(".bundle".to_string()));
    assert_eq!(policy(Some("foo"), true).path(), None);
    assert_eq!(policy(None, true).path(), None);
}

#[test]
fn an_absolute_target_stays_as_it_is() {
    let path = policy(Some("/opt/gems"), false).path().unwrap();
    assert_eq!(path.as_str(), "/opt/gems");
}

#[test]
fn a_target_that_cannot_be_made_absolute_gives_nothing() {
    assert_eq!(policy(Some(""), false).path(), None);
}

#[test]
fn deployment_fallback_has_two_outcomes() {
    assert_eq!(deployment_fallback(true), policy(Some("vendor/bundle"), false));
    assert_eq!(deployment_fallback(false), policy(None, true));
}

#[test]
fn a_path_that_was_made_becomes_the_install_directory() {
    assert_eq!(
        install_directory(Ok(std::path::PathBuf::from("/opt/gems"))),
        Some(Utf8PathBuf::from("/opt/gems"))
    );
    assert_eq!(
        install_directory(Ok(std::path::PathBuf::from("/work/vendor/bundle"))),
        Some(Utf8PathBuf::from("/work/vendor/bundle"))
    );
}

#[test]
fn a_failure_to_make_the_path_absolute_gives_no_directory() {
    let error = std::io::Error::new(std::io::ErrorKind::NotFound, "no working directory");
    assert_eq!(install_directory(Err(error)), None);
}

#[test]
fn every_install_directory_is_absolute() {
    for target in ["foo", "./foo", "a/b/../c", ".bundle", "vendor/bundle", "/opt/gems", "x/"] {
        let path = policy(Some(target), false).path().unwrap();
        assert!(path.is_absolute());
    }
    assert!(policy(None, false).path().unwrap().is_absolute());
}
