//! Bundler-compatible settings, read from configuration files and from the
//! process environment.
//!
//! Reading the files and the environment is the caller's part. This module
//! takes the text of each `.bundle/config` file and a snapshot of the
//! environment, and decides what they say.

use crate::environment::env_string;
use crate::environment::lookup;
use crate::environment::Environment;
use crate::environment::EnvironmentView;
use crate::paths::join;
use crate::paths::joined_path;
use crate::settings::policy_of;
use crate::settings::resolve_install_policy;
use crate::settings::resolved_policy;
use crate::settings::target_of;
use crate::settings::InstallPath;
use crate::settings::InstallPolicy;
use crate::settings::LayerView;
use crate::settings::SettingsLayer;
use crate::text::owned_text;
use crate::text::push_char;
use crate::text::same_text;
use crate::text::slice_text_of;
use crate::text::text_of;
use crate::text::to_uppercase;
use crate::text::uppercase;
use crate::yaml::as_bool;
use crate::yaml::as_str;
use crate::yaml::child;
use crate::yaml::contains_mapping_key;
use crate::yaml::is_mapping;
use crate::yaml::load_from_str;
use crate::yaml::node_as_flag;
use crate::yaml::node_as_text;
use crate::yaml::node_child;
use crate::yaml::node_has_key;
use crate::yaml::node_is_mapping;
use crate::yaml::parsed_documents;
use camino::Utf8PathBuf;
use saphyr::Yaml;
use vstd::prelude::*;
use vstd::string::StringExecFns;

verus! {

/// A boolean setting read from a variable's text: `true` for the text `true`,
/// `false` for every other text.
pub open spec fn flag_of_text(text: Seq<char>) -> bool {
    text == "true"@
}

/// The boolean setting that the variable `key` holds, if the variable is set.
pub open spec fn env_flag(env: EnvironmentView, key: Seq<char>) -> Option<bool> {
    match env_string(env, key) {
        Some(text) => Some(flag_of_text(text)),
        None => None,
    }
}

/// The string that a settings document holds under `key`.
pub open spec fn file_string(settings: Yaml<'static>, key: Seq<char>) -> Option<Seq<char>> {
    if node_has_key(settings, key) {
        node_as_text(node_child(settings, key))
    } else {
        None
    }
}

/// The boolean that a settings document holds under `key`.
pub open spec fn file_flag(settings: Yaml<'static>, key: Seq<char>) -> Option<bool> {
    if node_has_key(settings, key) {
        node_as_flag(node_child(settings, key))
    } else {
        None
    }
}

/// The name of the path setting.
pub open spec fn path_key() -> Seq<char> {
    "BUNDLE_PATH"@
}

/// The name of the system-gems setting.
pub open spec fn path_system_key() -> Seq<char> {
    "BUNDLE_PATH__SYSTEM"@
}

/// The name of the deployment setting.
pub open spec fn deployment_key() -> Seq<char> {
    "BUNDLE_DEPLOYMENT"@
}

/// The layer that a settings document stands for. No document is an empty
/// layer.
pub open spec fn file_layer(settings: Option<Yaml<'static>>) -> LayerView {
    match settings {
        Some(settings) => LayerView {
            path: file_string(settings, path_key()),
            path_system: file_flag(settings, path_system_key()),
            deployment: file_flag(settings, deployment_key()),
        },
        None => LayerView::empty(),
    }
}

/// The layer that the environment stands for.
pub open spec fn env_layer(env: EnvironmentView) -> LayerView {
    LayerView {
        path: env_string(env, path_key()),
        path_system: env_flag(env, path_system_key()),
        deployment: env_flag(env, deployment_key()),
    }
}

/// The settings document of a configuration text: its first document, if the
/// text is well-formed, has a document and that document is a mapping.
pub open spec fn settings_document(docs: Option<Seq<Yaml<'static>>>) -> Option<Yaml<'static>> {
    match docs {
        Some(docs) => if docs.len() > 0 && node_is_mapping(docs[0]) {
            Some(docs[0])
        } else {
            None
        },
        None => None,
    }
}

/// The settings document of a configuration file that may not exist.
pub open spec fn settings_of(content: Option<Seq<char>>) -> Option<Yaml<'static>> {
    match content {
        Some(content) => settings_document(parsed_documents(content)),
        None => None,
    }
}

/// Each `.` of a text replaced by `__`.
pub open spec fn dots_doubled(text: Seq<char>) -> Seq<char>
    decreases text.len(),
{
    if text.len() == 0 {
        Seq::empty()
    } else if text.last() == '.' {
        dots_doubled(text.drop_last()) + seq!['_', '_']
    } else {
        dots_doubled(text.drop_last()).push(text.last())
    }
}

/// The name of the setting that holds the credentials for `host`.
pub open spec fn token_key(host: Seq<char>) -> Seq<char> {
    "BUNDLE_"@ + dots_doubled(uppercase(host))
}

/// The value of the variable `key` in an environment snapshot.
pub fn get_string_env_config(env: &Environment, key: &str) -> (value: Option<String>)
    ensures
        text_of(value) == env_string(env.deep_view(), key@),
{
    lookup(env, key)
}

/// The boolean setting that the variable `key` holds in an environment
/// snapshot. A value that is not a boolean counts as `false`.
pub fn get_bool_env_config(env: &Environment, key: &str) -> (value: Option<bool>)
    ensures
        value == env_flag(env.deep_view(), key@),
{
    match get_string_env_config(env, key) {
        Some(text) => Some(same_text(text.as_str(), "true")),
        None => None,
    }
}

/// The string that a settings document holds under `key`.
pub fn get_string_file_config(settings: &Yaml<'static>, key: &str) -> (value: Option<String>)
    ensures
        text_of(value) == file_string(*settings, key@),
{
    if contains_mapping_key(settings, key) {
        owned_text(as_str(child(settings, key)))
    } else {
        None
    }
}

/// The boolean that a settings document holds under `key`.
pub fn get_bool_file_config(settings: &Yaml<'static>, key: &str) -> (value: Option<bool>)
    ensures
        value == file_flag(*settings, key@),
{
    if contains_mapping_key(settings, key) {
        as_bool(child(settings, key))
    } else {
        None
    }
}

/// Where the configuration file of a directory lies: the file `config` in its
/// directory `.bundle`.
pub fn config_file_for(dir: &str) -> (file: String)
    ensures
        file@ == joined_path(dir@, ".bundle/config"@),
{
    join(dir, ".bundle/config")
}

/// The settings document among the documents of a configuration file.
pub fn first_mapping(docs: Vec<Yaml<'static>>) -> (settings: Option<Yaml<'static>>)
    ensures
        settings == settings_document(Some(docs@)),
{
    let mut docs = docs;
    if docs.len() == 0 {
        return None;
    }
    let settings = docs.swap_remove(0);
    if !is_mapping(&settings) {
        return None;
    }
    Some(settings)
}

/// The settings document of the text of a configuration file. A text that is
/// not well-formed or whose first document is no mapping gives no settings.
pub fn config_for_content(content: &str) -> (settings: Option<Yaml<'static>>)
    ensures
        settings == settings_document(parsed_documents(content@)),
{
    match load_from_str(content) {
        Ok(docs) => first_mapping(docs),
        Err(_) => None,
    }
}

/// Each `.` of a text replaced by `__`.
pub fn double_dots(text: &str) -> (doubled: String)
    ensures
        doubled@ == dots_doubled(text@),
{
    broadcast use vstd::string::group_string_axioms;

    let mut doubled = String::new();
    for c in it: text.chars()
        invariant
            it.seq() == text@,
            doubled@ == dots_doubled(text@.take(it.index())),
    {
        proof {
            assert(text@.take(it.index() + 1).drop_last() == text@.take(it.index()));
            assert(text@.take(it.index() + 1).last() == c);
        }
        if c == '.' {
            push_char(&mut doubled, '_');
            push_char(&mut doubled, '_');
            assert(doubled@ == dots_doubled(text@.take(it.index())) + seq!['_', '_']);
        } else {
            push_char(&mut doubled, c);
        }
    }
    proof {
        assert(text@.take(text@.len() as int) == text@);
    }
    doubled
}

/// The name of the setting that holds the credentials for `host`.
pub fn token_key_for(host: &str) -> (key: String)
    ensures
        key@ == token_key(host@),
{
    let upper = to_uppercase(host);
    let doubled = double_dots(upper.as_str());
    String::from_str("BUNDLE_").concat(doubled.as_str())
}

/// The Bundler settings of one lookup: the project's configuration document
/// and the user's global one.
#[derive(Debug, Clone)]
pub struct BundlerSettings {
    /// Project specific Bundler configuration, if any.
    pub local: Option<Yaml<'static>>,
    /// Global Bundler configuration, if any.
    pub global: Option<Yaml<'static>>,
}

impl BundlerSettings {
    /// The credentials that these settings and the environment hold for
    /// `host`: the project's, else the environment's, else the global ones.
    pub open spec fn token(self, host: Seq<char>, env: EnvironmentView) -> Option<Seq<char>> {
        let key = token_key(host);
        let local = match self.local {
            Some(settings) => file_string(settings, key),
            None => None,
        };
        let global = match self.global {
            Some(settings) => file_string(settings, key),
            None => None,
        };
        if local is Some {
            local
        } else if env_string(env, key) is Some {
            env_string(env, key)
        } else {
            global
        }
    }

    /// The install policy that these settings and the environment resolve to.
    pub open spec fn policy(self, env: EnvironmentView) -> Option<InstallPolicy> {
        resolved_policy(seq![file_layer(self.local), env_layer(env), file_layer(self.global)])
    }

    /// The settings held by the text of the user's configuration file and of
    /// the project's, where each file exists.
    pub fn new(home_config: Option<&str>, project_config: Option<&str>) -> (settings: Self)
        ensures
            settings.local == settings_of(slice_text_of(project_config)),
            settings.global == settings_of(slice_text_of(home_config)),
    {
        let local = match project_config {
            Some(content) => config_for_content(content),
            None => None,
        };
        let global = match home_config {
            Some(content) => config_for_content(content),
            None => None,
        };
        Self { local, global }
    }

    /// The credentials configured for `host`.
    pub fn token_for(&self, host: &str, env: &Environment) -> (token: Option<String>)
        ensures
            text_of(token) == self.token(host@, env.deep_view()),
    {
        let key = token_key_for(host);
        let local = match &self.local {
            Some(settings) => get_string_file_config(settings, key.as_str()),
            None => None,
        };
        if local.is_some() {
            return local;
        }
        let from_env = get_string_env_config(env, key.as_str());
        if from_env.is_some() {
            return from_env;
        }
        match &self.global {
            Some(settings) => get_string_file_config(settings, key.as_str()),
            None => None,
        }
    }

    /// The install policy that these settings and the environment resolve to,
    /// or `None` where no layer says anything.
    pub fn install_policy(&self, env: &Environment) -> (policy: Option<InstallPath>)
        ensures
            policy_of(policy) == self.policy(env.deep_view()),
    {
        let local = self.local_path_config();
        let env = Self::env_path_config(env);
        let global = self.global_path_config();
        resolve_install_policy(local, env, global)
    }

    /// The absolute install directory, or `None` where gems go to the system
    /// location.
    pub fn path(&self, env: &Environment) -> (path: Option<Utf8PathBuf>)
        ensures
            target_of(self.policy(env.deep_view())) is None ==> path is None,
            target_of(self.policy(env.deep_view())) == Some(Seq::<char>::empty()) ==> path
                is None,
            path matches Some(directory) ==> crate::paths::is_absolute_utf8_path(directory),
    {
        match self.install_policy(env) {
            Some(install_path) => install_path.path(),
            None => None,
        }
    }

    /// The layer of the project's configuration.
    pub fn local_path_config(&self) -> (layer: SettingsLayer)
        ensures
            layer@ == file_layer(self.local),
    {
        Self::path_config(&self.local)
    }

    /// The layer of the environment.
    pub fn env_path_config(env: &Environment) -> (layer: SettingsLayer)
        ensures
            layer@ == env_layer(env.deep_view()),
    {
        SettingsLayer {
            path: get_string_env_config(env, "BUNDLE_PATH"),
            path_system: get_bool_env_config(env, "BUNDLE_PATH__SYSTEM"),
            deployment: get_bool_env_config(env, "BUNDLE_DEPLOYMENT"),
        }
    }

    /// The layer of the user's global configuration.
    pub fn global_path_config(&self) -> (layer: SettingsLayer)
        ensures
            layer@ == file_layer(self.global),
    {
        Self::path_config(&self.global)
    }

    /// The layer that a settings document stands for.
    pub fn path_config(settings: &Option<Yaml<'static>>) -> (layer: SettingsLayer)
        ensures
            layer@ == file_layer(*settings),
    {
        match settings {
            Some(settings) => SettingsLayer {
                path: get_string_file_config(settings, "BUNDLE_PATH"),
                path_system: get_bool_file_config(settings, "BUNDLE_PATH__SYSTEM"),
                deployment: get_bool_file_config(settings, "BUNDLE_DEPLOYMENT"),
            },
            None => SettingsLayer::empty(),
        }
    }
}

/// Looking the settings up again, with files and environment unchanged, gives
/// the same answers: the settings are a function of the two texts, and policy
/// and credentials are functions of the settings and the environment.
pub proof fn lemma_lookup_is_repeatable(
    home_config: Option<Seq<char>>,
    project_config: Option<Seq<char>>,
    env: EnvironmentView,
    host: Seq<char>,
    first: BundlerSettings,
    second: BundlerSettings,
)
    requires
        first.local == settings_of(project_config),
        first.global == settings_of(home_config),
        second.local == settings_of(project_config),
        second.global == settings_of(home_config),
    ensures
        first == second,
        first.policy(env) == second.policy(env),
        target_of(first.policy(env)) == target_of(second.policy(env)),
        first.token(host, env) == second.token(host, env),
{
}

} // verus!
