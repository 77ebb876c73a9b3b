//! Layered install-path settings.
//!
//! Three sources may say where installed gems live: the project's own
//! configuration file, the process environment and the user's global
//! configuration file. Each source yields a [`SettingsLayer`]; the layers are
//! consulted in that order, and the first one that says anything about the
//! install path decides alone.

use crate::paths::{absolute, is_absolute_path, is_absolute_utf8_path, utf8_form};
use crate::search::first_match;
use crate::search::lemma_first_index;
use crate::search::lemma_first_index_is;
use crate::search::lemma_first_index_none;
use crate::text::text_of;
use camino::Utf8PathBuf;
use vstd::prelude::*;
use vstd::string::StringExecFns;

verus! {

/// What one configuration source says about the install path. Any subset of
/// the three settings may be present.
#[derive(Debug, Clone, PartialEq, Eq)]
pub struct SettingsLayer {
    /// An explicit install directory.
    pub path: Option<String>,
    /// Whether gems go to the system location.
    pub path_system: Option<bool>,
    /// Whether deployment mode is on.
    pub deployment: Option<bool>,
}

/// The mathematical content of a [`SettingsLayer`].
pub ghost struct LayerView {
    pub path: Option<Seq<char>>,
    pub path_system: Option<bool>,
    pub deployment: Option<bool>,
}

/// The mathematical content of an [`InstallPath`]: the resolved decision.
pub ghost struct InstallPolicy {
    pub use_system_install: bool,
    pub explicit_path: Option<Seq<char>>,
}

impl View for SettingsLayer {
    type V = LayerView;

    open spec fn view(&self) -> LayerView {
        LayerView {
            path: text_of(self.path),
            path_system: self.path_system,
            deployment: self.deployment,
        }
    }
}

impl LayerView {
    /// A layer with no setting at all.
    pub open spec fn empty() -> LayerView {
        LayerView { path: None, path_system: None, deployment: None }
    }

    /// A layer decides the install path as soon as it names a path or says
    /// anything about system gems.
    pub open spec fn decides(self) -> bool {
        self.path is Some || self.path_system is Some
    }

    /// The policy that a deciding layer yields, from its own two settings only:
    /// the system flag if it is present, and otherwise system gems exactly when
    /// no path is named.
    pub open spec fn policy(self) -> InstallPolicy {
        InstallPolicy {
            use_system_install: match self.path_system {
                Some(flag) => flag,
                None => self.path is None,
            },
            explicit_path: self.path,
        }
    }
}

/// The predicate "this layer decides".
pub open spec fn deciding() -> spec_fn(LayerView) -> bool {
    |layer: LayerView| layer.decides()
}

/// The predicate "this layer carries a deployment flag".
pub open spec fn flagged() -> spec_fn(LayerView) -> bool {
    |layer: LayerView| layer.deployment is Some
}

/// The first layer, in order of precedence, that decides the install path.
pub open spec fn deciding_layer(layers: Seq<LayerView>) -> Option<LayerView> {
    first_match(layers, deciding())
}

/// The first deployment flag, in order of precedence, that any layer carries.
pub open spec fn recorded_deployment(layers: Seq<LayerView>) -> Option<bool> {
    match first_match(layers, flagged()) {
        Some(layer) => layer.deployment,
        None => None,
    }
}

/// The directory that deployment mode installs into.
pub open spec fn deployment_directory() -> Seq<char> {
    "vendor/bundle"@
}

/// The policy that a recorded deployment flag stands for when no layer decides.
pub open spec fn deployment_policy(deployment: bool) -> InstallPolicy {
    if deployment {
        InstallPolicy { use_system_install: false, explicit_path: Some(deployment_directory()) }
    } else {
        InstallPolicy { use_system_install: true, explicit_path: None }
    }
}

/// The policy that a list of layers resolves to, most specific layer first.
/// The first deciding layer wins as a whole. Without one, the recorded
/// deployment flag is the fallback, and without that there is no policy.
pub open spec fn resolved_policy(layers: Seq<LayerView>) -> Option<InstallPolicy> {
    match deciding_layer(layers) {
        Some(layer) => Some(layer.policy()),
        None => match recorded_deployment(layers) {
            Some(deployment) => Some(deployment_policy(deployment)),
            None => None,
        },
    }
}

/// The view of an optional policy.
pub open spec fn policy_of(policy: Option<InstallPath>) -> Option<InstallPolicy> {
    match policy {
        Some(policy) => Some(policy@),
        None => None,
    }
}

/// The path that an optional policy asks to make absolute.
pub open spec fn target_of(policy: Option<InstallPolicy>) -> Option<Seq<char>> {
    match policy {
        Some(policy) => policy.target(),
        None => None,
    }
}

/// The views of a list of layers.
pub open spec fn layer_views(layers: Seq<SettingsLayer>) -> Seq<LayerView> {
    layers.map_values(|layer: SettingsLayer| layer@)
}

/// A resolved install-path decision.
#[derive(Debug, Clone, PartialEq, Eq)]
pub struct InstallPath {
    /// The install directory that was asked for, if any.
    pub explicit_path: Option<String>,
    /// Whether gems go to the system location. When set, the explicit path
    /// does not matter.
    pub use_system_gems: bool,
}

impl View for InstallPath {
    type V = InstallPolicy;

    open spec fn view(&self) -> InstallPolicy {
        InstallPolicy {
            use_system_install: self.use_system_gems,
            explicit_path: text_of(self.explicit_path),
        }
    }
}

impl SettingsLayer {
    /// A layer with no setting at all.
    pub fn empty() -> (layer: SettingsLayer)
        ensures
            layer@ == LayerView::empty(),
    {
        SettingsLayer { path: None, path_system: None, deployment: None }
    }

    /// Whether this layer decides the install path.
    pub fn decides(&self) -> (b: bool)
        ensures
            b == self@.decides(),
    {
        self.path.is_some() || self.path_system.is_some()
    }

    /// The policy of this layer taken alone.
    pub fn policy(&self) -> (policy: InstallPath)
        ensures
            policy@ == self@.policy(),
    {
        let explicit_path = match &self.path {
            Some(path) => Some(path.clone()),
            None => None,
        };
        let use_system_gems = match self.path_system {
            Some(flag) => flag,
            None => self.path.is_none(),
        };
        InstallPath { explicit_path, use_system_gems }
    }
}

/// The policy that a recorded deployment flag falls back to.
pub fn deployment_fallback(deployment: bool) -> (policy: InstallPath)
    ensures
        policy@ == deployment_policy(deployment),
{
    if deployment {
        InstallPath {
            explicit_path: Some(String::from_str("vendor/bundle")),
            use_system_gems: false,
        }
    } else {
        InstallPath { explicit_path: None, use_system_gems: true }
    }
}

/// Resolves a list of layers, most specific first, to a policy.
pub fn resolve_layers(layers: &Vec<SettingsLayer>) -> (policy: Option<InstallPath>)
    ensures
        policy_of(policy) == resolved_policy(layer_views(layers@)),
{
    let ghost views = layer_views(layers@);
    let mut use_deployment: Option<bool> = None;
    let ghost mut seen_at: int = 0;
    let mut i: usize = 0;
    while i < layers.len()
        invariant
            i <= layers.len(),
            views == layer_views(layers@),
            forall|j: int| 0 <= j < i ==> !(#[trigger] views[j]).decides(),
            match use_deployment {
                Some(flag) => 0 <= seen_at < i && views[seen_at].deployment == Some(flag)
                    && forall|j: int| 0 <= j < seen_at ==> (#[trigger] views[j]).deployment is None,
                None => forall|j: int| 0 <= j < i ==> (#[trigger] views[j]).deployment is None,
            },
        decreases layers.len() - i,
    {
        let layer = &layers[i];
        assert(views[i as int] == layer@);
        if use_deployment.is_none() {
            use_deployment = layer.deployment;
            proof {
                seen_at = i as int;
            }
        }
        if layer.decides() {
            proof {
                lemma_first_index_is(views, deciding(), i as int);
            }
            return Some(layer.policy());
        }
        i += 1;
    }
    proof {
        lemma_first_index_none(views, deciding());
    }
    match use_deployment {
        Some(deployment) => {
            proof {
                lemma_first_index_is(views, flagged(), seen_at);
            }
            Some(deployment_fallback(deployment))
        },
        None => {
            proof {
                lemma_first_index_none(views, flagged());
            }
            None
        },
    }
}

impl InstallPolicy {
    /// The directory used when gems are not installed to the system location
    /// and no path was asked for.
    pub open spec fn default_directory() -> Seq<char> {
        ".bundle"@
    }

    /// The path that is to be made absolute: none for system gems, else the
    /// explicit path, else the default directory.
    pub open spec fn target(self) -> Option<Seq<char>> {
        if self.use_system_install {
            None
        } else {
            match self.explicit_path {
                Some(path) => Some(path),
                None => Some(Self::default_directory()),
            }
        }
    }
}

impl InstallPath {
    /// The path, as configured, that gems are installed under, or `None` for
    /// the system location.
    pub fn target(&self) -> (target: Option<String>)
        ensures
            text_of(target) == self@.target(),
    {
        if self.use_system_gems {
            return None;
        }
        match &self.explicit_path {
            Some(explicit_path) => Some(explicit_path.clone()),
            None => Some(String::from_str(".bundle")),
        }
    }

    /// The absolute install directory, anchored at the current working
    /// directory, or `None` for the system location.
    ///
    /// A target that cannot be made absolute, or that is not UTF-8 once it is,
    /// degrades to `None` as well. Which absolute path comes back depends on
    /// the working directory at the time of the call; [`install_directory`]
    /// says what becomes of each outcome of making the target absolute.
    pub fn path(&self) -> (path: Option<Utf8PathBuf>)
        ensures
            self@.target() is None ==> path is None,
            self@.target() == Some(Seq::<char>::empty()) ==> path is None,
            path matches Some(directory) ==> is_absolute_utf8_path(directory),
    {
        match self.target() {
            None => None,
            Some(target) => install_directory(absolute(target.as_str())),
        }
    }
}

/// Resolves the three layers of a lookup: the project's file, the process
/// environment, the user's global file. The project's layer is the most
/// specific and the global one the least; a layer that decides hides every
/// layer after it.
pub fn resolve_install_policy(
    local: SettingsLayer,
    env: SettingsLayer,
    global: SettingsLayer,
) -> (policy: Option<InstallPath>)
    ensures
        policy_of(policy) == resolved_policy(seq![local@, env@, global@]),
{
    let mut layers: Vec<SettingsLayer> = Vec::new();
    layers.push(local);
    layers.push(env);
    layers.push(global);
    proof {
        assert(layer_views(layers@) == seq![local@, env@, global@]);
    }
    resolve_layers(&layers)
}

/// The absolute install directory that the three layers resolve to, or `None`
/// where gems go to the system location.
pub fn resolve_install_path(
    local: SettingsLayer,
    env: SettingsLayer,
    global: SettingsLayer,
) -> (path: Option<Utf8PathBuf>)
    ensures
        target_of(resolved_policy(seq![local@, env@, global@])) is None ==> path is None,
        target_of(resolved_policy(seq![local@, env@, global@])) == Some(Seq::<char>::empty())
            ==> path is None,
        path matches Some(directory) ==> is_absolute_utf8_path(directory),
{
    match resolve_install_policy(local, env, global) {
        Some(policy) => policy.path(),
        None => None,
    }
}

/// With three layers the resolution reads: the project's layer if it decides,
/// else the environment's if it decides, else the global one if it decides,
/// else the fallback of the first deployment flag among the three, in that
/// order.
pub proof fn lemma_three_layers(local: LayerView, env: LayerView, global: LayerView)
    ensures
        resolved_policy(seq![local, env, global]) == if local.decides() {
            Some(local.policy())
        } else if env.decides() {
            Some(env.policy())
        } else if global.decides() {
            Some(global.policy())
        } else if local.deployment is Some {
            Some(deployment_policy(local.deployment->0))
        } else if env.deployment is Some {
            Some(deployment_policy(env.deployment->0))
        } else if global.deployment is Some {
            Some(deployment_policy(global.deployment->0))
        } else {
            None
        },
{
    let three = seq![local, env, global];
    lemma_first_index(three, deciding());
    lemma_first_index(three, flagged());
}

/// A policy for system gems never yields an install directory, whatever
/// explicit path it carries.
pub proof fn lemma_system_install_has_no_target(policy: InstallPolicy)
    requires
        policy.use_system_install,
    ensures
        policy.target() is None,
{
}

/// A layer that decides wins as a whole over every layer after it: neither
/// the path nor the system flag of a later layer reaches the result.
pub proof fn lemma_first_deciding_layer_wins(layers: Seq<LayerView>, n: int)
    requires
        0 <= n < layers.len(),
        layers[n].decides(),
        forall|i: int| 0 <= i < n ==> !(#[trigger] layers[i]).decides(),
    ensures
        resolved_policy(layers) == Some(layers[n].policy()),
{
    lemma_first_index_is(layers, deciding(), n);
}

/// Resolving again gives the same policy: any two policies that are
/// resolutions of the same layers agree.
pub proof fn lemma_resolution_is_repeatable(
    layers: Seq<LayerView>,
    first: Option<InstallPath>,
    second: Option<InstallPath>,
)
    requires
        policy_of(first) == resolved_policy(layers),
        policy_of(second) == resolved_policy(layers),
    ensures
        policy_of(first) == policy_of(second),
        target_of(policy_of(first)) == target_of(policy_of(second)),
{
}

/// What comes of an attempt to make the target absolute: the UTF-8 form of
/// the path that was made, and nothing where the attempt failed or the path
/// is not valid UTF-8.
pub open spec fn directory_of(
    made_absolute: Result<std::path::PathBuf, std::io::Error>,
) -> Option<Utf8PathBuf> {
    match made_absolute {
        Ok(base_path) => utf8_form(base_path),
        Err(_) => None,
    }
}

/// The install directory for the outcome of making the target absolute. A
/// failure to make it absolute is not an error of the lookup: it degrades to
/// no directory, as a path that is not valid UTF-8 does.
pub fn install_directory(made_absolute: Result<std::path::PathBuf, std::io::Error>) -> (path:
    Option<Utf8PathBuf>)
    ensures
        path == directory_of(made_absolute),
        path matches Some(directory) ==> made_absolute matches Ok(base_path)
            && is_absolute_utf8_path(directory) == is_absolute_path(base_path),
{
    match made_absolute {
        Ok(base_path) => Utf8PathBuf::from_path_buf(base_path).ok(),
        Err(_) => None,
    }
}

} // verus!
