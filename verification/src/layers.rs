//! The layered configuration store: which files of a scope count and in what
//! order, how the scopes compose into one snapshot, the runtime overlay, and
//! where a patch of a scope is written.

use vstd::prelude::*;
use crate::config::{Config, ConfigView, ModelRole, ModelTarget, Scope, absent_config,
    initial_config, merge, merge_spec, pick_model_spec};
use crate::paths::{PathSet, extension, extension_chars, join_path, joined, strictly_sorted};
use crate::strmap::DeepClone;
use crate::text::{chars_of, str_eq, text_of};

verus! {

/// How many snapshots the channel that broadcasts them holds before a
/// subscriber that lags starts to miss intermediate ones.
pub const BROADCAST_CAPACITY: usize = 64;

/// Whether a file of this name is read as a configuration or rule file: its
/// extension is `yaml`, `yml` or `toml`.
pub open spec fn recognized_file(name: Seq<char>) -> bool {
    let e = extension(name);
    e == "yaml"@ || e == "yml"@ || e == "toml"@
}

pub fn is_recognized_file(name: &str) -> (r: bool)
    ensures
        r == recognized_file(name@),
{
    let e = text_of(&extension_chars(&chars_of(name)));
    str_eq(e.as_str(), "yaml") || str_eq(e.as_str(), "yml") || str_eq(e.as_str(), "toml")
}

/// The names among `names` that have a recognized extension, in the order of
/// `names`.
pub open spec fn recognized_names(names: Seq<Seq<char>>) -> Seq<Seq<char>> {
    names.filter(|n: Seq<char>| recognized_file(n))
}

/// The files of one directory that are read, in the order in which they are
/// read: those with a recognized extension, in path order, each once.
pub fn load_order(names: &Vec<String>) -> (r: Vec<String>)
    ensures
        strictly_sorted(r.deep_view()),
        forall|n: Seq<char>|
            r.deep_view().contains(n) <==> recognized_names(names.deep_view()).contains(n),
{
    let mut kept: Vec<String> = Vec::new();
    let mut i: usize = 0;
    proof {
        reveal(Seq::filter);
        assert(names.deep_view().take(0) =~= Seq::<Seq<char>>::empty());
        assert(kept.deep_view() =~= Seq::<Seq<char>>::empty());
    }
    while i < names.len()
        invariant
            i <= names.len(),
            kept.deep_view() == recognized_names(names.deep_view().take(i as int)),
        decreases names.len() - i,
    {
        let ghost before = kept.deep_view();
        let ghost cur = names.deep_view()[i as int];
        if is_recognized_file(names[i].as_str()) {
            kept.push(names[i].clone());
            assert(kept.deep_view() =~= before.push(cur));
        }
        proof {
            reveal(Seq::filter);
            let hi = names.deep_view().take(i + 1);
            assert(hi.drop_last() =~= names.deep_view().take(i as int));
            assert(hi.last() == cur);
        }
        i += 1;
    }
    assert(names.deep_view().take(names.len() as int) =~= names.deep_view());
    let set = PathSet::from_paths(&kept);
    set.paths().deep_clone()
}

/// The layers of `layers` merged one after another over `acc`.
pub open spec fn fold_layers(acc: ConfigView, layers: Seq<ConfigView>) -> ConfigView
    decreases layers.len(),
{
    if layers.len() == 0 {
        acc
    } else {
        merge_spec(fold_layers(acc, layers.drop_last()), layers.last())
    }
}

/// The snapshot that the scopes compose: the files of the system scope, then
/// those of the user scope, then those of the workspace scope, each in load
/// order, and the runtime overlay last.
pub open spec fn compose_spec(
    system: Seq<ConfigView>,
    user: Seq<ConfigView>,
    workspace: Seq<ConfigView>,
    runtime: ConfigView,
) -> ConfigView {
    merge_spec(
        fold_layers(fold_layers(fold_layers(initial_config(), system), user), workspace),
        runtime,
    )
}

/// Merges each of `layers` over `acc`, in order.
pub fn merge_all(acc: &mut Config, layers: &Vec<Config>)
    ensures
        final(acc)@ == fold_layers(old(acc)@, layers.deep_view()),
{
    let mut i: usize = 0;
    assert(layers.deep_view().take(0) =~= Seq::<ConfigView>::empty());
    while i < layers.len()
        invariant
            i <= layers.len(),
            acc@ == fold_layers(old(acc)@, layers.deep_view().take(i as int)),
        decreases layers.len() - i,
    {
        merge(acc, &layers[i]);
        proof {
            let dv = layers.deep_view();
            assert(dv.take(i + 1).drop_last() =~= dv.take(i as int));
            assert(dv.take(i + 1).last() == layers@[i as int]@);
        }
        i += 1;
    }
    assert(layers.deep_view().take(layers.len() as int) =~= layers.deep_view());
}

/// Composes the scopes into one snapshot.
pub fn compose(
    system: &Vec<Config>,
    user: &Vec<Config>,
    workspace: &Vec<Config>,
    runtime: &Config,
) -> (r: Config)
    ensures
        r@ == compose_spec(system.deep_view(), user.deep_view(), workspace.deep_view(), runtime@),
{
    let mut acc = Config::default();
    merge_all(&mut acc, system);
    merge_all(&mut acc, user);
    merge_all(&mut acc, workspace);
    merge(&mut acc, runtime);
    acc
}

/// With one file per scope, the value of the highest scope that sets a
/// threshold is the one in force: runtime over workspace over user over
/// system.
pub proof fn lemma_scope_precedence(
    system: ConfigView,
    user: ConfigView,
    workspace: ConfigView,
    runtime: ConfigView,
)
    ensures
        ({
            let c = compose_spec(seq![system], seq![user], seq![workspace], runtime);
            let rt = runtime.compact.max_files;
            let ws = workspace.compact.max_files;
            let us = user.compact.max_files;
            let sy = system.compact.max_files;
            &&& rt != 0 ==> c.compact.max_files == rt
            &&& rt == 0 && ws != 0 ==> c.compact.max_files == ws
            &&& rt == 0 && ws == 0 && us != 0 ==> c.compact.max_files == us
            &&& rt == 0 && ws == 0 && us == 0 && sy != 0 ==> c.compact.max_files == sy
        }),
{
    reveal_with_fuel(fold_layers, 2);
    let i = initial_config();
    assert(seq![system].drop_last() =~= Seq::<ConfigView>::empty());
    assert(seq![user].drop_last() =~= Seq::<ConfigView>::empty());
    assert(seq![workspace].drop_last() =~= Seq::<ConfigView>::empty());
    assert(fold_layers(i, seq![system]) == merge_spec(i, system));
    let a = merge_spec(i, system);
    assert(fold_layers(a, seq![user]) == merge_spec(a, user));
    let b = merge_spec(a, user);
    assert(fold_layers(b, seq![workspace]) == merge_spec(b, workspace));
}

/// With one file per scope, a role's override of the highest scope that has
/// one is the model picked for the role, and the default target of the
/// highest scope that names one is picked for a role without override.
pub proof fn lemma_scope_routing(
    system: ConfigView,
    user: ConfigView,
    workspace: ConfigView,
    runtime: ConfigView,
    role: ModelRole,
)
    ensures
        ({
            let c = compose_spec(seq![system], seq![user], seq![workspace], runtime);
            let k = role.key_spec();
            &&& runtime.models.overrides.contains_key(k) ==> pick_model_spec(c, role)
                == runtime.models.overrides[k]
            &&& !runtime.models.overrides.contains_key(k) && workspace.models.overrides.contains_key(
                k,
            ) ==> pick_model_spec(c, role) == workspace.models.overrides[k]
            &&& !runtime.models.overrides.contains_key(k) && !workspace.models.overrides.contains_key(
                k,
            ) && user.models.overrides.contains_key(k) ==> pick_model_spec(c, role)
                == user.models.overrides[k]
            &&& !runtime.models.overrides.contains_key(k) && !workspace.models.overrides.contains_key(
                k,
            ) && !user.models.overrides.contains_key(k) && !system.models.overrides.contains_key(k)
                && runtime.models.default.name.len() == 0 && workspace.models.default.name.len()
                == 0 && user.models.default.name.len() == 0 && system.models.default.name.len() > 0
                ==> pick_model_spec(c, role) == system.models.default
        }),
{
    reveal_with_fuel(fold_layers, 2);
    let i = initial_config();
    assert(seq![system].drop_last() =~= Seq::<ConfigView>::empty());
    assert(seq![user].drop_last() =~= Seq::<ConfigView>::empty());
    assert(seq![workspace].drop_last() =~= Seq::<ConfigView>::empty());
    assert(fold_layers(i, seq![system]) == merge_spec(i, system));
    let a = merge_spec(i, system);
    assert(fold_layers(a, seq![user]) == merge_spec(a, user));
    let b = merge_spec(a, user);
    assert(fold_layers(b, seq![workspace]) == merge_spec(b, workspace));
}

/// Why a configuration operation was refused.
#[derive(Clone, Copy, Debug, PartialEq, Eq, Structural)]
pub enum ConfigError {
    /// The runtime scope lives in memory only and is never written.
    RuntimeNotPersisted,
}

impl ConfigError {
    pub fn message(&self) -> (r: String)
        ensures
            r@ == "runtime scope is not persisted"@,
    {
        "runtime scope is not persisted".to_owned()
    }
}

/// The directories of the three scopes that live on disk.
#[derive(Debug)]
pub struct ScopeDirs {
    pub system: String,
    pub user: String,
    pub workspace: String,
}

/// The name of the file that a patch is written to where the caller names
/// none.
pub open spec fn default_patch_name() -> Seq<char> {
    "99-runtime.yaml"@
}

impl ScopeDirs {
    /// The directory of a scope; the runtime scope has none.
    pub open spec fn dir_spec(&self, scope: Scope) -> Option<Seq<char>> {
        match scope {
            Scope::System => Some(self.system@),
            Scope::User => Some(self.user@),
            Scope::Workspace => Some(self.workspace@),
            Scope::Runtime => None,
        }
    }

    /// The file that a patch of `scope` is written to: `name`, or the default
    /// name, inside the scope's directory. The runtime scope is refused.
    pub fn patch_file(&self, scope: Scope, name: Option<&str>) -> (r: Result<String, ConfigError>)
        ensures
            match r {
                Ok(path) => self.dir_spec(scope) is Some && path@ == joined(
                    self.dir_spec(scope)->0,
                    match name {
                        Some(n) => n@,
                        None => default_patch_name(),
                    },
                ),
                Err(e) => scope == Scope::Runtime && e == ConfigError::RuntimeNotPersisted,
            },
    {
        let dir: &String = match scope {
            Scope::System => &self.system,
            Scope::User => &self.user,
            Scope::Workspace => &self.workspace,
            Scope::Runtime => {
                return Err(ConfigError::RuntimeNotPersisted);
            },
        };
        let file: &str = match name {
            Some(n) => n,
            None => "99-runtime.yaml",
        };
        Ok(join_path(dir.as_str(), file))
    }
}

/// The state of the configuration store: the files of each scope as they were
/// last read, the runtime overlay, and the snapshot they compose.
#[derive(Debug)]
pub struct ConfigManager {
    system: Vec<Config>,
    user: Vec<Config>,
    workspace: Vec<Config>,
    runtime_overlay: Config,
    current: Config,
}

impl ConfigManager {
    pub closed spec fn system_layers(&self) -> Seq<ConfigView> {
        self.system.deep_view()
    }

    pub closed spec fn user_layers(&self) -> Seq<ConfigView> {
        self.user.deep_view()
    }

    pub closed spec fn workspace_layers(&self) -> Seq<ConfigView> {
        self.workspace.deep_view()
    }

    pub closed spec fn overlay_view(&self) -> ConfigView {
        self.runtime_overlay@
    }

    /// The snapshot in force.
    pub closed spec fn snapshot(&self) -> ConfigView {
        self.current@
    }

    /// The snapshot in force is the one that the layers compose.
    pub open spec fn wf(&self) -> bool {
        self.snapshot() == compose_spec(
            self.system_layers(),
            self.user_layers(),
            self.workspace_layers(),
            self.overlay_view(),
        )
    }

    /// A store without any file and with an overlay that sets nothing.
    pub fn new() -> (r: ConfigManager)
        ensures
            r.wf(),
            r.system_layers() == Seq::<ConfigView>::empty(),
            r.user_layers() == Seq::<ConfigView>::empty(),
            r.workspace_layers() == Seq::<ConfigView>::empty(),
            r.overlay_view() == absent_config(),
    {
        let system: Vec<Config> = Vec::new();
        let user: Vec<Config> = Vec::new();
        let workspace: Vec<Config> = Vec::new();
        let runtime_overlay = Config::empty();
        let current = compose(&system, &user, &workspace, &runtime_overlay);
        assert(system.deep_view() =~= Seq::<ConfigView>::empty());
        assert(user.deep_view() =~= Seq::<ConfigView>::empty());
        assert(workspace.deep_view() =~= Seq::<ConfigView>::empty());
        ConfigManager { system, user, workspace, runtime_overlay, current }
    }

    /// Takes the files of the three scopes as they were just read, each list
    /// in load order, and composes the new snapshot. The overlay stays.
    pub fn reload_all(&mut self, system: Vec<Config>, user: Vec<Config>, workspace: Vec<Config>) -> (r:
        Config)
        ensures
            final(self).wf(),
            final(self).system_layers() == system.deep_view(),
            final(self).user_layers() == user.deep_view(),
            final(self).workspace_layers() == workspace.deep_view(),
            final(self).overlay_view() == old(self).overlay_view(),
            r@ == final(self).snapshot(),
    {
        self.current = compose(&system, &user, &workspace, &self.runtime_overlay);
        self.system = system;
        self.user = user;
        self.workspace = workspace;
        self.current.deep_clone()
    }

    /// The snapshot in force.
    pub fn get(&self) -> (r: Config)
        ensures
            r@ == self.snapshot(),
    {
        self.current.deep_clone()
    }

    /// Merges `patch` into the runtime overlay and composes the new snapshot,
    /// so that the lower layers still count. Nothing is written anywhere.
    pub fn apply_runtime_overlay(&mut self, patch: &Config) -> (r: Config)
        ensures
            final(self).wf(),
            final(self).overlay_view() == merge_spec(old(self).overlay_view(), patch@),
            final(self).system_layers() == old(self).system_layers(),
            final(self).user_layers() == old(self).user_layers(),
            final(self).workspace_layers() == old(self).workspace_layers(),
            r@ == final(self).snapshot(),
    {
        merge(&mut self.runtime_overlay, patch);
        self.current = compose(&self.system, &self.user, &self.workspace, &self.runtime_overlay);
        self.current.deep_clone()
    }

    /// Chooses the model target for `role` in the snapshot in force.
    pub fn pick_model(&self, role: ModelRole) -> (r: ModelTarget)
        ensures
            r@ == pick_model_spec(self.snapshot(), role),
    {
        self.current.pick_model(role)
    }
}

} // verus!
