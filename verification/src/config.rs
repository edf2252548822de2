//! The configuration value and how layers of it merge.
//!
//! A configuration is an immutable snapshot. Four scopes contribute to it, in
//! rising precedence: system, user, workspace and the runtime overlay that
//! lives in memory only.

use vstd::prelude::*;
use crate::strmap::{DeepClone, StrMap};

verus! {

/// Purpose for which a model target is selected.
#[derive(Clone, Copy, Debug, PartialEq, Eq, Structural)]
pub enum ModelRole {
    Chat,
    Title,
    SessionName,
    Compact,
    MetaPrompt,
    TaskStatus,
}

impl ModelRole {
    /// The lower-snake-case key under which a role's override is stored.
    pub open spec fn key_spec(self) -> Seq<char> {
        match self {
            ModelRole::Chat => "chat"@,
            ModelRole::Title => "title"@,
            ModelRole::SessionName => "session_name"@,
            ModelRole::Compact => "compact"@,
            ModelRole::MetaPrompt => "meta_prompt"@,
            ModelRole::TaskStatus => "task_status"@,
        }
    }

    pub fn key(&self) -> (k: &'static str)
        ensures
            k@ == self.key_spec(),
    {
        match self {
            ModelRole::Chat => "chat",
            ModelRole::Title => "title",
            ModelRole::SessionName => "session_name",
            ModelRole::Compact => "compact",
            ModelRole::MetaPrompt => "meta_prompt",
            ModelRole::TaskStatus => "task_status",
        }
    }
}

/// One of the four configuration layers, lowest precedence first.
#[derive(Clone, Copy, Debug, PartialEq, Eq, Structural)]
pub enum Scope {
    System,
    User,
    Workspace,
    Runtime,
}

impl Scope {
    /// The place of a scope in the precedence order.
    pub open spec fn rank(self) -> int {
        match self {
            Scope::System => 0,
            Scope::User => 1,
            Scope::Workspace => 2,
            Scope::Runtime => 3,
        }
    }

    /// Whether a layer of this scope overrides a layer of `other`.
    pub fn overrides(&self, other: &Scope) -> (r: bool)
        ensures
            r == (self.rank() > other.rank()),
    {
        let a: u8 = match self {
            Scope::System => 0,
            Scope::User => 1,
            Scope::Workspace => 2,
            Scope::Runtime => 3,
        };
        let b: u8 = match other {
            Scope::System => 0,
            Scope::User => 1,
            Scope::Workspace => 2,
            Scope::Runtime => 3,
        };
        a > b
    }
}

/// When a shell command needs approval.
#[derive(Clone, Copy, Debug, PartialEq, Eq, Structural)]
pub enum ApprovalMode {
    OnRequest,
    OnFailure,
    UnlessTrusted,
    Never,
}

impl Default for ApprovalMode {
    fn default() -> (r: ApprovalMode)
        ensures
            r == ApprovalMode::OnRequest,
    {
        ApprovalMode::OnRequest
    }
}

/// A concrete model endpoint. An empty `name` stands for "absent".
#[derive(Debug)]
pub struct ModelTarget {
    pub name: String,
    pub base_url: Option<String>,
    pub api_key_env: Option<String>,
    pub api_token_env: Option<String>,
    pub extra_headers: StrMap<String>,
}

pub ghost struct ModelTargetView {
    pub name: Seq<char>,
    pub base_url: Option<Seq<char>>,
    pub api_key_env: Option<Seq<char>>,
    pub api_token_env: Option<Seq<char>>,
    pub extra_headers: Map<Seq<char>, Seq<char>>,
}

impl DeepView for ModelTarget {
    type V = ModelTargetView;

    open spec fn deep_view(&self) -> ModelTargetView {
        ModelTargetView {
            name: self.name@,
            base_url: self.base_url.deep_view(),
            api_key_env: self.api_key_env.deep_view(),
            api_token_env: self.api_token_env.deep_view(),
            extra_headers: self.extra_headers@,
        }
    }
}

impl View for ModelTarget {
    type V = ModelTargetView;

    open spec fn view(&self) -> ModelTargetView {
        self.deep_view()
    }
}

impl DeepClone for ModelTarget {
    fn deep_clone(&self) -> (r: ModelTarget) {
        ModelTarget {
            name: self.name.clone(),
            base_url: self.base_url.deep_clone(),
            api_key_env: self.api_key_env.deep_clone(),
            api_token_env: self.api_token_env.deep_clone(),
            extra_headers: self.extra_headers.deep_clone(),
        }
    }
}

impl Clone for ModelTarget {
    fn clone(&self) -> (r: ModelTarget)
        ensures
            r@ == self@,
    {
        self.deep_clone()
    }
}

impl ModelTarget {
    /// The absent target: no name, no endpoint, no headers.
    pub open spec fn absent() -> ModelTargetView {
        ModelTargetView {
            name: Seq::empty(),
            base_url: None,
            api_key_env: None,
            api_token_env: None,
            extra_headers: Map::empty(),
        }
    }

    /// A target with the given name and nothing else.
    pub fn named(name: String) -> (r: ModelTarget)
        ensures
            r@ == (ModelTargetView { name: name@, ..ModelTarget::absent() }),
    {
        ModelTarget {
            name,
            base_url: None,
            api_key_env: None,
            api_token_env: None,
            extra_headers: StrMap::new(),
        }
    }
}

impl Default for ModelTarget {
    fn default() -> (r: ModelTarget)
        ensures
            r@ == ModelTarget::absent(),
    {
        ModelTarget::named(String::new())
    }
}

/// The early, minimal model settings.
#[derive(Debug)]
pub struct ModelConfig {
    pub name: Option<String>,
    pub reasoning_effort: Option<String>,
    pub reasoning_summary: Option<String>,
}

pub ghost struct ModelConfigView {
    pub name: Option<Seq<char>>,
    pub reasoning_effort: Option<Seq<char>>,
    pub reasoning_summary: Option<Seq<char>>,
}

impl DeepView for ModelConfig {
    type V = ModelConfigView;

    open spec fn deep_view(&self) -> ModelConfigView {
        ModelConfigView {
            name: self.name.deep_view(),
            reasoning_effort: self.reasoning_effort.deep_view(),
            reasoning_summary: self.reasoning_summary.deep_view(),
        }
    }
}

impl Default for ModelConfig {
    fn default() -> (r: ModelConfig)
        ensures
            r.deep_view() == (ModelConfigView {
                name: None,
                reasoning_effort: None,
                reasoning_summary: None,
            }),
    {
        ModelConfig { name: None, reasoning_effort: None, reasoning_summary: None }
    }
}

/// Model routing: the default target, the targets of single roles, and the
/// named profiles that tasks refer to.
#[derive(Debug)]
pub struct ModelsConfig {
    pub default: ModelTarget,
    pub overrides: StrMap<ModelTarget>,
    pub profiles: StrMap<ModelTarget>,
}

pub ghost struct ModelsConfigView {
    pub default: ModelTargetView,
    pub overrides: Map<Seq<char>, ModelTargetView>,
    pub profiles: Map<Seq<char>, ModelTargetView>,
}

impl DeepView for ModelsConfig {
    type V = ModelsConfigView;

    open spec fn deep_view(&self) -> ModelsConfigView {
        ModelsConfigView {
            default: self.default@,
            overrides: self.overrides@,
            profiles: self.profiles@,
        }
    }
}

impl Default for ModelsConfig {
    fn default() -> (r: ModelsConfig)
        ensures
            r.deep_view() == (ModelsConfigView {
                default: ModelTarget::absent(),
                overrides: Map::empty(),
                profiles: Map::empty(),
            }),
    {
        ModelsConfig {
            default: ModelTarget::default(),
            overrides: StrMap::new(),
            profiles: StrMap::new(),
        }
    }
}

#[derive(Debug)]
pub struct SandboxConfig {
    pub mode: Option<String>,
    pub network_access: Option<bool>,
    pub writable_roots: Vec<String>,
}

pub ghost struct SandboxConfigView {
    pub mode: Option<Seq<char>>,
    pub network_access: Option<bool>,
    pub writable_roots: Seq<Seq<char>>,
}

impl DeepView for SandboxConfig {
    type V = SandboxConfigView;

    open spec fn deep_view(&self) -> SandboxConfigView {
        SandboxConfigView {
            mode: self.mode.deep_view(),
            network_access: self.network_access,
            writable_roots: self.writable_roots.deep_view(),
        }
    }
}

impl Default for SandboxConfig {
    fn default() -> (r: SandboxConfig)
        ensures
            r.deep_view() == (SandboxConfigView {
                mode: None,
                network_access: None,
                writable_roots: Seq::empty(),
            }),
    {
        let r = SandboxConfig { mode: None, network_access: None, writable_roots: Vec::new() };
        assert(r.writable_roots.deep_view() =~= Seq::empty());
        r
    }
}

#[derive(Debug)]
pub struct ShellConfig {
    pub approval: ApprovalMode,
    pub allowlist_roots: Vec<String>,
    pub denylist_roots: Vec<String>,
    pub environment_inherit: Option<String>,
    pub env_exclude_patterns: Vec<String>,
}

pub ghost struct ShellConfigView {
    pub approval: ApprovalMode,
    pub allowlist_roots: Seq<Seq<char>>,
    pub denylist_roots: Seq<Seq<char>>,
    pub environment_inherit: Option<Seq<char>>,
    pub env_exclude_patterns: Seq<Seq<char>>,
}

impl DeepView for ShellConfig {
    type V = ShellConfigView;

    open spec fn deep_view(&self) -> ShellConfigView {
        ShellConfigView {
            approval: self.approval,
            allowlist_roots: self.allowlist_roots.deep_view(),
            denylist_roots: self.denylist_roots.deep_view(),
            environment_inherit: self.environment_inherit.deep_view(),
            env_exclude_patterns: self.env_exclude_patterns.deep_view(),
        }
    }
}

impl Default for ShellConfig {
    fn default() -> (r: ShellConfig)
        ensures
            r.deep_view() == (ShellConfigView {
                approval: ApprovalMode::OnRequest,
                allowlist_roots: Seq::empty(),
                denylist_roots: Seq::empty(),
                environment_inherit: None,
                env_exclude_patterns: Seq::empty(),
            }),
    {
        let r = ShellConfig {
            approval: ApprovalMode::OnRequest,
            allowlist_roots: Vec::new(),
            denylist_roots: Vec::new(),
            environment_inherit: None,
            env_exclude_patterns: Vec::new(),
        };
        assert(r.allowlist_roots.deep_view() =~= Seq::empty());
        assert(r.denylist_roots.deep_view() =~= Seq::empty());
        assert(r.env_exclude_patterns.deep_view() =~= Seq::empty());
        r
    }
}

/// One MCP server, reached over stdio or tcp.
#[derive(Debug)]
pub struct McpServer {
    pub enabled: bool,
    pub transport: String,
    pub command: Option<String>,
    pub args: Vec<String>,
    pub env: StrMap<String>,
    pub host: Option<String>,
    pub port: Option<u16>,
    pub scope: Option<String>,
}

pub ghost struct McpServerView {
    pub enabled: bool,
    pub transport: Seq<char>,
    pub command: Option<Seq<char>>,
    pub args: Seq<Seq<char>>,
    pub env: Map<Seq<char>, Seq<char>>,
    pub host: Option<Seq<char>>,
    pub port: Option<u16>,
    pub scope: Option<Seq<char>>,
}

impl DeepView for McpServer {
    type V = McpServerView;

    open spec fn deep_view(&self) -> McpServerView {
        McpServerView {
            enabled: self.enabled,
            transport: self.transport@,
            command: self.command.deep_view(),
            args: self.args.deep_view(),
            env: self.env@,
            host: self.host.deep_view(),
            port: self.port,
            scope: self.scope.deep_view(),
        }
    }
}

impl View for McpServer {
    type V = McpServerView;

    open spec fn view(&self) -> McpServerView {
        self.deep_view()
    }
}

impl DeepClone for McpServer {
    fn deep_clone(&self) -> (r: McpServer) {
        McpServer {
            enabled: self.enabled,
            transport: self.transport.clone(),
            command: self.command.deep_clone(),
            args: self.args.deep_clone(),
            env: self.env.deep_clone(),
            host: self.host.deep_clone(),
            port: self.port,
            scope: self.scope.deep_clone(),
        }
    }
}

impl Clone for McpServer {
    fn clone(&self) -> (r: McpServer)
        ensures
            r@ == self@,
    {
        self.deep_clone()
    }
}

impl Default for McpServer {
    fn default() -> (r: McpServer)
        ensures
            r@ == (McpServerView {
                enabled: false,
                transport: Seq::empty(),
                command: None,
                args: Seq::empty(),
                env: Map::empty(),
                host: None,
                port: None,
                scope: None,
            }),
    {
        let r = McpServer {
            enabled: false,
            transport: String::new(),
            command: None,
            args: Vec::new(),
            env: StrMap::new(),
            host: None,
            port: None,
            scope: None,
        };
        assert(r.args.deep_view() =~= Seq::empty());
        r
    }
}

/// The named MCP servers.
#[derive(Debug)]
pub struct McpConfig {
    pub servers: StrMap<McpServer>,
}

impl Default for McpConfig {
    fn default() -> (r: McpConfig)
        ensures
            r.servers@ == Map::<Seq<char>, McpServerView>::empty(),
    {
        McpConfig { servers: StrMap::new() }
    }
}

#[derive(Clone, Copy, Debug, PartialEq, Eq, Structural)]
pub struct UiConfig {
    pub command_palette: bool,
    pub status_bar: bool,
    pub screen_reader: bool,
    pub kitty_protocol: bool,
}

impl Default for UiConfig {
    fn default() -> (r: UiConfig)
        ensures
            r == (UiConfig {
                command_palette: false,
                status_bar: false,
                screen_reader: false,
                kitty_protocol: false,
            }),
    {
        UiConfig {
            command_palette: false,
            status_bar: false,
            screen_reader: false,
            kitty_protocol: false,
        }
    }
}

#[derive(Debug)]
pub struct HistoryConfig {
    pub persist: Option<String>,
}

impl Default for HistoryConfig {
    fn default() -> (r: HistoryConfig)
        ensures
            r.persist is None,
    {
        HistoryConfig { persist: None }
    }
}

#[derive(Debug)]
pub struct TodoConfig {
    pub path: Option<String>,
}

impl Default for TodoConfig {
    fn default() -> (r: TodoConfig)
        ensures
            r.path is None,
    {
        TodoConfig { path: None }
    }
}

/// Thresholds of the compactor. A number that is zero, and a list that is
/// empty, stand for "absent" when layers merge.
#[derive(Debug)]
pub struct CompactConfig {
    pub auto_enable: bool,
    pub auto_min_interval_secs: u64,
    pub auto_on_task_end: bool,
    pub max_context_chars: usize,
    pub max_files: usize,
    pub include_globs_default: Vec<String>,
}

pub ghost struct CompactConfigView {
    pub auto_enable: bool,
    pub auto_min_interval_secs: u64,
    pub auto_on_task_end: bool,
    pub max_context_chars: usize,
    pub max_files: usize,
    pub include_globs_default: Seq<Seq<char>>,
}

impl DeepView for CompactConfig {
    type V = CompactConfigView;

    open spec fn deep_view(&self) -> CompactConfigView {
        CompactConfigView {
            auto_enable: self.auto_enable,
            auto_min_interval_secs: self.auto_min_interval_secs,
            auto_on_task_end: self.auto_on_task_end,
            max_context_chars: self.max_context_chars,
            max_files: self.max_files,
            include_globs_default: self.include_globs_default.deep_view(),
        }
    }
}

impl CompactConfig {
    /// The thresholds in force where no layer sets any.
    pub open spec fn initial() -> CompactConfigView {
        CompactConfigView {
            auto_enable: true,
            auto_min_interval_secs: 120,
            auto_on_task_end: true,
            max_context_chars: 40_000,
            max_files: 24,
            include_globs_default: seq![
                "**/*.rs"@,
                "**/*.md"@,
                "**/*.toml"@,
                "**/*.yaml"@,
                "**/*.yml"@,
            ],
        }
    }
}

impl Default for CompactConfig {
    fn default() -> (r: CompactConfig)
        ensures
            r.deep_view() == CompactConfig::initial(),
    {
        let mut globs: Vec<String> = Vec::new();
        globs.push("**/*.rs".to_owned());
        globs.push("**/*.md".to_owned());
        globs.push("**/*.toml".to_owned());
        globs.push("**/*.yaml".to_owned());
        globs.push("**/*.yml".to_owned());
        assert(globs.deep_view() =~= CompactConfig::initial().include_globs_default);
        CompactConfig {
            auto_enable: true,
            auto_min_interval_secs: 120,
            auto_on_task_end: true,
            max_context_chars: 40_000,
            max_files: 24,
            include_globs_default: globs,
        }
    }
}

#[derive(Debug)]
pub struct SessionsConfig {
    pub dir: Option<String>,
    pub auto_purge_days: Option<u32>,
    pub resume_on_launch: bool,
    pub write_mode: Option<String>,
}

pub ghost struct SessionsConfigView {
    pub dir: Option<Seq<char>>,
    pub auto_purge_days: Option<u32>,
    pub resume_on_launch: bool,
    pub write_mode: Option<Seq<char>>,
}

impl DeepView for SessionsConfig {
    type V = SessionsConfigView;

    open spec fn deep_view(&self) -> SessionsConfigView {
        SessionsConfigView {
            dir: self.dir.deep_view(),
            auto_purge_days: self.auto_purge_days,
            resume_on_launch: self.resume_on_launch,
            write_mode: self.write_mode.deep_view(),
        }
    }
}

impl Default for SessionsConfig {
    fn default() -> (r: SessionsConfig)
        ensures
            r.deep_view() == (SessionsConfigView {
                dir: None,
                auto_purge_days: None,
                resume_on_launch: false,
                write_mode: None,
            }),
    {
        SessionsConfig { dir: None, auto_purge_days: None, resume_on_launch: false, write_mode: None }
    }
}

#[derive(Debug)]
pub struct HooksConfig {
    pub recursion_limit: Option<u32>,
    pub dirs: Vec<String>,
}

pub ghost struct HooksConfigView {
    pub recursion_limit: Option<u32>,
    pub dirs: Seq<Seq<char>>,
}

impl DeepView for HooksConfig {
    type V = HooksConfigView;

    open spec fn deep_view(&self) -> HooksConfigView {
        HooksConfigView { recursion_limit: self.recursion_limit, dirs: self.dirs.deep_view() }
    }
}

impl Default for HooksConfig {
    fn default() -> (r: HooksConfig)
        ensures
            r.deep_view() == (HooksConfigView { recursion_limit: None, dirs: Seq::empty() }),
    {
        let r = HooksConfig { recursion_limit: None, dirs: Vec::new() };
        assert(r.dirs.deep_view() =~= Seq::empty());
        r
    }
}

#[derive(Debug)]
pub struct SlashConfigMeta {
    pub dirs: Vec<String>,
}

impl Default for SlashConfigMeta {
    fn default() -> (r: SlashConfigMeta)
        ensures
            r.dirs.deep_view() == Seq::<Seq<char>>::empty(),
    {
        let r = SlashConfigMeta { dirs: Vec::new() };
        assert(r.dirs.deep_view() =~= Seq::empty());
        r
    }
}

/// The whole configuration.
#[derive(Debug)]
pub struct Config {
    pub model: ModelConfig,
    pub models: ModelsConfig,
    pub sandbox: SandboxConfig,
    pub shell: ShellConfig,
    pub mcp: McpConfig,
    pub ui: UiConfig,
    pub history: HistoryConfig,
    pub todo: TodoConfig,
    pub compact: CompactConfig,
    pub sessions: SessionsConfig,
    pub hooks: HooksConfig,
    pub slash: SlashConfigMeta,
}

/// The mathematical content of a [`Config`].
pub ghost struct ConfigView {
    pub model: ModelConfigView,
    pub models: ModelsConfigView,
    pub sandbox: SandboxConfigView,
    pub shell: ShellConfigView,
    pub mcp_servers: Map<Seq<char>, McpServerView>,
    pub ui: UiConfig,
    pub history_persist: Option<Seq<char>>,
    pub todo_path: Option<Seq<char>>,
    pub compact: CompactConfigView,
    pub sessions: SessionsConfigView,
    pub hooks: HooksConfigView,
    pub slash_dirs: Seq<Seq<char>>,
}

impl DeepView for Config {
    type V = ConfigView;

    open spec fn deep_view(&self) -> ConfigView {
        ConfigView {
            model: self.model.deep_view(),
            models: self.models.deep_view(),
            sandbox: self.sandbox.deep_view(),
            shell: self.shell.deep_view(),
            mcp_servers: self.mcp.servers@,
            ui: self.ui,
            history_persist: self.history.persist.deep_view(),
            todo_path: self.todo.path.deep_view(),
            compact: self.compact.deep_view(),
            sessions: self.sessions.deep_view(),
            hooks: self.hooks.deep_view(),
            slash_dirs: self.slash.dirs.deep_view(),
        }
    }
}

impl View for Config {
    type V = ConfigView;

    open spec fn view(&self) -> ConfigView {
        self.deep_view()
    }
}

/// The configuration in force where no layer sets anything.
pub open spec fn initial_config() -> ConfigView {
    ConfigView {
        model: ModelConfigView { name: None, reasoning_effort: None, reasoning_summary: None },
        models: ModelsConfigView {
            default: ModelTarget::absent(),
            overrides: Map::empty(),
            profiles: Map::empty(),
        },
        sandbox: SandboxConfigView { mode: None, network_access: None, writable_roots: Seq::empty() },
        shell: ShellConfigView {
            approval: ApprovalMode::OnRequest,
            allowlist_roots: Seq::empty(),
            denylist_roots: Seq::empty(),
            environment_inherit: None,
            env_exclude_patterns: Seq::empty(),
        },
        mcp_servers: Map::empty(),
        ui: UiConfig {
            command_palette: false,
            status_bar: false,
            screen_reader: false,
            kitty_protocol: false,
        },
        history_persist: None,
        todo_path: None,
        compact: CompactConfig::initial(),
        sessions: SessionsConfigView {
            dir: None,
            auto_purge_days: None,
            resume_on_launch: false,
            write_mode: None,
        },
        hooks: HooksConfigView { recursion_limit: None, dirs: Seq::empty() },
        slash_dirs: Seq::empty(),
    }
}

impl Default for Config {
    fn default() -> (r: Config)
        ensures
            r@ == initial_config(),
    {
        Config {
            model: ModelConfig::default(),
            models: ModelsConfig::default(),
            sandbox: SandboxConfig::default(),
            shell: ShellConfig::default(),
            mcp: McpConfig::default(),
            ui: UiConfig::default(),
            history: HistoryConfig::default(),
            todo: TodoConfig::default(),
            compact: CompactConfig::default(),
            sessions: SessionsConfig::default(),
            hooks: HooksConfig::default(),
            slash: SlashConfigMeta::default(),
        }
    }
}

impl DeepClone for Config {
    fn deep_clone(&self) -> (r: Config) {
        Config {
            model: ModelConfig {
                name: self.model.name.deep_clone(),
                reasoning_effort: self.model.reasoning_effort.deep_clone(),
                reasoning_summary: self.model.reasoning_summary.deep_clone(),
            },
            models: ModelsConfig {
                default: self.models.default.deep_clone(),
                overrides: self.models.overrides.deep_clone(),
                profiles: self.models.profiles.deep_clone(),
            },
            sandbox: SandboxConfig {
                mode: self.sandbox.mode.deep_clone(),
                network_access: self.sandbox.network_access,
                writable_roots: self.sandbox.writable_roots.deep_clone(),
            },
            shell: ShellConfig {
                approval: self.shell.approval,
                allowlist_roots: self.shell.allowlist_roots.deep_clone(),
                denylist_roots: self.shell.denylist_roots.deep_clone(),
                environment_inherit: self.shell.environment_inherit.deep_clone(),
                env_exclude_patterns: self.shell.env_exclude_patterns.deep_clone(),
            },
            mcp: McpConfig { servers: self.mcp.servers.deep_clone() },
            ui: self.ui,
            history: HistoryConfig { persist: self.history.persist.deep_clone() },
            todo: TodoConfig { path: self.todo.path.deep_clone() },
            compact: CompactConfig {
                auto_enable: self.compact.auto_enable,
                auto_min_interval_secs: self.compact.auto_min_interval_secs,
                auto_on_task_end: self.compact.auto_on_task_end,
                max_context_chars: self.compact.max_context_chars,
                max_files: self.compact.max_files,
                include_globs_default: self.compact.include_globs_default.deep_clone(),
            },
            sessions: SessionsConfig {
                dir: self.sessions.dir.deep_clone(),
                auto_purge_days: self.sessions.auto_purge_days,
                resume_on_launch: self.sessions.resume_on_launch,
                write_mode: self.sessions.write_mode.deep_clone(),
            },
            hooks: HooksConfig {
                recursion_limit: self.hooks.recursion_limit,
                dirs: self.hooks.dirs.deep_clone(),
            },
            slash: SlashConfigMeta { dirs: self.slash.dirs.deep_clone() },
        }
    }
}

impl Clone for Config {
    fn clone(&self) -> (r: Config)
        ensures
            r@ == self@,
    {
        self.deep_clone()
    }
}

/// A configuration read from one file: what the file leaves out holds the
/// value that stands for "absent".
#[derive(Debug)]
pub struct PartialConfig(pub Config);

/// A present value of the higher layer overrides; an absent one leaves the
/// lower value.
pub open spec fn overlay<T>(low: Option<T>, high: Option<T>) -> Option<T> {
    if high is Some {
        high
    } else {
        low
    }
}

/// A list of the higher layer that is not empty replaces the lower list.
pub open spec fn replace_nonempty<T>(low: Seq<T>, high: Seq<T>) -> Seq<T> {
    if high.len() > 0 {
        high
    } else {
        low
    }
}

pub open spec fn merge_number(low: int, high: int) -> int {
    if high != 0 {
        high
    } else {
        low
    }
}

pub open spec fn merge_model_spec(low: ModelConfigView, high: ModelConfigView) -> ModelConfigView {
    ModelConfigView {
        name: overlay(low.name, high.name),
        reasoning_effort: overlay(low.reasoning_effort, high.reasoning_effort),
        reasoning_summary: overlay(low.reasoning_summary, high.reasoning_summary),
    }
}

pub open spec fn merge_models_spec(low: ModelsConfigView, high: ModelsConfigView) -> ModelsConfigView {
    ModelsConfigView {
        default: if high.default.name.len() > 0 {
            high.default
        } else {
            low.default
        },
        overrides: low.overrides.union_prefer_right(high.overrides),
        profiles: low.profiles.union_prefer_right(high.profiles),
    }
}

pub open spec fn merge_sandbox_spec(low: SandboxConfigView, high: SandboxConfigView) -> SandboxConfigView {
    SandboxConfigView {
        mode: overlay(low.mode, high.mode),
        network_access: overlay(low.network_access, high.network_access),
        writable_roots: replace_nonempty(low.writable_roots, high.writable_roots),
    }
}

pub open spec fn merge_shell_spec(low: ShellConfigView, high: ShellConfigView) -> ShellConfigView {
    ShellConfigView {
        approval: high.approval,
        allowlist_roots: replace_nonempty(low.allowlist_roots, high.allowlist_roots),
        denylist_roots: replace_nonempty(low.denylist_roots, high.denylist_roots),
        environment_inherit: overlay(low.environment_inherit, high.environment_inherit),
        env_exclude_patterns: replace_nonempty(low.env_exclude_patterns, high.env_exclude_patterns),
    }
}

pub open spec fn merge_ui_spec(low: UiConfig, high: UiConfig) -> UiConfig {
    UiConfig {
        command_palette: low.command_palette || high.command_palette,
        status_bar: low.status_bar || high.status_bar,
        screen_reader: low.screen_reader || high.screen_reader,
        kitty_protocol: low.kitty_protocol || high.kitty_protocol,
    }
}

pub open spec fn merge_compact_spec(low: CompactConfigView, high: CompactConfigView) -> CompactConfigView {
    CompactConfigView {
        auto_enable: low.auto_enable || high.auto_enable,
        auto_min_interval_secs: merge_number(
            low.auto_min_interval_secs as int,
            high.auto_min_interval_secs as int,
        ) as u64,
        auto_on_task_end: low.auto_on_task_end || high.auto_on_task_end,
        max_context_chars: merge_number(
            low.max_context_chars as int,
            high.max_context_chars as int,
        ) as usize,
        max_files: merge_number(low.max_files as int, high.max_files as int) as usize,
        include_globs_default: replace_nonempty(
            low.include_globs_default,
            high.include_globs_default,
        ),
    }
}

pub open spec fn merge_sessions_spec(low: SessionsConfigView, high: SessionsConfigView) -> SessionsConfigView {
    SessionsConfigView {
        dir: overlay(low.dir, high.dir),
        auto_purge_days: overlay(low.auto_purge_days, high.auto_purge_days),
        resume_on_launch: low.resume_on_launch || high.resume_on_launch,
        write_mode: overlay(low.write_mode, high.write_mode),
    }
}

pub open spec fn merge_hooks_spec(low: HooksConfigView, high: HooksConfigView) -> HooksConfigView {
    HooksConfigView {
        recursion_limit: overlay(low.recursion_limit, high.recursion_limit),
        dirs: replace_nonempty(low.dirs, high.dirs),
    }
}

/// The merge of two layers, `high` over `low`.
///
/// Options: a present value overrides. Lists: one that is not empty replaces.
/// Maps: the entries of `high` are inserted over those of `low`. Switches
/// that turn a feature on: logical or. Thresholds: one that is not zero
/// replaces. The shell approval mode: the one of `high`, always.
pub open spec fn merge_spec(low: ConfigView, high: ConfigView) -> ConfigView {
    ConfigView {
        model: merge_model_spec(low.model, high.model),
        models: merge_models_spec(low.models, high.models),
        sandbox: merge_sandbox_spec(low.sandbox, high.sandbox),
        shell: merge_shell_spec(low.shell, high.shell),
        mcp_servers: low.mcp_servers.union_prefer_right(high.mcp_servers),
        ui: merge_ui_spec(low.ui, high.ui),
        history_persist: overlay(low.history_persist, high.history_persist),
        todo_path: overlay(low.todo_path, high.todo_path),
        compact: merge_compact_spec(low.compact, high.compact),
        sessions: merge_sessions_spec(low.sessions, high.sessions),
        hooks: merge_hooks_spec(low.hooks, high.hooks),
        slash_dirs: replace_nonempty(low.slash_dirs, high.slash_dirs),
    }
}

fn overlay_text(low: &mut Option<String>, high: &Option<String>)
    ensures
        final(low).deep_view() == overlay(old(low).deep_view(), high.deep_view()),
{
    if let Some(s) = high {
        *low = Some(s.clone());
    }
}

fn replace_list(low: &mut Vec<String>, high: &Vec<String>)
    ensures
        final(low).deep_view() == replace_nonempty(old(low).deep_view(), high.deep_view()),
{
    if high.len() > 0 {
        *low = high.deep_clone();
    }
}

fn merge_model(a: &mut ModelConfig, b: &ModelConfig)
    ensures
        final(a).deep_view() == merge_model_spec(old(a).deep_view(), b.deep_view()),
{
    overlay_text(&mut a.name, &b.name);
    overlay_text(&mut a.reasoning_effort, &b.reasoning_effort);
    overlay_text(&mut a.reasoning_summary, &b.reasoning_summary);
}

fn merge_models(a: &mut ModelsConfig, b: &ModelsConfig)
    ensures
        final(a).deep_view() == merge_models_spec(old(a).deep_view(), b.deep_view()),
{
    if b.default.name.as_str().unicode_len() > 0 {
        a.default = b.default.deep_clone();
    }
    a.overrides.extend_from(&b.overrides);
    a.profiles.extend_from(&b.profiles);
}

fn merge_sandbox(a: &mut SandboxConfig, b: &SandboxConfig)
    ensures
        final(a).deep_view() == merge_sandbox_spec(old(a).deep_view(), b.deep_view()),
{
    overlay_text(&mut a.mode, &b.mode);
    if let Some(v) = b.network_access {
        a.network_access = Some(v);
    }
    replace_list(&mut a.writable_roots, &b.writable_roots);
}

fn merge_shell(a: &mut ShellConfig, b: &ShellConfig)
    ensures
        final(a).deep_view() == merge_shell_spec(old(a).deep_view(), b.deep_view()),
{
    a.approval = b.approval;
    replace_list(&mut a.allowlist_roots, &b.allowlist_roots);
    replace_list(&mut a.denylist_roots, &b.denylist_roots);
    overlay_text(&mut a.environment_inherit, &b.environment_inherit);
    replace_list(&mut a.env_exclude_patterns, &b.env_exclude_patterns);
}

fn merge_ui(a: &mut UiConfig, b: &UiConfig)
    ensures
        *final(a) == merge_ui_spec(*old(a), *b),
{
    a.command_palette = a.command_palette || b.command_palette;
    a.status_bar = a.status_bar || b.status_bar;
    a.screen_reader = a.screen_reader || b.screen_reader;
    a.kitty_protocol = a.kitty_protocol || b.kitty_protocol;
}

fn merge_compact(a: &mut CompactConfig, b: &CompactConfig)
    ensures
        final(a).deep_view() == merge_compact_spec(old(a).deep_view(), b.deep_view()),
{
    a.auto_enable = a.auto_enable || b.auto_enable;
    if b.auto_min_interval_secs != 0 {
        a.auto_min_interval_secs = b.auto_min_interval_secs;
    }
    a.auto_on_task_end = a.auto_on_task_end || b.auto_on_task_end;
    if b.max_context_chars != 0 {
        a.max_context_chars = b.max_context_chars;
    }
    if b.max_files != 0 {
        a.max_files = b.max_files;
    }
    replace_list(&mut a.include_globs_default, &b.include_globs_default);
}

fn merge_sessions(a: &mut SessionsConfig, b: &SessionsConfig)
    ensures
        final(a).deep_view() == merge_sessions_spec(old(a).deep_view(), b.deep_view()),
{
    overlay_text(&mut a.dir, &b.dir);
    if let Some(d) = b.auto_purge_days {
        a.auto_purge_days = Some(d);
    }
    a.resume_on_launch = a.resume_on_launch || b.resume_on_launch;
    overlay_text(&mut a.write_mode, &b.write_mode);
}

fn merge_hooks(a: &mut HooksConfig, b: &HooksConfig)
    ensures
        final(a).deep_view() == merge_hooks_spec(old(a).deep_view(), b.deep_view()),
{
    if let Some(n) = b.recursion_limit {
        a.recursion_limit = Some(n);
    }
    replace_list(&mut a.dirs, &b.dirs);
}

/// Merges the layer `b` over the accumulator `a`.
pub fn merge(a: &mut Config, b: &Config)
    ensures
        final(a)@ == merge_spec(old(a)@, b@),
{
    merge_model(&mut a.model, &b.model);
    merge_models(&mut a.models, &b.models);
    merge_sandbox(&mut a.sandbox, &b.sandbox);
    merge_shell(&mut a.shell, &b.shell);
    a.mcp.servers.extend_from(&b.mcp.servers);
    merge_ui(&mut a.ui, &b.ui);
    overlay_text(&mut a.history.persist, &b.history.persist);
    overlay_text(&mut a.todo.path, &b.todo.path);
    merge_compact(&mut a.compact, &b.compact);
    merge_sessions(&mut a.sessions, &b.sessions);
    merge_hooks(&mut a.hooks, &b.hooks);
    replace_list(&mut a.slash.dirs, &b.slash.dirs);
}

/// The configuration that sets nothing: every option absent, every list and
/// map empty, every switch off and every threshold zero. It is what a patch
/// starts from.
pub open spec fn absent_config() -> ConfigView {
    ConfigView {
        compact: CompactConfigView {
            auto_enable: false,
            auto_min_interval_secs: 0,
            auto_on_task_end: false,
            max_context_chars: 0,
            max_files: 0,
            include_globs_default: Seq::empty(),
        },
        ..initial_config()
    }
}

/// A layer that sets nothing leaves the layers below as they are, but for
/// the shell approval mode, which the last layer always decides.
pub proof fn lemma_merge_absent(c: ConfigView)
    ensures
        merge_spec(c, absent_config()) == (ConfigView {
            shell: ShellConfigView { approval: ApprovalMode::OnRequest, ..c.shell },
            ..c
        }),
{
    let m = merge_spec(c, absent_config());
    assert(m.models.overrides =~= c.models.overrides);
    assert(m.models.profiles =~= c.models.profiles);
    assert(m.mcp_servers =~= c.mcp_servers);
}

impl Config {
    /// The configuration that sets nothing.
    pub fn empty() -> (r: Config)
        ensures
            r@ == absent_config(),
    {
        let mut r = Config::default();
        r.compact.auto_enable = false;
        r.compact.auto_min_interval_secs = 0;
        r.compact.auto_on_task_end = false;
        r.compact.max_context_chars = 0;
        r.compact.max_files = 0;
        r.compact.include_globs_default = Vec::new();
        assert(r.compact.include_globs_default.deep_view() =~= Seq::empty());
        r
    }
}

/// Merging a configuration over itself changes nothing.
pub proof fn lemma_merge_idempotent(c: ConfigView)
    ensures
        merge_spec(c, c) == c,
{
    let m = merge_spec(c, c);
    assert(m.models.overrides =~= c.models.overrides);
    assert(m.models.profiles =~= c.models.profiles);
    assert(m.mcp_servers =~= c.mcp_servers);
}

/// The higher layer wins wherever it sets a value: a threshold that is not
/// zero, an option that is present, a list that is not empty, an entry of a
/// map.
pub proof fn lemma_merge_precedence(low: ConfigView, high: ConfigView)
    ensures
        high.compact.max_files != 0 ==> merge_spec(low, high).compact.max_files
            == high.compact.max_files,
        high.compact.max_files == 0 ==> merge_spec(low, high).compact.max_files
            == low.compact.max_files,
        high.compact.auto_min_interval_secs != 0 ==> merge_spec(
            low,
            high,
        ).compact.auto_min_interval_secs == high.compact.auto_min_interval_secs,
        high.models.default.name.len() > 0 ==> merge_spec(low, high).models.default
            == high.models.default,
        high.hooks.recursion_limit is Some ==> merge_spec(low, high).hooks.recursion_limit
            == high.hooks.recursion_limit,
        forall|k: Seq<char>| #[trigger]
            high.models.overrides.contains_key(k) ==> merge_spec(low, high).models.overrides[k]
                == high.models.overrides[k],
        forall|k: Seq<char>|
            !high.models.overrides.contains_key(k) && #[trigger] low.models.overrides.contains_key(k)
                ==> merge_spec(low, high).models.overrides[k] == low.models.overrides[k],
        merge_spec(low, high).shell.approval == high.shell.approval,
{
}

/// The target for a role: the role's override where there is one, else the
/// default target.
pub open spec fn pick_model_spec(c: ConfigView, role: ModelRole) -> ModelTargetView {
    if c.models.overrides.contains_key(role.key_spec()) {
        c.models.overrides[role.key_spec()]
    } else {
        c.models.default
    }
}

/// The target of a named profile, if the configuration has that profile.
pub open spec fn profile_spec(c: ConfigView, name: Option<Seq<char>>) -> Option<ModelTargetView> {
    match name {
        Some(n) => if c.models.profiles.contains_key(n) {
            Some(c.models.profiles[n])
        } else {
            None
        },
        None => None,
    }
}

impl Config {
    /// Chooses the model target for `role`.
    pub fn pick_model(&self, role: ModelRole) -> (r: ModelTarget)
        ensures
            r@ == pick_model_spec(self@, role),
    {
        match self.models.overrides.get(role.key()) {
            Some(t) => t.deep_clone(),
            None => self.models.default.deep_clone(),
        }
    }

    /// The target of the profile `name`, if there is such a profile.
    pub fn profile(&self, name: &Option<String>) -> (r: Option<ModelTarget>)
        ensures
            r.deep_view() == profile_spec(self@, name.deep_view()),
    {
        match name {
            Some(n) => match self.models.profiles.get(n.as_str()) {
                Some(t) => Some(t.deep_clone()),
                None => None,
            },
            None => None,
        }
    }
}

} // verus!
