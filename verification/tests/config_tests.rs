use annex::config::{merge, ApprovalMode, Config, McpServer, ModelRole, ModelTarget, Scope};
use annex::layers::{compose, is_recognized_file, load_order, ConfigError, ConfigManager, ScopeDirs,
    BROADCAST_CAPACITY};

fn s(x: &str) -> String {
    x.to_string()
}

#[test]
fn role_keys_are_snake_case() {
    assert_eq!(ModelRole::Chat.key(), "chat");
    assert_eq!(ModelRole::Title.key(), "title");
    assert_eq!(ModelRole::SessionName.key(), "session_name");
    assert_eq!(ModelRole::Compact.key(), "compact");
    assert_eq!(ModelRole::MetaPrompt.key(), "meta_prompt");
    assert_eq!(ModelRole::TaskStatus.key(), "task_status");
}

#[test]
fn scopes_rise_in_precedence() {
    assert!(Scope::User.overrides(&Scope::System));
    assert!(Scope::Workspace.overrides(&Scope::User));
    assert!(Scope::Runtime.overrides(&Scope::Workspace));
    assert!(!Scope::System.overrides(&Scope::User));
    assert!(!Scope::User.overrides(&Scope::User));
}

#[test]
fn defaults_are_the_documented_ones() {
    let c = Config::default();
    assert!(c.compact.auto_enable);
    assert_eq!(c.compact.auto_min_interval_secs, 120);
    assert!(c.compact.auto_on_task_end);
    assert_eq!(c.compact.max_context_chars, 40_000);
    assert_eq!(c.compact.max_files, 24);
    assert_eq!(
        c.compact.include_globs_default,
        vec![s("**/*.rs"), s("**/*.md"), s("**/*.toml"), s("**/*.yaml"), s("**/*.yml")]
    );
    assert_eq!(c.shell.approval, ApprovalMode::OnRequest);
    assert_eq!(c.models.default.name, "");
    assert_eq!(c.hooks.recursion_limit, None);
    assert_eq!(ApprovalMode::default(), ApprovalMode::OnRequest);
    assert_eq!(BROADCAST_CAPACITY, 64);
}

#[test]
fn workspace_threshold_overrides_user_threshold() {
    let mut user = Config::default();
    user.compact.max_files = 50;
    let mut workspace = Config::default();
    workspace.compact.max_files = 10;
    let mut acc = Config::default();
    merge(&mut acc, &user);
    assert_eq!(acc.compact.max_files, 50);
    merge(&mut acc, &workspace);
    assert_eq!(acc.compact.max_files, 10);
}

#[test]
fn merging_a_configuration_over_itself_changes_nothing() {
    let mut c = Config::default();
    c.model.name = Some(s("m"));
    c.models.default = ModelTarget::named(s("A"));
    c.models.overrides.insert(s("compact"), ModelTarget::named(s("B")));
    c.models.profiles.insert(s("fast"), ModelTarget::named(s("F")));
    c.sandbox.writable_roots = vec![s("/tmp")];
    c.shell.approval = ApprovalMode::Never;
    c.ui.status_bar = true;
    c.compact.max_files = 7;
    c.sessions.auto_purge_days = Some(3);
    let copy = c.clone();
    merge(&mut c, &copy);
    assert_eq!(c.model.name, Some(s("m")));
    assert_eq!(c.models.default.name, "A");
    assert_eq!(c.models.overrides.get("compact").unwrap().name, "B");
    assert_eq!(c.models.overrides.pairs().len(), 1);
    assert_eq!(c.models.profiles.get("fast").unwrap().name, "F");
    assert_eq!(c.sandbox.writable_roots, vec![s("/tmp")]);
    assert_eq!(c.shell.approval, ApprovalMode::Never);
    assert!(c.ui.status_bar);
    assert!(!c.ui.command_palette);
    assert_eq!(c.compact.max_files, 7);
    assert_eq!(c.sessions.auto_purge_days, Some(3));
}

#[test]
fn merge_follows_the_rule_of_each_kind_of_field() {
    let mut low = Config::default();
    low.sandbox.mode = Some(s("read_only"));
    low.sandbox.network_access = Some(false);
    low.shell.allowlist_roots = vec![s("git"), s("ls")];
    low.shell.approval = ApprovalMode::Never;
    low.compact.auto_enable = false;
    low.compact.auto_min_interval_secs = 30;
    low.mcp.servers.insert(s("a"), McpServer::default());
    let mut high = Config::default();
    high.sandbox.mode = None;
    high.sandbox.network_access = Some(true);
    high.shell.allowlist_roots = vec![s("cargo")];
    high.shell.denylist_roots = vec![];
    high.shell.approval = ApprovalMode::OnFailure;
    high.compact.auto_enable = false;
    high.compact.auto_min_interval_secs = 0;
    let mut tcp = McpServer::default();
    tcp.transport = s("tcp");
    high.mcp.servers.insert(s("a"), tcp);
    high.mcp.servers.insert(s("b"), McpServer::default());
    merge(&mut low, &high);
    assert_eq!(low.sandbox.mode, Some(s("read_only")));
    assert_eq!(low.sandbox.network_access, Some(true));
    assert_eq!(low.shell.allowlist_roots, vec![s("cargo")]);
    assert_eq!(low.shell.approval, ApprovalMode::OnFailure);
    assert!(!low.compact.auto_enable);
    assert_eq!(low.compact.auto_min_interval_secs, 30);
    assert_eq!(low.mcp.servers.get("a").unwrap().transport, "tcp");
    assert!(low.mcp.servers.contains_key("b"));
    let mut on = Config::default();
    on.compact.auto_enable = true;
    merge(&mut low, &on);
    assert!(low.compact.auto_enable);
}

#[test]
fn layering_routes_roles_through_the_highest_override() {
    let mut system = Config::default();
    system.models.default = ModelTarget::named(s("A"));
    let mut user = Config::default();
    user.models.overrides.insert(s("compact"), ModelTarget::named(s("B")));
    let mut workspace = Config::default();
    workspace.models.overrides.insert(s("compact"), ModelTarget::named(s("C")));
    let mut manager = ConfigManager::new();
    let snapshot = manager.reload_all(vec![system], vec![user], vec![workspace]);
    assert_eq!(manager.pick_model(ModelRole::Compact).name, "C");
    assert_eq!(manager.pick_model(ModelRole::Chat).name, "A");
    assert_eq!(snapshot.pick_model(ModelRole::Compact).name, "C");
    assert_eq!(manager.get().pick_model(ModelRole::TaskStatus).name, "A");
}

#[test]
fn a_patch_that_sets_nothing_leaves_the_thresholds() {
    let mut c = Config::default();
    c.compact.max_files = 9;
    c.history.persist = Some(s("all"));
    merge(&mut c, &Config::empty());
    assert_eq!(c.compact.max_files, 9);
    assert_eq!(c.compact.auto_min_interval_secs, 120);
    assert!(c.compact.auto_enable);
    assert_eq!(c.history.persist, Some(s("all")));
    assert!(Config::empty().compact.include_globs_default.is_empty());
}

#[test]
fn a_chat_override_routes_the_chat_role() {
    let mut c = Config::default();
    c.models.default = ModelTarget::named(s("A"));
    assert_eq!(c.pick_model(ModelRole::Chat).name, "A");
    c.models.overrides.insert(s("chat"), ModelTarget::named(s("D")));
    assert_eq!(c.pick_model(ModelRole::Chat).name, "D");
    assert_eq!(c.pick_model(ModelRole::Title).name, "A");
}

#[test]
fn profiles_are_found_by_name() {
    let mut c = Config::default();
    c.models.profiles.insert(s("fast"), ModelTarget::named(s("F")));
    assert_eq!(c.profile(&Some(s("fast"))).unwrap().name, "F");
    assert!(c.profile(&Some(s("slow"))).is_none());
    assert!(c.profile(&None).is_none());
}

#[test]
fn the_runtime_overlay_composes_over_the_files() {
    let mut workspace = Config::default();
    workspace.compact.max_files = 10;
    workspace.history.persist = Some(s("session"));
    let mut manager = ConfigManager::new();
    manager.reload_all(vec![], vec![], vec![workspace]);
    assert_eq!(manager.get().compact.max_files, 10);
    let mut patch = Config::empty();
    patch.compact.max_files = 3;
    patch.model.name = Some(s("o"));
    let after = manager.apply_runtime_overlay(&patch);
    assert_eq!(after.compact.max_files, 3);
    assert_eq!(after.model.name, Some(s("o")));
    assert_eq!(after.history.persist, Some(s("session")));
    let mut reread = Config::default();
    reread.compact.max_files = 11;
    let again = manager.reload_all(vec![], vec![], vec![reread]);
    assert_eq!(again.compact.max_files, 3);
    assert_eq!(again.history.persist, None);
}

#[test]
fn files_of_a_scope_merge_in_order() {
    let mut first = Config::default();
    first.compact.max_files = 5;
    first.history.persist = Some(s("all"));
    let mut second = Config::default();
    second.compact.max_files = 6;
    let c = compose(&vec![], &vec![first, second], &vec![], &Config::empty());
    assert_eq!(c.compact.max_files, 6);
    assert_eq!(c.history.persist, Some(s("all")));
    let mut runtime = Config::empty();
    runtime.compact.max_files = 2;
    let mut a = Config::empty();
    a.compact.max_files = 5;
    let c = compose(&vec![a], &vec![], &vec![], &runtime);
    assert_eq!(c.compact.max_files, 2);
    let nothing = compose(&vec![], &vec![], &vec![], &Config::empty());
    assert_eq!(nothing.compact.max_files, 24);
    assert!(nothing.compact.auto_enable);
}

#[test]
fn only_recognized_files_load_and_in_path_order() {
    assert!(is_recognized_file("10-base.yaml"));
    assert!(is_recognized_file("a.yml"));
    assert!(is_recognized_file("config.toml"));
    assert!(!is_recognized_file("notes.txt"));
    assert!(!is_recognized_file("yaml"));
    assert!(!is_recognized_file(".yaml"));
    assert!(!is_recognized_file("a.YAML.bak"));
    let names = vec![s("99-runtime.yaml"), s("README.md"), s("10-base.yml"), s("50-team.toml"), s("10-base.yml")];
    assert_eq!(load_order(&names), vec![s("10-base.yml"), s("50-team.toml"), s("99-runtime.yaml")]);
}

#[test]
fn patches_go_to_the_directory_of_their_scope() {
    let dirs = ScopeDirs { system: s("/etc/codex"), user: s("/home/u/.config/codex"), workspace: s("/ws/.codex") };
    assert_eq!(dirs.patch_file(Scope::System, None), Ok(s("/etc/codex/99-runtime.yaml")));
    assert_eq!(dirs.patch_file(Scope::User, Some("20-me.yaml")), Ok(s("/home/u/.config/codex/20-me.yaml")));
    assert_eq!(dirs.patch_file(Scope::Workspace, None), Ok(s("/ws/.codex/99-runtime.yaml")));
}

#[test]
fn the_runtime_scope_is_never_written() {
    let dirs = ScopeDirs { system: s("/s"), user: s("/u"), workspace: s("/w") };
    assert_eq!(dirs.patch_file(Scope::Runtime, None), Err(ConfigError::RuntimeNotPersisted));
    assert_eq!(dirs.patch_file(Scope::Runtime, Some("x.yaml")), Err(ConfigError::RuntimeNotPersisted));
    assert_eq!(ConfigError::RuntimeNotPersisted.message(), "runtime scope is not persisted");
}
