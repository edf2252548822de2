use annex::config::{Config, ModelTarget};
use annex::hooks::{rule_list, rule_matches, ActionOutcome, ActionRequest, AuditLogHook, EmitStep, Emission,
    Entry, GitEvent,
    HookAction, HookContext, HookDecision, HookEvent, HookLoadError, HookRegistry, HookRule,
    RuleFile, DEFAULT_RECURSION_LIMIT};
use annex::json::JsonValue;
use annex::strmap::StrMap;

fn s(x: &str) -> String {
    x.to_string()
}

fn ctx() -> HookContext {
    HookContext { cwd: s("/ws"), session_id: s("sess"), env: StrMap::new() }
}

fn pre_exec() -> HookEvent {
    HookEvent::PreExec { cmd: s("cargo"), argv: vec![s("test")] }
}

fn rule(name: &str, when: &[&str], actions: Vec<HookAction>, deny_on_fail: bool) -> HookRule {
    HookRule {
        name: s(name),
        when: when.iter().map(|w| s(w)).collect(),
        actions,
        deny_on_fail,
        enabled: true,
    }
}

fn exec_action(cmd: &str) -> HookAction {
    HookAction::Exec { cmd: s(cmd), args: vec![] }
}

fn plugin(handler: &str) -> HookAction {
    HookAction::Plugin { handler: s(handler), config: JsonValue::Null }
}

fn entered(reg: &mut HookRegistry, event: &HookEvent) -> Emission {
    match reg.enter(event) {
        Entry::Entered(em) => em,
        Entry::Skipped(d) => panic!("emission skipped with {:?}", d),
    }
}

fn skipped(reg: &mut HookRegistry, event: &HookEvent) -> bool {
    matches!(reg.enter(event), Entry::Skipped(HookDecision::Continue))
}

fn continue_outcome() -> Option<ActionOutcome> {
    Some(ActionOutcome::Decided(HookDecision::Continue))
}

#[test]
fn every_event_has_its_snake_case_tag() {
    let j = JsonValue::Null;
    assert_eq!(HookEvent::PreToolUse { tool: s("t"), args: j.clone() }.tag(), "pre_tool_use");
    assert_eq!(HookEvent::PostToolUse { tool: s("t"), result: j.clone() }.tag(), "post_tool_use");
    assert_eq!(pre_exec().tag(), "pre_exec");
    assert_eq!(HookEvent::PostExec { cmd: s("c"), argv: vec![], status: 0 }.tag(), "post_exec");
    assert_eq!(HookEvent::PreMcp { server: s("a"), method: s("m"), payload: j.clone() }.tag(), "pre_mcp");
    assert_eq!(HookEvent::PostMcp { server: s("a"), method: s("m"), payload: j }.tag(), "post_mcp");
    assert_eq!(HookEvent::TaskStart { task_name: s("t") }.tag(), "task_start");
    assert_eq!(HookEvent::TaskProgress { task_name: s("t"), status_line: s("l") }.tag(), "task_progress");
    assert_eq!(HookEvent::TaskEnd { task_name: s("t"), success: true }.tag(), "task_end");
    assert_eq!(HookEvent::Git { kind: GitEvent::PreCommit }.tag(), "git_pre_commit");
    assert_eq!(HookEvent::Git { kind: GitEvent::PostCommit }.tag(), "git_post_commit");
    assert_eq!(HookEvent::Git { kind: GitEvent::PrePush }.tag(), "git_pre_push");
    assert_eq!(HookEvent::Git { kind: GitEvent::PostPush }.tag(), "git_post_push");
}

#[test]
fn a_rule_matches_the_tags_it_names_only() {
    let r = rule("r", &["pre_exec", "task_end"], vec![], false);
    assert!(rule_matches(&r, &pre_exec()));
    assert!(rule_matches(&r, &HookEvent::TaskEnd { task_name: s("t"), success: false }));
    assert!(!rule_matches(&r, &HookEvent::TaskStart { task_name: s("t") }));
    let unknown = rule("u", &["PreExec", "pre-exec", "exec"], vec![], false);
    assert!(!rule_matches(&unknown, &pre_exec()));
}

#[test]
fn an_emission_without_matching_rule_continues() {
    let mut reg = HookRegistry::new(vec![rule("r", &["post_exec"], vec![exec_action("x")], true)], None);
    let mut em = entered(&mut reg, &pre_exec());
    let step = reg.advance(&mut em, &Config::default(), &ctx(), None);
    assert!(matches!(step, EmitStep::Finished(HookDecision::Continue)));
}

#[test]
fn actions_run_in_load_order_and_disabled_rules_are_passed_over() {
    let mut off = rule("off", &["pre_exec"], vec![exec_action("never")], true);
    off.enabled = false;
    let rules = vec![
        rule("one", &["pre_exec"], vec![exec_action("a"), exec_action("b")], false),
        off,
        rule("other", &["task_start"], vec![exec_action("no")], false),
        rule("two", &["pre_exec"], vec![exec_action("c")], false),
    ];
    let mut reg = HookRegistry::new(rules, None);
    let cfg = Config::default();
    let mut em = entered(&mut reg, &pre_exec());
    let mut seen = vec![];
    let mut step = reg.advance(&mut em, &cfg, &ctx(), None);
    loop {
        match step {
            EmitStep::Run(ActionRequest::Exec { cmd, args, cwd }) => {
                assert_eq!(cwd, "/ws");
                assert!(args.is_empty());
                seen.push(cmd);
                step = reg.advance(&mut em, &cfg, &ctx(), continue_outcome());
            }
            EmitStep::Finished(d) => {
                assert!(matches!(d, HookDecision::Continue));
                break;
            }
            other => panic!("unexpected step {:?}", other),
        }
    }
    assert_eq!(seen, vec![s("a"), s("b"), s("c")]);
}

#[test]
fn a_failure_denies_where_the_rule_denies_on_failure() {
    let mut reg = HookRegistry::new(vec![
        rule("veto", &["pre_exec"], vec![plugin("deny"), exec_action("after")], true),
    ], None);
    reg.register(s("deny"));
    let cfg = Config::default();
    let mut em = entered(&mut reg, &pre_exec());
    let step = reg.advance(&mut em, &cfg, &ctx(), None);
    match step {
        EmitStep::Run(ActionRequest::Plugin { handler, .. }) => assert_eq!(handler, "deny"),
        other => panic!("unexpected step {:?}", other),
    }
    let step = reg.advance(&mut em, &cfg, &ctx(), Some(ActionOutcome::Failed { message: s("denied by policy") }));
    match step {
        EmitStep::Finished(HookDecision::Deny { reason }) => assert_eq!(reason, "denied by policy"),
        other => panic!("unexpected step {:?}", other),
    }
    let again = reg.advance(&mut em, &cfg, &ctx(), None);
    assert!(matches!(again, EmitStep::Finished(HookDecision::Continue)));
}

#[test]
fn a_failure_is_swallowed_where_the_rule_does_not_deny() {
    let mut reg = HookRegistry::new(vec![
        rule("soft", &["pre_exec"], vec![exec_action("a"), exec_action("b")], false),
    ], None);
    let cfg = Config::default();
    let mut em = entered(&mut reg, &pre_exec());
    let _ = reg.advance(&mut em, &cfg, &ctx(), None);
    let step = reg.advance(&mut em, &cfg, &ctx(), Some(ActionOutcome::Failed { message: s("boom") }));
    match step {
        EmitStep::Run(ActionRequest::Exec { cmd, .. }) => assert_eq!(cmd, "b"),
        other => panic!("unexpected step {:?}", other),
    }
    let step = reg.advance(&mut em, &cfg, &ctx(), Some(ActionOutcome::Failed { message: s("boom") }));
    assert!(matches!(step, EmitStep::Finished(HookDecision::Continue)));
}

#[test]
fn an_unknown_handler_fails_without_being_run() {
    let mut reg = HookRegistry::new(vec![
        rule("soft", &["pre_exec"], vec![plugin("ghost"), exec_action("a")], false),
        rule("hard", &["pre_exec"], vec![plugin("ghost")], true),
    ], None);
    let cfg = Config::default();
    let mut em = entered(&mut reg, &pre_exec());
    let step = reg.advance(&mut em, &cfg, &ctx(), None);
    match step {
        EmitStep::Run(ActionRequest::Exec { cmd, .. }) => assert_eq!(cmd, "a"),
        other => panic!("unexpected step {:?}", other),
    }
    let step = reg.advance(&mut em, &cfg, &ctx(), continue_outcome());
    match step {
        EmitStep::Finished(HookDecision::Deny { reason }) => assert_eq!(reason, "unknown plugin handler: ghost"),
        other => panic!("unexpected step {:?}", other),
    }
}

#[test]
fn the_audit_log_handler_is_registered_from_the_start() {
    let mut reg = HookRegistry::new(vec![rule("audit", &["pre_exec"], vec![plugin("audit_log")], true)], None);
    assert!(reg.has_plugin("audit_log"));
    assert!(!reg.has_plugin("deny"));
    let mut em = entered(&mut reg, &pre_exec());
    let step = reg.advance(&mut em, &Config::default(), &ctx(), None);
    assert!(matches!(step, EmitStep::Run(ActionRequest::Plugin { .. })));
    assert_eq!(AuditLogHook.name(), "audit_log");
}

#[test]
fn a_denial_of_an_action_ends_the_emission() {
    let mut reg = HookRegistry::new(vec![
        rule("r", &["pre_exec"], vec![exec_action("a"), exec_action("b")], false),
    ], None);
    let cfg = Config::default();
    let mut em = entered(&mut reg, &pre_exec());
    let _ = reg.advance(&mut em, &cfg, &ctx(), None);
    let step = reg.advance(&mut em, &cfg, &ctx(), Some(ActionOutcome::Decided(HookDecision::Deny { reason: s("no") })));
    match step {
        EmitStep::Finished(HookDecision::Deny { reason }) => assert_eq!(reason, "no"),
        other => panic!("unexpected step {:?}", other),
    }
}

#[test]
fn environment_changes_are_gathered_across_rules() {
    let mut reg = HookRegistry::new(vec![
        rule("one", &["pre_exec"], vec![exec_action("a")], false),
        rule("two", &["pre_exec"], vec![exec_action("b")], false),
    ], None);
    let cfg = Config::default();
    let mut em = entered(&mut reg, &pre_exec());
    let _ = reg.advance(&mut em, &cfg, &ctx(), None);
    let mut set1 = StrMap::new();
    set1.insert(s("A"), s("1"));
    set1.insert(s("B"), s("1"));
    let _ = reg.advance(&mut em, &cfg, &ctx(), Some(ActionOutcome::Decided(HookDecision::ModifyEnv { set: set1, remove: vec![s("X")] })));
    let mut set2 = StrMap::new();
    set2.insert(s("B"), s("2"));
    let step = reg.advance(&mut em, &cfg, &ctx(), Some(ActionOutcome::Decided(HookDecision::ModifyEnv { set: set2, remove: vec![s("Y")] })));
    match step {
        EmitStep::Finished(HookDecision::ModifyEnv { set, remove }) => {
            assert_eq!(set.get("A"), Some(&s("1")));
            assert_eq!(set.get("B"), Some(&s("2")));
            assert_eq!(remove, vec![s("X"), s("Y")]);
        }
        other => panic!("unexpected step {:?}", other),
    }
}

#[test]
fn a_prompt_goes_to_the_profile_or_to_the_chat_target() {
    let mut cfg = Config::default();
    cfg.models.default = ModelTarget::named(s("base"));
    cfg.models.profiles.insert(s("fast"), ModelTarget::named(s("F")));
    let prompt = |p: Option<&str>| HookAction::Prompt { model_profile: p.map(s), instruction: s("check"), max_tokens: Some(9) };
    let mut reg = HookRegistry::new(vec![
        rule("p", &["pre_exec"], vec![prompt(Some("fast")), prompt(Some("missing")), prompt(None)], false),
    ], None);
    let mut em = entered(&mut reg, &pre_exec());
    let mut names = vec![];
    let mut step = reg.advance(&mut em, &cfg, &ctx(), None);
    while let EmitStep::Run(ActionRequest::Prompt { target, instruction, max_tokens }) = step {
        assert_eq!(instruction, "check");
        assert_eq!(max_tokens, Some(9));
        names.push(target.name);
        step = reg.advance(&mut em, &cfg, &ctx(), continue_outcome());
    }
    assert_eq!(names, vec![s("F"), s("base"), s("base")]);
}

#[test]
fn emissions_nest_up_to_the_recursion_limit() {
    let ev = pre_exec();
    let mut reg = HookRegistry::new(vec![rule("again", &["pre_exec"], vec![exec_action("emit-pre-exec")], true)], Some(3));
    let cfg = Config::default();
    // The action of each emission emits the same event again before it ends.
    let mut chain = Vec::new();
    let mut ran = 0;
    for _ in 0..3 {
        let mut em = entered(&mut reg, &ev);
        match reg.advance(&mut em, &cfg, &ctx(), None) {
            EmitStep::Run(ActionRequest::Exec { cmd, .. }) => {
                assert_eq!(cmd, "emit-pre-exec");
                ran += 1;
            }
            other => panic!("unexpected step {:?}", other),
        }
        chain.push(em);
    }
    // The fourth is answered at once and names no action.
    assert!(skipped(&mut reg, &ev));
    assert!(skipped(&mut reg, &ev));
    assert_eq!(ran, 3);
    // The three that run end, innermost first, and the registry is free again.
    while let Some(mut em) = chain.pop() {
        let step = reg.advance(&mut em, &cfg, &ctx(), continue_outcome());
        assert!(matches!(step, EmitStep::Finished(HookDecision::Continue)));
        reg.end_emit();
    }
    for _ in 0..3 {
        let _ = entered(&mut reg, &ev);
    }
    assert!(skipped(&mut reg, &ev));
}

#[test]
fn at_the_limit_an_event_is_answered_without_any_action() {
    let mut reg = HookRegistry::new(vec![rule("r", &["pre_exec"], vec![exec_action("never")], true)], Some(0));
    match reg.enter(&pre_exec()) {
        Entry::Skipped(d) => assert!(matches!(d, HookDecision::Continue)),
        Entry::Entered(_) => panic!("entered at the limit"),
    }
    let mut one = HookRegistry::new(vec![], Some(1));
    let _ = entered(&mut one, &pre_exec());
    assert!(skipped(&mut one, &pre_exec()));
    one.end_emit();
    let _ = entered(&mut one, &pre_exec());
    one.end_emit();
    one.end_emit();
    let _ = entered(&mut one, &pre_exec());
    assert!(skipped(&mut one, &pre_exec()));
}

#[test]
fn the_recursion_limit_defaults_to_three() {
    assert_eq!(DEFAULT_RECURSION_LIMIT, 3);
    let mut reg = HookRegistry::new(vec![], None);
    for _ in 0..3 {
        let _ = entered(&mut reg, &pre_exec());
    }
    assert!(skipped(&mut reg, &pre_exec()));
}

#[test]
fn rule_files_load_in_order() {
    let files = vec![
        RuleFile { path: s("a/10.yaml"), rules: Ok(vec![rule("r1", &["pre_exec"], vec![exec_action("1")], false)]) },
        RuleFile { path: s("a/20.yaml"), rules: Ok(vec![]) },
        RuleFile { path: s("b/05.yaml"), rules: Ok(vec![
            rule("r2", &["pre_exec"], vec![exec_action("2")], false),
            rule("r3", &["pre_exec"], vec![exec_action("3")], false),
        ]) },
    ];
    let mut reg = HookRegistry::load(files, Some(1)).unwrap();
    let cfg = Config::default();
    let mut em = entered(&mut reg, &pre_exec());
    let mut seen = vec![];
    let mut step = reg.advance(&mut em, &cfg, &ctx(), None);
    while let EmitStep::Run(ActionRequest::Exec { cmd, .. }) = step {
        seen.push(cmd);
        step = reg.advance(&mut em, &cfg, &ctx(), continue_outcome());
    }
    assert_eq!(seen, vec![s("1"), s("2"), s("3")]);
}

#[test]
fn one_bad_rule_file_fails_the_registry() {
    let files = vec![
        RuleFile { path: s("a/10.yaml"), rules: Ok(vec![]) },
        RuleFile { path: s("a/20.yaml"), rules: Err(s("line 3: expected a list")) },
        RuleFile { path: s("a/30.yaml"), rules: Err(s("other")) },
    ];
    let err = HookRegistry::load(files, None).unwrap_err();
    assert_eq!(err, HookLoadError::Parse { path: s("a/20.yaml"), message: s("line 3: expected a list") });
    assert_eq!(err.message(), "parse hook rules: a/20.yaml: line 3: expected a list");
}

#[test]
fn environment_changes_apply_set_then_remove() {
    let mut c = ctx();
    c.env.insert(s("KEEP"), s("k"));
    c.env.insert(s("DROP"), s("d"));
    let mut set = StrMap::new();
    set.insert(s("NEW"), s("n"));
    set.insert(s("KEEP"), s("k2"));
    set.insert(s("BOTH"), s("b"));
    c.apply_env(&set, &vec![s("DROP"), s("BOTH"), s("ABSENT")]);
    assert_eq!(c.env.get("KEEP"), Some(&s("k2")));
    assert_eq!(c.env.get("NEW"), Some(&s("n")));
    assert_eq!(c.env.get("DROP"), None);
    assert_eq!(c.env.get("BOTH"), None);
    assert_eq!(c.cwd, "/ws");
    assert_eq!(c.session_id, "sess");
}

#[test]
fn audit_lines_name_the_command_and_its_arguments() {
    let hook = AuditLogHook;
    assert_eq!(hook.log_path(&ctx()), "/ws/.codex/audit.log");
    let ev = HookEvent::PostExec { cmd: s("cargo"), argv: vec![s("test"), s("src/lib.rs")], status: -1 };
    assert_eq!(hook.line("2026-01-02T03:04:05+00:00", &ev), "2026-01-02T03:04:05+00:00 post_exec cargo test src/lib.rs -1");
    assert_eq!(hook.line("T", &pre_exec()), "T pre_exec cargo test");
    assert_eq!(hook.line("T", &HookEvent::TaskEnd { task_name: s("build"), success: true }), "T task_end build true");
    assert_eq!(hook.line("T", &HookEvent::Git { kind: GitEvent::PrePush }), "T git_pre_push");
    assert_eq!(hook.line("T", &HookEvent::PreMcp { server: s("fs"), method: s("read"), payload: JsonValue::Null }), "T pre_mcp fs read");
}

#[test]
fn a_rule_document_is_a_list_or_holds_one() {
    let list = JsonValue::Array(vec![JsonValue::Object(vec![(s("name"), JsonValue::Text(s("r")))])]);
    let other = JsonValue::Array(vec![]);
    assert_eq!(rule_list(&list), Some(&list));
    let under_rules = JsonValue::Object(vec![(s("rule"), other.clone()), (s("rules"), list.clone())]);
    assert_eq!(rule_list(&under_rules), Some(&list));
    let under_rule = JsonValue::Object(vec![(s("rules"), JsonValue::Null), (s("rule"), list.clone())]);
    assert_eq!(rule_list(&under_rule), Some(&list));
    assert_eq!(rule_list(&JsonValue::Object(vec![(s("hooks"), list.clone())])), None);
    assert_eq!(rule_list(&JsonValue::Object(vec![(s("rules"), JsonValue::Text(s("x")))])), None);
    assert_eq!(rule_list(&JsonValue::Null), None);
}
