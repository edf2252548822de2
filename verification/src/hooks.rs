//! The hook engine: events, rules, and the decisions that rules lead to.
//!
//! The engine never runs an action itself. An emission is a conversation: the
//! engine names the next action of the next matching rule, the host runs it
//! and reports the outcome, and so on until the engine gives its decision.
//! An emission is had from `HookRegistry::enter` only, which answers the
//! event itself, with `Continue`, where the recursion limit is reached.

use vstd::prelude::*;
use vstd::string::*;
use crate::config::{Config, ConfigView, ModelRole, ModelTarget, ModelTargetView, pick_model_spec,
    profile_spec};
use crate::json::{JsonValue, JsonView};
use crate::strmap::{DeepClone, StrMap};
use crate::text::{spaced, str_eq};

verus! {

/// What an action of a rule sees of its surroundings.
#[derive(Debug)]
pub struct HookContext {
    pub cwd: String,
    pub session_id: String,
    pub env: StrMap<String>,
}

pub ghost struct HookContextView {
    pub cwd: Seq<char>,
    pub session_id: Seq<char>,
    pub env: Map<Seq<char>, Seq<char>>,
}

impl DeepView for HookContext {
    type V = HookContextView;

    open spec fn deep_view(&self) -> HookContextView {
        HookContextView { cwd: self.cwd@, session_id: self.session_id@, env: self.env@ }
    }
}

impl View for HookContext {
    type V = HookContextView;

    open spec fn view(&self) -> HookContextView {
        self.deep_view()
    }
}

impl DeepClone for HookContext {
    fn deep_clone(&self) -> (r: HookContext) {
        HookContext {
            cwd: self.cwd.clone(),
            session_id: self.session_id.clone(),
            env: self.env.deep_clone(),
        }
    }
}

impl Clone for HookContext {
    fn clone(&self) -> (r: HookContext)
        ensures
            r@ == self@,
    {
        self.deep_clone()
    }
}

/// `m` without the keys of `keys`.
pub open spec fn remove_each(
    m: Map<Seq<char>, Seq<char>>,
    keys: Seq<Seq<char>>,
) -> Map<Seq<char>, Seq<char>>
    decreases keys.len(),
{
    if keys.len() == 0 {
        m
    } else {
        remove_each(m, keys.drop_last()).remove(keys.last())
    }
}

/// An environment after the changes of a `ModifyEnv` decision: the variables
/// of `set` are written first, then those of `remove` are taken out.
pub open spec fn apply_env(
    env: Map<Seq<char>, Seq<char>>,
    set: Map<Seq<char>, Seq<char>>,
    remove: Seq<Seq<char>>,
) -> Map<Seq<char>, Seq<char>> {
    remove_each(env.union_prefer_right(set), remove)
}

impl HookContext {
    /// Applies the environment changes of a decision to this context. The
    /// shared configuration is not touched.
    pub fn apply_env(&mut self, set: &StrMap<String>, remove: &Vec<String>)
        ensures
            final(self)@ == (HookContextView {
                env: apply_env(old(self)@.env, set@, remove.deep_view()),
                ..old(self)@
            }),
    {
        self.env.extend_from(set);
        let ghost base = self.env@;
        let mut i: usize = 0;
        assert(remove.deep_view().take(0) =~= Seq::<Seq<char>>::empty());
        while i < remove.len()
            invariant
                i <= remove.len(),
                self.cwd == old(self).cwd,
                self.session_id == old(self).session_id,
                self.env@ == remove_each(base, remove.deep_view().take(i as int)),
            decreases remove.len() - i,
        {
            self.env.remove(remove[i].as_str());
            proof {
                let dv = remove.deep_view();
                assert(dv.take(i + 1).drop_last() =~= dv.take(i as int));
                assert(dv.take(i + 1).last() == remove@[i as int]@);
            }
            i += 1;
        }
        assert(remove.deep_view().take(remove.len() as int) =~= remove.deep_view());
    }
}

/// The points of a git operation that are announced.
#[derive(Clone, Copy, Debug, PartialEq, Eq, Structural)]
pub enum GitEvent {
    PreCommit,
    PostCommit,
    PrePush,
    PostPush,
}

/// A lifecycle notification.
#[derive(Debug, PartialEq, Eq)]
pub enum HookEvent {
    PreToolUse { tool: String, args: JsonValue },
    PostToolUse { tool: String, result: JsonValue },
    PreExec { cmd: String, argv: Vec<String> },
    PostExec { cmd: String, argv: Vec<String>, status: i32 },
    PreMcp { server: String, method: String, payload: JsonValue },
    PostMcp { server: String, method: String, payload: JsonValue },
    TaskStart { task_name: String },
    TaskProgress { task_name: String, status_line: String },
    TaskEnd { task_name: String, success: bool },
    Git { kind: GitEvent },
}

pub ghost enum HookEventView {
    PreToolUse { tool: Seq<char>, args: JsonView },
    PostToolUse { tool: Seq<char>, result: JsonView },
    PreExec { cmd: Seq<char>, argv: Seq<Seq<char>> },
    PostExec { cmd: Seq<char>, argv: Seq<Seq<char>>, status: i32 },
    PreMcp { server: Seq<char>, method: Seq<char>, payload: JsonView },
    PostMcp { server: Seq<char>, method: Seq<char>, payload: JsonView },
    TaskStart { task_name: Seq<char> },
    TaskProgress { task_name: Seq<char>, status_line: Seq<char> },
    TaskEnd { task_name: Seq<char>, success: bool },
    Git { kind: GitEvent },
}

impl DeepView for HookEvent {
    type V = HookEventView;

    open spec fn deep_view(&self) -> HookEventView {
        match self {
            HookEvent::PreToolUse { tool, args } => HookEventView::PreToolUse {
                tool: tool@,
                args: args@,
            },
            HookEvent::PostToolUse { tool, result } => HookEventView::PostToolUse {
                tool: tool@,
                result: result@,
            },
            HookEvent::PreExec { cmd, argv } => HookEventView::PreExec {
                cmd: cmd@,
                argv: argv.deep_view(),
            },
            HookEvent::PostExec { cmd, argv, status } => HookEventView::PostExec {
                cmd: cmd@,
                argv: argv.deep_view(),
                status: *status,
            },
            HookEvent::PreMcp { server, method, payload } => HookEventView::PreMcp {
                server: server@,
                method: method@,
                payload: payload@,
            },
            HookEvent::PostMcp { server, method, payload } => HookEventView::PostMcp {
                server: server@,
                method: method@,
                payload: payload@,
            },
            HookEvent::TaskStart { task_name } => HookEventView::TaskStart { task_name: task_name@ },
            HookEvent::TaskProgress { task_name, status_line } => HookEventView::TaskProgress {
                task_name: task_name@,
                status_line: status_line@,
            },
            HookEvent::TaskEnd { task_name, success } => HookEventView::TaskEnd {
                task_name: task_name@,
                success: *success,
            },
            HookEvent::Git { kind } => HookEventView::Git { kind: *kind },
        }
    }
}

impl View for HookEvent {
    type V = HookEventView;

    open spec fn view(&self) -> HookEventView {
        self.deep_view()
    }
}

/// The lower-snake-case name of an event's type, by which rules select it.
pub open spec fn event_tag(ev: HookEventView) -> Seq<char> {
    match ev {
        HookEventView::PreToolUse { .. } => "pre_tool_use"@,
        HookEventView::PostToolUse { .. } => "post_tool_use"@,
        HookEventView::PreExec { .. } => "pre_exec"@,
        HookEventView::PostExec { .. } => "post_exec"@,
        HookEventView::PreMcp { .. } => "pre_mcp"@,
        HookEventView::PostMcp { .. } => "post_mcp"@,
        HookEventView::TaskStart { .. } => "task_start"@,
        HookEventView::TaskProgress { .. } => "task_progress"@,
        HookEventView::TaskEnd { .. } => "task_end"@,
        HookEventView::Git { kind } => match kind {
            GitEvent::PreCommit => "git_pre_commit"@,
            GitEvent::PostCommit => "git_post_commit"@,
            GitEvent::PrePush => "git_pre_push"@,
            GitEvent::PostPush => "git_post_push"@,
        },
    }
}

impl HookEvent {
    /// The name of this event's type.
    pub fn tag(&self) -> (t: &'static str)
        ensures
            t@ == event_tag(self@),
    {
        match self {
            HookEvent::PreToolUse { .. } => "pre_tool_use",
            HookEvent::PostToolUse { .. } => "post_tool_use",
            HookEvent::PreExec { .. } => "pre_exec",
            HookEvent::PostExec { .. } => "post_exec",
            HookEvent::PreMcp { .. } => "pre_mcp",
            HookEvent::PostMcp { .. } => "post_mcp",
            HookEvent::TaskStart { .. } => "task_start",
            HookEvent::TaskProgress { .. } => "task_progress",
            HookEvent::TaskEnd { .. } => "task_end",
            HookEvent::Git { kind } => match kind {
                GitEvent::PreCommit => "git_pre_commit",
                GitEvent::PostCommit => "git_post_commit",
                GitEvent::PrePush => "git_pre_push",
                GitEvent::PostPush => "git_post_push",
            },
        }
    }
}

/// What the engine answers to an event.
#[derive(Debug)]
pub enum HookDecision {
    Continue,
    Deny { reason: String },
    ModifyEnv { set: StrMap<String>, remove: Vec<String> },
}

pub ghost enum HookDecisionView {
    Continue,
    Deny { reason: Seq<char> },
    ModifyEnv { set: Map<Seq<char>, Seq<char>>, remove: Seq<Seq<char>> },
}

impl DeepView for HookDecision {
    type V = HookDecisionView;

    open spec fn deep_view(&self) -> HookDecisionView {
        match self {
            HookDecision::Continue => HookDecisionView::Continue,
            HookDecision::Deny { reason } => HookDecisionView::Deny { reason: reason@ },
            HookDecision::ModifyEnv { set, remove } => HookDecisionView::ModifyEnv {
                set: set@,
                remove: remove.deep_view(),
            },
        }
    }
}

impl View for HookDecision {
    type V = HookDecisionView;

    open spec fn view(&self) -> HookDecisionView {
        self.deep_view()
    }
}

impl DeepClone for HookDecision {
    fn deep_clone(&self) -> (r: HookDecision) {
        match self {
            HookDecision::Continue => HookDecision::Continue,
            HookDecision::Deny { reason } => HookDecision::Deny { reason: reason.clone() },
            HookDecision::ModifyEnv { set, remove } => HookDecision::ModifyEnv {
                set: set.deep_clone(),
                remove: remove.deep_clone(),
            },
        }
    }
}

impl Clone for HookDecision {
    fn clone(&self) -> (r: HookDecision)
        ensures
            r@ == self@,
    {
        self.deep_clone()
    }
}

/// What a rule does when it matches.
#[derive(Debug)]
pub enum HookAction {
    /// Spawn a process in the context's working directory.
    Exec { cmd: String, args: Vec<String> },
    /// Put an instruction to a model.
    Prompt { model_profile: Option<String>, instruction: String, max_tokens: Option<u32> },
    /// Call a handler that was registered under a name.
    Plugin { handler: String, config: JsonValue },
}

pub ghost enum HookActionView {
    Exec { cmd: Seq<char>, args: Seq<Seq<char>> },
    Prompt { model_profile: Option<Seq<char>>, instruction: Seq<char>, max_tokens: Option<u32> },
    Plugin { handler: Seq<char>, config: JsonView },
}

impl DeepView for HookAction {
    type V = HookActionView;

    open spec fn deep_view(&self) -> HookActionView {
        match self {
            HookAction::Exec { cmd, args } => HookActionView::Exec {
                cmd: cmd@,
                args: args.deep_view(),
            },
            HookAction::Prompt { model_profile, instruction, max_tokens } => HookActionView::Prompt {
                model_profile: model_profile.deep_view(),
                instruction: instruction@,
                max_tokens: *max_tokens,
            },
            HookAction::Plugin { handler, config } => HookActionView::Plugin {
                handler: handler@,
                config: config@,
            },
        }
    }
}

/// A rule: the event types it answers to and the actions it then takes.
#[derive(Debug)]
pub struct HookRule {
    pub name: String,
    pub when: Vec<String>,
    pub actions: Vec<HookAction>,
    pub deny_on_fail: bool,
    pub enabled: bool,
}

pub ghost struct HookRuleView {
    pub name: Seq<char>,
    pub when: Seq<Seq<char>>,
    pub actions: Seq<HookActionView>,
    pub deny_on_fail: bool,
    pub enabled: bool,
}

impl DeepView for HookRule {
    type V = HookRuleView;

    open spec fn deep_view(&self) -> HookRuleView {
        HookRuleView {
            name: self.name@,
            when: self.when.deep_view(),
            actions: self.actions.deep_view(),
            deny_on_fail: self.deny_on_fail,
            enabled: self.enabled,
        }
    }
}

impl View for HookRule {
    type V = HookRuleView;

    open spec fn view(&self) -> HookRuleView {
        self.deep_view()
    }
}

/// Whether `list` holds the text `s`.
pub fn list_has(list: &Vec<String>, s: &str) -> (r: bool)
    ensures
        r == list.deep_view().contains(s@),
{
    let mut i: usize = 0;
    while i < list.len()
        invariant
            i <= list.len(),
            forall|k: int| 0 <= k < i ==> list.deep_view()[k] != s@,
        decreases list.len() - i,
    {
        if str_eq(list[i].as_str(), s) {
            assert(list.deep_view()[i as int] == s@);
            return true;
        }
        i += 1;
    }
    false
}

/// Whether a rule names the type of an event. A rule that names an unknown
/// type never matches.
pub open spec fn rule_matches_spec(rule: HookRuleView, ev: HookEventView) -> bool {
    rule.when.contains(event_tag(ev))
}

pub fn rule_matches(rule: &HookRule, ev: &HookEvent) -> (r: bool)
    ensures
        r == rule_matches_spec(rule@, ev@),
{
    list_has(&rule.when, ev.tag())
}

/// The recursion limit in force where the configuration sets none.
pub const DEFAULT_RECURSION_LIMIT: usize = 3;

/// The name of the handler that is always registered.
pub open spec fn audit_log_name() -> Seq<char> {
    "audit_log"@
}

/// The reason given when a rule that denies on failure names a handler that
/// nobody registered.
pub open spec fn unknown_handler_reason(handler: Seq<char>) -> Seq<char> {
    "unknown plugin handler: "@ + handler
}

/// Where the search for the next action ends.
pub ghost enum Found {
    /// No rule is left.
    End,
    /// This action of this rule is the next to run.
    Action(int, int),
    /// This action names an unknown handler, and its rule denies on failure.
    UnknownHandler(int, int),
}

/// Whether a rule takes part in an emission of events of type `tag`.
pub open spec fn rule_applies(rule: HookRuleView, tag: Seq<char>) -> bool {
    rule.enabled && rule.when.contains(tag)
}

/// Whether an action names a handler that is not registered.
pub open spec fn unknown_handler(action: HookActionView, plugins: Seq<Seq<char>>) -> bool {
    action matches HookActionView::Plugin { handler, .. } && !plugins.contains(handler)
}

/// The first action at or after action `a` of rule `r`, in load order, that
/// belongs to an enabled rule naming `tag`. An action that names an unknown
/// handler fails on the spot: it is passed over unless its rule denies on
/// failure.
pub open spec fn next_step(
    rules: Seq<HookRuleView>,
    tag: Seq<char>,
    plugins: Seq<Seq<char>>,
    r: int,
    a: int,
) -> Found
    decreases rules.len() - r, (if 0 <= r < rules.len() {
            rules[r].actions.len() - a
        } else {
            0
        }),
{
    if r < 0 || a < 0 || r >= rules.len() {
        Found::End
    } else if !rule_applies(rules[r], tag) || a >= rules[r].actions.len() {
        next_step(rules, tag, plugins, r + 1, 0)
    } else if unknown_handler(rules[r].actions[a], plugins) {
        if rules[r].deny_on_fail {
            Found::UnknownHandler(r, a)
        } else {
            next_step(rules, tag, plugins, r, a + 1)
        }
    } else {
        Found::Action(r, a)
    }
}

/// What the host is asked to do for one action.
#[derive(Debug)]
pub enum ActionRequest {
    /// Spawn `cmd` with `args` in `cwd`; a non-zero exit is a failure.
    Exec { cmd: String, args: Vec<String>, cwd: String },
    /// Send `instruction` to `target` through the chat bridge.
    Prompt { target: ModelTarget, instruction: String, max_tokens: Option<u32> },
    /// Call the handler registered as `handler`.
    Plugin { handler: String, config: JsonValue },
}

pub ghost enum ActionRequestView {
    Exec { cmd: Seq<char>, args: Seq<Seq<char>>, cwd: Seq<char> },
    Prompt { target: ModelTargetView, instruction: Seq<char>, max_tokens: Option<u32> },
    Plugin { handler: Seq<char>, config: JsonView },
}

impl DeepView for ActionRequest {
    type V = ActionRequestView;

    open spec fn deep_view(&self) -> ActionRequestView {
        match self {
            ActionRequest::Exec { cmd, args, cwd } => ActionRequestView::Exec {
                cmd: cmd@,
                args: args.deep_view(),
                cwd: cwd@,
            },
            ActionRequest::Prompt { target, instruction, max_tokens } => ActionRequestView::Prompt {
                target: target@,
                instruction: instruction@,
                max_tokens: *max_tokens,
            },
            ActionRequest::Plugin { handler, config } => ActionRequestView::Plugin {
                handler: handler@,
                config: config@,
            },
        }
    }
}

/// How an action ended.
#[derive(Debug)]
pub enum ActionOutcome {
    /// The action ran and answered with a decision of its own.
    Decided(HookDecision),
    /// The action failed.
    Failed { message: String },
}

pub ghost enum ActionOutcomeView {
    Decided(HookDecisionView),
    Failed { message: Seq<char> },
}

impl DeepView for ActionOutcome {
    type V = ActionOutcomeView;

    open spec fn deep_view(&self) -> ActionOutcomeView {
        match self {
            ActionOutcome::Decided(d) => ActionOutcomeView::Decided(d@),
            ActionOutcome::Failed { message } => ActionOutcomeView::Failed { message: message@ },
        }
    }
}

/// The next move of an emission.
#[derive(Debug)]
pub enum EmitStep {
    /// The host runs this action and reports how it ended.
    Run(ActionRequest),
    /// The emission is over, with this decision.
    Finished(HookDecision),
}

pub ghost enum EmitStepView {
    Run(ActionRequestView),
    Finished(HookDecisionView),
}

impl DeepView for EmitStep {
    type V = EmitStepView;

    open spec fn deep_view(&self) -> EmitStepView {
        match self {
            EmitStep::Run(r) => EmitStepView::Run(r.deep_view()),
            EmitStep::Finished(d) => EmitStepView::Finished(d@),
        }
    }
}

/// The progress of one emission: the action that is awaited or looked for
/// next, and the environment changes gathered so far.
#[derive(Debug)]
pub struct Emission {
    tag: String,
    rule: usize,
    action: usize,
    awaiting: bool,
    env_set: StrMap<String>,
    env_remove: Vec<String>,
}

pub ghost struct EmissionView {
    pub tag: Seq<char>,
    pub rule: int,
    pub action: int,
    pub awaiting: bool,
    pub env_set: Map<Seq<char>, Seq<char>>,
    pub env_remove: Seq<Seq<char>>,
}

impl View for Emission {
    type V = EmissionView;

    closed spec fn view(&self) -> EmissionView {
        EmissionView {
            tag: self.tag@,
            rule: self.rule as int,
            action: self.action as int,
            awaiting: self.awaiting,
            env_set: self.env_set@,
            env_remove: self.env_remove.deep_view(),
        }
    }
}

/// An emission before its first move.
pub open spec fn first_emission(ev: HookEventView) -> EmissionView {
    EmissionView {
        tag: event_tag(ev),
        rule: 0,
        action: 0,
        awaiting: false,
        env_set: Map::empty(),
        env_remove: Seq::empty(),
    }
}

/// What comes of the attempt to emit an event.
#[derive(Debug)]
pub enum Entry {
    /// The emission is under way; its moves are still to be made.
    Entered(Emission),
    /// The recursion limit was reached: the event is answered at once, with
    /// this decision, and nothing is run.
    Skipped(HookDecision),
}

/// The decision of an emission that no action denied: the gathered
/// environment changes where there are any, else `Continue`.
pub open spec fn gathered_decision(em: EmissionView) -> HookDecisionView {
    if em.env_set == Map::<Seq<char>, Seq<char>>::empty() && em.env_remove.len() == 0 {
        HookDecisionView::Continue
    } else {
        HookDecisionView::ModifyEnv { set: em.env_set, remove: em.env_remove }
    }
}

/// The target of a prompt: the named profile where the configuration has it,
/// else the target routed for the chat role.
pub open spec fn prompt_target(cfg: ConfigView, profile: Option<Seq<char>>) -> ModelTargetView {
    match profile_spec(cfg, profile) {
        Some(t) => t,
        None => pick_model_spec(cfg, ModelRole::Chat),
    }
}

/// The request that stands for an action.
pub open spec fn request_for(action: HookActionView, cfg: ConfigView, ctx: HookContextView) -> ActionRequestView {
    match action {
        HookActionView::Exec { cmd, args } => ActionRequestView::Exec { cmd, args, cwd: ctx.cwd },
        HookActionView::Prompt { model_profile, instruction, max_tokens } => ActionRequestView::Prompt {
            target: prompt_target(cfg, model_profile),
            instruction,
            max_tokens,
        },
        HookActionView::Plugin { handler, config } => ActionRequestView::Plugin { handler, config },
    }
}

/// The index of the action after action `a`. No rule has more actions than
/// the largest index, so past that index there is nothing to step to.
pub open spec fn after_action(a: int) -> int {
    if a < usize::MAX {
        a + 1
    } else {
        a
    }
}

/// An emission after the outcome of the awaited action is taken in, or the
/// decision that the outcome forces.
pub ghost enum Settled {
    Stop(HookDecisionView),
    Go(EmissionView),
}

/// Takes in the outcome of the awaited action. A failure denies where the
/// rule denies on failure and is swallowed otherwise; a `Deny` of the action
/// itself denies; environment changes are gathered, later values of a
/// variable over earlier ones.
pub open spec fn settle(
    rules: Seq<HookRuleView>,
    em: EmissionView,
    outcome: Option<ActionOutcomeView>,
) -> Settled {
    if !em.awaiting || outcome is None {
        Settled::Go(em)
    } else {
        let next = EmissionView { action: after_action(em.action), awaiting: false, ..em };
        match outcome->0 {
            ActionOutcomeView::Failed { message } => if 0 <= em.rule < rules.len()
                && rules[em.rule].deny_on_fail {
                Settled::Stop(HookDecisionView::Deny { reason: message })
            } else {
                Settled::Go(next)
            },
            ActionOutcomeView::Decided(HookDecisionView::Continue) => Settled::Go(next),
            ActionOutcomeView::Decided(HookDecisionView::Deny { reason }) => Settled::Stop(
                HookDecisionView::Deny { reason },
            ),
            ActionOutcomeView::Decided(HookDecisionView::ModifyEnv { set, remove }) => Settled::Go(
                EmissionView {
                    env_set: em.env_set.union_prefer_right(set),
                    env_remove: em.env_remove + remove,
                    ..next
                },
            ),
        }
    }
}

/// An emission that is over.
pub open spec fn closed_emission(rules: Seq<HookRuleView>, em: EmissionView) -> EmissionView {
    EmissionView { rule: rules.len() as int, action: 0, awaiting: false, ..em }
}

/// One move of an emission: the outcome of the awaited action is taken in,
/// then the next action is looked for.
pub open spec fn advance_spec(
    rules: Seq<HookRuleView>,
    plugins: Seq<Seq<char>>,
    cfg: ConfigView,
    ctx: HookContextView,
    em: EmissionView,
    outcome: Option<ActionOutcomeView>,
) -> (EmissionView, EmitStepView) {
    match settle(rules, em, outcome) {
        Settled::Stop(d) => (closed_emission(rules, em), EmitStepView::Finished(d)),
        Settled::Go(e) => match next_step(rules, e.tag, plugins, e.rule, e.action) {
            Found::End => (closed_emission(rules, e), EmitStepView::Finished(gathered_decision(e))),
            Found::UnknownHandler(r, a) => (
                closed_emission(rules, e),
                EmitStepView::Finished(
                    HookDecisionView::Deny {
                        reason: unknown_handler_reason(rules[r].actions[a]->Plugin_handler),
                    },
                ),
            ),
            Found::Action(r, a) => (
                EmissionView { rule: r, action: a, awaiting: true, ..e },
                EmitStepView::Run(request_for(rules[r].actions[a], cfg, ctx)),
            ),
        },
    }
}

/// Whether a value is an array.
pub open spec fn is_list(v: Option<JsonView>) -> bool {
    v matches Some(JsonView::Array(_))
}

/// The list of rules in a rule document: the document itself where it is a
/// list, else what it holds under `rules`, else what it holds under `rule`,
/// where that is a list.
pub open spec fn rule_list_spec(doc: JsonView) -> Option<JsonView> {
    if doc is Array {
        Some(doc)
    } else if is_list(crate::json::json_member(doc, "rules"@)) {
        crate::json::json_member(doc, "rules"@)
    } else if is_list(crate::json::json_member(doc, "rule"@)) {
        crate::json::json_member(doc, "rule"@)
    } else {
        None
    }
}

/// Finds the list of rules in a rule document.
pub fn rule_list(doc: &JsonValue) -> (r: Option<&JsonValue>)
    ensures
        r.deep_view() == rule_list_spec(doc@),
{
    match doc {
        JsonValue::Array(_) => Some(doc),
        _ => {
            match doc.get("rules") {
                Some(JsonValue::Array(_)) => {
                    return doc.get("rules");
                },
                _ => {},
            }
            match doc.get("rule") {
                Some(JsonValue::Array(_)) => doc.get("rule"),
                _ => None,
            }
        },
    }
}

/// A rule file as it was read: its path, and its rules or why it could not
/// be parsed.
#[derive(Debug)]
pub struct RuleFile {
    pub path: String,
    pub rules: Result<Vec<HookRule>, String>,
}

/// Why a registry could not be built.
#[derive(Debug, PartialEq, Eq)]
pub enum HookLoadError {
    /// A rule file could not be parsed.
    Parse { path: String, message: String },
}

impl HookLoadError {
    pub fn message(&self) -> (r: String)
        ensures
            match self {
                HookLoadError::Parse { path, message } => r@ == "parse hook rules: "@ + path@ + ": "@
                    + message@,
            },
    {
        match self {
            HookLoadError::Parse { path, message } => {
                let mut s = "parse hook rules: ".to_owned();
                s.append(path.as_str());
                s.append(": ");
                s.append(message.as_str());
                s
            },
        }
    }
}

/// The index of the first file that could not be parsed, or the number of
/// files where all could.
pub open spec fn first_bad_file(files: Seq<RuleFile>) -> int
    decreases files.len(),
{
    if files.len() == 0 {
        0
    } else if files[0].rules is Err {
        0
    } else {
        1 + first_bad_file(files.drop_first())
    }
}

/// The rules of the files, one file after another.
pub open spec fn all_rules(files: Seq<RuleFile>) -> Seq<HookRuleView>
    decreases files.len(),
{
    if files.len() == 0 {
        Seq::empty()
    } else {
        all_rules(files.drop_last()) + match files.last().rules {
            Ok(rules) => rules.deep_view(),
            Err(_) => Seq::empty(),
        }
    }
}

/// The rules in force, the handlers that are registered, and how deeply
/// emissions are nested at the moment.
#[derive(Debug)]
pub struct HookRegistry {
    rules: Vec<HookRule>,
    plugins: Vec<String>,
    recursion_limit: usize,
    depth: usize,
}

impl HookRegistry {
    /// The rules, in load order.
    pub closed spec fn rules(&self) -> Seq<HookRuleView> {
        self.rules.deep_view()
    }

    /// The names of the registered handlers.
    pub closed spec fn plugins(&self) -> Seq<Seq<char>> {
        self.plugins.deep_view()
    }

    pub closed spec fn limit(&self) -> nat {
        self.recursion_limit as nat
    }

    /// How many emissions are under way, one inside the other.
    pub closed spec fn depth(&self) -> nat {
        self.depth as nat
    }

    /// The depth never exceeds the recursion limit.
    pub open spec fn wf(&self) -> bool {
        self.depth() <= self.limit()
    }

    /// A registry with these rules. The limit is the configured one, or
    /// three. The `audit_log` handler is registered from the start.
    pub fn new(rules: Vec<HookRule>, recursion_limit: Option<u32>) -> (r: HookRegistry)
        ensures
            r.wf(),
            r.rules() == rules.deep_view(),
            r.plugins() == seq![audit_log_name()],
            r.depth() == 0,
            r.limit() == match recursion_limit {
                Some(n) => n as nat,
                None => DEFAULT_RECURSION_LIMIT as nat,
            },
    {
        let limit: usize = match recursion_limit {
            Some(n) => n as usize,
            None => DEFAULT_RECURSION_LIMIT,
        };
        let mut plugins: Vec<String> = Vec::new();
        plugins.push("audit_log".to_owned());
        assert(plugins.deep_view() =~= seq![audit_log_name()]);
        HookRegistry { rules, plugins, recursion_limit: limit, depth: 0 }
    }

    /// Builds the registry from rule files, given in load order. One file
    /// that could not be parsed fails the whole construction; the first such
    /// file is the one reported.
    pub fn load(files: Vec<RuleFile>, recursion_limit: Option<u32>) -> (r: Result<
        HookRegistry,
        HookLoadError,
    >)
        ensures
            match r {
                Ok(reg) => {
                    &&& first_bad_file(files@) == files@.len()
                    &&& reg.wf()
                    &&& reg.rules() == all_rules(files@)
                    &&& reg.plugins() == seq![audit_log_name()]
                    &&& reg.depth() == 0
                    &&& reg.limit() == match recursion_limit {
                        Some(n) => n as nat,
                        None => DEFAULT_RECURSION_LIMIT as nat,
                    }
                },
                Err(HookLoadError::Parse { path, message }) => {
                    let i = first_bad_file(files@);
                    &&& 0 <= i < files@.len()
                    &&& path@ == files@[i].path@
                    &&& files@[i].rules matches Err(m) && message@ == m@
                },
            },
    {
        let ghost given = files@;
        let mut i: usize = 0;
        while i < files.len()
            invariant
                i <= files.len(),
                forall|k: int| 0 <= k < i ==> (#[trigger] files@[k]).rules is Ok,
            decreases files.len() - i,
        {
            match &files[i].rules {
                Err(m) => {
                    proof {
                        lemma_first_bad(files@, i as int);
                    }
                    return Err(
                        HookLoadError::Parse { path: files[i].path.clone(), message: m.clone() },
                    );
                },
                Ok(_) => {},
            }
            i += 1;
        }
        proof {
            lemma_all_good(files@);
        }
        let mut rules: Vec<HookRule> = Vec::new();
        let mut files = files;
        proof {
            assert(rules.deep_view() =~= Seq::<HookRuleView>::empty());
            assert(given.take(0) =~= Seq::<RuleFile>::empty());
        }
        // Files are taken from the front, so that their rules keep load order.
        let mut taken: usize = 0;
        let total: usize = files.len();
        while files.len() > 0
            invariant
                taken + files@.len() == total,
                total == given.len(),
                files@ == given.skip(taken as int),
                rules.deep_view() == all_rules(given.take(taken as int)),
            decreases files@.len(),
        {
            let file = files.remove(0);
            let ghost before = rules.deep_view();
            proof {
                assert(file == given[taken as int]);
                assert(given.take(taken + 1).drop_last() =~= given.take(taken as int));
                assert(given.take(taken + 1).last() == file);
                assert(files@ =~= given.skip(taken + 1));
            }
            match file.rules {
                Ok(mut list) => {
                    let ghost add = list.deep_view();
                    let ghost old_list = list@;
                    // Rules are moved over one by one, first first.
                    let mut moved: usize = 0;
                    let n: usize = list.len();
                    while list.len() > 0
                        invariant
                            moved + list@.len() == n,
                            n == old_list.len(),
                            list@ == old_list.skip(moved as int),
                            add == old_list.map_values(|r: HookRule| r.deep_view()),
                            rules.deep_view() == before + add.take(moved as int),
                        decreases list@.len(),
                    {
                        let rule = list.remove(0);
                        let ghost prev = rules.deep_view();
                        rules.push(rule);
                        proof {
                            assert(rule == old_list[moved as int]);
                            assert(rules.deep_view() =~= prev.push(rule.deep_view()));
                            assert(add.take(moved + 1) =~= add.take(moved as int).push(
                                rule.deep_view(),
                            ));
                            assert(list@ =~= old_list.skip(moved + 1));
                            assert(rules.deep_view() =~= before + add.take(moved + 1));
                        }
                        moved += 1;
                    }
                    proof {
                        assert(add.take(n as int) =~= add);
                    }
                },
                Err(_) => {
                    proof {
                        assert(rules.deep_view() =~= before + Seq::<HookRuleView>::empty());
                    }
                },
            }
            taken += 1;
        }
        proof {
            assert(given.take(total as int) =~= given);
        }
        Ok(HookRegistry::new(rules, recursion_limit))
    }

    /// Registers a handler under `name`.
    pub fn register(&mut self, name: String)
        ensures
            final(self).plugins() == old(self).plugins().push(name@),
            final(self).rules() == old(self).rules(),
            final(self).depth() == old(self).depth(),
            final(self).limit() == old(self).limit(),
    {
        let ghost before = self.plugins.deep_view();
        self.plugins.push(name);
        assert(self.plugins.deep_view() =~= before.push(name@));
    }

    /// Whether a handler is registered under `name`.
    pub fn has_plugin(&self, name: &str) -> (r: bool)
        ensures
            r == self.plugins().contains(name@),
    {
        list_has(&self.plugins, name)
    }

    /// Emits `event`, unless the recursion limit is reached.
    ///
    /// Where as many emissions are under way as the limit allows, the
    /// registry is left as it was and the answer to the event is `Continue`:
    /// there is no emission, so no action of any rule is named, let alone
    /// run. Else the emission is entered, one level deeper, and handed out
    /// before its first move; `advance` makes its moves and `end_emit`
    /// leaves it.
    pub fn enter(&mut self, event: &HookEvent) -> (r: Entry)
        ensures
            old(self).wf() ==> final(self).wf(),
            final(self).rules() == old(self).rules(),
            final(self).plugins() == old(self).plugins(),
            final(self).limit() == old(self).limit(),
            old(self).depth() >= old(self).limit() ==> {
                &&& final(self).depth() == old(self).depth()
                &&& r matches Entry::Skipped(d) && d@ == HookDecisionView::Continue
            },
            old(self).depth() < old(self).limit() ==> {
                &&& final(self).depth() == old(self).depth() + 1
                &&& r matches Entry::Entered(em) && em@ == first_emission(event@)
            },
    {
        if self.depth >= self.recursion_limit {
            Entry::Skipped(HookDecision::Continue)
        } else {
            self.depth = self.depth + 1;
            let em = Emission {
                tag: event.tag().to_owned(),
                rule: 0,
                action: 0,
                awaiting: false,
                env_set: StrMap::new(),
                env_remove: Vec::new(),
            };
            assert(em.env_remove.deep_view() =~= Seq::<Seq<char>>::empty());
            Entry::Entered(em)
        }
    }

    /// Leaves an emission that was entered.
    pub fn end_emit(&mut self)
        ensures
            old(self).wf() ==> final(self).wf(),
            final(self).depth() == if old(self).depth() > 0 {
                (old(self).depth() - 1) as nat
            } else {
                0nat
            },
            final(self).rules() == old(self).rules(),
            final(self).plugins() == old(self).plugins(),
            final(self).limit() == old(self).limit(),
    {
        if self.depth > 0 {
            self.depth = self.depth - 1;
        }
    }
}

/// Where the search for the next action ended.
enum Seek {
    End,
    Action(usize, usize),
    UnknownHandler(usize, usize),
}

impl Seek {
    spec fn found(&self) -> Found {
        match self {
            Seek::End => Found::End,
            Seek::Action(r, a) => Found::Action(*r as int, *a as int),
            Seek::UnknownHandler(r, a) => Found::UnknownHandler(*r as int, *a as int),
        }
    }
}

impl HookRegistry {
    /// Looks for the next action from action `a0` of rule `r0` on.
    fn seek(&self, tag: &str, r0: usize, a0: usize) -> (res: Seek)
        ensures
            res.found() == next_step(self.rules(), tag@, self.plugins(), r0 as int, a0 as int),
            match res {
                Seek::End => true,
                Seek::Action(r, a) => r < self.rules@.len() && a
                    < self.rules@[r as int].actions@.len(),
                Seek::UnknownHandler(r, a) => r < self.rules@.len() && a
                    < self.rules@[r as int].actions@.len()
                    && self.rules@[r as int].actions@[a as int] is Plugin,
            },
    {
        let mut r: usize = r0;
        let mut a: usize = a0;
        let mut res: Option<Seek> = None;
        while res.is_none()
            invariant
                next_step(self.rules(), tag@, self.plugins(), r0 as int, a0 as int) == match res {
                    Some(found) => found.found(),
                    None => next_step(self.rules(), tag@, self.plugins(), r as int, a as int),
                },
                match res {
                    Some(Seek::Action(r, a)) => r < self.rules@.len() && a
                        < self.rules@[r as int].actions@.len(),
                    Some(Seek::UnknownHandler(r, a)) => r < self.rules@.len() && a
                        < self.rules@[r as int].actions@.len()
                        && self.rules@[r as int].actions@[a as int] is Plugin,
                    _ => true,
                },
            decreases
                    if res.is_none() { 1int } else { 0int },
                    self.rules@.len() - r,
                    (if r < self.rules@.len() && a <= self.rules@[r as int].actions@.len() {
                        self.rules@[r as int].actions@.len() - a
                    } else {
                        0
                    }),
        {
            if r >= self.rules.len() {
                res = Some(Seek::End);
            } else {
                let rule = &self.rules[r];
                assert(self.rules()[r as int] == rule@);
                let applies = rule.enabled && list_has(&rule.when, tag);
                if !applies || a >= rule.actions.len() {
                    r = r + 1;
                    a = 0;
                } else {
                    assert(rule@.actions[a as int] == rule.actions@[a as int].deep_view());
                    let unknown = match &rule.actions[a] {
                        HookAction::Plugin { handler, .. } => !self.has_plugin(handler.as_str()),
                        _ => false,
                    };
                    if unknown {
                        if rule.deny_on_fail {
                            res = Some(Seek::UnknownHandler(r, a));
                        } else {
                            a = a + 1;
                        }
                    } else {
                        res = Some(Seek::Action(r, a));
                    }
                }
            }
        }
        res.unwrap()
    }

    /// The request that stands for action `a` of rule `r`.
    fn request(&self, r: usize, a: usize, cfg: &Config, ctx: &HookContext) -> (req: ActionRequest)
        requires
            r < self.rules@.len(),
            a < self.rules@[r as int].actions@.len(),
        ensures
            req.deep_view() == request_for(self.rules()[r as int].actions[a as int], cfg@, ctx@),
    {
        assert(self.rules()[r as int] == self.rules@[r as int]@);
        assert(self.rules@[r as int]@.actions[a as int] == self.rules@[r as int].actions@[a as int].deep_view());
        match &self.rules[r].actions[a] {
            HookAction::Exec { cmd, args } => ActionRequest::Exec {
                cmd: cmd.clone(),
                args: args.deep_clone(),
                cwd: ctx.cwd.clone(),
            },
            HookAction::Prompt { model_profile, instruction, max_tokens } => {
                let target = match cfg.profile(model_profile) {
                    Some(t) => t,
                    None => cfg.pick_model(ModelRole::Chat),
                };
                ActionRequest::Prompt {
                    target,
                    instruction: instruction.clone(),
                    max_tokens: *max_tokens,
                }
            },
            HookAction::Plugin { handler, config } => ActionRequest::Plugin {
                handler: handler.clone(),
                config: config.deep_clone(),
            },
        }
    }

    /// Makes the next move of an emission. `outcome` reports how the action
    /// that the last move asked for ended; the first move has none to report.
    pub fn advance(
        &self,
        em: &mut Emission,
        cfg: &Config,
        ctx: &HookContext,
        outcome: Option<ActionOutcome>,
    ) -> (step: EmitStep)
        ensures
            (final(em)@, step.deep_view()) == advance_spec(
                self.rules(),
                self.plugins(),
                cfg@,
                ctx@,
                old(em)@,
                outcome.deep_view(),
            ),
    {
        let ghost rules = self.rules();
        let ghost start = em@;
        if em.awaiting {
            match outcome {
                None => {},
                Some(ActionOutcome::Failed { message }) => {
                    if em.rule < self.rules.len() {
                        assert(rules[em.rule as int] == self.rules@[em.rule as int]@);
                    }
                    if em.rule < self.rules.len() && self.rules[em.rule].deny_on_fail {
                        em.rule = self.rules.len();
                        em.action = 0;
                        em.awaiting = false;
                        return EmitStep::Finished(HookDecision::Deny { reason: message });
                    }
                    em.awaiting = false;
                    if em.action < usize::MAX {
                        em.action = em.action + 1;
                    }
                },
                Some(ActionOutcome::Decided(HookDecision::Continue)) => {
                    em.awaiting = false;
                    if em.action < usize::MAX {
                        em.action = em.action + 1;
                    }
                },
                Some(ActionOutcome::Decided(HookDecision::Deny { reason })) => {
                    em.rule = self.rules.len();
                    em.action = 0;
                    em.awaiting = false;
                    return EmitStep::Finished(HookDecision::Deny { reason });
                },
                Some(ActionOutcome::Decided(HookDecision::ModifyEnv { set, remove })) => {
                    em.awaiting = false;
                    if em.action < usize::MAX {
                        em.action = em.action + 1;
                    }
                    em.env_set.extend_from(&set);
                    let ghost before = em.env_remove.deep_view();
                    let mut i: usize = 0;
                    while i < remove.len()
                        invariant
                            i <= remove.len(),
                            em.env_remove.deep_view() == before + remove.deep_view().take(i as int),
                            em.tag == old(em).tag,
                            em.rule == old(em).rule,
                            em.action as int == after_action(old(em).action as int),
                            em.awaiting == false,
                            em.env_set@ == old(em).env_set@.union_prefer_right(set@),
                        decreases remove.len() - i,
                    {
                        let ghost prev = em.env_remove.deep_view();
                        em.env_remove.push(remove[i].clone());
                        assert(em.env_remove.deep_view() =~= prev.push(remove.deep_view()[i as int]));
                        assert(em.env_remove.deep_view() =~= before + remove.deep_view().take(i + 1));
                        i += 1;
                    }
                    assert(remove.deep_view().take(remove.len() as int) =~= remove.deep_view());
                },
            }
        }
        let found = self.seek(em.tag.as_str(), em.rule, em.action);
        match found {
            Seek::End => {
                let ghost e = em@;
                let decision = if em.env_set.is_empty() && em.env_remove.len() == 0 {
                    HookDecision::Continue
                } else {
                    HookDecision::ModifyEnv {
                        set: em.env_set.deep_clone(),
                        remove: em.env_remove.deep_clone(),
                    }
                };
                em.rule = self.rules.len();
                em.action = 0;
                em.awaiting = false;
                assert(settle(rules, start, outcome.deep_view()) == Settled::Go(e));
                EmitStep::Finished(decision)
            },
            Seek::UnknownHandler(r, a) => {
                assert(rules[r as int] == self.rules@[r as int]@);
                assert(self.rules@[r as int]@.actions[a as int] == self.rules@[r as int].actions@[a as int].deep_view());
                let reason = match &self.rules[r].actions[a] {
                    HookAction::Plugin { handler, .. } => {
                        let mut s = "unknown plugin handler: ".to_owned();
                        s.append(handler.as_str());
                        s
                    },
                    _ => String::new(),
                };
                let ghost e = em@;
                em.rule = self.rules.len();
                em.action = 0;
                em.awaiting = false;
                assert(settle(rules, start, outcome.deep_view()) == Settled::Go(e));
                EmitStep::Finished(HookDecision::Deny { reason })
            },
            Seek::Action(r, a) => {
                let req = self.request(r, a, cfg, ctx);
                let ghost e = em@;
                em.rule = r;
                em.action = a;
                em.awaiting = true;
                assert(settle(rules, start, outcome.deep_view()) == Settled::Go(e));
                EmitStep::Run(req)
            },
        }
    }
}

/// What the audit log says of an event: the name of its type, then what it
/// names, a command with its arguments and its exit code among that.
pub open spec fn event_words(ev: HookEventView) -> Seq<Seq<char>> {
    seq![event_tag(ev)] + match ev {
        HookEventView::PreToolUse { tool, .. } => seq![tool],
        HookEventView::PostToolUse { tool, .. } => seq![tool],
        HookEventView::PreExec { cmd, argv } => seq![cmd] + argv,
        HookEventView::PostExec { cmd, argv, status } => seq![cmd] + argv + seq![
            crate::text::signed_decimal(status as int),
        ],
        HookEventView::PreMcp { server, method, .. } => seq![server, method],
        HookEventView::PostMcp { server, method, .. } => seq![server, method],
        HookEventView::TaskStart { task_name } => seq![task_name],
        HookEventView::TaskProgress { task_name, status_line } => seq![task_name, status_line],
        HookEventView::TaskEnd { task_name, success } => seq![
            task_name,
            if success {
                "true"@
            } else {
                "false"@
            },
        ],
        HookEventView::Git { .. } => Seq::empty(),
    }
}

/// The line that the audit log gets for an event: the time, a space, and the
/// words of the event.
pub open spec fn audit_line(ts: Seq<char>, ev: HookEventView) -> Seq<char> {
    ts + " "@ + spaced(event_words(ev))
}

/// The path of the audit log below the working directory `cwd`.
pub open spec fn audit_log_path(cwd: Seq<char>) -> Seq<char> {
    crate::paths::joined(crate::paths::joined(cwd, ".codex"@), "audit.log"@)
}

fn push_word(line: &mut String, words: Ghost<Seq<Seq<char>>>, word: &str)
    requires
        words@.len() >= 1,
        old(line)@ == spaced(words@),
    ensures
        final(line)@ == spaced(words@.push(word@)),
{
    line.append(" ");
    line.append(word);
    assert(words@.push(word@).drop_last() =~= words@);
}

/// The hook that keeps the audit log. It never vetoes.
#[derive(Clone, Copy, Debug)]
pub struct AuditLogHook;

impl AuditLogHook {
    /// The name under which the hook is registered.
    pub fn name(&self) -> (r: &'static str)
        ensures
            r@ == audit_log_name(),
    {
        "audit_log"
    }

    /// The file that the hook appends to.
    pub fn log_path(&self, ctx: &HookContext) -> (r: String)
        ensures
            r@ == audit_log_path(ctx@.cwd),
    {
        let dir = crate::paths::join_path(ctx.cwd.as_str(), ".codex");
        crate::paths::join_path(dir.as_str(), "audit.log")
    }

    /// The line that the hook appends for `event` at the time `ts`.
    pub fn line(&self, ts: &str, event: &HookEvent) -> (r: String)
        ensures
            r@ == audit_line(ts@, event@),
    {
        let mut words = event.tag().to_owned();
        let ghost mut seen: Seq<Seq<char>> = seq![event_tag(event@)];
        match event {
            HookEvent::PreToolUse { tool, .. } => {
                push_word(&mut words, Ghost(seen), tool.as_str());
                proof {
                    seen = seen.push(tool@);
                }
            },
            HookEvent::PostToolUse { tool, .. } => {
                push_word(&mut words, Ghost(seen), tool.as_str());
                proof {
                    seen = seen.push(tool@);
                }
            },
            HookEvent::PreExec { cmd, argv } => {
                push_word(&mut words, Ghost(seen), cmd.as_str());
                proof {
                    seen = seen.push(cmd@);
                }
                let mut i: usize = 0;
                while i < argv.len()
                    invariant
                        i <= argv.len(),
                        seen.len() >= 1,
                        words@ == spaced(seen),
                        seen == seq![event_tag(event@), cmd@] + argv.deep_view().take(i as int),
                    decreases argv.len() - i,
                {
                    push_word(&mut words, Ghost(seen), argv[i].as_str());
                    proof {
                        seen = seen.push(argv@[i as int]@);
                        assert(argv.deep_view().take(i + 1) =~= argv.deep_view().take(i as int).push(
                            argv@[i as int]@,
                        ));
                    }
                    i += 1;
                }
                assert(argv.deep_view().take(argv.len() as int) =~= argv.deep_view());
            },
            HookEvent::PostExec { cmd, argv, status } => {
                push_word(&mut words, Ghost(seen), cmd.as_str());
                proof {
                    seen = seen.push(cmd@);
                }
                let mut i: usize = 0;
                while i < argv.len()
                    invariant
                        i <= argv.len(),
                        seen.len() >= 1,
                        words@ == spaced(seen),
                        seen == seq![event_tag(event@), cmd@] + argv.deep_view().take(i as int),
                    decreases argv.len() - i,
                {
                    push_word(&mut words, Ghost(seen), argv[i].as_str());
                    proof {
                        seen = seen.push(argv@[i as int]@);
                        assert(argv.deep_view().take(i + 1) =~= argv.deep_view().take(i as int).push(
                            argv@[i as int]@,
                        ));
                    }
                    i += 1;
                }
                assert(argv.deep_view().take(argv.len() as int) =~= argv.deep_view());
                let code = crate::text::format_i32(*status);
                push_word(&mut words, Ghost(seen), code.as_str());
                proof {
                    seen = seen.push(code@);
                }
            },
            HookEvent::PreMcp { server, method, .. } => {
                push_word(&mut words, Ghost(seen), server.as_str());
                proof {
                    seen = seen.push(server@);
                }
                push_word(&mut words, Ghost(seen), method.as_str());
                proof {
                    seen = seen.push(method@);
                }
            },
            HookEvent::PostMcp { server, method, .. } => {
                push_word(&mut words, Ghost(seen), server.as_str());
                proof {
                    seen = seen.push(server@);
                }
                push_word(&mut words, Ghost(seen), method.as_str());
                proof {
                    seen = seen.push(method@);
                }
            },
            HookEvent::TaskStart { task_name } => {
                push_word(&mut words, Ghost(seen), task_name.as_str());
                proof {
                    seen = seen.push(task_name@);
                }
            },
            HookEvent::TaskProgress { task_name, status_line } => {
                push_word(&mut words, Ghost(seen), task_name.as_str());
                proof {
                    seen = seen.push(task_name@);
                }
                push_word(&mut words, Ghost(seen), status_line.as_str());
                proof {
                    seen = seen.push(status_line@);
                }
            },
            HookEvent::TaskEnd { task_name, success } => {
                push_word(&mut words, Ghost(seen), task_name.as_str());
                proof {
                    seen = seen.push(task_name@);
                }
                let flag: &str = if *success {
                    "true"
                } else {
                    "false"
                };
                push_word(&mut words, Ghost(seen), flag);
                proof {
                    seen = seen.push(flag@);
                }
            },
            HookEvent::Git { .. } => {},
        }
        assert(seen =~= event_words(event@));
        let mut line = ts.to_owned();
        line.append(" ");
        line.append(words.as_str());
        line
    }
}

proof fn lemma_first_bad(files: Seq<RuleFile>, i: int)
    requires
        0 <= i < files.len(),
        files[i].rules is Err,
        forall|k: int| 0 <= k < i ==> (#[trigger] files[k]).rules is Ok,
    ensures
        first_bad_file(files) == i,
    decreases i,
{
    if i > 0 {
        let rest = files.drop_first();
        assert(rest[i - 1] == files[i]);
        assert forall|k: int| 0 <= k < i - 1 implies (#[trigger] rest[k]).rules is Ok by {
            assert(rest[k] == files[k + 1]);
        }
        lemma_first_bad(rest, i - 1);
    }
}

proof fn lemma_all_good(files: Seq<RuleFile>)
    requires
        forall|k: int| 0 <= k < files.len() ==> (#[trigger] files[k]).rules is Ok,
    ensures
        first_bad_file(files) == files.len(),
    decreases files.len(),
{
    if files.len() > 0 {
        let rest = files.drop_first();
        assert forall|k: int| 0 <= k < rest.len() implies (#[trigger] rest[k]).rules is Ok by {
            assert(rest[k] == files[k + 1]);
        }
        lemma_all_good(rest);
    }
}

} // verus!
