//! The run of one task, as a conversation between the runner and its host.
//!
//! The runner decides; the host acts. Each move of the runner yields the
//! events to show and one request: emit a hook event, call a bridge, or
//! nothing more. The host answers each request with a reply, which is the
//! input of the next move.

use vstd::prelude::*;
use vstd::string::*;
use crate::config::{Config, ConfigView, ModelRole, ModelTargetView, pick_model_spec, profile_spec};
use crate::hooks::{HookContext, HookContextView, HookDecision, HookDecisionView, HookEvent,
    HookEventView, apply_env};
use crate::json::{JsonValue, JsonView};
use crate::strmap::DeepClone;
use crate::taskset::{FlatStep, FlatStepView, TaskSpec, TaskSpecView, UiEvent, UiEventView,
    flat_steps};
use crate::text::{format_i32, signed_decimal};

verus! {

/// Where the run of a task stands.
#[derive(Clone, Copy, Debug, PartialEq, Eq, Structural)]
pub enum TaskPhase {
    /// Nothing has happened yet.
    Ready,
    /// The task-start hook event is out.
    Starting,
    /// The pre-event of the current step is out.
    Pre,
    /// The bridge call of the current step is out.
    Bridge,
    /// The post-event of the current step is out.
    Post,
    /// The task-end hook event is out.
    Ending,
    /// The task is over.
    Finished,
}

/// What the host is asked to do next.
#[derive(Debug, PartialEq, Eq)]
pub enum TaskRequest {
    /// Emit this event through the hook engine and reply with its decision.
    Hook(HookEvent),
    /// Call the chat bridge.
    Chat { model_name: String, base_url: String, prompt: String },
    /// Call the exec bridge.
    Exec { cmd: String, args: Vec<String> },
    /// Call the MCP bridge.
    Mcp { server: String, method: String, payload: JsonValue },
    /// Nothing: the task is over, with this outcome.
    Done { ok: bool },
}

pub ghost enum TaskRequestView {
    Hook(HookEventView),
    Chat { model_name: Seq<char>, base_url: Seq<char>, prompt: Seq<char> },
    Exec { cmd: Seq<char>, args: Seq<Seq<char>> },
    Mcp { server: Seq<char>, method: Seq<char>, payload: JsonView },
    Done { ok: bool },
}

impl DeepView for TaskRequest {
    type V = TaskRequestView;

    open spec fn deep_view(&self) -> TaskRequestView {
        match self {
            TaskRequest::Hook(e) => TaskRequestView::Hook(e@),
            TaskRequest::Chat { model_name, base_url, prompt } => TaskRequestView::Chat {
                model_name: model_name@,
                base_url: base_url@,
                prompt: prompt@,
            },
            TaskRequest::Exec { cmd, args } => TaskRequestView::Exec {
                cmd: cmd@,
                args: args.deep_view(),
            },
            TaskRequest::Mcp { server, method, payload } => TaskRequestView::Mcp {
                server: server@,
                method: method@,
                payload: payload@,
            },
            TaskRequest::Done { ok } => TaskRequestView::Done { ok: *ok },
        }
    }
}

impl View for TaskRequest {
    type V = TaskRequestView;

    open spec fn view(&self) -> TaskRequestView {
        self.deep_view()
    }
}

/// What the host reports back.
#[derive(Debug)]
pub enum TaskReply {
    /// The host is ready for the first move.
    Start,
    /// The decision of the hook engine on the event that was asked for.
    Hook(HookDecision),
    /// The chat bridge returned.
    ChatDone,
    /// The exec bridge returned, with the exit code and a preview of the
    /// output.
    ExecDone { status: i32, output_preview: String },
    /// The MCP bridge returned, with the response.
    McpDone { response: JsonValue },
    /// The bridge call failed.
    BridgeFailed { message: String },
}

pub ghost enum TaskReplyView {
    Start,
    Hook(HookDecisionView),
    ChatDone,
    ExecDone { status: i32, output_preview: Seq<char> },
    McpDone { response: JsonView },
    BridgeFailed { message: Seq<char> },
}

impl DeepView for TaskReply {
    type V = TaskReplyView;

    open spec fn deep_view(&self) -> TaskReplyView {
        match self {
            TaskReply::Start => TaskReplyView::Start,
            TaskReply::Hook(d) => TaskReplyView::Hook(d@),
            TaskReply::ChatDone => TaskReplyView::ChatDone,
            TaskReply::ExecDone { status, output_preview } => TaskReplyView::ExecDone {
                status: *status,
                output_preview: output_preview@,
            },
            TaskReply::McpDone { response } => TaskReplyView::McpDone { response: response@ },
            TaskReply::BridgeFailed { message } => TaskReplyView::BridgeFailed {
                message: message@,
            },
        }
    }
}

impl View for TaskReply {
    type V = TaskReplyView;

    open spec fn view(&self) -> TaskReplyView {
        self.deep_view()
    }
}

/// One move of the runner: the events to show, in order, and the next
/// request.
#[derive(Debug, PartialEq, Eq)]
pub struct TaskOutput {
    pub ui: Vec<UiEvent>,
    pub request: TaskRequest,
}

pub ghost struct TaskOutputView {
    pub ui: Seq<UiEventView>,
    pub request: TaskRequestView,
}

impl DeepView for TaskOutput {
    type V = TaskOutputView;

    open spec fn deep_view(&self) -> TaskOutputView {
        TaskOutputView { ui: self.ui.deep_view(), request: self.request@ }
    }
}

impl View for TaskOutput {
    type V = TaskOutputView;

    open spec fn view(&self) -> TaskOutputView {
        self.deep_view()
    }
}

/// The run of one task.
#[derive(Debug)]
pub struct TaskRun {
    set_id: String,
    task_id: String,
    task_name: String,
    label: String,
    steps: Vec<FlatStep>,
    pos: usize,
    phase: TaskPhase,
    ok: bool,
    cancelled: bool,
    ctx: HookContext,
}

pub ghost struct TaskRunView {
    pub set_id: Seq<char>,
    pub task_id: Seq<char>,
    pub task_name: Seq<char>,
    /// The label under which the task's model is shown.
    pub label: Seq<char>,
    pub steps: Seq<FlatStepView>,
    /// The index of the current step.
    pub pos: int,
    pub phase: TaskPhase,
    /// Whether every step so far went well.
    pub ok: bool,
    pub cancelled: bool,
    /// The hook context of the task, with the environment changes that its
    /// hooks asked for.
    pub ctx: HookContextView,
}

impl View for TaskRun {
    type V = TaskRunView;

    closed spec fn view(&self) -> TaskRunView {
        TaskRunView {
            set_id: self.set_id@,
            task_id: self.task_id@,
            task_name: self.task_name@,
            label: self.label@,
            steps: self.steps.deep_view(),
            pos: self.pos as int,
            phase: self.phase,
            ok: self.ok,
            cancelled: self.cancelled,
            ctx: self.ctx@,
        }
    }
}

/// The label of a task's model: its profile, or `default`.
pub open spec fn model_label(profile: Option<Seq<char>>) -> Seq<char> {
    match profile {
        Some(p) => p,
        None => "default"@,
    }
}

/// A run before its first move.
pub open spec fn initial_run(set_id: Seq<char>, task: TaskSpecView, ctx: HookContextView) -> TaskRunView {
    TaskRunView {
        set_id,
        task_id: task.id,
        task_name: task.name,
        label: model_label(task.model_profile),
        steps: task.steps,
        pos: 0,
        phase: TaskPhase::Ready,
        ok: true,
        cancelled: false,
        ctx,
    }
}

/// The arguments shown to the pre-event of a chat step.
pub open spec fn chat_args(prompt: Seq<char>, profile: Option<Seq<char>>) -> JsonView {
    JsonView::Object(
        seq![
            (
                "model_profile"@,
                match profile {
                    Some(p) => JsonView::Text(p),
                    None => JsonView::Null,
                },
            ),
            ("prompt"@, JsonView::Text(prompt)),
        ],
    )
}

/// The event that goes out before the bridge call of a step.
pub open spec fn pre_event(step: FlatStepView) -> HookEventView {
    match step {
        FlatStepView::Chat { prompt, step_profile, .. } => HookEventView::PreToolUse {
            tool: "chat"@,
            args: chat_args(prompt, step_profile),
        },
        FlatStepView::Exec { cmd, args } => HookEventView::PreExec { cmd, argv: args },
        FlatStepView::Mcp { server, method, payload } => HookEventView::PreMcp {
            server,
            method,
            payload,
        },
    }
}

/// The model of a chat step: the profile that the step names, where the
/// configuration has it; else the active profile, where the configuration has
/// that; else the target routed for the chat role.
pub open spec fn chat_target(
    cfg: ConfigView,
    step_profile: Option<Seq<char>>,
    active_profile: Option<Seq<char>>,
) -> ModelTargetView {
    match profile_spec(cfg, step_profile) {
        Some(t) => t,
        None => match profile_spec(cfg, active_profile) {
            Some(t) => t,
            None => pick_model_spec(cfg, ModelRole::Chat),
        },
    }
}

/// The bridge call of a step.
pub open spec fn bridge_request(step: FlatStepView, cfg: ConfigView) -> TaskRequestView {
    match step {
        FlatStepView::Chat { prompt, step_profile, active_profile } => {
            let t = chat_target(cfg, step_profile, active_profile);
            TaskRequestView::Chat {
                model_name: t.name,
                base_url: match t.base_url {
                    Some(u) => u,
                    None => Seq::empty(),
                },
                prompt,
            }
        },
        FlatStepView::Exec { cmd, args } => TaskRequestView::Exec { cmd, args },
        FlatStepView::Mcp { server, method, payload } => TaskRequestView::Mcp {
            server,
            method,
            payload,
        },
    }
}

/// The progress line of a step whose pre-event was denied.
pub open spec fn denied_line(reason: Seq<char>) -> Seq<char> {
    "denied by hook: "@ + reason
}

/// The progress line of a command that returned.
pub open spec fn exec_line(cmd: Seq<char>, status: i32) -> Seq<char> {
    "exec "@ + cmd + " -> "@ + signed_decimal(status as int)
}

/// The progress line of an MCP call that returned.
pub open spec fn mcp_line(server: Seq<char>, method: Seq<char>) -> Seq<char> {
    "mcp "@ + server + "."@ + method
}

/// What a reply says of a failed bridge call.
pub open spec fn failure_text(reply: TaskReplyView) -> Seq<char> {
    match reply {
        TaskReplyView::BridgeFailed { message } => message,
        _ => "unexpected reply"@,
    }
}

/// The progress line of a step whose bridge call failed.
pub open spec fn failure_line(step: FlatStepView, text: Seq<char>) -> Seq<char> {
    match step {
        FlatStepView::Chat { .. } => "chat failed: "@ + text,
        FlatStepView::Exec { cmd, .. } => "exec "@ + cmd + " failed: "@ + text,
        FlatStepView::Mcp { server, method, .. } => mcp_line(server, method) + " failed: "@ + text,
    }
}

/// A progress event of the run's task.
pub open spec fn progress(s: TaskRunView, line: Seq<char>) -> UiEventView {
    UiEventView::TaskProgress { set_id: s.set_id, task_id: s.task_id, line }
}

/// The run after the environment changes of a hook decision are applied to
/// its context. Any other reply changes nothing.
pub open spec fn absorb(s: TaskRunView, reply: TaskReplyView) -> TaskRunView {
    match reply {
        TaskReplyView::Hook(HookDecisionView::ModifyEnv { set, remove }) => TaskRunView {
            ctx: HookContextView { env: apply_env(s.ctx.env, set, remove), ..s.ctx },
            ..s
        },
        _ => s,
    }
}

/// The steps are over: the task-end hook event goes out.
pub open spec fn finish_steps(s: TaskRunView, ui: Seq<UiEventView>) -> (TaskRunView, TaskOutputView) {
    (
        TaskRunView { phase: TaskPhase::Ending, ..s },
        TaskOutputView {
            ui,
            request: TaskRequestView::Hook(
                HookEventView::TaskEnd { task_name: s.task_name, success: s.ok },
            ),
        },
    )
}

/// Whether the run has a current step.
pub open spec fn has_step(s: TaskRunView) -> bool {
    0 <= s.pos < s.steps.len()
}

/// The run turns to its current step: its pre-event goes out. Where no step
/// is left the steps are over; where steps are left but the run was
/// cancelled, they are over too and the task is not ok.
pub open spec fn enter_step(s: TaskRunView, ui: Seq<UiEventView>) -> (TaskRunView, TaskOutputView) {
    if !has_step(s) {
        finish_steps(s, ui)
    } else if s.cancelled {
        finish_steps(TaskRunView { ok: false, ..s }, ui)
    } else {
        (
            TaskRunView { phase: TaskPhase::Pre, ..s },
            TaskOutputView { ui, request: TaskRequestView::Hook(pre_event(s.steps[s.pos])) },
        )
    }
}

/// The reason of a reply that denies.
pub open spec fn denial(reply: TaskReplyView) -> Option<Seq<char>> {
    match reply {
        TaskReplyView::Hook(HookDecisionView::Deny { reason }) => Some(reason),
        _ => None,
    }
}

/// The move on the decision about a pre-event. A denial skips the step and
/// ends the task as not ok, with the reason in a progress line. A
/// cancellation lets no bridge call out. Else the bridge call goes out.
pub open spec fn on_pre(s: TaskRunView, cfg: ConfigView, reply: TaskReplyView) -> (
    TaskRunView,
    TaskOutputView,
) {
    let s1 = absorb(s, reply);
    if !has_step(s) {
        finish_steps(s1, Seq::empty())
    } else if denial(reply) is Some {
        finish_steps(
            TaskRunView { ok: false, ..s1 },
            seq![progress(s, denied_line(denial(reply)->0))],
        )
    } else if s.cancelled {
        finish_steps(TaskRunView { ok: false, ..s1 }, Seq::empty())
    } else {
        (
            TaskRunView { phase: TaskPhase::Bridge, ..s1 },
            TaskOutputView { ui: Seq::empty(), request: bridge_request(s.steps[s.pos], cfg) },
        )
    }
}

/// The move on the return of a bridge call. A call that returned is shown in
/// a progress line and followed by its post-event, whatever else happened
/// meanwhile; a command that exits with a code other than zero makes the task
/// not ok. A call that failed is shown, makes the task not ok, has no
/// post-event, and the next step is turned to.
pub open spec fn on_bridge(s: TaskRunView, reply: TaskReplyView) -> (TaskRunView, TaskOutputView) {
    if !has_step(s) {
        finish_steps(s, Seq::empty())
    } else {
        let step = s.steps[s.pos];
        let after = TaskRunView { phase: TaskPhase::Post, ..s };
        match (step, reply) {
            (FlatStepView::Chat { .. }, TaskReplyView::ChatDone) => (
                after,
                TaskOutputView {
                    ui: seq![progress(s, "chat sent"@)],
                    request: TaskRequestView::Hook(
                        HookEventView::PostToolUse {
                            tool: "chat"@,
                            result: JsonView::Object(Seq::empty()),
                        },
                    ),
                },
            ),
            (FlatStepView::Exec { cmd, args }, TaskReplyView::ExecDone { status, .. }) => (
                TaskRunView { ok: s.ok && status == 0, ..after },
                TaskOutputView {
                    ui: seq![progress(s, exec_line(cmd, status))],
                    request: TaskRequestView::Hook(
                        HookEventView::PostExec { cmd, argv: args, status },
                    ),
                },
            ),
            (FlatStepView::Mcp { server, method, .. }, TaskReplyView::McpDone { response }) => (
                after,
                TaskOutputView {
                    ui: seq![progress(s, mcp_line(server, method))],
                    request: TaskRequestView::Hook(
                        HookEventView::PostMcp { server, method, payload: response },
                    ),
                },
            ),
            _ => enter_step(
                TaskRunView { ok: false, pos: s.pos + 1, ..s },
                seq![progress(s, failure_line(step, failure_text(reply)))],
            ),
        }
    }
}

/// One move of the run of a task.
pub open spec fn task_step(s: TaskRunView, cfg: ConfigView, reply: TaskReplyView) -> (
    TaskRunView,
    TaskOutputView,
) {
    match s.phase {
        TaskPhase::Ready => (
            TaskRunView { phase: TaskPhase::Starting, ..s },
            TaskOutputView {
                ui: seq![
                    UiEventView::TaskStart {
                        set_id: s.set_id,
                        task_id: s.task_id,
                        model_label: s.label,
                    },
                ],
                request: TaskRequestView::Hook(HookEventView::TaskStart { task_name: s.task_name }),
            },
        ),
        TaskPhase::Starting => enter_step(absorb(s, reply), Seq::empty()),
        TaskPhase::Pre => on_pre(s, cfg, reply),
        TaskPhase::Bridge => on_bridge(s, reply),
        TaskPhase::Post => if has_step(s) {
            enter_step(TaskRunView { pos: s.pos + 1, ..absorb(s, reply) }, Seq::empty())
        } else {
            finish_steps(absorb(s, reply), Seq::empty())
        },
        TaskPhase::Ending => (
            TaskRunView { phase: TaskPhase::Finished, ..s },
            TaskOutputView {
                ui: seq![UiEventView::TaskEnd { set_id: s.set_id, task_id: s.task_id, ok: s.ok }],
                request: TaskRequestView::Done { ok: s.ok },
            },
        ),
        TaskPhase::Finished => (
            s,
            TaskOutputView { ui: Seq::empty(), request: TaskRequestView::Done { ok: s.ok } },
        ),
    }
}

impl TaskRun {
    /// The run of `task` within the set `set_id`, before its first move.
    pub fn new(set_id: &str, task: &TaskSpec, ctx: HookContext) -> (r: TaskRun)
        ensures
            r@ == initial_run(set_id@, task@, ctx@),
    {
        let label = match &task.model_profile {
            Some(p) => p.clone(),
            None => "default".to_owned(),
        };
        TaskRun {
            set_id: set_id.to_owned(),
            task_id: task.id.clone(),
            task_name: task.name.clone(),
            label,
            steps: flat_steps(task),
            pos: 0,
            phase: TaskPhase::Ready,
            ok: true,
            cancelled: false,
            ctx,
        }
    }

    /// Makes the run end at the next point where a cancellation is seen:
    /// before the next step is turned to, and between a pre-event and its
    /// bridge call.
    pub fn cancel(&mut self)
        ensures
            final(self)@ == (TaskRunView { cancelled: true, ..old(self)@ }),
    {
        self.cancelled = true;
    }

    pub fn phase(&self) -> (p: TaskPhase)
        ensures
            p == self@.phase,
    {
        self.phase
    }

    pub fn is_finished(&self) -> (r: bool)
        ensures
            r == (self@.phase == TaskPhase::Finished),
    {
        match self.phase {
            TaskPhase::Finished => true,
            _ => false,
        }
    }

    /// Whether every step so far went well.
    pub fn ok(&self) -> (r: bool)
        ensures
            r == self@.ok,
    {
        self.ok
    }

    /// The hook context to emit the events of the task with.
    pub fn context(&self) -> (c: &HookContext)
        ensures
            c@ == self@.ctx,
    {
        &self.ctx
    }

    fn progress_event(&self, line: String) -> (e: UiEvent)
        ensures
            e@ == progress(self@, line@),
    {
        UiEvent::TaskProgress {
            set_id: self.set_id.clone(),
            task_id: self.task_id.clone(),
            line,
        }
    }

    fn absorb(&mut self, reply: &TaskReply)
        ensures
            final(self)@ == absorb(old(self)@, reply@),
    {
        match reply {
            TaskReply::Hook(HookDecision::ModifyEnv { set, remove }) => {
                self.ctx.apply_env(set, remove);
            },
            _ => {},
        }
    }

    fn finish_steps(&mut self, ui: Vec<UiEvent>) -> (out: TaskOutput)
        ensures
            (final(self)@, out@) == finish_steps(old(self)@, ui.deep_view()),
    {
        self.phase = TaskPhase::Ending;
        TaskOutput {
            ui,
            request: TaskRequest::Hook(
                HookEvent::TaskEnd { task_name: self.task_name.clone(), success: self.ok },
            ),
        }
    }

    fn enter_step(&mut self, ui: Vec<UiEvent>) -> (out: TaskOutput)
        ensures
            (final(self)@, out@) == enter_step(old(self)@, ui.deep_view()),
    {
        if self.pos >= self.steps.len() {
            self.finish_steps(ui)
        } else if self.cancelled {
            self.ok = false;
            self.finish_steps(ui)
        } else {
            self.phase = TaskPhase::Pre;
            let event = pre_event_of(&self.steps[self.pos]);
            TaskOutput { ui, request: TaskRequest::Hook(event) }
        }
    }

    fn on_pre(&mut self, cfg: &Config, reply: TaskReply) -> (out: TaskOutput)
        ensures
            (final(self)@, out@) == on_pre(old(self)@, cfg@, reply@),
    {
        let ghost s = self@;
        self.absorb(&reply);
        let mut ui: Vec<UiEvent> = Vec::new();
        assert(ui.deep_view() =~= Seq::<UiEventView>::empty());
        if self.pos >= self.steps.len() {
            return self.finish_steps(ui);
        }
        match reply {
            TaskReply::Hook(HookDecision::Deny { reason }) => {
                let mut line = "denied by hook: ".to_owned();
                line.append(reason.as_str());
                let e = self.progress_event(line);
                ui.push(e);
                assert(ui.deep_view() =~= seq![progress(s, denied_line(reason@))]);
                self.ok = false;
                return self.finish_steps(ui);
            },
            _ => {},
        }
        if self.cancelled {
            self.ok = false;
            return self.finish_steps(ui);
        }
        self.phase = TaskPhase::Bridge;
        let request = bridge_request_of(&self.steps[self.pos], cfg);
        TaskOutput { ui, request }
    }

    fn on_bridge(&mut self, reply: TaskReply) -> (out: TaskOutput)
        ensures
            (final(self)@, out@) == on_bridge(old(self)@, reply@),
    {
        let ghost s = self@;
        let mut ui: Vec<UiEvent> = Vec::new();
        assert(ui.deep_view() =~= Seq::<UiEventView>::empty());
        if self.pos >= self.steps.len() {
            return self.finish_steps(ui);
        }
        let ghost step = s.steps[s.pos];
        assert(step == self.steps@[self.pos as int]@);
        match (&self.steps[self.pos], reply) {
            (FlatStep::Chat { .. }, TaskReply::ChatDone) => {
                let e = self.progress_event("chat sent".to_owned());
                ui.push(e);
                assert(ui.deep_view() =~= seq![progress(s, "chat sent"@)]);
                self.phase = TaskPhase::Post;
                let result = JsonValue::Object(Vec::new());
                assert(result@->Object_0 =~= Seq::empty());
                TaskOutput {
                    ui,
                    request: TaskRequest::Hook(
                        HookEvent::PostToolUse { tool: "chat".to_owned(), result },
                    ),
                }
            },
            (FlatStep::Exec { cmd, args }, TaskReply::ExecDone { status, output_preview: _ }) => {
                let mut line = "exec ".to_owned();
                line.append(cmd.as_str());
                line.append(" -> ");
                line.append(format_i32(status).as_str());
                let event = HookEvent::PostExec {
                    cmd: cmd.clone(),
                    argv: args.deep_clone(),
                    status,
                };
                let e = self.progress_event(line);
                ui.push(e);
                assert(ui.deep_view() =~= seq![progress(s, exec_line(cmd@, status))]);
                self.phase = TaskPhase::Post;
                if status != 0 {
                    self.ok = false;
                }
                TaskOutput { ui, request: TaskRequest::Hook(event) }
            },
            (FlatStep::Mcp { server, method, .. }, TaskReply::McpDone { response }) => {
                let mut line = "mcp ".to_owned();
                line.append(server.as_str());
                line.append(".");
                line.append(method.as_str());
                let event = HookEvent::PostMcp {
                    server: server.clone(),
                    method: method.clone(),
                    payload: response,
                };
                let e = self.progress_event(line);
                ui.push(e);
                assert(ui.deep_view() =~= seq![progress(s, mcp_line(server@, method@))]);
                self.phase = TaskPhase::Post;
                TaskOutput { ui, request: TaskRequest::Hook(event) }
            },
            (current, other) => {
                let text = match other {
                    TaskReply::BridgeFailed { message } => message,
                    _ => "unexpected reply".to_owned(),
                };
                assert(text@ == failure_text(reply@));
                let line = failure_line_of(current, text.as_str());
                let e = self.progress_event(line);
                ui.push(e);
                assert(ui.deep_view() =~= seq![progress(s, failure_line(step, failure_text(reply@)))]);
                self.ok = false;
                self.pos = self.pos + 1;
                self.enter_step(ui)
            },
        }
    }

    /// Makes the next move of the run. `reply` answers the request of the
    /// move before; the first move takes `Start`.
    pub fn advance(&mut self, cfg: &Config, reply: TaskReply) -> (out: TaskOutput)
        ensures
            (final(self)@, out@) == task_step(old(self)@, cfg@, reply@),
    {
        match self.phase {
            TaskPhase::Ready => {
                self.phase = TaskPhase::Starting;
                let mut ui: Vec<UiEvent> = Vec::new();
                ui.push(
                    UiEvent::TaskStart {
                        set_id: self.set_id.clone(),
                        task_id: self.task_id.clone(),
                        model_label: self.label.clone(),
                    },
                );
                assert(ui.deep_view() =~= seq![
                    UiEventView::TaskStart {
                        set_id: self@.set_id,
                        task_id: self@.task_id,
                        model_label: self@.label,
                    },
                ]);
                TaskOutput {
                    ui,
                    request: TaskRequest::Hook(
                        HookEvent::TaskStart { task_name: self.task_name.clone() },
                    ),
                }
            },
            TaskPhase::Starting => {
                self.absorb(&reply);
                let ui: Vec<UiEvent> = Vec::new();
                assert(ui.deep_view() =~= Seq::<UiEventView>::empty());
                self.enter_step(ui)
            },
            TaskPhase::Pre => self.on_pre(cfg, reply),
            TaskPhase::Bridge => self.on_bridge(reply),
            TaskPhase::Post => {
                self.absorb(&reply);
                let ui: Vec<UiEvent> = Vec::new();
                assert(ui.deep_view() =~= Seq::<UiEventView>::empty());
                if self.pos < self.steps.len() {
                    self.pos = self.pos + 1;
                    self.enter_step(ui)
                } else {
                    self.finish_steps(ui)
                }
            },
            TaskPhase::Ending => {
                self.phase = TaskPhase::Finished;
                let mut ui: Vec<UiEvent> = Vec::new();
                ui.push(
                    UiEvent::TaskEnd {
                        set_id: self.set_id.clone(),
                        task_id: self.task_id.clone(),
                        ok: self.ok,
                    },
                );
                assert(ui.deep_view() =~= seq![
                    UiEventView::TaskEnd {
                        set_id: self@.set_id,
                        task_id: self@.task_id,
                        ok: self@.ok,
                    },
                ]);
                TaskOutput { ui, request: TaskRequest::Done { ok: self.ok } }
            },
            TaskPhase::Finished => {
                let ui: Vec<UiEvent> = Vec::new();
                assert(ui.deep_view() =~= Seq::<UiEventView>::empty());
                TaskOutput { ui, request: TaskRequest::Done { ok: self.ok } }
            },
        }
    }
}

/// The event that goes out before the bridge call of `step`.
pub fn pre_event_of(step: &FlatStep) -> (e: HookEvent)
    ensures
        e@ == pre_event(step@),
{
    match step {
        FlatStep::Chat { prompt, step_profile, active_profile: _ } => {
            let profile = match step_profile {
                Some(p) => JsonValue::Text(p.clone()),
                None => JsonValue::Null,
            };
            let mut members: Vec<(String, JsonValue)> = Vec::new();
            members.push(("model_profile".to_owned(), profile));
            members.push(("prompt".to_owned(), JsonValue::Text(prompt.clone())));
            let ghost first = profile.deep_view();
            let ghost m = members@;
            assert(m.len() == 2);
            assert(m[0].0@ == "model_profile"@ && m[0].1.deep_view() == first);
            assert(m[1].0@ == "prompt"@ && m[1].1.deep_view() == JsonView::Text(prompt@));
            let args = JsonValue::Object(members);
            proof {
                let a = args@->Object_0;
                let b = chat_args(prompt@, step_profile.deep_view())->Object_0;
                assert(a.len() == 2);
                assert(a[0] == (m[0].0@, m[0].1.deep_view()));
                assert(a[1] == (m[1].0@, m[1].1.deep_view()));
                assert(a =~= b);
            }
            HookEvent::PreToolUse { tool: "chat".to_owned(), args }
        },
        FlatStep::Exec { cmd, args } => HookEvent::PreExec {
            cmd: cmd.clone(),
            argv: args.deep_clone(),
        },
        FlatStep::Mcp { server, method, payload } => HookEvent::PreMcp {
            server: server.clone(),
            method: method.clone(),
            payload: payload.deep_clone(),
        },
    }
}

/// The bridge call of `step`.
pub fn bridge_request_of(step: &FlatStep, cfg: &Config) -> (r: TaskRequest)
    ensures
        r@ == bridge_request(step@, cfg@),
{
    match step {
        FlatStep::Chat { prompt, step_profile, active_profile } => {
            let target = match cfg.profile(step_profile) {
                Some(t) => t,
                None => match cfg.profile(active_profile) {
                    Some(t) => t,
                    None => cfg.pick_model(ModelRole::Chat),
                },
            };
            let base_url = match &target.base_url {
                Some(u) => u.clone(),
                None => String::new(),
            };
            TaskRequest::Chat { model_name: target.name.clone(), base_url, prompt: prompt.clone() }
        },
        FlatStep::Exec { cmd, args } => TaskRequest::Exec {
            cmd: cmd.clone(),
            args: args.deep_clone(),
        },
        FlatStep::Mcp { server, method, payload } => TaskRequest::Mcp {
            server: server.clone(),
            method: method.clone(),
            payload: payload.deep_clone(),
        },
    }
}

fn failure_line_of(step: &FlatStep, text: &str) -> (line: String)
    ensures
        line@ == failure_line(step@, text@),
{
    match step {
        FlatStep::Chat { .. } => {
            let mut line = "chat failed: ".to_owned();
            line.append(text);
            line
        },
        FlatStep::Exec { cmd, .. } => {
            let mut line = "exec ".to_owned();
            line.append(cmd.as_str());
            line.append(" failed: ");
            line.append(text);
            line
        },
        FlatStep::Mcp { server, method, .. } => {
            let mut line = "mcp ".to_owned();
            line.append(server.as_str());
            line.append(".");
            line.append(method.as_str());
            line.append(" failed: ");
            line.append(text);
            line
        },
    }
}

} // verus!
