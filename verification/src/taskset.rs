//! Plans of work: the steps of a task, the tasks of a set, the sets of a
//! plan, and the events by which a run is shown.

use vstd::prelude::*;
use crate::json::{JsonValue, JsonView};
use crate::strmap::DeepClone;

verus! {

/// One observable action of a task.
#[derive(Debug, PartialEq, Eq)]
pub enum TaskStep {
    Chat { prompt: String, model_profile: Option<String> },
    Exec { cmd: String, args: Vec<String> },
    McpCall { server: String, method: String, payload: JsonValue },
    Git { action: String, args: Vec<String> },
    /// Nested steps that run under the profile `agent`.
    SubAgent { agent: String, steps: Vec<TaskStep> },
}

/// A task: an ordered sequence of steps, with an optional model profile of
/// its own.
#[derive(Debug, PartialEq, Eq)]
pub struct TaskSpec {
    pub id: String,
    pub name: String,
    pub model_profile: Option<String>,
    pub steps: Vec<TaskStep>,
}

/// The mathematical content of a [`TaskSpec`]; its steps are the flattened
/// ones.
pub ghost struct TaskSpecView {
    pub id: Seq<char>,
    pub name: Seq<char>,
    pub model_profile: Option<Seq<char>>,
    pub steps: Seq<FlatStepView>,
}

impl DeepView for TaskSpec {
    type V = TaskSpecView;

    open spec fn deep_view(&self) -> TaskSpecView {
        TaskSpecView {
            id: self.id@,
            name: self.name@,
            model_profile: self.model_profile.deep_view(),
            steps: flatten(self.steps@, self.model_profile.deep_view()),
        }
    }
}

impl View for TaskSpec {
    type V = TaskSpecView;

    open spec fn view(&self) -> TaskSpecView {
        self.deep_view()
    }
}

/// A batch of tasks that run one after another or all at once.
#[derive(Debug, PartialEq, Eq)]
pub struct TaskSetSpec {
    pub set_id: String,
    pub title: String,
    /// `"parallel"` runs the tasks at once; anything else runs them in order.
    pub mode: String,
    pub tasks: Vec<TaskSpec>,
}

pub ghost struct TaskSetSpecView {
    pub set_id: Seq<char>,
    pub title: Seq<char>,
    pub mode: Seq<char>,
    pub tasks: Seq<TaskSpecView>,
}

impl DeepView for TaskSetSpec {
    type V = TaskSetSpecView;

    open spec fn deep_view(&self) -> TaskSetSpecView {
        TaskSetSpecView {
            set_id: self.set_id@,
            title: self.title@,
            mode: self.mode@,
            tasks: self.tasks.deep_view(),
        }
    }
}

impl View for TaskSetSpec {
    type V = TaskSetSpecView;

    open spec fn view(&self) -> TaskSetSpecView {
        self.deep_view()
    }
}

/// An ordered list of task sets to run within a session.
#[derive(Debug, PartialEq, Eq)]
pub struct TaskSetPlan {
    pub session_id: String,
    pub sets: Vec<TaskSetSpec>,
}

pub ghost struct TaskSetPlanView {
    pub session_id: Seq<char>,
    pub sets: Seq<TaskSetSpecView>,
}

impl DeepView for TaskSetPlan {
    type V = TaskSetPlanView;

    open spec fn deep_view(&self) -> TaskSetPlanView {
        TaskSetPlanView { session_id: self.session_id@, sets: self.sets.deep_view() }
    }
}

impl View for TaskSetPlan {
    type V = TaskSetPlanView;

    open spec fn view(&self) -> TaskSetPlanView {
        self.deep_view()
    }
}

/// Whether the tasks of a set run at once.
pub open spec fn is_parallel(mode: Seq<char>) -> bool {
    mode == "parallel"@
}

/// Where a task stands.
#[derive(Debug, PartialEq, Eq)]
pub enum TaskStatus {
    Pending,
    Running { status_line: String },
    Done { ok: bool },
}

/// What a user interface is told of a run.
#[derive(Debug, PartialEq, Eq)]
pub enum UiEvent {
    TaskSetStart { set_id: String, title: String },
    TaskStart { set_id: String, task_id: String, model_label: String },
    TaskProgress { set_id: String, task_id: String, line: String },
    TaskEnd { set_id: String, task_id: String, ok: bool },
    TaskSetEnd { set_id: String, ok: bool },
}

pub ghost enum UiEventView {
    TaskSetStart { set_id: Seq<char>, title: Seq<char> },
    TaskStart { set_id: Seq<char>, task_id: Seq<char>, model_label: Seq<char> },
    TaskProgress { set_id: Seq<char>, task_id: Seq<char>, line: Seq<char> },
    TaskEnd { set_id: Seq<char>, task_id: Seq<char>, ok: bool },
    TaskSetEnd { set_id: Seq<char>, ok: bool },
}

impl DeepView for UiEvent {
    type V = UiEventView;

    open spec fn deep_view(&self) -> UiEventView {
        match self {
            UiEvent::TaskSetStart { set_id, title } => UiEventView::TaskSetStart {
                set_id: set_id@,
                title: title@,
            },
            UiEvent::TaskStart { set_id, task_id, model_label } => UiEventView::TaskStart {
                set_id: set_id@,
                task_id: task_id@,
                model_label: model_label@,
            },
            UiEvent::TaskProgress { set_id, task_id, line } => UiEventView::TaskProgress {
                set_id: set_id@,
                task_id: task_id@,
                line: line@,
            },
            UiEvent::TaskEnd { set_id, task_id, ok } => UiEventView::TaskEnd {
                set_id: set_id@,
                task_id: task_id@,
                ok: *ok,
            },
            UiEvent::TaskSetEnd { set_id, ok } => UiEventView::TaskSetEnd { set_id: set_id@, ok: *ok },
        }
    }
}

impl View for UiEvent {
    type V = UiEventView;

    open spec fn view(&self) -> UiEventView {
        self.deep_view()
    }
}

/// A step as the runner meets it, with nesting resolved.
#[derive(Debug, PartialEq, Eq)]
pub enum FlatStep {
    /// A chat step, with the profile it names and the profile that is active
    /// around it: that of the innermost sub-agent, or that of the task.
    Chat { prompt: String, step_profile: Option<String>, active_profile: Option<String> },
    /// A command; a git step is the command `git`.
    Exec { cmd: String, args: Vec<String> },
    Mcp { server: String, method: String, payload: JsonValue },
}

pub ghost enum FlatStepView {
    Chat { prompt: Seq<char>, step_profile: Option<Seq<char>>, active_profile: Option<Seq<char>> },
    Exec { cmd: Seq<char>, args: Seq<Seq<char>> },
    Mcp { server: Seq<char>, method: Seq<char>, payload: JsonView },
}

impl DeepView for FlatStep {
    type V = FlatStepView;

    open spec fn deep_view(&self) -> FlatStepView {
        match self {
            FlatStep::Chat { prompt, step_profile, active_profile } => FlatStepView::Chat {
                prompt: prompt@,
                step_profile: step_profile.deep_view(),
                active_profile: active_profile.deep_view(),
            },
            FlatStep::Exec { cmd, args } => FlatStepView::Exec { cmd: cmd@, args: args.deep_view() },
            FlatStep::Mcp { server, method, payload } => FlatStepView::Mcp {
                server: server@,
                method: method@,
                payload: payload@,
            },
        }
    }
}

impl View for FlatStep {
    type V = FlatStepView;

    open spec fn view(&self) -> FlatStepView {
        self.deep_view()
    }
}

/// The first `n` steps of `steps` in the order in which they run, nested
/// steps in place of the sub-agent step that holds them. A sub-agent makes
/// its profile the active one for its steps; after them the profile around it
/// is active again. A git step is the command `git` with the step's
/// arguments.
pub open spec fn flatten_prefix(
    steps: Seq<TaskStep>,
    n: nat,
    active: Option<Seq<char>>,
) -> Seq<FlatStepView>
    decreases steps, n,
{
    if n == 0 || n > steps.len() {
        Seq::empty()
    } else {
        flatten_prefix(steps, (n - 1) as nat, active) + (match steps[n - 1] {
            TaskStep::Chat { prompt, model_profile } => seq![
                FlatStepView::Chat {
                    prompt: prompt@,
                    step_profile: model_profile.deep_view(),
                    active_profile: active,
                },
            ],
            TaskStep::Exec { cmd, args } => seq![
                FlatStepView::Exec { cmd: cmd@, args: args.deep_view() },
            ],
            TaskStep::McpCall { server, method, payload } => seq![
                FlatStepView::Mcp { server: server@, method: method@, payload: payload@ },
            ],
            TaskStep::Git { action, args } => seq![
                FlatStepView::Exec { cmd: "git"@, args: args.deep_view() },
            ],
            TaskStep::SubAgent { agent, steps: inner } => flatten_prefix(
                inner@,
                inner@.len(),
                Some(agent@),
            ),
        })
    }
}

/// All steps of `steps` in the order in which they run.
pub open spec fn flatten(steps: Seq<TaskStep>, active: Option<Seq<char>>) -> Seq<FlatStepView> {
    flatten_prefix(steps, steps.len(), active)
}

/// Appends the steps of `steps`, flattened, to `out`.
#[verifier::loop_isolation(false)]
pub fn flatten_into(steps: &Vec<TaskStep>, active: &Option<String>, out: &mut Vec<FlatStep>)
    ensures
        final(out).deep_view() == old(out).deep_view() + flatten(steps@, active.deep_view()),
    decreases steps,
{
    let ghost base = out.deep_view();
    let ghost av = active.deep_view();
    let mut i: usize = 0;
    assert(out.deep_view() =~= base + flatten_prefix(steps@, 0, av));
    while i < steps.len()
        invariant
            i <= steps.len(),
            out.deep_view() == base + flatten_prefix(steps@, i as nat, av),
        decreases steps.len() - i,
    {
        let ghost before = out.deep_view();
        match &steps[i] {
            TaskStep::Chat { prompt, model_profile } => {
                out.push(
                    FlatStep::Chat {
                        prompt: prompt.clone(),
                        step_profile: model_profile.deep_clone(),
                        active_profile: active.deep_clone(),
                    },
                );
                assert(out.deep_view() =~= before.push(out@[out@.len() - 1].deep_view()));
            },
            TaskStep::Exec { cmd, args } => {
                out.push(FlatStep::Exec { cmd: cmd.clone(), args: args.deep_clone() });
                assert(out.deep_view() =~= before.push(out@[out@.len() - 1].deep_view()));
            },
            TaskStep::McpCall { server, method, payload } => {
                out.push(
                    FlatStep::Mcp {
                        server: server.clone(),
                        method: method.clone(),
                        payload: payload.deep_clone(),
                    },
                );
                assert(out.deep_view() =~= before.push(out@[out@.len() - 1].deep_view()));
            },
            TaskStep::Git { action: _, args } => {
                out.push(FlatStep::Exec { cmd: "git".to_owned(), args: args.deep_clone() });
                assert(out.deep_view() =~= before.push(out@[out@.len() - 1].deep_view()));
            },
            TaskStep::SubAgent { agent, steps: inner } => {
                let profile = Some(agent.clone());
                flatten_into(inner, &profile, out);
            },
        }
        assert(out.deep_view() =~= base + flatten_prefix(steps@, (i + 1) as nat, av));
        i += 1;
    }
}

/// The steps of a task as the runner meets them.
pub fn flat_steps(task: &TaskSpec) -> (r: Vec<FlatStep>)
    ensures
        r.deep_view() == task@.steps,
{
    let mut out: Vec<FlatStep> = Vec::new();
    assert(out.deep_view() =~= Seq::<FlatStepView>::empty());
    flatten_into(&task.steps, &task.model_profile, &mut out);
    assert(Seq::<FlatStepView>::empty() + task@.steps =~= task@.steps);
    out
}

} // verus!
