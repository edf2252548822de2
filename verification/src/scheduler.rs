//! The run of a plan: its sets in order, the tasks of a set one after
//! another or all at once, and the handshake between two sets.
//!
//! Like the run of a task, the run of a plan is a conversation. The scheduler
//! says which tasks to start, when to ask for the summary of a set and when
//! to wait for the confirmation of the next; the host runs the tasks, each
//! by a [`TaskRun`], and reports.

use vstd::prelude::*;
use vstd::string::*;
use crate::config::{Config, ConfigView, ModelRole, pick_model_spec};
use crate::hooks::HookContext;
use crate::runner::{TaskRun, initial_run};
use crate::taskset::{TaskSetPlan, TaskSetPlanView, UiEvent, UiEventView, is_parallel};
use crate::text::str_eq;

verus! {

/// Where the run of a plan stands.
///
/// A set that starts goes straight on to `SetExecuting`, and a set that is
/// completed straight on to the next set or to `PlanDone`, so the run never
/// rests in between.
#[derive(Clone, Copy, Debug, PartialEq, Eq, Structural)]
pub enum PlanPhase {
    Idle,
    /// The tasks of the current set run.
    SetExecuting,
    /// The summary of the set that just ended is asked for.
    SetSummarizing,
    /// The confirmation of the next set is waited for.
    AwaitingConfirmation,
    PlanDone,
    PlanCancelled,
}

/// What the host is asked to do.
#[derive(Debug, PartialEq, Eq)]
pub enum PlanRequest {
    /// Run the named task of the named set to its end and report the outcome.
    StartTask { set: usize, task: usize },
    /// Call the chat bridge once, with this prompt, and report when it
    /// returned.
    Summarize { model_name: String, base_url: String, prompt: String },
    /// Wait until the user confirms the next set, or cancels.
    AwaitConfirmation,
    /// Nothing: the plan is over.
    Done { cancelled: bool },
}

pub ghost enum PlanRequestView {
    StartTask { set: int, task: int },
    Summarize { model_name: Seq<char>, base_url: Seq<char>, prompt: Seq<char> },
    AwaitConfirmation,
    Done { cancelled: bool },
}

impl DeepView for PlanRequest {
    type V = PlanRequestView;

    open spec fn deep_view(&self) -> PlanRequestView {
        match self {
            PlanRequest::StartTask { set, task } => PlanRequestView::StartTask {
                set: *set as int,
                task: *task as int,
            },
            PlanRequest::Summarize { model_name, base_url, prompt } => PlanRequestView::Summarize {
                model_name: model_name@,
                base_url: base_url@,
                prompt: prompt@,
            },
            PlanRequest::AwaitConfirmation => PlanRequestView::AwaitConfirmation,
            PlanRequest::Done { cancelled } => PlanRequestView::Done { cancelled: *cancelled },
        }
    }
}

impl View for PlanRequest {
    type V = PlanRequestView;

    open spec fn view(&self) -> PlanRequestView {
        self.deep_view()
    }
}

/// What the host reports.
#[derive(Clone, Copy, Debug, PartialEq, Eq, Structural)]
pub enum PlanReply {
    /// The host is ready for the first move.
    Begin,
    /// A task that was started is over, with this outcome.
    TaskFinished { ok: bool },
    /// The summary call returned, well or not.
    Summarized,
    /// The user confirmed the next set.
    Confirmed,
    /// The plan is cancelled.
    Cancelled,
}

/// One move of the scheduler: the events to show and the requests to serve.
#[derive(Debug, PartialEq, Eq)]
pub struct PlanOutput {
    pub ui: Vec<UiEvent>,
    pub requests: Vec<PlanRequest>,
}

pub ghost struct PlanOutputView {
    pub ui: Seq<UiEventView>,
    pub requests: Seq<PlanRequestView>,
}

impl DeepView for PlanOutput {
    type V = PlanOutputView;

    open spec fn deep_view(&self) -> PlanOutputView {
        PlanOutputView { ui: self.ui.deep_view(), requests: self.requests.deep_view() }
    }
}

impl View for PlanOutput {
    type V = PlanOutputView;

    open spec fn view(&self) -> PlanOutputView {
        self.deep_view()
    }
}

/// The run of a plan.
#[derive(Debug)]
pub struct PlanRun {
    plan: TaskSetPlan,
    set: usize,
    phase: PlanPhase,
    started: usize,
    finished: usize,
    set_ok: bool,
    cancelled: bool,
}

pub ghost struct PlanRunView {
    pub plan: TaskSetPlanView,
    /// The number of sets that have ended; while a set executes, its index.
    pub set: int,
    pub phase: PlanPhase,
    /// How many tasks of the current set were started.
    pub started: int,
    /// How many tasks of the current set are over.
    pub finished: int,
    /// Whether every task of the current set that is over went well.
    pub set_ok: bool,
    pub cancelled: bool,
}

impl View for PlanRun {
    type V = PlanRunView;

    closed spec fn view(&self) -> PlanRunView {
        PlanRunView {
            plan: self.plan@,
            set: self.set as int,
            phase: self.phase,
            started: self.started as int,
            finished: self.finished as int,
            set_ok: self.set_ok,
            cancelled: self.cancelled,
        }
    }
}

/// A run before its first move.
pub open spec fn initial_plan_run(plan: TaskSetPlanView) -> PlanRunView {
    PlanRunView {
        plan,
        set: 0,
        phase: PlanPhase::Idle,
        started: 0,
        finished: 0,
        set_ok: true,
        cancelled: false,
    }
}

/// The prompt that asks for the summary of a set.
pub open spec fn summary_prompt(title: Seq<char>) -> Seq<char> {
    "Task set '"@ + title
        + "' finished. Summarize status of each task and propose refinements for the next set."@
}

/// The summary call: the prompt of the set, to the model routed for the
/// task-status role.
pub open spec fn summary_request(cfg: ConfigView, title: Seq<char>) -> PlanRequestView {
    let t = pick_model_spec(cfg, ModelRole::TaskStatus);
    PlanRequestView::Summarize {
        model_name: t.name,
        base_url: match t.base_url {
            Some(u) => u,
            None => Seq::empty(),
        },
        prompt: summary_prompt(title),
    }
}

/// Requests to start the tasks `from` up to, not including, `to` of set `k`.
pub open spec fn start_requests(k: int, from: int, to: int) -> Seq<PlanRequestView> {
    Seq::new(
        if to > from {
            (to - from) as nat
        } else {
            0
        },
        |i: int| PlanRequestView::StartTask { set: k, task: from + i },
    )
}

/// Whether the run has a current set.
pub open spec fn has_set(s: PlanRunView) -> bool {
    0 <= s.set < s.plan.sets.len()
}

/// The plan is over without having been cancelled.
pub open spec fn plan_done(s: PlanRunView, ui: Seq<UiEventView>) -> (PlanRunView, PlanOutputView) {
    (
        PlanRunView { phase: PlanPhase::PlanDone, ..s },
        PlanOutputView { ui, requests: seq![PlanRequestView::Done { cancelled: false }] },
    )
}

/// The plan is over because it was cancelled.
pub open spec fn plan_cancelled(s: PlanRunView, ui: Seq<UiEventView>) -> (
    PlanRunView,
    PlanOutputView,
) {
    (
        PlanRunView { phase: PlanPhase::PlanCancelled, cancelled: true, ..s },
        PlanOutputView { ui, requests: seq![PlanRequestView::Done { cancelled: true }] },
    )
}

/// The current set ends: its end event goes out with the conjunction of the
/// outcomes, and its summary is asked for. A run that was cancelled while
/// the set executed ends here, without summary.
pub open spec fn end_set(s: PlanRunView, cfg: ConfigView, ui: Seq<UiEventView>) -> (
    PlanRunView,
    PlanOutputView,
) {
    let set = s.plan.sets[s.set];
    let shown = ui.push(UiEventView::TaskSetEnd { set_id: set.set_id, ok: s.set_ok });
    let next = PlanRunView { set: s.set + 1, started: 0, finished: 0, ..s };
    if s.cancelled {
        plan_cancelled(next, shown)
    } else {
        (
            PlanRunView { phase: PlanPhase::SetSummarizing, ..next },
            PlanOutputView { ui: shown, requests: seq![summary_request(cfg, set.title)] },
        )
    }
}

/// The set at index `s.set` begins: its start event goes out and its tasks
/// are started, all of them where the set is parallel, the first where it is
/// not. A set without tasks ends at once. Where no set is left the plan is
/// done.
pub open spec fn begin_set(s: PlanRunView, cfg: ConfigView) -> (PlanRunView, PlanOutputView) {
    if !has_set(s) {
        plan_done(s, Seq::empty())
    } else {
        let set = s.plan.sets[s.set];
        let n = set.tasks.len() as int;
        let shown = seq![UiEventView::TaskSetStart { set_id: set.set_id, title: set.title }];
        let fresh = PlanRunView { started: 0, finished: 0, set_ok: true, ..s };
        if n == 0 {
            end_set(fresh, cfg, shown)
        } else {
            let count = if is_parallel(set.mode) {
                n
            } else {
                1
            };
            (
                PlanRunView { phase: PlanPhase::SetExecuting, started: count, ..fresh },
                PlanOutputView { ui: shown, requests: start_requests(s.set, 0, count) },
            )
        }
    }
}

/// The move on the end of a task while a set executes. The outcome joins the
/// conjunction. While tasks that were started still run, nothing else
/// happens. Else the next task of a sequential set is started, unless the
/// run is cancelled, in which case the set ends as not ok; and a set whose
/// tasks are all over ends.
pub open spec fn on_task_finished(s: PlanRunView, cfg: ConfigView, ok: bool) -> (
    PlanRunView,
    PlanOutputView,
) {
    let n = s.plan.sets[s.set].tasks.len() as int;
    if s.finished >= s.started {
        (s, PlanOutputView { ui: Seq::empty(), requests: Seq::empty() })
    } else {
        let t = PlanRunView { finished: s.finished + 1, set_ok: s.set_ok && ok, ..s };
        if t.finished < t.started {
            (t, PlanOutputView { ui: Seq::empty(), requests: Seq::empty() })
        } else if t.started < n && !t.cancelled {
            (
                PlanRunView { started: t.started + 1, ..t },
                PlanOutputView {
                    ui: Seq::empty(),
                    requests: start_requests(s.set, t.started, t.started + 1),
                },
            )
        } else if t.started < n {
            end_set(PlanRunView { set_ok: false, ..t }, cfg, Seq::empty())
        } else {
            end_set(t, cfg, Seq::empty())
        }
    }
}

/// One move of the run of a plan.
pub open spec fn plan_step(s: PlanRunView, cfg: ConfigView, reply: PlanReply) -> (
    PlanRunView,
    PlanOutputView,
) {
    let nothing = PlanOutputView { ui: Seq::empty(), requests: Seq::empty() };
    let stop = s.cancelled || reply == PlanReply::Cancelled;
    match s.phase {
        PlanPhase::Idle => if stop {
            plan_cancelled(s, Seq::empty())
        } else {
            begin_set(s, cfg)
        },
        PlanPhase::SetExecuting => if !has_set(s) {
            plan_done(s, Seq::empty())
        } else {
            match reply {
                PlanReply::TaskFinished { ok } => on_task_finished(s, cfg, ok),
                PlanReply::Cancelled => (PlanRunView { cancelled: true, ..s }, nothing),
                _ => (s, nothing),
            }
        },
        PlanPhase::SetSummarizing => if stop {
            plan_cancelled(s, Seq::empty())
        } else if has_set(s) {
            (
                PlanRunView { phase: PlanPhase::AwaitingConfirmation, ..s },
                PlanOutputView {
                    ui: Seq::empty(),
                    requests: seq![PlanRequestView::AwaitConfirmation],
                },
            )
        } else {
            plan_done(s, Seq::empty())
        },
        PlanPhase::AwaitingConfirmation => if stop {
            plan_cancelled(s, Seq::empty())
        } else if reply == PlanReply::Confirmed {
            begin_set(s, cfg)
        } else {
            (s, nothing)
        },
        PlanPhase::PlanDone => (
            s,
            PlanOutputView {
                ui: Seq::empty(),
                requests: seq![PlanRequestView::Done { cancelled: false }],
            },
        ),
        PlanPhase::PlanCancelled => (
            s,
            PlanOutputView {
                ui: Seq::empty(),
                requests: seq![PlanRequestView::Done { cancelled: true }],
            },
        ),
    }
}

impl PlanRun {
    /// The run of `plan`, before its first move.
    pub fn new(plan: TaskSetPlan) -> (r: PlanRun)
        ensures
            r@ == initial_plan_run(plan@),
    {
        PlanRun {
            plan,
            set: 0,
            phase: PlanPhase::Idle,
            started: 0,
            finished: 0,
            set_ok: true,
            cancelled: false,
        }
    }

    pub fn phase(&self) -> (p: PlanPhase)
        ensures
            p == self@.phase,
    {
        self.phase
    }

    /// The index of the current set; the number of sets that have ended.
    pub fn set_index(&self) -> (k: usize)
        ensures
            k == self@.set,
    {
        self.set
    }

    /// Asks the run to end. Tasks that run still end, the set they belong to
    /// ends, and nothing is started after that.
    pub fn cancel(&mut self)
        ensures
            final(self)@ == (PlanRunView { cancelled: true, ..old(self)@ }),
    {
        self.cancelled = true;
    }

    /// The run of task `task` of set `set`, before its first move; `None`
    /// where the plan has no such task.
    pub fn task_run(&self, set: usize, task: usize, ctx: HookContext) -> (r: Option<TaskRun>)
        ensures
            match r {
                Some(run) => {
                    &&& set < self@.plan.sets.len()
                    &&& task < self@.plan.sets[set as int].tasks.len()
                    &&& run@ == initial_run(
                        self@.plan.sets[set as int].set_id,
                        self@.plan.sets[set as int].tasks[task as int],
                        ctx@,
                    )
                },
                None => !(set < self@.plan.sets.len() && task < self@.plan.sets[set as int].tasks.len()),
            },
    {
        if set < self.plan.sets.len() {
            assert(self@.plan.sets[set as int] == self.plan.sets@[set as int]@);
            if task < self.plan.sets[set].tasks.len() {
                assert(self@.plan.sets[set as int].tasks[task as int]
                    == self.plan.sets@[set as int].tasks@[task as int]@);
                return Some(
                    TaskRun::new(
                        self.plan.sets[set].set_id.as_str(),
                        &self.plan.sets[set].tasks[task],
                        ctx,
                    ),
                );
            }
        }
        None
    }

    fn done(&mut self, ui: Vec<UiEvent>) -> (out: PlanOutput)
        ensures
            (final(self)@, out@) == plan_done(old(self)@, ui.deep_view()),
    {
        self.phase = PlanPhase::PlanDone;
        let mut requests: Vec<PlanRequest> = Vec::new();
        requests.push(PlanRequest::Done { cancelled: false });
        assert(requests.deep_view() =~= seq![PlanRequestView::Done { cancelled: false }]);
        PlanOutput { ui, requests }
    }

    fn cancelled(&mut self, ui: Vec<UiEvent>) -> (out: PlanOutput)
        ensures
            (final(self)@, out@) == plan_cancelled(old(self)@, ui.deep_view()),
    {
        self.phase = PlanPhase::PlanCancelled;
        self.cancelled = true;
        let mut requests: Vec<PlanRequest> = Vec::new();
        requests.push(PlanRequest::Done { cancelled: true });
        assert(requests.deep_view() =~= seq![PlanRequestView::Done { cancelled: true }]);
        PlanOutput { ui, requests }
    }

    fn end_set(&mut self, cfg: &Config, ui: Vec<UiEvent>) -> (out: PlanOutput)
        requires
            has_set(old(self)@),
        ensures
            (final(self)@, out@) == end_set(old(self)@, cfg@, ui.deep_view()),
    {
        let ghost s = self@;
        let ghost before = ui.deep_view();
        assert(s.plan.sets.len() == self.plan.sets@.len());
        assert(s.plan.sets[s.set] == self.plan.sets@[self.set as int]@);
        let mut ui = ui;
        ui.push(
            UiEvent::TaskSetEnd { set_id: self.plan.sets[self.set].set_id.clone(), ok: self.set_ok },
        );
        assert(ui.deep_view() =~= before.push(
            UiEventView::TaskSetEnd { set_id: s.plan.sets[s.set].set_id, ok: s.set_ok },
        ));
        let title = self.plan.sets[self.set].title.clone();
        let total: usize = self.plan.sets.len();
        assert(self.set < total);
        self.set = self.set + 1;
        self.started = 0;
        self.finished = 0;
        if self.cancelled {
            return self.cancelled(ui);
        }
        self.phase = PlanPhase::SetSummarizing;
        let target = cfg.pick_model(ModelRole::TaskStatus);
        let base_url = match &target.base_url {
            Some(u) => u.clone(),
            None => String::new(),
        };
        let mut prompt = "Task set '".to_owned();
        prompt.append(title.as_str());
        prompt.append(
            "' finished. Summarize status of each task and propose refinements for the next set.",
        );
        let mut requests: Vec<PlanRequest> = Vec::new();
        requests.push(PlanRequest::Summarize { model_name: target.name.clone(), base_url, prompt });
        assert(requests.deep_view() =~= seq![summary_request(cfg@, s.plan.sets[s.set].title)]);
        PlanOutput { ui, requests }
    }

    /// Requests to start the tasks `from` up to `to` of the current set.
    fn starts(&self, from: usize, to: usize) -> (r: Vec<PlanRequest>)
        requires
            from <= to,
        ensures
            r.deep_view() == start_requests(self@.set, from as int, to as int),
    {
        let mut r: Vec<PlanRequest> = Vec::new();
        let mut j: usize = from;
        while j < to
            invariant
                from <= j <= to,
                r@.len() == j - from,
                forall|i: int|
                    0 <= i < r@.len() ==> (#[trigger] r@[i]).deep_view()
                        == (PlanRequestView::StartTask { set: self@.set, task: from + i }),
            decreases to - j,
        {
            r.push(PlanRequest::StartTask { set: self.set, task: j });
            j += 1;
        }
        assert(r.deep_view() =~= start_requests(self@.set, from as int, to as int));
        r
    }

    fn begin_set(&mut self, cfg: &Config) -> (out: PlanOutput)
        ensures
            (final(self)@, out@) == begin_set(old(self)@, cfg@),
    {
        let ghost s = self@;
        let mut ui: Vec<UiEvent> = Vec::new();
        assert(ui.deep_view() =~= Seq::<UiEventView>::empty());
        if self.set >= self.plan.sets.len() {
            return self.done(ui);
        }
        assert(s.plan.sets[s.set] == self.plan.sets@[self.set as int]@);
        let n: usize = self.plan.sets[self.set].tasks.len();
        ui.push(
            UiEvent::TaskSetStart {
                set_id: self.plan.sets[self.set].set_id.clone(),
                title: self.plan.sets[self.set].title.clone(),
            },
        );
        assert(ui.deep_view() =~= seq![
            UiEventView::TaskSetStart {
                set_id: s.plan.sets[s.set].set_id,
                title: s.plan.sets[s.set].title,
            },
        ]);
        self.started = 0;
        self.finished = 0;
        self.set_ok = true;
        if n == 0 {
            return self.end_set(cfg, ui);
        }
        let count: usize = if str_eq(self.plan.sets[self.set].mode.as_str(), "parallel") {
            n
        } else {
            1
        };
        let requests = self.starts(0, count);
        self.phase = PlanPhase::SetExecuting;
        self.started = count;
        PlanOutput { ui, requests }
    }

    fn on_task_finished(&mut self, cfg: &Config, ok: bool) -> (out: PlanOutput)
        requires
            has_set(old(self)@),
        ensures
            (final(self)@, out@) == on_task_finished(old(self)@, cfg@, ok),
    {
        let ghost s = self@;
        assert(s.plan.sets.len() == self.plan.sets@.len());
        assert(s.plan.sets[s.set] == self.plan.sets@[self.set as int]@);
        let ui: Vec<UiEvent> = Vec::new();
        assert(ui.deep_view() =~= Seq::<UiEventView>::empty());
        let none: Vec<PlanRequest> = Vec::new();
        assert(none.deep_view() =~= Seq::<PlanRequestView>::empty());
        if self.finished >= self.started {
            return PlanOutput { ui, requests: none };
        }
        let n: usize = self.plan.sets[self.set].tasks.len();
        self.finished = self.finished + 1;
        self.set_ok = self.set_ok && ok;
        if self.finished < self.started {
            PlanOutput { ui, requests: none }
        } else if self.started < n && !self.cancelled {
            let requests = self.starts(self.started, self.started + 1);
            self.started = self.started + 1;
            PlanOutput { ui, requests }
        } else if self.started < n {
            self.set_ok = false;
            self.end_set(cfg, ui)
        } else {
            self.end_set(cfg, ui)
        }
    }

    /// Makes the next move of the run. `reply` reports what happened since
    /// the move before; the first move takes `Begin`.
    pub fn advance(&mut self, cfg: &Config, reply: PlanReply) -> (out: PlanOutput)
        ensures
            (final(self)@, out@) == plan_step(old(self)@, cfg@, reply),
    {
        let ui: Vec<UiEvent> = Vec::new();
        assert(ui.deep_view() =~= Seq::<UiEventView>::empty());
        let mut requests: Vec<PlanRequest> = Vec::new();
        assert(requests.deep_view() =~= Seq::<PlanRequestView>::empty());
        let stop = self.cancelled || reply == PlanReply::Cancelled;
        match self.phase {
            PlanPhase::Idle => {
                if stop {
                    self.cancelled(ui)
                } else {
                    self.begin_set(cfg)
                }
            },
            PlanPhase::SetExecuting => {
                if self.set >= self.plan.sets.len() {
                    return self.done(ui);
                }
                match reply {
                    PlanReply::TaskFinished { ok } => self.on_task_finished(cfg, ok),
                    PlanReply::Cancelled => {
                        self.cancelled = true;
                        PlanOutput { ui, requests }
                    },
                    _ => PlanOutput { ui, requests },
                }
            },
            PlanPhase::SetSummarizing => {
                if stop {
                    self.cancelled(ui)
                } else if self.set < self.plan.sets.len() {
                    self.phase = PlanPhase::AwaitingConfirmation;
                    requests.push(PlanRequest::AwaitConfirmation);
                    assert(requests.deep_view() =~= seq![PlanRequestView::AwaitConfirmation]);
                    PlanOutput { ui, requests }
                } else {
                    self.done(ui)
                }
            },
            PlanPhase::AwaitingConfirmation => {
                if stop {
                    self.cancelled(ui)
                } else if reply == PlanReply::Confirmed {
                    self.begin_set(cfg)
                } else {
                    PlanOutput { ui, requests }
                }
            },
            PlanPhase::PlanDone => {
                requests.push(PlanRequest::Done { cancelled: false });
                assert(requests.deep_view() =~= seq![PlanRequestView::Done { cancelled: false }]);
                PlanOutput { ui, requests }
            },
            PlanPhase::PlanCancelled => {
                requests.push(PlanRequest::Done { cancelled: true });
                assert(requests.deep_view() =~= seq![PlanRequestView::Done { cancelled: true }]);
                PlanOutput { ui, requests }
            },
        }
    }
}

} // verus!
