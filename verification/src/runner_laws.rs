//! What holds of every run of a task, whatever the host replies.

use vstd::prelude::*;
use crate::config::ConfigView;
use crate::runner::{TaskPhase, TaskReplyView, TaskRequestView, TaskRunView, bridge_request,
    has_step, pre_event, task_step};
use crate::taskset::{FlatStepView, UiEventView};
use crate::hooks::HookEventView;

verus! {

/// The event that opens the stream of a task.
pub open spec fn start_event(s: TaskRunView) -> UiEventView {
    UiEventView::TaskStart { set_id: s.set_id, task_id: s.task_id, model_label: s.label }
}

/// The event that closes the stream of a task.
pub open spec fn end_event(s: TaskRunView) -> UiEventView {
    UiEventView::TaskEnd { set_id: s.set_id, task_id: s.task_id, ok: s.ok }
}

/// Whether `e` is a progress event of the task of `s`.
pub open spec fn is_progress_of(e: UiEventView, s: TaskRunView) -> bool {
    e matches UiEventView::TaskProgress { set_id, task_id, .. } && set_id == s.set_id && task_id
        == s.task_id
}

/// The form of the events that a run has shown when it stands at `s`:
/// nothing before the first move; then the task's start event followed by
/// progress events of the task only; and, once the run is over, the task's
/// end event last, with the outcome of the run.
pub open spec fn ui_shape(s: TaskRunView, stream: Seq<UiEventView>) -> bool {
    match s.phase {
        TaskPhase::Ready => stream.len() == 0,
        TaskPhase::Finished => {
            &&& stream.len() >= 2
            &&& stream[0] == start_event(s)
            &&& stream.last() == end_event(s)
            &&& forall|i: int| 0 < i < stream.len() - 1 ==> is_progress_of(#[trigger] stream[i], s)
        },
        _ => {
            &&& stream.len() >= 1
            &&& stream[0] == start_event(s)
            &&& forall|i: int| 0 < i < stream.len() ==> is_progress_of(#[trigger] stream[i], s)
        },
    }
}

/// A move never changes which task a run belongs to, nor its steps.
pub proof fn lemma_step_keeps_identity(s: TaskRunView, cfg: ConfigView, reply: TaskReplyView)
    ensures
        ({
            let t = task_step(s, cfg, reply).0;
            &&& t.set_id == s.set_id
            &&& t.task_id == s.task_id
            &&& t.task_name == s.task_name
            &&& t.label == s.label
            &&& t.steps == s.steps
            &&& t.cancelled == s.cancelled
        }),
{
}

/// A move keeps the form of the stream: the events of a task are exactly one
/// start event, then progress events, then exactly one end event.
pub proof fn lemma_step_keeps_shape(
    s: TaskRunView,
    cfg: ConfigView,
    reply: TaskReplyView,
    stream: Seq<UiEventView>,
)
    requires
        ui_shape(s, stream),
    ensures
        ui_shape(task_step(s, cfg, reply).0, stream + task_step(s, cfg, reply).1.ui),
{
    let (t, out) = task_step(s, cfg, reply);
    let after = stream + out.ui;
    lemma_step_keeps_identity(s, cfg, reply);
    match s.phase {
        TaskPhase::Ready => {
            assert(after[0] == start_event(t));
        },
        TaskPhase::Finished => {
            assert(after =~= stream);
        },
        TaskPhase::Ending => {
            assert(after[0] == stream[0]);
            assert(after.last() == end_event(t));
            assert forall|i: int| 0 < i < after.len() - 1 implies is_progress_of(
                #[trigger] after[i],
                t,
            ) by {
                assert(after[i] == stream[i]);
            }
        },
        _ => {
            assert(after[0] == stream[0]);
            assert(t.phase != TaskPhase::Ready && t.phase != TaskPhase::Finished);
            assert forall|i: int| 0 < i < after.len() implies is_progress_of(
                #[trigger] after[i],
                t,
            ) by {
                if i < stream.len() {
                    assert(after[i] == stream[i]);
                } else {
                    assert(after[i] == out.ui[i - stream.len()]);
                }
            }
        },
    }
}

/// The state after the replies `replies`, and the events shown on the way.
pub open spec fn run_task(s: TaskRunView, cfg: ConfigView, replies: Seq<TaskReplyView>) -> (
    TaskRunView,
    Seq<UiEventView>,
)
    decreases replies.len(),
{
    if replies.len() == 0 {
        (s, Seq::empty())
    } else {
        let (mid, shown) = run_task(s, cfg, replies.drop_last());
        let (end, out) = task_step(mid, cfg, replies.last());
        (end, shown + out.ui)
    }
}

/// Whatever the host replies, the events of a run that started afresh have
/// the form of `ui_shape`: one start event first, progress events of the task
/// after it, and one end event last once the run is over.
pub proof fn lemma_run_shape(s: TaskRunView, cfg: ConfigView, replies: Seq<TaskReplyView>)
    requires
        s.phase == TaskPhase::Ready,
    ensures
        ui_shape(run_task(s, cfg, replies).0, run_task(s, cfg, replies).1),
    decreases replies.len(),
{
    if replies.len() > 0 {
        lemma_run_shape(s, cfg, replies.drop_last());
        let (mid, shown) = run_task(s, cfg, replies.drop_last());
        lemma_step_keeps_shape(mid, cfg, replies.last(), shown);
    }
}

/// A bound on the number of moves that a run still makes before it is over.
pub open spec fn moves_left(s: TaskRunView) -> nat {
    let rest: nat = if has_step(s) {
        (s.steps.len() - s.pos) as nat
    } else {
        0
    };
    match s.phase {
        TaskPhase::Ready => 3 * rest + 3,
        TaskPhase::Starting => 3 * rest + 2,
        TaskPhase::Pre => if rest > 0 {
            3 * rest + 1
        } else {
            2
        },
        TaskPhase::Bridge => if rest > 0 {
            3 * rest
        } else {
            2
        },
        TaskPhase::Post => if rest > 0 {
            (3 * rest - 1) as nat
        } else {
            2
        },
        TaskPhase::Ending => 1,
        TaskPhase::Finished => 0,
    }
}

/// Every move of a run that is not over brings it nearer to its end.
pub proof fn lemma_step_progresses(s: TaskRunView, cfg: ConfigView, reply: TaskReplyView)
    ensures
        s.phase != TaskPhase::Finished ==> moves_left(task_step(s, cfg, reply).0) < moves_left(s),
        s.phase == TaskPhase::Finished ==> task_step(s, cfg, reply).0 == s,
{
}

/// A run is over once the host has replied as often as `moves_left` says, so
/// every task that is started gets its end event.
pub proof fn lemma_run_finishes(s: TaskRunView, cfg: ConfigView, replies: Seq<TaskReplyView>)
    ensures
        moves_left(run_task(s, cfg, replies).0) + replies.len() <= moves_left(s) || run_task(
            s,
            cfg,
            replies,
        ).0.phase == TaskPhase::Finished,
        replies.len() >= moves_left(s) ==> run_task(s, cfg, replies).0.phase == TaskPhase::Finished,
    decreases replies.len(),
{
    if replies.len() > 0 {
        lemma_run_finishes(s, cfg, replies.drop_last());
        let mid = run_task(s, cfg, replies.drop_last()).0;
        lemma_step_progresses(mid, cfg, replies.last());
    }
}

/// Whether a request is a bridge call.
pub open spec fn is_bridge_call(r: TaskRequestView) -> bool {
    r is Chat || r is Exec || r is Mcp
}

/// Whether `e` is the post-event that belongs to `step`.
pub open spec fn is_post_event_of(e: HookEventView, step: FlatStepView) -> bool {
    match step {
        FlatStepView::Chat { .. } => e matches HookEventView::PostToolUse { tool, .. } && tool
            == "chat"@,
        FlatStepView::Exec { cmd, args } => e matches HookEventView::PostExec { cmd: c, argv, .. }
            && c == cmd && argv == args,
        FlatStepView::Mcp { server, method, .. } => e matches HookEventView::PostMcp {
            server: sv,
            method: m,
            ..
        } && sv == server && m == method,
    }
}

/// Whether a reply reports that the bridge call of `step` returned.
pub open spec fn returns_for(reply: TaskReplyView, step: FlatStepView) -> bool {
    match step {
        FlatStepView::Chat { .. } => reply is ChatDone,
        FlatStepView::Exec { .. } => reply is ExecDone,
        FlatStepView::Mcp { .. } => reply is McpDone,
    }
}

/// The order of a step. A pre-event is asked for only for the current step.
/// A bridge call is asked for only in answer to the decision on the
/// pre-event of the same step, and never once the run is cancelled or the
/// pre-event denied. A post-event is asked for only in answer to the return
/// of the bridge call of the same step, and always then, cancelled or not.
pub proof fn lemma_step_order(s: TaskRunView, cfg: ConfigView, reply: TaskReplyView)
    ensures
        ({
            let (t, out) = task_step(s, cfg, reply);
            &&& t.phase == TaskPhase::Pre ==> has_step(t) && out.request == TaskRequestView::Hook(
                pre_event(t.steps[t.pos]),
            )
            &&& (is_bridge_call(out.request) || t.phase == TaskPhase::Bridge) ==> {
                &&& s.phase == TaskPhase::Pre
                &&& t.phase == TaskPhase::Bridge
                &&& has_step(s)
                &&& t.pos == s.pos
                &&& out.request == bridge_request(s.steps[s.pos], cfg)
                &&& !s.cancelled
                &&& !(reply matches TaskReplyView::Hook(d) && d is Deny)
            }
            &&& t.phase == TaskPhase::Post ==> {
                &&& s.phase == TaskPhase::Bridge
                &&& has_step(s)
                &&& t.pos == s.pos
                &&& returns_for(reply, s.steps[s.pos])
                &&& out.request matches TaskRequestView::Hook(e) && is_post_event_of(
                    e,
                    s.steps[s.pos],
                )
            }
            &&& s.phase == TaskPhase::Bridge && has_step(s) && returns_for(reply, s.steps[s.pos])
                ==> t.phase == TaskPhase::Post
        }),
{
}

} // verus!
