//! What holds of every run of a plan, whatever the host reports.

use vstd::prelude::*;
use crate::config::ConfigView;
use crate::scheduler::{PlanPhase, PlanReply, PlanRequestView, PlanRunView, has_set, plan_step,
    start_requests};
use crate::taskset::{TaskSetPlanView, UiEventView};

verus! {

/// The start event of set `k` of a plan.
pub open spec fn set_start(plan: TaskSetPlanView, k: int) -> UiEventView {
    UiEventView::TaskSetStart { set_id: plan.sets[k].set_id, title: plan.sets[k].title }
}

/// Whether `e` is an end event of set `k` of a plan.
pub open spec fn is_set_end(plan: TaskSetPlanView, k: int, e: UiEventView) -> bool {
    e matches UiEventView::TaskSetEnd { set_id, .. } && set_id == plan.sets[k].set_id
}

/// The form of the events of the scheduler when `k` sets have ended: for each
/// of them, in plan order, its start event and then its end event; and after
/// those the start event of set `k`, where that set is open.
pub open spec fn set_brackets(
    plan: TaskSetPlanView,
    stream: Seq<UiEventView>,
    k: int,
    open: bool,
) -> bool {
    &&& stream.len() == 2 * k + if open { 1int } else { 0int }
    &&& forall|i: int|
        0 <= i < k ==> #[trigger] stream[2 * i] == set_start(plan, i) && is_set_end(
            plan,
            i,
            stream[2 * i + 1],
        )
    &&& open ==> stream[2 * k] == set_start(plan, k)
}

/// What every state of a run satisfies.
pub open spec fn plan_inv(s: PlanRunView) -> bool {
    &&& 0 <= s.set <= s.plan.sets.len()
    &&& s.phase == PlanPhase::SetExecuting ==> {
        &&& has_set(s)
        &&& 0 <= s.finished < s.started <= s.plan.sets[s.set].tasks.len()
    }
    &&& s.phase != PlanPhase::SetExecuting ==> s.started == 0 && s.finished == 0
    &&& s.phase == PlanPhase::Idle ==> s.set == 0
    &&& s.phase == PlanPhase::PlanDone ==> s.set == s.plan.sets.len()
}

/// The events shown so far bracket the sets that have ended, and open the
/// set that executes.
pub open spec fn ui_inv(s: PlanRunView, stream: Seq<UiEventView>) -> bool {
    set_brackets(s.plan, stream, s.set, s.phase == PlanPhase::SetExecuting)
}

/// A move keeps the plan.
pub proof fn lemma_plan_step_keeps_plan(s: PlanRunView, cfg: ConfigView, reply: PlanReply)
    ensures
        plan_step(s, cfg, reply).0.plan == s.plan,
        s.cancelled ==> plan_step(s, cfg, reply).0.cancelled,
{
}

/// A move keeps `plan_inv` and the bracket form of the events.
pub proof fn lemma_plan_step_keeps_brackets(
    s: PlanRunView,
    cfg: ConfigView,
    reply: PlanReply,
    stream: Seq<UiEventView>,
)
    requires
        plan_inv(s),
        ui_inv(s, stream),
    ensures
        plan_inv(plan_step(s, cfg, reply).0),
        ui_inv(plan_step(s, cfg, reply).0, stream + plan_step(s, cfg, reply).1.ui),
{
    let (t, out) = plan_step(s, cfg, reply);
    let after = stream + out.ui;
    let plan = s.plan;
    assert(plan_inv(t));
    if out.ui.len() == 0 {
        assert(after =~= stream);
    } else {
        assert forall|i: int| 0 <= i < s.set implies #[trigger] after[2 * i] == set_start(plan, i)
            && is_set_end(plan, i, after[2 * i + 1]) by {
            assert(after[2 * i] == stream[2 * i]);
            assert(after[2 * i + 1] == stream[2 * i + 1]);
        }
        if s.phase == PlanPhase::SetExecuting {
            // The open set ends.
            assert(after[2 * s.set] == stream[2 * s.set]);
            assert(after[2 * s.set + 1] == out.ui[0]);
        } else if out.ui.len() == 1 {
            // A set opens.
            assert(after[2 * s.set] == out.ui[0]);
        } else {
            // A set without tasks opens and ends.
            assert(after[2 * s.set] == out.ui[0]);
            assert(after[2 * s.set + 1] == out.ui[1]);
        }
        assert forall|i: int| 0 <= i < t.set implies #[trigger] after[2 * i] == set_start(plan, i)
            && is_set_end(plan, i, after[2 * i + 1]) by {
            if i < s.set {
            }
        }
    }
}

/// Whether a request asks to start a task.
pub open spec fn is_start(r: PlanRequestView) -> bool {
    r is StartTask
}

/// The requests to start a task among `requests`, in order.
pub open spec fn starts_in(requests: Seq<PlanRequestView>) -> Seq<PlanRequestView> {
    requests.filter(|r: PlanRequestView| is_start(r))
}

/// One request for every task of the first `k` sets, in plan order.
pub open spec fn all_starts(plan: TaskSetPlanView, k: int) -> Seq<PlanRequestView>
    decreases k,
{
    if k <= 0 {
        Seq::empty()
    } else {
        all_starts(plan, k - 1) + start_requests(k - 1, 0, plan.sets[k - 1].tasks.len() as int)
    }
}

/// The start requests that a run which was not cancelled has made when it
/// stands at `s`: one for every task of the sets that have ended, and one
/// for each of the first `started` tasks of the set that executes.
pub open spec fn expected_starts(s: PlanRunView) -> Seq<PlanRequestView> {
    all_starts(s.plan, s.set) + start_requests(s.set, 0, s.started)
}

proof fn lemma_starts_of_starts(k: int, from: int, to: int)
    ensures
        starts_in(start_requests(k, from, to)) == start_requests(k, from, to),
    decreases to - from,
{
    reveal(Seq::filter);
    let r = start_requests(k, from, to);
    if to > from {
        lemma_starts_of_starts(k, from, to - 1);
        assert(r.drop_last() =~= start_requests(k, from, to - 1));
        assert(is_start(r.last()));
        assert(starts_in(r) =~= r);
    } else {
        assert(r =~= Seq::<PlanRequestView>::empty());
    }
}

proof fn lemma_starts_of_other(r: PlanRequestView)
    requires
        !is_start(r),
    ensures
        starts_in(seq![r]) == Seq::<PlanRequestView>::empty(),
        starts_in(Seq::<PlanRequestView>::empty()) == Seq::<PlanRequestView>::empty(),
{
    reveal_with_fuel(Seq::filter, 2);
    assert(seq![r].drop_last() =~= Seq::<PlanRequestView>::empty());
    assert(seq![r].last() == r);
}

/// A move of a run that is not cancelled keeps the start requests in step
/// with the state: every task is asked to start exactly once, in plan order.
pub proof fn lemma_plan_step_keeps_starts(
    s: PlanRunView,
    cfg: ConfigView,
    reply: PlanReply,
    requests: Seq<PlanRequestView>,
)
    requires
        plan_inv(s),
        starts_in(requests) == expected_starts(s),
        !plan_step(s, cfg, reply).0.cancelled,
    ensures
        starts_in(requests + plan_step(s, cfg, reply).1.requests) == expected_starts(
            plan_step(s, cfg, reply).0,
        ),
{
    let (t, out) = plan_step(s, cfg, reply);
    let pred = |r: PlanRequestView| is_start(r);
    Seq::filter_distributes_over_add(requests, out.requests, pred);
    assert(starts_in(requests + out.requests) == starts_in(requests) + starts_in(out.requests));
    let none = Seq::<PlanRequestView>::empty();
    lemma_starts_of_other(PlanRequestView::AwaitConfirmation);
    lemma_starts_of_other(PlanRequestView::Done { cancelled: false });
    lemma_starts_of_other(PlanRequestView::Done { cancelled: true });
    if has_set(s) {
        let title = s.plan.sets[s.set].title;
        lemma_starts_of_other(crate::scheduler::summary_request(cfg, title));
    }
    let n = if has_set(s) {
        s.plan.sets[s.set].tasks.len() as int
    } else {
        0
    };
    lemma_starts_of_starts(s.set, 0, n);
    lemma_starts_of_starts(s.set, 0, 1);
    lemma_starts_of_starts(s.set, s.started, s.started + 1);
    assert(start_requests(s.set, 0, 0) =~= none);
    assert(start_requests(s.set + 1, 0, 0) =~= none);
    assert(start_requests(s.set, 0, s.started) + start_requests(s.set, s.started, s.started + 1)
        =~= start_requests(s.set, 0, s.started + 1));
    if t.set == s.set + 1 {
        // A set ended: all of its tasks were started.
        assert(all_starts(s.plan, t.set) == all_starts(s.plan, s.set) + start_requests(
            s.set,
            0,
            n,
        ));
    }
    assert(starts_in(requests) + starts_in(out.requests) =~= expected_starts(t));
}

/// The state after the reports `replies`, with the events shown and the
/// requests made on the way.
pub open spec fn run_plan(s: PlanRunView, cfg: ConfigView, replies: Seq<PlanReply>) -> (
    PlanRunView,
    Seq<UiEventView>,
    Seq<PlanRequestView>,
)
    decreases replies.len(),
{
    if replies.len() == 0 {
        (s, Seq::empty(), Seq::empty())
    } else {
        let (mid, shown, asked) = run_plan(s, cfg, replies.drop_last());
        let (end, out) = plan_step(mid, cfg, replies.last());
        (end, shown + out.ui, asked + out.requests)
    }
}

/// Whatever the host reports, the events of a run from its start bracket the
/// sets: each set that has ended has exactly one start event and one end
/// event, in plan order. And as long as the run is not cancelled, exactly
/// one request to start was made for every task of the sets that have ended
/// and for the started tasks of the set that executes. In particular, when
/// the plan is done every set has its pair of events and every task was
/// started once.
pub proof fn lemma_run_plan(plan: TaskSetPlanView, cfg: ConfigView, replies: Seq<PlanReply>)
    ensures
        ({
            let (s, shown, asked) = run_plan(crate::scheduler::initial_plan_run(plan), cfg, replies);
            &&& s.plan == plan
            &&& plan_inv(s)
            &&& ui_inv(s, shown)
            &&& !s.cancelled ==> starts_in(asked) == expected_starts(s)
            &&& s.phase == PlanPhase::PlanDone ==> shown.len() == 2 * plan.sets.len()
            &&& s.phase == PlanPhase::PlanDone && !s.cancelled ==> starts_in(asked) == all_starts(
                plan,
                plan.sets.len() as int,
            )
        }),
    decreases replies.len(),
{
    let start = crate::scheduler::initial_plan_run(plan);
    if replies.len() == 0 {
        reveal(Seq::filter);
        assert(start_requests(0, 0, 0) =~= Seq::<PlanRequestView>::empty());
        assert(expected_starts(start) =~= Seq::<PlanRequestView>::empty());
    } else {
        lemma_run_plan(plan, cfg, replies.drop_last());
        let (mid, shown, asked) = run_plan(start, cfg, replies.drop_last());
        lemma_plan_step_keeps_plan(mid, cfg, replies.last());
        lemma_plan_step_keeps_brackets(mid, cfg, replies.last(), shown);
        let (end, out) = plan_step(mid, cfg, replies.last());
        if !end.cancelled {
            lemma_plan_step_keeps_starts(mid, cfg, replies.last(), asked);
        }
        if end.phase == PlanPhase::PlanDone {
            assert(start_requests(end.set, 0, 0) =~= Seq::<PlanRequestView>::empty());
            assert(all_starts(plan, end.set) + Seq::<PlanRequestView>::empty() =~= all_starts(
                plan,
                end.set,
            ));
        }
    }
}

} // verus!
