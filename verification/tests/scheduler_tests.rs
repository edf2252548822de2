use annex::config::{Config, ModelTarget};
use annex::hooks::{HookContext, HookDecision, HookEvent};
use annex::json::JsonValue;
use annex::runner::{TaskPhase, TaskReply, TaskRequest, TaskRun};
use annex::scheduler::{PlanPhase, PlanReply, PlanRequest, PlanRun};
use annex::strmap::StrMap;
use annex::taskset::{flat_steps, FlatStep, TaskSetPlan, TaskSetSpec, TaskSpec, TaskStep, UiEvent};

fn s(x: &str) -> String {
    x.to_string()
}

fn ctx() -> HookContext {
    HookContext { cwd: s("/ws"), session_id: s("sess"), env: StrMap::new() }
}

fn exec_step(cmd: &str) -> TaskStep {
    TaskStep::Exec { cmd: s(cmd), args: vec![] }
}

fn task(id: &str, steps: Vec<TaskStep>) -> TaskSpec {
    TaskSpec { id: s(id), name: format!("name-{}", id), model_profile: None, steps }
}

fn set(id: &str, mode: &str, tasks: Vec<TaskSpec>) -> TaskSetSpec {
    TaskSetSpec { set_id: s(id), title: format!("Title {}", id), mode: s(mode), tasks }
}

fn cfg() -> Config {
    let mut c = Config::default();
    c.models.default = ModelTarget::named(s("base"));
    let mut status = ModelTarget::named(s("status-model"));
    status.base_url = Some(s("https://status.example"));
    c.models.overrides.insert(s("task_status"), status);
    c
}

/// What a host did while it ran a plan.
struct Trace {
    ui: Vec<UiEvent>,
    hooks: Vec<HookEvent>,
    execs: Vec<(String, Vec<String>)>,
    chats: Vec<(String, String, String)>,
    log: Vec<String>,
}

/// Runs one task to its end. `exec` answers the exec bridge; `hook` answers
/// the hook engine.
fn drive_task(
    run: &mut TaskRun,
    cfg: &Config,
    exec: &mut dyn FnMut(&str) -> Result<i32, String>,
    hook: &mut dyn FnMut(&HookEvent) -> HookDecision,
    trace: &mut Trace,
) -> bool {
    let mut reply = TaskReply::Start;
    loop {
        let out = run.advance(cfg, reply);
        trace.ui.extend(out.ui);
        reply = match out.request {
            TaskRequest::Hook(event) => {
                trace.log.push(format!("hook {}", event.tag()));
                let d = hook(&event);
                trace.hooks.push(event);
                TaskReply::Hook(d)
            }
            TaskRequest::Exec { cmd, args } => {
                trace.log.push(format!("exec {}", cmd));
                let r = exec(&cmd);
                trace.execs.push((cmd, args));
                match r {
                    Ok(status) => TaskReply::ExecDone { status, output_preview: String::new() },
                    Err(message) => TaskReply::BridgeFailed { message },
                }
            }
            TaskRequest::Chat { model_name, base_url, prompt } => {
                trace.log.push(format!("chat {}", model_name));
                trace.chats.push((model_name, base_url, prompt));
                TaskReply::ChatDone
            }
            TaskRequest::Mcp { server, method, payload } => {
                trace.log.push(format!("mcp {}.{}", server, method));
                TaskReply::McpDone { response: JsonValue::Array(vec![payload]) }
            }
            TaskRequest::Done { ok } => return ok,
        };
    }
}

/// Runs a plan to its end, tasks of a set in the order in which they are
/// asked for, and confirms every next set.
fn drive_plan(
    plan: TaskSetPlan,
    cfg: &Config,
    exec: &mut dyn FnMut(&str) -> Result<i32, String>,
    hook: &mut dyn FnMut(&HookEvent) -> HookDecision,
) -> (Trace, PlanPhase) {
    let mut trace = Trace { ui: vec![], hooks: vec![], execs: vec![], chats: vec![], log: vec![] };
    let mut run = PlanRun::new(plan);
    let mut pending = std::collections::VecDeque::new();
    pending.push_back(PlanReply::Begin);
    while let Some(reply) = pending.pop_front() {
        let out = run.advance(cfg, reply);
        trace.ui.extend(out.ui);
        for request in out.requests {
            match request {
                PlanRequest::StartTask { set, task } => {
                    let mut t = run.task_run(set, task, ctx()).unwrap();
                    let ok = drive_task(&mut t, cfg, exec, hook, &mut trace);
                    pending.push_back(PlanReply::TaskFinished { ok });
                }
                PlanRequest::Summarize { model_name, base_url, prompt } => {
                    trace.log.push(format!("summary {}", model_name));
                    trace.chats.push((model_name, base_url, prompt));
                    pending.push_back(PlanReply::Summarized);
                }
                PlanRequest::AwaitConfirmation => pending.push_back(PlanReply::Confirmed),
                PlanRequest::Done { .. } => {}
            }
        }
    }
    let phase = run.phase();
    (trace, phase)
}

fn two_task_plan(mode: &str) -> TaskSetPlan {
    TaskSetPlan {
        session_id: s("sess"),
        sets: vec![set("set", mode, vec![task("t1", vec![exec_step("true")]), task("t2", vec![exec_step("true")])])],
    }
}

fn start(set: &str, task: &str) -> UiEvent {
    UiEvent::TaskStart { set_id: s(set), task_id: s(task), model_label: s("default") }
}

fn progress(set: &str, task: &str, line: &str) -> UiEvent {
    UiEvent::TaskProgress { set_id: s(set), task_id: s(task), line: s(line) }
}

fn end(set: &str, task: &str, ok: bool) -> UiEvent {
    UiEvent::TaskEnd { set_id: s(set), task_id: s(task), ok }
}

#[test]
fn sequential_happy_path() {
    let (trace, phase) = drive_plan(two_task_plan("sequential"), &cfg(), &mut |_| Ok(0), &mut |_| HookDecision::Continue);
    assert_eq!(trace.ui, vec![
        UiEvent::TaskSetStart { set_id: s("set"), title: s("Title set") },
        start("set", "t1"),
        progress("set", "t1", "exec true -> 0"),
        end("set", "t1", true),
        start("set", "t2"),
        progress("set", "t2", "exec true -> 0"),
        end("set", "t2", true),
        UiEvent::TaskSetEnd { set_id: s("set"), ok: true },
    ]);
    assert_eq!(trace.chats, vec![(
        s("status-model"),
        s("https://status.example"),
        s("Task set 'Title set' finished. Summarize status of each task and propose refinements for the next set."),
    )]);
    assert_eq!(trace.execs.len(), 2);
    assert_eq!(phase, PlanPhase::PlanDone);
}

#[test]
fn exec_failure_marks_task_and_set_but_later_tasks_run() {
    let mut calls = 0;
    let (trace, phase) = drive_plan(
        two_task_plan("sequential"),
        &cfg(),
        &mut |_| {
            calls += 1;
            if calls == 1 { Ok(1) } else { Ok(0) }
        },
        &mut |_| HookDecision::Continue,
    );
    assert_eq!(trace.ui, vec![
        UiEvent::TaskSetStart { set_id: s("set"), title: s("Title set") },
        start("set", "t1"),
        progress("set", "t1", "exec true -> 1"),
        end("set", "t1", false),
        start("set", "t2"),
        progress("set", "t2", "exec true -> 0"),
        end("set", "t2", true),
        UiEvent::TaskSetEnd { set_id: s("set"), ok: false },
    ]);
    assert_eq!(trace.chats.len(), 1);
    assert_eq!(phase, PlanPhase::PlanDone);
}

#[test]
fn hook_veto_skips_the_step_and_fails_the_task() {
    let plan = TaskSetPlan { session_id: s("x"), sets: vec![set("set", "sequential", vec![task("t1", vec![exec_step("rm"), exec_step("ls")])])] };
    let (trace, _) = drive_plan(plan, &cfg(), &mut |_| Ok(0), &mut |e| match e {
        HookEvent::PreExec { .. } => HookDecision::Deny { reason: s("deny plugin failed") },
        _ => HookDecision::Continue,
    });
    assert!(trace.execs.is_empty());
    assert_eq!(trace.ui, vec![
        UiEvent::TaskSetStart { set_id: s("set"), title: s("Title set") },
        start("set", "t1"),
        progress("set", "t1", "denied by hook: deny plugin failed"),
        end("set", "t1", false),
        UiEvent::TaskSetEnd { set_id: s("set"), ok: false },
    ]);
    assert_eq!(trace.hooks, vec![
        HookEvent::TaskStart { task_name: s("name-t1") },
        HookEvent::PreExec { cmd: s("rm"), argv: vec![] },
        HookEvent::TaskEnd { task_name: s("name-t1"), success: false },
    ]);
}

#[test]
fn each_step_goes_pre_event_bridge_post_event() {
    let steps = vec![
        exec_step("make"),
        TaskStep::Chat { prompt: s("hello"), model_profile: None },
        TaskStep::McpCall { server: s("fs"), method: s("read"), payload: JsonValue::Text(s("p")) },
        TaskStep::Git { action: s("status"), args: vec![s("status"), s("-s")] },
    ];
    let plan = TaskSetPlan { session_id: s("x"), sets: vec![set("s", "sequential", vec![task("t", steps)])] };
    let (trace, _) = drive_plan(plan, &cfg(), &mut |_| Ok(0), &mut |_| HookDecision::Continue);
    assert_eq!(trace.log, vec![
        "hook task_start",
        "hook pre_exec", "exec make", "hook post_exec",
        "hook pre_tool_use", "chat base", "hook post_tool_use",
        "hook pre_mcp", "mcp fs.read", "hook post_mcp",
        "hook pre_exec", "exec git", "hook post_exec",
        "hook task_end",
        "summary status-model",
    ]);
    assert_eq!(trace.execs[1], (s("git"), vec![s("status"), s("-s")]));
    assert_eq!(trace.hooks[2], HookEvent::PostExec { cmd: s("make"), argv: vec![], status: 0 });
    assert_eq!(trace.hooks[6], HookEvent::PostMcp { server: s("fs"), method: s("read"), payload: JsonValue::Array(vec![JsonValue::Text(s("p"))]) });
    assert_eq!(trace.ui[2], progress("s", "t", "exec make -> 0"));
    assert_eq!(trace.ui[3], progress("s", "t", "chat sent"));
    assert_eq!(trace.ui[4], progress("s", "t", "mcp fs.read"));
    assert_eq!(trace.ui[5], progress("s", "t", "exec git -> 0"));
}

#[test]
fn a_failed_bridge_call_has_no_post_event_and_later_steps_run() {
    let plan = TaskSetPlan { session_id: s("x"), sets: vec![set("s", "sequential", vec![task("t", vec![exec_step("a"), exec_step("b")])])] };
    let (trace, _) = drive_plan(plan, &cfg(), &mut |c| if c == "a" { Err(s("no such file")) } else { Ok(0) }, &mut |_| HookDecision::Continue);
    assert_eq!(trace.log, vec![
        "hook task_start",
        "hook pre_exec", "exec a",
        "hook pre_exec", "exec b", "hook post_exec",
        "hook task_end",
        "summary status-model",
    ]);
    assert_eq!(trace.ui[2], progress("s", "t", "exec a failed: no such file"));
    assert_eq!(trace.ui[4], end("s", "t", false));
}

#[test]
fn a_parallel_set_starts_all_its_tasks_at_once() {
    let mut run = PlanRun::new(two_task_plan("parallel"));
    let c = cfg();
    let out = run.advance(&c, PlanReply::Begin);
    assert_eq!(out.ui, vec![UiEvent::TaskSetStart { set_id: s("set"), title: s("Title set") }]);
    assert_eq!(out.requests, vec![PlanRequest::StartTask { set: 0, task: 0 }, PlanRequest::StartTask { set: 0, task: 1 }]);
    assert_eq!(run.phase(), PlanPhase::SetExecuting);
    let out = run.advance(&c, PlanReply::TaskFinished { ok: true });
    assert!(out.ui.is_empty() && out.requests.is_empty());
    let out = run.advance(&c, PlanReply::TaskFinished { ok: false });
    assert_eq!(out.ui, vec![UiEvent::TaskSetEnd { set_id: s("set"), ok: false }]);
    assert!(matches!(out.requests[0], PlanRequest::Summarize { .. }));
    assert_eq!(run.phase(), PlanPhase::SetSummarizing);
    let out = run.advance(&c, PlanReply::Summarized);
    assert_eq!(out.requests, vec![PlanRequest::Done { cancelled: false }]);
    assert_eq!(run.phase(), PlanPhase::PlanDone);
}

#[test]
fn a_sequential_set_starts_its_tasks_one_by_one() {
    let mut run = PlanRun::new(two_task_plan("anything else"));
    let c = cfg();
    let out = run.advance(&c, PlanReply::Begin);
    assert_eq!(out.requests, vec![PlanRequest::StartTask { set: 0, task: 0 }]);
    let out = run.advance(&c, PlanReply::TaskFinished { ok: true });
    assert!(out.ui.is_empty());
    assert_eq!(out.requests, vec![PlanRequest::StartTask { set: 0, task: 1 }]);
    let out = run.advance(&c, PlanReply::TaskFinished { ok: true });
    assert_eq!(out.ui, vec![UiEvent::TaskSetEnd { set_id: s("set"), ok: true }]);
}

fn two_set_plan() -> TaskSetPlan {
    TaskSetPlan {
        session_id: s("x"),
        sets: vec![
            set("one", "sequential", vec![task("a", vec![exec_step("x")])]),
            set("two", "sequential", vec![]),
        ],
    }
}

#[test]
fn the_next_set_waits_for_its_confirmation() {
    let mut run = PlanRun::new(two_set_plan());
    let c = cfg();
    assert_eq!(run.phase(), PlanPhase::Idle);
    run.advance(&c, PlanReply::Begin);
    run.advance(&c, PlanReply::TaskFinished { ok: true });
    let out = run.advance(&c, PlanReply::Summarized);
    assert_eq!(out.requests, vec![PlanRequest::AwaitConfirmation]);
    assert_eq!(run.phase(), PlanPhase::AwaitingConfirmation);
    assert_eq!(run.set_index(), 1);
    let out = run.advance(&c, PlanReply::Summarized);
    assert!(out.ui.is_empty() && out.requests.is_empty());
    let out = run.advance(&c, PlanReply::Confirmed);
    assert_eq!(out.ui, vec![
        UiEvent::TaskSetStart { set_id: s("two"), title: s("Title two") },
        UiEvent::TaskSetEnd { set_id: s("two"), ok: true },
    ]);
    assert!(matches!(out.requests[0], PlanRequest::Summarize { .. }));
    let out = run.advance(&c, PlanReply::Summarized);
    assert_eq!(out.requests, vec![PlanRequest::Done { cancelled: false }]);
    assert_eq!(run.phase(), PlanPhase::PlanDone);
}

#[test]
fn a_cancellation_at_the_handshake_ends_the_plan_without_events() {
    let mut run = PlanRun::new(two_set_plan());
    let c = cfg();
    run.advance(&c, PlanReply::Begin);
    run.advance(&c, PlanReply::TaskFinished { ok: true });
    run.advance(&c, PlanReply::Summarized);
    let out = run.advance(&c, PlanReply::Cancelled);
    assert!(out.ui.is_empty());
    assert_eq!(out.requests, vec![PlanRequest::Done { cancelled: true }]);
    assert_eq!(run.phase(), PlanPhase::PlanCancelled);
    let out = run.advance(&c, PlanReply::Confirmed);
    assert!(out.ui.is_empty());
    assert_eq!(out.requests, vec![PlanRequest::Done { cancelled: true }]);
}

#[test]
fn a_cancellation_while_a_set_runs_starts_nothing_more() {
    let mut run = PlanRun::new(two_task_plan("sequential"));
    let c = cfg();
    run.advance(&c, PlanReply::Begin);
    run.cancel();
    let out = run.advance(&c, PlanReply::TaskFinished { ok: true });
    assert_eq!(out.ui, vec![UiEvent::TaskSetEnd { set_id: s("set"), ok: false }]);
    assert_eq!(out.requests, vec![PlanRequest::Done { cancelled: true }]);
    assert_eq!(run.phase(), PlanPhase::PlanCancelled);
}

#[test]
fn an_empty_plan_is_done_at_once() {
    let mut run = PlanRun::new(TaskSetPlan { session_id: s("x"), sets: vec![] });
    let out = run.advance(&cfg(), PlanReply::Begin);
    assert!(out.ui.is_empty());
    assert_eq!(out.requests, vec![PlanRequest::Done { cancelled: false }]);
    assert!(run.task_run(0, 0, ctx()).is_none());
}

#[test]
fn a_cancelled_task_lets_no_bridge_call_out_but_finishes_a_post_event() {
    let t = task("t", vec![exec_step("a"), exec_step("b")]);
    let c = cfg();
    let mut run = TaskRun::new("s", &t, ctx());
    run.advance(&c, TaskReply::Start);
    let out = run.advance(&c, TaskReply::Hook(HookDecision::Continue));
    assert!(matches!(out.request, TaskRequest::Hook(HookEvent::PreExec { .. })));
    run.cancel();
    let out = run.advance(&c, TaskReply::Hook(HookDecision::Continue));
    assert_eq!(out.request, TaskRequest::Hook(HookEvent::TaskEnd { task_name: s("name-t"), success: false }));
    let out = run.advance(&c, TaskReply::Hook(HookDecision::Continue));
    assert_eq!(out.ui, vec![end("s", "t", false)]);
    assert_eq!(out.request, TaskRequest::Done { ok: false });
    assert!(run.is_finished());

    let mut run = TaskRun::new("s", &t, ctx());
    run.advance(&c, TaskReply::Start);
    run.advance(&c, TaskReply::Hook(HookDecision::Continue));
    let out = run.advance(&c, TaskReply::Hook(HookDecision::Continue));
    assert!(matches!(out.request, TaskRequest::Exec { .. }));
    assert_eq!(run.phase(), TaskPhase::Bridge);
    run.cancel();
    let out = run.advance(&c, TaskReply::ExecDone { status: 0, output_preview: s("") });
    assert_eq!(out.request, TaskRequest::Hook(HookEvent::PostExec { cmd: s("a"), argv: vec![], status: 0 }));
    let out = run.advance(&c, TaskReply::Hook(HookDecision::Continue));
    assert_eq!(out.request, TaskRequest::Hook(HookEvent::TaskEnd { task_name: s("name-t"), success: false }));
    assert!(!run.ok());
}

#[test]
fn environment_changes_stay_with_the_task() {
    let t = task("t", vec![exec_step("a")]);
    let c = cfg();
    let mut run = TaskRun::new("s", &t, ctx());
    run.advance(&c, TaskReply::Start);
    let mut set = StrMap::new();
    set.insert(s("MODE"), s("strict"));
    run.advance(&c, TaskReply::Hook(HookDecision::ModifyEnv { set, remove: vec![] }));
    assert_eq!(run.context().env.get("MODE"), Some(&s("strict")));
    let other = TaskRun::new("s", &t, ctx());
    assert_eq!(other.context().env.get("MODE"), None);
}

#[test]
fn sub_agents_nest_and_switch_the_active_profile() {
    let t = TaskSpec {
        id: s("t"),
        name: s("n"),
        model_profile: Some(s("task-profile")),
        steps: vec![
            TaskStep::Chat { prompt: s("one"), model_profile: None },
            TaskStep::SubAgent { agent: s("critic"), steps: vec![
                TaskStep::Chat { prompt: s("two"), model_profile: Some(s("own")) },
                TaskStep::SubAgent { agent: s("inner"), steps: vec![exec_step("x"), TaskStep::Chat { prompt: s("three"), model_profile: None }] },
                TaskStep::Chat { prompt: s("four"), model_profile: None },
            ] },
            TaskStep::Chat { prompt: s("five"), model_profile: None },
        ],
    };
    let chat = |p: &str, own: Option<&str>, active: &str| FlatStep::Chat { prompt: s(p), step_profile: own.map(s), active_profile: Some(s(active)) };
    assert_eq!(flat_steps(&t), vec![
        chat("one", None, "task-profile"),
        chat("two", Some("own"), "critic"),
        FlatStep::Exec { cmd: s("x"), args: vec![] },
        chat("three", None, "inner"),
        chat("four", None, "critic"),
        chat("five", None, "task-profile"),
    ]);
    let mut c = cfg();
    c.models.profiles.insert(s("own"), ModelTarget::named(s("OWN")));
    c.models.profiles.insert(s("critic"), ModelTarget::named(s("CRITIC")));
    c.models.profiles.insert(s("task-profile"), ModelTarget::named(s("TASK")));
    let plan = TaskSetPlan { session_id: s("x"), sets: vec![set("s", "sequential", vec![t])] };
    let (trace, _) = drive_plan(plan, &c, &mut |_| Ok(0), &mut |_| HookDecision::Continue);
    let models: Vec<&str> = trace.chats.iter().map(|c| c.0.as_str()).collect();
    assert_eq!(models, vec!["TASK", "OWN", "base", "CRITIC", "TASK", "status-model"]);
    assert_eq!(trace.ui[1], UiEvent::TaskStart { set_id: s("s"), task_id: s("t"), model_label: s("task-profile") });
}
