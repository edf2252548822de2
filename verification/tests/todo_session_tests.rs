use annex::config::Config;
use annex::json::JsonValue;
use annex::session::{object_of_event, parse_write_mode, pushed_array, redact_json, redact_str,
    sensitive, should_purge, SessionEvent, SessionLogWriter, WriteMode, EMPTY_ARRAY_FILE};
use annex::subagent::{AgentDirectory, AgentProfile};
use annex::todo::{format_date, item_path, store_path, TodoError, TodoStatus, TodoStore};

fn s(x: &str) -> String {
    x.to_string()
}

fn text(x: &str) -> JsonValue {
    JsonValue::Text(s(x))
}

fn store_with(ids: &[&str]) -> TodoStore {
    let mut store = TodoStore::default();
    for (n, id) in ids.iter().enumerate() {
        store.add_with(s(id), s("2026-01-01T00:00:00+00:00"), s("2026-01-01"), s("sess"), n as u32 + 1,
            format!("title {}", id), None, vec![s("src/a.rs")], vec![s("t")]);
    }
    store
}

#[test]
fn an_added_item_is_open_and_stamped() {
    let mut store = TodoStore::default();
    let item = store.add_with(s("id-1"), s("2026-01-01T10:00:00+00:00"), s("2026-01-01"), s("sess"), 4,
        s("write tests"), Some(s("all of them")), vec![s("a.rs")], vec![s("qa")]);
    assert_eq!(item.id, "id-1");
    assert_eq!(item.status, TodoStatus::Open);
    assert_eq!(item.created_at, Some(s("2026-01-01T10:00:00+00:00")));
    assert_eq!(item.updated_at, item.created_at);
    assert_eq!(item.task_number, 4);
    assert_eq!(item.description, Some(s("all of them")));
    assert_eq!(store.items.len(), 1);
    assert_eq!(store.items[0], item);
}

#[test]
fn add_draws_a_fresh_id_and_the_current_time() {
    let mut store = TodoStore::default();
    let a = store.add(s("one"), None, vec![], vec![]);
    let b = store.add(s("two"), None, vec![s("x.rs")], vec![s("tag")]);
    assert_eq!(store.items.len(), 2);
    assert_eq!(store.items[0], a);
    assert_eq!(store.items[1], b);
    assert_ne!(a.id, b.id);
    assert_eq!(a.id.len(), 36);
    assert_eq!(a.status, TodoStatus::Open);
    assert!(a.created_at.is_some());
    assert_eq!(a.created_at, a.updated_at);
    assert_eq!(a.date.len(), 10);
    let parts: Vec<u32> = a.date.split('-').map(|p| p.parse().unwrap()).collect();
    assert!(parts.len() == 3 && (1..=12).contains(&parts[1]) && (1..=31).contains(&parts[2]));
    assert!(a.created_at.as_ref().unwrap().starts_with(&a.date[..8]));
    assert_eq!(b.files, vec![s("x.rs")]);
}

#[test]
fn setting_a_status_touches_status_and_stamp_only() {
    let mut store = store_with(&["a", "b", "c"]);
    let before = store.items[1].clone();
    let first = store.items[0].clone();
    let last = store.items[2].clone();
    store.set_status_at("b", TodoStatus::Done, s("2026-01-02T00:00:00+00:00")).unwrap();
    let after = &store.items[1];
    assert_eq!(after.status, TodoStatus::Done);
    assert_eq!(after.updated_at, Some(s("2026-01-02T00:00:00+00:00")));
    assert!(after.updated_at >= before.updated_at);
    assert_eq!(after.id, before.id);
    assert_eq!(after.session_id, before.session_id);
    assert_eq!(after.date, before.date);
    assert_eq!(after.task_number, before.task_number);
    assert_eq!(after.title, before.title);
    assert_eq!(after.description, before.description);
    assert_eq!(after.files, before.files);
    assert_eq!(after.tags, before.tags);
    assert_eq!(after.created_at, before.created_at);
    assert_eq!(store.items[0], first);
    assert_eq!(store.items[2], last);
}

#[test]
fn setting_a_status_stamps_the_current_time() {
    let mut store = store_with(&["a"]);
    assert_eq!(store.set_status("a", TodoStatus::InProgress), Ok(()));
    assert_eq!(store.items[0].status, TodoStatus::InProgress);
    assert!(store.items[0].updated_at.as_ref().unwrap().as_str() > "2026-01-01T00:00:00+00:00");
    assert_eq!(store.items[0].created_at, Some(s("2026-01-01T00:00:00+00:00")));
}

#[test]
fn an_unknown_id_is_an_error_and_changes_nothing() {
    let mut store = store_with(&["a", "b"]);
    let before = store.clone_items();
    assert_eq!(store.set_status_at("zz", TodoStatus::Done, s("now")), Err(TodoError::NotFound));
    assert_eq!(store.set_status("zz", TodoStatus::Done), Err(TodoError::NotFound));
    assert_eq!(store.remove("zz"), Err(TodoError::NotFound));
    assert_eq!(store.items, before);
    assert_eq!(TodoError::NotFound.message(), "todo not found");
}

trait CloneItems {
    fn clone_items(&self) -> Vec<annex::todo::TodoItem>;
}

impl CloneItems for TodoStore {
    fn clone_items(&self) -> Vec<annex::todo::TodoItem> {
        self.items.iter().map(|i| i.clone()).collect()
    }
}

#[test]
fn removing_keeps_the_order_of_the_rest() {
    let mut store = store_with(&["a", "b", "c"]);
    assert_eq!(store.remove("b"), Ok(()));
    let ids: Vec<&str> = store.items.iter().map(|i| i.id.as_str()).collect();
    assert_eq!(ids, vec!["a", "c"]);
    assert_eq!(store.position("c"), Some(1));
    assert_eq!(store.position("b"), None);
}

#[test]
fn item_files_are_numbered_with_three_digits() {
    let mut store = TodoStore::default();
    let item = store.add_with(s("abc"), s("now"), s("2026-01-05"), s("s1"), 7, s("t"), None, vec![], vec![]);
    assert_eq!(item_path("/ws", &item, "yaml"), "/ws/.codex/todos/2026-01-05/s1/007-abc.yaml");
    let (added, path) = store.add_and_persist("/ws", "json", "s2", 1234, s("t"), None, vec![], vec![]);
    assert_eq!(added.session_id, "s2");
    assert_eq!(added.task_number, 1234);
    assert_eq!(path, format!("/ws/.codex/todos/{}/s2/1234-{}.json", added.date, added.id));
    assert_eq!(store.items.len(), 2);
}

#[test]
fn dates_are_zero_padded() {
    assert_eq!(format_date(2026, 1, 5), "2026-01-05");
    assert_eq!(format_date(2026, 12, 31), "2026-12-31");
    assert_eq!(format_date(987, 10, 1), "0987-10-01");
}

#[test]
fn the_store_lives_below_the_workspace_unless_configured() {
    let mut cfg = Config::default();
    assert_eq!(store_path(&cfg, "/ws"), "/ws/.codex/todo.json");
    cfg.todo.path = Some(s("/elsewhere/todo.json"));
    assert_eq!(store_path(&cfg, "/ws"), "/elsewhere/todo.json");
}

#[test]
fn strings_that_give_away_secrets_are_redacted() {
    for x in ["my api_key", "TOKEN=abc", "a Secret", "password123", "xxKeYxx", "pass word token"] {
        assert!(sensitive(x), "{}", x);
        assert_eq!(redact_str(x), "[REDACTED]");
    }
    for x in ["", "hello", "ke y", "tokn", "secre t", "passwor", "[REDACTED]", "K E Y"] {
        assert!(!sensitive(x), "{}", x);
        assert_eq!(redact_str(x), x);
    }
}

#[test]
fn redaction_reaches_into_arrays_and_objects() {
    let v = JsonValue::Object(vec![
        (s("api_key"), text("plain value")),
        (s("note"), text("holds a token")),
        (s("n"), JsonValue::Number(s("42"))),
        (s("list"), JsonValue::Array(vec![
            text("ok"),
            text("PASSWORD"),
            JsonValue::Array(vec![text("deep secret"), JsonValue::Bool(true), JsonValue::Null]),
            JsonValue::Object(vec![(s("k"), text("my key"))]),
        ])),
    ]);
    let want = JsonValue::Object(vec![
        (s("api_key"), text("plain value")),
        (s("note"), text("[REDACTED]")),
        (s("n"), JsonValue::Number(s("42"))),
        (s("list"), JsonValue::Array(vec![
            text("ok"),
            text("[REDACTED]"),
            JsonValue::Array(vec![text("[REDACTED]"), JsonValue::Bool(true), JsonValue::Null]),
            JsonValue::Object(vec![(s("k"), text("[REDACTED]"))]),
        ])),
    ]);
    assert_eq!(redact_json(&v), want);
    assert_eq!(redact_json(&want), want);
}

#[test]
fn events_are_recorded_with_time_and_kind() {
    let ev = SessionEvent::Exec { cmd: s("ls"), argv: vec![s("-l"), s("src")], status: 2, cwd: s("/ws") };
    let want = JsonValue::Object(vec![
        (s("ts"), text("2026-01-01T00:00:00+00:00")),
        (s("type"), text("exec")),
        (s("cmd"), text("ls")),
        (s("argv"), JsonValue::Array(vec![text("-l"), text("src")])),
        (s("status"), JsonValue::Number(s("2"))),
        (s("cwd"), text("/ws")),
    ]);
    assert_eq!(object_of_event("2026-01-01T00:00:00+00:00", &ev), want);
    let user = object_of_event("T", &SessionEvent::UserMsg { content: s("hi") });
    assert_eq!(user, JsonValue::Object(vec![(s("ts"), text("T")), (s("type"), text("user_msg")), (s("content"), text("hi"))]));
    let model = object_of_event("T", &SessionEvent::ModelMsg { model: s("m"), content: s("c") });
    assert_eq!(model, JsonValue::Object(vec![(s("ts"), text("T")), (s("type"), text("model_msg")), (s("model"), text("m")), (s("content"), text("c"))]));
    let file = object_of_event("T", &SessionEvent::FileRef { path: s("a.rs"), reason: s("read") });
    assert_eq!(file, JsonValue::Object(vec![(s("ts"), text("T")), (s("type"), text("file_ref")), (s("path"), text("a.rs")), (s("reason"), text("read"))]));
    let meta = object_of_event("T", &SessionEvent::Meta { key: s("k"), value: JsonValue::Bool(false) });
    assert_eq!(meta, JsonValue::Object(vec![(s("ts"), text("T")), (s("type"), text("meta")), (s("key"), text("k")), (s("value"), JsonValue::Bool(false))]));
}

#[test]
fn the_writer_lays_out_one_directory_per_day_and_session() {
    let mut cfg = Config::default();
    let w = SessionLogWriter::for_day(&cfg, "/data/codex", "abc", 2026, 3, 9);
    assert_eq!(w.root_dir(), "/data/codex/sessions");
    assert_eq!(w.day_dir(), "/data/codex/sessions/2026-03-09/abc");
    assert_eq!(w.json_path(), "/data/codex/sessions/2026-03-09/abc/session.json");
    assert_eq!(w.jsonl_path(), "/data/codex/sessions/2026-03-09/abc/session.jsonl");
    assert_eq!(w.write_mode(), WriteMode::Both);
    cfg.sessions.dir = Some(s("/var/log/sessions"));
    cfg.sessions.write_mode = Some(s("jsonl"));
    let w = SessionLogWriter::for_day(&cfg, "/data/codex", "abc", 2026, 12, 31);
    assert_eq!(w.json_path(), "/var/log/sessions/2026-12-31/abc/session.json");
    assert_eq!(w.write_mode(), WriteMode::Jsonl);
    let today = SessionLogWriter::new(&cfg, "/data", "s");
    assert!(today.jsonl_path().starts_with("/var/log/sessions/"));
    assert!(today.jsonl_path().ends_with("/s/session.jsonl"));
    assert_eq!(EMPTY_ARRAY_FILE, "[]");
}

#[test]
fn the_write_mode_decides_which_files_are_written() {
    assert_eq!(parse_write_mode(&Some(s("json"))), WriteMode::Json);
    assert_eq!(parse_write_mode(&Some(s("jsonl"))), WriteMode::Jsonl);
    assert_eq!(parse_write_mode(&Some(s("both"))), WriteMode::Both);
    assert_eq!(parse_write_mode(&Some(s("JSON"))), WriteMode::Both);
    assert_eq!(parse_write_mode(&None), WriteMode::Both);
    let ev = SessionEvent::UserMsg { content: s("my password is x") };
    for (mode, json, jsonl) in [(Some("json"), true, false), (Some("jsonl"), false, true), (None, true, true)] {
        let mut cfg = Config::default();
        cfg.sessions.write_mode = mode.map(s);
        let w = SessionLogWriter::for_day(&cfg, "/d", "s", 2026, 1, 1);
        let plan = w.append_at("T", &ev);
        assert_eq!(plan.to_json, json);
        assert_eq!(plan.to_jsonl, jsonl);
        assert_eq!(plan.record, JsonValue::Object(vec![
            (s("ts"), text("T")),
            (s("type"), text("user_msg")),
            (s("content"), text("[REDACTED]")),
        ]));
        let now = w.append(&ev);
        assert_eq!(now.to_json, json);
        match now.record {
            JsonValue::Object(m) => {
                assert_eq!(m[0].0, "ts");
                assert_eq!(m[2], (s("content"), text("[REDACTED]")));
            }
            other => panic!("unexpected record {:?}", other),
        }
    }
}

#[test]
fn a_record_is_pushed_after_what_the_file_held() {
    assert_eq!(pushed_array(None, text("a")), vec![text("a")]);
    assert_eq!(pushed_array(Some(vec![]), text("a")), vec![text("a")]);
    assert_eq!(pushed_array(Some(vec![text("x"), text("y")]), text("a")), vec![text("x"), text("y"), text("a")]);
}

#[test]
fn sessions_older_than_the_days_kept_are_purged() {
    assert!(!should_purge(86400, 0, 1));
    assert!(should_purge(86400, 1, 1));
    assert!(should_purge(86401, 0, 1));
    assert!(!should_purge(86399, 999_999_999, 1));
    assert!(should_purge(1, 0, 0));
    assert!(should_purge(0, 1, 0));
    assert!(!should_purge(0, 0, 0));
    assert!(!should_purge(30 * 86400, 0, 30));
    for (secs, nanos, days) in [(0u64, 0u32, 0u32), (5, 7, 0), (86400, 0, 1), (86400, 5, 1), (200_000, 0, 2), (172_800, 1, 2), (u64::MAX, 0, u32::MAX)] {
        let want = std::time::Duration::new(secs, nanos) > std::time::Duration::from_secs(86400 * days as u64);
        assert_eq!(should_purge(secs, nanos, days), want);
    }
}

#[test]
fn profiles_are_filed_under_their_name() {
    let mut dir = AgentDirectory::default();
    assert!(dir.get("critic").is_none());
    let mut p = AgentProfile::default();
    p.name = s("critic");
    p.model = s("m1");
    dir.upsert(p);
    let mut q = AgentProfile::default();
    q.name = s("coder");
    q.model = s("m2");
    dir.upsert(q);
    assert_eq!(dir.get("critic").unwrap().model, "m1");
    let mut again = AgentProfile::default();
    again.name = s("critic");
    again.model = s("m3");
    again.mcp_enabled = vec![s("fs")];
    dir.upsert(again);
    assert_eq!(dir.get("critic").unwrap().model, "m3");
    assert_eq!(dir.get("critic").unwrap().mcp_enabled, vec![s("fs")]);
    assert_eq!(dir.get("coder").unwrap().model, "m2");
    assert!(dir.get("nobody").is_none());
}
