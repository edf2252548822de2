//! The session log: what an event is written as, what is redacted in it, and
//! where the files of a session live.

use vstd::prelude::*;
use vstd::string::*;
use crate::clock::{now_rfc3339, today_utc};
use crate::config::{Config, ConfigView};
use crate::json::{JsonValue, JsonView, members_view, object_of, push_member, text_array, text_json,
    texts_to_json};
use crate::paths::{join_path, joined};
use crate::strmap::DeepClone;
use crate::text::{chars_of, contains_chars, format_i32, has_substring, occurs_at, signed_decimal,
    str_eq, upper_chars, upper_text};
use crate::todo::{date_text, format_date};

verus! {

/// What is recorded of a session.
#[derive(Debug, PartialEq, Eq)]
pub enum SessionEvent {
    UserMsg { content: String },
    ModelMsg { model: String, content: String },
    Exec { cmd: String, argv: Vec<String>, status: i32, cwd: String },
    FileRef { path: String, reason: String },
    Meta { key: String, value: JsonValue },
}

pub ghost enum SessionEventView {
    UserMsg { content: Seq<char> },
    ModelMsg { model: Seq<char>, content: Seq<char> },
    Exec { cmd: Seq<char>, argv: Seq<Seq<char>>, status: i32, cwd: Seq<char> },
    FileRef { path: Seq<char>, reason: Seq<char> },
    Meta { key: Seq<char>, value: JsonView },
}

impl DeepView for SessionEvent {
    type V = SessionEventView;

    open spec fn deep_view(&self) -> SessionEventView {
        match self {
            SessionEvent::UserMsg { content } => SessionEventView::UserMsg { content: content@ },
            SessionEvent::ModelMsg { model, content } => SessionEventView::ModelMsg {
                model: model@,
                content: content@,
            },
            SessionEvent::Exec { cmd, argv, status, cwd } => SessionEventView::Exec {
                cmd: cmd@,
                argv: argv.deep_view(),
                status: *status,
                cwd: cwd@,
            },
            SessionEvent::FileRef { path, reason } => SessionEventView::FileRef {
                path: path@,
                reason: reason@,
            },
            SessionEvent::Meta { key, value } => SessionEventView::Meta { key: key@, value: value@ },
        }
    }
}

impl View for SessionEvent {
    type V = SessionEventView;

    open spec fn view(&self) -> SessionEventView {
        self.deep_view()
    }
}

/// Whether a string gives away a secret: its upper-case form holds one of
/// `KEY`, `TOKEN`, `SECRET`, `PASSWORD`.
pub open spec fn is_sensitive(s: Seq<char>) -> bool {
    let u = upper_text(s);
    has_substring(u, "KEY"@) || has_substring(u, "TOKEN"@) || has_substring(u, "SECRET"@)
        || has_substring(u, "PASSWORD"@)
}

/// What stands in place of a string that gives away a secret.
pub open spec fn redacted_mark() -> Seq<char> {
    "[REDACTED]"@
}

/// A string as it is logged.
pub open spec fn redact_text(s: Seq<char>) -> Seq<char> {
    if is_sensitive(s) {
        redacted_mark()
    } else {
        s
    }
}

/// A value as it is logged: every string in it, at any depth of arrays and
/// objects, is logged as `redact_text` says. Names of object members are
/// kept.
pub open spec fn redact_spec(v: JsonView) -> JsonView
    decreases v,
{
    match v {
        JsonView::Text(s) => JsonView::Text(redact_text(s)),
        JsonView::Array(items) => JsonView::Array(
            Seq::new(
                items.len(),
                |i: int|
                    if 0 <= i < items.len() {
                        redact_spec(items[i])
                    } else {
                        JsonView::Null
                    },
            ),
        ),
        JsonView::Object(members) => JsonView::Object(
            Seq::new(
                members.len(),
                |i: int|
                    (
                        members[i].0,
                        if 0 <= i < members.len() {
                            redact_spec(members[i].1)
                        } else {
                            JsonView::Null
                        },
                    ),
            ),
        ),
        other => other,
    }
}

/// Whether no string in a value, at any depth, gives away a secret.
pub open spec fn free_of_secrets(v: JsonView) -> bool
    decreases v,
{
    match v {
        JsonView::Text(s) => !is_sensitive(s),
        JsonView::Array(items) => forall|i: int|
            0 <= i < items.len() ==> free_of_secrets(#[trigger] items[i]),
        JsonView::Object(members) => forall|i: int|
            0 <= i < members.len() ==> free_of_secrets((#[trigger] members[i]).1),
        _ => true,
    }
}

/// A pattern one of whose characters does not occur in a text does not occur
/// in it either.
proof fn lemma_missing_char(hay: Seq<char>, needle: Seq<char>, j: int)
    requires
        0 <= j < needle.len(),
        forall|i: int| 0 <= i < hay.len() ==> hay[i] != needle[j],
    ensures
        !has_substring(hay, needle),
{
    assert forall|at: int| !occurs_at(hay, needle, at) by {
        if occurs_at(hay, needle, at) {
            let sub = hay.subrange(at, at + needle.len());
            assert(sub[j] == hay[at + j]);
        }
    }
}

/// The mark that stands for a redacted string is itself no secret.
pub proof fn lemma_mark_is_no_secret()
    ensures
        !is_sensitive(redacted_mark()),
{
    reveal_strlit("[REDACTED]");
    reveal_strlit("KEY");
    reveal_strlit("TOKEN");
    reveal_strlit("SECRET");
    reveal_strlit("PASSWORD");
    let u = upper_text(redacted_mark());
    assert(u.len() == 10);
    assert(u[0] == '[' && u[1] == 'R' && u[2] == 'E' && u[3] == 'D' && u[4] == 'A');
    assert(u[5] == 'C' && u[6] == 'T' && u[7] == 'E' && u[8] == 'D' && u[9] == ']');
    lemma_missing_char(u, "KEY"@, 0);
    lemma_missing_char(u, "TOKEN"@, 1);
    lemma_missing_char(u, "SECRET"@, 0);
    lemma_missing_char(u, "PASSWORD"@, 0);
}

/// Redaction at the top: a string that gives away a secret becomes the mark,
/// any other string stays.
pub proof fn lemma_redact_text(s: Seq<char>)
    ensures
        is_sensitive(s) ==> redact_spec(JsonView::Text(s)) == JsonView::Text(redacted_mark()),
        !is_sensitive(s) ==> redact_spec(JsonView::Text(s)) == JsonView::Text(s),
{
}

/// Redaction reaches every depth: after it no string anywhere in the value
/// gives away a secret.
pub proof fn lemma_redact_is_thorough(v: JsonView)
    ensures
        free_of_secrets(redact_spec(v)),
    decreases v,
{
    lemma_mark_is_no_secret();
    match v {
        JsonView::Array(items) => {
            let out = redact_spec(v)->Array_0;
            assert forall|i: int| 0 <= i < out.len() implies free_of_secrets(#[trigger] out[i]) by {
                lemma_redact_is_thorough(items[i]);
            }
        },
        JsonView::Object(members) => {
            let out = redact_spec(v)->Object_0;
            assert forall|i: int| 0 <= i < out.len() implies free_of_secrets(
                (#[trigger] out[i]).1,
            ) by {
                lemma_redact_is_thorough(members[i].1);
            }
        },
        _ => {},
    }
}

/// Whether a string gives away a secret.
pub fn sensitive(s: &str) -> (r: bool)
    ensures
        r == is_sensitive(s@),
{
    let u = upper_chars(&chars_of(s));
    contains_chars(&u, &chars_of("KEY")) || contains_chars(&u, &chars_of("TOKEN"))
        || contains_chars(&u, &chars_of("SECRET")) || contains_chars(&u, &chars_of("PASSWORD"))
}

/// A string as it is logged.
pub fn redact_str(s: &str) -> (r: String)
    ensures
        r@ == redact_text(s@),
{
    if sensitive(s) {
        "[REDACTED]".to_owned()
    } else {
        s.to_owned()
    }
}

/// A value as it is logged.
#[verifier::loop_isolation(false)]
pub fn redact_json(v: &JsonValue) -> (r: JsonValue)
    ensures
        r@ == redact_spec(v@),
    decreases v,
{
    match v {
        JsonValue::Null => JsonValue::Null,
        JsonValue::Bool(b) => JsonValue::Bool(*b),
        JsonValue::Number(n) => JsonValue::Number(n.clone()),
        JsonValue::Text(s) => JsonValue::Text(redact_str(s.as_str())),
        JsonValue::Array(items) => {
            let mut out: Vec<JsonValue> = Vec::new();
            let mut i: usize = 0;
            while i < items.len()
                invariant
                    i <= items.len(),
                    out@.len() == i,
                    forall|k: int| 0 <= k < i ==> out@[k].deep_view() == redact_spec(items@[k].deep_view()),
                decreases items.len() - i,
            {
                out.push(redact_json(&items[i]));
                i += 1;
            }
            let r = JsonValue::Array(out);
            assert(r@->Array_0 =~= redact_spec(v@)->Array_0);
            r
        },
        JsonValue::Object(members) => {
            let mut out: Vec<(String, JsonValue)> = Vec::new();
            let mut i: usize = 0;
            while i < members.len()
                invariant
                    i <= members.len(),
                    out@.len() == i,
                    forall|k: int|
                        0 <= k < i ==> out@[k].0@ == members@[k].0@ && out@[k].1.deep_view()
                            == redact_spec(members@[k].1.deep_view()),
                decreases members.len() - i,
            {
                out.push((members[i].0.clone(), redact_json(&members[i].1)));
                i += 1;
            }
            let r = JsonValue::Object(out);
            assert(r@->Object_0 =~= redact_spec(v@)->Object_0);
            r
        },
    }
}

/// The name of an event's kind in the log.
pub open spec fn event_kind(ev: SessionEventView) -> Seq<char> {
    match ev {
        SessionEventView::UserMsg { .. } => "user_msg"@,
        SessionEventView::ModelMsg { .. } => "model_msg"@,
        SessionEventView::Exec { .. } => "exec"@,
        SessionEventView::FileRef { .. } => "file_ref"@,
        SessionEventView::Meta { .. } => "meta"@,
    }
}

/// What is peculiar to an event, as object members.
pub open spec fn event_fields(ev: SessionEventView) -> Seq<(Seq<char>, JsonView)> {
    match ev {
        SessionEventView::UserMsg { content } => seq![("content"@, JsonView::Text(content))],
        SessionEventView::ModelMsg { model, content } => seq![
            ("model"@, JsonView::Text(model)),
            ("content"@, JsonView::Text(content)),
        ],
        SessionEventView::Exec { cmd, argv, status, cwd } => seq![
            ("cmd"@, JsonView::Text(cmd)),
            ("argv"@, text_array(argv)),
            ("status"@, JsonView::Number(signed_decimal(status as int))),
            ("cwd"@, JsonView::Text(cwd)),
        ],
        SessionEventView::FileRef { path, reason } => seq![
            ("path"@, JsonView::Text(path)),
            ("reason"@, JsonView::Text(reason)),
        ],
        SessionEventView::Meta { key, value } => seq![
            ("key"@, JsonView::Text(key)),
            ("value"@, value),
        ],
    }
}

/// An event as an object: its timestamp under `ts`, the name of its kind
/// under `type`, then what is peculiar to it.
pub open spec fn event_object(ts: Seq<char>, ev: SessionEventView) -> JsonView {
    JsonView::Object(
        seq![("ts"@, JsonView::Text(ts)), ("type"@, JsonView::Text(event_kind(ev)))]
            + event_fields(ev),
    )
}

/// The record of an event: its object, redacted.
pub open spec fn event_record(ts: Seq<char>, ev: SessionEventView) -> JsonView {
    redact_spec(event_object(ts, ev))
}

/// The object of an event that happened at `ts`.
pub fn object_of_event(ts: &str, ev: &SessionEvent) -> (r: JsonValue)
    ensures
        r@ == event_object(ts@, ev@),
{
    let mut m: Vec<(String, JsonValue)> = Vec::new();
    assert(members_view(m@) =~= Seq::empty());
    push_member(&mut m, "ts", text_json(ts));
    match ev {
        SessionEvent::UserMsg { content } => {
            push_member(&mut m, "type", text_json("user_msg"));
            push_member(&mut m, "content", text_json(content.as_str()));
        },
        SessionEvent::ModelMsg { model, content } => {
            push_member(&mut m, "type", text_json("model_msg"));
            push_member(&mut m, "model", text_json(model.as_str()));
            push_member(&mut m, "content", text_json(content.as_str()));
        },
        SessionEvent::Exec { cmd, argv, status, cwd } => {
            push_member(&mut m, "type", text_json("exec"));
            push_member(&mut m, "cmd", text_json(cmd.as_str()));
            push_member(&mut m, "argv", texts_to_json(argv));
            push_member(&mut m, "status", JsonValue::Number(format_i32(*status)));
            push_member(&mut m, "cwd", text_json(cwd.as_str()));
        },
        SessionEvent::FileRef { path, reason } => {
            push_member(&mut m, "type", text_json("file_ref"));
            push_member(&mut m, "path", text_json(path.as_str()));
            push_member(&mut m, "reason", text_json(reason.as_str()));
        },
        SessionEvent::Meta { key, value } => {
            push_member(&mut m, "type", text_json("meta"));
            push_member(&mut m, "key", text_json(key.as_str()));
            push_member(&mut m, "value", value.deep_clone());
        },
    }
    assert(members_view(m@) =~= event_object(ts@, ev@)->Object_0);
    object_of(m)
}

/// Which of the two files of a session are written.
#[derive(Clone, Copy, Debug, PartialEq, Eq, Structural)]
pub enum WriteMode {
    /// The array file only.
    Json,
    /// The line-delimited file only.
    Jsonl,
    Both,
}

/// The write mode that a configured name stands for: `json` and `jsonl` for
/// themselves, anything else and nothing for both.
pub open spec fn write_mode_of(name: Option<Seq<char>>) -> WriteMode {
    match name {
        Some(n) => if n == "json"@ {
            WriteMode::Json
        } else if n == "jsonl"@ {
            WriteMode::Jsonl
        } else {
            WriteMode::Both
        },
        None => WriteMode::Both,
    }
}

pub fn parse_write_mode(name: &Option<String>) -> (r: WriteMode)
    ensures
        r == write_mode_of(name.deep_view()),
{
    match name {
        Some(n) => {
            if str_eq(n.as_str(), "json") {
                WriteMode::Json
            } else if str_eq(n.as_str(), "jsonl") {
                WriteMode::Jsonl
            } else {
                WriteMode::Both
            }
        },
        None => WriteMode::Both,
    }
}

/// What to write for one event.
#[derive(Debug, PartialEq, Eq)]
pub struct AppendPlan {
    /// The record of the event, redacted.
    pub record: JsonValue,
    /// Whether the record is pushed onto the array file.
    pub to_json: bool,
    /// Whether the record is appended to the line-delimited file as one line.
    pub to_jsonl: bool,
}

/// The places of one session's log: one directory per day and session below
/// the root of all sessions.
#[derive(Debug)]
pub struct SessionLogWriter {
    root_dir: String,
    session_id: String,
    day_dir: String,
    json_file: String,
    jsonl_file: String,
    write_mode: WriteMode,
}

pub ghost struct SessionLogWriterView {
    pub root_dir: Seq<char>,
    pub session_id: Seq<char>,
    pub day_dir: Seq<char>,
    pub json_file: Seq<char>,
    pub jsonl_file: Seq<char>,
    pub write_mode: WriteMode,
}

impl View for SessionLogWriter {
    type V = SessionLogWriterView;

    closed spec fn view(&self) -> SessionLogWriterView {
        SessionLogWriterView {
            root_dir: self.root_dir@,
            session_id: self.session_id@,
            day_dir: self.day_dir@,
            json_file: self.json_file@,
            jsonl_file: self.jsonl_file@,
            write_mode: self.write_mode,
        }
    }
}

/// The root of all sessions: the configured directory, or `sessions` below
/// the data directory.
pub open spec fn sessions_root(cfg: ConfigView, data_dir: Seq<char>) -> Seq<char> {
    match cfg.sessions.dir {
        Some(d) => d,
        None => joined(data_dir, "sessions"@),
    }
}

/// The writer of the session `session_id` on the day `day` below `root`.
pub open spec fn writer_for(
    root: Seq<char>,
    session_id: Seq<char>,
    day: Seq<char>,
    mode: WriteMode,
) -> SessionLogWriterView {
    let dir = joined(joined(root, day), session_id);
    SessionLogWriterView {
        root_dir: root,
        session_id,
        day_dir: dir,
        json_file: joined(dir, "session.json"@),
        jsonl_file: joined(dir, "session.jsonl"@),
        write_mode: mode,
    }
}

/// What the array file of a session holds before the first event.
pub const EMPTY_ARRAY_FILE: &'static str = "[]";

/// The seconds of one day.
pub const SECONDS_PER_DAY: u64 = 86400;

impl SessionLogWriter {
    /// The writer of a session that starts on the given day.
    pub fn for_day(cfg: &Config, data_dir: &str, session_id: &str, year: i32, month: u32, day: u32) -> (r:
        SessionLogWriter)
        ensures
            r@ == writer_for(
                sessions_root(cfg@, data_dir@),
                session_id@,
                date_text(year as int, month as nat, day as nat),
                write_mode_of(cfg@.sessions.write_mode),
            ),
    {
        let root = match &cfg.sessions.dir {
            Some(d) => d.clone(),
            None => join_path(data_dir, "sessions"),
        };
        let date = format_date(year, month, day);
        let a = join_path(root.as_str(), date.as_str());
        let dir = join_path(a.as_str(), session_id);
        let json_file = join_path(dir.as_str(), "session.json");
        let jsonl_file = join_path(dir.as_str(), "session.jsonl");
        SessionLogWriter {
            root_dir: root,
            session_id: session_id.to_owned(),
            day_dir: dir,
            json_file,
            jsonl_file,
            write_mode: parse_write_mode(&cfg.sessions.write_mode),
        }
    }

    /// The writer of a session that starts today: the writer for some day
    /// of the calendar, which the clock decides.
    pub fn new(cfg: &Config, data_dir: &str, session_id: &str) -> (r: SessionLogWriter)
        ensures
            exists|year: int, month: nat, day: nat|
                {
                    &&& 1 <= month <= 12
                    &&& 1 <= day <= 31
                    &&& r@ == writer_for(
                        sessions_root(cfg@, data_dir@),
                        session_id@,
                        #[trigger] date_text(year, month, day),
                        write_mode_of(cfg@.sessions.write_mode),
                    )
                },
    {
        let (y, m, d) = today_utc();
        let r = SessionLogWriter::for_day(cfg, data_dir, session_id, y, m, d);
        assert(r@ == writer_for(
            sessions_root(cfg@, data_dir@),
            session_id@,
            date_text(y as int, m as nat, d as nat),
            write_mode_of(cfg@.sessions.write_mode),
        ));
        r
    }

    /// The array file of the session.
    pub fn json_path(&self) -> (p: &str)
        ensures
            p@ == self@.json_file,
    {
        self.json_file.as_str()
    }

    /// The line-delimited file of the session.
    pub fn jsonl_path(&self) -> (p: &str)
        ensures
            p@ == self@.jsonl_file,
    {
        self.jsonl_file.as_str()
    }

    /// The directory of the session.
    pub fn day_dir(&self) -> (p: &str)
        ensures
            p@ == self@.day_dir,
    {
        self.day_dir.as_str()
    }

    /// The root of all sessions.
    pub fn root_dir(&self) -> (p: &str)
        ensures
            p@ == self@.root_dir,
    {
        self.root_dir.as_str()
    }

    pub fn write_mode(&self) -> (m: WriteMode)
        ensures
            m == self@.write_mode,
    {
        self.write_mode
    }

    /// What to write for the event `ev` that happened at `ts`.
    pub fn append_at(&self, ts: &str, ev: &SessionEvent) -> (plan: AppendPlan)
        ensures
            plan.record@ == event_record(ts@, ev@),
            plan.to_json == (self@.write_mode != WriteMode::Jsonl),
            plan.to_jsonl == (self@.write_mode != WriteMode::Json),
    {
        let object = object_of_event(ts, ev);
        let record = redact_json(&object);
        let (to_json, to_jsonl) = match self.write_mode {
            WriteMode::Json => (true, false),
            WriteMode::Jsonl => (false, true),
            WriteMode::Both => (true, true),
        };
        AppendPlan { record, to_json, to_jsonl }
    }

    /// What to write for the event `ev` that happens now.
    pub fn append(&self, ev: &SessionEvent) -> (plan: AppendPlan)
        ensures
            exists|ts: Seq<char>| plan.record@ == #[trigger] event_record(ts, ev@),
            free_of_secrets(plan.record@),
            plan.to_json == (self@.write_mode != WriteMode::Jsonl),
            plan.to_jsonl == (self@.write_mode != WriteMode::Json),
    {
        let ts = now_rfc3339();
        let plan = self.append_at(ts.as_str(), ev);
        proof {
            lemma_redact_is_thorough(event_object(ts@, ev@));
        }
        plan
    }
}

/// The array file after `record` is pushed: what it held, or nothing where it
/// could not be read, with the record last.
pub fn pushed_array(existing: Option<Vec<JsonValue>>, record: JsonValue) -> (r: Vec<JsonValue>)
    ensures
        r.deep_view() == match existing {
            Some(v) => v.deep_view(),
            None => Seq::empty(),
        }.push(record@),
{
    let mut v: Vec<JsonValue> = match existing {
        Some(v) => v,
        None => {
            let fresh: Vec<JsonValue> = Vec::new();
            assert(fresh.deep_view() =~= Seq::<JsonView>::empty());
            fresh
        },
    };
    let ghost before = v.deep_view();
    v.push(record);
    assert(v.deep_view() =~= before.push(record@));
    v
}

/// Whether an age of `age_secs` whole seconds and `age_nanos` nanoseconds
/// is more than `keep_days` days.
pub open spec fn older_than(age_secs: u64, age_nanos: u32, keep_days: u32) -> bool {
    age_secs > keep_days * 86400 || (age_secs == keep_days * 86400 && age_nanos > 0)
}

/// Whether a session directory is purged when sessions are kept for
/// `keep_days` days: its last modification lies more than that many days
/// back. The age is given in whole seconds and the nanoseconds beyond them.
pub fn should_purge(age_secs: u64, age_nanos: u32, keep_days: u32) -> (r: bool)
    ensures
        r == older_than(age_secs, age_nanos, keep_days),
{
    let kept: u64 = (keep_days as u64) * SECONDS_PER_DAY;
    age_secs > kept || (age_secs == kept && age_nanos > 0)
}

} // verus!
