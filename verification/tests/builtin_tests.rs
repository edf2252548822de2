use annex::builtin::{builtin_action, json_argument, BuiltinAction, BuiltinError};
use annex::json::{text_at, texts_at, JsonValue};
use annex::text::{is_white_space, join_words, parse_u64, split_words, trim};

fn s(x: &str) -> String {
    x.to_string()
}

fn text(x: &str) -> JsonValue {
    JsonValue::Text(s(x))
}

fn object(members: Vec<(&str, JsonValue)>) -> JsonValue {
    JsonValue::Object(members.into_iter().map(|(k, v)| (s(k), v)).collect())
}

fn texts(xs: &[&str]) -> JsonValue {
    JsonValue::Array(xs.iter().map(|x| text(x)).collect())
}

fn usage(text: &str) -> BuiltinError {
    BuiltinError::Usage { text: s(text) }
}

#[test]
fn white_space_is_what_the_standard_library_says() {
    for n in 0..=0x10FFFFu32 {
        if let Some(c) = char::from_u32(n) {
            assert_eq!(is_white_space(c), c.is_whitespace(), "U+{:04X}", n);
        }
    }
}

#[test]
fn words_and_trimming_agree_with_the_standard_library() {
    for t in ["", " ", "a", " a ", "a b", "  a \t b\n c  ", "\u{a0}x\u{3000}y\u{2003}", "one  two", "\r\n", "x\u{200b}y z"] {
        let want: Vec<String> = t.split_whitespace().map(|w| w.to_string()).collect();
        assert_eq!(split_words(t), want, "{:?}", t);
        assert_eq!(trim(t), t.trim(), "{:?}", t);
        assert_eq!(join_words(&want), want.join(" "));
    }
}

#[test]
fn numbers_parse_when_they_are_digits_and_fit() {
    assert_eq!(parse_u64("0"), Some(0));
    assert_eq!(parse_u64("007"), Some(7));
    assert_eq!(parse_u64("8080"), Some(8080));
    assert_eq!(parse_u64("18446744073709551615"), Some(u64::MAX));
    assert_eq!(parse_u64("18446744073709551616"), None);
    assert_eq!(parse_u64("99999999999999999999999"), None);
    for bad in ["", "-1", "+1", "1.0", "1e3", " 1", "12a", "a12"] {
        assert_eq!(parse_u64(bad), None, "{:?}", bad);
    }
}

#[test]
fn members_are_found_by_name() {
    let v = object(vec![("a", text("1")), ("b", texts(&["x", "y"])), ("a", text("2")), ("n", JsonValue::Number(s("3")))]);
    assert_eq!(v.get("a"), Some(&text("1")));
    assert_eq!(v.get("z"), None);
    assert_eq!(text("t").get("a"), None);
    assert_eq!(text_at(&v, "a"), Some(s("1")));
    assert_eq!(text_at(&v, "b"), None);
    assert_eq!(text_at(&v, "n"), None);
    assert_eq!(texts_at(&v, "b"), vec![s("x"), s("y")]);
    assert_eq!(texts_at(&v, "a"), Vec::<String>::new());
    let mixed = JsonValue::Array(vec![text("a"), JsonValue::Null, JsonValue::Number(s("1")), text("b"), texts(&["c"])]);
    assert_eq!(mixed.texts(), vec![s("a"), s("b")]);
    assert_eq!(text("a").as_text(), Some(&s("a")));
    assert_eq!(JsonValue::Null.as_text(), None);
}

#[test]
fn config_set_patches_the_runtime_overlay() {
    match builtin_action("config-set", "  model.name  gpt  4o  mini ", None, "/ws").unwrap() {
        BuiltinAction::ApplyOverlay { patch, reply } => {
            assert_eq!(patch.model.name, Some(s("gpt 4o mini")));
            assert_eq!(patch.compact.max_files, 0);
            assert_eq!(patch.history.persist, None);
            assert_eq!(reply, "runtime overlay applied");
        }
        other => panic!("unexpected action {:?}", other),
    }
    match builtin_action("config-set", "history.persist all", None, "/ws").unwrap() {
        BuiltinAction::ApplyOverlay { patch, .. } => assert_eq!(patch.history.persist, Some(s("all"))),
        other => panic!("unexpected action {:?}", other),
    }
    match builtin_action("config-set", "sandbox.mode read_only", None, "/ws").unwrap() {
        BuiltinAction::ApplyOverlay { patch, .. } => assert_eq!(patch.sandbox.mode, Some(s("read_only"))),
        other => panic!("unexpected action {:?}", other),
    }
    for (word, want) in [("true", true), ("false", false)] {
        match builtin_action("config-set", &format!("sandbox.network_access {}", word), None, "/ws").unwrap() {
            BuiltinAction::ApplyOverlay { patch, .. } => assert_eq!(patch.sandbox.network_access, Some(want)),
            other => panic!("unexpected action {:?}", other),
        }
    }
}

#[test]
fn config_set_refuses_what_it_does_not_know() {
    let e = |rest: &str| builtin_action("config-set", rest, None, "/ws").unwrap_err();
    assert_eq!(e(""), usage("usage: /config-set <path> <value>"));
    assert_eq!(e("model.name"), usage("usage: /config-set <path> <value>"));
    assert_eq!(e("ui.status_bar true"), BuiltinError::UnsupportedPath { path: s("ui.status_bar") });
    assert_eq!(e("sandbox.network_access yes"), BuiltinError::NotABool { value: s("yes") });
    assert_eq!(e("sandbox.network_access true false"), BuiltinError::NotABool { value: s("true false") });
    assert_eq!(e("x y").message(), "unsupported path: x");
    assert_eq!(e("sandbox.network_access TRUE").message(), "not true or false: TRUE");
    assert_eq!(e("").message(), "usage: /config-set <path> <value>");
}

#[test]
fn allow_writes_the_allow_list_of_the_workspace() {
    match builtin_action("allow", "  cargo ", None, "/ws").unwrap() {
        BuiltinAction::WriteWorkspacePatch { patch, reply } => {
            assert_eq!(patch.shell.allowlist_roots, vec![s("cargo")]);
            assert_eq!(reply, "added to allowlist (workspace): cargo");
        }
        other => panic!("unexpected action {:?}", other),
    }
    assert_eq!(builtin_action("allow", "   ", None, "/ws").unwrap_err(), usage("usage: /allow <root-binary>"));
}

#[test]
fn mcp_add_describes_the_server() {
    let stdio = object(vec![
        ("name", text("fs")),
        ("stdio", object(vec![("cmd", text("mcp-fs")), ("args", JsonValue::Array(vec![text("--root"), JsonValue::Null, text(".")]))])),
        ("tcp", object(vec![("host", text("ignored"))])),
    ]);
    match builtin_action("mcp-add", "{...}", Some(&stdio), "/ws").unwrap() {
        BuiltinAction::WriteWorkspacePatch { patch, reply } => {
            let server = patch.mcp.servers.get("fs").unwrap();
            assert!(server.enabled);
            assert_eq!(server.transport, "stdio");
            assert_eq!(server.command, Some(s("mcp-fs")));
            assert_eq!(server.args, vec![s("--root"), s(".")]);
            assert_eq!(server.host, None);
            assert_eq!(reply, "MCP server added (workspace)");
        }
        other => panic!("unexpected action {:?}", other),
    }
    let tcp = object(vec![("name", text("web")), ("tcp", object(vec![("host", text("localhost")), ("port", JsonValue::Number(s("65537")))]))]);
    match builtin_action("mcp-add", "", Some(&tcp), "/ws").unwrap() {
        BuiltinAction::WriteWorkspacePatch { patch, .. } => {
            let server = patch.mcp.servers.get("web").unwrap();
            assert_eq!(server.transport, "tcp");
            assert_eq!(server.host, Some(s("localhost")));
            assert_eq!(server.port, Some(1));
        }
        other => panic!("unexpected action {:?}", other),
    }
    let e = |v: Option<&JsonValue>| builtin_action("mcp-add", "", v, "/ws").unwrap_err();
    assert_eq!(e(None), BuiltinError::InvalidJson);
    assert_eq!(e(Some(&object(vec![("stdio", object(vec![]))]))), BuiltinError::Missing { what: s("missing name") });
    assert_eq!(e(Some(&object(vec![("name", text("x"))]))), BuiltinError::Missing { what: s("expect stdio or tcp") });
    assert_eq!(e(None).message(), "invalid JSON");
}

#[test]
fn todo_commands_name_their_action() {
    let v = object(vec![("title", text("fix it")), ("files", texts(&["src/a.rs", "/abs/b.rs"])), ("tags", texts(&["bug"]))]);
    match builtin_action("todo", "add {\"title\": \"fix it\"}", Some(&v), "/ws").unwrap() {
        BuiltinAction::TodoAdd { title, description, files, tags } => {
            assert_eq!(title, "fix it");
            assert_eq!(description, None);
            assert_eq!(files, vec![s("/ws/src/a.rs"), s("/abs/b.rs")]);
            assert_eq!(tags, vec![s("bug")]);
        }
        other => panic!("unexpected action {:?}", other),
    }
    assert!(matches!(builtin_action("todo", " list ", None, "/ws"), Ok(BuiltinAction::TodoList)));
    assert!(matches!(builtin_action("todo", "done abc extra", None, "/ws"), Ok(BuiltinAction::TodoDone { id }) if id == "abc"));
    assert!(matches!(builtin_action("todo", "rm abc", None, "/ws"), Ok(BuiltinAction::TodoRemove { id }) if id == "abc"));
    let e = |rest: &str, v: Option<&JsonValue>| builtin_action("todo", rest, v, "/ws").unwrap_err();
    assert_eq!(e("add {", None), BuiltinError::InvalidJson);
    assert_eq!(e("add {}", Some(&object(vec![]))), BuiltinError::Missing { what: s("title required") });
    assert_eq!(e("done", None), usage("usage: /todo done <id>"));
    assert_eq!(e("rm ", None), usage("usage: /todo rm <id>"));
    assert_eq!(e("", None), usage("usage: /todo [add|list|done|rm] ..."));
    assert_eq!(e("show", None), usage("usage: /todo [add|list|done|rm] ..."));
}

#[test]
fn compact_and_autocompact_name_their_action() {
    let v = object(vec![("focus", text("parser")), ("include", texts(&["src/**"])), ("conversation_tail", text("tail"))]);
    match builtin_action("compact", "{}", Some(&v), "/ws").unwrap() {
        BuiltinAction::Compact { focus, include_globs, conversation_tail } => {
            assert_eq!(focus, Some(s("parser")));
            assert_eq!(include_globs, vec![s("src/**")]);
            assert_eq!(conversation_tail, "tail");
        }
        other => panic!("unexpected action {:?}", other),
    }
    match builtin_action("compact", "{}", Some(&object(vec![])), "/ws").unwrap() {
        BuiltinAction::Compact { focus, include_globs, conversation_tail } => {
            assert_eq!(focus, None);
            assert!(include_globs.is_empty());
            assert_eq!(conversation_tail, "");
        }
        other => panic!("unexpected action {:?}", other),
    }
    assert_eq!(builtin_action("compact", "{", None, "/ws").unwrap_err(), BuiltinError::InvalidJson);
    for (word, on) in [("on", true), (" off ", false)] {
        match builtin_action("autocompact", word, None, "/ws").unwrap() {
            BuiltinAction::ApplyOverlay { patch, reply } => {
                assert_eq!(patch.compact.auto_enable, on);
                assert_eq!(reply, format!("auto-compact {}", word.trim()));
            }
            other => panic!("unexpected action {:?}", other),
        }
    }
    assert_eq!(builtin_action("autocompact", "maybe", None, "/ws").unwrap_err(), usage("usage: /autocompact on|off"));
    assert!(matches!(builtin_action("something-else", "x", None, "/ws"), Ok(BuiltinAction::Other)));
}

#[test]
fn only_some_commands_take_json() {
    assert_eq!(json_argument("mcp-add", "  {\"name\":\"x\"} "), Some(s("{\"name\":\"x\"}")));
    assert_eq!(json_argument("compact", "{}"), Some(s("{}")));
    assert_eq!(json_argument("todo", " add  {\"title\":  \"a b\"} "), Some(s("{\"title\": \"a b\"}")));
    assert_eq!(json_argument("todo", "add"), Some(s("")));
    assert_eq!(json_argument("todo", "list"), None);
    assert_eq!(json_argument("todo", ""), None);
    assert_eq!(json_argument("allow", "{}"), None);
    assert_eq!(json_argument("config-set", "a b"), None);
}
