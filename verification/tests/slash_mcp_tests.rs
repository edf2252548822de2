use annex::config::{Config, McpServer};
use annex::mcp::{enable_patch, reconcile, McpState};
use annex::slash::{join_lines, replace_all, SlashDef, SlashError, SlashOutcome, SlashRegistry};
use annex::strmap::StrMap;

fn s(x: &str) -> String {
    x.to_string()
}

fn registry() -> SlashRegistry {
    let mut defs: StrMap<SlashDef> = StrMap::new();
    defs.insert(s("t"), SlashDef::Alias { expands_to: s("cargo test $ARGS -- $ARGS") });
    defs.insert(s("plain"), SlashDef::Alias { expands_to: s("no arguments here") });
    defs.insert(s("setup"), SlashDef::Macro { lines: vec![s("/t a"), s("echo done"), s("")] });
    let mut args = StrMap::new();
    args.insert(s("scope"), s("workspace"));
    defs.insert(s("allow"), SlashDef::Builtin { name: s("allow"), args });
    let mut r = SlashRegistry::new();
    r.extend(&defs);
    r
}

fn text_of(r: Result<SlashOutcome, SlashError>) -> String {
    match r {
        Ok(SlashOutcome::Text(t)) => t,
        other => panic!("unexpected outcome {:?}", other),
    }
}

#[test]
fn an_alias_expands_with_the_rest_of_the_input() {
    let r = registry();
    assert_eq!(text_of(r.dispatch("/t parser")), "cargo test parser -- parser");
    assert_eq!(text_of(r.dispatch("/t a b  c")), "cargo test a b  c -- a b  c");
    assert_eq!(text_of(r.dispatch("/t")), "cargo test  -- ");
    assert_eq!(text_of(r.dispatch("/t ")), "cargo test  -- ");
    assert_eq!(text_of(r.dispatch("/plain x")), "no arguments here");
}

#[test]
fn a_macro_gives_its_lines() {
    assert_eq!(text_of(registry().dispatch("/setup ignored")), "/t a\necho done\n");
    assert_eq!(join_lines(&vec![]), "");
    assert_eq!(join_lines(&vec![s("one")]), "one");
    assert_eq!(join_lines(&vec![s("a"), s("b"), s("c")]), vec!["a", "b", "c"].join("\n"));
}

#[test]
fn a_builtin_is_handed_to_the_host() {
    match registry().dispatch("/allow  git status ") {
        Ok(SlashOutcome::Builtin { name, args, rest }) => {
            assert_eq!(name, "allow");
            assert_eq!(args.get("scope"), Some(&s("workspace")));
            assert_eq!(rest, " git status ");
        }
        other => panic!("unexpected outcome {:?}", other),
    }
}

#[test]
fn inputs_that_are_no_commands_are_refused() {
    let r = registry();
    assert_eq!(r.dispatch("t parser").unwrap_err(), SlashError::NotSlash);
    assert_eq!(r.dispatch("").unwrap_err(), SlashError::NotSlash);
    assert_eq!(r.dispatch(" /t").unwrap_err(), SlashError::NotSlash);
    assert_eq!(r.dispatch("/nope x").unwrap_err(), SlashError::Unknown { name: s("nope") });
    assert_eq!(r.dispatch("/").unwrap_err(), SlashError::Unknown { name: s("") });
    assert_eq!(SlashError::NotSlash.message(), "not a slash command");
    assert_eq!(SlashError::Unknown { name: s("nope") }.message(), "unknown slash: nope");
}

#[test]
fn later_definitions_replace_earlier_ones() {
    let mut r = registry();
    let mut more: StrMap<SlashDef> = StrMap::new();
    more.insert(s("t"), SlashDef::Alias { expands_to: s("make $ARGS") });
    r.extend(&more);
    assert_eq!(text_of(r.dispatch("/t all")), "make all");
    assert_eq!(text_of(r.dispatch("/plain")), "no arguments here");
}

#[test]
fn replacement_agrees_with_the_standard_library() {
    let cases = [
        ("cargo $ARGS", "$ARGS", "x"),
        ("$ARGS$ARGS", "$ARGS", "ab"),
        ("$ARG $ARGS $ARGSS", "$ARGS", ""),
        ("aaaa", "aa", "b"),
        ("aaa", "aa", "b"),
        ("abc", "abcd", "x"),
        ("", "a", "x"),
        ("a$ARGS", "$ARGS", "$ARGS"),
        ("xyz", "z", "zz"),
    ];
    for (text, pat, with) in cases {
        assert_eq!(replace_all(text, pat, with), text.replace(pat, with), "{:?}", (text, pat, with));
    }
    assert_eq!(replace_all("abc", "", "x"), "abc");
}

#[test]
fn servers_are_brought_to_the_configured_state() {
    let mut cfg = Config::default();
    let mut on = McpServer::default();
    on.enabled = true;
    cfg.mcp.servers.insert(s("fs"), on);
    cfg.mcp.servers.insert(s("web"), McpServer::default());
    let mut state: StrMap<McpState> = StrMap::new();
    state.insert(s("old"), McpState::Error(s("gone")));
    state.insert(s("fs"), McpState::Connecting);
    reconcile(&cfg, &mut state);
    assert_eq!(state.get("fs"), Some(&McpState::Connected));
    assert_eq!(state.get("web"), Some(&McpState::Disconnected));
    assert_eq!(state.get("old"), Some(&McpState::Error(s("gone"))));
}

#[test]
fn switching_a_server_patches_that_server_only() {
    let mut cfg = Config::default();
    let mut fs = McpServer::default();
    fs.transport = s("stdio");
    fs.command = Some(s("mcp-fs"));
    cfg.mcp.servers.insert(s("fs"), fs);
    let patch = enable_patch(&cfg, "fs", true).unwrap();
    let server = patch.mcp.servers.get("fs").unwrap();
    assert!(server.enabled);
    assert_eq!(server.transport, "stdio");
    assert_eq!(server.command, Some(s("mcp-fs")));
    assert_eq!(patch.mcp.servers.pairs().len(), 1);
    assert_eq!(patch.compact.max_files, 0);
    assert!(enable_patch(&cfg, "nope", true).is_none());
    assert!(!enable_patch(&cfg, "fs", false).unwrap().mcp.servers.get("fs").unwrap().enabled);
}
