use annex::compact::{activity_json, build_manual_prompt, default_includes, extract_recent_exec_files, git_changed_files, is_probably_text, rank_files,
    recent_mtime_score, score_files, select_candidates, split_lines, take_top, todo_file_set, truncate_to, Activity,
    AutoCompactStage, CompactError, Compactor, ScoredFile, AUDIT_TOKEN_PATTERN, RECENT_AUDIT_LINES};
use annex::config::Config;
use annex::json::JsonValue;
use annex::paths::PathSet;
use annex::strmap::StrMap;
use annex::todo::{TodoStatus, TodoStore};

fn s(x: &str) -> String {
    x.to_string()
}

fn strings(xs: &[&str]) -> Vec<String> {
    xs.iter().map(|x| s(x)).collect()
}

fn set_of(xs: &[&str]) -> PathSet {
    PathSet::from_paths(&strings(xs))
}

#[test]
fn text_files_are_known_by_extension() {
    for p in ["a.rs", "docs/README.MD", "Cargo.toml", "x.json", "a.yml", "a.yaml", "a.ts", "a.tsx",
        "a.js", "a.py", "a.go", "A.Java", "a.kt", "a.c", "a.h", "a.cpp", "a.hpp", "notes.txt",
        "run.sh", "x.bash", "x.zsh", "x.fish", "setup.cfg", "my.ini", "dir.d/file.rs", "a.b.rs"] {
        assert!(is_probably_text(p), "{}", p);
    }
    for p in ["a.png", "Makefile", ".rs", "dir.rs/file", "a.rs.bak", "a.", "", "rs", "a.rsx"] {
        assert!(!is_probably_text(p), "{}", p);
    }
}

#[test]
fn recency_falls_by_one_per_second() {
    assert_eq!(recent_mtime_score(Some(0)), 1_000_000);
    assert_eq!(recent_mtime_score(Some(1)), 999_999);
    assert_eq!(recent_mtime_score(Some(999_999)), 1);
    assert_eq!(recent_mtime_score(Some(1_000_000)), 0);
    assert_eq!(recent_mtime_score(Some(u64::MAX)), 0);
    assert_eq!(recent_mtime_score(None), 0);
}

#[test]
fn the_score_adds_the_weights() {
    let candidates = set_of(&["a.rs", "b.rs", "c.rs", "d.rs", "e.rs"]);
    let changed = set_of(&["a.rs", "d.rs"]);
    let todo = set_of(&["b.rs", "d.rs"]);
    let exec = set_of(&["c.rs", "d.rs"]);
    let mut ages: StrMap<u64> = StrMap::new();
    ages.insert(s("a.rs"), 0);
    ages.insert(s("e.rs"), 999_985);
    ages.insert(s("d.rs"), 2_000_000);
    let scores = score_files(&candidates, &changed, &todo, &exec, &ages);
    let got: Vec<(&str, u64)> = scores.iter().map(|f| (f.path.as_str(), f.score)).collect();
    assert_eq!(got, vec![("a.rs", 5000 + 100_000), ("b.rs", 3000), ("c.rs", 2000), ("d.rs", 10_000), ("e.rs", 1)]);
}

#[test]
fn ranking_is_by_score_then_by_path() {
    let f = |p: &str, score: u64| ScoredFile { path: s(p), score };
    let ranked = rank_files(&vec![f("z.rs", 10), f("b.rs", 30), f("a/x.rs", 10), f("a-b/x.rs", 10), f("c.rs", 30), f("m.rs", 20)]);
    let got: Vec<&str> = ranked.iter().map(|f| f.path.as_str()).collect();
    assert_eq!(got, vec!["b.rs", "c.rs", "m.rs", "a/x.rs", "a-b/x.rs", "z.rs"]);
    assert_eq!(take_top(&ranked, 2), strings(&["b.rs", "c.rs"]));
    assert_eq!(take_top(&ranked, 0), Vec::<String>::new());
    assert_eq!(take_top(&ranked, 99).len(), 6);
    assert!(rank_files(&vec![]).is_empty());
}

#[test]
fn changed_files_outrank_files_with_open_todos() {
    let mut cfg = Config::default();
    cfg.compact.max_files = 2;
    let mut todos = TodoStore::default();
    todos.add_with(s("1"), s("now"), s("2026-01-01"), s(""), 0, s("fix b"), None, strings(&["b.rs"]), vec![]);
    let activity = Activity {
        index_paths: strings(&["a.rs"]),
        status_paths: vec![],
        exec_files: vec![],
        ages: StrMap::new(),
    };
    let compactor = Compactor::new(s("/ws"));
    let walked = strings(&["c.rs", "b.rs", "a.rs"]);
    let res = compactor.auto_compact(&cfg, s("focus on the build"), &walked, &todos, &activity).unwrap();
    assert_eq!(res.chosen_files, strings(&["/ws/a.rs", "/ws/b.rs"]));
    assert_eq!(res.focus_prompt, "focus on the build");
    cfg.compact.max_files = 24;
    let all = compactor.auto_compact(&cfg, s("f"), &walked, &todos, &activity).unwrap();
    assert_eq!(all.chosen_files, strings(&["/ws/a.rs", "/ws/b.rs", "/ws/c.rs"]));
}

#[test]
fn the_choice_never_exceeds_the_configured_number() {
    let compactor = Compactor::new(s("/ws"));
    let walked: Vec<String> = (0..40).map(|i| format!("src/f{:02}.rs", i)).collect();
    let activity = Activity { index_paths: vec![], status_paths: vec![], exec_files: vec![], ages: StrMap::new() };
    for limit in [0usize, 1, 5, 24, 40, 100] {
        let mut cfg = Config::default();
        cfg.compact.max_files = limit;
        let auto = compactor.auto_compact(&cfg, s("f"), &walked, &TodoStore::default(), &activity).unwrap();
        assert_eq!(auto.chosen_files.len(), limit.min(40));
        let manual = compactor.manual_compact(&cfg, None, vec![], "", &walked).unwrap();
        assert_eq!(manual.chosen_files.len(), limit.min(40));
    }
}

#[test]
fn the_same_inputs_give_the_same_choice() {
    let compactor = Compactor::new(s("/ws"));
    let cfg = Config::default();
    let candidates = strings(&["/ws/b.rs", "/ws/a.rs", "/ws/c.rs", "/ws/a.rs"]);
    let reversed: Vec<String> = candidates.iter().rev().cloned().collect();
    let changed = set_of(&["/ws/c.rs"]);
    let none = PathSet::new();
    let ages = StrMap::new();
    let one = compactor.auto_select(&cfg, &candidates, &changed, &none, &none, &ages);
    let two = compactor.auto_select(&cfg, &reversed, &changed, &none, &none, &ages);
    assert_eq!(one, strings(&["/ws/c.rs", "/ws/a.rs", "/ws/b.rs"]));
    assert_eq!(one, two);
}

#[test]
fn only_todos_still_to_do_refer_to_files() {
    let mut store = TodoStore::default();
    store.add_with(s("1"), s("t"), s("d"), s(""), 0, s("open"), None, strings(&["b.rs", "a.rs"]), vec![]);
    store.add_with(s("2"), s("t"), s("d"), s(""), 0, s("busy"), None, strings(&["c.rs"]), vec![]);
    store.add_with(s("3"), s("t"), s("d"), s(""), 0, s("done"), None, strings(&["d.rs", "a.rs"]), vec![]);
    store.set_status_at("2", TodoStatus::InProgress, s("t")).unwrap();
    store.set_status_at("3", TodoStatus::Done, s("t")).unwrap();
    let set = todo_file_set(&store, "/ws");
    assert_eq!(set.paths(), &strings(&["/ws/a.rs", "/ws/b.rs", "/ws/c.rs"]));
}

#[test]
fn git_changes_are_index_and_status_together() {
    let set = git_changed_files("/ws", &strings(&["src/a.rs", "b.rs"]), &strings(&["b.rs", "new.md"]));
    assert_eq!(set.paths(), &strings(&["/ws/b.rs", "/ws/new.md", "/ws/src/a.rs"]));
    assert_eq!(git_changed_files("/ws", &vec![], &vec![]).len(), 0);
}

#[test]
fn include_patterns_default_to_everything() {
    let mut cfg = Config::default();
    assert_eq!(default_includes(&cfg), strings(&["**/*.rs", "**/*.md", "**/*.toml", "**/*.yaml", "**/*.yml"]));
    cfg.compact.include_globs_default = vec![];
    assert_eq!(default_includes(&cfg), strings(&["**/*"]));
}

#[test]
fn globs_decide_the_candidates() {
    let walked = strings(&["README.md", "src/a.rs", "src/deep/b.rs", "tests/c.rs", "src/logo.png", "docs/x.md", "src/d.RS"]);
    assert_eq!(
        select_candidates(&strings(&["src/**/*.rs", "*.md"]), &walked),
        Ok(strings(&["README.md", "src/a.rs", "src/deep/b.rs", "docs/x.md"]))
    );
    assert_eq!(select_candidates(&vec![], &walked), Ok(vec![]));
    assert_eq!(
        select_candidates(&strings(&["*.sh"]), &strings(&["*.sh", "run.sh", "run.rs"])),
        Ok(strings(&["*.sh", "run.sh"]))
    );
}

#[test]
fn a_pattern_that_is_no_glob_fails_the_compaction() {
    let err = select_candidates(&strings(&["**/*.rs", "src/[a", "{"]), &strings(&["a.rs"])).unwrap_err();
    assert_eq!(err, CompactError::InvalidGlob { pattern: s("src/[a") });
    assert_eq!(err.message(), "invalid glob: src/[a");
    let compactor = Compactor::new(s("/ws"));
    let r = compactor.manual_compact(&Config::default(), None, strings(&["a{b"]), "", &vec![]);
    assert_eq!(r, Err(CompactError::InvalidGlob { pattern: s("a{b") }));
    assert_eq!(CompactError::GlobSet.message(), "glob set does not compile");
}

#[test]
fn a_manual_compaction_keeps_the_order_of_the_walk() {
    let mut cfg = Config::default();
    cfg.compact.max_files = 2;
    let compactor = Compactor::new(s("/ws"));
    let walked = strings(&["z.rs", "img.png", "m.rs", "a.rs", "notes.md"]);
    let res = compactor.manual_compact(&cfg, Some(s("the parser")), vec![], "user: hi\nmodel: hello", &walked).unwrap();
    assert_eq!(res.chosen_files, strings(&["/ws/z.rs", "/ws/m.rs"]));
    assert_eq!(
        res.focus_prompt,
        "User focus:\nthe parser\n\nConversation context (tail):\nuser: hi\nmodel: hello\n\nSummarize concisely with explicit references to the listed files where relevant. Output sections: What changed, Why, Open TODOs, Next steps."
    );
    let md = compactor.manual_compact(&cfg, None, strings(&["*.md"]), "t", &walked).unwrap();
    assert_eq!(md.chosen_files, strings(&["/ws/notes.md"]));
    assert!(md.focus_prompt.starts_with("Conversation context (tail):\nt\n\nSummarize"));
}

#[test]
fn the_manual_prompt_leads_with_the_focus() {
    assert_eq!(
        build_manual_prompt(&None, ""),
        "Conversation context (tail):\n\n\nSummarize concisely with explicit references to the listed files where relevant. Output sections: What changed, Why, Open TODOs, Next steps."
    );
    assert!(build_manual_prompt(&Some(s("")), "x").starts_with("User focus:\n\n\nConversation context (tail):\nx\n\n"));
}

#[test]
fn truncation_keeps_the_first() {
    let list = strings(&["a", "b", "c"]);
    assert_eq!(truncate_to(&list, 2), strings(&["a", "b"]));
    assert_eq!(truncate_to(&list, 3), list);
    assert_eq!(truncate_to(&list, 10), list);
    assert!(truncate_to(&list, 0).is_empty());
}

#[test]
fn with_the_feature_off_nothing_triggers() {
    let compactor = Compactor::new(s("/ws"));
    let mut cfg = Config::default();
    cfg.compact.auto_enable = false;
    for stage in [AutoCompactStage::MidTask, AutoCompactStage::EndOfTask] {
        for elapsed in [None, Some(0), Some(119), Some(120), Some(u64::MAX)] {
            for at_end in [false, true] {
                cfg.compact.auto_on_task_end = at_end;
                assert!(!compactor.should_autotrigger(&cfg, elapsed, stage));
            }
        }
    }
}

#[test]
fn triggering_needs_stage_and_interval() {
    let compactor = Compactor::new(s("/ws"));
    let mut cfg = Config::default();
    assert!(compactor.should_autotrigger(&cfg, None, AutoCompactStage::MidTask));
    assert!(compactor.should_autotrigger(&cfg, None, AutoCompactStage::EndOfTask));
    assert!(compactor.should_autotrigger(&cfg, Some(120), AutoCompactStage::MidTask));
    assert!(!compactor.should_autotrigger(&cfg, Some(119), AutoCompactStage::MidTask));
    cfg.compact.auto_on_task_end = false;
    assert!(!compactor.should_autotrigger(&cfg, None, AutoCompactStage::EndOfTask));
    assert!(!compactor.should_autotrigger(&cfg, Some(500), AutoCompactStage::EndOfTask));
    assert!(compactor.should_autotrigger(&cfg, Some(500), AutoCompactStage::MidTask));
    cfg.compact.auto_min_interval_secs = 0;
    assert!(compactor.should_autotrigger(&cfg, Some(0), AutoCompactStage::MidTask));
}

#[test]
fn lines_end_at_line_feeds() {
    assert_eq!(split_lines(""), Vec::<String>::new());
    assert_eq!(split_lines("a"), strings(&["a"]));
    assert_eq!(split_lines("a\n"), strings(&["a"]));
    assert_eq!(split_lines("a\nb"), strings(&["a", "b"]));
    assert_eq!(split_lines("a\r\nb\r\n"), strings(&["a", "b"]));
    assert_eq!(split_lines("a\n\nb\n"), strings(&["a", "", "b"]));
    assert_eq!(split_lines("\n"), strings(&[""]));
    for text in ["x\ry\n", "a\r", "\r\n\r\n", "one\ntwo\r\nthree", "\n\na", "a\r\r\n"] {
        let want: Vec<String> = text.lines().map(|l| l.to_string()).collect();
        assert_eq!(split_lines(text), want, "{:?}", text);
    }
}

#[test]
fn the_audit_log_is_mined_for_paths_newest_line_first() {
    assert_eq!(AUDIT_TOKEN_PATTERN, r"([A-Za-z0-9_\-./\\]+?\.[A-Za-z0-9]{1,8})");
    assert_eq!(RECENT_AUDIT_LINES, 500);
    let log = "T pre_exec cargo test src/lib.rs\nT post_exec rustfmt a.rs b/c.toml 0\nT task_end build true\n";
    assert_eq!(
        extract_recent_exec_files("/ws", log, 500),
        strings(&["/ws/a.rs", "/ws/b/c.toml", "/ws/src/lib.rs"])
    );
    assert_eq!(extract_recent_exec_files("/ws", log, 2), strings(&["/ws/a.rs", "/ws/b/c.toml"]));
    assert_eq!(extract_recent_exec_files("/ws", log, 1), Vec::<String>::new());
    assert_eq!(extract_recent_exec_files("/ws", log, 0), Vec::<String>::new());
    assert_eq!(extract_recent_exec_files("/ws", "", 500), Vec::<String>::new());
    assert_eq!(extract_recent_exec_files("/ws", "see foo.rs.bak and x.abcdefghij", 5), strings(&["/ws/foo.rs", "/ws/x.abcdefgh"]));
}

#[test]
fn the_activity_record_names_files_time_and_stage() {
    assert_eq!(AutoCompactStage::MidTask.name(), "MidTask");
    assert_eq!(AutoCompactStage::EndOfTask.name(), "EndOfTask");
    let got = activity_json(&strings(&["/ws/a.rs"]), "2026-01-01T00:00:00+00:00", AutoCompactStage::EndOfTask);
    assert_eq!(got, JsonValue::Object(vec![
        (s("recent_exec_files"), JsonValue::Array(vec![JsonValue::Text(s("/ws/a.rs"))])),
        (s("time"), JsonValue::Text(s("2026-01-01T00:00:00+00:00"))),
        (s("stage"), JsonValue::Text(s("EndOfTask"))),
    ]));
}
