use annex::paths::{join_path, path_less, PathSet};
use annex::strmap::StrMap;
use annex::text::{chars_of, contains_chars, format_i32, format_i32_padded, format_padded,
    format_u64, str_eq, text_of, to_ascii_lower, to_ascii_upper};

fn s(x: &str) -> String {
    x.to_string()
}

#[test]
fn chars_round_trip_through_text() {
    let v = chars_of("héllo/wörld");
    assert_eq!(v.len(), 11);
    assert_eq!(text_of(&v), "héllo/wörld");
    assert_eq!(text_of(&Vec::new()), "");
}

#[test]
fn text_equality_compares_characters() {
    assert!(str_eq("abc", "abc"));
    assert!(!str_eq("abc", "abd"));
    assert!(!str_eq("abc", "ab"));
    assert!(str_eq("", ""));
}

#[test]
fn ascii_case_mapping_leaves_other_characters() {
    assert_eq!(to_ascii_lower('A'), 'a');
    assert_eq!(to_ascii_lower('Z'), 'z');
    assert_eq!(to_ascii_lower('a'), 'a');
    assert_eq!(to_ascii_lower('['), '[');
    assert_eq!(to_ascii_lower('É'), 'É');
    assert_eq!(to_ascii_upper('k'), 'K');
    assert_eq!(to_ascii_upper('z'), 'Z');
    assert_eq!(to_ascii_upper('{'), '{');
    assert_eq!(to_ascii_upper('1'), '1');
}

#[test]
fn substring_search_finds_every_position() {
    let hay = chars_of("abcabd");
    assert!(contains_chars(&hay, &chars_of("abd")));
    assert!(contains_chars(&hay, &chars_of("abc")));
    assert!(contains_chars(&hay, &chars_of("")));
    assert!(contains_chars(&hay, &chars_of("abcabd")));
    assert!(!contains_chars(&hay, &chars_of("abe")));
    assert!(!contains_chars(&hay, &chars_of("abcabdx")));
    assert!(contains_chars(&chars_of(""), &chars_of("")));
}

#[test]
fn decimal_rendering_is_exact() {
    assert_eq!(format_u64(0), "0");
    assert_eq!(format_u64(7), "7");
    assert_eq!(format_u64(10), "10");
    assert_eq!(format_u64(18446744073709551615), "18446744073709551615");
    assert_eq!(format_i32(0), "0");
    assert_eq!(format_i32(-1), "-1");
    assert_eq!(format_i32(127), "127");
    assert_eq!(format_i32(i32::MIN), "-2147483648");
    assert_eq!(format_i32(i32::MAX), "2147483647");
}

#[test]
fn zero_padding_matches_the_standard_formatter() {
    assert_eq!(format_padded(7, 3), format!("{:03}", 7));
    assert_eq!(format_padded(42, 3), "042");
    assert_eq!(format_padded(1234, 3), "1234");
    assert_eq!(format_padded(0, 2), "00");
    assert_eq!(format_padded(5, 0), "5");
    for y in [2026, 5, 0, -5, -12345, 99999] {
        assert_eq!(format_i32_padded(y, 4), format!("{:04}", y));
    }
}

#[test]
fn a_separator_sorts_before_any_other_character() {
    assert!(path_less("a/x", "a-b/x"));
    assert!(!path_less("a-b/x", "a/x"));
    assert!(path_less("a", "a/"));
    assert!(path_less("a/", "ab"));
    assert!(path_less("a.rs", "b.rs"));
    assert!(!path_less("a.rs", "a.rs"));
    assert!(path_less("", "a"));
    assert!(!path_less("a", ""));
}

#[test]
fn path_order_agrees_with_component_order_of_std() {
    let samples = ["a/x", "a-b/x", "a", "a/b/c", "a/b.c", "src/lib.rs", "src-old/lib.rs", "z", "a b/c"];
    for x in samples {
        for y in samples {
            let want = std::path::Path::new(x) < std::path::Path::new(y);
            assert_eq!(path_less(x, y), want, "{} vs {}", x, y);
        }
    }
}

#[test]
fn joining_resolves_against_the_root() {
    assert_eq!(join_path("/ws", "src/a.rs"), "/ws/src/a.rs");
    assert_eq!(join_path("/ws/", "src/a.rs"), "/ws/src/a.rs");
    assert_eq!(join_path("/ws", "/etc/passwd"), "/etc/passwd");
    assert_eq!(join_path("", "a.rs"), "a.rs");
    assert_eq!(join_path("/ws", ""), "/ws/");
    for (root, rel) in [("/ws", "a/b"), ("/ws/", "b"), ("ws", "/abs"), ("", "x"), ("/", "x")] {
        let want = std::path::Path::new(root).join(rel);
        assert_eq!(join_path(root, rel), want.to_str().unwrap());
    }
}

#[test]
fn path_set_keeps_order_and_drops_repetitions() {
    let mut set = PathSet::new();
    assert!(set.insert(s("b.rs")));
    assert!(set.insert(s("a.rs")));
    assert!(set.insert(s("c.rs")));
    assert!(!set.insert(s("a.rs")));
    assert_eq!(set.len(), 3);
    assert_eq!(set.paths(), &vec![s("a.rs"), s("b.rs"), s("c.rs")]);
    assert!(set.contains("b.rs"));
    assert!(!set.contains("d.rs"));
    assert_eq!(set.get(0), "a.rs");
}

#[test]
fn path_set_of_a_list_holds_each_path_once() {
    let set = PathSet::from_paths(&vec![s("x/b"), s("x/a"), s("x/b"), s("w")]);
    assert_eq!(set.paths(), &vec![s("w"), s("x/a"), s("x/b")]);
}

#[test]
fn string_map_last_write_counts() {
    let mut m: StrMap<String> = StrMap::new();
    assert!(m.is_empty());
    m.insert(s("k"), s("1"));
    m.insert(s("j"), s("2"));
    m.insert(s("k"), s("3"));
    assert_eq!(m.get("k"), Some(&s("3")));
    assert_eq!(m.get("j"), Some(&s("2")));
    assert_eq!(m.get("x"), None);
    assert_eq!(m.pairs().len(), 2);
    assert!(m.contains_key("j"));
    assert!(m.remove("k"));
    assert!(!m.remove("k"));
    assert!(!m.contains_key("k"));
    assert!(!m.is_empty());
}

#[test]
fn string_map_from_pairs_prefers_later_entries() {
    let m = StrMap::from_pairs(vec![(s("a"), s("1")), (s("b"), s("2")), (s("a"), s("3"))]);
    assert_eq!(m.get("a"), Some(&s("3")));
    let mut base: StrMap<String> = StrMap::new();
    base.insert(s("a"), s("0"));
    base.insert(s("c"), s("9"));
    base.extend_from(&m);
    assert_eq!(base.get("a"), Some(&s("3")));
    assert_eq!(base.get("b"), Some(&s("2")));
    assert_eq!(base.get("c"), Some(&s("9")));
}
