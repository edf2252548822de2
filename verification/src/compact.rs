//! The compactor: which files stand for the state of a workspace when a long
//! conversation is summarized, and the prompt that asks for the summary.

use vstd::prelude::*;
use vstd::string::*;
use crate::config::{Config, ConfigView};
use crate::json::{JsonValue, JsonView, members_view, object_of, push_member, text_array, text_json,
    texts_to_json};
use crate::matchers::{compile_globs, glob_parses, glob_source, glob_sources, globs_compile,
    globs_match, parse_glob, set_matches, set_sources};
use crate::paths::{PathSet, extension, extension_chars, join_path, joined, lemma_path_lt_asymmetric,
    lemma_path_lt_irreflexive, lemma_path_lt_total, lemma_path_lt_transitive, path_less, path_lt};
use crate::strmap::{DeepClone, StrMap};
use crate::text::{chars_of, lower_chars, lower_text, str_eq, text_of};
use crate::todo::{TodoItemView, TodoStatus, TodoStore};

verus! {

/// When an automatic compaction is considered.
#[derive(Clone, Copy, Debug, PartialEq, Eq, Structural)]
pub enum AutoCompactStage {
    /// In the middle of a task.
    MidTask,
    /// Right after a task has ended.
    EndOfTask,
}

impl AutoCompactStage {
    pub open spec fn name_spec(self) -> Seq<char> {
        match self {
            AutoCompactStage::MidTask => "MidTask"@,
            AutoCompactStage::EndOfTask => "EndOfTask"@,
        }
    }

    pub fn name(&self) -> (r: &'static str)
        ensures
            r@ == self.name_spec(),
    {
        match self {
            AutoCompactStage::MidTask => "MidTask",
            AutoCompactStage::EndOfTask => "EndOfTask",
        }
    }
}

/// The outcome of a compaction: the files to speak of, and the prompt to
/// summarize with.
#[derive(Debug, PartialEq, Eq)]
pub struct CompactResult {
    pub chosen_files: Vec<String>,
    pub focus_prompt: String,
}

/// Why a compaction failed.
#[derive(Debug, PartialEq, Eq)]
pub enum CompactError {
    /// An include pattern is no glob.
    InvalidGlob { pattern: String },
    /// The include patterns do not make a set together.
    GlobSet,
}

impl CompactError {
    pub fn message(&self) -> (r: String)
        ensures
            r@ == match self {
                CompactError::InvalidGlob { pattern } => "invalid glob: "@ + pattern@,
                CompactError::GlobSet => "glob set does not compile"@,
            },
    {
        match self {
            CompactError::InvalidGlob { pattern } => {
                let mut s = "invalid glob: ".to_owned();
                s.append(pattern.as_str());
                s
            },
            CompactError::GlobSet => "glob set does not compile".to_owned(),
        }
    }
}

/// Whether files of this extension, in lower case, are taken for text.
pub open spec fn text_extension(e: Seq<char>) -> bool {
    e == "rs"@ || e == "md"@ || e == "toml"@ || e == "json"@ || e == "yml"@ || e == "yaml"@ || e
        == "ts"@ || e == "tsx"@ || e == "js"@ || e == "py"@ || e == "go"@ || e == "java"@ || e
        == "kt"@ || e == "c"@ || e == "h"@ || e == "cpp"@ || e == "hpp"@ || e == "txt"@ || e
        == "sh"@ || e == "bash"@ || e == "zsh"@ || e == "fish"@ || e == "cfg"@ || e == "ini"@
}

/// Whether a path is taken for a text file: its extension, letters in any
/// case, is one of the known ones.
pub open spec fn is_text_path(path: Seq<char>) -> bool {
    text_extension(lower_text(extension(path)))
}

pub fn is_probably_text(path: &str) -> (r: bool)
    ensures
        r == is_text_path(path@),
{
    let e = text_of(&lower_chars(&extension_chars(&chars_of(path))));
    let e = e.as_str();
    str_eq(e, "rs") || str_eq(e, "md") || str_eq(e, "toml") || str_eq(e, "json") || str_eq(e, "yml")
        || str_eq(e, "yaml") || str_eq(e, "ts") || str_eq(e, "tsx") || str_eq(e, "js") || str_eq(
        e,
        "py",
    ) || str_eq(e, "go") || str_eq(e, "java") || str_eq(e, "kt") || str_eq(e, "c") || str_eq(e, "h")
        || str_eq(e, "cpp") || str_eq(e, "hpp") || str_eq(e, "txt") || str_eq(e, "sh") || str_eq(
        e,
        "bash",
    ) || str_eq(e, "zsh") || str_eq(e, "fish") || str_eq(e, "cfg") || str_eq(e, "ini")
}

/// How recently a file was modified, on a scale that falls by one for each
/// second of age from a million down to zero. A file of unknown age scores
/// zero.
pub open spec fn mtime_score(age_secs: Option<u64>) -> int {
    match age_secs {
        Some(a) => if a >= 1_000_000 {
            0
        } else {
            1_000_000 - a
        },
        None => 0,
    }
}

pub fn recent_mtime_score(age_secs: Option<u64>) -> (r: u32)
    ensures
        r == mtime_score(age_secs),
{
    match age_secs {
        Some(a) => if a >= 1_000_000 {
            0
        } else {
            (1_000_000 - a) as u32
        },
        None => 0,
    }
}

/// The score of a candidate: 5000 if git reports it changed, 3000 if an open
/// or in-progress to-do refers to it, 2000 if the recent audit log names it,
/// and a tenth of its recency, rounded down.
pub open spec fn file_score(changed: bool, todo: bool, exec: bool, age_secs: Option<u64>) -> int {
    (if changed { 5000int } else { 0 }) + (if todo { 3000int } else { 0 }) + (if exec {
        2000int
    } else {
        0
    }) + mtime_score(age_secs) / 10
}

/// A candidate with its score.
#[derive(Debug, PartialEq, Eq)]
pub struct ScoredFile {
    pub path: String,
    pub score: u64,
}

pub ghost struct ScoredView {
    pub path: Seq<char>,
    pub score: u64,
}

impl DeepView for ScoredFile {
    type V = ScoredView;

    open spec fn deep_view(&self) -> ScoredView {
        ScoredView { path: self.path@, score: self.score }
    }
}

impl View for ScoredFile {
    type V = ScoredView;

    open spec fn view(&self) -> ScoredView {
        self.deep_view()
    }
}

/// The age of a path where `ages` knows it.
pub open spec fn age_of(ages: Map<Seq<char>, u64>, path: Seq<char>) -> Option<u64> {
    if ages.contains_key(path) {
        Some(ages[path])
    } else {
        None
    }
}

/// The score of `path` among the given sets.
pub open spec fn score_of(
    path: Seq<char>,
    changed: Seq<Seq<char>>,
    todo_refs: Seq<Seq<char>>,
    exec_refs: Seq<Seq<char>>,
    ages: Map<Seq<char>, u64>,
) -> int {
    file_score(
        changed.contains(path),
        todo_refs.contains(path),
        exec_refs.contains(path),
        age_of(ages, path),
    )
}

/// Scores every candidate, in the order of the candidates. `ages` holds the
/// seconds since each file was last modified, for the files whose age is
/// known.
pub fn score_files(
    candidates: &PathSet,
    changed: &PathSet,
    todo_refs: &PathSet,
    exec_refs: &PathSet,
    ages: &StrMap<u64>,
) -> (scores: Vec<ScoredFile>)
    ensures
        scores@.len() == candidates@.len(),
        forall|i: int|
            0 <= i < scores@.len() ==> (#[trigger] scores@[i])@.path == candidates@[i]
                && scores@[i]@.score == score_of(
                candidates@[i],
                changed@,
                todo_refs@,
                exec_refs@,
                ages@,
            ),
{
    let mut scores: Vec<ScoredFile> = Vec::new();
    let mut i: usize = 0;
    while i < candidates.len()
        invariant
            i <= candidates@.len(),
            scores@.len() == i,
            forall|k: int|
                0 <= k < i ==> (#[trigger] scores@[k])@.path == candidates@[k]
                    && scores@[k]@.score == score_of(
                    candidates@[k],
                    changed@,
                    todo_refs@,
                    exec_refs@,
                    ages@,
                ),
        decreases candidates@.len() - i,
    {
        let p = candidates.get(i);
        let mut s: u64 = 0;
        if changed.contains(p.as_str()) {
            s += 5000;
        }
        if todo_refs.contains(p.as_str()) {
            s += 3000;
        }
        if exec_refs.contains(p.as_str()) {
            s += 2000;
        }
        let age: Option<u64> = match ages.get(p.as_str()) {
            Some(a) => Some(*a),
            None => None,
        };
        s += (recent_mtime_score(age) / 10) as u64;
        scores.push(ScoredFile { path: p.clone(), score: s });
        i += 1;
    }
    scores
}

/// The ranking: a higher score comes first, and of two files with one score
/// the one whose path sorts first.
pub open spec fn rank_before(a: ScoredView, b: ScoredView) -> bool {
    a.score > b.score || (a.score == b.score && path_lt(a.path, b.path))
}

/// The ranking never puts a file before itself.
pub proof fn lemma_rank_irreflexive(a: ScoredView)
    ensures
        !rank_before(a, a),
{
    lemma_path_lt_irreflexive(a.path);
}

/// The ranking is transitive.
pub proof fn lemma_rank_transitive(a: ScoredView, b: ScoredView, c: ScoredView)
    requires
        rank_before(a, b),
        rank_before(b, c),
    ensures
        rank_before(a, c),
{
    if a.score == b.score && b.score == c.score {
        lemma_path_lt_transitive(a.path, b.path, c.path);
    }
}

/// The ranking never puts two files each before the other.
pub proof fn lemma_rank_asymmetric(a: ScoredView, b: ScoredView)
    requires
        rank_before(a, b),
    ensures
        !rank_before(b, a),
{
    if a.score == b.score {
        lemma_path_lt_asymmetric(a.path, b.path);
    }
}

/// The ranking decides between any two files of different paths: it is a
/// total order, with the path as the tiebreak.
pub proof fn lemma_rank_total(a: ScoredView, b: ScoredView)
    requires
        a.path != b.path,
    ensures
        rank_before(a, b) || rank_before(b, a),
{
    lemma_path_lt_total(a.path, b.path);
}

/// Whether a sequence is in ranking order.
pub open spec fn ranked(s: Seq<ScoredView>) -> bool {
    forall|i: int, j: int| 0 <= i < j < s.len() ==> !rank_before(#[trigger] s[j], #[trigger] s[i])
}

/// A ranking is determined by what is ranked: two sequences in ranking order
/// that hold the same files with the same scores, each path once, are equal.
pub proof fn lemma_ranking_unique(s: Seq<ScoredView>, t: Seq<ScoredView>)
    requires
        ranked(s),
        ranked(t),
        s.to_multiset() == t.to_multiset(),
        forall|i: int, j: int| 0 <= i < j < s.len() ==> (#[trigger] s[i]).path != (#[trigger] s[j]).path,
    ensures
        s == t,
    decreases s.len(),
{
    s.to_multiset_ensures();
    t.to_multiset_ensures();
    assert(s.len() == t.len());
    if s.len() > 0 {
        // The first of each sequence occurs in the other, before nothing.
        assert(s.contains(s[0]));
        assert(t.to_multiset().count(s[0]) > 0);
        assert(t.contains(s[0]));
        let i = choose|i: int| 0 <= i < t.len() && t[i] == s[0];
        assert(t.contains(t[0]));
        assert(s.to_multiset().count(t[0]) > 0);
        assert(s.contains(t[0]));
        let j = choose|j: int| 0 <= j < s.len() && s[j] == t[0];
        if s[0] != t[0] {
            assert(i > 0 && j > 0);
            assert(!rank_before(t[i], t[0]));
            assert(!rank_before(s[j], s[0]));
            assert(s[0].path != s[j].path);
            lemma_rank_total(s[0], t[0]);
        }
        let s1 = s.remove(0);
        let t1 = t.remove(0);
        assert(s1.to_multiset() =~= t1.to_multiset());
        assert forall|a: int, b: int| 0 <= a < b < s1.len() implies !rank_before(
            #[trigger] s1[b],
            #[trigger] s1[a],
        ) by {
            assert(s1[a] == s[a + 1] && s1[b] == s[b + 1]);
        }
        assert forall|a: int, b: int| 0 <= a < b < t1.len() implies !rank_before(
            #[trigger] t1[b],
            #[trigger] t1[a],
        ) by {
            assert(t1[a] == t[a + 1] && t1[b] == t[b + 1]);
        }
        assert forall|a: int, b: int| 0 <= a < b < s1.len() implies (#[trigger] s1[a]).path != (
        #[trigger] s1[b]).path by {
            assert(s1[a] == s[a + 1] && s1[b] == s[b + 1]);
        }
        lemma_ranking_unique(s1, t1);
        assert(s =~= seq![s[0]] + s1);
        assert(t =~= seq![t[0]] + t1);
    } else {
        assert(s =~= t);
    }
}

fn ranks_before(a: &ScoredFile, b: &ScoredFile) -> (r: bool)
    ensures
        r == rank_before(a@, b@),
{
    a.score > b.score || (a.score == b.score && path_less(a.path.as_str(), b.path.as_str()))
}

/// Puts scored files in ranking order.
pub fn rank_files(scores: &Vec<ScoredFile>) -> (out: Vec<ScoredFile>)
    ensures
        ranked(out.deep_view()),
        out.deep_view().to_multiset() == scores.deep_view().to_multiset(),
{
    let mut out: Vec<ScoredFile> = Vec::new();
    let ghost all = scores.deep_view();
    let mut i: usize = 0;
    proof {
        assert(all.take(0) =~= Seq::<ScoredView>::empty());
        assert(out.deep_view() =~= Seq::<ScoredView>::empty());
    }
    while i < scores.len()
        invariant
            i <= scores.len(),
            all == scores.deep_view(),
            ranked(out.deep_view()),
            out.deep_view().to_multiset() == all.take(i as int).to_multiset(),
        decreases scores.len() - i,
    {
        let x = ScoredFile { path: scores[i].path.clone(), score: scores[i].score };
        assert(x@ == all[i as int]);
        // The first place whose file the new one comes before.
        let mut p: usize = 0;
        let mut stop = false;
        while p < out.len() && !stop
            invariant
                p <= out.len(),
                forall|k: int| 0 <= k < p ==> !rank_before(x@, (#[trigger] out@[k])@),
                stop ==> p < out.len() && rank_before(x@, out@[p as int]@),
            decreases out.len() - p + if stop { 0int } else { 1int },
        {
            if ranks_before(&x, &out[p]) {
                stop = true;
            } else {
                p += 1;
            }
        }
        let ghost before = out.deep_view();
        let ghost xv = x@;
        out.insert(p, x);
        proof {
            let after = out.deep_view();
            assert(after =~= before.insert(p as int, xv));
            assert forall|a: int, b: int| 0 <= a < b < after.len() implies !rank_before(
                #[trigger] after[b],
                #[trigger] after[a],
            ) by {
                if b < p {
                    assert(after[a] == before[a] && after[b] == before[b]);
                } else if b == p {
                    assert(after[a] == before[a]);
                } else if a == p {
                    // after[b] is before[b - 1], at or behind the place.
                    assert(after[b] == before[b - 1]);
                    assert(rank_before(xv, before[p as int]));
                    if rank_before(before[b - 1], xv) {
                        lemma_rank_transitive(before[b - 1], xv, before[p as int]);
                        if b - 1 == p {
                            lemma_rank_irreflexive(before[p as int]);
                        }
                    }
                } else if a < p {
                    assert(after[a] == before[a] && after[b] == before[b - 1]);
                } else {
                    assert(after[a] == before[a - 1] && after[b] == before[b - 1]);
                }
            }
            after.to_multiset_ensures();
            assert(after.remove(p as int) =~= before);
            assert(after[p as int] == xv);
            assert(after.contains(xv));
            assert(after.to_multiset() =~= before.to_multiset().insert(xv));
            all.take(i as int).to_multiset_ensures();
            assert(all.take(i + 1) =~= all.take(i as int).push(xv));
        }
        i += 1;
    }
    assert(all.take(scores.len() as int) =~= all);
    out
}

/// The paths of the first `limit` files of `s`.
pub open spec fn top_paths(s: Seq<ScoredView>, limit: int) -> Seq<Seq<char>> {
    Seq::new(
        if s.len() <= limit {
            s.len()
        } else if limit > 0 {
            limit as nat
        } else {
            0
        },
        |i: int| s[i].path,
    )
}

/// The paths of the first `limit` files, in order.
pub fn take_top(ranked_files: &Vec<ScoredFile>, limit: usize) -> (r: Vec<String>)
    ensures
        r.deep_view() == top_paths(ranked_files.deep_view(), limit as int),
        r@.len() <= limit,
{
    let n: usize = if ranked_files.len() <= limit {
        ranked_files.len()
    } else {
        limit
    };
    let mut r: Vec<String> = Vec::new();
    let mut i: usize = 0;
    while i < n
        invariant
            i <= n <= ranked_files.len(),
            r@.len() == i,
            forall|k: int| 0 <= k < i ==> r@[k]@ == ranked_files@[k]@.path,
        decreases n - i,
    {
        r.push(ranked_files[i].path.clone());
        i += 1;
    }
    assert(r.deep_view() =~= top_paths(ranked_files.deep_view(), limit as int));
    r
}

/// Each of `files` resolved against `root`.
pub open spec fn joined_all(root: Seq<char>, files: Seq<Seq<char>>) -> Seq<Seq<char>> {
    files.map_values(|f: Seq<char>| joined(root, f))
}

/// Resolves each of `files` against `root`.
pub fn join_all(root: &str, files: &Vec<String>) -> (r: Vec<String>)
    ensures
        r.deep_view() == joined_all(root@, files.deep_view()),
{
    let mut r: Vec<String> = Vec::new();
    let mut i: usize = 0;
    while i < files.len()
        invariant
            i <= files.len(),
            r@.len() == i,
            forall|k: int| 0 <= k < i ==> r@[k]@ == joined(root@, files@[k]@),
        decreases files.len() - i,
    {
        r.push(join_path(root, files[i].as_str()));
        i += 1;
    }
    assert(r.deep_view() =~= joined_all(root@, files.deep_view()));
    r
}

/// Whether a to-do is still to be done.
pub open spec fn is_active(status: TodoStatus) -> bool {
    status == TodoStatus::Open || status == TodoStatus::InProgress
}

/// The files that the open and in-progress to-dos refer to, resolved against
/// `root`, item after item.
pub open spec fn todo_paths(items: Seq<TodoItemView>, root: Seq<char>) -> Seq<Seq<char>>
    decreases items.len(),
{
    if items.len() == 0 {
        Seq::empty()
    } else {
        todo_paths(items.drop_last(), root) + if is_active(items.last().status) {
            joined_all(root, items.last().files)
        } else {
            Seq::empty()
        }
    }
}

fn append_all(out: &mut Vec<String>, more: Vec<String>)
    ensures
        final(out).deep_view() == old(out).deep_view() + more.deep_view(),
{
    let ghost base = out.deep_view();
    let mut i: usize = 0;
    assert(out.deep_view() =~= base + more.deep_view().take(0));
    while i < more.len()
        invariant
            i <= more.len(),
            out.deep_view() == base + more.deep_view().take(i as int),
        decreases more.len() - i,
    {
        let ghost prev = out.deep_view();
        out.push(more[i].clone());
        assert(out.deep_view() =~= prev.push(more.deep_view()[i as int]));
        assert(out.deep_view() =~= base + more.deep_view().take(i + 1));
        i += 1;
    }
    assert(more.deep_view().take(more.len() as int) =~= more.deep_view());
}

/// The set of files that the open and in-progress to-dos refer to.
pub fn todo_file_set(store: &TodoStore, root: &str) -> (r: PathSet)
    ensures
        r.wf(),
        forall|q: Seq<char>| r@.contains(q) <==> todo_paths(store@, root@).contains(q),
{
    let mut list: Vec<String> = Vec::new();
    let mut i: usize = 0;
    proof {
        assert(store@.take(0) =~= Seq::<TodoItemView>::empty());
        assert(list.deep_view() =~= Seq::<Seq<char>>::empty());
    }
    while i < store.items.len()
        invariant
            i <= store.items.len(),
            list.deep_view() == todo_paths(store@.take(i as int), root@),
        decreases store.items.len() - i,
    {
        proof {
            assert(store@.take(i + 1).drop_last() =~= store@.take(i as int));
            assert(store@.take(i + 1).last() == store.items@[i as int]@);
        }
        let active = match store.items[i].status {
            TodoStatus::Open => true,
            TodoStatus::InProgress => true,
            TodoStatus::Done => false,
        };
        if active {
            let more = join_all(root, &store.items[i].files);
            append_all(&mut list, more);
        } else {
            assert(list.deep_view() + Seq::<Seq<char>>::empty() =~= list.deep_view());
        }
        i += 1;
    }
    assert(store@.take(store.items.len() as int) =~= store@);
    PathSet::from_paths(&list)
}

/// The set of files that git reports changed: the entries of the index
/// together with the changes of the working directory, resolved against
/// `root`. A workspace without repository has none of either.
pub fn git_changed_files(root: &str, index_paths: &Vec<String>, status_paths: &Vec<String>) -> (r:
    PathSet)
    ensures
        r.wf(),
        forall|q: Seq<char>|
            r@.contains(q) <==> (joined_all(root@, index_paths.deep_view()) + joined_all(
                root@,
                status_paths.deep_view(),
            )).contains(q),
{
    let mut list = join_all(root, index_paths);
    let more = join_all(root, status_paths);
    append_all(&mut list, more);
    PathSet::from_paths(&list)
}

/// The include patterns in force where the caller gives none: those of the
/// configuration, or `**/*` where it has none either.
pub open spec fn default_includes_spec(cfg: ConfigView) -> Seq<Seq<char>> {
    if cfg.compact.include_globs_default.len() == 0 {
        seq!["**/*"@]
    } else {
        cfg.compact.include_globs_default
    }
}

pub fn default_includes(cfg: &Config) -> (r: Vec<String>)
    ensures
        r.deep_view() == default_includes_spec(cfg@),
{
    if cfg.compact.include_globs_default.len() == 0 {
        let mut r: Vec<String> = Vec::new();
        r.push("**/*".to_owned());
        assert(r.deep_view() =~= seq!["**/*"@]);
        r
    } else {
        cfg.compact.include_globs_default.deep_clone()
    }
}

/// Whether every pattern before index `i` parses.
pub open spec fn all_parse_before(patterns: Seq<Seq<char>>, i: int) -> bool {
    forall|k: int| 0 <= k < i ==> glob_parses(#[trigger] patterns[k])
}

/// Builds the glob set of `patterns`. The first pattern that is no glob
/// fails the construction.
fn build_globset(patterns: &Vec<String>) -> (r: Result<globset::GlobSet, CompactError>)
    ensures
        match r {
            Ok(set) => {
                &&& all_parse_before(patterns.deep_view(), patterns@.len() as int)
                &&& globs_compile(patterns.deep_view())
                &&& set_sources(set) == patterns.deep_view()
            },
            Err(CompactError::InvalidGlob { pattern }) => exists|i: int|
                {
                    &&& 0 <= i < patterns@.len()
                    &&& all_parse_before(patterns.deep_view(), i)
                    &&& !glob_parses(#[trigger] patterns.deep_view()[i])
                    &&& pattern@ == patterns.deep_view()[i]
                },
            Err(CompactError::GlobSet) => {
                &&& all_parse_before(patterns.deep_view(), patterns@.len() as int)
                &&& !globs_compile(patterns.deep_view())
            },
        },
{
    let mut globs: Vec<globset::Glob> = Vec::new();
    let mut i: usize = 0;
    while i < patterns.len()
        invariant
            i <= patterns.len(),
            globs@.len() == i,
            all_parse_before(patterns.deep_view(), i as int),
            forall|k: int| 0 <= k < i ==> glob_source(#[trigger] globs@[k]) == patterns@[k]@,
        decreases patterns.len() - i,
    {
        match parse_glob(patterns[i].as_str()) {
            Ok(g) => {
                globs.push(g);
            },
            Err(_) => {
                assert(!glob_parses(patterns.deep_view()[i as int]));
                return Err(CompactError::InvalidGlob { pattern: patterns[i].clone() });
            },
        }
        i += 1;
    }
    assert(glob_sources(globs@) =~= patterns.deep_view());
    match compile_globs(&globs) {
        Ok(set) => Ok(set),
        Err(_) => Err(CompactError::GlobSet),
    }
}

/// Whether a file of the workspace, by its path relative to the root, is a
/// candidate: it matches an include pattern and is taken for text.
pub open spec fn is_candidate(patterns: Seq<Seq<char>>, rel: Seq<char>) -> bool {
    globs_match(patterns, rel) && is_text_path(rel)
}

/// The candidates among the walked files, in the order of the walk.
pub open spec fn candidates_of(patterns: Seq<Seq<char>>, walked: Seq<Seq<char>>) -> Seq<Seq<char>> {
    walked.filter(|rel: Seq<char>| is_candidate(patterns, rel))
}

/// The candidates among the walked files for a glob set.
fn collect_candidates(set: &globset::GlobSet, walked: &Vec<String>) -> (r: Vec<String>)
    ensures
        r.deep_view() == candidates_of(set_sources(*set), walked.deep_view()),
{
    let ghost patterns = set_sources(*set);
    let mut r: Vec<String> = Vec::new();
    let mut i: usize = 0;
    proof {
        reveal(Seq::filter);
        assert(walked.deep_view().take(0) =~= Seq::<Seq<char>>::empty());
        assert(r.deep_view() =~= Seq::<Seq<char>>::empty());
    }
    while i < walked.len()
        invariant
            i <= walked.len(),
            patterns == set_sources(*set),
            r.deep_view() == candidates_of(patterns, walked.deep_view().take(i as int)),
        decreases walked.len() - i,
    {
        let ghost before = r.deep_view();
        let ghost cur = walked.deep_view()[i as int];
        let rel = walked[i].as_str();
        if set_matches(set, rel) && is_probably_text(rel) {
            r.push(walked[i].clone());
            assert(r.deep_view() =~= before.push(cur));
        }
        proof {
            reveal(Seq::filter);
            let hi = walked.deep_view().take(i + 1);
            assert(hi.drop_last() =~= walked.deep_view().take(i as int));
            assert(hi.last() == cur);
        }
        i += 1;
    }
    assert(walked.deep_view().take(walked.len() as int) =~= walked.deep_view());
    r
}

/// The candidates among the files that a walk of the workspace found, given
/// by their paths relative to the root, in the order of the walk: the text
/// files that match one of `patterns`. The first pattern that is no glob
/// fails the selection, and so do patterns that make no set together.
pub fn select_candidates(patterns: &Vec<String>, walked: &Vec<String>) -> (r: Result<
    Vec<String>,
    CompactError,
>)
    ensures
        match r {
            Ok(list) => {
                &&& all_parse_before(patterns.deep_view(), patterns@.len() as int)
                &&& globs_compile(patterns.deep_view())
                &&& list.deep_view() == candidates_of(patterns.deep_view(), walked.deep_view())
            },
            Err(CompactError::InvalidGlob { pattern }) => exists|i: int|
                {
                    &&& 0 <= i < patterns@.len()
                    &&& all_parse_before(patterns.deep_view(), i)
                    &&& !glob_parses(#[trigger] patterns.deep_view()[i])
                    &&& pattern@ == patterns.deep_view()[i]
                },
            Err(CompactError::GlobSet) => {
                &&& all_parse_before(patterns.deep_view(), patterns@.len() as int)
                &&& !globs_compile(patterns.deep_view())
            },
        },
{
    match build_globset(patterns) {
        Ok(set) => Ok(collect_candidates(&set, walked)),
        Err(e) => Err(e),
    }
}

/// The first `limit` of `s`.
pub open spec fn first_n(s: Seq<Seq<char>>, limit: int) -> Seq<Seq<char>> {
    if s.len() <= limit {
        s
    } else if limit > 0 {
        s.take(limit)
    } else {
        Seq::empty()
    }
}

/// The first `limit` of `list`, in order.
pub fn truncate_to(list: &Vec<String>, limit: usize) -> (r: Vec<String>)
    ensures
        r.deep_view() == first_n(list.deep_view(), limit as int),
        r@.len() <= limit,
{
    let n: usize = if list.len() <= limit {
        list.len()
    } else {
        limit
    };
    let mut r: Vec<String> = Vec::new();
    let mut i: usize = 0;
    while i < n
        invariant
            i <= n <= list.len(),
            r@.len() == i,
            forall|k: int| 0 <= k < i ==> r@[k]@ == list@[k]@,
        decreases n - i,
    {
        r.push(list[i].clone());
        i += 1;
    }
    assert(r.deep_view() =~= first_n(list.deep_view(), limit as int));
    r
}

/// What the prompt of a manual compaction ends with.
pub open spec fn summary_instruction() -> Seq<char> {
    "Summarize concisely with explicit references to the listed files where relevant. Output sections: What changed, Why, Open TODOs, Next steps."@
}

/// The prompt of a manual compaction: the user's focus first, where there is
/// one, then the tail of the conversation, then the instruction.
pub open spec fn manual_prompt(focus: Option<Seq<char>>, tail: Seq<char>) -> Seq<char> {
    (match focus {
        Some(f) => "User focus:\n"@ + f + "\n\n"@,
        None => Seq::empty(),
    }) + "Conversation context (tail):\n"@ + tail + "\n\n"@ + summary_instruction()
}

pub fn build_manual_prompt(focus: &Option<String>, tail: &str) -> (r: String)
    ensures
        r@ == manual_prompt(focus.deep_view(), tail@),
{
    let mut r = String::new();
    match focus {
        Some(f) => {
            r.append("User focus:\n");
            r.append(f.as_str());
            r.append("\n\n");
        },
        None => {},
    }
    r.append("Conversation context (tail):\n");
    r.append(tail);
    r.append("\n\n");
    r.append(
        "Summarize concisely with explicit references to the listed files where relevant. Output sections: What changed, Why, Open TODOs, Next steps.",
    );
    assert(r@ =~= manual_prompt(focus.deep_view(), tail@));
    r
}

/// Whether an automatic compaction is due: the feature is on, the stage is
/// not the end of a task unless compaction at task end is on, and either
/// nothing was compacted before or the minimum interval has passed.
/// `elapsed_secs` is the time since the last compaction, `None` where there
/// was none or where the time since cannot be told.
pub open spec fn autotrigger_spec(
    cfg: ConfigView,
    elapsed_secs: Option<u64>,
    stage: AutoCompactStage,
) -> bool {
    &&& cfg.compact.auto_enable
    &&& (stage != AutoCompactStage::EndOfTask || cfg.compact.auto_on_task_end)
    &&& (elapsed_secs is None || elapsed_secs->0 >= cfg.compact.auto_min_interval_secs)
}

/// The compactor of one workspace.
#[derive(Debug)]
pub struct Compactor {
    pub workspace_root: String,
}

/// The files of a manual compaction: the candidates in the order of the walk,
/// cut to the configured number, resolved against the root.
pub open spec fn manual_choice(
    cfg: ConfigView,
    root: Seq<char>,
    includes: Seq<Seq<char>>,
    walked: Seq<Seq<char>>,
) -> Seq<Seq<char>> {
    joined_all(root, first_n(candidates_of(includes, walked), cfg.compact.max_files as int))
}

/// The include patterns of a manual compaction: those of the caller, or the
/// default ones where the caller gives none.
pub open spec fn effective_includes(cfg: ConfigView, given: Seq<Seq<char>>) -> Seq<Seq<char>> {
    if given.len() == 0 {
        default_includes_spec(cfg)
    } else {
        given
    }
}

impl Compactor {
    pub fn new(workspace_root: String) -> (r: Compactor)
        ensures
            r.workspace_root == workspace_root,
    {
        Compactor { workspace_root }
    }

    /// Whether an automatic compaction is due. With the feature off it never
    /// is.
    pub fn should_autotrigger(&self, cfg: &Config, elapsed_secs: Option<u64>, stage: AutoCompactStage) -> (r:
        bool)
        ensures
            r == autotrigger_spec(cfg@, elapsed_secs, stage),
            !cfg@.compact.auto_enable ==> !r,
    {
        if !cfg.compact.auto_enable {
            return false;
        }
        let at_end = match stage {
            AutoCompactStage::EndOfTask => true,
            AutoCompactStage::MidTask => false,
        };
        if at_end && !cfg.compact.auto_on_task_end {
            return false;
        }
        match elapsed_secs {
            Some(e) => e >= cfg.compact.auto_min_interval_secs,
            None => true,
        }
    }

    /// A manual compaction. `walked` holds the regular files that a walk of
    /// the workspace found, ignore rules honoured, by their paths relative to
    /// the root and in the order of the walk.
    pub fn manual_compact(
        &self,
        cfg: &Config,
        user_focus: Option<String>,
        include_globs: Vec<String>,
        conversation_tail: &str,
        walked: &Vec<String>,
    ) -> (r: Result<CompactResult, CompactError>)
        ensures
            match r {
                Ok(res) => {
                    let includes = effective_includes(cfg@, include_globs.deep_view());
                    &&& all_parse_before(includes, includes.len() as int)
                    &&& globs_compile(includes)
                    &&& res.chosen_files.deep_view() == manual_choice(
                        cfg@,
                        self.workspace_root@,
                        includes,
                        walked.deep_view(),
                    )
                    &&& res.chosen_files@.len() <= cfg@.compact.max_files
                    &&& res.focus_prompt@ == manual_prompt(user_focus.deep_view(), conversation_tail@)
                },
                Err(CompactError::InvalidGlob { pattern }) => {
                    let includes = effective_includes(cfg@, include_globs.deep_view());
                    exists|i: int|
                        {
                            &&& 0 <= i < includes.len()
                            &&& all_parse_before(includes, i)
                            &&& !glob_parses(#[trigger] includes[i])
                            &&& pattern@ == includes[i]
                        }
                },
                Err(CompactError::GlobSet) => {
                    let includes = effective_includes(cfg@, include_globs.deep_view());
                    &&& all_parse_before(includes, includes.len() as int)
                    &&& !globs_compile(includes)
                },
            },
    {
        let ghost given = include_globs.deep_view();
        assert(given.len() == include_globs@.len());
        let includes = if include_globs.len() == 0 {
            default_includes(cfg)
        } else {
            include_globs
        };
        assert(includes.deep_view() == effective_includes(cfg@, given));
        assert(includes@.len() == includes.deep_view().len());
        let candidates = match select_candidates(&includes, walked) {
            Ok(list) => list,
            Err(e) => {
                return Err(e);
            },
        };
        let kept = truncate_to(&candidates, cfg.compact.max_files);
        let chosen = join_all(self.workspace_root.as_str(), &kept);
        assert(chosen.deep_view().len() == kept.deep_view().len());
        assert(chosen@.len() == chosen.deep_view().len());
        assert(kept@.len() == kept.deep_view().len());
        let focus_prompt = build_manual_prompt(&user_focus, conversation_tail);
        Ok(CompactResult { chosen_files: chosen, focus_prompt })
    }
}

/// The candidates with their scores, in the order of the candidates.
pub open spec fn scored(
    candidates: Seq<Seq<char>>,
    changed: Seq<Seq<char>>,
    todo_refs: Seq<Seq<char>>,
    exec_refs: Seq<Seq<char>>,
    ages: Map<Seq<char>, u64>,
) -> Seq<ScoredView> {
    Seq::new(
        candidates.len(),
        |i: int|
            ScoredView {
                path: candidates[i],
                score: score_of(candidates[i], changed, todo_refs, exec_refs, ages) as u64,
            },
    )
}

/// Whether two sequences hold the same paths.
pub open spec fn same_paths(a: Seq<Seq<char>>, b: Seq<Seq<char>>) -> bool {
    forall|q: Seq<char>| a.contains(q) <==> b.contains(q)
}

/// Whether `chosen` is the choice of an automatic compaction: the candidates,
/// each once and with its score, are put in ranking order, and the paths of
/// the first `limit` of them are chosen.
pub open spec fn is_auto_choice(
    candidates: Seq<Seq<char>>,
    changed: Seq<Seq<char>>,
    todo_refs: Seq<Seq<char>>,
    exec_refs: Seq<Seq<char>>,
    ages: Map<Seq<char>, u64>,
    limit: int,
    chosen: Seq<Seq<char>>,
) -> bool {
    exists|set: Seq<Seq<char>>, order: Seq<ScoredView>|
        {
            &&& crate::paths::strictly_sorted(set)
            &&& same_paths(set, candidates)
            &&& ranked(order)
            &&& order.to_multiset() == (#[trigger] scored(
                set,
                changed,
                todo_refs,
                exec_refs,
                ages,
            )).to_multiset()
            &&& chosen == #[trigger] top_paths(order, limit)
        }
}

/// A ranking of scored candidates names every path once.
proof fn lemma_order_has_distinct_paths(
    set: Seq<Seq<char>>,
    changed: Seq<Seq<char>>,
    todo_refs: Seq<Seq<char>>,
    exec_refs: Seq<Seq<char>>,
    ages: Map<Seq<char>, u64>,
    order: Seq<ScoredView>,
)
    requires
        crate::paths::strictly_sorted(set),
        order.to_multiset() == scored(set, changed, todo_refs, exec_refs, ages).to_multiset(),
    ensures
        forall|i: int, j: int|
            0 <= i < j < order.len() ==> (#[trigger] order[i]).path != (#[trigger] order[j]).path,
{
    let sc = scored(set, changed, todo_refs, exec_refs, ages);
    assert forall|a: int, b: int| 0 <= a < sc.len() && 0 <= b < sc.len() && a != b implies sc[a]
        != sc[b] by {
        if a < b {
            assert(path_lt(set[a], set[b]));
        } else {
            assert(path_lt(set[b], set[a]));
        }
        lemma_path_lt_irreflexive(set[a]);
    }
    assert(sc.no_duplicates());
    sc.lemma_multiset_has_no_duplicates();
    order.lemma_multiset_has_no_duplicates_conv();
    sc.to_multiset_ensures();
    order.to_multiset_ensures();
    assert forall|i: int, j: int| 0 <= i < j < order.len() implies (#[trigger] order[i]).path != (
    #[trigger] order[j]).path by {
        if order[i].path == order[j].path {
            assert(order.contains(order[i]));
            assert(order.contains(order[j]));
            assert(sc.to_multiset().count(order[i]) > 0);
            assert(sc.to_multiset().count(order[j]) > 0);
            assert(sc.contains(order[i]));
            assert(sc.contains(order[j]));
            let a = choose|a: int| 0 <= a < sc.len() && sc[a] == order[i];
            let b = choose|b: int| 0 <= b < sc.len() && sc[b] == order[j];
            if a != b {
                if a < b {
                    assert(path_lt(set[a], set[b]));
                } else {
                    assert(path_lt(set[b], set[a]));
                }
                lemma_path_lt_irreflexive(set[a]);
            }
            assert(order[i] == order[j]);
        }
    }
}

/// The choice of an automatic compaction is determined by what it looks at:
/// there is one ranking only, so the same candidates, sets and ages always
/// give the same files in the same order.
pub proof fn lemma_auto_choice_unique(
    candidates: Seq<Seq<char>>,
    changed: Seq<Seq<char>>,
    todo_refs: Seq<Seq<char>>,
    exec_refs: Seq<Seq<char>>,
    ages: Map<Seq<char>, u64>,
    limit: int,
    first: Seq<Seq<char>>,
    second: Seq<Seq<char>>,
)
    requires
        is_auto_choice(candidates, changed, todo_refs, exec_refs, ages, limit, first),
        is_auto_choice(candidates, changed, todo_refs, exec_refs, ages, limit, second),
    ensures
        first == second,
{
    let (set1, order1) = choose|set: Seq<Seq<char>>, order: Seq<ScoredView>|
        {
            &&& crate::paths::strictly_sorted(set)
            &&& same_paths(set, candidates)
            &&& ranked(order)
            &&& order.to_multiset() == (#[trigger] scored(
                set,
                changed,
                todo_refs,
                exec_refs,
                ages,
            )).to_multiset()
            &&& first == #[trigger] top_paths(order, limit)
        };
    let (set2, order2) = choose|set: Seq<Seq<char>>, order: Seq<ScoredView>|
        {
            &&& crate::paths::strictly_sorted(set)
            &&& same_paths(set, candidates)
            &&& ranked(order)
            &&& order.to_multiset() == (#[trigger] scored(
                set,
                changed,
                todo_refs,
                exec_refs,
                ages,
            )).to_multiset()
            &&& second == #[trigger] top_paths(order, limit)
        };
    crate::paths::lemma_sorted_unique(set1, set2);
    lemma_order_has_distinct_paths(set1, changed, todo_refs, exec_refs, ages, order1);
    lemma_ranking_unique(order1, order2);
}

/// What an automatic compaction looks at besides the files of the workspace.
#[derive(Debug)]
pub struct Activity {
    /// The entries of the index of the repository at the root, relative to
    /// it; none where there is no repository.
    pub index_paths: Vec<String>,
    /// The changes of the working directory that the repository reports and
    /// does not ignore, relative to the root.
    pub status_paths: Vec<String>,
    /// The files that the recent audit log names and that exist.
    pub exec_files: Vec<String>,
    /// The seconds since each file was last modified, where that is known.
    pub ages: StrMap<u64>,
}

impl Compactor {
    /// The files of an automatic compaction among the candidates.
    pub fn auto_select(
        &self,
        cfg: &Config,
        candidates: &Vec<String>,
        changed: &PathSet,
        todo_refs: &PathSet,
        exec_refs: &PathSet,
        ages: &StrMap<u64>,
    ) -> (chosen: Vec<String>)
        ensures
            is_auto_choice(
                candidates.deep_view(),
                changed@,
                todo_refs@,
                exec_refs@,
                ages@,
                cfg@.compact.max_files as int,
                chosen.deep_view(),
            ),
            chosen@.len() <= cfg@.compact.max_files,
    {
        let set = PathSet::from_paths(candidates);
        let scores = score_files(&set, changed, todo_refs, exec_refs, ages);
        let order = rank_files(&scores);
        let chosen = take_top(&order, cfg.compact.max_files);
        proof {
            let sc = scored(set@, changed@, todo_refs@, exec_refs@, ages@);
            assert(scores.deep_view() =~= sc) by {
                assert(scores.deep_view().len() == sc.len());
                assert forall|i: int| 0 <= i < sc.len() implies scores.deep_view()[i] == sc[i] by {
                    assert(scores.deep_view()[i] == scores@[i]@);
                }
            }
            assert(top_paths(order.deep_view(), cfg@.compact.max_files as int)
                == chosen.deep_view());
        }
        chosen
    }

    /// An automatic compaction. `focus_prompt` is the prompt that the model
    /// made for the stage from the to-dos and the recent activity; `walked`
    /// holds the regular files of the workspace as for a manual compaction.
    /// The candidates are ranked by score and the first of them chosen, as
    /// many as the configuration allows.
    pub fn auto_compact(
        &self,
        cfg: &Config,
        focus_prompt: String,
        walked: &Vec<String>,
        todos: &TodoStore,
        activity: &Activity,
    ) -> (r: Result<CompactResult, CompactError>)
        ensures
            match r {
                Ok(res) => {
                    let includes = default_includes_spec(cfg@);
                    let root = self.workspace_root@;
                    &&& all_parse_before(includes, includes.len() as int)
                    &&& globs_compile(includes)
                    &&& res.focus_prompt@ == focus_prompt@
                    &&& res.chosen_files@.len() <= cfg@.compact.max_files
                    &&& exists|changed: Seq<Seq<char>>, refs: Seq<Seq<char>>, execs: Seq<Seq<char>>|
                        {
                            &&& same_paths(
                                changed,
                                joined_all(root, activity.index_paths.deep_view()) + joined_all(
                                    root,
                                    activity.status_paths.deep_view(),
                                ),
                            )
                            &&& same_paths(refs, todo_paths(todos@, root))
                            &&& same_paths(execs, activity.exec_files.deep_view())
                            &&& #[trigger] is_auto_choice(
                                joined_all(root, candidates_of(includes, walked.deep_view())),
                                changed,
                                refs,
                                execs,
                                activity.ages@,
                                cfg@.compact.max_files as int,
                                res.chosen_files.deep_view(),
                            )
                        }
                },
                Err(CompactError::InvalidGlob { pattern }) => {
                    let includes = default_includes_spec(cfg@);
                    exists|i: int|
                        {
                            &&& 0 <= i < includes.len()
                            &&& all_parse_before(includes, i)
                            &&& !glob_parses(#[trigger] includes[i])
                            &&& pattern@ == includes[i]
                        }
                },
                Err(CompactError::GlobSet) => {
                    let includes = default_includes_spec(cfg@);
                    &&& all_parse_before(includes, includes.len() as int)
                    &&& !globs_compile(includes)
                },
            },
    {
        let includes = default_includes(cfg);
        assert(includes@.len() == includes.deep_view().len());
        let relative = match select_candidates(&includes, walked) {
            Ok(list) => list,
            Err(e) => {
                return Err(e);
            },
        };
        let root = self.workspace_root.as_str();
        let candidates = join_all(root, &relative);
        let changed = git_changed_files(root, &activity.index_paths, &activity.status_paths);
        let refs = todo_file_set(todos, root);
        let execs = PathSet::from_paths(&activity.exec_files);
        let chosen = self.auto_select(cfg, &candidates, &changed, &refs, &execs, &activity.ages);
        proof {
            let r = self.workspace_root@;
            let inc = default_includes_spec(cfg@);
            assert(same_paths(
                changed@,
                joined_all(r, activity.index_paths.deep_view()) + joined_all(
                    r,
                    activity.status_paths.deep_view(),
                ),
            ));
            assert(same_paths(refs@, todo_paths(todos@, r)));
            assert(same_paths(execs@, activity.exec_files.deep_view()));
            assert(candidates.deep_view() == joined_all(r, candidates_of(inc, walked.deep_view())));
            assert(is_auto_choice(
                joined_all(r, candidates_of(inc, walked.deep_view())),
                changed@,
                refs@,
                execs@,
                activity.ages@,
                cfg@.compact.max_files as int,
                chosen.deep_view(),
            ));
        }
        Ok(CompactResult { chosen_files: chosen, focus_prompt })
    }
}

/// A text without the carriage return that ends it, if one does.
pub open spec fn strip_cr(line: Seq<char>) -> Seq<char> {
    if line.len() > 0 && line.last() == '\r' {
        line.drop_last()
    } else {
        line
    }
}

/// The lines that a text has completed, and the line it has begun. A line
/// ends at a line feed; a carriage return just before the line feed belongs
/// to the line end.
pub open spec fn scan_lines(s: Seq<char>) -> (Seq<Seq<char>>, Seq<char>)
    decreases s.len(),
{
    if s.len() == 0 {
        (Seq::empty(), Seq::empty())
    } else {
        let (done, cur) = scan_lines(s.drop_last());
        if s.last() == '\n' {
            (done.push(strip_cr(cur)), Seq::empty())
        } else {
            (done, cur.push(s.last()))
        }
    }
}

/// The lines of a text. The last line need not end in a line feed; a text
/// that ends in one has no empty line after it.
pub open spec fn lines_of(s: Seq<char>) -> Seq<Seq<char>> {
    let (done, cur) = scan_lines(s);
    if cur.len() > 0 {
        done.push(cur)
    } else {
        done
    }
}

/// Splits a text into its lines.
pub fn split_lines(text: &str) -> (r: Vec<String>)
    ensures
        r.deep_view() == lines_of(text@),
{
    let chars = chars_of(text);
    let mut done: Vec<String> = Vec::new();
    let mut cur: Vec<char> = Vec::new();
    let mut i: usize = 0;
    proof {
        assert(chars@.take(0) =~= Seq::<char>::empty());
        assert(done.deep_view() =~= Seq::<Seq<char>>::empty());
    }
    while i < chars.len()
        invariant
            i <= chars.len(),
            (done.deep_view(), cur@) == scan_lines(chars@.take(i as int)),
        decreases chars.len() - i,
    {
        let ghost before = done.deep_view();
        proof {
            assert(chars@.take(i + 1).drop_last() =~= chars@.take(i as int));
            assert(chars@.take(i + 1).last() == chars@[i as int]);
        }
        if chars[i] == '\n' {
            if cur.len() > 0 && cur[cur.len() - 1] == '\r' {
                cur.pop();
            }
            done.push(text_of(&cur));
            assert(done.deep_view() =~= before.push(cur@));
            cur = Vec::new();
        } else {
            cur.push(chars[i]);
        }
        i += 1;
    }
    assert(chars@.take(chars.len() as int) =~= chars@);
    if cur.len() > 0 {
        let ghost before = done.deep_view();
        done.push(text_of(&cur));
        assert(done.deep_view() =~= before.push(cur@));
    }
    done
}

/// What a path-like token of the audit log looks like: a run of letters,
/// digits, `_`, `-`, `.`, `/` and `\`, as short as can be, then a `.` and an
/// extension of one to eight letters or digits.
pub const AUDIT_TOKEN_PATTERN: &'static str = "([A-Za-z0-9_\\-./\\\\]+?\\.[A-Za-z0-9]{1,8})";

/// How many of the last lines of the audit log are mined.
pub const RECENT_AUDIT_LINES: usize = 500;

/// The tokens of the last `n` lines, those of the last line first.
pub open spec fn tokens_newest_first(lines: Seq<Seq<char>>, n: nat) -> Seq<Seq<char>>
    decreases n,
{
    if n == 0 || lines.len() == 0 {
        Seq::empty()
    } else {
        crate::matchers::regex_matches(AUDIT_TOKEN_PATTERN@, lines.last()) + tokens_newest_first(
            lines.drop_last(),
            (n - 1) as nat,
        )
    }
}

/// The path-like tokens of the last `n` lines of an audit log.
pub open spec fn recent_tokens(data: Seq<char>, n: nat) -> Seq<Seq<char>> {
    if crate::matchers::regex_compiles(AUDIT_TOKEN_PATTERN@) {
        tokens_newest_first(lines_of(data), n)
    } else {
        Seq::empty()
    }
}

/// The files that the last `n_lines` lines of the audit log `data` may
/// name: each path-like token, resolved against the workspace `root`. Which
/// of them exist is for the caller to find out.
pub fn extract_recent_exec_files(root: &str, data: &str, n_lines: usize) -> (r: Vec<String>)
    ensures
        r.deep_view() == joined_all(root@, recent_tokens(data@, n_lines as nat)),
{
    let mut tokens: Vec<String> = Vec::new();
    assert(tokens.deep_view() =~= Seq::<Seq<char>>::empty());
    let re = match crate::matchers::compile_regex(AUDIT_TOKEN_PATTERN) {
        Some(re) => re,
        None => {
            let r = join_all(root, &tokens);
            assert(r.deep_view() =~= Seq::<Seq<char>>::empty());
            return r;
        },
    };
    let lines = split_lines(data);
    let ghost all = lines.deep_view();
    let mut i: usize = lines.len();
    let mut left: usize = n_lines;
    assert(all.take(i as int) =~= all);
    assert(tokens.deep_view() + tokens_newest_first(all, n_lines as nat) =~= tokens_newest_first(
        all,
        n_lines as nat,
    ));
    while i > 0 && left > 0
        invariant
            i <= lines.len(),
            all == lines.deep_view(),
            crate::matchers::regex_source(re) == AUDIT_TOKEN_PATTERN@,
            tokens.deep_view() + tokens_newest_first(all.take(i as int), left as nat)
                == tokens_newest_first(all, n_lines as nat),
        decreases i,
    {
        let ghost before = tokens.deep_view();
        let found = crate::matchers::find_all(&re, lines[i - 1].as_str());
        proof {
            assert(all.take(i as int).last() == all[i - 1]);
            assert(all.take(i as int).drop_last() =~= all.take(i - 1));
            assert(found.deep_view() == crate::matchers::regex_matches(
                AUDIT_TOKEN_PATTERN@,
                all[i - 1],
            ));
        }
        append_all(&mut tokens, found);
        proof {
            assert(tokens.deep_view() + tokens_newest_first(all.take(i - 1), (left - 1) as nat)
                =~= before + tokens_newest_first(all.take(i as int), left as nat));
        }
        i -= 1;
        left -= 1;
    }
    proof {
        assert(tokens_newest_first(all.take(i as int), left as nat) =~= Seq::<Seq<char>>::empty());
        assert(tokens.deep_view() =~= tokens_newest_first(all, n_lines as nat));
    }
    join_all(root, &tokens)
}

/// What the model is told of the recent activity when it makes the focus
/// prompt of an automatic compaction.
pub open spec fn activity_record(
    exec_files: Seq<Seq<char>>,
    time: Seq<char>,
    stage: AutoCompactStage,
) -> JsonView {
    JsonView::Object(
        seq![
            ("recent_exec_files"@, text_array(exec_files)),
            ("time"@, JsonView::Text(time)),
            ("stage"@, JsonView::Text(stage.name_spec())),
        ],
    )
}

pub fn activity_json(exec_files: &Vec<String>, time: &str, stage: AutoCompactStage) -> (r: JsonValue)
    ensures
        r@ == activity_record(exec_files.deep_view(), time@, stage),
{
    let mut m: Vec<(String, JsonValue)> = Vec::new();
    assert(members_view(m@) =~= Seq::empty());
    push_member(&mut m, "recent_exec_files", texts_to_json(exec_files));
    push_member(&mut m, "time", text_json(time));
    push_member(&mut m, "stage", text_json(stage.name()));
    assert(members_view(m@) =~= activity_record(exec_files.deep_view(), time@, stage)->Object_0);
    object_of(m)
}

} // verus!
