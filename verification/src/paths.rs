//! Paths as text: the order in which paths sort, file names and extensions,
//! joining, and a sorted set of paths.
//!
//! A path is a string whose components are separated by `'/'`.

use vstd::prelude::*;
use crate::text::{chars_of, str_eq, text_of};

verus! {

/// The weight of a character when paths are compared. The separator weighs
/// less than every other character, so that comparing two paths character by
/// character compares them component by component.
pub open spec fn path_rank(c: char) -> int {
    if c == '/' {
        0
    } else {
        (c as u32) as int + 1
    }
}

/// Whether `a` sorts before `b`, both read from index `i` on.
pub open spec fn path_lt_from(a: Seq<char>, b: Seq<char>, i: int) -> bool
    decreases a.len() - i,
{
    if i >= b.len() {
        false
    } else if i >= a.len() {
        true
    } else if a[i] != b[i] {
        path_rank(a[i]) < path_rank(b[i])
    } else {
        path_lt_from(a, b, i + 1)
    }
}

/// The path order: `a` sorts strictly before `b`. A proper prefix sorts
/// before its extensions.
pub open spec fn path_lt(a: Seq<char>, b: Seq<char>) -> bool {
    path_lt_from(a, b, 0)
}

proof fn lemma_lt_irreflexive_from(a: Seq<char>, i: int)
    requires
        0 <= i,
    ensures
        !path_lt_from(a, a, i),
    decreases a.len() - i,
{
    if i < a.len() {
        lemma_lt_irreflexive_from(a, i + 1);
    }
}

proof fn lemma_lt_transitive_from(a: Seq<char>, b: Seq<char>, c: Seq<char>, i: int)
    requires
        0 <= i,
        path_lt_from(a, b, i),
        path_lt_from(b, c, i),
    ensures
        path_lt_from(a, c, i),
    decreases a.len() - i,
{
    if i < a.len() && a[i] == b[i] && b[i] == c[i] {
        lemma_lt_transitive_from(a, b, c, i + 1);
    }
}

proof fn lemma_lt_total_from(a: Seq<char>, b: Seq<char>, i: int)
    requires
        0 <= i <= a.len(),
        i <= b.len(),
        a.take(i) == b.take(i),
        a != b,
    ensures
        path_lt_from(a, b, i) || path_lt_from(b, a, i),
    decreases a.len() - i,
{
    if i == a.len() {
        if i == b.len() {
            assert(a.take(i) =~= a);
            assert(b.take(i) =~= b);
        }
    } else if i < b.len() {
        if a[i] == b[i] {
            assert(a.take(i + 1) =~= a.take(i).push(a[i]));
            assert(b.take(i + 1) =~= b.take(i).push(b[i]));
            lemma_lt_total_from(a, b, i + 1);
        } else {
            let x: char = a[i];
            let y: char = b[i];
            vstd::utf8::char_u32_cast(x, x as u32);
            vstd::utf8::char_u32_cast(y, y as u32);
            assert(x as u32 != y as u32);
        }
    }
}

/// The path order is irreflexive.
pub proof fn lemma_path_lt_irreflexive(a: Seq<char>)
    ensures
        !path_lt(a, a),
{
    lemma_lt_irreflexive_from(a, 0);
}

/// The path order is transitive.
pub proof fn lemma_path_lt_transitive(a: Seq<char>, b: Seq<char>, c: Seq<char>)
    requires
        path_lt(a, b),
        path_lt(b, c),
    ensures
        path_lt(a, c),
{
    lemma_lt_transitive_from(a, b, c, 0);
}

/// Of two different paths one sorts before the other.
pub proof fn lemma_path_lt_total(a: Seq<char>, b: Seq<char>)
    requires
        a != b,
    ensures
        path_lt(a, b) || path_lt(b, a),
{
    assert(a.take(0) =~= b.take(0));
    lemma_lt_total_from(a, b, 0);
}

/// No two paths sort before each other.
pub proof fn lemma_path_lt_asymmetric(a: Seq<char>, b: Seq<char>)
    requires
        path_lt(a, b),
    ensures
        !path_lt(b, a),
{
    if path_lt(b, a) {
        lemma_path_lt_transitive(a, b, a);
        lemma_path_lt_irreflexive(a);
    }
}

fn rank_of(c: char) -> (r: u32)
    ensures
        r == path_rank(c),
{
    if c == '/' {
        0
    } else {
        c as u32 + 1
    }
}

/// Whether the characters `a` sort before the characters `b` as paths.
pub fn chars_path_less(a: &Vec<char>, b: &Vec<char>) -> (r: bool)
    ensures
        r == path_lt(a@, b@),
{
    let mut i: usize = 0;
    while i < a.len() && i < b.len()
        invariant
            i <= a.len(),
            i <= b.len(),
            path_lt(a@, b@) == path_lt_from(a@, b@, i as int),
        decreases a.len() - i,
    {
        if a[i] != b[i] {
            return rank_of(a[i]) < rank_of(b[i]);
        }
        i += 1;
    }
    i < b.len()
}

/// Whether `a` sorts before `b` as a path.
pub fn path_less(a: &str, b: &str) -> (r: bool)
    ensures
        r == path_lt(a@, b@),
{
    let x = chars_of(a);
    let y = chars_of(b);
    chars_path_less(&x, &y)
}

/// The index of the last `c` in `s`, or `-1` where `s` holds none.
pub open spec fn last_index_of(s: Seq<char>, c: char) -> int
    decreases s.len(),
{
    if s.len() == 0 {
        -1
    } else if s.last() == c {
        s.len() - 1
    } else {
        last_index_of(s.drop_last(), c)
    }
}

pub proof fn lemma_last_index_bounds(s: Seq<char>, c: char)
    ensures
        -1 <= last_index_of(s, c) < s.len(),
        last_index_of(s, c) >= 0 ==> s[last_index_of(s, c)] == c,
    decreases s.len(),
{
    if s.len() > 0 && s.last() != c {
        lemma_last_index_bounds(s.drop_last(), c);
    }
}

/// The final component of a path: what follows its last separator.
pub open spec fn file_name(p: Seq<char>) -> Seq<char> {
    p.skip(last_index_of(p, '/') + 1)
}

/// The extension of a path: what follows the last `'.'` of its file name.
/// A file name without a `'.'`, or whose only `'.'` comes first, has the
/// empty extension.
pub open spec fn extension(p: Seq<char>) -> Seq<char> {
    let name = file_name(p);
    let dot = last_index_of(name, '.');
    if dot <= 0 {
        Seq::empty()
    } else {
        name.skip(dot + 1)
    }
}

/// The index of the last `c` among the first `end` characters of `v`.
fn find_last(v: &Vec<char>, end: usize, c: char) -> (r: Option<usize>)
    requires
        end <= v.len(),
    ensures
        match r {
            Some(i) => i as int == last_index_of(v@.take(end as int), c),
            None => last_index_of(v@.take(end as int), c) == -1,
        },
{
    let mut i: usize = end;
    while i > 0
        invariant
            i <= end <= v.len(),
            last_index_of(v@.take(end as int), c) == last_index_of(v@.take(i as int), c),
        decreases i,
    {
        if v[i - 1] == c {
            return Some(i - 1);
        }
        assert(v@.take(i as int).drop_last() =~= v@.take(i - 1));
        i -= 1;
    }
    None
}

/// The characters of `v` from index `from` on.
fn tail_chars(v: &Vec<char>, from: usize) -> (r: Vec<char>)
    requires
        from <= v.len(),
    ensures
        r@ == v@.skip(from as int),
{
    let mut r: Vec<char> = Vec::new();
    let mut i: usize = from;
    while i < v.len()
        invariant
            from <= i <= v.len(),
            r@ == v@.subrange(from as int, i as int),
        decreases v.len() - i,
    {
        r.push(v[i]);
        assert(r@ =~= v@.subrange(from as int, i + 1));
        i += 1;
    }
    assert(v@.subrange(from as int, v.len() as int) =~= v@.skip(from as int));
    r
}

/// The extension of a path given as characters.
pub fn extension_chars(p: &Vec<char>) -> (r: Vec<char>)
    ensures
        r@ == extension(p@),
{
    assert(p@.take(p.len() as int) =~= p@);
    proof {
        lemma_last_index_bounds(p@, '/');
    }
    let start: usize = match find_last(p, p.len(), '/') {
        Some(i) => i + 1,
        None => 0,
    };
    let name = tail_chars(p, start);
    assert(name@.take(name.len() as int) =~= name@);
    proof {
        lemma_last_index_bounds(name@, '.');
    }
    match find_last(&name, name.len(), '.') {
        Some(d) => {
            if d == 0 {
                Vec::new()
            } else {
                tail_chars(&name, d + 1)
            }
        },
        None => Vec::new(),
    }
}

/// `rel` resolved against `root`: a `rel` that starts at the root of the file
/// system stands for itself, any other is appended after one separator.
pub open spec fn joined(root: Seq<char>, rel: Seq<char>) -> Seq<char> {
    if rel.len() > 0 && rel[0] == '/' {
        rel
    } else if root.len() == 0 {
        rel
    } else if root.last() == '/' {
        root + rel
    } else {
        root + seq!['/'] + rel
    }
}

/// Resolves `rel` against `root`.
pub fn join_path(root: &str, rel: &str) -> (r: String)
    ensures
        r@ == joined(root@, rel@),
{
    let a = chars_of(root);
    let b = chars_of(rel);
    if b.len() > 0 && b[0] == '/' {
        return text_of(&b);
    }
    if a.len() == 0 {
        return text_of(&b);
    }
    let mut out: Vec<char> = a;
    let ghost head = out@;
    if out[out.len() - 1] != '/' {
        out.push('/');
    }
    let ghost mid = out@;
    let mut i: usize = 0;
    while i < b.len()
        invariant
            i <= b.len(),
            out@ == mid + b@.take(i as int),
        decreases b.len() - i,
    {
        out.push(b[i]);
        assert(out@ =~= mid + b@.take(i + 1));
        i += 1;
    }
    assert(b@.take(b.len() as int) =~= b@);
    assert(mid + b@ =~= joined(root@, rel@));
    text_of(&out)
}

/// A set of paths, held in path order without repetition.
#[derive(Debug)]
pub struct PathSet {
    items: Vec<String>,
}

impl View for PathSet {
    type V = Seq<Seq<char>>;

    /// The paths of the set, in path order.
    closed spec fn view(&self) -> Seq<Seq<char>> {
        self.items.deep_view()
    }
}

/// Whether a sequence of paths is strictly increasing in path order.
pub open spec fn strictly_sorted(s: Seq<Seq<char>>) -> bool {
    forall|i: int, j: int| 0 <= i < j < s.len() ==> path_lt(#[trigger] s[i], #[trigger] s[j])
}

impl PathSet {
    /// The paths are strictly increasing: sorted, and none occurs twice.
    pub open spec fn wf(&self) -> bool {
        strictly_sorted(self@)
    }

    pub fn new() -> (r: PathSet)
        ensures
            r.wf(),
            r@ == Seq::<Seq<char>>::empty(),
    {
        let r = PathSet { items: Vec::new() };
        assert(r@ =~= Seq::<Seq<char>>::empty());
        r
    }

    pub fn len(&self) -> (n: usize)
        ensures
            n == self@.len(),
    {
        self.items.len()
    }

    /// The path at position `i` of the path order.
    pub fn get(&self, i: usize) -> (p: &String)
        requires
            i < self@.len(),
        ensures
            p@ == self@[i as int],
    {
        &self.items[i]
    }

    /// The paths, in path order.
    pub fn paths(&self) -> (v: &Vec<String>)
        ensures
            v.deep_view() == self@,
    {
        &self.items
    }

    pub fn contains(&self, p: &str) -> (r: bool)
        ensures
            r == self@.contains(p@),
    {
        let mut i: usize = 0;
        while i < self.items.len()
            invariant
                i <= self.items.len(),
                forall|k: int| 0 <= k < i ==> self@[k] != p@,
            decreases self.items.len() - i,
        {
            if str_eq(self.items[i].as_str(), p) {
                assert(self@[i as int] == p@);
                return true;
            }
            i += 1;
        }
        false
    }

    /// Adds `p`; a path that the set holds already is not added again.
    /// Returns whether the set grew.
    pub fn insert(&mut self, p: String) -> (added: bool)
        requires
            old(self).wf(),
        ensures
            final(self).wf(),
            added == !old(self)@.contains(p@),
            forall|q: Seq<char>| final(self)@.contains(q) <==> (q == p@ || old(self)@.contains(q)),
            final(self)@.len() == old(self)@.len() + if added { 1int } else { 0int },
    {
        let pc = chars_of(p.as_str());
        let mut i: usize = 0;
        let mut stop = false;
        while i < self.items.len() && !stop
            invariant
                i <= self.items.len(),
                *self == *old(self),
                pc@ == p@,
                forall|k: int| 0 <= k < i ==> path_lt(self@[k], p@),
                stop ==> i < self.items.len() && !path_lt(self@[i as int], p@),
            decreases self.items.len() - i + if stop { 0int } else { 1int },
        {
            let cur = chars_of(self.items[i].as_str());
            if chars_path_less(&cur, &pc) {
                i += 1;
            } else {
                stop = true;
            }
        }
        let ghost before = self@;
        if i < self.items.len() && str_eq(self.items[i].as_str(), p.as_str()) {
            assert(before[i as int] == p@);
            assert(before.contains(p@));
            return false;
        }
        proof {
            // Nothing at or after `i` equals `p`, and all of it sorts after `p`.
            assert forall|k: int| i <= k < before.len() implies path_lt(p@, #[trigger] before[k]) by {
                lemma_path_lt_total(before[i as int], p@);
                if k > i {
                    lemma_path_lt_transitive(p@, before[i as int], before[k]);
                }
            }
            assert forall|k: int| 0 <= k < before.len() implies before[k] != p@ by {
                lemma_path_lt_irreflexive(p@);
            }
        }
        self.items.insert(i, p);
        proof {
            assert(self@ =~= before.insert(i as int, p@));
            assert forall|q: Seq<char>| self@.contains(q) <==> (q == p@ || before.contains(q)) by {
                if self@.contains(q) {
                    let k = choose|k: int| 0 <= k < self@.len() && self@[k] == q;
                    if k < i {
                        assert(before[k] == q);
                    } else if k > i {
                        assert(before[k - 1] == q);
                    }
                }
                if q == p@ {
                    assert(self@[i as int] == q);
                }
                if before.contains(q) {
                    let k = choose|k: int| 0 <= k < before.len() && before[k] == q;
                    if k < i {
                        assert(self@[k] == q);
                    } else {
                        assert(self@[k + 1] == q);
                    }
                }
            }
            assert forall|a: int, b: int| 0 <= a < b < self@.len() implies path_lt(
                #[trigger] self@[a],
                #[trigger] self@[b],
            ) by {
                if b < i {
                    assert(self@[a] == before[a] && self@[b] == before[b]);
                } else if b == i {
                    assert(self@[a] == before[a]);
                } else if a == i {
                    assert(self@[b] == before[b - 1]);
                } else if a < i {
                    assert(self@[a] == before[a] && self@[b] == before[b - 1]);
                } else {
                    assert(self@[a] == before[a - 1] && self@[b] == before[b - 1]);
                }
            }
        }
        true
    }

    /// The set of the paths in `paths`.
    pub fn from_paths(paths: &Vec<String>) -> (r: PathSet)
        ensures
            r.wf(),
            forall|q: Seq<char>| r@.contains(q) <==> paths.deep_view().contains(q),
    {
        let mut r = PathSet::new();
        let mut i: usize = 0;
        while i < paths.len()
            invariant
                i <= paths.len(),
                r.wf(),
                forall|q: Seq<char>| r@.contains(q) <==> paths.deep_view().take(i as int).contains(q),
            decreases paths.len() - i,
        {
            let ghost prev = r@;
            r.insert(paths[i].clone());
            proof {
                let dv = paths.deep_view();
                let lo = dv.take(i as int);
                let hi = dv.take(i + 1);
                assert(hi =~= lo.push(dv[i as int]));
                assert forall|q: Seq<char>| r@.contains(q) <==> hi.contains(q) by {
                    if hi.contains(q) {
                        let k = choose|k: int| 0 <= k < hi.len() && hi[k] == q;
                        if k < i {
                            assert(lo[k] == q);
                        }
                    }
                    if lo.contains(q) {
                        let k = choose|k: int| 0 <= k < lo.len() && lo[k] == q;
                        assert(hi[k] == q);
                    }
                    if q == dv[i as int] {
                        assert(hi[i as int] == q);
                    }
                }
            }
            i += 1;
        }
        assert(paths.deep_view().take(paths.len() as int) =~= paths.deep_view());
        r
    }
}

/// Two strictly sorted sequences that hold the same paths are equal: a set of
/// paths has one order only.
pub proof fn lemma_sorted_unique(s: Seq<Seq<char>>, t: Seq<Seq<char>>)
    requires
        strictly_sorted(s),
        strictly_sorted(t),
        forall|q: Seq<char>| s.contains(q) <==> t.contains(q),
    ensures
        s == t,
    decreases s.len(),
{
    if s.len() == 0 {
        if t.len() > 0 {
            assert(t.contains(t[0]));
        }
        assert(s =~= t);
    } else {
        assert(s.contains(s[0]));
        assert(t.len() > 0);
        assert(t.contains(t[0]));
        // Each first element is the least of both sequences.
        let i = choose|i: int| 0 <= i < t.len() && t[i] == s[0];
        let j = choose|j: int| 0 <= j < s.len() && s[j] == t[0];
        if i > 0 && j > 0 {
            assert(path_lt(t[0], t[i]));
            assert(path_lt(s[0], s[j]));
            lemma_path_lt_asymmetric(t[0], s[0]);
        }
        if i > 0 && j == 0 {
            assert(path_lt(t[0], t[i]));
            lemma_path_lt_irreflexive(s[0]);
        }
        if i == 0 {
        } else {
            assert(j > 0);
        }
        assert(s[0] == t[0]);
        let s1 = s.drop_first();
        let t1 = t.drop_first();
        assert forall|q: Seq<char>| s1.contains(q) <==> t1.contains(q) by {
            if s1.contains(q) {
                let k = choose|k: int| 0 <= k < s1.len() && s1[k] == q;
                assert(s[k + 1] == q);
                assert(path_lt(s[0], s[k + 1]));
                assert(s.contains(q));
                let m = choose|m: int| 0 <= m < t.len() && t[m] == q;
                if m == 0 {
                    lemma_path_lt_irreflexive(q);
                }
                assert(t1[m - 1] == q);
            }
            if t1.contains(q) {
                let k = choose|k: int| 0 <= k < t1.len() && t1[k] == q;
                assert(t[k + 1] == q);
                assert(path_lt(t[0], t[k + 1]));
                assert(t.contains(q));
                let m = choose|m: int| 0 <= m < s.len() && s[m] == q;
                if m == 0 {
                    lemma_path_lt_irreflexive(q);
                }
                assert(s1[m - 1] == q);
            }
        }
        assert forall|a: int, b: int| 0 <= a < b < s1.len() implies path_lt(
            #[trigger] s1[a],
            #[trigger] s1[b],
        ) by {
            assert(s1[a] == s[a + 1] && s1[b] == s[b + 1]);
        }
        assert forall|a: int, b: int| 0 <= a < b < t1.len() implies path_lt(
            #[trigger] t1[a],
            #[trigger] t1[b],
        ) by {
            assert(t1[a] == t[a + 1] && t1[b] == t[b + 1]);
        }
        lemma_sorted_unique(s1, t1);
        assert(s =~= seq![s[0]] + s1);
        assert(t =~= seq![t[0]] + t1);
    }
}

} // verus!
