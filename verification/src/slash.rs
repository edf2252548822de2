//! Slash commands: aliases that expand to text, macros of several lines, and
//! built-in commands that the host carries out.

use vstd::prelude::*;
use vstd::string::*;
use crate::strmap::{DeepClone, StrMap};
use crate::text::{chars_of, matches_at, occurs_at, text_of};

verus! {

/// What a name stands for.
#[derive(Debug)]
pub enum SlashDef {
    /// Text in which `$ARGS` stands for the rest of the input.
    Alias { expands_to: String },
    /// Lines that are given out one below the other.
    Macro { lines: Vec<String> },
    /// A command of the host.
    Builtin { name: String, args: StrMap<String> },
}

pub ghost enum SlashDefView {
    Alias { expands_to: Seq<char> },
    Macro { lines: Seq<Seq<char>> },
    Builtin { name: Seq<char>, args: Map<Seq<char>, Seq<char>> },
}

impl DeepView for SlashDef {
    type V = SlashDefView;

    open spec fn deep_view(&self) -> SlashDefView {
        match self {
            SlashDef::Alias { expands_to } => SlashDefView::Alias { expands_to: expands_to@ },
            SlashDef::Macro { lines } => SlashDefView::Macro { lines: lines.deep_view() },
            SlashDef::Builtin { name, args } => SlashDefView::Builtin { name: name@, args: args@ },
        }
    }
}

impl DeepClone for SlashDef {
    fn deep_clone(&self) -> (r: SlashDef) {
        match self {
            SlashDef::Alias { expands_to } => SlashDef::Alias { expands_to: expands_to.clone() },
            SlashDef::Macro { lines } => SlashDef::Macro { lines: lines.deep_clone() },
            SlashDef::Builtin { name, args } => SlashDef::Builtin {
                name: name.clone(),
                args: args.deep_clone(),
            },
        }
    }
}

/// Why an input could not be dispatched.
#[derive(Debug, PartialEq, Eq)]
pub enum SlashError {
    /// The input does not begin with `/`.
    NotSlash,
    /// No command has this name.
    Unknown { name: String },
}

impl SlashError {
    pub fn message(&self) -> (r: String)
        ensures
            r@ == match self {
                SlashError::NotSlash => "not a slash command"@,
                SlashError::Unknown { name } => "unknown slash: "@ + name@,
            },
    {
        match self {
            SlashError::NotSlash => "not a slash command".to_owned(),
            SlashError::Unknown { name } => {
                let mut s = "unknown slash: ".to_owned();
                s.append(name.as_str());
                s
            },
        }
    }
}

/// What an input comes to.
#[derive(Debug)]
pub enum SlashOutcome {
    /// The text that the input expands to.
    Text(String),
    /// The built-in command to carry out, with its configured arguments and
    /// the rest of the input.
    Builtin { name: String, args: StrMap<String>, rest: String },
}

pub ghost enum SlashOutcomeView {
    Text(Seq<char>),
    Builtin { name: Seq<char>, args: Map<Seq<char>, Seq<char>>, rest: Seq<char> },
}

impl DeepView for SlashOutcome {
    type V = SlashOutcomeView;

    open spec fn deep_view(&self) -> SlashOutcomeView {
        match self {
            SlashOutcome::Text(t) => SlashOutcomeView::Text(t@),
            SlashOutcome::Builtin { name, args, rest } => SlashOutcomeView::Builtin {
                name: name@,
                args: args@,
                rest: rest@,
            },
        }
    }
}

/// The index of the first `c` in `s`, or the length of `s` where it holds
/// none.
pub open spec fn first_index_of(s: Seq<char>, c: char) -> int
    decreases s.len(),
{
    if s.len() == 0 {
        0
    } else if s[0] == c {
        0
    } else {
        1 + first_index_of(s.drop_first(), c)
    }
}

/// The name of the command of an input: what stands between the `/` and the
/// first space.
pub open spec fn command_name(input: Seq<char>) -> Seq<char> {
    let body = input.skip(1);
    body.take(first_index_of(body, ' '))
}

/// The rest of an input: what follows the first space.
pub open spec fn command_rest(input: Seq<char>) -> Seq<char> {
    let body = input.skip(1);
    let i = first_index_of(body, ' ');
    if i < body.len() {
        body.skip(i + 1)
    } else {
        Seq::empty()
    }
}

/// `s` with every occurrence of `pat` replaced by `with`, occurrences found
/// from the left and not overlapping. An empty `pat` occurs nowhere.
pub open spec fn replaced(s: Seq<char>, pat: Seq<char>, with: Seq<char>) -> Seq<char>
    decreases s.len(),
{
    if pat.len() == 0 || s.len() < pat.len() {
        s
    } else if occurs_at(s, pat, 0) {
        with + replaced(s.skip(pat.len() as int), pat, with)
    } else {
        seq![s[0]] + replaced(s.skip(1), pat, with)
    }
}

/// The lines one below the other, a line feed between each two.
pub open spec fn joined_lines(lines: Seq<Seq<char>>) -> Seq<char>
    decreases lines.len(),
{
    if lines.len() == 0 {
        Seq::empty()
    } else if lines.len() == 1 {
        lines[0]
    } else {
        joined_lines(lines.drop_last()) + "\n"@ + lines.last()
    }
}

/// What an input comes to among the commands `commands`.
pub open spec fn dispatch_spec(
    commands: Map<Seq<char>, SlashDefView>,
    input: Seq<char>,
) -> Result<SlashOutcomeView, Option<Seq<char>>> {
    if input.len() == 0 || input[0] != '/' {
        Err(None)
    } else {
        let name = command_name(input);
        let rest = command_rest(input);
        if !commands.contains_key(name) {
            Err(Some(name))
        } else {
            match commands[name] {
                SlashDefView::Alias { expands_to } => Ok(
                    SlashOutcomeView::Text(replaced(expands_to, "$ARGS"@, rest)),
                ),
                SlashDefView::Macro { lines } => Ok(SlashOutcomeView::Text(joined_lines(lines))),
                SlashDefView::Builtin { name: builtin, args } => Ok(
                    SlashOutcomeView::Builtin { name: builtin, args, rest },
                ),
            }
        }
    }
}

fn find_first(v: &Vec<char>, from: usize, c: char) -> (r: usize)
    requires
        from <= v.len(),
    ensures
        r as int == from + first_index_of(v@.skip(from as int), c),
        from <= r <= v.len(),
    decreases v.len() - from,
{
    if from >= v.len() {
        from
    } else if v[from] == c {
        assert(v@.skip(from as int)[0] == v@[from as int]);
        from
    } else {
        assert(v@.skip(from as int)[0] == v@[from as int]);
        assert(v@.skip(from as int).drop_first() =~= v@.skip(from + 1));
        find_first(v, from + 1, c)
    }
}

fn slice_of(v: &Vec<char>, from: usize, to: usize) -> (r: Vec<char>)
    requires
        from <= to <= v.len(),
    ensures
        r@ == v@.subrange(from as int, to as int),
{
    let mut r: Vec<char> = Vec::new();
    let mut i: usize = from;
    while i < to
        invariant
            from <= i <= to <= v.len(),
            r@ == v@.subrange(from as int, i as int),
        decreases to - i,
    {
        r.push(v[i]);
        assert(r@ =~= v@.subrange(from as int, i + 1));
        i += 1;
    }
    r
}

/// Replaces every occurrence of `pat` in `s` by `with`.
pub fn replace_all(s: &str, pat: &str, with: &str) -> (r: String)
    ensures
        r@ == replaced(s@, pat@, with@),
{
    let sv = chars_of(s);
    let pv = chars_of(pat);
    let wv = chars_of(with);
    if pv.len() == 0 {
        return text_of(&sv);
    }
    let mut out: Vec<char> = Vec::new();
    let mut i: usize = 0;
    assert(out@ + replaced(sv@.skip(0), pv@, wv@) =~= replaced(sv@, pv@, wv@)) by {
        assert(sv@.skip(0) =~= sv@);
    }
    while i < sv.len() && sv.len() - i >= pv.len()
        invariant
            i <= sv.len(),
            pv.len() > 0,
            out@ + replaced(sv@.skip(i as int), pv@, wv@) == replaced(sv@, pv@, wv@),
        decreases sv.len() - i,
    {
        let ghost rest = sv@.skip(i as int);
        let ghost before = out@;
        let hit = matches_at(&sv, &pv, i);
        proof {
            assert(rest.subrange(0, pv.len() as int) =~= sv@.subrange(i as int, i + pv.len()));
            assert(hit == occurs_at(rest, pv@, 0));
        }
        if hit {
            let mut k: usize = 0;
            while k < wv.len()
                invariant
                    k <= wv.len(),
                    out@ == before + wv@.take(k as int),
                decreases wv.len() - k,
            {
                out.push(wv[k]);
                assert(out@ =~= before + wv@.take(k + 1));
                k += 1;
            }
            proof {
                assert(wv@.take(wv.len() as int) =~= wv@);
                assert(rest.skip(pv.len() as int) =~= sv@.skip(i + pv.len()));
                assert(out@ + replaced(sv@.skip(i + pv.len()), pv@, wv@) =~= before + (wv@
                    + replaced(rest.skip(pv.len() as int), pv@, wv@)));
            }
            i += pv.len();
        } else {
            out.push(sv[i]);
            proof {
                assert(rest.skip(1) =~= sv@.skip(i + 1));
                assert(rest[0] == sv@[i as int]);
                assert(out@ + replaced(sv@.skip(i + 1), pv@, wv@) =~= before + (seq![rest[0]]
                    + replaced(rest.skip(1), pv@, wv@)));
            }
            i += 1;
        }
    }
    let ghost before = out@;
    let ghost tail = sv@.skip(i as int);
    let mut j: usize = i;
    while j < sv.len()
        invariant
            i <= j <= sv.len(),
            out@ == before + sv@.subrange(i as int, j as int),
        decreases sv.len() - j,
    {
        out.push(sv[j]);
        assert(out@ =~= before + sv@.subrange(i as int, j + 1));
        j += 1;
    }
    proof {
        assert(sv@.subrange(i as int, sv.len() as int) =~= tail);
        assert(replaced(tail, pv@, wv@) == tail);
    }
    text_of(&out)
}

/// Puts the lines one below the other.
pub fn join_lines(lines: &Vec<String>) -> (r: String)
    ensures
        r@ == joined_lines(lines.deep_view()),
{
    let mut r = String::new();
    let mut i: usize = 0;
    assert(lines.deep_view().take(0) =~= Seq::<Seq<char>>::empty());
    while i < lines.len()
        invariant
            i <= lines.len(),
            r@ == joined_lines(lines.deep_view().take(i as int)),
        decreases lines.len() - i,
    {
        proof {
            let dv = lines.deep_view();
            assert(dv.take(i + 1).drop_last() =~= dv.take(i as int));
            assert(dv.take(i + 1).last() == lines@[i as int]@);
            if i == 0 {
                assert(dv.take(1)[0] == lines@[0]@);
            }
        }
        if i > 0 {
            r.append("\n");
        }
        r.append(lines[i].as_str());
        assert(r@ =~= joined_lines(lines.deep_view().take(i + 1)));
        i += 1;
    }
    assert(lines.deep_view().take(lines.len() as int) =~= lines.deep_view());
    r
}

/// The commands that are defined, by name.
#[derive(Debug)]
pub struct SlashRegistry {
    pub commands: StrMap<SlashDef>,
}

impl SlashRegistry {
    pub fn new() -> (r: SlashRegistry)
        ensures
            r.commands@ == Map::<Seq<char>, SlashDefView>::empty(),
    {
        SlashRegistry { commands: StrMap::new() }
    }

    /// Takes in the definitions of one more file; a name that was defined
    /// before is defined anew.
    pub fn extend(&mut self, definitions: &StrMap<SlashDef>)
        ensures
            final(self).commands@ == old(self).commands@.union_prefer_right(definitions@),
    {
        self.commands.extend_from(definitions);
    }

    /// Dispatches an input: the text of an alias with the rest of the input
    /// in place of `$ARGS`, the lines of a macro, or the built-in command to
    /// carry out.
    pub fn dispatch(&self, input: &str) -> (r: Result<SlashOutcome, SlashError>)
        ensures
            match r {
                Ok(out) => dispatch_spec(self.commands@, input@) == Ok::<
                    SlashOutcomeView,
                    Option<Seq<char>>,
                >(out.deep_view()),
                Err(SlashError::NotSlash) => dispatch_spec(self.commands@, input@) == Err::<
                    SlashOutcomeView,
                    Option<Seq<char>>,
                >(None),
                Err(SlashError::Unknown { name }) => dispatch_spec(self.commands@, input@) == Err::<
                    SlashOutcomeView,
                    Option<Seq<char>>,
                >(Some(name@)),
            },
    {
        let chars = chars_of(input);
        if chars.len() == 0 || chars[0] != '/' {
            return Err(SlashError::NotSlash);
        }
        let space = find_first(&chars, 1, ' ');
        let name = text_of(&slice_of(&chars, 1, space));
        let rest = if space < chars.len() {
            text_of(&slice_of(&chars, space + 1, chars.len()))
        } else {
            String::new()
        };
        proof {
            let body = input@.skip(1);
            let i = first_index_of(body, ' ');
            assert(body.take(i) =~= chars@.subrange(1, space as int));
            if space < chars.len() {
                assert(body.skip(i + 1) =~= chars@.subrange(space + 1, chars.len() as int));
            }
            assert(name@ == command_name(input@));
            assert(rest@ == command_rest(input@));
        }
        match self.commands.get(name.as_str()) {
            None => Err(SlashError::Unknown { name }),
            Some(SlashDef::Alias { expands_to }) => Ok(
                SlashOutcome::Text(replace_all(expands_to.as_str(), "$ARGS", rest.as_str())),
            ),
            Some(SlashDef::Macro { lines }) => Ok(SlashOutcome::Text(join_lines(lines))),
            Some(SlashDef::Builtin { name: builtin, args }) => Ok(
                SlashOutcome::Builtin { name: builtin.clone(), args: args.deep_clone(), rest },
            ),
        }
    }
}

} // verus!
