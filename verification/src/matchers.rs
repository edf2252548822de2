//! Glob sets and regular expressions, as the `globset` and `regex` crates
//! provide them.
//!
//! What these crates compute is named here, not defined: a pattern either
//! parses or it does not, a set of patterns either matches a path or it does
//! not, and the contracts of this module only say that the same patterns and
//! the same text always give the same answer.
//!
//! The names stand for globs made by `Glob::new`, glob sets made of such
//! globs by `GlobSet::new`, and expressions made by `Regex::new`, that is,
//! with the default options of the two crates; a matcher built with other
//! options has the same source and may match otherwise. The library makes no
//! other and hands none out. The default options of a glob depend on the
//! target the crate is built for (whether a backslash escapes, which
//! characters separate path components), so the names are fixed for one
//! build target, not across targets.

use vstd::prelude::*;

verus! {

#[verifier::external_type_specification]
#[verifier::external_body]
pub struct ExGlob(globset::Glob);

#[verifier::external_type_specification]
#[verifier::external_body]
pub struct ExGlobSet(globset::GlobSet);

#[verifier::external_type_specification]
#[verifier::external_body]
pub struct ExGlobError(globset::Error);

#[verifier::external_type_specification]
#[verifier::external_body]
pub struct ExRegex(regex::Regex);

/// Whether `globset::Glob::new` accepts the pattern.
pub uninterp spec fn glob_parses(pattern: Seq<char>) -> bool;

/// The pattern that a glob made by `Glob::new` was made from.
pub uninterp spec fn glob_source(glob: globset::Glob) -> Seq<char>;

/// Whether `globset::GlobSet::new` accepts globs of these patterns together.
pub uninterp spec fn globs_compile(patterns: Seq<Seq<char>>) -> bool;

/// The patterns of the globs that a glob set was made from by
/// `GlobSet::new`, in order.
pub uninterp spec fn set_sources(set: globset::GlobSet) -> Seq<Seq<char>>;

/// Whether `globset::GlobSet::is_match` finds a glob among these patterns
/// that matches the path.
pub uninterp spec fn globs_match(patterns: Seq<Seq<char>>, path: Seq<char>) -> bool;

/// Whether `regex::Regex::new` accepts the pattern.
pub uninterp spec fn regex_compiles(pattern: Seq<char>) -> bool;

/// The pattern that an expression made by `Regex::new` was made from.
pub uninterp spec fn regex_source(re: regex::Regex) -> Seq<char>;

/// The matches that `regex::Regex::find_iter` yields for a pattern in a
/// text: successive, not overlapping, leftmost first.
pub uninterp spec fn regex_matches(pattern: Seq<char>, hay: Seq<char>) -> Seq<Seq<char>>;

/// The patterns of a list of parsed globs.
pub open spec fn glob_sources(globs: Seq<globset::Glob>) -> Seq<Seq<char>> {
    globs.map_values(|g: globset::Glob| glob_source(g))
}

/// `globset::Glob::new`: parses a pattern with the default options. Whether
/// it succeeds depends on the pattern alone, and the glob it gives stands for
/// that pattern.
#[verifier::external_body]
pub(crate) fn parse_glob(pattern: &str) -> (r: Result<globset::Glob, globset::Error>)
    ensures
        r is Ok == glob_parses(pattern@),
        r matches Ok(g) ==> glob_source(g) == pattern@,
{
    globset::Glob::new(pattern)
}

/// `globset::GlobSet::new`: builds the matcher of a list of globs. Whether it
/// succeeds depends on their patterns alone, and the set it gives stands for
/// those patterns.
#[verifier::external_body]
pub(crate) fn compile_globs(globs: &Vec<globset::Glob>) -> (r: Result<globset::GlobSet, globset::Error>)
    ensures
        r is Ok == globs_compile(glob_sources(globs@)),
        r matches Ok(set) ==> set_sources(set) == glob_sources(globs@),
{
    globset::GlobSet::new(globs.iter())
}

/// `globset::GlobSet::is_match`: whether a glob of the set matches the path.
/// The answer depends on the patterns of the set and on the path alone.
#[verifier::external_body]
pub(crate) fn set_matches(set: &globset::GlobSet, path: &str) -> (r: bool)
    ensures
        r == globs_match(set_sources(*set), path@),
{
    set.is_match(path)
}

/// `regex::Regex::new`: compiles a pattern. Whether it succeeds depends on
/// the pattern alone, and the expression it gives stands for that pattern.
#[verifier::external_body]
pub(crate) fn compile_regex(pattern: &str) -> (r: Option<regex::Regex>)
    ensures
        r is Some == regex_compiles(pattern@),
        r matches Some(re) ==> regex_source(re) == pattern@,
{
    regex::Regex::new(pattern).ok()
}

/// `regex::Regex::find_iter`: the matches of the expression in a text, each
/// as the text it covers. They depend on the pattern and on the text alone.
#[verifier::external_body]
pub(crate) fn find_all(re: &regex::Regex, hay: &str) -> (r: Vec<String>)
    ensures
        r.deep_view() == regex_matches(regex_source(*re), hay@),
{
    re.find_iter(hay).map(|m| m.as_str().to_owned()).collect()
}

} // verus!
