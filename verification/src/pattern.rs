//! Dynamic path patterns. A pattern is dynamic when it holds a wildcard or a
//! named capture group; a dynamic pattern is compiled to a matcher that
//! accepts or rejects a path and reports the substrings its named groups
//! matched. Compilation and matching are done by the `regex` crate behind the
//! narrow trusted interface below; everything downstream speaks only of the
//! named results `pattern_ok`, `pattern_matches` and `pattern_captures`.

use vstd::prelude::*;
use vstd::string::StrSliceExecFns;

verus! {

/// Whether the pattern text compiles to a matcher.
pub uninterp spec fn pattern_ok(pattern: Seq<char>) -> bool;

/// Whether the compiled pattern accepts the path.
pub uninterp spec fn pattern_matches(pattern: Seq<char>, path: Seq<char>) -> bool;

/// The substring each named capture group of the pattern matched in the path.
pub uninterp spec fn pattern_captures(pattern: Seq<char>, path: Seq<char>) -> Map<
    Seq<char>,
    Seq<char>,
>;

/// Relies on regex::Regex::new: whether a pattern compiles depends on the
/// pattern text alone.
#[verifier::external_body]
pub(crate) fn regex_compiles(pattern: &str) -> (r: bool)
    ensures
        r == pattern_ok(pattern@),
{
    regex::Regex::new(pattern).is_ok()
}

/// Relies on regex::Regex::new and regex::Regex::is_match: whether the
/// compiled pattern accepts a path depends on the pattern and path text alone;
/// a pattern that does not compile accepts nothing.
#[verifier::external_body]
pub(crate) fn regex_is_match(pattern: &str, path: &str) -> (r: bool)
    ensures
        r == (pattern_ok(pattern@) && pattern_matches(pattern@, path@)),
{
    match regex::Regex::new(pattern) {
        Ok(re) => re.is_match(path),
        Err(_) => false,
    }
}

/// Relies on regex::Regex::captures (with Regex::new, Regex::capture_names,
/// Captures::name and Match::as_str converting the result): captures returns
/// a match exactly when the pattern accepts the path, and the named groups it
/// reports depend on the pattern and path text alone.
#[verifier::external_body]
pub(crate) fn regex_named_captures(pattern: &str, path: &str) -> (r: Option<Vec<(String, String)>>)
    ensures
        r is Some <==> (pattern_ok(pattern@) && pattern_matches(pattern@, path@)),
        r is Some ==> pairs_map(r->0@) == pattern_captures(pattern@, path@),
{
    let re = match regex::Regex::new(pattern) {
        Ok(re) => re,
        Err(_) => return None,
    };
    re.captures(path).map(|caps| {
        re.capture_names()
            .flatten()
            .filter_map(|n| caps.name(n).map(|m| (n.to_string(), m.as_str().to_string())))
            .collect()
    })
}

/// The bindings a capture list makes, as a map; the earliest pair with a
/// given name wins.
pub open spec fn pairs_map(pairs: Seq<(String, String)>) -> Map<Seq<char>, Seq<char>>
    decreases pairs.len(),
{
    if pairs.len() == 0 {
        Map::empty()
    } else {
        pairs_map(pairs.drop_first()).insert(pairs[0].0@, pairs[0].1@)
    }
}

/// A pattern is dynamic when it holds a `*` wildcard anywhere.
pub open spec fn has_wildcard(p: Seq<char>) -> bool {
    exists|i: int| 0 <= i < p.len() && p[i] == '*'
}

/// A pattern is dynamic when it opens a named capture group `(?P<` anywhere.
pub open spec fn has_named_group(p: Seq<char>) -> bool {
    exists|i: int|
        0 <= i && i + 4 <= p.len() && #[trigger] p[i] == '(' && p[i + 1] == '?' && p[i + 2] == 'P'
            && p[i + 3] == '<'
}

/// A dynamic pattern is matched by its compiled matcher; any other pattern is
/// matched by literal string equality.
pub open spec fn spec_is_dynamic(p: Seq<char>) -> bool {
    has_wildcard(p) || has_named_group(p)
}

/// Decides whether a registered pattern is dynamic.
pub fn is_dynamic_pattern(p: &str) -> (r: bool)
    ensures
        r == spec_is_dynamic(p@),
{
    let n = p.unicode_len();
    for i in 0..n
        invariant
            n == p@.len(),
            forall|j: int| 0 <= j < i ==> p@[j] != '*',
            forall|j: int|
                0 <= j < i && j + 4 <= n ==> !(#[trigger] p@[j] == '(' && p@[j + 1] == '?' && p@[j
                    + 2] == 'P' && p@[j + 3] == '<'),
    {
        let c = p.get_char(i);
        if c == '*' {
            return true;
        }
        if c == '(' && n - i >= 4 && p.get_char(i + 1) == '?' && p.get_char(i + 2) == 'P'
            && p.get_char(i + 3) == '<' {
            return true;
        }
    }
    false
}

} // verus!
