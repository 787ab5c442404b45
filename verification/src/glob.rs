//! Glob patterns, as the `globset` crate reads and matches them.
//!
//! Two things keep a text away from `globset`. A backslash is read by the
//! path conventions of the machine: it may escape the character behind it,
//! or separate the parts of a path. So what a text with one in it means is
//! not settled by the text. And the matcher of a pattern is a regular
//! expression, which cannot be built if its groups are nested too deeply or
//! its automaton grows too large; the limits below keep well away from both.
//! Naming schemes and the file names of releases have need of neither: a
//! pattern with a backslash or beyond the limits does not compile, and a file
//! name with a backslash matches nothing.

use vstd::prelude::*;
use crate::text::to_chars;

verus! {

/// The longest pattern, in characters, that is handed to the glob compiler.
pub const MAX_PATTERN_CHARS: usize = 1024;

/// The largest number of opening braces in a pattern that is handed to the
/// glob compiler. Every group of alternatives opens with one.
pub const MAX_PATTERN_GROUPS: usize = 64;

/// Whether `globset` parses `pattern` as a glob.
pub uninterp spec fn glob_is_valid(pattern: Seq<char>) -> bool;

/// Whether the glob `pattern`, once compiled, matches the path `candidate`.
pub uninterp spec fn glob_matches(pattern: Seq<char>, candidate: Seq<char>) -> bool;

/// A text that reads the same on every machine: one without a backslash.
pub open spec fn portable(text: Seq<char>) -> bool {
    forall|i: int| 0 <= i < text.len() ==> text[i] != '\\'
}

/// The number of opening braces in `text`.
pub open spec fn opening_braces(text: Seq<char>) -> nat
    decreases text.len(),
{
    if text.len() == 0 {
        0
    } else {
        opening_braces(text.drop_last()) + if text.last() == '{' {
            1nat
        } else {
            0nat
        }
    }
}

/// A pattern that may be handed to the glob compiler.
pub open spec fn within_limits(pattern: Seq<char>) -> bool {
    &&& portable(pattern)
    &&& pattern.len() <= MAX_PATTERN_CHARS
    &&& opening_braces(pattern) <= MAX_PATTERN_GROUPS
}

/// A pattern that compiles to a matcher.
pub open spec fn compiles_spec(pattern: Seq<char>) -> bool {
    within_limits(pattern) && glob_is_valid(pattern)
}

/// Whether a compiled `pattern` accepts the file name `candidate`.
pub open spec fn accepts_spec(pattern: Seq<char>, candidate: Seq<char>) -> bool {
    portable(candidate) && glob_matches(pattern, candidate)
}

/// Whether `text` holds no backslash.
pub fn is_portable(text: &str) -> (yes: bool)
    ensures
        yes == portable(text@),
{
    let chars = to_chars(text);
    let mut i: usize = 0;
    while i < chars.len()
        invariant
            i <= chars.len(),
            chars@ == text@,
            forall|j: int| 0 <= j < i ==> chars@[j] != '\\',
        decreases chars.len() - i,
    {
        if chars[i] == '\\' {
            return false;
        }
        i += 1;
    }
    true
}

/// Whether `pattern` may be handed to the glob compiler.
pub fn is_within_limits(pattern: &str) -> (yes: bool)
    ensures
        yes == within_limits(pattern@),
{
    let chars = to_chars(pattern);
    if chars.len() > MAX_PATTERN_CHARS {
        return false;
    }
    let mut braces: usize = 0;
    let mut i: usize = 0;
    while i < chars.len()
        invariant
            i <= chars.len(),
            chars@ == pattern@,
            chars.len() <= MAX_PATTERN_CHARS,
            braces == opening_braces(chars@.take(i as int)),
            braces <= i,
            forall|j: int| 0 <= j < i ==> chars@[j] != '\\',
        decreases chars.len() - i,
    {
        if chars[i] == '\\' {
            return false;
        }
        assert(chars@.take(i + 1).drop_last() =~= chars@.take(i as int));
        if chars[i] == '{' {
            braces += 1;
        }
        i += 1;
    }
    assert(chars@.take(chars.len() as int) =~= chars@);
    braces <= MAX_PATTERN_GROUPS
}

/// Whether `pattern` compiles to a matcher.
pub fn compiles(pattern: &str) -> (yes: bool)
    ensures
        yes == compiles_spec(pattern@),
{
    if !is_within_limits(pattern) {
        return false;
    }
    proof {
        reveal_strlit("");
    }
    glob_verdict(pattern, "").is_some()
}

/// Whether the compiled `pattern` accepts the file name `candidate`.
pub(crate) fn accepts(pattern: &str, candidate: &str) -> (yes: bool)
    requires
        compiles_spec(pattern@),
    ensures
        yes == accepts_spec(pattern@, candidate@),
{
    if !is_portable(candidate) {
        return false;
    }
    match glob_verdict(pattern, candidate) {
        Some(matched) => matched,
        None => false,
    }
}

/// `globset::Glob::new` on the pattern and, where it accepts the pattern,
/// `Glob::compile_matcher` and `GlobMatcher::is_match` on the candidate. The
/// contract names the two outcomes: there is a verdict exactly where the
/// pattern is a glob, and the verdict is whether the glob matches. It asks
/// for a pattern within the limits, so that the matcher can be built, and for
/// texts without a backslash, which the crate reads by the machine's path
/// conventions.
#[verifier::external_body]
fn glob_verdict(pattern: &str, candidate: &str) -> (verdict: Option<bool>)
    requires
        within_limits(pattern@),
        portable(candidate@),
    ensures
        verdict is Some <==> glob_is_valid(pattern@),
        verdict matches Some(matched) ==> matched == glob_matches(pattern@, candidate@),
{
    match globset::Glob::new(pattern) {
        Ok(glob) => Some(glob.compile_matcher().is_match(candidate)),
        Err(_) => None,
    }
}

} // verus!
