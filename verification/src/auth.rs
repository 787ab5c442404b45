//! Setting up authentication: which texts are taken for a GitHub token, and
//! what is kept of one that was entered.

use vstd::prelude::*;
use vstd::string::StringExecFns;
use crate::text::to_chars;

verus! {

/// A letter of the Latin alphabet, of either case, or a decimal digit.
pub open spec fn is_alphanumeric(c: char) -> bool {
    let code = c as u32;
    ||| 'a' as u32 <= code <= 'z' as u32
    ||| 'A' as u32 <= code <= 'Z' as u32
    ||| '0' as u32 <= code <= '9' as u32
}

/// A decimal digit, or one of the letters `a` to `f`.
pub open spec fn is_lower_hex(c: char) -> bool {
    let code = c as u32;
    ||| '0' as u32 <= code <= '9' as u32
    ||| 'a' as u32 <= code <= 'f' as u32
}

/// Every character of `text` from position `from` up to `to` is a letter or
/// a digit.
pub open spec fn alphanumeric_between(text: Seq<char>, from: int, to: int) -> bool {
    forall|i: int| from <= i < to ==> is_alphanumeric(#[trigger] text[i])
}

/// A classic personal access token: `ghp_` and 36 letters or digits.
pub open spec fn is_classic_token(text: Seq<char>) -> bool {
    &&& text.len() == 40
    &&& text.subrange(0, 4) == "ghp_"@
    &&& alphanumeric_between(text, 4, 40)
}

/// A fine-grained personal access token: `github_pat_`, 22 letters or
/// digits, an underscore, and 59 letters or digits.
pub open spec fn is_fine_grained_token(text: Seq<char>) -> bool {
    &&& text.len() == 93
    &&& text.subrange(0, 11) == "github_pat_"@
    &&& alphanumeric_between(text, 11, 33)
    &&& text[33] == '_'
    &&& alphanumeric_between(text, 34, 93)
}

/// A temporal token of GitHub Actions: `v`, a digit, a full stop, and 40
/// lower-case hexadecimal digits.
pub open spec fn is_actions_token(text: Seq<char>) -> bool {
    &&& text.len() == 43
    &&& text[0] == 'v'
    &&& '0' as u32 <= text[1] as u32 <= '9' as u32
    &&& text[2] == '.'
    &&& forall|i: int| 3 <= i < 43 ==> is_lower_hex(#[trigger] text[i])
}

/// A text that is taken for a token: one of the three kinds, whole, with
/// nothing before or behind it.
pub open spec fn is_valid_pat(text: Seq<char>) -> bool {
    is_classic_token(text) || is_fine_grained_token(text) || is_actions_token(text)
}

/// What is kept on disk of a token.
pub open spec fn pat_file_spec(pat: Seq<char>) -> Seq<char> {
    "pat = \""@ + pat + "\""@
}

fn is_alphanumeric_char(c: char) -> (yes: bool)
    ensures
        yes == is_alphanumeric(c),
{
    let code = c as u32;
    ('a' as u32 <= code && code <= 'z' as u32) || ('A' as u32 <= code && code <= 'Z' as u32) || (
    '0' as u32 <= code && code <= '9' as u32)
}

fn is_lower_hex_char(c: char) -> (yes: bool)
    ensures
        yes == is_lower_hex(c),
{
    let code = c as u32;
    ('0' as u32 <= code && code <= '9' as u32) || ('a' as u32 <= code && code <= 'f' as u32)
}

fn all_alphanumeric(chars: &Vec<char>, from: usize, to: usize) -> (yes: bool)
    requires
        from <= to <= chars.len(),
    ensures
        yes == alphanumeric_between(chars@, from as int, to as int),
{
    let mut i: usize = from;
    while i < to
        invariant
            from <= i <= to <= chars.len(),
            alphanumeric_between(chars@, from as int, i as int),
        decreases to - i,
    {
        if !is_alphanumeric_char(chars[i]) {
            return false;
        }
        i += 1;
    }
    true
}

fn starts_with(chars: &Vec<char>, prefix: &str) -> (yes: bool)
    ensures
        yes == (prefix@.len() <= chars@.len() && chars@.subrange(0, prefix@.len() as int)
            == prefix@),
{
    let expected = to_chars(prefix);
    if expected.len() > chars.len() {
        return false;
    }
    let mut i: usize = 0;
    while i < expected.len()
        invariant
            i <= expected.len() <= chars.len(),
            expected@ == prefix@,
            forall|j: int| 0 <= j < i ==> chars@[j] == expected@[j],
        decreases expected.len() - i,
    {
        if chars[i] != expected[i] {
            return false;
        }
        i += 1;
    }
    assert(chars@.subrange(0, prefix@.len() as int) =~= prefix@);
    true
}

fn is_classic(chars: &Vec<char>) -> (yes: bool)
    ensures
        yes == is_classic_token(chars@),
{
    proof {
        reveal_strlit("ghp_");
    }
    chars.len() == 40 && starts_with(chars, "ghp_") && all_alphanumeric(chars, 4, 40)
}

fn is_fine_grained(chars: &Vec<char>) -> (yes: bool)
    ensures
        yes == is_fine_grained_token(chars@),
{
    proof {
        reveal_strlit("github_pat_");
    }
    chars.len() == 93 && starts_with(chars, "github_pat_") && all_alphanumeric(chars, 11, 33)
        && chars[33] == '_' && all_alphanumeric(chars, 34, 93)
}

fn is_actions(chars: &Vec<char>) -> (yes: bool)
    ensures
        yes == is_actions_token(chars@),
{
    if chars.len() != 43 || chars[0] != 'v' || chars[2] != '.' {
        return false;
    }
    let digit = chars[1] as u32;
    if digit < '0' as u32 || digit > '9' as u32 {
        return false;
    }
    let mut i: usize = 3;
    while i < 43
        invariant
            3 <= i <= 43,
            chars.len() == 43,
            forall|j: int| 3 <= j < i ==> is_lower_hex(#[trigger] chars@[j]),
        decreases 43 - i,
    {
        if !is_lower_hex_char(chars[i]) {
            return false;
        }
        i += 1;
    }
    true
}

/// The command that sets up authentication.
pub struct Auth;

impl Auth {
    /// Whether `input` is taken for a token.
    pub fn validate(input: &str) -> (verdict: Result<(), &'static str>)
        ensures
            verdict is Ok <==> is_valid_pat(input@),
            verdict matches Err(message) ==> message@ == "Invalid PAT token"@,
    {
        let chars = to_chars(input);
        if is_classic(&chars) || is_fine_grained(&chars) || is_actions(&chars) {
            Ok(())
        } else {
            Err("Invalid PAT token")
        }
    }

    /// What is written to the token file for `pat`.
    pub fn file_contents(pat: &str) -> (contents: String)
        ensures
            contents@ == pat_file_spec(pat@),
    {
        let mut contents = "pat = \"".to_owned();
        contents.append(pat);
        contents.append("\"");
        contents
    }

    /// Decides what is kept of a text that was entered as a token: the
    /// contents of the token file, if the text is taken for a token, and
    /// nothing, if it is not.
    pub fn execute(input: &str) -> (kept: Result<String, &'static str>)
        ensures
            match kept {
                Ok(contents) => is_valid_pat(input@) && contents@ == pat_file_spec(input@),
                Err(message) => !is_valid_pat(input@) && message@ == "Invalid PAT token"@,
            },
    {
        match Auth::validate(input) {
            Ok(()) => Ok(Auth::file_contents(input)),
            Err(message) => Err(message),
        }
    }
}

} // verus!
