//! The protocol version that client and index server have to agree on, and
//! how the server's answer to the version request is read.

use vstd::prelude::*;
use crate::error::IndexClientError;
use crate::text::to_chars;

verus! {

/// The protocol version this client speaks.
pub const CURRENT_PROTOCOL_VERSION: u8 = 3;

/// White space, by Unicode's property of that name.
pub open spec fn is_whitespace(c: char) -> bool {
    let code = c as u32;
    ||| 0x09 <= code <= 0x0D
    ||| code == 0x20
    ||| code == 0x85
    ||| code == 0xA0
    ||| code == 0x1680
    ||| 0x2000 <= code <= 0x200A
    ||| code == 0x2028
    ||| code == 0x2029
    ||| code == 0x202F
    ||| code == 0x205F
    ||| code == 0x3000
}

/// `text` without the white space it starts with.
pub open spec fn trim_start_spec(text: Seq<char>) -> Seq<char>
    decreases text.len(),
{
    if text.len() > 0 && is_whitespace(text[0]) {
        trim_start_spec(text.skip(1))
    } else {
        text
    }
}

/// `text` without the white space it ends with.
pub open spec fn trim_end_spec(text: Seq<char>) -> Seq<char>
    decreases text.len(),
{
    if text.len() > 0 && is_whitespace(text.last()) {
        trim_end_spec(text.drop_last())
    } else {
        text
    }
}

/// `text` without the white space around it.
pub open spec fn trim_spec(text: Seq<char>) -> Seq<char> {
    trim_end_spec(trim_start_spec(text))
}

/// One of the ten decimal digits.
pub open spec fn is_digit(c: char) -> bool {
    '0' as u32 <= c as u32 <= '9' as u32
}

/// The number that a sequence of decimal digits is read as.
pub open spec fn decimal_value(digits: Seq<char>) -> nat
    decreases digits.len(),
{
    if digits.len() == 0 {
        0
    } else {
        decimal_value(digits.drop_last()) * 10 + (digits.last() as u32 - '0' as u32) as nat
    }
}

/// At least one character, and decimal digits only.
pub open spec fn is_numeral(digits: Seq<char>) -> bool {
    digits.len() > 0 && forall|i: int| 0 <= i < digits.len() ==> is_digit(digits[i])
}

/// `text` without the plus sign that may stand before a number.
pub open spec fn unsigned_part(text: Seq<char>) -> Seq<char> {
    if text.len() > 0 && text[0] == '+' {
        text.skip(1)
    } else {
        text
    }
}

/// The protocol version that `text` states: a decimal numeral, with or
/// without a plus sign before it and white space around it, of a number that
/// fits in eight bits. Any other text states none.
pub open spec fn stated_version(text: Seq<char>) -> Option<u8> {
    let digits = unsigned_part(trim_spec(text));
    if is_numeral(digits) && decimal_value(digits) <= u8::MAX {
        Some(decimal_value(digits) as u8)
    } else {
        None
    }
}

/// What the handshake makes of the server's answer to the version request:
/// agreement, a mismatch, or an answer that states no version.
pub open spec fn handshake_spec(text: Seq<char>) -> Result<(), IndexClientError> {
    match stated_version(text) {
        Some(version) => if version == CURRENT_PROTOCOL_VERSION {
            Ok(())
        } else {
            Err(IndexClientError::ProtocolVersionMismatch(CURRENT_PROTOCOL_VERSION, version))
        },
        None => Err(IndexClientError::ProtocolVersionParseError),
    }
}

/// A handshake ends in one of three ways, and the version that the answer
/// states decides which: the client's own version is agreement, any other
/// version is a mismatch that names both, and an answer that states no
/// version is a parse error, never a mismatch.
pub proof fn lemma_handshake_ends(text: Seq<char>)
    ensures
        stated_version(text) == Some(CURRENT_PROTOCOL_VERSION) <==> handshake_spec(text) is Ok,
        forall|other: u8|
            other != CURRENT_PROTOCOL_VERSION ==> (stated_version(text) == Some(other)
                <==> #[trigger] handshake_spec(text) == Err::<(), IndexClientError>(
                IndexClientError::ProtocolVersionMismatch(CURRENT_PROTOCOL_VERSION, other),
            )),
        stated_version(text) is None <==> handshake_spec(text) == Err::<(), IndexClientError>(
            IndexClientError::ProtocolVersionParseError,
        ),
{
}

/// A decimal numeral with white space around it states the number it is read
/// as, if that number fits in eight bits, and no version if it does not.
pub proof fn lemma_numeral_states_its_value(before: Seq<char>, digits: Seq<char>, after: Seq<char>)
    requires
        forall|i: int| 0 <= i < before.len() ==> is_whitespace(before[i]),
        forall|i: int| 0 <= i < after.len() ==> is_whitespace(after[i]),
        is_numeral(digits),
    ensures
        stated_version(before + digits + after) == if decimal_value(digits) <= u8::MAX {
            Some(decimal_value(digits) as u8)
        } else {
            None
        },
{
    lemma_trim_start(before, digits + after);
    assert(before + (digits + after) =~= before + digits + after);
    lemma_trim_end(digits, after);
    assert(!is_whitespace(digits[0]));
    assert(digits[0] != '+');
}

proof fn lemma_trim_start(space: Seq<char>, rest: Seq<char>)
    requires
        forall|i: int| 0 <= i < space.len() ==> is_whitespace(space[i]),
        rest.len() > 0 && !is_whitespace(rest[0]),
    ensures
        trim_start_spec(space + rest) == rest,
    decreases space.len(),
{
    if space.len() == 0 {
        assert(space + rest =~= rest);
    } else {
        assert((space + rest).skip(1) =~= space.skip(1) + rest);
        lemma_trim_start(space.skip(1), rest);
    }
}

proof fn lemma_trim_end(rest: Seq<char>, space: Seq<char>)
    requires
        forall|i: int| 0 <= i < space.len() ==> is_whitespace(space[i]),
        rest.len() > 0 && !is_whitespace(rest.last()),
    ensures
        trim_end_spec(rest + space) == rest,
    decreases space.len(),
{
    if space.len() == 0 {
        assert(rest + space =~= rest);
    } else {
        assert((rest + space).drop_last() =~= rest + space.drop_last());
        lemma_trim_end(rest, space.drop_last());
    }
}

/// Whether `c` is white space.
pub fn is_whitespace_char(c: char) -> (yes: bool)
    ensures
        yes == is_whitespace(c),
{
    let code = c as u32;
    (0x09 <= code && code <= 0x0D) || code == 0x20 || code == 0x85 || code == 0xA0 || code
        == 0x1680 || (0x2000 <= code && code <= 0x200A) || code == 0x2028 || code == 0x2029
        || code == 0x202F || code == 0x205F || code == 0x3000
}

proof fn lemma_decimal_prefix(digits: Seq<char>, n: int)
    requires
        0 <= n <= digits.len(),
    ensures
        decimal_value(digits.take(n)) <= decimal_value(digits),
    decreases digits.len() - n,
{
    if n < digits.len() {
        lemma_decimal_prefix(digits, n + 1);
        assert(digits.take(n + 1).drop_last() =~= digits.take(n));
    } else {
        assert(digits.take(n) =~= digits);
    }
}

/// Reads the protocol version that `text` states.
pub fn parse_protocol_version(text: &str) -> (version: Option<u8>)
    ensures
        version == stated_version(text@),
{
    let chars = to_chars(text);
    let mut start: usize = 0;
    assert(chars@.skip(0) =~= chars@);
    while start < chars.len() && is_whitespace_char(chars[start])
        invariant
            start <= chars.len(),
            trim_start_spec(chars@) == trim_start_spec(chars@.skip(start as int)),
        decreases chars.len() - start,
    {
        assert(chars@.skip(start as int).skip(1) =~= chars@.skip(start + 1));
        start += 1;
    }
    let mut end: usize = chars.len();
    assert(chars@.subrange(start as int, end as int) =~= chars@.skip(start as int));
    while end > start && is_whitespace_char(chars[end - 1])
        invariant
            start <= end <= chars.len(),
            trim_spec(chars@) == trim_end_spec(chars@.subrange(start as int, end as int)),
        decreases end,
    {
        assert(chars@.subrange(start as int, end as int).drop_last() =~= chars@.subrange(
            start as int,
            end - 1,
        ));
        end -= 1;
    }
    let ghost trimmed = chars@.subrange(start as int, end as int);
    assert(trim_spec(chars@) == trimmed);
    if start < end && chars[start] == '+' {
        start += 1;
    }
    let ghost digits = chars@.subrange(start as int, end as int);
    assert(digits =~= unsigned_part(trimmed));
    if start == end {
        return None;
    }
    let mut value: u16 = 0;
    let mut i: usize = start;
    assert(digits.take(0) =~= Seq::<char>::empty());
    while i < end
        invariant
            start <= i <= end <= chars.len(),
            digits == chars@.subrange(start as int, end as int),
            digits == unsigned_part(trim_spec(text@)),
            forall|j: int| 0 <= j < i - start ==> is_digit(digits[j]),
            value == decimal_value(digits.take(i - start)),
            value <= u8::MAX,
        decreases end - i,
    {
        let c = chars[i];
        let code = c as u32;
        if code < '0' as u32 || code > '9' as u32 {
            assert(!is_digit(digits[i - start]));
            return None;
        }
        assert(digits.take(i - start + 1).drop_last() =~= digits.take(i - start));
        let digit = (code - '0' as u32) as u16;
        value = value * 10 + digit;
        if value > u8::MAX as u16 {
            proof {
                lemma_decimal_prefix(digits, i - start + 1);
            }
            return None;
        }
        i += 1;
    }
    assert(digits.take(end - start) =~= digits);
    Some(value as u8)
}

/// Decides the handshake from the server's answer to the version request.
pub fn check_protocol_version(text: &str) -> (agreed: Result<(), IndexClientError>)
    ensures
        agreed == handshake_spec(text@),
{
    match parse_protocol_version(text) {
        Some(version) => {
            if version == CURRENT_PROTOCOL_VERSION {
                Ok(())
            } else {
                Err(IndexClientError::ProtocolVersionMismatch(CURRENT_PROTOCOL_VERSION, version))
            }
        },
        None => Err(IndexClientError::ProtocolVersionParseError),
    }
}

} // verus!
