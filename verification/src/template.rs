//! The naming-scheme template engine: turns a package's naming scheme into
//! the glob pattern that its release files are matched against.

use vstd::prelude::*;
use vstd::string::StringExecFns;
use crate::platform::{Placeholder, PlatformDescriptor, PlatformFacts};
use crate::text::to_chars;

verus! {

/// The placeholder whose text `template` starts with, if it starts with one.
/// No two placeholder texts start a template together, so the order of the
/// tests decides nothing.
pub open spec fn leading_placeholder(template: Seq<char>) -> Option<Placeholder> {
    if Placeholder::LlvmTriple.text().is_prefix_of(template) {
        Some(Placeholder::LlvmTriple)
    } else if Placeholder::BasicPlatform.text().is_prefix_of(template) {
        Some(Placeholder::BasicPlatform)
    } else if Placeholder::BasicPlatformOsx.text().is_prefix_of(template) {
        Some(Placeholder::BasicPlatformOsx)
    } else {
        None
    }
}

/// The expansion of `template` on a platform: read from left to right, each
/// placeholder text gives way to the platform's value for it, and every other
/// character stands as it is. A value that was put in is not read again.
pub open spec fn expand_spec(template: Seq<char>, platform: PlatformFacts) -> Seq<char>
    decreases template.len(),
    via expand_spec_decreases
{
    if template.len() == 0 {
        template
    } else {
        match leading_placeholder(template) {
            Some(placeholder) => platform.value(placeholder) + expand_spec(
                template.skip(placeholder.text().len() as int),
                platform,
            ),
            None => template.take(1) + expand_spec(template.skip(1), platform),
        }
    }
}

#[via_fn]
proof fn expand_spec_decreases(template: Seq<char>, platform: PlatformFacts) {
    lemma_placeholder_texts();
}

/// The lengths of the three placeholder texts.
pub proof fn lemma_placeholder_texts()
    ensures
        Placeholder::LlvmTriple.text().len() == 15,
        Placeholder::BasicPlatform.text().len() == 18,
        Placeholder::BasicPlatformOsx.text().len() == 22,
{
    reveal_strlit("{{llvm_triple}}");
    reveal_strlit("{{basic_platform}}");
    reveal_strlit("{{basic_platform_osx}}");
}

/// The placeholder whose text stands in `template` at position `at`, if one
/// stands there.
pub open spec fn placeholder_in(template: Seq<char>, at: int) -> Option<Placeholder> {
    if 0 <= at <= template.len() {
        leading_placeholder(template.skip(at))
    } else {
        None
    }
}

/// No placeholder text stands anywhere in `template`.
pub open spec fn free_of_placeholders(template: Seq<char>) -> bool {
    forall|at: int| 0 <= at < template.len() ==> (#[trigger] placeholder_in(template, at)) is None
}

/// No placeholder text of `whole` begins before position `cut` and ends
/// behind it.
pub open spec fn cut_is_clean(whole: Seq<char>, cut: int) -> bool {
    forall|at: int|
        0 <= at < cut ==> match #[trigger] placeholder_in(whole, at) {
            Some(placeholder) => at + placeholder.text().len() <= cut,
            None => true,
        }
}

spec fn brace_free_from(text: Seq<char>, from: int) -> bool
    decreases text.len() - from,
{
    from >= text.len() || (text[from] != '{' && brace_free_from(text, from + 1))
}

proof fn lemma_brace_free_from(text: Seq<char>, from: int)
    requires
        0 <= from,
        brace_free_from(text, from),
    ensures
        forall|i: int| from <= i < text.len() ==> text[i] != '{',
    decreases text.len() - from,
{
    if from < text.len() {
        lemma_brace_free_from(text, from + 1);
    }
}

/// A placeholder text opens with two braces and holds no opening brace after
/// them.
proof fn lemma_opening_braces(placeholder: Placeholder)
    ensures
        placeholder.text().len() >= 3,
        placeholder.text()[0] == '{',
        placeholder.text()[1] == '{',
        forall|i: int| 2 <= i < placeholder.text().len() ==> placeholder.text()[i] != '{',
{
    reveal_strlit("{{llvm_triple}}");
    reveal_strlit("{{basic_platform}}");
    reveal_strlit("{{basic_platform_osx}}");
    assert(brace_free_from(placeholder.text(), 2)) by {
        reveal_with_fuel(brace_free_from, 22);
    }
    lemma_brace_free_from(placeholder.text(), 2);
}

proof fn lemma_prefix_of_concat(text: Seq<char>, left: Seq<char>, right: Seq<char>)
    ensures
        text.is_prefix_of(left) ==> text.is_prefix_of(left + right),
        text.is_prefix_of(left + right) && text.len() <= left.len() ==> text.is_prefix_of(left),
{
    if text.len() <= left.len() {
        assert(left.subrange(0, text.len() as int) =~= (left + right).subrange(
            0,
            text.len() as int,
        ));
    }
}

proof fn lemma_prefix_index(text: Seq<char>, whole: Seq<char>, i: int)
    requires
        text.is_prefix_of(whole),
        0 <= i < text.len(),
    ensures
        whole[i] == text[i],
{
    assert(whole.subrange(0, text.len() as int)[i] == whole[i]);
}

/// Where a template starts with a placeholder text, that placeholder is the
/// one it is read as.
pub proof fn lemma_leading_placeholder(placeholder: Placeholder, rest: Seq<char>)
    ensures
        leading_placeholder(placeholder.text() + rest) == Some(placeholder),
{
    reveal_strlit("{{llvm_triple}}");
    reveal_strlit("{{basic_platform}}");
    reveal_strlit("{{basic_platform_osx}}");
    let whole = placeholder.text() + rest;
    assert(placeholder.text().is_prefix_of(whole)) by {
        assert(whole.subrange(0, placeholder.text().len() as int) =~= placeholder.text());
    }
    if Placeholder::LlvmTriple.text().is_prefix_of(whole) {
        lemma_prefix_index(Placeholder::LlvmTriple.text(), whole, 2);
    }
    if Placeholder::BasicPlatform.text().is_prefix_of(whole) {
        lemma_prefix_index(Placeholder::BasicPlatform.text(), whole, 2);
        lemma_prefix_index(Placeholder::BasicPlatform.text(), whole, 16);
    }
    lemma_prefix_index(placeholder.text(), whole, 2);
    if placeholder != Placeholder::LlvmTriple {
        lemma_prefix_index(placeholder.text(), whole, 16);
    }
}

/// Two placeholder texts that stand in one template do not overlap.
pub proof fn lemma_placeholders_apart(template: Seq<char>, first: int, second: int)
    requires
        0 <= first < second <= template.len(),
        placeholder_in(template, first) is Some,
        placeholder_in(template, second) is Some,
    ensures
        first + placeholder_in(template, first)->0.text().len() <= second,
{
    let one = placeholder_in(template, first)->0;
    let other = placeholder_in(template, second)->0;
    let from_first = template.skip(first);
    let from_second = template.skip(second);
    let gap = second - first;
    lemma_opening_braces(one);
    lemma_opening_braces(other);
    assert(one.text().is_prefix_of(from_first));
    assert(other.text().is_prefix_of(from_second));
    if gap < one.text().len() {
        lemma_prefix_index(one.text(), from_first, gap);
        lemma_prefix_index(other.text(), from_second, 0);
        assert(from_first[gap] == from_second[0]);
        assert(gap == 1);
        lemma_prefix_index(one.text(), from_first, 2);
        lemma_prefix_index(other.text(), from_second, 1);
        assert(from_first[2] == from_second[1]);
    }
}

/// A template in which no placeholder text stands expands to itself: glob
/// syntax and placeholders of other names are left as they are.
pub proof fn lemma_expand_plain(template: Seq<char>, platform: PlatformFacts)
    requires
        free_of_placeholders(template),
    ensures
        expand_spec(template, platform) == template,
    decreases template.len(),
{
    if template.len() > 0 {
        assert(template.skip(0) =~= template);
        assert(placeholder_in(template, 0) is None);
        let rest = template.skip(1);
        assert forall|at: int| 0 <= at < rest.len() implies (#[trigger] placeholder_in(
            rest,
            at,
        )) is None by {
            assert(rest.skip(at) =~= template.skip(at + 1));
            assert(placeholder_in(template, at + 1) is None);
        }
        lemma_expand_plain(rest, platform);
        assert(template.take(1) + rest =~= template);
    }
}

/// A template without an opening brace expands to itself: `*`, `?` and all
/// other text that is no placeholder stay as they are.
pub proof fn lemma_expand_without_braces(template: Seq<char>, platform: PlatformFacts)
    requires
        forall|i: int| 0 <= i < template.len() ==> template[i] != '{',
    ensures
        expand_spec(template, platform) == template,
{
    assert forall|at: int| 0 <= at < template.len() implies (#[trigger] placeholder_in(
        template,
        at,
    )) is None by {
        if placeholder_in(template, at) is Some {
            let found = placeholder_in(template, at)->0;
            lemma_opening_braces(found);
            lemma_prefix_index(found.text(), template.skip(at), 0);
        }
    }
    lemma_expand_plain(template, platform);
}

/// Expansion goes piece by piece: a template that is cut where no placeholder
/// text is cut in two expands to the expansions of its two parts.
pub proof fn lemma_expand_concat(left: Seq<char>, right: Seq<char>, platform: PlatformFacts)
    requires
        cut_is_clean(left + right, left.len() as int),
    ensures
        expand_spec(left + right, platform) == expand_spec(left, platform) + expand_spec(
            right,
            platform,
        ),
    decreases left.len(),
{
    let whole = left + right;
    if left.len() == 0 {
        assert(whole =~= right);
        assert(left + expand_spec(right, platform) =~= expand_spec(right, platform));
    } else {
        lemma_placeholder_texts();
        assert(whole.skip(0) =~= whole);
        assert(leading_placeholder(whole) == placeholder_in(whole, 0));
        lemma_prefix_of_concat(Placeholder::LlvmTriple.text(), left, right);
        lemma_prefix_of_concat(Placeholder::BasicPlatform.text(), left, right);
        lemma_prefix_of_concat(Placeholder::BasicPlatformOsx.text(), left, right);
        assert(leading_placeholder(left) == leading_placeholder(whole));
        let step: int = match leading_placeholder(whole) {
            Some(placeholder) => placeholder.text().len() as int,
            None => 1,
        };
        let left_rest = left.skip(step);
        assert(whole.skip(step) =~= left_rest + right);
        assert(whole.take(1) =~= left.take(1));
        assert forall|at: int| 0 <= at < left_rest.len() implies match #[trigger] placeholder_in(
            left_rest + right,
            at,
        ) {
            Some(placeholder) => at + placeholder.text().len() <= left_rest.len(),
            None => true,
        } by {
            assert((left_rest + right).skip(at) =~= whole.skip(at + step));
            assert(placeholder_in(left_rest + right, at) == placeholder_in(whole, at + step));
        }
        lemma_expand_concat(left_rest, right, platform);
        let head = match leading_placeholder(whole) {
            Some(placeholder) => platform.value(placeholder),
            None => whole.take(1),
        };
        assert(head + (expand_spec(left_rest, platform) + expand_spec(right, platform)) =~= (head
            + expand_spec(left_rest, platform)) + expand_spec(right, platform));
    }
}

/// Every placeholder is replaced, wherever it stands: a placeholder text
/// gives way to the platform's value for it, and what stands before and
/// behind it is expanded as if it stood alone.
pub proof fn lemma_expand_placeholder(
    before: Seq<char>,
    placeholder: Placeholder,
    after: Seq<char>,
    platform: PlatformFacts,
)
    ensures
        expand_spec(before + placeholder.text() + after, platform) == expand_spec(
            before,
            platform,
        ) + platform.value(placeholder) + expand_spec(after, platform),
{
    let tail = placeholder.text() + after;
    let whole = before + tail;
    let cut = before.len() as int;
    assert(whole =~= before + placeholder.text() + after);
    lemma_placeholder_texts();
    lemma_leading_placeholder(placeholder, after);
    assert(whole.skip(cut) =~= tail);
    assert(placeholder_in(whole, cut) == Some(placeholder));
    assert forall|at: int| 0 <= at < cut implies match #[trigger] placeholder_in(whole, at) {
        Some(found) => at + found.text().len() <= cut,
        None => true,
    } by {
        if placeholder_in(whole, at) is Some {
            lemma_placeholders_apart(whole, at, cut);
        }
    }
    lemma_expand_concat(before, tail, platform);
    assert(tail.skip(placeholder.text().len() as int) =~= after);
    assert(expand_spec(tail, platform) == platform.value(placeholder) + expand_spec(
        after,
        platform,
    ));
    assert(expand_spec(before, platform) + (platform.value(placeholder) + expand_spec(
        after,
        platform,
    )) =~= expand_spec(before, platform) + platform.value(placeholder) + expand_spec(
        after,
        platform,
    ));
}

/// The three placeholder texts, read once into characters.
struct PlaceholderTexts {
    llvm_triple: Vec<char>,
    basic_platform: Vec<char>,
    basic_platform_osx: Vec<char>,
}

impl PlaceholderTexts {
    spec fn wf(self) -> bool {
        &&& self.llvm_triple@ == Placeholder::LlvmTriple.text()
        &&& self.basic_platform@ == Placeholder::BasicPlatform.text()
        &&& self.basic_platform_osx@ == Placeholder::BasicPlatformOsx.text()
    }

    fn new() -> (texts: PlaceholderTexts)
        ensures
            texts.wf(),
    {
        PlaceholderTexts {
            llvm_triple: to_chars(Placeholder::LlvmTriple.token()),
            basic_platform: to_chars(Placeholder::BasicPlatform.token()),
            basic_platform_osx: to_chars(Placeholder::BasicPlatformOsx.token()),
        }
    }
}

/// Whether `text` stands in `chars` from position `at` on.
fn stands_at(chars: &Vec<char>, at: usize, text: &Vec<char>) -> (found: bool)
    requires
        at <= chars.len(),
    ensures
        found == text@.is_prefix_of(chars@.skip(at as int)),
{
    let rest = chars.len() - at;
    if text.len() > rest {
        return false;
    }
    let mut i: usize = 0;
    while i < text.len()
        invariant
            i <= text.len(),
            at + text.len() <= chars.len(),
            forall|j: int| 0 <= j < i ==> text@[j] == chars@[at + j],
        decreases text.len() - i,
    {
        if text[i] != chars[at + i] {
            assert(chars@.skip(at as int).subrange(0, text@.len() as int)[i as int] == chars@[at + i]);
            return false;
        }
        i += 1;
    }
    assert(text@ =~= chars@.skip(at as int).subrange(0, text@.len() as int));
    true
}

/// The placeholder whose text stands in `chars` at position `at`, if any.
fn placeholder_at(chars: &Vec<char>, at: usize, texts: &PlaceholderTexts) -> (found: Option<
    Placeholder,
>)
    requires
        at <= chars.len(),
        texts.wf(),
    ensures
        found == leading_placeholder(chars@.skip(at as int)),
{
    if stands_at(chars, at, &texts.llvm_triple) {
        Some(Placeholder::LlvmTriple)
    } else if stands_at(chars, at, &texts.basic_platform) {
        Some(Placeholder::BasicPlatform)
    } else if stands_at(chars, at, &texts.basic_platform_osx) {
        Some(Placeholder::BasicPlatformOsx)
    } else {
        None
    }
}

/// Expands a naming scheme for `platform`: every placeholder text in
/// `template` gives way to the platform's value for it; all else, glob syntax
/// and unknown placeholders included, is copied as it stands.
pub fn expand(template: &str, platform: &PlatformDescriptor) -> (expanded: String)
    ensures
        expanded@ == expand_spec(template@, platform@),
{
    let chars = to_chars(template);
    let texts = PlaceholderTexts::new();
    let n = chars.len();
    let mut expanded = String::new();
    // Characters before `copied` are in `expanded` already; those from
    // `copied` up to `at` are plain text that is still to be copied.
    let mut copied: usize = 0;
    let mut at: usize = 0;
    proof {
        lemma_placeholder_texts();
        assert(template@.skip(0) =~= template@);
        assert(expanded@ + template@.subrange(0, 0) =~= Seq::<char>::empty());
        assert(Seq::<char>::empty() + expand_spec(template@, platform@) =~= expand_spec(
            template@,
            platform@,
        ));
    }
    while at < n
        invariant
            copied <= at <= n,
            n == chars.len(),
            chars@ == template@,
            texts.wf(),
            expand_spec(template@, platform@) == expanded@ + template@.subrange(
                copied as int,
                at as int,
            ) + expand_spec(template@.skip(at as int), platform@),
        decreases n - at,
    {
        let ghost rest = template@.skip(at as int);
        match placeholder_at(&chars, at, &texts) {
            Some(placeholder) => {
                let token_len = placeholder.token().unicode_len();
                proof {
                    lemma_placeholder_texts();
                    assert(rest.skip(token_len as int) =~= template@.skip(at + token_len));
                }
                let ghost before = expanded@ + template@.subrange(copied as int, at as int);
                expanded.append(template.substring_char(copied, at));
                expanded.append(platform.value(placeholder));
                at = at + token_len;
                copied = at;
                proof {
                    assert(expanded@ + template@.subrange(copied as int, at as int) =~= before
                        + platform@.value(placeholder));
                    assert(before + platform@.value(placeholder) + expand_spec(
                        template@.skip(at as int),
                        platform@,
                    ) =~= before + (platform@.value(placeholder) + expand_spec(
                        template@.skip(at as int),
                        platform@,
                    )));
                }
            },
            None => {
                proof {
                    assert(rest.skip(1) =~= template@.skip(at + 1));
                    assert(template@.subrange(copied as int, at as int) + rest.take(1)
                        =~= template@.subrange(copied as int, at + 1));
                    assert(expanded@ + template@.subrange(copied as int, at as int) + (rest.take(1)
                        + expand_spec(rest.skip(1), platform@)) =~= expanded@
                        + template@.subrange(copied as int, at + 1) + expand_spec(
                        rest.skip(1),
                        platform@,
                    ));
                }
                at = at + 1;
            },
        }
    }
    proof {
        assert(template@.skip(n as int) =~= Seq::<char>::empty());
        assert(expanded@ + template@.subrange(copied as int, n as int) + Seq::<char>::empty()
            =~= expanded@ + template@.subrange(copied as int, n as int));
    }
    expanded.append(template.substring_char(copied, n));
    expanded
}

} // verus!
