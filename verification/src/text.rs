//! Texts: their order, their lower case, and what they contain.

use vstd::prelude::*;

verus! {

/// The place of a character in the code charts.
pub open spec fn code_point(c: char) -> int {
    c as u32 as int
}

/// Whether text `a` comes before text `b` or is `b`, in the order of the
/// dictionary, character by character, a character with a lower code point
/// first.
pub open spec fn text_le(a: Seq<char>, b: Seq<char>) -> bool
    decreases a.len(),
{
    if a.len() == 0 {
        true
    } else if b.len() == 0 {
        false
    } else if a[0] != b[0] {
        code_point(a[0]) < code_point(b[0])
    } else {
        text_le(a.skip(1), b.skip(1))
    }
}

/// Every text comes before itself or is itself.
pub proof fn lemma_text_le_reflexive(a: Seq<char>)
    ensures
        text_le(a, a),
    decreases a.len(),
{
    if a.len() > 0 {
        lemma_text_le_reflexive(a.skip(1));
    }
}

/// Of two texts, one comes before the other or is the other.
pub proof fn lemma_text_le_total(a: Seq<char>, b: Seq<char>)
    ensures
        text_le(a, b) || text_le(b, a),
    decreases a.len(),
{
    if a.len() > 0 && b.len() > 0 {
        if a[0] == b[0] {
            lemma_text_le_total(a.skip(1), b.skip(1));
        } else {
            vstd::utf8::char_u32_cast(a[0], a[0] as u32);
            vstd::utf8::char_u32_cast(b[0], b[0] as u32);
        }
    }
}

/// What comes before a text that comes before a third comes before the
/// third.
pub proof fn lemma_text_le_transitive(a: Seq<char>, b: Seq<char>, c: Seq<char>)
    requires
        text_le(a, b),
        text_le(b, c),
    ensures
        text_le(a, c),
    decreases a.len(),
{
    if a.len() > 0 && b.len() > 0 && c.len() > 0 {
        if a[0] == b[0] && b[0] == c[0] {
            lemma_text_le_transitive(a.skip(1), b.skip(1), c.skip(1));
        }
    }
}

/// The text in lower case.
pub uninterp spec fn lowercase_of(text: Seq<char>) -> Seq<char>;

/// Whether `part` stands somewhere in `whole`, character for character.
pub open spec fn is_subtext(whole: Seq<char>, part: Seq<char>) -> bool {
    exists|at: int|
        0 <= at && at + part.len() <= whole.len() && #[trigger] whole.subrange(
            at,
            at + part.len(),
        ) == part
}

/// The text without the white space at its start and at its end.
pub uninterp spec fn trimmed(text: Seq<char>) -> Seq<char>;

/// `str::trim`. Trusted: the result is what [`trimmed`] names.
#[verifier::external_body]
pub(crate) fn str_trim(text: &str) -> (r: &str)
    ensures
        r@ == trimmed(text@),
{
    text.trim()
}

/// `str::to_lowercase`. Trusted: the result is what [`lowercase_of`] names.
#[verifier::external_body]
pub(crate) fn str_to_lowercase(text: &str) -> (r: String)
    ensures
        r@ == lowercase_of(text@),
{
    text.to_lowercase()
}

/// `str::contains` with a text as the pattern. Trusted: the result says
/// whether the pattern stands somewhere in the text.
#[verifier::external_body]
pub(crate) fn str_contains(whole: &str, part: &str) -> (r: bool)
    ensures
        r == is_subtext(whole@, part@),
{
    whole.contains(part)
}

/// `String::push`. Trusted: the character is appended.
#[verifier::external_body]
pub(crate) fn string_push(text: &mut String, c: char)
    ensures
        final(text)@ == old(text)@.push(c),
{
    text.push(c);
}

/// `String::pop`. Trusted: the last character is taken off, if there is
/// one.
#[verifier::external_body]
pub(crate) fn string_pop(text: &mut String)
    ensures
        final(text)@ == (if old(text)@.len() > 0 {
            old(text)@.drop_last()
        } else {
            old(text)@
        }),
{
    text.pop();
}

/// `str`'s `<=`. Trusted: texts are ordered as in a dictionary, by the code
/// points of their characters, as std documents for `str`.
#[verifier::external_body]
pub(crate) fn str_le(a: &str, b: &str) -> (r: bool)
    ensures
        r == text_le(a@, b@),
{
    a <= b
}

/// `str`'s `==`. Trusted: two texts are equal if and only if they hold the
/// same characters.
#[verifier::external_body]
pub(crate) fn str_eq(a: &str, b: &str) -> (r: bool)
    ensures
        r == (a@ == b@),
{
    a == b
}

} // verus!
