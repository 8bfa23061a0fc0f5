//! Detection and removal of invisible Unicode Tags-Block code points.
//!
//! The Tags Block (U+E0000..=U+E007F) consists of invisible characters that
//! can carry hidden instructions inside otherwise ordinary text. Detection is
//! probe-only and looks at the raw text as received; sanitization first
//! applies canonical composition (NFC) and then filters the block out, so the
//! filter always sees the canonical representation.

use unicode_normalization::UnicodeNormalization;
use vstd::prelude::*;
use vstd::string::*;

verus! {

/// A code point of the Unicode Tags Block, U+E0000..=U+E007F.
pub open spec fn is_tag_char(c: char) -> bool {
    0xE0000 <= c as u32 <= 0xE007F
}

/// The text holds at least one Tags-Block code point.
pub open spec fn has_tag(s: Seq<char>) -> bool {
    exists|i: int| 0 <= i < s.len() && is_tag_char(s[i])
}

/// The text with every Tags-Block code point removed; everything else keeps
/// its value and order.
pub open spec fn remove_tags(s: Seq<char>) -> Seq<char>
    decreases s.len(),
{
    if s.len() == 0 {
        Seq::empty()
    } else if is_tag_char(s.last()) {
        remove_tags(s.drop_last())
    } else {
        remove_tags(s.drop_last()).push(s.last())
    }
}

/// What `unicode_normalization`'s NFC pass returns for a given character
/// sequence: a pure function of the characters alone.
pub uninterp spec fn nfc_of(s: Seq<char>) -> Seq<char>;

/// What sanitization returns: canonical composition first, then the filter.
pub open spec fn sanitize_spec(s: Seq<char>) -> Seq<char> {
    remove_tags(nfc_of(s))
}

/// Relies on `unicode_normalization::UnicodeNormalization::nfc`: canonical
/// composition (Unicode Normalization Form C), a pure function of the input
/// characters. UAX #15 states that normalization is idempotent and that the
/// empty string normalizes to itself.
#[verifier::external_body]
fn nfc_normalize(text: &str) -> (r: String)
    ensures
        r@ == nfc_of(text@),
        nfc_of(r@) == r@,
        text@.len() == 0 ==> r@.len() == 0,
{
    text.nfc().collect()
}

/// Check whether a single character lies in the Unicode Tags Block range.
pub fn is_in_unicode_tag_range(c: char) -> (r: bool)
    ensures
        r == is_tag_char(c),
{
    let u: u32 = c as u32;
    0xE0000 <= u && u <= 0xE007F
}

/// Report whether the raw text contains any Tags-Block code point. No
/// normalization is applied: detection must reflect the content as received.
pub fn contains_unicode_tags(text: &str) -> (r: bool)
    ensures
        r == has_tag(text@),
{
    let len = text.unicode_len();
    let mut i: usize = 0;
    while i < len
        invariant
            len == text@.len(),
            i <= len,
            forall|j: int| 0 <= j < i ==> !is_tag_char(text@[j]),
        decreases len - i,
    {
        if is_in_unicode_tag_range(text.get_char(i)) {
            return true;
        }
        i += 1;
    }
    false
}

/// No sequence that went through the filter holds a Tags-Block code point.
pub proof fn lemma_remove_tags_has_none(s: Seq<char>)
    ensures
        !has_tag(remove_tags(s)),
    decreases s.len(),
{
    if s.len() == 0 {
    } else {
        lemma_remove_tags_has_none(s.drop_last());
        if !is_tag_char(s.last()) {
            let r = remove_tags(s);
            let r0 = remove_tags(s.drop_last());
            assert forall|i: int| 0 <= i < r.len() implies !is_tag_char(r[i]) by {
                if i < r.len() - 1 {
                    assert(r[i] == r0[i]);
                } else {
                    assert(r[i] == s.last());
                }
            }
        }
    }
}

/// A sequence without Tags-Block code points passes through the filter
/// unchanged.
pub proof fn lemma_remove_tags_identity(s: Seq<char>)
    ensures
        !has_tag(s) ==> remove_tags(s) == s,
    decreases s.len(),
{
    if s.len() > 0 {
        lemma_remove_tags_identity(s.drop_last());
        if !has_tag(s) {
            assert(!is_tag_char(s[s.len() - 1]));
            assert forall|i: int| 0 <= i < s.drop_last().len() implies !is_tag_char(
                s.drop_last()[i],
            ) by {
                assert(s.drop_last()[i] == s[i]);
            }
            assert(remove_tags(s) =~= s);
        }
    }
}

/// The filtering stage is idempotent on its own: filtering an already
/// filtered sequence changes nothing.
pub proof fn lemma_remove_tags_idempotent(s: Seq<char>)
    ensures
        remove_tags(remove_tags(s)) == remove_tags(s),
{
    lemma_remove_tags_has_none(s);
    lemma_remove_tags_identity(remove_tags(s));
}

/// Whatever the input, the sanitized text holds no Tags-Block code point, so
/// the detector always reports false on it.
pub proof fn lemma_sanitized_has_no_tags(s: Seq<char>)
    ensures
        !has_tag(sanitize_spec(s)),
{
    lemma_remove_tags_has_none(nfc_of(s));
}

/// Round trip: when normalization leaves no Tags-Block code point behind,
/// sanitizing is exactly NFC normalization — the text is preserved up to
/// normalization effects.
pub proof fn lemma_sanitize_round_trip(s: Seq<char>)
    ensures
        !has_tag(nfc_of(s)) ==> sanitize_spec(s) == nfc_of(s),
{
    lemma_remove_tags_identity(nfc_of(s));
}

/// Remove every Tags-Block code point from the text. The text is first
/// normalized (NFC), so that any decomposed form is collapsed to its
/// canonical representation before the filter runs; all other code points
/// are preserved in order.
///
/// The last two clauses state that on text whose normal form carries no
/// Tags-Block code point the function is the NFC pass itself, and that on
/// such text sanitizing is idempotent. (With a Tags-Block code point standing
/// between a base character and a combining mark, removing it can expose a
/// new composition, so a second pass may compose further: idempotence is
/// stated for inputs where that cannot happen.)
pub fn sanitize_unicode_tags(text: &str) -> (r: String)
    ensures
        r@ == sanitize_spec(text@),
        !has_tag(r@),
        !has_tag(nfc_of(text@)) ==> r@ == nfc_of(text@),
        !has_tag(nfc_of(text@)) ==> sanitize_spec(r@) == r@,
{
    let normalized = nfc_normalize(text);
    let n = normalized.as_str();
    let len = n.unicode_len();
    let mut out = String::new();
    let mut i: usize = 0;
    while i < len
        invariant
            len == n@.len(),
            n@ == nfc_of(text@),
            i <= len,
            out@ == remove_tags(n@.take(i as int)),
        decreases len - i,
    {
        let piece = n.substring_char(i, i + 1);
        let c = piece.get_char(0);
        proof {
            assert(c == n@[i as int]);
            assert(n@.take(i + 1 as int).drop_last() =~= n@.take(i as int));
            assert(n@.take(i + 1 as int).last() == n@[i as int]);
        }
        if !is_in_unicode_tag_range(c) {
            out.append(piece);
            proof {
                assert(out@ =~= remove_tags(n@.take(i as int)).push(n@[i as int]));
            }
        }
        i += 1;
    }
    proof {
        assert(n@.take(len as int) =~= n@);
        lemma_remove_tags_has_none(n@);
        if !has_tag(nfc_of(text@)) {
            lemma_remove_tags_identity(n@);
        }
    }
    out
}

} // verus!
