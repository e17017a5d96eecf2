//! Texts: comparing and trimming them, and numbers as texts.
use vstd::prelude::*;

verus! {

/// Whether two texts are the same.
pub fn same_text(left: &str, right: &str) -> (same: bool)
    ensures
        same == (left@ == right@),
{
    let left_bytes = left.as_bytes();
    let right_bytes = right.as_bytes();
    proof {
        vstd::utf8::encode_utf8_decode_utf8(left@);
        vstd::utf8::encode_utf8_decode_utf8(right@);
    }
    if left_bytes.len() != right_bytes.len() {
        return false;
    }
    let mut at: usize = 0;
    while at < left_bytes.len()
        invariant
            at <= left_bytes@.len(),
            left_bytes@.len() == right_bytes@.len(),
            left_bytes@ == vstd::utf8::encode_utf8(left@),
            right_bytes@ == vstd::utf8::encode_utf8(right@),
            forall|i: int| 0 <= i < at ==> left_bytes@[i] == right_bytes@[i],
        decreases left_bytes@.len() - at,
    {
        if left_bytes[at] != right_bytes[at] {
            return false;
        }
        at = at + 1;
    }
    assert(left_bytes@ =~= right_bytes@);
    true
}

/// The text of a whole number in decimal digits, with a leading `-` below zero.
pub open spec fn decimal(n: int) -> Seq<char>
    decreases if n < 0 { 1 - n } else { n },
{
    if n < 0 {
        seq!['-'] + decimal(-n)
    } else if n < 10 {
        seq![(48 + n) as char]
    } else {
        decimal(n / 10).push((48 + n % 10) as char)
    }
}

/// Whether a character is white space: whether it has the property `White_Space`
/// of Unicode.
pub open spec fn is_white_space(c: char) -> bool {
    ||| '\u{9}' <= c <= '\u{d}'
    ||| c == '\u{20}'
    ||| c == '\u{85}'
    ||| c == '\u{a0}'
    ||| c == '\u{1680}'
    ||| '\u{2000}' <= c <= '\u{200a}'
    ||| c == '\u{2028}'
    ||| c == '\u{2029}'
    ||| c == '\u{202f}'
    ||| c == '\u{205f}'
    ||| c == '\u{3000}'
}

/// Whether a text is white space all through.
pub open spec fn is_blank(text: Seq<char>) -> bool {
    forall|i: int| 0 <= i < text.len() ==> is_white_space(#[trigger] text[i])
}

/// Whether `inner` is `text` without the white space at its two ends, and
/// without any more than that.
pub open spec fn is_trimmed(text: Seq<char>, inner: Seq<char>) -> bool {
    exists|start: int, end: int| #[trigger] is_trimmed_at(text, inner, start, end)
}

/// Whether `inner` is what lies between `start` and `end` of `text`, all white
/// space outside those bounds and none just inside of them.
pub open spec fn is_trimmed_at(text: Seq<char>, inner: Seq<char>, start: int, end: int) -> bool {
    &&& 0 <= start <= end <= text.len()
    &&& inner == text.subrange(start, end)
    &&& forall|i: int| 0 <= i < start ==> is_white_space(#[trigger] text[i])
    &&& forall|i: int| end <= i < text.len() ==> is_white_space(#[trigger] text[i])
    &&& start < end ==> !is_white_space(text[start]) && !is_white_space(text[end - 1])
}

/// A text has only one trimmed form.
pub proof fn trimmed_is_unique(text: Seq<char>, left: Seq<char>, right: Seq<char>)
    requires
        is_trimmed(text, left),
        is_trimmed(text, right),
    ensures
        left == right,
{
    let (a, b) = choose|a: int, b: int| is_trimmed_at(text, left, a, b);
    let (c, d) = choose|c: int, d: int| is_trimmed_at(text, right, c, d);
    if a < b {
        assert(c <= a && b <= d) by {
            if c > a {
                assert(is_white_space(text[a]));
            }
            if d < b {
                assert(is_white_space(text[b - 1]));
            }
        }
    }
    if c < d {
        assert(a <= c && d <= b) by {
            if a > c {
                assert(is_white_space(text[c]));
            }
            if b < d {
                assert(is_white_space(text[d - 1]));
            }
        }
    }
    assert(left =~= right);
}

/// A text without the white space at its two ends.
pub open spec fn trimmed(text: Seq<char>) -> Seq<char> {
    choose|inner: Seq<char>| is_trimmed(text, inner)
}

proof fn trimming_exists(text: Seq<char>, start: int, end: int)
    requires
        0 <= start <= end <= text.len(),
        forall|i: int| 0 <= i < start ==> is_white_space(#[trigger] text[i]),
        forall|i: int| end <= i < text.len() ==> is_white_space(#[trigger] text[i]),
    ensures
        exists|inner: Seq<char>| is_trimmed(text, inner),
    decreases end - start,
{
    if start < end && is_white_space(text[start]) {
        trimming_exists(text, start + 1, end);
    } else if start < end && is_white_space(text[end - 1]) {
        trimming_exists(text, start, end - 1);
    } else {
        let inner = text.subrange(start, end);
        assert(is_trimmed_at(text, inner, start, end));
        assert(is_trimmed(text, inner));
    }
}

/// Every text has a trimmed form, and trimming it once more changes nothing.
pub proof fn every_text_can_be_trimmed(text: Seq<char>)
    ensures
        is_trimmed(text, trimmed(text)),
        trimmed(trimmed(text)) == trimmed(text),
{
    trimming_exists(text, 0, text.len() as int);
    let inner = trimmed(text);
    let (start, end) = choose|start: int, end: int| is_trimmed_at(text, inner, start, end);
    assert(inner =~= inner.subrange(0, inner.len() as int));
    if inner.len() > 0 {
        assert(inner[0] == text[start]);
        assert(inner[inner.len() - 1] == text[end - 1]);
    }
    assert(is_trimmed_at(inner, inner, 0, inner.len() as int));
    assert(is_trimmed(inner, inner));
    trimmed_is_unique(inner, inner, trimmed(inner));
}

/// White space around a text does not change its trimmed form.
pub proof fn white_space_is_trimmed_off(before: Seq<char>, text: Seq<char>, after: Seq<char>)
    requires
        is_blank(before),
        is_blank(after),
    ensures
        trimmed(before + text + after) == trimmed(text),
{
    every_text_can_be_trimmed(text);
    let whole = before + text + after;
    let inner = trimmed(text);
    let (start, end) = choose|start: int, end: int| is_trimmed_at(text, inner, start, end);
    let from = before.len() + start;
    let to = before.len() + end;
    assert(whole.subrange(from, to) =~= inner);
    assert forall|i: int| 0 <= i < from implies is_white_space(#[trigger] whole[i]) by {
        if i < before.len() {
            assert(whole[i] == before[i]);
        } else {
            assert(whole[i] == text[i - before.len()]);
        }
    }
    assert forall|i: int| to <= i < whole.len() implies is_white_space(#[trigger] whole[i]) by {
        if i < before.len() + text.len() {
            assert(whole[i] == text[i - before.len()]);
        } else {
            assert(whole[i] == after[i - before.len() - text.len()]);
        }
    }
    assert(is_trimmed_at(whole, inner, from, to));
    assert(is_trimmed(whole, inner));
    trimmed_is_unique(whole, inner, trimmed(whole));
}

/// What is left of a text is what stands between the white space at its two ends:
/// a text that begins and ends with something else is left as it is.
pub proof fn trimming_takes_off_white_space_alone(
    before: Seq<char>,
    core: Seq<char>,
    after: Seq<char>,
)
    requires
        is_blank(before),
        is_blank(after),
        core.len() > 0 ==> !is_white_space(core[0]) && !is_white_space(core.last()),
    ensures
        trimmed(before + core + after) == core,
{
    assert(core =~= core.subrange(0, core.len() as int));
    assert(is_trimmed_at(core, core, 0, core.len() as int));
    assert(is_trimmed(core, core));
    every_text_can_be_trimmed(core);
    trimmed_is_unique(core, core, trimmed(core));
    white_space_is_trimmed_off(before, core, after);
}

/// Calls `str::trim`, which takes the leading and the trailing white space off
/// a text. White space is what has the property `White_Space` of Unicode, line
/// feeds among it.
#[verifier::external_body]
pub(crate) fn trim(text: &str) -> (inner: &str)
    ensures
        is_trimmed(text@, inner@),
{
    text.trim()
}

} // verus!
