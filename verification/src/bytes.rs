//! Bytes that commands produce.

use crate::text::{chars_of, text_of};
use vstd::prelude::*;

verus! {

/// The text that bytes stand for, where each invalid sequence is replaced.
pub uninterp spec fn lossy_text(bytes: Seq<u8>) -> Seq<char>;

/// Trusted: [`String::from_utf8_lossy`] of the standard library decodes bytes
/// as UTF-8 and puts a replacement character for what is invalid. Its result is
/// a function of the bytes alone, which is all that is claimed of it.
#[verifier::external_body]
pub(crate) fn decode_lossy(bytes: &Vec<u8>) -> (text: String)
    ensures
        text@ == lossy_text(bytes@),
{
    String::from_utf8_lossy(bytes).into_owned()
}

/// Decodes bytes as text, replacing what is invalid.
pub fn text_of_bytes(bytes: &Vec<u8>) -> (text: String)
    ensures
        text@ == lossy_text(bytes@),
{
    decode_lossy(bytes)
}

/// Whether a character is white space, as Unicode has it.
pub open spec fn is_white(c: char) -> bool {
    let n = c as u32;
    9 <= n <= 13 || n == 32 || n == 0x85 || n == 0xa0 || n == 0x1680 || 0x2000 <= n <= 0x200a || n
        == 0x2028 || n == 0x2029 || n == 0x202f || n == 0x205f || n == 0x3000
}

fn white(c: char) -> (white: bool)
    ensures
        white == is_white(c),
{
    let n: u32 = c as u32;
    (9 <= n && n <= 13) || n == 32 || n == 0x85 || n == 0xa0 || n == 0x1680 || (0x2000 <= n && n
        <= 0x200a) || n == 0x2028 || n == 0x2029 || n == 0x202f || n == 0x205f || n == 0x3000
}

/// `text` without the white space at its start.
pub open spec fn without_leading_white(text: Seq<char>) -> Seq<char>
    decreases text.len(),
{
    if text.len() > 0 && is_white(text[0]) {
        without_leading_white(text.skip(1))
    } else {
        text
    }
}

/// `text` without the white space at its end.
pub open spec fn without_trailing_white(text: Seq<char>) -> Seq<char>
    decreases text.len(),
{
    if text.len() > 0 && is_white(text.last()) {
        without_trailing_white(text.drop_last())
    } else {
        text
    }
}

/// `text` without the white space at both ends.
pub open spec fn trimmed(text: Seq<char>) -> Seq<char> {
    without_trailing_white(without_leading_white(text))
}

/// Drops white space at both ends.
pub fn trim(text: &str) -> (rest: String)
    ensures
        rest@ == trimmed(text@),
{
    let chars: Vec<char> = chars_of(text);
    let mut from: usize = 0;
    assert(text@.skip(0) =~= text@);
    while from < chars.len() && white(chars[from])
        invariant
            from <= chars.len(),
            chars@ == text@,
            without_leading_white(text@.skip(from as int)) == without_leading_white(text@),
        decreases chars.len() - from,
    {
        assert(text@.skip(from as int).skip(1) =~= text@.skip(from + 1));
        assert(text@.skip(from as int)[0] == chars@[from as int]);
        from += 1;
    }
    let ghost start = text@.skip(from as int);
    proof {
        if from < chars.len() {
            assert(start[0] == chars@[from as int]);
        }
        assert(start =~= chars@.subrange(from as int, chars@.len() as int));
    }
    let mut to: usize = chars.len();
    while to > from && white(chars[to - 1])
        invariant
            from <= to <= chars.len(),
            without_trailing_white(chars@.subrange(from as int, to as int))
                == without_trailing_white(start),
        decreases to,
    {
        let ghost now = chars@.subrange(from as int, to as int);
        assert(now.drop_last() =~= chars@.subrange(from as int, to - 1));
        assert(now.last() == chars@[to - 1]);
        to -= 1;
    }
    proof {
        let now = chars@.subrange(from as int, to as int);
        if to > from {
            assert(now.last() == chars@[to - 1]);
        }
    }
    text_of(&chars, from, to)
}

/// Law: trimming takes white space off both ends of a text and nothing else: what is left stands in
/// the text between white space, and neither begins nor ends with any.
pub proof fn law_trimming_takes_white_space_off(text: Seq<char>)
    ensures
        exists|before: int, after: int|
            #![trigger text.subrange(before, after)]
            0 <= before <= after <= text.len() && trimmed(text) == text.subrange(before, after) && (
            forall|i: int|
                0 <= i < before || after <= i < text.len() ==> is_white(#[trigger] text[i])),
        trimmed(text).len() > 0 ==> !is_white(trimmed(text)[0]) && !is_white(trimmed(text).last()),
{
    lemma_leading_white(text);
    let rest = without_leading_white(text);
    lemma_trailing_white(rest);
    let before = text.len() - rest.len();
    let after = before + trimmed(text).len();
    assert(rest =~= text.subrange(before, text.len() as int));
    assert(trimmed(text) =~= text.subrange(before, after));
    assert forall|i: int| 0 <= i < before || after <= i < text.len() implies is_white(
        #[trigger] text[i],
    ) by {
        if i >= after {
            assert(rest[i - before] == text[i]);
        }
    }
    if trimmed(text).len() > 0 {
        assert(trimmed(text)[0] == rest[0]);
    }
}

proof fn lemma_leading_white(text: Seq<char>)
    ensures
        without_leading_white(text).len() <= text.len(),
        without_leading_white(text) == text.skip(text.len() - without_leading_white(text).len()),
        forall|i: int|
            0 <= i < text.len() - without_leading_white(text).len() ==> is_white(
                #[trigger] text[i],
            ),
        without_leading_white(text).len() > 0 ==> !is_white(without_leading_white(text)[0]),
    decreases text.len(),
{
    if text.len() > 0 && is_white(text[0]) {
        let tail = text.skip(1);
        lemma_leading_white(tail);
        let rest = without_leading_white(tail);
        assert(rest =~= text.skip(text.len() - rest.len()));
        assert forall|i: int| 0 <= i < text.len() - rest.len() implies is_white(
            #[trigger] text[i],
        ) by {
            if i > 0 {
                assert(tail[i - 1] == text[i]);
            }
        }
    } else {
        assert(text =~= text.skip(0));
    }
}

proof fn lemma_trailing_white(text: Seq<char>)
    ensures
        without_trailing_white(text).len() <= text.len(),
        without_trailing_white(text) == text.take(without_trailing_white(text).len() as int),
        forall|i: int|
            without_trailing_white(text).len() <= i < text.len() ==> is_white(#[trigger] text[i]),
        without_trailing_white(text).len() > 0 ==> !is_white(without_trailing_white(text).last()),
    decreases text.len(),
{
    if text.len() > 0 && is_white(text.last()) {
        let head = text.drop_last();
        lemma_trailing_white(head);
        let rest = without_trailing_white(head);
        assert(rest =~= text.take(rest.len() as int));
        assert forall|i: int| rest.len() <= i < text.len() implies is_white(#[trigger] text[i]) by {
            if i < text.len() - 1 {
                assert(head[i] == text[i]);
            }
        }
    } else {
        assert(text =~= text.take(text.len() as int));
    }
}

} // verus!
