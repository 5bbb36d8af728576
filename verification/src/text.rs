//! Text: searching, splitting, joining and number formatting.

use crate::model::{empty_list, push_to, Model};
use vstd::prelude::*;
use vstd::string::*;

verus! {

/// Trusted: [`String::push`] of the standard library appends one character.
pub assume_specification[ String::push ](target: &mut String, c: char)
    ensures
        final(target)@ == old(target)@.push(c),
;

/// Copies a string slice into an owned string.
pub fn own(text: &str) -> (owned: String)
    ensures
        owned@ == text@,
{
    text.to_owned()
}

/// Whether two texts are the same.
pub fn same_text(a: &str, b: &str) -> (same: bool)
    ensures
        same == (a@ == b@),
{
    let left: String = a.to_owned();
    let right: String = b.to_owned();
    left == right
}

/// Concatenates two texts.
pub fn cat2(a: &str, b: &str) -> (text: String)
    ensures
        text@ == a@ + b@,
{
    let mut text: String = a.to_owned();
    text.append(b);
    text
}

/// Concatenates three texts.
pub fn cat3(a: &str, b: &str, c: &str) -> (text: String)
    ensures
        text@ == a@ + b@ + c@,
{
    let mut text: String = cat2(a, b);
    text.append(c);
    text
}

/// Concatenates four texts.
pub fn cat4(a: &str, b: &str, c: &str, d: &str) -> (text: String)
    ensures
        text@ == a@ + b@ + c@ + d@,
{
    let mut text: String = cat3(a, b, c);
    text.append(d);
    text
}

/// Concatenates five texts.
pub fn cat5(a: &str, b: &str, c: &str, d: &str, e: &str) -> (text: String)
    ensures
        text@ == a@ + b@ + c@ + d@ + e@,
{
    let mut text: String = cat4(a, b, c, d);
    text.append(e);
    text
}

/// Concatenates six texts.
pub fn cat6(a: &str, b: &str, c: &str, d: &str, e: &str, f: &str) -> (text: String)
    ensures
        text@ == a@ + b@ + c@ + d@ + e@ + f@,
{
    let mut text: String = cat5(a, b, c, d, e);
    text.append(f);
    text
}

/// Concatenates seven texts.
pub fn cat7(a: &str, b: &str, c: &str, d: &str, e: &str, f: &str, g: &str) -> (text: String)
    ensures
        text@ == a@ + b@ + c@ + d@ + e@ + f@ + g@,
{
    let mut text: String = cat6(a, b, c, d, e, f);
    text.append(g);
    text
}

/// The characters of a text.
pub fn chars_of(text: &str) -> (chars: Vec<char>)
    ensures
        chars@ == text@,
{
    let mut chars: Vec<char> = Vec::new();
    for c in it: text.chars()
        invariant
            chars@ == it.seq().take(it.index()),
            it.seq() == text@,
    {
        chars.push(c);
        assert(it.seq().take(it.index() + 1) =~= it.seq().take(it.index()).push(c));
    }
    assert(text@.take(text@.len() as int) =~= text@);
    chars
}

/// The text made of the characters `from..to`.
pub fn text_of(chars: &Vec<char>, from: usize, to: usize) -> (text: String)
    requires
        from <= to <= chars.len(),
    ensures
        text@ == chars@.subrange(from as int, to as int),
{
    let mut text: String = String::new();
    let mut i: usize = from;
    assert(chars@.subrange(from as int, from as int) =~= Seq::<char>::empty());
    while i < to
        invariant
            from <= i <= to <= chars.len(),
            text@ == chars@.subrange(from as int, i as int),
        decreases to - i,
    {
        text.push(chars[i]);
        assert(chars@.subrange(from as int, i + 1) =~= chars@.subrange(from as int, i as int).push(
            chars@[i as int],
        ));
        i += 1;
    }
    text
}

/// Whether `text` starts with `prefix`.
pub fn starts_with(text: &str, prefix: &str) -> (found: bool)
    ensures
        found == prefix@.is_prefix_of(text@),
{
    let whole: Vec<char> = chars_of(text);
    let part: Vec<char> = chars_of(prefix);
    if part.len() > whole.len() {
        return false;
    }
    let mut i: usize = 0;
    while i < part.len()
        invariant
            i <= part.len() <= whole.len(),
            part@ == prefix@,
            whole@ == text@,
            forall|j: int| 0 <= j < i ==> part@[j] == whole@[j],
        decreases part.len() - i,
    {
        if part[i] != whole[i] {
            assert(text@.subrange(0, prefix@.len() as int)[i as int] != prefix@[i as int]);
            return false;
        }
        i += 1;
    }
    assert(prefix@ =~= text@.subrange(0, prefix@.len() as int));
    true
}

/// Whether `text` ends with `suffix`.
pub fn ends_with(text: &str, suffix: &str) -> (found: bool)
    ensures
        found == suffix@.is_suffix_of(text@),
{
    let whole: Vec<char> = chars_of(text);
    let part: Vec<char> = chars_of(suffix);
    if part.len() > whole.len() {
        return false;
    }
    let skipped: usize = whole.len() - part.len();
    let ghost end = text@.subrange(skipped as int, text@.len() as int);
    let mut i: usize = 0;
    while i < part.len()
        invariant
            i <= part.len(),
            skipped == whole.len() - part.len(),
            part@ == suffix@,
            whole@ == text@,
            end == text@.subrange(skipped as int, text@.len() as int),
            forall|j: int| 0 <= j < i ==> part@[j] == #[trigger] end[j],
        decreases part.len() - i,
    {
        assert(end[i as int] == whole@[skipped + i]);
        if part[i] != whole[skipped + i] {
            return false;
        }
        i += 1;
    }
    assert(suffix@ =~= end);
    true
}

/// Bytes of a text in UTF-8.
pub open spec fn byte_count(text: Seq<char>) -> nat {
    vstd::utf8::encode_utf8(text).len()
}

/// Bytes of a character in UTF-8.
pub open spec fn char_bytes(c: char) -> nat {
    vstd::utf8::encode_scalar(c as u32).len()
}

/// The last character of a text adds its bytes.
pub proof fn lemma_byte_count_last(text: Seq<char>)
    requires
        text.len() > 0,
    ensures
        byte_count(text) == byte_count(text.drop_last()) + char_bytes(text.last()),
    decreases text.len(),
{
    if text.len() > 1 {
        lemma_byte_count_last(text.drop_first());
        assert(text.drop_first().drop_last() =~= text.drop_last().drop_first());
    } else {
        assert(text.drop_first() =~= Seq::empty());
        assert(text.drop_last() =~= Seq::empty());
    }
}

/// Whether `text` holds the character `c`.
pub fn contains_char(text: &str, c: char) -> (found: bool)
    ensures
        found == text@.contains(c),
{
    let chars: Vec<char> = chars_of(text);
    let mut i: usize = 0;
    while i < chars.len()
        invariant
            i <= chars.len(),
            chars@ == text@,
            forall|j: int| 0 <= j < i ==> chars@[j] != c,
        decreases chars.len() - i,
    {
        if chars[i] == c {
            assert(text@[i as int] == c);
            return true;
        }
        i += 1;
    }
    false
}

/// Whether `part` stands in `text` at position `at`.
pub open spec fn stands_at(text: Seq<char>, part: Seq<char>, at: int) -> bool {
    0 <= at && at + part.len() <= text.len() && text.subrange(at, at + part.len()) == part
}

/// Whether `part` stands somewhere in `text`.
pub open spec fn has_part(text: Seq<char>, part: Seq<char>) -> bool {
    exists|at: int| #[trigger] stands_at(text, part, at)
}

/// Whether `part` stands somewhere in `text`.
pub fn contains_text(text: &str, part: &str) -> (found: bool)
    ensures
        found == has_part(text@, part@),
{
    let whole: Vec<char> = chars_of(text);
    let needle: Vec<char> = chars_of(part);
    if needle.len() > whole.len() {
        return false;
    }
    let last: usize = whole.len() - needle.len();
    let mut at: usize = 0;
    while at <= last
        invariant
            at <= last + 1,
            last == whole.len() - needle.len(),
            whole@ == text@,
            needle@ == part@,
            forall|k: int| 0 <= k < at ==> !#[trigger] stands_at(text@, part@, k),
        decreases last + 1 - at,
    {
        let mut i: usize = 0;
        let mut equal: bool = true;
        while i < needle.len() && equal
            invariant
                i <= needle.len(),
                at <= last,
                last == whole.len() - needle.len(),
                whole@ == text@,
                needle@ == part@,
                equal ==> forall|j: int| 0 <= j < i ==> needle@[j] == whole@[at + j],
                !equal ==> !stands_at(text@, part@, at as int),
            decreases needle.len() - i + (if equal { 1int } else { 0int }),
        {
            if needle[i] != whole[at + i] {
                assert(text@.subrange(at as int, at + part@.len())[i as int] != part@[i as int]);
                equal = false;
            } else {
                i += 1;
            }
        }
        if equal {
            assert(text@.subrange(at as int, at + part@.len()) =~= part@);
            assert(stands_at(text@, part@, at as int));
            return true;
        }
        if at == last {
            return false;
        }
        at += 1;
    }
    false
}

/// Position of the first `c` in `text`, or the length of `text` without one.
pub open spec fn position(text: Seq<char>, c: char) -> int
    decreases text.len(),
{
    if text.len() == 0 || text[0] == c {
        0
    } else {
        1 + position(text.skip(1), c)
    }
}

/// `position` is the first place that holds `c`, or the end.
pub proof fn lemma_position(text: Seq<char>, c: char)
    ensures
        0 <= position(text, c) <= text.len(),
        forall|i: int| 0 <= i < position(text, c) ==> text[i] != c,
        position(text, c) < text.len() ==> text[position(text, c)] == c,
        text.contains(c) <==> position(text, c) < text.len(),
    decreases text.len(),
{
    if text.len() > 0 && text[0] != c {
        let rest = text.skip(1);
        lemma_position(rest, c);
        assert forall|i: int| 0 <= i < position(text, c) implies text[i] != c by {
            if i > 0 {
                assert(rest[i - 1] != c);
            }
        }
        if text.contains(c) {
            let k = choose|k: int| 0 <= k < text.len() && text[k] == c;
            assert(rest[k - 1] == c);
        }
        if rest.contains(c) {
            let k = choose|k: int| 0 <= k < rest.len() && rest[k] == c;
            assert(text[k + 1] == c);
        }
    } else if text.len() > 0 {
        assert(text[0] == c);
    }
}

/// A place before which there is no `c`, and which holds `c` or is the end, is
/// `position`.
pub proof fn lemma_position_is(text: Seq<char>, c: char, at: int)
    requires
        0 <= at <= text.len(),
        forall|i: int| 0 <= i < at ==> text[i] != c,
        at < text.len() ==> text[at] == c,
    ensures
        position(text, c) == at,
{
    lemma_position(text, c);
    let p = position(text, c);
    if p < at {
        assert(text[p] != c);
    }
    if at < p {
        assert(text[at] != c);
    }
}

/// Finds the first `c` in `chars`.
pub fn find_char(chars: &Vec<char>, c: char) -> (at: usize)
    ensures
        at == position(chars@, c),
        at <= chars.len(),
{
    let mut i: usize = 0;
    while i < chars.len()
        invariant
            i <= chars.len(),
            forall|j: int| 0 <= j < i ==> chars@[j] != c,
        decreases chars.len() - i,
    {
        if chars[i] == c {
            proof {
                lemma_position_is(chars@, c, i as int);
            }
            return i;
        }
        i += 1;
    }
    proof {
        lemma_position_is(chars@, c, i as int);
    }
    i
}

/// The text before and after the first `c`, if there is one.
pub open spec fn cut(text: Seq<char>, c: char) -> Option<(Seq<char>, Seq<char>)> {
    let at = position(text, c);
    if at < text.len() {
        Some((text.take(at), text.skip(at + 1)))
    } else {
        None
    }
}

/// Splits a text at the first `c`.
pub fn split_once(text: &str, c: char) -> (parts: Option<(String, String)>)
    ensures
        parts.model() == cut(text@, c),
{
    let chars: Vec<char> = chars_of(text);
    let at: usize = find_char(&chars, c);
    if at == chars.len() {
        return None;
    }
    let before: String = text_of(&chars, 0, at);
    let after: String = text_of(&chars, at + 1, chars.len());
    assert(before@ =~= text@.take(at as int));
    assert(after@ =~= text@.skip(at + 1));
    Some((before, after))
}

/// The pieces of `text` between occurrences of `c`.
pub open spec fn pieces(text: Seq<char>, c: char) -> Seq<Seq<char>>
    decreases text.len(),
{
    let at = position(text, c);
    if 0 <= at < text.len() {
        seq![text.take(at)] + pieces(text.skip(at + 1), c)
    } else {
        seq![text]
    }
}

/// Splits a text at every `c`.
pub fn split_all(text: &str, c: char) -> (parts: Vec<String>)
    ensures
        parts.model() == pieces(text@, c),
        parts.len() >= 1,
{
    let chars: Vec<char> = chars_of(text);
    let mut parts: Vec<String> = empty_list();
    let mut start: usize = 0;
    let mut i: usize = 0;
    assert(text@.skip(0) =~= text@);
    assert(parts.model() + pieces(text@, c) =~= pieces(text@, c));
    while i < chars.len()
        invariant
            start <= i <= chars.len(),
            chars@ == text@,
            forall|j: int| start <= j < i ==> chars@[j] != c,
            parts.model() + pieces(text@.skip(start as int), c) == pieces(text@, c),
        decreases chars.len() - i,
    {
        if chars[i] == c {
            let ghost rest = text@.skip(start as int);
            proof {
                lemma_position_is(rest, c, i - start);
                assert(rest.skip(i - start + 1) =~= text@.skip(i + 1));
                assert(rest.take(i - start) =~= text@.subrange(start as int, i as int));
            }
            let ghost before = parts.model();
            push_to(&mut parts, text_of(&chars, start, i));
            assert(before + (seq![rest.take(i - start)] + pieces(text@.skip(i + 1), c))
                =~= parts.model() + pieces(text@.skip(i + 1), c));
            start = i + 1;
        }
        i += 1;
    }
    let ghost rest = text@.skip(start as int);
    proof {
        lemma_position_is(rest, c, rest.len() as int);
    }
    let ghost before = parts.model();
    let tail: String = text_of(&chars, start, chars.len());
    assert(tail@ =~= rest);
    push_to(&mut parts, tail);
    assert(before + seq![rest] =~= parts.model());
    assert(parts.model().len() == parts.len());
    parts
}

/// The parts with `separator` between each two of them.
pub open spec fn joined(parts: Seq<Seq<char>>, separator: Seq<char>) -> Seq<char>
    decreases parts.len(),
{
    if parts.len() == 0 {
        Seq::empty()
    } else if parts.len() == 1 {
        parts[0]
    } else {
        joined(parts.drop_last(), separator) + separator + parts.last()
    }
}

/// Joins texts with a separator.
pub fn join(parts: &Vec<String>, separator: &str) -> (text: String)
    ensures
        text@ == joined(parts.model(), separator@),
{
    let mut text: String = String::new();
    let mut i: usize = 0;
    while i < parts.len()
        invariant
            i <= parts.len(),
            text@ == joined(parts.model().take(i as int), separator@),
        decreases parts.len() - i,
    {
        let ghost next = parts.model().take(i + 1);
        assert(next.drop_last() =~= parts.model().take(i as int));
        assert(next.last() == parts.model()[i as int]);
        if i > 0 {
            text.append(separator);
            text.append(parts[i].as_str());
        } else {
            text = parts[i].clone();
        }
        i += 1;
    }
    assert(parts.model().take(parts.len() as int) =~= parts.model());
    text
}

/// The decimal digit of a number below ten.
pub open spec fn digit(n: nat) -> char {
    (48 + n) as char
}

/// Decimal notation of a natural number.
pub open spec fn decimal(n: nat) -> Seq<char>
    decreases n,
{
    if n < 10 {
        seq![digit(n)]
    } else {
        decimal(n / 10).push(digit(n % 10))
    }
}

/// Writes a number in decimal notation.
pub fn number(n: u64) -> (text: String)
    ensures
        text@ == decimal(n as nat),
    decreases n,
{
    let last: u8 = (n % 10) as u8;
    let c: char = (48 + last) as char;
    if n < 10 {
        let mut text: String = String::new();
        text.push(c);
        assert(text@ =~= decimal(n as nat));
        text
    } else {
        let mut text: String = number(n / 10);
        text.push(c);
        text
    }
}

/// Decimal notation of an integer.
pub open spec fn signed_decimal(n: int) -> Seq<char> {
    if n < 0 {
        seq!['-'] + decimal((-n) as nat)
    } else {
        decimal(n as nat)
    }
}

/// Writes a signed number in decimal notation.
pub fn signed_number(n: i32) -> (text: String)
    ensures
        text@ == signed_decimal(n as int),
{
    if n < 0 {
        let magnitude: u64 = (-(n as i64)) as u64;
        let mut text: String = String::new();
        text.push('-');
        text.append(number(magnitude).as_str());
        assert(text@ =~= signed_decimal(n as int));
        text
    } else {
        number(n as u64)
    }
}

/// `count` copies of `c`.
pub open spec fn repeated(c: char, count: nat) -> Seq<char> {
    Seq::new(count, |i: int| c)
}

/// Repeats a character.
pub fn repeat_char(c: char, count: usize) -> (text: String)
    ensures
        text@ == repeated(c, count as nat),
{
    let mut text: String = String::new();
    let mut i: usize = 0;
    assert(text@ =~= repeated(c, 0));
    while i < count
        invariant
            i <= count,
            text@ == repeated(c, i as nat),
        decreases count - i,
    {
        text.push(c);
        assert(text@ =~= repeated(c, (i + 1) as nat));
        i += 1;
    }
    text
}

/// `text` followed by spaces up to `width` characters.
pub open spec fn left_aligned(text: Seq<char>, width: nat) -> Seq<char> {
    if text.len() < width {
        text + repeated(' ', (width - text.len()) as nat)
    } else {
        text
    }
}

/// `text` after spaces up to `width` characters.
pub open spec fn right_aligned(text: Seq<char>, width: nat) -> Seq<char> {
    if text.len() < width {
        repeated(' ', (width - text.len()) as nat) + text
    } else {
        text
    }
}

/// Pads a text on the right.
pub fn align_left(text: &str, width: usize) -> (padded: String)
    ensures
        padded@ == left_aligned(text@, width as nat),
{
    let length: usize = text.unicode_len();
    if length < width {
        cat2(text, repeat_char(' ', width - length).as_str())
    } else {
        own(text)
    }
}

/// Pads a text on the left.
pub fn align_right(text: &str, width: usize) -> (padded: String)
    ensures
        padded@ == right_aligned(text@, width as nat),
{
    let length: usize = text.unicode_len();
    if length < width {
        cat2(repeat_char(' ', width - length).as_str(), text)
    } else {
        own(text)
    }
}

/// `text` without the carriage returns at its end.
pub open spec fn without_trailing_returns(text: Seq<char>) -> Seq<char>
    decreases text.len(),
{
    if text.len() > 0 && text.last() == '\r' {
        without_trailing_returns(text.drop_last())
    } else {
        text
    }
}

/// Position in `chars[from..to]` after which only carriage returns follow.
pub fn trim_returns(chars: &Vec<char>, from: usize, to: usize) -> (end: usize)
    requires
        from <= to <= chars.len(),
    ensures
        from <= end <= to,
        chars@.subrange(from as int, end as int) == without_trailing_returns(
            chars@.subrange(from as int, to as int),
        ),
{
    let mut end: usize = to;
    while end > from && chars[end - 1] == '\r'
        invariant
            from <= end <= to <= chars.len(),
            without_trailing_returns(chars@.subrange(from as int, end as int))
                == without_trailing_returns(chars@.subrange(from as int, to as int)),
        decreases end,
    {
        let ghost now = chars@.subrange(from as int, end as int);
        assert(now.drop_last() =~= chars@.subrange(from as int, end - 1));
        assert(now.last() == '\r');
        end -= 1;
    }
    proof {
        let now = chars@.subrange(from as int, end as int);
        if end > from {
            assert(now.last() == chars@[end - 1]);
        }
    }
    end
}

/// `text` without the slashes at its start.
pub open spec fn without_leading_slashes(text: Seq<char>) -> Seq<char>
    decreases text.len(),
{
    if text.len() > 0 && text[0] == '/' {
        without_leading_slashes(text.skip(1))
    } else {
        text
    }
}

/// Drops the slashes at the start of a text.
pub fn trim_slashes(text: &str) -> (rest: String)
    ensures
        rest@ == without_leading_slashes(text@),
{
    let chars: Vec<char> = chars_of(text);
    let mut i: usize = 0;
    assert(text@.skip(0) =~= text@);
    while i < chars.len() && chars[i] == '/'
        invariant
            i <= chars.len(),
            chars@ == text@,
            without_leading_slashes(text@.skip(i as int)) == without_leading_slashes(text@),
        decreases chars.len() - i,
    {
        assert(text@.skip(i as int).skip(1) =~= text@.skip(i + 1));
        assert(text@.skip(i as int)[0] == '/');
        i += 1;
    }
    proof {
        if i < chars.len() {
            assert(text@.skip(i as int)[0] == chars@[i as int]);
        }
        assert(chars@.subrange(i as int, chars@.len() as int) =~= text@.skip(i as int));
    }
    text_of(&chars, i, chars.len())
}

/// Hexadecimal digit of a number below sixteen.
pub open spec fn hex_digit(n: nat) -> char {
    if n < 10 {
        (48 + n) as char
    } else {
        (87 + n) as char
    }
}

/// Lower-case hexadecimal notation of a natural number.
pub open spec fn hexadecimal(n: nat) -> Seq<char>
    decreases n,
{
    if n < 16 {
        seq![hex_digit(n)]
    } else {
        hexadecimal(n / 16).push(hex_digit(n % 16))
    }
}

/// `text` after zeros up to `width` characters.
pub open spec fn zero_padded(text: Seq<char>, width: nat) -> Seq<char> {
    if text.len() < width {
        repeated('0', (width - text.len()) as nat) + text
    } else {
        text
    }
}

fn hex_number(n: u64) -> (text: String)
    ensures
        text@ == hexadecimal(n as nat),
    decreases n,
{
    let last: u8 = (n % 16) as u8;
    let c: char = if last < 10 {
        (48 + last) as char
    } else {
        (87 + last) as char
    };
    if n < 16 {
        let mut text: String = String::new();
        text.push(c);
        assert(text@ =~= hexadecimal(n as nat));
        text
    } else {
        let mut text: String = hex_number(n / 16);
        text.push(c);
        text
    }
}

/// Writes a number in hexadecimal notation with at least `width` digits.
pub fn padded_hex(n: u64, width: usize) -> (text: String)
    ensures
        text@ == zero_padded(hexadecimal(n as nat), width as nat),
{
    let digits: String = hex_number(n);
    let length: usize = digits.as_str().unicode_len();
    if length < width {
        cat2(repeat_char('0', width - length).as_str(), digits.as_str())
    } else {
        digits
    }
}

/// Law: a text is cut at the first place where the character stands: what comes before does not hold
/// it, both parts with the character between them are the text, and only a text without the
/// character cannot be cut.
pub proof fn law_text_is_cut_at_the_first(text: Seq<char>, c: char)
    ensures
        cut(text, c) is Some <==> text.contains(c),
        cut(text, c) matches Some(parts) ==> !parts.0.contains(c) && parts.0 + seq![c] + parts.1
            == text,
{
    lemma_position(text, c);
    if let Some(parts) = cut(text, c) {
        assert(parts.0 + seq![c] + parts.1 =~= text);
    }
}

/// Law: a part stands in a text exactly where the text is made of something, the part and something
/// else.
pub proof fn law_parts_of_a_text(before: Seq<char>, part: Seq<char>, after: Seq<char>)
    ensures
        has_part(before + part + after, part),
        forall|text: Seq<char>|
            has_part(text, part) ==> exists|at: int|
                0 <= at <= text.len() && part.is_prefix_of(#[trigger] text.skip(at)),
{
    let whole = before + part + after;
    assert(whole.subrange(before.len() as int, before.len() as int + part.len()) =~= part);
    assert(stands_at(whole, part, before.len() as int));
    assert forall|text: Seq<char>| has_part(text, part) implies exists|at: int|
        0 <= at <= text.len() && part.is_prefix_of(#[trigger] text.skip(at)) by {
        let at = choose|at: int| #[trigger] stands_at(text, part, at);
        assert(text.skip(at).take(part.len() as int) =~= text.subrange(at, at + part.len()));
        assert(part.is_prefix_of(text.skip(at)));
    }
}

/// Law: joining no parts gives nothing, joining one gives it, and one part more stands behind the
/// others and a separator.
pub proof fn law_parts_are_joined_in_order(
    parts: Seq<Seq<char>>,
    part: Seq<char>,
    separator: Seq<char>,
)
    ensures
        parts.len() == 0 ==> joined(parts, separator).len() == 0 && joined(
            parts.push(part),
            separator,
        ) == part,
        parts.len() > 0 ==> joined(parts.push(part), separator) == joined(parts, separator)
            + separator + part,
{
    assert(parts.push(part).drop_last() =~= parts);
}

/// Law: a number below ten is one digit, a digit behind a number is that number times ten plus the
/// digit, and a negative number has a minus sign in front.
pub proof fn law_decimal_notation(n: nat, d: nat)
    requires
        d < 10,
    ensures
        decimal(d).len() == 1 && decimal(d)[0] as int == '0' as int + d,
        n > 0 ==> decimal(10 * n + d) == decimal(n) + decimal(d),
        signed_decimal(n as int) == decimal(n),
        n > 0 ==> signed_decimal(-(n as int)) == seq!['-'] + decimal(n),
{
    if n > 0 {
        assert((10 * n + d) / 10 == n && (10 * n + d) % 10 == d);
        assert(decimal(10 * n + d) =~= decimal(n) + decimal(d));
    }
}

/// Law: a number below sixteen is one hexadecimal digit, the letters following the figures, and a
/// digit behind a number is that number times sixteen plus the digit.
pub proof fn law_hexadecimal_notation(n: nat, d: nat)
    requires
        d < 16,
    ensures
        hexadecimal(d).len() == 1,
        d < 10 ==> hexadecimal(d)[0] as int == '0' as int + d,
        d >= 10 ==> hexadecimal(d)[0] as int == 'a' as int + d - 10,
        n > 0 ==> hexadecimal(16 * n + d) == hexadecimal(n) + hexadecimal(d),
{
    if n > 0 {
        assert((16 * n + d) / 16 == n && (16 * n + d) % 16 == d);
        assert(hexadecimal(16 * n + d) =~= hexadecimal(n) + hexadecimal(d));
    }
}

/// Law: aligning a text to a width keeps it whole and fills up with spaces behind it or before it, and
/// padding a number fills up with zeros before it; a text that is wide enough is not changed.
pub proof fn law_aligned_text_keeps_the_text(text: Seq<char>, width: nat)
    ensures
        text.len() >= width ==> left_aligned(text, width) == text && right_aligned(text, width)
            == text && zero_padded(text, width) == text,
        text.len() < width ==> {
            &&& left_aligned(text, width).len() == width && text.is_prefix_of(
                left_aligned(text, width),
            )
            &&& right_aligned(text, width).len() == width && text.is_suffix_of(
                right_aligned(text, width),
            )
            &&& zero_padded(text, width).len() == width && text.is_suffix_of(
                zero_padded(text, width),
            )
        },
        forall|i: int| text.len() <= i < width ==> #[trigger] left_aligned(text, width)[i] == ' ',
        forall|i: int|
            0 <= i < width - text.len() ==> #[trigger] right_aligned(text, width)[i] == ' ',
        forall|i: int|
            0 <= i < width - text.len() ==> #[trigger] zero_padded(text, width)[i] == '0',
{
}

/// Law: what is taken off the end of a line is carriage returns, and all of them.
pub proof fn law_trailing_returns_are_taken_off(text: Seq<char>)
    ensures
        without_trailing_returns(text).is_prefix_of(text),
        forall|i: int|
            without_trailing_returns(text).len() <= i < text.len() ==> #[trigger] text[i] == '\r',
        without_trailing_returns(text).len() > 0 ==> without_trailing_returns(text).last() != '\r',
    decreases text.len(),
{
    if text.len() > 0 && text.last() == '\r' {
        law_trailing_returns_are_taken_off(text.drop_last());
        let rest = without_trailing_returns(text.drop_last());
        assert(rest =~= text.take(rest.len() as int));
        assert forall|i: int| rest.len() <= i < text.len() implies #[trigger] text[i] == '\r' by {
            if i < text.len() - 1 {
                assert(text.drop_last()[i] == '\r');
            }
        }
    } else {
        assert(text =~= text.take(text.len() as int));
    }
}

/// Law: what is taken off the start of a path is slashes, and all of them.
pub proof fn law_leading_slashes_are_taken_off(text: Seq<char>)
    ensures
        without_leading_slashes(text).is_suffix_of(text),
        forall|i: int|
            0 <= i < text.len() - without_leading_slashes(text).len() ==> #[trigger] text[i] == '/',
        without_leading_slashes(text).len() > 0 ==> without_leading_slashes(text)[0] != '/',
    decreases text.len(),
{
    if text.len() > 0 && text[0] == '/' {
        let tail = text.skip(1);
        law_leading_slashes_are_taken_off(tail);
        let rest = without_leading_slashes(tail);
        assert(text.subrange(text.len() - rest.len(), text.len() as int) =~= tail.subrange(
            tail.len() - rest.len(),
            tail.len() as int,
        ));
        assert forall|i: int| 0 <= i < text.len() - rest.len() implies #[trigger] text[i] == '/' by {
            if i > 0 {
                assert(tail[i - 1] == '/');
            }
        }
    } else {
        assert(text =~= text.subrange(0, text.len() as int));
    }
}

} // verus!
