//! Character-level string helpers, and copies.
//!
//! Everything that reads text works on the sequence of characters that a
//! string views as, so contracts elsewhere can speak of `Seq<char>` alone.

use vstd::prelude::*;
use vstd::string::*;
use vstd::utf8::*;

verus! {

/// `String::push`: the character is appended to the string.
pub assume_specification[ String::push ](text: &mut String, ch: char)
    ensures
        final(text)@ == old(text)@.push(ch),
;

/// The characters of `text`, in order.
pub fn to_chars(text: &str) -> (chars: Vec<char>)
    ensures
        chars@ == text@,
{
    let mut chars: Vec<char> = Vec::new();
    for ch in it: text.chars()
        invariant
            it.seq() == text@,
            chars@ == text@.take(it.index() as int),
    {
        chars.push(ch);
    }
    chars
}

/// The string made of `chars[from..to]`.
pub fn to_text(chars: &Vec<char>, from: usize, to: usize) -> (text: String)
    requires
        from <= to <= chars@.len(),
    ensures
        text@ == chars@.subrange(from as int, to as int),
{
    let mut text = String::new();
    let mut i: usize = from;
    while i < to
        invariant
            from <= i <= to <= chars@.len(),
            text@ == chars@.subrange(from as int, i as int),
        decreases to - i,
    {
        text.push(chars[i]);
        i += 1;
    }
    text
}

/// The characters of each string.
pub open spec fn texts(strings: Seq<String>) -> Seq<Seq<char>> {
    strings.map_values(|text: String| text@)
}

/// A copy of `bytes`.
pub fn copy_bytes(bytes: &Vec<u8>) -> (copy: Vec<u8>)
    ensures
        copy@ == bytes@,
{
    let mut copy: Vec<u8> = Vec::new();
    copy.extend_from_slice(bytes.as_slice());
    assert(copy@ =~= bytes@);
    copy
}

/// UTF-8 tells texts apart.
pub proof fn utf8_injective(left: Seq<char>, right: Seq<char>)
    requires
        encode_utf8(left) == encode_utf8(right),
    ensures
        left == right,
{
    encode_utf8_decode_utf8(left);
    encode_utf8_decode_utf8(right);
}

/// Whether two strings hold the same characters.
pub fn same_text(left: &str, right: &str) -> (same: bool)
    ensures
        same == (left@ == right@),
{
    let left_bytes = left.as_bytes();
    let right_bytes = right.as_bytes();
    if left_bytes.len() != right_bytes.len() {
        return false;
    }
    let mut i: usize = 0;
    while i < left_bytes.len()
        invariant
            i <= left_bytes@.len() == right_bytes@.len(),
            left_bytes@ == encode_utf8(left@),
            right_bytes@ == encode_utf8(right@),
            forall|j: int| 0 <= j < i ==> left_bytes@[j] == right_bytes@[j],
        decreases left_bytes@.len() - i,
    {
        if left_bytes[i] != right_bytes[i] {
            return false;
        }
        i += 1;
    }
    assert(left_bytes@ =~= right_bytes@);
    proof {
        utf8_injective(left@, right@);
    }
    true
}

/// The first position of `needle` in `chars`, or the length when it is absent.
pub open spec fn first_position(chars: Seq<char>, needle: char) -> nat
    decreases chars.len(),
{
    if chars.len() == 0 || chars[0] == needle {
        0
    } else {
        first_position(chars.drop_first(), needle) + 1
    }
}

/// What pins [`first_position`] down: nothing before it is the needle, and it
/// is either the end or a needle itself.
pub proof fn first_position_is(chars: Seq<char>, needle: char, at: nat)
    requires
        at <= chars.len(),
        forall|i: int| 0 <= i < at ==> chars[i] != needle,
        at == chars.len() || chars[at as int] == needle,
    ensures
        first_position(chars, needle) == at,
    decreases chars.len(),
{
    if chars.len() > 0 && chars[0] != needle {
        let rest = chars.drop_first();
        assert forall|i: int| 0 <= i < at - 1 implies rest[i] != needle by {
            assert(rest[i] == chars[i + 1]);
        }
        first_position_is(rest, needle, (at - 1) as nat);
    }
}

/// Finds the first position of `needle`.
pub fn find_char(chars: &Vec<char>, needle: char) -> (at: usize)
    ensures
        at == first_position(chars@, needle),
        at <= chars@.len(),
        at < chars@.len() ==> chars@[at as int] == needle,
{
    let mut i: usize = 0;
    while i < chars.len() && chars[i] != needle
        invariant
            i <= chars@.len(),
            forall|j: int| 0 <= j < i ==> chars@[j] != needle,
        decreases chars@.len() - i,
    {
        i += 1;
    }
    proof {
        first_position_is(chars@, needle, i as nat);
    }
    i
}

/// The characters with the Unicode `White_Space` property.
pub open spec fn is_white_space(ch: char) -> bool {
    ||| '\u{9}' <= ch <= '\u{d}'
    ||| ch == '\u{20}'
    ||| ch == '\u{85}'
    ||| ch == '\u{a0}'
    ||| ch == '\u{1680}'
    ||| '\u{2000}' <= ch <= '\u{200a}'
    ||| ch == '\u{2028}'
    ||| ch == '\u{2029}'
    ||| ch == '\u{202f}'
    ||| ch == '\u{205f}'
    ||| ch == '\u{3000}'
}

fn white_space(ch: char) -> (yes: bool)
    ensures
        yes == is_white_space(ch),
{
    ('\u{9}' <= ch && ch <= '\u{d}') || ch == '\u{20}' || ch == '\u{85}' || ch == '\u{a0}' || ch
        == '\u{1680}' || ('\u{2000}' <= ch && ch <= '\u{200a}') || ch == '\u{2028}' || ch
        == '\u{2029}' || ch == '\u{202f}' || ch == '\u{205f}' || ch == '\u{3000}'
}

/// `chars` without leading white space.
pub open spec fn trim_start(chars: Seq<char>) -> Seq<char>
    decreases chars.len(),
{
    if chars.len() > 0 && is_white_space(chars[0]) {
        trim_start(chars.drop_first())
    } else {
        chars
    }
}

/// `chars` without trailing white space.
pub open spec fn trim_end(chars: Seq<char>) -> Seq<char>
    decreases chars.len(),
{
    if chars.len() > 0 && is_white_space(chars.last()) {
        trim_end(chars.drop_last())
    } else {
        chars
    }
}

/// `chars` without white space at either end.
pub open spec fn trimmed(chars: Seq<char>) -> Seq<char> {
    trim_end(trim_start(chars))
}

/// Text of white space alone is trimmed away.
pub proof fn blank_is_trimmed_away(text: Seq<char>)
    requires
        forall|i: int| 0 <= i < text.len() ==> is_white_space(#[trigger] text[i]),
    ensures
        trimmed(text).len() == 0,
    decreases text.len(),
{
    if text.len() > 0 {
        let rest = text.drop_first();
        assert forall|i: int| 0 <= i < rest.len() implies is_white_space(#[trigger] rest[i]) by {
            assert(rest[i] == text[i + 1]);
        }
        assert(is_white_space(text[0]));
        blank_is_trimmed_away(rest);
    }
}

/// Any other text keeps something when it is trimmed.
pub proof fn trimmed_keeps_the_rest(text: Seq<char>)
    requires
        exists|i: int| 0 <= i < text.len() && !is_white_space(#[trigger] text[i]),
    ensures
        trimmed(text).len() > 0,
{
    start_keeps_the_rest(text);
    end_keeps_the_rest(trim_start(text));
}

proof fn start_keeps_the_rest(text: Seq<char>)
    requires
        exists|i: int| 0 <= i < text.len() && !is_white_space(#[trigger] text[i]),
    ensures
        exists|i: int|
            0 <= i < trim_start(text).len() && !is_white_space(#[trigger] trim_start(text)[i]),
    decreases text.len(),
{
    let i = choose|i: int| 0 <= i < text.len() && !is_white_space(#[trigger] text[i]);
    if is_white_space(text[0]) {
        assert(text.drop_first()[i - 1] == text[i]);
        start_keeps_the_rest(text.drop_first());
        let kept = trim_start(text.drop_first());
        let k = choose|k: int| 0 <= k < kept.len() && !is_white_space(#[trigger] kept[k]);
        assert(trim_start(text) == kept);
        assert(!is_white_space(trim_start(text)[k]));
    } else {
        assert(!is_white_space(trim_start(text)[i]));
    }
}

proof fn end_keeps_the_rest(text: Seq<char>)
    requires
        exists|i: int| 0 <= i < text.len() && !is_white_space(#[trigger] text[i]),
    ensures
        trim_end(text).len() > 0,
    decreases text.len(),
{
    let i = choose|i: int| 0 <= i < text.len() && !is_white_space(#[trigger] text[i]);
    if is_white_space(text.last()) {
        assert(text.drop_last()[i] == text[i]);
        end_keeps_the_rest(text.drop_last());
    }
}

/// White space around a text that neither begins nor ends with any is all that
/// trimming takes from it.
pub proof fn padding_is_trimmed_away(before: Seq<char>, text: Seq<char>, behind: Seq<char>)
    requires
        forall|i: int| 0 <= i < before.len() ==> is_white_space(#[trigger] before[i]),
        forall|i: int| 0 <= i < behind.len() ==> is_white_space(#[trigger] behind[i]),
        text.len() > 0,
        !is_white_space(text[0]),
        !is_white_space(text.last()),
    ensures
        trimmed(before + text + behind) == text,
{
    start_padding(before, text + behind);
    assert(before + (text + behind) =~= before + text + behind);
    end_padding(text, behind);
}

proof fn start_padding(before: Seq<char>, text: Seq<char>)
    requires
        forall|i: int| 0 <= i < before.len() ==> is_white_space(#[trigger] before[i]),
        text.len() > 0,
        !is_white_space(text[0]),
    ensures
        trim_start(before + text) == text,
    decreases before.len(),
{
    if before.len() > 0 {
        let rest = before.drop_first();
        assert forall|i: int| 0 <= i < rest.len() implies is_white_space(#[trigger] rest[i]) by {
            assert(rest[i] == before[i + 1]);
        }
        assert((before + text)[0] == before[0]);
        assert((before + text).drop_first() =~= rest + text);
        start_padding(rest, text);
    } else {
        assert(before + text =~= text);
    }
}

proof fn end_padding(text: Seq<char>, behind: Seq<char>)
    requires
        forall|i: int| 0 <= i < behind.len() ==> is_white_space(#[trigger] behind[i]),
        text.len() > 0,
        !is_white_space(text.last()),
    ensures
        trim_end(text + behind) == text,
    decreases behind.len(),
{
    if behind.len() > 0 {
        let rest = behind.drop_last();
        assert forall|i: int| 0 <= i < rest.len() implies is_white_space(#[trigger] rest[i]) by {
            assert(rest[i] == behind[i]);
        }
        assert((text + behind).last() == behind[behind.len() - 1]);
        assert((text + behind).drop_last() =~= text + rest);
        end_padding(text, rest);
    } else {
        assert(text + behind =~= text);
    }
}

/// White space is what Unicode gives the `White_Space` property.
pub proof fn white_space_is_unicodes(ch: char)
    ensures
        is_white_space(ch) <==> {
            let point = ch as u32;
            ||| set![0x09u32, 0x0a, 0x0b, 0x0c, 0x0d, 0x20, 0x85, 0xa0, 0x1680].contains(point)
            ||| set![0x2000u32, 0x2001, 0x2002, 0x2003, 0x2004, 0x2005, 0x2006].contains(point)
            ||| set![0x2007u32, 0x2008, 0x2009, 0x200a, 0x2028, 0x2029].contains(point)
            ||| set![0x202fu32, 0x205f, 0x3000].contains(point)
        },
{
}

/// Removes the white space at both ends.
pub fn trim(chars: &Vec<char>) -> (text: String)
    ensures
        text@ == trimmed(chars@),
{
    let mut from: usize = 0;
    assert(chars@.skip(0) =~= chars@);
    while from < chars.len() && white_space(chars[from])
        invariant
            from <= chars@.len(),
            trim_start(chars@.skip(from as int)) == trim_start(chars@),
        decreases chars@.len() - from,
    {
        assert(chars@.skip(from as int).drop_first() =~= chars@.skip(from + 1));
        from += 1;
    }
    let ghost started = chars@.skip(from as int);
    assert(trim_start(chars@) == started);
    let mut to: usize = chars.len();
    assert(chars@.subrange(from as int, to as int) =~= started);
    while from < to && white_space(chars[to - 1])
        invariant
            from <= to <= chars@.len(),
            trim_end(chars@.subrange(from as int, to as int)) == trim_end(started),
        decreases to,
    {
        assert(chars@.subrange(from as int, to as int).drop_last() =~= chars@.subrange(
            from as int,
            to - 1,
        ));
        assert(chars@.subrange(from as int, to as int).last() == chars@[to - 1]);
        to -= 1;
    }
    assert(from < to ==> chars@.subrange(from as int, to as int).last() == chars@[to - 1]);
    to_text(chars, from, to)
}

/// The pieces of `chars` between the separators: one more than there are
/// separators, so never none.
pub open spec fn pieces(chars: Seq<char>, separator: char) -> Seq<Seq<char>>
    decreases chars.len(),
{
    if chars.len() == 0 {
        seq![Seq::<char>::empty()]
    } else {
        let before = pieces(chars.drop_last(), separator);
        if chars.last() == separator {
            before.push(Seq::<char>::empty())
        } else {
            before.update(before.len() - 1, before.last().push(chars.last()))
        }
    }
}

/// Text without a separator extends the last piece.
proof fn pieces_extended(chars: Seq<char>, more: Seq<char>, separator: char)
    requires
        !more.contains(separator),
    ensures
        pieces(chars, separator).len() > 0,
        pieces(chars + more, separator) == pieces(chars, separator).update(
            pieces(chars, separator).len() - 1,
            pieces(chars, separator).last() + more,
        ),
    decreases chars.len() + more.len(),
{
    let before = pieces(chars, separator);
    if more.len() == 0 {
        if chars.len() > 0 {
            pieces_extended(chars.drop_last(), Seq::empty(), separator);
        }
        assert(chars + more =~= chars);
        assert(before.last() + more =~= before.last());
        assert(before.update(before.len() - 1, before.last()) =~= before);
    } else {
        let all = chars + more;
        assert forall|ch: char| more.drop_last().contains(ch) implies more.contains(ch) by {
            let k = choose|k: int| 0 <= k < more.len() - 1 && more.drop_last()[k] == ch;
            assert(more[k] == ch);
        }
        pieces_extended(chars, more.drop_last(), separator);
        assert(all.drop_last() =~= chars + more.drop_last());
        assert(more.contains(more.last()));
        assert((before.last() + more.drop_last()).push(more.last()) =~= before.last() + more);
        assert(pieces(all, separator) =~= before.update(before.len() - 1, before.last() + more));
    }
}

/// Text without a separator is one piece.
pub proof fn pieces_of_unbroken(chars: Seq<char>, separator: char)
    requires
        !chars.contains(separator),
    ensures
        pieces(chars, separator) == seq![chars],
{
    pieces_extended(Seq::empty(), chars, separator);
    assert(Seq::<char>::empty() + chars =~= chars);
    assert(pieces(chars, separator) =~= seq![chars]);
}

/// A separator and unbroken text after it add one piece.
pub proof fn pieces_joined(chars: Seq<char>, last: Seq<char>, separator: char)
    requires
        !last.contains(separator),
    ensures
        pieces(chars.push(separator) + last, separator) == pieces(chars, separator).push(last),
{
    pieces_extended(chars.push(separator), last, separator);
    assert(chars.push(separator).drop_last() =~= chars);
    assert(Seq::<char>::empty() + last =~= last);
    assert(pieces(chars.push(separator) + last, separator) =~= pieces(chars, separator).push(last));
}

/// Cuts `chars` at every separator.
pub fn split(chars: &Vec<char>, separator: char) -> (parts: Vec<Vec<char>>)
    ensures
        parts@.map_values(|part: Vec<char>| part@) == pieces(chars@, separator),
{
    let mut parts: Vec<Vec<char>> = Vec::new();
    let mut part: Vec<char> = Vec::new();
    let mut i: usize = 0;
    let ghost views = |part: Vec<char>| part@;
    assert(parts@.map_values(views).push(part@) =~= pieces(chars@.take(0), separator));
    while i < chars.len()
        invariant
            i <= chars@.len(),
            views == (|part: Vec<char>| part@),
            parts@.map_values(views).push(part@) == pieces(chars@.take(i as int), separator),
        decreases chars@.len() - i,
    {
        let ch = chars[i];
        let ghost before = parts@.map_values(views).push(part@);
        assert(chars@.take(i + 1).drop_last() =~= chars@.take(i as int));
        if ch == separator {
            parts.push(part);
            assert(parts@.map_values(views) =~= before);
            part = Vec::new();
            assert(part@ =~= Seq::<char>::empty());
        } else {
            part.push(ch);
            assert(parts@.map_values(views).push(part@) =~= before.update(
                before.len() - 1,
                before.last().push(ch),
            ));
        }
        i += 1;
    }
    assert(chars@.take(i as int) =~= chars@);
    let ghost done = parts@.map_values(views).push(part@);
    parts.push(part);
    assert(parts@.map_values(views) =~= done);
    parts
}

/// What follows `prefix` in `text`, if `text` starts with it.
pub open spec fn after_prefix(text: Seq<char>, prefix: Seq<char>) -> Option<Seq<char>> {
    if prefix.len() <= text.len() && text.take(prefix.len() as int) == prefix {
        Some(text.skip(prefix.len() as int))
    } else {
        None
    }
}

/// Strips `prefix` from the front of `text`.
pub fn strip_prefix(text: &str, prefix: &str) -> (rest: Option<String>)
    ensures
        rest is Some <==> after_prefix(text@, prefix@) is Some,
        rest is Some ==> rest->0@ == after_prefix(text@, prefix@)->0,
{
    let chars = to_chars(text);
    let lead = to_chars(prefix);
    if lead.len() > chars.len() {
        return None;
    }
    let mut i: usize = 0;
    while i < lead.len()
        invariant
            i <= lead@.len() <= chars@.len(),
            chars@ == text@,
            lead@ == prefix@,
            chars@.take(i as int) == lead@.take(i as int),
        decreases lead@.len() - i,
    {
        if chars[i] != lead[i] {
            assert(text@.take(prefix@.len() as int)[i as int] != prefix@[i as int]);
            return None;
        }
        assert(chars@.take(i + 1) =~= chars@.take(i as int).push(chars@[i as int]));
        assert(lead@.take(i + 1) =~= lead@.take(i as int).push(lead@[i as int]));
        i += 1;
    }
    assert(lead@.take(i as int) =~= lead@);
    assert(chars@.subrange(i as int, chars@.len() as int) =~= chars@.skip(i as int));
    Some(to_text(&chars, lead.len(), chars.len()))
}

} // verus!
