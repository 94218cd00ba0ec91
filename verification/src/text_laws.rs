//! What trimming, splitting and the like leave of a text.

use vstd::prelude::*;

use crate::text;

verus! {

/// Whether `t` is `s` from `a` to `b`, with nothing but white space outside.
pub open spec fn core_of(s: Seq<char>, t: Seq<char>, a: int, b: int) -> bool {
    &&& 0 <= a <= b <= s.len()
    &&& t == s.subrange(a, b)
    &&& forall|i: int| 0 <= i < a ==> text::white(#[trigger] s[i])
    &&& forall|i: int| b <= i < s.len() ==> text::white(#[trigger] s[i])
}

proof fn start_is_white(s: Seq<char>) -> (a: int)
    ensures
        0 <= a <= s.len(),
        text::trimmed_start(s) == s.subrange(a, s.len() as int),
        forall|i: int| 0 <= i < a ==> text::white(#[trigger] s[i]),
        a < s.len() ==> !text::white(s[a]),
    decreases s.len(),
{
    if s.len() > 0 && text::white(s[0]) {
        let rest = s.subrange(1, s.len() as int);
        let k = start_is_white(rest);
        assert(rest.subrange(k, rest.len() as int) =~= s.subrange(k + 1, s.len() as int));
        assert forall|i: int| 0 <= i < k + 1 implies text::white(#[trigger] s[i]) by {
            if i > 0 {
                assert(text::white(rest[i - 1]));
            }
        }
        if k + 1 < s.len() {
            assert(rest[k] == s[k + 1]);
        }
        k + 1
    } else {
        assert(s.subrange(0, s.len() as int) =~= s);
        0
    }
}

proof fn end_is_white(s: Seq<char>) -> (b: int)
    ensures
        0 <= b <= s.len(),
        text::trimmed_end(s) == s.subrange(0, b),
        forall|i: int| b <= i < s.len() ==> text::white(#[trigger] s[i]),
        b > 0 ==> !text::white(s[b - 1]),
    decreases s.len(),
{
    if s.len() > 0 && text::white(s[s.len() - 1]) {
        let rest = s.subrange(0, s.len() - 1);
        let k = end_is_white(rest);
        assert(rest.subrange(0, k) =~= s.subrange(0, k));
        assert forall|i: int| k <= i < s.len() implies text::white(#[trigger] s[i]) by {
            if i < s.len() - 1 {
                assert(text::white(rest[i]));
            }
        }
        k
    } else {
        assert(s.subrange(0, s.len() as int) =~= s);
        s.len() as int
    }
}

/// Trimming takes white space away and nothing else, at both ends, and all of it
/// there.
pub proof fn trimming_takes_white_space_only(s: Seq<char>)
    ensures
        exists|a: int, b: int| core_of(s, text::trimmed(s), a, b),
        text::trimmed(s).len() > 0 ==> !text::white(text::trimmed(s)[0]) && !text::white(
            text::trimmed(s).last(),
        ),
{
    let a = start_is_white(s);
    let t = text::trimmed_start(s);
    let k = end_is_white(t);
    assert(t.subrange(0, k) =~= s.subrange(a, a + k));
    assert forall|i: int| a + k <= i < s.len() implies text::white(#[trigger] s[i]) by {
        assert(text::white(t[i - a]));
    }
    assert(core_of(s, text::trimmed(s), a, a + k));
    if k > 0 {
        assert(t[0] == s[a]);
        assert(text::trimmed(s).last() == t[k - 1]);
    }
}

/// The characters of a text that are no white space, in order.
pub open spec fn solid(s: Seq<char>) -> Seq<char> {
    s.filter(|c: char| !text::white(c))
}

proof fn solid_push(s: Seq<char>, c: char)
    ensures
        text::white(c) ==> solid(s.push(c)) == solid(s),
        !text::white(c) ==> solid(s.push(c)) == solid(s).push(c),
{
    reveal(Seq::filter);
    assert(s.push(c).drop_last() =~= s);
    assert(s.push(c).last() == c);
}

/// Squeezing keeps every character that is no white space, in order. What is left of
/// the white space is single spaces.
pub proof fn squeezing_keeps_the_words(s: Seq<char>)
    ensures
        solid(text::squeezed(s)) == solid(s),
        forall|i: int|
            0 <= i < text::squeezed(s).len() && text::white(#[trigger] text::squeezed(s)[i])
                ==> text::squeezed(s)[i] == ' ' && i + 1 < text::squeezed(s).len() && !text::white(
                text::squeezed(s)[i + 1],
            ),
    decreases s.len(),
{
    if s.len() == 0 {
        assert(text::squeezed(s) =~= s);
    } else {
        let front = s.drop_last();
        let c = s.last();
        let before = text::squeezed(front);
        squeezing_keeps_the_words(front);
        assert(front.push(c) =~= s);
        solid_push(front, c);
        solid_push(before, c);
        solid_push(before, ' ');
        solid_push(before.push(' '), c);
        assert(text::white(' '));
        let after = text::squeezed(s);
        assert forall|i: int| 0 <= i < after.len() && text::white(#[trigger] after[i]) implies
            after[i] == ' ' && i + 1 < after.len() && !text::white(after[i + 1]) by {
            if i < before.len() {
                assert(after[i] == before[i]);
                assert(text::white(before[i]));
                assert(i + 1 < before.len());
                assert(after[i + 1] == before[i + 1]);
            }
        }
    }
}

/// Squeezing keeps words apart that white space kept apart, and puts nothing between
/// characters that stood together.
pub proof fn squeezing_keeps_words_apart(front: Seq<char>, c: char, d: char)
    requires
        !text::white(c),
        !text::white(d),
    ensures
        text::squeezed(front.push(c).push(d)) == text::squeezed(front.push(c)).push(d),
        text::squeezed(front.push(c).push(' ').push(d)) == text::squeezed(front.push(c)).push(
            ' ',
        ).push(d),
        text::squeezed(front.push(c).push('\n').push(d)) == text::squeezed(front.push(c)).push(
            ' ',
        ).push(d),
{
    let s = front.push(c);
    assert(s.push(d).drop_last() =~= s);
    assert(s.push(' ').drop_last() =~= s);
    assert(s.push('\n').drop_last() =~= s);
    assert(s.push(' ').push(d).drop_last() =~= s.push(' '));
    assert(s.push('\n').push(d).drop_last() =~= s.push('\n'));
    text::squeezed_is_tight(s);
    assert(!text::blank(s)) by {
        assert(!text::white(s[front.len() as int]));
    }
    reveal_with_fuel(text::squeezed, 3);
}

/// A text that is cut in two is what stands before the first occurrence of the part,
/// the part, and what stands behind it.
pub proof fn cutting_loses_nothing(s: Seq<char>, part: Seq<char>)
    ensures
        text::cut_at(s, part) matches Some((before, after)) ==> s == before + part + after && forall|
            j: int,
        |
            0 <= j < before.len() ==> !#[trigger] text::occurs_at(s, part, j),
        text::cut_at(s, part) is None ==> forall|j: int| !#[trigger] text::occurs_at(s, part, j),
{
    text::first_at_is_least(s, part, 0);
    if let Some((before, after)) = text::cut_at(s, part) {
        let i = text::first_at(s, part, 0).unwrap();
        assert(s.subrange(i, i + part.len()) == part);
        assert(s =~= before + s.subrange(i, i + part.len()) + after);
    }
}

/// Parts put together again, with `c` between them.
pub open spec fn joined(parts: Seq<Seq<char>>, c: char) -> Seq<char>
    decreases parts.len(),
{
    if parts.len() == 0 {
        Seq::empty()
    } else if parts.len() == 1 {
        parts[0]
    } else {
        parts[0].push(c) + joined(parts.skip(1), c)
    }
}

/// A text is split into at least one part. No part holds the separator, and put
/// together again they are the text.
pub proof fn splitting_loses_nothing(s: Seq<char>, c: char)
    ensures
        text::fields(s, c).len() > 0,
        joined(text::fields(s, c), c) == s,
        forall|k: int|
            0 <= k < text::fields(s, c).len() ==> !(#[trigger] text::fields(s, c)[k]).contains(c),
    decreases s.len(),
{
    let mark = seq![c];
    text::first_at_is_least(s, mark, 0);
    assert forall|j: int| 0 <= j < s.len() && s[j] == c implies text::occurs_at(s, mark, j) by {
        assert(s.subrange(j, j + 1) =~= mark);
    }
    match text::first_at(s, mark, 0) {
        Some(i) => {
            assert(s.subrange(i, i + 1)[0] == s[i]);
            let first = s.subrange(0, i);
            let rest = s.subrange(i + 1, s.len() as int);
            splitting_loses_nothing(rest, c);
            let parts = text::fields(s, c);
            assert(parts[0] == first);
            assert(parts.skip(1) =~= text::fields(rest, c));
            assert(first.push(c) + rest =~= s);
            assert(!first.contains(c)) by {
                if first.contains(c) {
                    let j = choose|j: int| 0 <= j < first.len() && first[j] == c;
                    assert(s[j] == c);
                }
            }
            assert forall|k: int| 0 <= k < parts.len() implies !(#[trigger] parts[k]).contains(
                c,
            ) by {
                if k > 0 {
                    assert(parts[k] == text::fields(rest, c)[k - 1]);
                }
            }
        },
        None => {
            assert(!s.contains(c)) by {
                if s.contains(c) {
                    let j = choose|j: int| 0 <= j < s.len() && s[j] == c;
                    assert(text::occurs_at(s, mark, j));
                }
            }
            assert(text::fields(s, c)[0] == s);
        },
    }
}

/// A line ends with a line feed, with or without a carriage return before it; what
/// stands behind the last one is a line too, unless it is empty.
pub proof fn lines_end_with_line_feeds(line: Seq<char>, rest: Seq<char>)
    requires
        !line.contains('\n'),
    ensures
        text::lines(line.push('\n') + rest) == seq![text::without_return(line)] + text::lines(rest),
        line.len() > 0 ==> text::lines(line) == seq![line],
        text::lines(Seq::empty()).len() == 0,
        text::without_return(line.push('\r')) == line,
{
    let whole = line.push('\n') + rest;
    let mark = seq!['\n'];
    let n = line.len() as int;
    assert(line.push('\r').drop_last() =~= line);
    assert(whole.subrange(n, n + 1) =~= mark);
    assert(text::occurs_at(whole, mark, n));
    text::first_at_is_least(whole, mark, 0);
    text::first_at_is_least(line, mark, 0);
    if let Some(i) = text::first_at(whole, mark, 0) {
        assert(whole.subrange(i, i + 1)[0] == whole[i]);
        if i < n {
            assert(line[i] == '\n');
        }
        assert(whole.subrange(0, n) =~= line);
        assert(whole.subrange(n + 1, whole.len() as int) =~= rest);
    }
    if let Some(i) = text::first_at(line, mark, 0) {
        assert(line.subrange(i, i + 1)[0] == line[i]);
        assert(line.contains('\n'));
    }
}

/// Replacing a character changes its occurrences and nothing else.
pub proof fn replacing_changes_that_character(s: Seq<char>, from: char, to: char, i: int)
    requires
        0 <= i < s.len(),
    ensures
        text::with_char_replaced(s, from, to).len() == s.len(),
        s[i] == from ==> text::with_char_replaced(s, from, to)[i] == to,
        s[i] != from ==> text::with_char_replaced(s, from, to)[i] == s[i],
{
}

/// A character of the basic plane is one UTF-16 unit, its own number. Any other is two,
/// from which its number can be read again.
pub proof fn units_can_be_read_again(c: char)
    ensures
        (c as u32) < 0x10000 ==> text::utf16_of(c).len() == 1 && text::utf16_of(c)[0] == c as u32,
        (c as u32) >= 0x10000 ==> {
            let units = text::utf16_of(c);
            &&& units.len() == 2
            &&& 0xd800 <= units[0] < 0xdc00
            &&& 0xdc00 <= units[1] < 0xe000
            &&& 0x10000 + (units[0] - 0xd800) * 0x400 + (units[1] - 0xdc00) == c as u32
        },
{
}

/// The units of two texts, one behind the other, are those of each.
pub proof fn units_follow_the_characters(a: Seq<char>, b: Seq<char>)
    ensures
        text::utf16(a + b) == text::utf16(a) + text::utf16(b),
    decreases b.len(),
{
    if b.len() == 0 {
        assert(a + b =~= a);
        assert(text::utf16(a) + text::utf16(b) =~= text::utf16(a));
    } else {
        assert((a + b).drop_last() =~= a + b.drop_last());
        assert((a + b).last() == b.last());
        units_follow_the_characters(a, b.drop_last());
        assert(text::utf16(a + b) =~= text::utf16(a) + text::utf16(b));
    }
}

/// A part before a separator is the first field, and the fields of the rest follow it.
pub proof fn first_field_stands_before_the_separator(part: Seq<char>, rest: Seq<char>, c: char)
    requires
        !part.contains(c),
    ensures
        text::fields(part.push(c) + rest, c) == seq![part] + text::fields(rest, c),
        text::fields(part, c) == seq![part],
{
    let whole = part.push(c) + rest;
    let mark = seq![c];
    let n = part.len() as int;
    assert(whole.subrange(n, n + 1) =~= mark);
    assert(text::occurs_at(whole, mark, n));
    text::first_at_is_least(whole, mark, 0);
    text::first_at_is_least(part, mark, 0);
    if let Some(i) = text::first_at(whole, mark, 0) {
        assert(whole.subrange(i, i + 1)[0] == whole[i]);
        if i < n {
            assert(part[i] == c);
        }
        assert(whole.subrange(0, n) =~= part);
        assert(whole.subrange(n + 1, whole.len() as int) =~= rest);
    }
    if let Some(i) = text::first_at(part, mark, 0) {
        assert(part.subrange(i, i + 1)[0] == part[i]);
    }
}

/// A text without white space stays as it is when it is trimmed.
pub proof fn solid_texts_are_not_trimmed(s: Seq<char>)
    requires
        forall|i: int| 0 <= i < s.len() ==> !text::white(#[trigger] s[i]),
    ensures
        text::trimmed(s) == s,
{
}

/// A text is cut at the first occurrence of a character.
pub proof fn first_occurrence_cuts(head: Seq<char>, c: char, rest: Seq<char>)
    requires
        !head.contains(c),
    ensures
        text::cut_at(head.push(c) + rest, seq![c]) == Some((head, rest)),
        text::cut_at(head, seq![c]) is None,
{
    let whole = head.push(c) + rest;
    let mark = seq![c];
    let n = head.len() as int;
    assert(whole.subrange(n, n + 1) =~= mark);
    assert(text::occurs_at(whole, mark, n));
    text::first_at_is_least(whole, mark, 0);
    text::first_at_is_least(head, mark, 0);
    if let Some(i) = text::first_at(whole, mark, 0) {
        assert(whole.subrange(i, i + 1)[0] == whole[i]);
        if i < n {
            assert(head[i] == c);
        }
        assert(whole.subrange(0, n) =~= head);
        assert(whole.subrange(n + 1, whole.len() as int) =~= rest);
    }
    if let Some(i) = text::first_at(head, mark, 0) {
        assert(head.subrange(i, i + 1)[0] == head[i]);
    }
}

/// Digits are without fault exactly if they are digits and their number fits.
proof fn digits_without_fault(digits: Seq<char>)
    ensures
        text::digits_fault(digits) is None <==> text::all_digits(digits) && text::digits_value(
            digits,
        ) <= u32::MAX,
        text::all_digits(digits) ==> text::digits_fault(digits) != Some(
            text::NumberFault::InvalidDigit,
        ),
        text::digits_fault(digits) != Some(text::NumberFault::Empty),
    decreases digits.len(),
{
    if digits.len() > 0 {
        let front = digits.drop_last();
        digits_without_fault(front);
        assert(digits.last() == digits[digits.len() - 1]);
        if text::all_digits(digits) {
            assert forall|i: int| 0 <= i < front.len() implies text::is_digit(
                #[trigger] front[i],
            ) by {
                assert(text::is_digit(digits[i]));
            }
            assert(text::is_digit(digits[digits.len() - 1]));
        }
        if text::all_digits(front) && text::is_digit(digits.last()) {
            assert forall|i: int| 0 <= i < digits.len() implies text::is_digit(
                #[trigger] digits[i],
            ) by {
                if i < front.len() {
                    assert(text::is_digit(front[i]));
                }
            }
        }
    }
}

/// A text is faulty exactly if it is no number. An empty one is said to be empty, one of
/// digits only to be too large, and one that has neither is said to hold no digit where
/// one should be, or to be too large before that.
pub proof fn faults_tell_why_a_text_is_no_number(s: Seq<char>)
    ensures
        text::number_fault(s) is None <==> text::number_in(s) is Some,
        text::number_fault(s) == Some(text::NumberFault::Empty) <==> s.len() == 0,
        s.len() > 0 && text::all_digits(s) && text::digits_value(s) > u32::MAX ==> text::number_fault(
            s,
        ) == Some(text::NumberFault::TooLarge),
        s == "+"@ ==> text::number_fault(s) == Some(text::NumberFault::InvalidDigit),
{
    reveal_strlit("+");
    let digits = match text::behind_prefix(s, "+"@) {
        Some(rest) => rest,
        None => s,
    };
    digits_without_fault(digits);
    if text::has_prefix(s, "+"@) {
        assert(s.subrange(0, 1)[0] == s[0]);
        assert(s[0] == '+');
        assert(!text::is_digit(s[0]));
    }
    if s == "+"@ {
        assert(s.subrange(0, 1) =~= s);
        assert(text::has_prefix(s, "+"@));
        assert(digits.len() == 0);
    }
}

} // verus!
