//! Text as a sequence of characters.
//!
//! A `&str` or a `String` is modelled by its view, a `Seq<char>`. The functions
//! below work on that sequence one character at a time, so that every contract
//! of the library can speak of characters and never of byte offsets.

use vstd::prelude::*;

use crate::model;

verus! {

/// `String::push`: appends one character to the end of the string and changes
/// nothing else.
pub assume_specification[ String::push ](s: &mut String, c: char)
    ensures
        final(s)@ == old(s)@.push(c),
;

/// The characters of `s`, in order.
pub fn chars_of(s: &str) -> (r: Vec<char>)
    ensures
        r@ == s@,
{
    let mut out: Vec<char> = Vec::new();
    for c in it: s.chars()
        invariant
            out@ == it.seq().take(it.index() as int),
            it.seq() == s@,
    {
        proof {
            it.seq().lemma_take_succ_push(it.index() as int);
        }
        out.push(c);
    }
    proof {
        assert(s@.take(s@.len() as int) =~= s@);
    }
    out
}

/// The string that holds the characters of `chars`, in order.
pub fn string_of(chars: &[char]) -> (r: String)
    ensures
        r@ == chars@,
{
    let mut out = String::new();
    let mut i: usize = 0;
    while i < chars.len()
        invariant
            i <= chars@.len(),
            out@ == chars@.take(i as int),
        decreases chars@.len() - i,
    {
        proof {
            chars@.lemma_take_succ_push(i as int);
        }
        out.push(chars[i]);
        i = i + 1;
    }
    proof {
        assert(chars@.take(chars@.len() as int) =~= chars@);
    }
    out
}

/// The characters of `chars` from `from` up to, but not including, `to`.
pub fn string_between(chars: &[char], from: usize, to: usize) -> (r: String)
    requires
        from <= to <= chars@.len(),
    ensures
        r@ == chars@.subrange(from as int, to as int),
{
    let mut out = String::new();
    let mut i: usize = from;
    while i < to
        invariant
            from <= i <= to <= chars@.len(),
            out@ == chars@.subrange(from as int, i as int),
        decreases to - i,
    {
        proof {
            assert(chars@.subrange(from as int, i + 1) =~= chars@.subrange(
                from as int,
                i as int,
            ).push(chars@[i as int]));
        }
        out.push(chars[i]);
        i = i + 1;
    }
    out
}

/// Whether two texts hold the same characters.
pub fn same(a: &str, b: &str) -> (r: bool)
    ensures
        r == (a@ == b@),
{
    let x = chars_of(a);
    let y = chars_of(b);
    if x.len() != y.len() {
        return false;
    }
    let mut i: usize = 0;
    while i < x.len()
        invariant
            i <= x@.len(),
            x@.len() == y@.len(),
            forall|k: int| 0 <= k < i ==> x@[k] == y@[k],
            x@ == a@,
            y@ == b@,
        decreases x@.len() - i,
    {
        if x[i] != y[i] {
            assert(a@[i as int] != b@[i as int]);
            return false;
        }
        i = i + 1;
    }
    assert(x@ =~= y@);
    true
}

/// `a` followed by `b`.
pub fn join2(a: &str, b: &str) -> (r: String)
    ensures
        r@ == a@ + b@,
{
    let mut out = a.to_owned();
    out.append(b);
    out
}

/// `a`, `b` and `c`, one behind the other.
pub fn join3(a: &str, b: &str, c: &str) -> (r: String)
    ensures
        r@ == a@ + b@ + c@,
{
    let mut out = a.to_owned();
    out.append(b);
    out.append(c);
    out
}

/// Whether `c` has the Unicode property White_Space.
pub open spec fn white(c: char) -> bool {
    ||| '\u{9}' <= c <= '\u{d}'
    ||| c == ' '
    ||| c == '\u{85}'
    ||| c == '\u{a0}'
    ||| c == '\u{1680}'
    ||| '\u{2000}' <= c <= '\u{200a}'
    ||| c == '\u{2028}'
    ||| c == '\u{2029}'
    ||| c == '\u{202f}'
    ||| c == '\u{205f}'
    ||| c == '\u{3000}'
}

/// `white`, executable.
pub fn is_white(c: char) -> (r: bool)
    ensures
        r == white(c),
{
    ('\u{9}' <= c && c <= '\u{d}') || c == ' ' || c == '\u{85}' || c == '\u{a0}' || c == '\u{1680}'
        || ('\u{2000}' <= c && c <= '\u{200a}') || c == '\u{2028}' || c == '\u{2029}' || c
        == '\u{202f}' || c == '\u{205f}' || c == '\u{3000}'
}

/// `s` without the white space it starts with.
pub open spec fn trimmed_start(s: Seq<char>) -> Seq<char>
    decreases s.len(),
{
    if s.len() > 0 && white(s[0]) {
        trimmed_start(s.subrange(1, s.len() as int))
    } else {
        s
    }
}

/// `s` without the white space it ends with.
pub open spec fn trimmed_end(s: Seq<char>) -> Seq<char>
    decreases s.len(),
{
    if s.len() > 0 && white(s[s.len() - 1]) {
        trimmed_end(s.subrange(0, s.len() - 1))
    } else {
        s
    }
}

/// `s` without the white space at either end.
pub open spec fn trimmed(s: Seq<char>) -> Seq<char> {
    trimmed_end(trimmed_start(s))
}

/// `trimmed_start`, executable.
pub fn trim_start(s: &str) -> (r: String)
    ensures
        r@ == trimmed_start(s@),
{
    let chars = chars_of(s);
    let mut from: usize = 0;
    proof {
        assert(s@.subrange(0, s@.len() as int) =~= s@);
    }
    while from < chars.len() && is_white(chars[from])
        invariant
            from <= chars@.len(),
            chars@ == s@,
            trimmed_start(s@) == trimmed_start(s@.subrange(from as int, s@.len() as int)),
        decreases chars@.len() - from,
    {
        proof {
            let rest = s@.subrange(from as int, s@.len() as int);
            assert(rest.subrange(1, rest.len() as int) =~= s@.subrange(
                from + 1,
                s@.len() as int,
            ));
        }
        from = from + 1;
    }
    string_between(chars.as_slice(), from, chars.len())
}

/// `trimmed`, executable.
pub fn trim(s: &str) -> (r: String)
    ensures
        r@ == trimmed(s@),
{
    let left = trim_start(s);
    let chars = chars_of(left.as_str());
    let mut to: usize = chars.len();
    proof {
        assert(left@.subrange(0, left@.len() as int) =~= left@);
    }
    while to > 0 && is_white(chars[to - 1])
        invariant
            to <= chars@.len(),
            chars@ == left@,
            trimmed_end(left@) == trimmed_end(left@.subrange(0, to as int)),
        decreases to,
    {
        proof {
            let front = left@.subrange(0, to as int);
            assert(front.subrange(0, front.len() - 1) =~= left@.subrange(0, to - 1));
        }
        to = to - 1;
    }
    string_between(chars.as_slice(), 0, to)
}

/// Whether nothing but white space stands in `s`.
pub open spec fn blank(s: Seq<char>) -> bool {
    forall|i: int| 0 <= i < s.len() ==> white(#[trigger] s[i])
}

/// A text is blank exactly when trimming leaves nothing of it.
pub proof fn blank_is_trimmed_away(s: Seq<char>)
    ensures
        blank(s) <==> trimmed(s).len() == 0,
    decreases s.len(),
{
    blank_start(s);
    let t = trimmed_start(s);
    if t.len() > 0 {
        assert(!white(t[0]));
        end_keeps_first(t);
    }
}

/// What `trimmed_start` leaves is empty exactly on blank texts, and never
/// starts with white space.
proof fn blank_start(s: Seq<char>)
    ensures
        blank(s) <==> trimmed_start(s).len() == 0,
        trimmed_start(s).len() > 0 ==> !white(trimmed_start(s)[0]),
    decreases s.len(),
{
    if s.len() > 0 && white(s[0]) {
        let rest = s.subrange(1, s.len() as int);
        blank_start(rest);
        assert(blank(s) <==> blank(rest)) by {
            if blank(rest) {
                assert forall|i: int| 0 <= i < s.len() implies white(#[trigger] s[i]) by {
                    if i > 0 {
                        assert(rest[i - 1] == s[i]);
                    }
                }
            }
            if blank(s) {
                assert forall|i: int| 0 <= i < rest.len() implies white(#[trigger] rest[i]) by {
                    assert(rest[i] == s[i + 1]);
                }
            }
        }
    } else if s.len() > 0 {
        assert(!white(s[0]));
    }
}

/// A character that is not white space survives `trimmed_end`.
proof fn end_keeps_first(s: Seq<char>)
    requires
        s.len() > 0,
        !white(s[0]),
    ensures
        trimmed_end(s).len() > 0,
    decreases s.len(),
{
    if white(s[s.len() - 1]) {
        let front = s.subrange(0, s.len() - 1);
        assert(front[0] == s[0]);
        end_keeps_first(front);
    }
}

/// Whether nothing but white space stands in `s`.
pub fn is_blank(s: &str) -> (r: bool)
    ensures
        r == blank(s@),
        r == (trimmed(s@).len() == 0),
{
    proof {
        blank_is_trimmed_away(s@);
    }
    let chars = chars_of(s);
    let mut i: usize = 0;
    while i < chars.len()
        invariant
            i <= chars@.len(),
            chars@ == s@,
            forall|k: int| 0 <= k < i ==> white(#[trigger] s@[k]),
            blank(s@) <==> trimmed(s@).len() == 0,
        decreases chars@.len() - i,
    {
        if !is_white(chars[i]) {
            assert(!white(s@[i as int]));
            return false;
        }
        i = i + 1;
    }
    true
}

/// The lower-case letter of an ASCII capital; any other character unchanged.
pub open spec fn lower_char(c: char) -> char {
    if 'A' <= c <= 'Z' {
        (c as int + 32) as char
    } else {
        c
    }
}

/// `s` with every ASCII capital lowered.
pub open spec fn lowered(s: Seq<char>) -> Seq<char> {
    Seq::new(s.len(), |i: int| lower_char(s[i]))
}

/// A capital ASCII letter becomes the small one; every other character stays.
pub proof fn letters_lose_their_case(c: char)
    ensures
        'A' <= c <= 'Z' ==> lower_char(c) as int == c as int + 32,
        !('A' <= c <= 'Z') ==> lower_char(c) == c,
{
}

/// `lower_char`, executable.
pub fn to_lower_char(c: char) -> (r: char)
    ensures
        r == lower_char(c),
{
    if 'A' <= c && c <= 'Z' {
        (c as u8 + 32) as char
    } else {
        c
    }
}

/// `lowered`, executable.
pub fn to_lower(s: &str) -> (r: String)
    ensures
        r@ == lowered(s@),
{
    let chars = chars_of(s);
    let mut out = String::new();
    let mut i: usize = 0;
    while i < chars.len()
        invariant
            i <= chars@.len(),
            chars@ == s@,
            out@ == lowered(s@).take(i as int),
        decreases chars@.len() - i,
    {
        proof {
            lowered(s@).lemma_take_succ_push(i as int);
        }
        out.push(to_lower_char(chars[i]));
        i = i + 1;
    }
    proof {
        assert(lowered(s@).take(s@.len() as int) =~= lowered(s@));
    }
    out
}

/// Lowering a lowered text changes nothing.
pub proof fn lowered_twice(s: Seq<char>)
    ensures
        lowered(lowered(s)) == lowered(s),
{
    assert(lowered(lowered(s)) =~= lowered(s));
}

/// Whether two texts differ at most in the case of ASCII letters.
pub fn same_ignoring_case(a: &str, b: &str) -> (r: bool)
    ensures
        r == (lowered(a@) == lowered(b@)),
{
    let x = to_lower(a);
    let y = to_lower(b);
    same(x.as_str(), y.as_str())
}

/// `s` with every `from` replaced by `to`.
pub open spec fn with_char_replaced(s: Seq<char>, from: char, to: char) -> Seq<char> {
    Seq::new(
        s.len(),
        |i: int|
            if s[i] == from {
                to
            } else {
                s[i]
            },
    )
}

/// `with_char_replaced`, executable.
pub fn replace_char(s: &str, from: char, to: char) -> (r: String)
    ensures
        r@ == with_char_replaced(s@, from, to),
{
    let chars = chars_of(s);
    let mut out = String::new();
    let mut i: usize = 0;
    while i < chars.len()
        invariant
            i <= chars@.len(),
            chars@ == s@,
            out@ == with_char_replaced(s@, from, to).take(i as int),
        decreases chars@.len() - i,
    {
        proof {
            with_char_replaced(s@, from, to).lemma_take_succ_push(i as int);
        }
        if chars[i] == from {
            out.push(to);
        } else {
            out.push(chars[i]);
        }
        i = i + 1;
    }
    proof {
        let all = with_char_replaced(s@, from, to);
        assert(all.take(all.len() as int) =~= all);
    }
    out
}

/// Whether `part` stands in `s` at position `at`.
pub open spec fn occurs_at(s: Seq<char>, part: Seq<char>, at: int) -> bool {
    0 <= at && at + part.len() <= s.len() && s.subrange(at, at + part.len()) == part
}

/// Whether `s` begins with `part`.
pub open spec fn has_prefix(s: Seq<char>, part: Seq<char>) -> bool {
    occurs_at(s, part, 0)
}

/// Whether `s` ends with `part`.
pub open spec fn has_suffix(s: Seq<char>, part: Seq<char>) -> bool {
    occurs_at(s, part, s.len() - part.len())
}

/// Whether `part` stands anywhere in `s`.
pub open spec fn has_part(s: Seq<char>, part: Seq<char>) -> bool {
    exists|at: int| #[trigger] occurs_at(s, part, at)
}

/// Where `part` first stands in `s` at or behind `from`.
pub open spec fn first_at(s: Seq<char>, part: Seq<char>, from: int) -> Option<int>
    decreases s.len() - from + 1,
{
    if from < 0 || from + part.len() > s.len() {
        None
    } else if occurs_at(s, part, from) {
        Some(from)
    } else {
        first_at(s, part, from + 1)
    }
}

/// `first_at` finds the least position, if there is one.
pub proof fn first_at_is_least(s: Seq<char>, part: Seq<char>, from: int)
    requires
        0 <= from,
    ensures
        match first_at(s, part, from) {
            Some(i) => from <= i && occurs_at(s, part, i) && (forall|j: int|
                from <= j < i ==> !#[trigger] occurs_at(s, part, j)),
            None => forall|j: int| from <= j ==> !#[trigger] occurs_at(s, part, j),
        },
    decreases s.len() - from + 1,
{
    if from + part.len() <= s.len() && !occurs_at(s, part, from) {
        first_at_is_least(s, part, from + 1);
    }
}

/// Whether `part` stands in `chars` at position `at`.
fn part_at(chars: &[char], part: &[char], at: usize) -> (r: bool)
    requires
        at <= chars@.len(),
    ensures
        r == occurs_at(chars@, part@, at as int),
{
    let total: usize = chars.len();
    if part.len() > total - at {
        return false;
    }
    let mut i: usize = 0;
    while i < part.len()
        invariant
            i <= part@.len(),
            at + part@.len() <= chars@.len(),
            total == chars@.len(),
            forall|k: int| 0 <= k < i ==> chars@[at + k] == part@[k],
        decreases part@.len() - i,
    {
        if chars[at + i] != part[i] {
            assert(chars@.subrange(at as int, at + part@.len())[i as int] != part@[i as int]);
            return false;
        }
        i = i + 1;
    }
    assert(chars@.subrange(at as int, at + part@.len()) =~= part@);
    true
}

/// Whether `s` begins with `part`.
pub fn starts_with(s: &str, part: &str) -> (r: bool)
    ensures
        r == has_prefix(s@, part@),
{
    let chars = chars_of(s);
    let wanted = chars_of(part);
    part_at(chars.as_slice(), wanted.as_slice(), 0)
}

/// Whether `s` ends with `part`.
pub fn ends_with(s: &str, part: &str) -> (r: bool)
    ensures
        r == has_suffix(s@, part@),
{
    let chars = chars_of(s);
    let wanted = chars_of(part);
    if wanted.len() > chars.len() {
        return false;
    }
    part_at(chars.as_slice(), wanted.as_slice(), chars.len() - wanted.len())
}

/// Where `part` first stands in `s`, counted in characters.
pub fn find(s: &str, part: &str) -> (r: Option<usize>)
    ensures
        match (r, first_at(s@, part@, 0)) {
            (Some(i), Some(j)) => i == j,
            (None, None) => true,
            _ => false,
        },
{
    let chars = chars_of(s);
    let wanted = chars_of(part);
    let mut i: usize = 0;
    if wanted.len() > chars.len() {
        return None;
    }
    let last: usize = chars.len() - wanted.len();
    while i <= last
        invariant
            chars@ == s@,
            wanted@ == part@,
            last + part@.len() == s@.len(),
            last < usize::MAX || i <= last,
            i <= last + 1,
            first_at(s@, part@, 0) == first_at(s@, part@, i as int),
        decreases last + 1 - i,
    {
        if part_at(chars.as_slice(), wanted.as_slice(), i) {
            return Some(i);
        }
        assert(first_at(s@, part@, i as int) == first_at(s@, part@, i + 1));
        if i == last {
            assert(first_at(s@, part@, i + 1) is None);
            return None;
        }
        i = i + 1;
    }
    None
}

/// Whether `part` stands anywhere in `s`.
pub fn contains(s: &str, part: &str) -> (r: bool)
    ensures
        r == has_part(s@, part@),
{
    proof {
        first_at_is_least(s@, part@, 0);
    }
    match find(s, part) {
        Some(_) => true,
        None => {
            assert forall|j: int| !#[trigger] occurs_at(s@, part@, j) by {
                if j >= 0 {
                }
            }
            false
        },
    }
}

/// `s` behind the prefix `part`, if `s` begins with it.
pub open spec fn behind_prefix(s: Seq<char>, part: Seq<char>) -> Option<Seq<char>> {
    if has_prefix(s, part) {
        Some(s.subrange(part.len() as int, s.len() as int))
    } else {
        None
    }
}

/// `behind_prefix`, executable.
pub fn strip_prefix(s: &str, part: &str) -> (r: Option<String>)
    ensures
        model::opt_view(r) == behind_prefix(s@, part@),
{
    let chars = chars_of(s);
    let wanted = chars_of(part);
    if part_at(chars.as_slice(), wanted.as_slice(), 0) {
        Some(string_between(chars.as_slice(), wanted.len(), chars.len()))
    } else {
        None
    }
}

/// The parts of `s` before and behind the first `part` in it.
pub open spec fn cut_at(s: Seq<char>, part: Seq<char>) -> Option<(Seq<char>, Seq<char>)> {
    match first_at(s, part, 0) {
        Some(i) => Some((s.subrange(0, i), s.subrange(i + part.len(), s.len() as int))),
        None => None,
    }
}

/// `cut_at`, executable.
pub fn split_once(s: &str, part: &str) -> (r: Option<(String, String)>)
    ensures
        match (r, cut_at(s@, part@)) {
            (Some((a, b)), Some((x, y))) => a@ == x && b@ == y,
            (None, None) => true,
            _ => false,
        },
{
    let chars = chars_of(s);
    let wanted = chars_of(part);
    proof {
        first_at_is_least(s@, part@, 0);
    }
    let total: usize = chars.len();
    match find(s, part) {
        Some(i) => Some(
            (
                string_between(chars.as_slice(), 0, i),
                string_between(chars.as_slice(), i + wanted.len(), total),
            ),
        ),
        None => None,
    }
}

/// `s` without the run of `c` it ends with.
pub open spec fn without_trailing(s: Seq<char>, c: char) -> Seq<char>
    decreases s.len(),
{
    if s.len() > 0 && s[s.len() - 1] == c {
        without_trailing(s.subrange(0, s.len() - 1), c)
    } else {
        s
    }
}

/// What is cut off the end of a text is all the `c` there is: the rest does not end
/// in `c`, and only `c` stands behind it.
pub proof fn trailing_is_cut_off(s: Seq<char>, c: char)
    ensures
        ({
            let rest = without_trailing(s, c);
            &&& rest.len() <= s.len()
            &&& rest == s.take(rest.len() as int)
            &&& rest.len() > 0 ==> rest[rest.len() - 1] != c
            &&& forall|i: int| rest.len() <= i < s.len() ==> #[trigger] s[i] == c
        }),
    decreases s.len(),
{
    if s.len() > 0 && s[s.len() - 1] == c {
        let front = s.subrange(0, s.len() - 1);
        trailing_is_cut_off(front, c);
        let rest = without_trailing(s, c);
        assert(rest =~= s.take(rest.len() as int));
        assert forall|i: int| rest.len() <= i < s.len() implies #[trigger] s[i] == c by {
            if i < s.len() - 1 {
                assert(front[i] == c);
            }
        }
    } else {
        assert(s =~= s.take(s.len() as int));
    }
}

/// `without_trailing`, executable.
pub fn trim_end_char(s: &str, c: char) -> (r: String)
    ensures
        r@ == without_trailing(s@, c),
{
    let chars = chars_of(s);
    let mut to: usize = chars.len();
    proof {
        assert(s@.subrange(0, s@.len() as int) =~= s@);
    }
    while to > 0 && chars[to - 1] == c
        invariant
            to <= chars@.len(),
            chars@ == s@,
            without_trailing(s@, c) == without_trailing(s@.subrange(0, to as int), c),
        decreases to,
    {
        proof {
            let front = s@.subrange(0, to as int);
            assert(front.subrange(0, front.len() - 1) =~= s@.subrange(0, to - 1));
        }
        to = to - 1;
    }
    string_between(chars.as_slice(), 0, to)
}

/// The digit of a number below ten.
pub open spec fn digit(d: nat) -> char {
    ('0' as int + d) as char
}

/// The decimal notation of `n`, without leading zeros.
pub open spec fn decimal(n: nat) -> Seq<char>
    decreases n,
{
    if n < 10 {
        seq![digit(n)]
    } else {
        decimal(n / 10).push(digit(n % 10))
    }
}

/// `decimal`, executable.
pub fn decimal_of(n: u64) -> (r: String)
    ensures
        r@ == decimal(n as nat),
    decreases n,
{
    let last: char = (48 + (n % 10) as u8) as char;
    if n < 10 {
        let mut out = String::new();
        out.push(last);
        assert(out@ =~= seq![digit(n as nat)]);
        out
    } else {
        let mut out = decimal_of(n / 10);
        out.push(last);
        out
    }
}

/// The value of a digit.
spec fn digit_value(c: char) -> int {
    c as int - '0' as int
}

/// A decimal notation is not empty and holds digits only.
pub proof fn decimal_is_digits(n: nat)
    ensures
        decimal(n).len() > 0,
        forall|i: int| 0 <= i < decimal(n).len() ==> '0' <= #[trigger] decimal(n)[i] <= '9',
    decreases n,
{
    if n >= 10 {
        decimal_is_digits(n / 10);
    }
}

/// Two numbers with one decimal notation are the same.
pub proof fn decimal_is_injective(a: nat, b: nat)
    requires
        decimal(a) == decimal(b),
    ensures
        a == b,
    decreases a,
{
    decimal_is_digits(a / 10);
    decimal_is_digits(b / 10);
    let s = decimal(a);
    let t = decimal(b);
    assert(s.last() == t.last());
    assert(digit_value(digit(a % 10)) == a % 10);
    assert(digit_value(digit(b % 10)) == b % 10);
    assert(s.last() == digit(a % 10));
    assert(t.last() == digit(b % 10));
    assert(a % 10 == b % 10);
    if a >= 10 && b >= 10 {
        assert(s.drop_last() =~= decimal(a / 10));
        assert(t.drop_last() =~= decimal(b / 10));
        decimal_is_injective(a / 10, b / 10);
    } else if a >= 10 {
        assert(s.len() == decimal(a / 10).len() + 1);
        assert(t.len() == 1);
    } else if b >= 10 {
        assert(t.len() == decimal(b / 10).len() + 1);
        assert(s.len() == 1);
    }
}

/// The lower-case hexadecimal digit of a number below sixteen.
pub open spec fn hex_digit(d: nat) -> char {
    if d < 10 {
        digit(d)
    } else {
        ('a' as int + (d - 10)) as char
    }
}

/// The last `width` hexadecimal digits of `n`.
pub open spec fn hex(n: nat, width: nat) -> Seq<char>
    decreases width,
{
    if width == 0 {
        Seq::empty()
    } else {
        hex(n / 16, (width - 1) as nat).push(hex_digit(n % 16))
    }
}

/// `hex`, executable.
pub fn hex_of(n: u64, width: u32) -> (r: String)
    ensures
        r@ == hex(n as nat, width as nat),
    decreases width,
{
    if width == 0 {
        let r = String::new();
        assert(r@ =~= Seq::<char>::empty());
        return r;
    }
    let d: u8 = (n % 16) as u8;
    let last: char = if d < 10 {
        (48 + d) as char
    } else {
        (87 + d) as char
    };
    let mut out = hex_of(n / 16, width - 1);
    out.push(last);
    out
}

/// Numbers of at most `width` digits are told apart by them.
pub proof fn hex_is_injective(a: nat, b: nat, width: nat)
    requires
        hex(a, width) == hex(b, width),
        a < vstd::arithmetic::power::pow(16, width),
        b < vstd::arithmetic::power::pow(16, width),
    ensures
        a == b,
    decreases width,
{
    if width == 0 {
        vstd::arithmetic::power::lemma_pow0(16);
    } else {
        let less = (width - 1) as nat;
        vstd::arithmetic::power::lemma_pow_adds(16, 1, less);
        vstd::arithmetic::power::lemma_pow1(16);
        let s = hex(a, width);
        let t = hex(b, width);
        assert(s.drop_last() =~= hex(a / 16, less));
        assert(t.drop_last() =~= hex(b / 16, less));
        assert(s.last() == hex_digit(a % 16));
        assert(t.last() == hex_digit(b % 16));
        assert(a % 16 == b % 16);
        let p = vstd::arithmetic::power::pow(16, less);
        assert(a / 16 < p) by (nonlinear_arith)
            requires
                a < 16 * p,
        ;
        assert(b / 16 < p) by (nonlinear_arith)
            requires
                b < 16 * p,
        ;
        hex_is_injective(a / 16, b / 16, less);
    }
}

/// Whether `c` is a decimal digit.
pub open spec fn is_digit(c: char) -> bool {
    '0' <= c <= '9'
}

/// Whether `s` holds nothing but decimal digits.
pub open spec fn all_digits(s: Seq<char>) -> bool {
    forall|i: int| 0 <= i < s.len() ==> is_digit(#[trigger] s[i])
}

/// The number that decimal digits stand for.
pub open spec fn digits_value(s: Seq<char>) -> nat
    decreases s.len(),
{
    if s.len() == 0 {
        0
    } else {
        digits_value(s.drop_last()) * 10 + (s.last() as nat - '0' as nat) as nat
    }
}

/// The number that `s` is the notation of: digits, with or without a plus sign,
/// for a number that fits.
pub open spec fn number_in(s: Seq<char>) -> Option<u32> {
    let digits = match behind_prefix(s, "+"@) {
        Some(rest) => rest,
        None => s,
    };
    if digits.len() > 0 && all_digits(digits) && digits_value(digits) <= u32::MAX {
        Some(digits_value(digits) as u32)
    } else {
        None
    }
}

/// A longer notation stands for no smaller number.
proof fn digits_value_grows(s: Seq<char>, n: int)
    requires
        0 <= n <= s.len(),
        all_digits(s),
    ensures
        digits_value(s.take(n)) <= digits_value(s),
    decreases s.len(),
{
    if n < s.len() {
        let front = s.drop_last();
        assert(front.take(n) =~= s.take(n));
        assert forall|i: int| 0 <= i < front.len() implies is_digit(#[trigger] front[i]) by {
            assert(is_digit(s[i]));
        }
        digits_value_grows(front, n);
    } else {
        assert(s.take(n) =~= s);
    }
}

/// Why a text is not the notation of a number.
#[derive(Debug, Clone, Copy, PartialEq, Eq, Structural)]
pub enum NumberFault {
    Empty,
    InvalidDigit,
    TooLarge,
}

impl NumberFault {
    /// What the user is told.
    pub fn message(&self) -> (r: &'static str)
        ensures
            r@ == number_message(*self),
    {
        match self {
            NumberFault::Empty => "cannot parse integer from empty string",
            NumberFault::InvalidDigit => "invalid digit found in string",
            NumberFault::TooLarge => "number too large to fit in target type",
        }
    }
}

/// What the user is told of a text that is not the notation of a number.
pub open spec fn number_message(fault: NumberFault) -> Seq<char> {
    match fault {
        NumberFault::Empty => "cannot parse integer from empty string"@,
        NumberFault::InvalidDigit => "invalid digit found in string"@,
        NumberFault::TooLarge => "number too large to fit in target type"@,
    }
}

/// What comes first in `digits`, if anything: a character that is no digit, or the
/// digit with which the number no longer fits.
pub open spec fn digits_fault(digits: Seq<char>) -> Option<NumberFault>
    decreases digits.len(),
{
    if digits.len() == 0 {
        None
    } else {
        match digits_fault(digits.drop_last()) {
            Some(fault) => Some(fault),
            None => if !is_digit(digits.last()) {
                Some(NumberFault::InvalidDigit)
            } else if digits_value(digits) > u32::MAX {
                Some(NumberFault::TooLarge)
            } else {
                None
            },
        }
    }
}

/// Why `s` is not the notation of a number; none if it is one.
pub open spec fn number_fault(s: Seq<char>) -> Option<NumberFault> {
    let digits = match behind_prefix(s, "+"@) {
        Some(rest) => rest,
        None => s,
    };
    if s.len() == 0 {
        Some(NumberFault::Empty)
    } else if digits.len() == 0 {
        Some(NumberFault::InvalidDigit)
    } else {
        digits_fault(digits)
    }
}

/// What is wrong with the beginning of a notation is wrong with all of it.
proof fn first_fault_stays(digits: Seq<char>, n: int)
    requires
        0 <= n <= digits.len(),
        digits_fault(digits.take(n)) is Some,
    ensures
        digits_fault(digits) == digits_fault(digits.take(n)),
    decreases digits.len(),
{
    if n < digits.len() {
        let front = digits.drop_last();
        assert(front.take(n) =~= digits.take(n));
        first_fault_stays(front, n);
    } else {
        assert(digits.take(n) =~= digits);
    }
}

/// `number_in` and `number_fault`, executable.
pub fn read_u32(s: &str) -> (r: Result<u32, NumberFault>)
    ensures
        match r {
            Ok(n) => number_in(s@) == Some(n) && number_fault(s@) is None,
            Err(fault) => number_in(s@) is None && number_fault(s@) == Some(fault),
        },
{
    let chars = chars_of(s);
    if chars.len() == 0 {
        assert(behind_prefix(s@, "+"@) is None) by {
            reveal_strlit("+");
        }
        return Err(NumberFault::Empty);
    }
    let plain = match strip_prefix(s, "+") {
        Some(rest) => chars_of(rest.as_str()),
        None => chars,
    };
    let ghost digits = plain@;
    if plain.len() == 0 {
        return Err(NumberFault::InvalidDigit);
    }
    let mut value: u32 = 0;
    let mut i: usize = 0;
    assert(digits.take(0).len() == 0);
    while i < plain.len()
        invariant
            i <= plain@.len(),
            plain@ == digits,
            s@.len() > 0,
            digits.len() > 0,
            digits == (match behind_prefix(s@, "+"@) {
                Some(rest) => rest,
                None => s@,
            }),
            all_digits(digits.take(i as int)),
            digits_fault(digits.take(i as int)) is None,
            value == digits_value(digits.take(i as int)),
        decreases plain@.len() - i,
    {
        let c: char = plain[i];
        let ghost longer = digits.take(i + 1);
        assert(longer.drop_last() =~= digits.take(i as int));
        assert(longer.last() == c);
        if !('0' <= c && c <= '9') {
            assert(!is_digit(digits[i as int]));
            proof {
                first_fault_stays(digits, i + 1);
            }
            return Err(NumberFault::InvalidDigit);
        }
        assert forall|k: int| 0 <= k < longer.len() implies is_digit(#[trigger] longer[k]) by {
            if k < i {
                assert(is_digit(digits.take(i as int)[k]));
            }
        }
        let d: u32 = c as u32 - 48;
        let wide: u64 = value as u64 * 10 + d as u64;
        if wide > 0xffff_ffff {
            proof {
                first_fault_stays(digits, i + 1);
                if all_digits(digits) {
                    digits_value_grows(digits, i + 1);
                }
            }
            return Err(NumberFault::TooLarge);
        }
        value = wide as u32;
        i = i + 1;
    }
    assert(digits.take(digits.len() as int) =~= digits);
    Ok(value)
}

/// `number_in`, executable.
pub fn parse_u32(s: &str) -> (r: Option<u32>)
    ensures
        r == number_in(s@),
{
    match read_u32(s) {
        Ok(n) => Some(n),
        Err(_) => None,
    }
}

/// The parts of `s` between the separators `c`.
pub open spec fn fields(s: Seq<char>, c: char) -> Seq<Seq<char>>
    decreases s.len(),
{
    match first_at(s, seq![c], 0) {
        Some(i) => if 0 <= i < s.len() {
            seq![s.subrange(0, i)] + fields(s.subrange(i + 1, s.len() as int), c)
        } else {
            seq![s]
        },
        None => seq![s],
    }
}

/// `fields`, executable.
pub fn split_char(s: &str, c: char) -> (r: Vec<String>)
    ensures
        model::views(r@) == fields(s@, c),
    decreases s@.len(),
{
    let mut sep = String::new();
    sep.push(c);
    assert(sep@ =~= seq![c]);
    proof {
        first_at_is_least(s@, seq![c], 0);
    }
    match split_once(s, sep.as_str()) {
        Some((head, rest)) => {
            let mut back = split_char(rest.as_str(), c);
            let mut out: Vec<String> = Vec::new();
            out.push(head);
            out.append(&mut back);
            assert(model::views(out@) =~= fields(s@, c));
            out
        },
        None => {
            let mut out: Vec<String> = Vec::new();
            out.push(s.to_owned());
            assert(model::views(out@) =~= seq![s@]);
            out
        },
    }
}

/// A line without the carriage return at its end.
pub open spec fn without_return(line: Seq<char>) -> Seq<char> {
    if line.len() > 0 && line.last() == '\r' {
        line.drop_last()
    } else {
        line
    }
}

/// The lines of `s`: what stands before each line feed, without a carriage
/// return, and what stands behind the last one, unless that is empty.
pub open spec fn lines(s: Seq<char>) -> Seq<Seq<char>>
    decreases s.len(),
{
    if s.len() == 0 {
        Seq::empty()
    } else {
        match first_at(s, seq!['\n'], 0) {
            Some(i) => if 0 <= i < s.len() {
                seq![without_return(s.subrange(0, i))] + lines(s.subrange(i + 1, s.len() as int))
            } else {
                seq![s]
            },
            None => seq![s],
        }
    }
}

/// `lines`, executable.
pub fn lines_of(s: &str) -> (r: Vec<String>)
    ensures
        model::views(r@) == lines(s@),
    decreases s@.len(),
{
    if s.is_empty() {
        let out: Vec<String> = Vec::new();
        assert(model::views(out@) =~= lines(s@));
        return out;
    }
    let mut sep = String::new();
    sep.push('\n');
    assert(sep@ =~= seq!['\n']);
    proof {
        first_at_is_least(s@, seq!['\n'], 0);
    }
    match split_once(s, sep.as_str()) {
        Some((head, rest)) => {
            let chars = chars_of(head.as_str());
            let total: usize = chars.len();
            let line = if total > 0 && chars[total - 1] == '\r' {
                string_between(chars.as_slice(), 0, total - 1)
            } else {
                head
            };
            let mut back = lines_of(rest.as_str());
            let mut out: Vec<String> = Vec::new();
            out.push(line);
            out.append(&mut back);
            assert(model::views(out@) =~= lines(s@));
            out
        },
        None => {
            let mut out: Vec<String> = Vec::new();
            out.push(s.to_owned());
            assert(model::views(out@) =~= seq![s@]);
            out
        },
    }
}

/// `s` without the characters `c` at its start.
pub open spec fn without_leading(s: Seq<char>, c: char) -> Seq<char>
    decreases s.len(),
{
    if s.len() > 0 && s[0] == c {
        without_leading(s.skip(1), c)
    } else {
        s
    }
}

/// `s` without the characters `c` at both ends.
pub fn trim_char(s: &str, c: char) -> (r: String)
    ensures
        r@ == without_trailing(without_leading(s@, c), c),
{
    let chars = chars_of(s);
    let total: usize = chars.len();
    let mut i: usize = 0;
    assert(chars@.skip(0) =~= chars@);
    while i < total && chars[i] == c
        invariant
            i <= total,
            total == chars@.len(),
            chars@ == s@,
            without_leading(s@, c) == without_leading(s@.skip(i as int), c),
        decreases total - i,
    {
        assert(s@.skip(i as int).skip(1) =~= s@.skip(i + 1));
        i = i + 1;
    }
    assert(without_leading(s@.skip(i as int), c) == s@.skip(i as int));
    let rest = string_between(chars.as_slice(), i, total);
    assert(rest@ =~= s@.skip(i as int));
    trim_end_char(rest.as_str(), c)
}

/// The UTF-16 code units of a character.
pub open spec fn utf16_of(c: char) -> Seq<u16> {
    let n = c as u32;
    if n < 0x10000 {
        seq![n as u16]
    } else {
        seq![
            (0xd800 + (n - 0x10000) / 0x400) as u16,
            (0xdc00 + (n - 0x10000) % 0x400) as u16,
        ]
    }
}

/// The UTF-16 code units of `s`.
pub open spec fn utf16(s: Seq<char>) -> Seq<u16>
    decreases s.len(),
{
    if s.len() == 0 {
        Seq::empty()
    } else {
        utf16(s.drop_last()) + utf16_of(s.last())
    }
}

/// `s` in UTF-16, with a zero at its end.
pub fn wide(s: &str) -> (r: Vec<u16>)
    ensures
        r@ == utf16(s@).push(0),
{
    let chars = chars_of(s);
    let mut out: Vec<u16> = Vec::new();
    let mut i: usize = 0;
    assert(s@.take(0).len() == 0);
    while i < chars.len()
        invariant
            i <= chars@.len(),
            chars@ == s@,
            out@ == utf16(s@.take(i as int)),
        decreases chars@.len() - i,
    {
        let ghost longer = s@.take(i + 1);
        let ghost before = out@;
        assert(longer.drop_last() =~= s@.take(i as int));
        assert(longer.last() == chars@[i as int]);
        let n: u32 = chars[i] as u32;
        if n < 0x10000 {
            out.push(n as u16);
        } else {
            let m: u32 = n - 0x10000;
            out.push((0xd800 + m / 0x400) as u16);
            out.push((0xdc00 + m % 0x400) as u16);
        }
        assert(out@ =~= before + utf16_of(chars@[i as int]));
        i = i + 1;
    }
    assert(s@.take(s@.len() as int) =~= s@);
    out.push(0);
    out
}

/// The words of `s`, with one space between each two: white space at the ends is
/// left out, and every other run of it becomes a space.
pub open spec fn squeezed(s: Seq<char>) -> Seq<char>
    decreases s.len(),
{
    if s.len() == 0 {
        Seq::empty()
    } else {
        let before = squeezed(s.drop_last());
        let c = s.last();
        if white(c) {
            before
        } else if before.len() > 0 && white(s[s.len() - 2]) {
            before.push(' ').push(c)
        } else {
            before.push(c)
        }
    }
}

/// `squeezed`, executable.
pub fn squeeze(s: &str) -> (r: String)
    ensures
        r@ == squeezed(s@),
{
    let chars = chars_of(s);
    let mut out = String::new();
    let mut gap = false;
    let mut empty = true;
    let mut i: usize = 0;
    assert(squeezed(s@.take(0)) =~= Seq::<char>::empty());
    while i < chars.len()
        invariant
            i <= chars@.len(),
            chars@ == s@,
            out@ == squeezed(s@.take(i as int)),
            empty == (out@.len() == 0),
            i > 0 ==> gap == white(s@[i - 1]),
            i == 0 ==> empty,
        decreases chars@.len() - i,
    {
        let c = chars[i];
        proof {
            let longer = s@.take(i + 1);
            assert(longer.drop_last() =~= s@.take(i as int));
            assert(longer.last() == c);
            if i > 0 {
                assert(longer[longer.len() - 2] == s@[i - 1]);
            }
        }
        if is_white(c) {
            gap = true;
        } else {
            if !empty && gap {
                out.push(' ');
            }
            out.push(c);
            gap = false;
            empty = false;
        }
        i = i + 1;
    }
    assert(s@.take(s@.len() as int) =~= s@);
    out
}

/// Squeezing leaves nothing exactly of a blank text, and never white space at an
/// end.
pub proof fn squeezed_is_tight(s: Seq<char>)
    ensures
        squeezed(s).len() == 0 <==> blank(s),
        squeezed(s).len() > 0 ==> !white(squeezed(s)[0]) && !white(squeezed(s).last()),
    decreases s.len(),
{
    if s.len() > 0 {
        let front = s.drop_last();
        squeezed_is_tight(front);
        assert(blank(s) <==> blank(front) && white(s.last())) by {
            if blank(s) {
                assert forall|i: int| 0 <= i < front.len() implies white(#[trigger] front[i]) by {
                    assert(white(s[i]));
                }
                assert(white(s[s.len() - 1]));
            }
            if blank(front) && white(s.last()) {
                assert forall|i: int| 0 <= i < s.len() implies white(#[trigger] s[i]) by {
                    if i < front.len() {
                        assert(white(front[i]));
                    }
                }
            }
        }
    }
}

/// The first `n` characters of `s`, or all of it.
pub fn first_chars(s: &str, n: usize) -> (r: String)
    ensures
        r@ == s@.take(if s@.len() < n {
            s@.len() as int
        } else {
            n as int
        }),
{
    let chars = chars_of(s);
    let to: usize = if chars.len() < n {
        chars.len()
    } else {
        n
    };
    let out = string_between(chars.as_slice(), 0, to);
    assert(out@ =~= s@.take(to as int));
    out
}

/// How many characters `s` holds.
pub fn count(s: &str) -> (r: usize)
    ensures
        r == s@.len(),
{
    chars_of(s).len()
}

} // verus!
