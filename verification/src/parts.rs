//! Taking text apart.
use vstd::prelude::*;
use vstd::string::*;

use crate::model::{opt, views};
use crate::text::{chars_of, is_white_space, text_between, white_space};

verus! {

/// Where `c` first occurs in `s`; the length of `s` where it does not.
pub open spec fn index_of(s: Seq<char>, c: char) -> int
    decreases s.len(),
{
    if s.len() == 0 || s[0] == c {
        0
    } else {
        1 + index_of(s.drop_first(), c)
    }
}

/// What [`index_of`] says.
pub proof fn lemma_index_of(s: Seq<char>, c: char)
    ensures
        0 <= index_of(s, c) <= s.len(),
        index_of(s, c) < s.len() ==> s[index_of(s, c)] == c,
        forall|i: int| 0 <= i < index_of(s, c) ==> s[i] != c,
    decreases s.len(),
{
    if s.len() > 0 && s[0] != c {
        let rest = s.drop_first();
        lemma_index_of(rest, c);
        assert forall|i: int| 0 <= i < index_of(s, c) implies s[i] != c by {
            if i > 0 {
                assert(rest[i - 1] == s[i]);
            }
        }
        if index_of(s, c) < s.len() {
            assert(rest[index_of(rest, c)] == s[index_of(s, c)]);
        }
    }
}

/// Only the first occurrence is where [`index_of`] says.
pub proof fn lemma_index_is(s: Seq<char>, c: char, i: int)
    requires
        0 <= i <= s.len(),
        i < s.len() ==> s[i] == c,
        forall|j: int| 0 <= j < i ==> s[j] != c,
    ensures
        index_of(s, c) == i,
{
    lemma_index_of(s, c);
    let k = index_of(s, c);
    if k < i {
        assert(s[k] != c);
    }
}

fn find_char(chars: &Vec<char>, from: usize, c: char) -> (r: usize)
    requires
        from <= chars@.len(),
    ensures
        from <= r <= chars@.len(),
        r - from == index_of(chars@.skip(from as int), c),
{
    let ghost rest = chars@.skip(from as int);
    let mut i: usize = from;
    while i < chars.len() && chars[i] != c
        invariant
            from <= i <= chars@.len(),
            rest == chars@.skip(from as int),
            forall|j: int| 0 <= j < i - from ==> rest[j] != c,
        decreases chars@.len() - i,
    {
        assert(rest[i - from] == chars@[i as int]);
        i += 1;
    }
    proof {
        if i < chars@.len() {
            assert(rest[i - from] == chars@[i as int]);
        }
        lemma_index_is(rest, c, i - from);
    }
    i
}

/// The parts of `s` before and after the first `c`.
pub open spec fn cut_at(s: Seq<char>, c: char) -> Option<(Seq<char>, Seq<char>)> {
    let i = index_of(s, c);
    if i < s.len() {
        Some((s.take(i), s.skip(i + 1)))
    } else {
        None
    }
}

/// The parts of `s` before and after the first `c`.
pub fn split_once(s: &str, c: char) -> (r: Option<(String, String)>)
    ensures
        match cut_at(s@, c) {
            Some((head, tail)) => r matches Some((h, t)) && h@ == head && t@ == tail,
            None => r is None,
        },
{
    let chars = chars_of(s);
    assert(chars@.skip(0) =~= chars@);
    let i: usize = find_char(&chars, 0, c);
    if i < chars.len() {
        let head = text_between(&chars, 0, i);
        let tail = text_between(&chars, i + 1, chars.len());
        assert(head@ =~= s@.take(i as int));
        assert(tail@ =~= s@.skip(i + 1));
        Some((head, tail))
    } else {
        None
    }
}

/// Where `c` last occurs in `s`, if it does.
pub open spec fn last_index_of(s: Seq<char>, c: char) -> Option<int>
    decreases s.len(),
{
    if s.len() == 0 {
        None
    } else if s.last() == c {
        Some(s.len() - 1)
    } else {
        last_index_of(s.drop_last(), c)
    }
}

/// What [`last_index_of`] says.
pub proof fn lemma_last_index_of(s: Seq<char>, c: char)
    ensures
        match last_index_of(s, c) {
            Some(i) => 0 <= i < s.len() && s[i] == c && forall|j: int| i < j < s.len() ==> s[j] != c,
            None => forall|j: int| 0 <= j < s.len() ==> s[j] != c,
        },
    decreases s.len(),
{
    if s.len() > 0 && s.last() != c {
        lemma_last_index_of(s.drop_last(), c);
        let before = s.drop_last();
        assert forall|j: int| 0 <= j < before.len() implies before[j] == s[j] by {}
    }
}

/// The parts of `s` before and after the last `c`.
pub fn rsplit_once(s: &str, c: char) -> (r: Option<(String, String)>)
    ensures
        match last_index_of(s@, c) {
            Some(i) => r matches Some((h, t)) && h@ == s@.take(i) && t@ == s@.skip(i + 1),
            None => r is None,
        },
{
    let chars = chars_of(s);
    let mut i: usize = chars.len();
    assert(chars@.take(i as int) =~= chars@);
    while i > 0
        invariant
            chars@ == s@,
            i <= chars@.len(),
            last_index_of(s@, c) == last_index_of(s@.take(i as int), c),
        decreases i,
    {
        assert(s@.take(i as int).drop_last() =~= s@.take(i - 1));
        assert(s@.take(i as int).last() == s@[i - 1]);
        if chars[i - 1] == c {
            let head = text_between(&chars, 0, i - 1);
            let tail = text_between(&chars, i, chars.len());
            assert(head@ =~= s@.take(i - 1));
            assert(tail@ =~= s@.skip(i as int));
            return Some((head, tail));
        }
        i -= 1;
    }
    None
}

/// A line without the carriage return at its end.
pub open spec fn without_return(line: Seq<char>) -> Seq<char> {
    if line.len() > 0 && line.last() == '\r' {
        line.drop_last()
    } else {
        line
    }
}

/// The lines of `s`: each ends with a line feed, or a carriage return and a
/// line feed, which do not belong to it; the last may end without.
pub open spec fn lines_of(s: Seq<char>) -> Seq<Seq<char>>
    decreases s.len(),
    via lines_of_decreases
{
    if s.len() == 0 {
        seq![]
    } else {
        let i = index_of(s, '\n');
        if i < s.len() {
            seq![without_return(s.take(i))] + lines_of(s.skip(i + 1))
        } else {
            seq![s]
        }
    }
}

#[via_fn]
proof fn lines_of_decreases(s: Seq<char>) {
    lemma_index_of(s, '\n');
}

/// The lines of `s`.
pub fn lines(s: &str) -> (r: Vec<String>)
    ensures
        views(r@) == lines_of(s@),
{
    let chars = chars_of(s);
    let mut out: Vec<String> = Vec::new();
    let mut from: usize = 0;
    assert(chars@.skip(0) =~= chars@);
    assert(views(out@) + lines_of(s@) =~= lines_of(s@));
    while from < chars.len()
        invariant
            chars@ == s@,
            from <= chars@.len(),
            views(out@) + lines_of(s@.skip(from as int)) == lines_of(s@),
        decreases chars@.len() - from,
    {
        let ghost rest = s@.skip(from as int);
        let ghost before = views(out@);
        let end: usize = find_char(&chars, from, '\n');
        if end < chars.len() {
            let stop: usize = if end > from && chars[end - 1] == '\r' {
                end - 1
            } else {
                end
            };
            let line = text_between(&chars, from, stop);
            let ghost this = line@;
            proof {
                assert(rest.take(end - from) =~= s@.subrange(from as int, end as int));
                assert(this =~= without_return(rest.take(end - from)));
                assert(rest.skip(end - from + 1) =~= s@.skip(end + 1));
            }
            out.push(line);
            assert(views(out@) =~= before.push(this));
            assert(before + (seq![this] + lines_of(s@.skip(end + 1))) =~= views(out@) + lines_of(
                s@.skip(end + 1),
            ));
            from = end + 1;
        } else {
            let line = text_between(&chars, from, end);
            let ghost this = line@;
            assert(this =~= rest);
            out.push(line);
            assert(views(out@) =~= before.push(this));
            from = end;
            assert(s@.skip(from as int) =~= seq![]);
            assert(before + seq![this] =~= views(out@) + lines_of(s@.skip(from as int)));
        }
    }
    assert(s@.skip(from as int) =~= seq![]);
    assert(views(out@) + lines_of(s@.skip(from as int)) =~= views(out@));
    out
}

/// The first word of `s`: what comes before any white space, when leading
/// white space is left out.
pub open spec fn first_word(s: Seq<char>) -> Option<Seq<char>>
    decreases s.len(),
{
    if s.len() == 0 {
        None
    } else if is_white_space(s[0]) {
        first_word(s.drop_first())
    } else {
        Some(leading_word(s))
    }
}

/// What comes before any white space.
pub open spec fn leading_word(s: Seq<char>) -> Seq<char>
    decreases s.len(),
{
    if s.len() == 0 || is_white_space(s[0]) {
        seq![]
    } else {
        seq![s[0]] + leading_word(s.drop_first())
    }
}

/// The first word of `s`.
pub fn word(s: &str) -> (r: Option<String>)
    ensures
        opt(r) == first_word(s@),
{
    let chars = chars_of(s);
    let mut from: usize = 0;
    assert(s@.skip(0) =~= s@);
    while from < chars.len() && white_space(chars[from])
        invariant
            chars@ == s@,
            from <= chars@.len(),
            first_word(s@) == first_word(s@.skip(from as int)),
        decreases chars@.len() - from,
    {
        assert(s@.skip(from as int).drop_first() =~= s@.skip(from + 1));
        from += 1;
    }
    if from == chars.len() {
        return None;
    }
    let ghost rest = s@.skip(from as int);
    let mut to: usize = from;
    assert(s@.subrange(from as int, from as int) + leading_word(rest) =~= leading_word(rest));
    while to < chars.len() && !white_space(chars[to])
        invariant
            chars@ == s@,
            from <= to <= chars@.len(),
            rest == s@.skip(from as int),
            s@.subrange(from as int, to as int) + leading_word(s@.skip(to as int)) == leading_word(
                rest,
            ),
        decreases chars@.len() - to,
    {
        assert(s@.skip(to as int).drop_first() =~= s@.skip(to + 1));
        assert(s@.skip(to as int)[0] == s@[to as int]);
        assert(s@.subrange(from as int, to as int) + (seq![s@[to as int]] + leading_word(
            s@.skip(to + 1),
        )) =~= s@.subrange(from as int, to + 1) + leading_word(s@.skip(to + 1)));
        to += 1;
    }
    assert(leading_word(s@.skip(to as int)) =~= seq![]);
    let r = text_between(&chars, from, to);
    assert(r@ + Seq::<char>::empty() =~= r@);
    Some(r)
}

/// `s` with each `c` replaced by `by`.
pub open spec fn replaced_char(s: Seq<char>, c: char, by: Seq<char>) -> Seq<char>
    decreases s.len(),
{
    if s.len() == 0 {
        seq![]
    } else {
        replaced_char(s.drop_last(), c, by) + if s.last() == c {
            by
        } else {
            seq![s.last()]
        }
    }
}

/// `s` with each `c` replaced by `by`.
pub fn replace_char(s: &str, c: char, by: &str) -> (r: String)
    ensures
        r@ == replaced_char(s@, c, by@),
{
    let chars = chars_of(s);
    let mut out = String::new();
    let mut i: usize = 0;
    assert(out@ =~= seq![]);
    while i < chars.len()
        invariant
            chars@ == s@,
            i <= chars@.len(),
            out@ == replaced_char(s@.take(i as int), c, by@),
        decreases chars@.len() - i,
    {
        assert(s@.take(i + 1).drop_last() =~= s@.take(i as int));
        assert(s@.take(i + 1).last() == s@[i as int]);
        let ghost before = out@;
        if chars[i] == c {
            out.append(by);
        } else {
            out.push(chars[i]);
            assert(out@ =~= before + seq![s@[i as int]]);
        }
        i += 1;
    }
    assert(s@.take(i as int) =~= s@);
    out
}

/// An ASCII digit.
pub open spec fn is_digit(c: char) -> bool {
    '0' <= c && c <= '9'
}

/// Text of nothing but digits.
pub open spec fn all_digits(s: Seq<char>) -> bool {
    forall|i: int| 0 <= i < s.len() ==> is_digit(#[trigger] s[i])
}

/// The number that digits stand for.
pub open spec fn digits_value(s: Seq<char>) -> nat
    decreases s.len(),
{
    if s.len() == 0 {
        0
    } else {
        digits_value(s.drop_last()) * 10 + (s.last() as u32 - '0' as u32) as nat
    }
}

/// The number that `s` stands for: digits, with or without a plus sign, of a
/// number of 32 bits.
pub open spec fn parsed_u32(s: Seq<char>) -> Option<u32> {
    let digits = if s.len() > 0 && s[0] == '+' {
        s.drop_first()
    } else {
        s
    };
    if digits.len() > 0 && all_digits(digits) && digits_value(digits) <= u32::MAX {
        Some(digits_value(digits) as u32)
    } else {
        None
    }
}

proof fn lemma_digits_value_grows(s: Seq<char>, i: int)
    requires
        0 <= i <= s.len(),
        all_digits(s),
    ensures
        digits_value(s.take(i)) <= digits_value(s),
    decreases s.len(),
{
    if i == s.len() {
        assert(s.take(i) =~= s);
    } else {
        let before = s.drop_last();
        assert(before.take(i) =~= s.take(i));
        assert(all_digits(before)) by {
            assert forall|j: int| 0 <= j < before.len() implies is_digit(#[trigger] before[j]) by {
                assert(before[j] == s[j]);
            }
        }
        lemma_digits_value_grows(before, i);
        assert(is_digit(s[s.len() - 1]));
    }
}

/// The number that `s` stands for.
pub fn parse_u32(s: &str) -> (r: Option<u32>)
    ensures
        r == parsed_u32(s@),
{
    let chars = chars_of(s);
    let from: usize = if chars.len() > 0 && chars[0] == '+' {
        1
    } else {
        0
    };
    if from == chars.len() {
        return None;
    }
    let ghost digits = s@.skip(from as int);
    assert(from == 1 ==> digits =~= s@.drop_first());
    assert(from == 0 ==> digits =~= s@);
    let mut value: u32 = 0;
    let mut i: usize = from;
    assert(digits.take(0) =~= seq![]);
    while i < chars.len()
        invariant
            chars@ == s@,
            from <= i <= chars@.len(),
            digits == s@.skip(from as int),
            digits.len() > 0,
            parsed_u32(s@) == if all_digits(digits) && digits_value(digits) <= u32::MAX {
                Some(digits_value(digits) as u32)
            } else {
                None
            },
            forall|j: int| 0 <= j < i - from ==> is_digit(#[trigger] digits[j]),
            value == digits_value(digits.take(i - from)),
        decreases chars@.len() - i,
    {
        let c: char = chars[i];
        assert(digits[i - from] == c);
        if !('0' <= c && c <= '9') {
            assert(!is_digit(digits[i - from]));
            return None;
        }
        let d: u32 = c as u32 - '0' as u32;
        proof {
            assert(digits.take(i - from + 1).drop_last() =~= digits.take(i - from));
            assert(digits.take(i - from + 1).last() == c);
            if all_digits(digits) {
                lemma_digits_value_grows(digits, i - from + 1);
            }
        }
        let wider: u64 = value as u64 * 10 + d as u64;
        if wider > 0xffff_ffff {
            return None;
        }
        value = wider as u32;
        i += 1;
    }
    assert(digits.take(i - from) =~= digits);
    Some(value)
}

} // verus!
