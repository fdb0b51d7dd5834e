//! How text and numbers are read and written.
use vstd::prelude::*;

use crate::bytes::{be16, be32, from_be16, from_be32, signed, twos};
use crate::parts::{
    cut_at, digits_value, first_word, last_index_of, leading_word, lemma_index_is,
    lemma_last_index_of, lines_of, parsed_u32, replaced_char,
};
use crate::text::{
    after_prefix, decimal_text, has_prefix, hex_text, is_blank, is_white_space, lemma_decimal_text,
    lower_text, trim_end, trim_start, trim_text,
};

verus! {

/// White space is no visible ASCII character; the space, the tabulator, the
/// line feed and the carriage return are white space.
pub proof fn law_visible_characters_are_not_white(c: char)
    ensures
        '!' <= c <= '~' ==> !is_white_space(c),
        is_white_space(' '),
        is_white_space('\t'),
        is_white_space('\n'),
        is_white_space('\r'),
        is_white_space('\u{a0}'),
        is_white_space('\u{3000}'),
        c as u32 > 0x3000 ==> !is_white_space(c),
{
}

/// Text around which there is white space loses exactly that.
pub proof fn law_trimming(before: Seq<char>, text: Seq<char>, after: Seq<char>)
    requires
        is_blank(before),
        is_blank(after),
        text.len() > 0,
        !is_white_space(text[0]),
        !is_white_space(text.last()),
    ensures
        trim_text(before + text + after) == text,
{
    lemma_trim_start(before, text + after);
    assert(before + text + after =~= before + (text + after));
    lemma_trim_end(text, after);
}

proof fn lemma_trim_start(before: Seq<char>, text: Seq<char>)
    requires
        is_blank(before),
        text.len() > 0,
        !is_white_space(text[0]),
    ensures
        trim_start(before + text) == text,
    decreases before.len(),
{
    if before.len() == 0 {
        assert(before + text =~= text);
    } else {
        let rest = before.drop_first();
        assert forall|i: int| 0 <= i < rest.len() implies is_white_space(#[trigger] rest[i]) by {
            assert(rest[i] == before[i + 1]);
        }
        assert(is_white_space(before[0]));
        assert((before + text).drop_first() =~= rest + text);
        lemma_trim_start(rest, text);
    }
}

proof fn lemma_trim_end(text: Seq<char>, after: Seq<char>)
    requires
        is_blank(after),
        text.len() > 0,
        !is_white_space(text.last()),
    ensures
        trim_end(text + after) == text,
    decreases after.len(),
{
    if after.len() == 0 {
        assert(text + after =~= text);
    } else {
        let most = after.drop_last();
        assert forall|i: int| 0 <= i < most.len() implies is_white_space(#[trigger] most[i]) by {
            assert(most[i] == after[i]);
        }
        assert(is_white_space(after[after.len() - 1]));
        assert((text + after).drop_last() =~= text + most);
        lemma_trim_end(text, most);
    }
}

/// A number in decimal stands for itself: it is read back, and every digit is
/// the character of that digit.
pub proof fn law_decimal_is_read_back(n: nat)
    ensures
        digits_value(decimal_text(n)) == n,
        n < 10 ==> decimal_text(n).len() == 1 && decimal_text(n)[0] as u32 == 48 + n,
        n >= 10 ==> decimal_text(n)[0] != '0',
        n <= u32::MAX ==> parsed_u32(decimal_text(n)) == Some(n as u32),
    decreases n,
{
    lemma_decimal_text(n);
    if n < 10 {
        let s = decimal_text(n);
        assert(s.drop_last() =~= seq![]);
        assert(digits_value(s.drop_last()) == 0);
    } else {
        law_decimal_is_read_back(n / 10);
        let s = decimal_text(n);
        assert(s.drop_last() =~= decimal_text(n / 10));
        assert(s.last() as u32 == 48 + n % 10);
        lemma_decimal_text(n / 10);
        assert(s[0] == decimal_text(n / 10)[0]);
    }
    assert(decimal_text(n)[0] != '+');
}

/// Text of digits with a digit more stands for ten times as much, and that
/// digit.
pub proof fn law_digits_count(s: Seq<char>, d: char)
    requires
        '0' <= d <= '9',
    ensures
        digits_value(s.push(d)) == digits_value(s) * 10 + (d as u32 - 48),
        digits_value(Seq::<char>::empty()) == 0,
{
    assert(s.push(d).drop_last() =~= s);
}

/// The value of a hexadecimal digit.
pub open spec fn hex_digit_value(c: char) -> int {
    if '0' <= c <= '9' {
        c as int - 48
    } else {
        c as int - 97 + 10
    }
}

/// Each byte is two lower-case hexadecimal digits, the high one first.
pub proof fn law_hex_is_read_back(bytes: Seq<u8>, i: int)
    requires
        0 <= i < bytes.len(),
    ensures
        ({
            let high = hex_text(bytes)[2 * i];
            let low = hex_text(bytes)[2 * i + 1];
            &&& '0' <= high <= '9' || 'a' <= high <= 'f'
            &&& '0' <= low <= '9' || 'a' <= low <= 'f'
            &&& hex_digit_value(high) * 16 + hex_digit_value(low) == bytes[i]
            &&& hex_text(bytes).len() == 2 * bytes.len()
        }),
{
    assert((2 * i) / 2 == i && (2 * i) % 2 == 0);
    assert((2 * i + 1) / 2 == i && (2 * i + 1) % 2 == 1);
}

/// Upper-case ASCII letters become lower-case, and nothing else changes.
pub proof fn law_lower_case(s: Seq<char>, i: int)
    requires
        0 <= i < s.len(),
    ensures
        lower_text(s).len() == s.len(),
        'A' <= s[i] <= 'Z' ==> lower_text(s)[i] as u32 == s[i] as u32 + 32,
        !('A' <= s[i] <= 'Z') ==> lower_text(s)[i] == s[i],
{
}

/// The lines of text are what stands between line feeds, without a carriage
/// return at the end.
pub proof fn law_lines(line: Seq<char>, rest: Seq<char>)
    requires
        forall|i: int| 0 <= i < line.len() ==> line[i] != '\n' && line[i] != '\r',
    ensures
        lines_of(line + seq!['\n'] + rest) == seq![line] + lines_of(rest),
        lines_of(line + seq!['\r', '\n'] + rest) == seq![line] + lines_of(rest),
        line.len() > 0 ==> lines_of(line) == seq![line],
        lines_of(Seq::<char>::empty()) == Seq::<Seq<char>>::empty(),
{
    let one = line + seq!['\n'] + rest;
    let n = line.len() as int;
    lemma_index_is(one, '\n', n);
    assert(one.take(n) =~= line);
    assert(one.skip(n + 1) =~= rest);
    let two = line + seq!['\r', '\n'] + rest;
    lemma_index_is(two, '\n', n + 1);
    assert(two.take(n + 1) =~= line.push('\r'));
    assert(two.take(n + 1).drop_last() =~= line);
    assert(two.skip(n + 2) =~= rest);
    lemma_index_is(line, '\n', n);
}

/// The first word of text is what stands before white space, behind white
/// space at the beginning.
pub proof fn law_first_word(before: Seq<char>, word: Seq<char>, rest: Seq<char>)
    requires
        is_blank(before),
        word.len() > 0,
        forall|i: int| 0 <= i < word.len() ==> !is_white_space(#[trigger] word[i]),
        rest.len() == 0 || is_white_space(rest[0]),
    ensures
        first_word(before + word + rest) == Some(word),
    decreases before.len(),
{
    let s = before + word + rest;
    if before.len() == 0 {
        assert(s =~= word + rest);
        assert(!is_white_space(word[0]));
        lemma_leading_word(word, rest);
    } else {
        let less = before.drop_first();
        assert forall|i: int| 0 <= i < less.len() implies is_white_space(#[trigger] less[i]) by {
            assert(less[i] == before[i + 1]);
        }
        assert(is_white_space(before[0]));
        assert(s.drop_first() =~= less + word + rest);
        law_first_word(less, word, rest);
    }
}

proof fn lemma_leading_word(word: Seq<char>, rest: Seq<char>)
    requires
        forall|i: int| 0 <= i < word.len() ==> !is_white_space(#[trigger] word[i]),
        rest.len() == 0 || is_white_space(rest[0]),
    ensures
        leading_word(word + rest) == word,
    decreases word.len(),
{
    if word.len() == 0 {
        assert(word + rest =~= rest);
    } else {
        let less = word.drop_first();
        assert forall|i: int| 0 <= i < less.len() implies !is_white_space(#[trigger] less[i]) by {
            assert(less[i] == word[i + 1]);
        }
        assert(!is_white_space(word[0]));
        assert((word + rest).drop_first() =~= less + rest);
        lemma_leading_word(less, rest);
        assert(seq![word[0]] + less =~= word);
    }
}

/// One character is replaced wherever it stands, and no other is.
pub proof fn law_replacing(s: Seq<char>, c: char, d: char)
    ensures
        replaced_char(s, c, seq![d]).len() == s.len(),
        forall|i: int|
            0 <= i < s.len() ==> #[trigger] replaced_char(s, c, seq![d])[i] == if s[i] == c {
                d
            } else {
                s[i]
            },
    decreases s.len(),
{
    if s.len() > 0 {
        law_replacing(s.drop_last(), c, d);
    }
}

/// What follows a prefix is found behind it, and only behind it.
pub proof fn law_prefixes(prefix: Seq<char>, rest: Seq<char>, other: Seq<char>)
    ensures
        after_prefix(prefix + rest, prefix) == Some(rest),
        has_prefix(prefix + rest, prefix),
        after_prefix(other, prefix) matches Some(tail) ==> other == prefix + tail,
{
    assert((prefix + rest).subrange(0, prefix.len() as int) =~= prefix);
    assert((prefix + rest).skip(prefix.len() as int) =~= rest);
    if has_prefix(other, prefix) {
        assert(other =~= prefix + other.skip(prefix.len() as int));
    }
}

/// Text is cut at the first character of a kind; text without it is not cut.
pub proof fn law_cutting(head: Seq<char>, c: char, tail: Seq<char>)
    requires
        forall|i: int| 0 <= i < head.len() ==> head[i] != c,
    ensures
        cut_at(head + seq![c] + tail, c) == Some((head, tail)),
        cut_at(head, c) is None,
{
    let n = head.len() as int;
    let s = head + seq![c] + tail;
    lemma_index_is(s, c, n);
    assert(s.take(n) =~= head);
    assert(s.skip(n + 1) =~= tail);
    lemma_index_is(head, c, n);
}

/// The last character of a kind is where no other follows.
pub proof fn law_last_of_a_kind(head: Seq<char>, c: char, tail: Seq<char>)
    requires
        forall|i: int| 0 <= i < tail.len() ==> tail[i] != c,
    ensures
        last_index_of(head + seq![c] + tail, c) == Some(head.len() as int),
        last_index_of(tail, c) is None,
{
    let s = head + seq![c] + tail;
    lemma_last_index_of(s, c);
    lemma_last_index_of(tail, c);
    assert(s[head.len() as int] == c);
    let i = last_index_of(s, c)->Some_0;
    if i > head.len() {
        assert(s[i] == tail[i - head.len() - 1]);
    }
}

/// Numbers are written with their high byte first, and read the same way.
pub proof fn law_numbers_in_bytes(n: nat, bytes: Seq<u8>)
    ensures
        be16(n).len() == 2,
        n < 0x1_0000 ==> be16(n)[0] * 256 + be16(n)[1] == n,
        be32(n).len() == 4,
        n < 0x1_0000_0000 ==> be32(n)[0] * 0x100_0000 + be32(n)[1] * 0x1_0000 + be32(n)[2] * 256
            + be32(n)[3] == n,
        bytes.len() == 2 ==> from_be16(bytes) == bytes[0] * 256 + bytes[1],
        bytes.len() == 4 ==> from_be32(bytes) == bytes[0] * 0x100_0000 + bytes[1] * 0x1_0000
            + bytes[2] * 256 + bytes[3],
{
}

/// A signed number and its bits determine each other: numbers from zero on
/// are written as they are, and negative ones beyond half of all.
pub proof fn law_signed_numbers(v: i32)
    ensures
        signed(twos(v)) == v,
        v >= 0 ==> twos(v) == v,
        v < 0 ==> twos(v) == v + 0x1_0000_0000,
{
}

} // verus!
