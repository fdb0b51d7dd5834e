//! Random identifiers and the text forms of UUIDs.
use vstd::prelude::*;
use vstd::utf8::*;

use crate::text::{hex_char, hex_text, is_blank, is_white_space, lower_text};

verus! {

/// A hexadecimal digit in either case.
pub open spec fn is_hex_digit(c: char) -> bool {
    ||| '0' <= c && c <= '9'
    ||| 'a' <= c && c <= 'f'
    ||| 'A' <= c && c <= 'F'
}

/// Where the hyphens of a hyphenated UUID stand.
pub open spec fn hyphen_at(i: int) -> bool {
    i == 8 || i == 13 || i == 18 || i == 23
}

/// 32 hexadecimal digits in groups of 8, 4, 4, 4 and 12.
pub open spec fn is_hyphenated(s: Seq<char>) -> bool {
    &&& s.len() == 36
    &&& forall|i: int|
        0 <= i < 36 ==> if hyphen_at(i) {
            #[trigger] s[i] == '-'
        } else {
            is_hex_digit(s[i])
        }
}

/// The text forms of a UUID: 32 digits, the hyphenated form, the hyphenated
/// form in braces, and the hyphenated form as a URN.
pub open spec fn is_uuid_text(s: Seq<char>) -> bool {
    ||| s.len() == 32 && forall|i: int| 0 <= i < 32 ==> is_hex_digit(#[trigger] s[i])
    ||| is_hyphenated(s)
    ||| s.len() == 38 && s[0] == '{' && s[37] == '}' && is_hyphenated(s.subrange(1, 37))
    ||| s.len() == 45 && lower_text(s.take(9)) == "urn:uuid:"@ && is_hyphenated(s.skip(9))
}

/// The hyphenated lower-case text of a UUID.
pub open spec fn hyphenated_text(bytes: Seq<u8>) -> Seq<char> {
    hex_text(bytes.subrange(0, 4)) + seq!['-'] + hex_text(bytes.subrange(4, 6)) + seq!['-']
        + hex_text(bytes.subrange(6, 8)) + seq!['-'] + hex_text(bytes.subrange(8, 10)) + seq!['-']
        + hex_text(bytes.subrange(10, 16))
}

/// The bytes of a version 4 UUID: the version and variant bits are fixed.
pub open spec fn is_random_uuid(bytes: Seq<u8>) -> bool {
    bytes.len() == 16 && bytes[6] / 16 == 4 && bytes[8] / 64 == 2
}

/// `Uuid::new_v4` draws random bytes and sets the version and variant bits.
#[verifier::external_body]
pub(crate) fn random_uuid() -> (r: [u8; 16])
    ensures
        is_random_uuid(r@),
{
    uuid::Uuid::new_v4().into_bytes()
}

/// The `Display` text of a `Uuid` is hyphenated and in lower case.
#[verifier::external_body]
fn uuid_text(bytes: [u8; 16]) -> (r: String)
    ensures
        r@ == hyphenated_text(bytes@),
{
    uuid::Uuid::from_bytes(bytes).to_string()
}

/// `Uuid::parse_str` accepts exactly the text forms of a UUID.
#[verifier::external_body]
pub(crate) fn parses_as_uuid(text: &str) -> (r: bool)
    ensures
        r == is_uuid_text(text@),
{
    uuid::Uuid::parse_str(text).is_ok()
}

/// Text that [`random_text`] may yield.
pub open spec fn is_random_text(s: Seq<char>) -> bool {
    exists|bytes: Seq<u8>| is_random_uuid(bytes) && s == #[trigger] hyphenated_text(bytes)
}

/// A fresh random identifier.
pub fn random_text() -> (r: String)
    ensures
        is_random_text(r@),
{
    let bytes = random_uuid();
    uuid_text(bytes)
}

/// There are version 4 UUIDs.
pub proof fn lemma_random_uuid_exists() -> (bytes: Seq<u8>)
    ensures
        is_random_uuid(bytes),
{
    Seq::new(
        16,
        |i: int|
            if i == 6 {
                0x40u8
            } else {
                0x80u8
            },
    )
}

/// There are random identifiers.
pub proof fn lemma_random_text_exists() -> (s: Seq<char>)
    ensures
        is_random_text(s),
{
    let bytes = lemma_random_uuid_exists();
    hyphenated_text(bytes)
}

proof fn lemma_hex_text_digits(bytes: Seq<u8>)
    ensures
        hex_text(bytes).len() == 2 * bytes.len(),
        forall|i: int| 0 <= i < hex_text(bytes).len() ==> is_hex_digit(#[trigger] hex_text(bytes)[i]),
{
    assert forall|d: int| 0 <= d < 16 implies is_hex_digit(#[trigger] hex_char(d)) by {}
    assert forall|i: int| 0 <= i < hex_text(bytes).len() implies is_hex_digit(
        #[trigger] hex_text(bytes)[i],
    ) by {
        let b = bytes[i / 2] as int;
        assert(is_hex_digit(hex_char(b / 16)));
        assert(is_hex_digit(hex_char(b % 16)));
    }
}

/// The text of a UUID is in hyphenated form, so it is accepted as a UUID.
pub proof fn lemma_hyphenated(bytes: Seq<u8>)
    requires
        bytes.len() == 16,
    ensures
        is_hyphenated(hyphenated_text(bytes)),
        is_uuid_text(hyphenated_text(bytes)),
{
    lemma_hex_text_digits(bytes.subrange(0, 4));
    lemma_hex_text_digits(bytes.subrange(4, 6));
    lemma_hex_text_digits(bytes.subrange(6, 8));
    lemma_hex_text_digits(bytes.subrange(8, 10));
    lemma_hex_text_digits(bytes.subrange(10, 16));
    let s = hyphenated_text(bytes);
    assert(s.len() == 36);
    assert(s[8] == '-');
    assert(s[13] == '-');
    assert(s[18] == '-');
    assert(s[23] == '-');
}

/// A random identifier is accepted as a UUID, is not blank and has 36 bytes.
pub proof fn law_random_text(s: Seq<char>)
    requires
        is_random_text(s),
    ensures
        is_hyphenated(s),
        is_uuid_text(s),
        !is_blank(s),
        encode_utf8(s).len() == 36,
{
    let bytes = choose|bytes: Seq<u8>|
        is_random_uuid(bytes) && s == #[trigger] hyphenated_text(bytes);
    lemma_hyphenated(bytes);
    assert(!is_white_space(s[8]));
    assert forall|i: int| 0 <= i < s.len() implies '\0' <= #[trigger] s[i] <= '\u{7f}' by {
        assert(hyphen_at(i) || is_hex_digit(s[i]));
    }
    is_ascii_chars_encode_utf8(s);
}

} // verus!
