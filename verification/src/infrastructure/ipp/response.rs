//! Writing IPP responses.
use vstd::prelude::*;
use vstd::string::*;
use vstd::utf8::*;

use crate::bytes::{be16, be32, put_be16, put_be32, to_twos, twos};

verus! {

/// An attribute with one value: its tag, its name and the value, each of the
/// last two behind its length in two bytes.
pub open spec fn attribute_bytes(tag: u8, name: Seq<char>, value: Seq<u8>) -> Seq<u8> {
    seq![tag] + be16(encode_utf8(name).len()) + encode_utf8(name) + be16(value.len()) + value
}

/// An attribute whose value is text.
pub open spec fn text_bytes(tag: u8, name: Seq<char>, text: Seq<char>) -> Seq<u8> {
    attribute_bytes(tag, name, encode_utf8(text))
}

/// An attribute whose value is a number.
pub open spec fn number_bytes(tag: u8, name: Seq<char>, value: i32) -> Seq<u8> {
    attribute_bytes(tag, name, be32(twos(value)))
}

/// `name` for the first of several values, the empty name for the others.
pub open spec fn name_for(name: Seq<char>, index: int) -> Seq<char> {
    if index == 0 {
        name
    } else {
        seq![]
    }
}

/// An attribute with several values; only the first carries the name.
pub open spec fn repeated_bytes(tag: u8, name: Seq<char>, values: Seq<Seq<u8>>) -> Seq<u8>
    decreases values.len(),
{
    if values.len() == 0 {
        seq![]
    } else {
        repeated_bytes(tag, name, values.drop_last()) + attribute_bytes(
            tag,
            name_for(name, values.len() - 1),
            values.last(),
        )
    }
}

/// The values of a list of texts.
pub open spec fn encoded_texts(texts: Seq<Seq<char>>) -> Seq<Seq<u8>> {
    texts.map_values(|text: Seq<char>| encode_utf8(text))
}

/// The values of a list of numbers.
pub open spec fn encoded_numbers(numbers: Seq<i32>) -> Seq<Seq<u8>> {
    numbers.map_values(|n: i32| be32(twos(n)))
}

/// A resolution in dots per inch.
pub open spec fn resolution_value(horizontal: u32, vertical: u32) -> Seq<u8> {
    be32(clamped(horizontal)) + be32(clamped(vertical)) + seq![3u8]
}

/// `n`, but no more than the largest signed number.
pub open spec fn clamped(n: u32) -> nat {
    if n <= 0x7fff_ffff {
        n as nat
    } else {
        0x7fff_ffff
    }
}

/// The values of a list of resolutions.
pub open spec fn encoded_resolutions(resolutions: Seq<(u32, u32)>) -> Seq<Seq<u8>> {
    resolutions.map_values(|r: (u32, u32)| resolution_value(r.0, r.1))
}

/// The name of a member of a collection.
pub open spec fn member_bytes(name: Seq<char>) -> Seq<u8> {
    text_bytes(0x4a, seq![], name)
}

/// A member of a collection whose value is a number.
pub open spec fn integer_member_bytes(name: Seq<char>, value: i32) -> Seq<u8> {
    member_bytes(name) + number_bytes(0x21, seq![], value)
}

/// The default medium, without margins, as a collection in a collection.
pub open spec fn media_col_bytes(width_microns: u32, height_microns: u32) -> Seq<u8> {
    attribute_bytes(0x34, "media-col-default"@, seq![]) + member_bytes("media-size"@)
        + attribute_bytes(0x34, seq![], seq![]) + integer_member_bytes(
        "x-dimension"@,
        (width_microns / 10) as i32,
    ) + integer_member_bytes("y-dimension"@, (height_microns / 10) as i32) + attribute_bytes(
        0x37,
        seq![],
        seq![],
    ) + integer_member_bytes("media-top-margin"@, 0) + integer_member_bytes(
        "media-bottom-margin"@,
        0,
    ) + integer_member_bytes("media-left-margin"@, 0) + integer_member_bytes(
        "media-right-margin"@,
        0,
    ) + attribute_bytes(0x37, seq![], seq![])
}

/// What every response begins with.
pub open spec fn operation_bytes() -> Seq<u8> {
    seq![0x01u8] + text_bytes(0x47, "attributes-charset"@, "utf-8"@) + text_bytes(
        0x48,
        "attributes-natural-language"@,
        "en"@,
    )
}

/// A whole response.
pub open spec fn response_bytes(
    version: Seq<u8>,
    status: u16,
    request_id: u32,
    payload: Seq<u8>,
) -> Seq<u8> {
    version + be16(status as nat) + be32(request_id as nat) + payload + seq![0x03u8]
}

/// Appends `bytes`.
pub fn put_bytes(output: &mut Vec<u8>, bytes: &[u8])
    ensures
        final(output)@ == old(output)@ + bytes@,
{
    let ghost before = output@;
    let mut i: usize = 0;
    assert(before + bytes@.take(0) =~= before);
    while i < bytes.len()
        invariant
            i <= bytes@.len(),
            output@ == before + bytes@.take(i as int),
        decreases bytes@.len() - i,
    {
        output.push(bytes[i]);
        assert(output@ =~= before + bytes@.take(i + 1));
        i += 1;
    }
    assert(bytes@.take(i as int) =~= bytes@);
}

/// Appends one byte.
pub fn put_byte(output: &mut Vec<u8>, byte: u8)
    ensures
        final(output)@ == old(output)@ + seq![byte],
{
    output.push(byte);
    assert(output@ =~= old(output)@ + seq![byte]);
}

/// Appends an attribute with one value. Of a length only the low 16 bits are
/// written.
pub fn attribute(output: &mut Vec<u8>, tag: u8, name: &str, value: &[u8])
    ensures
        final(output)@ == old(output)@ + attribute_bytes(tag, name@, value@),
{
    let name_bytes = name.as_bytes();
    put_byte(output, tag);
    put_be16(output, name_bytes.len());
    put_bytes(output, name_bytes);
    put_be16(output, value.len());
    put_bytes(output, value);
    assert(output@ =~= old(output)@ + attribute_bytes(tag, name@, value@));
}

/// Appends an attribute whose value is text.
pub fn text_attribute(output: &mut Vec<u8>, tag: u8, name: &str, text: &str)
    ensures
        final(output)@ == old(output)@ + text_bytes(tag, name@, text@),
{
    attribute(output, tag, name, text.as_bytes());
}

/// The empty name, known to have no characters.
fn no_name() -> (r: &'static str)
    ensures
        r@ == Seq::<char>::empty(),
{
    proof {
        reveal_strlit("");
    }
    assert(""@ =~= seq![]);
    ""
}

proof fn lemma_repeated_step(
    before: Seq<u8>,
    tag: u8,
    name: Seq<char>,
    values: Seq<Seq<u8>>,
    i: int,
)
    requires
        0 <= i < values.len(),
    ensures
        before + repeated_bytes(tag, name, values.take(i)) + attribute_bytes(
            tag,
            name_for(name, i),
            values[i],
        ) == before + repeated_bytes(tag, name, values.take(i + 1)),
{
    assert(values.take(i + 1).drop_last() =~= values.take(i));
    assert(before + repeated_bytes(tag, name, values.take(i)) + attribute_bytes(
        tag,
        name_for(name, i),
        values[i],
    ) =~= before + (repeated_bytes(tag, name, values.take(i)) + attribute_bytes(
        tag,
        name_for(name, i),
        values[i],
    )));
}

/// Appends a number with the tag of integers.
pub fn integer_attribute(output: &mut Vec<u8>, name: &str, value: i32)
    ensures
        final(output)@ == old(output)@ + number_bytes(0x21, name@, value),
{
    number_attribute(output, 0x21, name, value);
}

/// Appends a number with the tag of enumerations.
pub fn enum_attribute(output: &mut Vec<u8>, name: &str, value: i32)
    ensures
        final(output)@ == old(output)@ + number_bytes(0x23, name@, value),
{
    number_attribute(output, 0x23, name, value);
}

fn number_value(value: i32) -> (r: Vec<u8>)
    ensures
        r@ == be32(twos(value)),
{
    let mut bytes: Vec<u8> = Vec::new();
    put_be32(&mut bytes, to_twos(value));
    assert(bytes@ =~= be32(twos(value)));
    bytes
}

fn number_attribute(output: &mut Vec<u8>, tag: u8, name: &str, value: i32)
    ensures
        final(output)@ == old(output)@ + number_bytes(tag, name@, value),
{
    let bytes = number_value(value);
    attribute(output, tag, name, bytes.as_slice());
}

/// The byte for a truth value.
pub open spec fn boolean_value(value: bool) -> Seq<u8> {
    seq![if value { 1u8 } else { 0u8 }]
}

/// Appends a truth value.
pub fn boolean_attribute(output: &mut Vec<u8>, name: &str, value: bool)
    ensures
        final(output)@ == old(output)@ + attribute_bytes(0x22, name@, boolean_value(value)),
{
    let byte: [u8; 1] = [if value { 1 } else { 0 }];
    assert(byte@ =~= boolean_value(value));
    attribute(output, 0x22, name, &byte);
}

/// Appends a range of numbers.
pub fn range_attribute(output: &mut Vec<u8>, name: &str, lower: i32, upper: i32)
    ensures
        final(output)@ == old(output)@ + attribute_bytes(
            0x33,
            name@,
            be32(twos(lower)) + be32(twos(upper)),
        ),
{
    let mut value: Vec<u8> = Vec::new();
    put_be32(&mut value, to_twos(lower));
    put_be32(&mut value, to_twos(upper));
    assert(value@ =~= be32(twos(lower)) + be32(twos(upper)));
    attribute(output, 0x33, name, value.as_slice());
}

/// Appends several numbers.
pub fn repeated_i32_attribute(output: &mut Vec<u8>, tag: u8, name: &str, values: &[i32])
    ensures
        final(output)@ == old(output)@ + repeated_bytes(tag, name@, encoded_numbers(values@)),
{
    let ghost before = output@;
    let ghost all = encoded_numbers(values@);
    let mut i: usize = 0;
    assert(all.take(0) =~= seq![]);
    assert(before + repeated_bytes(tag, name@, seq![]) =~= before);
    while i < values.len()
        invariant
            i <= values@.len(),
            all == encoded_numbers(values@),
            output@ == before + repeated_bytes(tag, name@, all.take(i as int)),
        decreases values@.len() - i,
    {
        number_attribute(
            output,
            tag,
            if i == 0 {
                name
            } else {
                no_name()
            },
            values[i],
        );
        proof {
            lemma_repeated_step(before, tag, name@, all, i as int);
        }
        i += 1;
    }
    assert(all.take(i as int) =~= all);
}

/// Appends several texts; only the first carries the name.
pub fn repeated_attribute(output: &mut Vec<u8>, tag: u8, name: &str, values: &Vec<&str>)
    ensures
        final(output)@ == old(output)@ + repeated_bytes(
            tag,
            name@,
            encoded_texts(values@.map_values(|text: &str| text@)),
        ),
{
    let ghost before = output@;
    let ghost all = encoded_texts(values@.map_values(|text: &str| text@));
    let mut i: usize = 0;
    assert(all.take(0) =~= seq![]);
    assert(before + repeated_bytes(tag, name@, seq![]) =~= before);
    while i < values.len()
        invariant
            i <= values@.len(),
            all == encoded_texts(values@.map_values(|text: &str| text@)),
            output@ == before + repeated_bytes(tag, name@, all.take(i as int)),
        decreases values@.len() - i,
    {
        text_attribute(
            output,
            tag,
            if i == 0 {
                name
            } else {
                no_name()
            },
            values[i],
        );
        proof {
            lemma_repeated_step(before, tag, name@, all, i as int);
        }
        i += 1;
    }
    assert(all.take(i as int) =~= all);
}

/// Appends a resolution; numbers too large for the format are cut down.
pub fn resolution_attribute(output: &mut Vec<u8>, name: &str, horizontal: u32, vertical: u32)
    ensures
        final(output)@ == old(output)@ + attribute_bytes(
            0x32,
            name@,
            resolution_value(horizontal, vertical),
        ),
{
    let mut value: Vec<u8> = Vec::new();
    let x: u32 = if horizontal <= 0x7fff_ffff {
        horizontal
    } else {
        0x7fff_ffff
    };
    let y: u32 = if vertical <= 0x7fff_ffff {
        vertical
    } else {
        0x7fff_ffff
    };
    put_be32(&mut value, x);
    put_be32(&mut value, y);
    value.push(3);
    assert(value@ =~= resolution_value(horizontal, vertical));
    attribute(output, 0x32, name, value.as_slice());
}

/// Appends several resolutions.
pub fn repeated_resolution_attribute(
    output: &mut Vec<u8>,
    name: &str,
    resolutions: &Vec<(u32, u32)>,
)
    ensures
        final(output)@ == old(output)@ + repeated_bytes(
            0x32,
            name@,
            encoded_resolutions(resolutions@),
        ),
{
    let ghost before = output@;
    let ghost all = encoded_resolutions(resolutions@);
    let mut i: usize = 0;
    assert(all.take(0) =~= seq![]);
    assert(before + repeated_bytes(0x32, name@, seq![]) =~= before);
    while i < resolutions.len()
        invariant
            i <= resolutions@.len(),
            all == encoded_resolutions(resolutions@),
            output@ == before + repeated_bytes(0x32, name@, all.take(i as int)),
        decreases resolutions@.len() - i,
    {
        let (horizontal, vertical) = resolutions[i];
        resolution_attribute(
            output,
            if i == 0 {
                name
            } else {
                no_name()
            },
            horizontal,
            vertical,
        );
        proof {
            lemma_repeated_step(before, 0x32, name@, all, i as int);
        }
        i += 1;
    }
    assert(all.take(i as int) =~= all);
}

/// Appends the name of a member of a collection.
pub fn collection_member_name(output: &mut Vec<u8>, name: &str)
    ensures
        final(output)@ == old(output)@ + member_bytes(name@),
{
    text_attribute(output, 0x4a, no_name(), name);
}

/// Appends a member of a collection whose value is a number.
pub fn collection_integer_member(output: &mut Vec<u8>, name: &str, value: i32)
    ensures
        final(output)@ == old(output)@ + integer_member_bytes(name@, value),
{
    collection_member_name(output, name);
    integer_attribute(output, no_name(), value);
    assert(output@ =~= old(output)@ + integer_member_bytes(name@, value));
}

fn empty_attribute(output: &mut Vec<u8>, tag: u8, name: &str)
    ensures
        final(output)@ == old(output)@ + attribute_bytes(tag, name@, seq![]),
{
    let nothing: Vec<u8> = Vec::new();
    assert(nothing@ =~= seq![]);
    attribute(output, tag, name, nothing.as_slice());
}

/// Appends the default medium; its sides are written in hundredths of a
/// millimetre.
pub fn media_col_default_attribute(
    output: &mut Vec<u8>,
    width_microns: u32,
    height_microns: u32,
)
    ensures
        final(output)@ == old(output)@ + media_col_bytes(width_microns, height_microns),
{
    let mut value: Vec<u8> = Vec::new();
    empty_attribute(&mut value, 0x34, "media-col-default");
    assert(value@ =~= attribute_bytes(0x34, "media-col-default"@, seq![]));
    collection_member_name(&mut value, "media-size");
    empty_attribute(&mut value, 0x34, no_name());
    collection_integer_member(&mut value, "x-dimension", (width_microns / 10) as i32);
    collection_integer_member(&mut value, "y-dimension", (height_microns / 10) as i32);
    empty_attribute(&mut value, 0x37, no_name());
    collection_integer_member(&mut value, "media-top-margin", 0);
    collection_integer_member(&mut value, "media-bottom-margin", 0);
    collection_integer_member(&mut value, "media-left-margin", 0);
    collection_integer_member(&mut value, "media-right-margin", 0);
    empty_attribute(&mut value, 0x37, no_name());
    put_bytes(output, value.as_slice());
}

/// What every response begins with.
pub fn operation_attributes() -> (r: Vec<u8>)
    ensures
        r@ == operation_bytes(),
{
    let mut payload: Vec<u8> = Vec::new();
    payload.push(0x01);
    assert(payload@ =~= seq![0x01u8]);
    text_attribute(&mut payload, 0x47, "attributes-charset", "utf-8");
    text_attribute(&mut payload, 0x48, "attributes-natural-language", "en");
    payload
}

/// A whole response.
pub fn ipp_response(version: &[u8; 2], status: u16, request_id: u32, payload: Vec<u8>) -> (r: Vec<
    u8,
>)
    ensures
        r@ == response_bytes(version@, status, request_id, payload@),
{
    let mut bytes: Vec<u8> = Vec::new();
    put_bytes(&mut bytes, version);
    put_be16(&mut bytes, status as usize);
    put_be32(&mut bytes, request_id);
    put_bytes(&mut bytes, payload.as_slice());
    bytes.push(0x03);
    assert(bytes@ =~= response_bytes(version@, status, request_id, payload@));
    bytes
}

} // verus!
