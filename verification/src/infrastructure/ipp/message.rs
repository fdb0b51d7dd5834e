//! IPP messages as they are written and read.
use vstd::prelude::*;
use vstd::utf8::*;

use crate::bytes::{be16, be32, lemma_be16, lemma_be32};
use crate::error::PrintErrorView;
use crate::infrastructure::ipp::request::{
    after_values, attributes_at, counted_at, lemma_after_nothing, lemma_after_one, parsed_request,
    value_at, values_of, IppRequestView, IppValueView,
};
use crate::infrastructure::ipp::response::{attribute_bytes, name_for, repeated_bytes};
use crate::text::{lemma_utf8_round_trip, lemma_utf8_size};

verus! {

/// A part of a message: the tag of a group, or an attribute with all its
/// values and their tags.
pub enum IppPart {
    Group(u8),
    Attribute { name: Seq<char>, values: Seq<(u8, Seq<u8>)> },
}

/// Values with their tags; only the first carries the name.
pub open spec fn tagged_bytes(name: Seq<char>, values: Seq<(u8, Seq<u8>)>) -> Seq<u8>
    decreases values.len(),
{
    if values.len() == 0 {
        seq![]
    } else {
        tagged_bytes(name, values.drop_last()) + attribute_bytes(
            values.last().0,
            name_for(name, values.len() - 1),
            values.last().1,
        )
    }
}

/// Whether values have the tags of values, and lengths that fit.
pub open spec fn values_fit(values: Seq<(u8, Seq<u8>)>) -> bool {
    forall|i: int|
        0 <= i < values.len() ==> (#[trigger] values[i]).0 > 0x0f && values[i].1.len() < 0x1_0000
}

/// Values under a name.
pub open spec fn named(name: Seq<char>, values: Seq<(u8, Seq<u8>)>) -> Seq<IppValueView> {
    values.map_values(|value: (u8, Seq<u8>)| IppValueView { name, value: value.1 })
}

impl IppPart {
    /// The part as it is written.
    pub open spec fn bytes(self) -> Seq<u8> {
        match self {
            IppPart::Group(tag) => seq![tag],
            IppPart::Attribute { name, values } => tagged_bytes(name, values),
        }
    }

    /// The values that a reader finds in the part.
    pub open spec fn values(self) -> Seq<IppValueView> {
        match self {
            IppPart::Group(_) => seq![],
            IppPart::Attribute { name, values } => named(name, values),
        }
    }

    /// The values of the part under `sought`.
    pub open spec fn under(self, sought: Seq<char>) -> Seq<Seq<u8>> {
        match self {
            IppPart::Attribute { name, values } if name == sought => values.map_values(
                |value: (u8, Seq<u8>)| value.1,
            ),
            _ => seq![],
        }
    }

    /// The name that a value without a name has behind the part.
    pub open spec fn name_behind(self, previous: Seq<char>) -> Seq<char> {
        match self {
            IppPart::Group(_) => seq![],
            IppPart::Attribute { name, values } => if values.len() == 0 {
                previous
            } else {
                name
            },
        }
    }

    /// Whether the part can be told from others, and its lengths fit.
    pub open spec fn fits(self) -> bool {
        match self {
            IppPart::Group(tag) => tag <= 0x0f && tag != 0x03,
            IppPart::Attribute { name, values } => {
                &&& 0 < encode_utf8(name).len() < 0x1_0000
                &&& values_fit(values)
            },
        }
    }
}

/// Parts one after the other.
pub open spec fn parts_bytes(parts: Seq<IppPart>) -> Seq<u8>
    decreases parts.len(),
{
    if parts.len() == 0 {
        seq![]
    } else {
        parts_bytes(parts.drop_last()) + parts.last().bytes()
    }
}

/// The values that a reader finds in parts.
pub open spec fn parts_values(parts: Seq<IppPart>) -> Seq<IppValueView>
    decreases parts.len(),
{
    if parts.len() == 0 {
        seq![]
    } else {
        parts_values(parts.drop_last()) + parts.last().values()
    }
}

/// The values under `name` in parts.
pub open spec fn parts_under(parts: Seq<IppPart>, name: Seq<char>) -> Seq<Seq<u8>>
    decreases parts.len(),
{
    if parts.len() == 0 {
        seq![]
    } else {
        parts_under(parts.drop_last(), name) + parts.last().under(name)
    }
}

/// The name that a value without a name has behind parts.
pub open spec fn name_behind_all(parts: Seq<IppPart>, previous: Seq<char>) -> Seq<char>
    decreases parts.len(),
{
    if parts.len() == 0 {
        previous
    } else {
        parts.last().name_behind(name_behind_all(parts.drop_last(), previous))
    }
}

/// Whether all parts can be told from each other, and their lengths fit.
pub open spec fn parts_fit(parts: Seq<IppPart>) -> bool
    decreases parts.len(),
{
    parts.len() == 0 || parts_fit(parts.drop_last()) && parts.last().fits()
}

proof fn lemma_counted_round_trip(before: Seq<u8>, value: Seq<u8>, after: Seq<u8>)
    requires
        value.len() < 0x1_0000,
        before.len() + 2 + value.len() + after.len() <= usize::MAX,
    ensures
        counted_at(before + (be16(value.len()) + value) + after, before.len() as int) == Ok::<
            (Seq<u8>, int),
            PrintErrorView,
        >((value, (before.len() + 2 + value.len()) as int)),
{
    let bytes = before + (be16(value.len()) + value) + after;
    let at = before.len() as int;
    assert(bytes.subrange(at, at + 2) =~= be16(value.len()));
    lemma_be16(value.len());
    assert(bytes.subrange(at + 2, at + 2 + value.len()) =~= value);
}

proof fn lemma_value_round_trip(
    before: Seq<u8>,
    tag: u8,
    name: Seq<char>,
    value: Seq<u8>,
    after: Seq<u8>,
    previous: Seq<char>,
)
    requires
        encode_utf8(name).len() < 0x1_0000,
        value.len() < 0x1_0000,
        before.len() + attribute_bytes(tag, name, value).len() + after.len() <= usize::MAX,
    ensures
        ({
            let one = attribute_bytes(tag, name, value);
            let read = IppValueView {
                name: if name.len() == 0 {
                    previous
                } else {
                    name
                },
                value,
            };
            &&& (before + one + after)[before.len() as int] == tag
            &&& value_at(before + one + after, (before.len() + 1) as int, previous) == Ok::<
                (IppValueView, int),
                PrintErrorView,
            >((read, (before.len() + one.len()) as int))
        }),
{
    let encoded = encode_utf8(name);
    let one = attribute_bytes(tag, name, value);
    let bytes = before + one + after;
    assert(bytes =~= (before + seq![tag]) + (be16(encoded.len()) + encoded) + (be16(value.len())
        + value + after));
    lemma_counted_round_trip(before + seq![tag], encoded, be16(value.len()) + value + after);
    lemma_utf8_round_trip(name);
    lemma_utf8_size(name);
    assert(bytes =~= (before + seq![tag] + be16(encoded.len()) + encoded) + (be16(value.len())
        + value) + after);
    lemma_counted_round_trip(before + seq![tag] + be16(encoded.len()) + encoded, value, after);
}

proof fn lemma_regroup(before: Seq<u8>, first: Seq<u8>, second: Seq<u8>, after: Seq<u8>)
    ensures
        before + (first + second) + after == before + first + (second + after),
        before + (first + second) + after == (before + first) + second + after,
{
    assert(before + (first + second) + after =~= before + first + (second + after));
    assert(before + (first + second) + after =~= (before + first) + second + after);
}

proof fn lemma_after_more(
    first: Seq<IppValueView>,
    second: Seq<IppValueView>,
    rest: core::result::Result<(Seq<IppValueView>, int), PrintErrorView>,
)
    ensures
        after_values(first, after_values(second, rest)) == after_values(first + second, rest),
{
    if let Ok((more, end)) = rest {
        assert(first + (second + more) =~= first + second + more);
    }
}

proof fn lemma_attribute_is_read(
    before: Seq<u8>,
    name: Seq<char>,
    values: Seq<(u8, Seq<u8>)>,
    after: Seq<u8>,
    previous: Seq<char>,
)
    requires
        0 < encode_utf8(name).len() < 0x1_0000,
        values_fit(values),
        before.len() + tagged_bytes(name, values).len() + after.len() <= usize::MAX,
    ensures
        ({
            let bytes = before + tagged_bytes(name, values) + after;
            attributes_at(bytes, before.len() as int, previous) == after_values(
                named(name, values),
                attributes_at(
                    bytes,
                    (before.len() + tagged_bytes(name, values).len()) as int,
                    if values.len() == 0 {
                        previous
                    } else {
                        name
                    },
                ),
            )
        }),
    decreases values.len(),
{
    let bytes = before + tagged_bytes(name, values) + after;
    if values.len() == 0 {
        assert(named(name, values) =~= seq![]);
        lemma_after_nothing(attributes_at(bytes, before.len() as int, previous));
    } else {
        let most = values.drop_last();
        let (tag, value) = values.last();
        assert(values[values.len() - 1].0 > 0x0f);
        let written = name_for(name, values.len() - 1);
        let one = attribute_bytes(tag, written, value);
        let middle = before + tagged_bytes(name, most);
        lemma_regroup(before, tagged_bytes(name, most), one, after);
        assert forall|i: int| 0 <= i < most.len() implies (#[trigger] most[i]).0 > 0x0f
            && most[i].1.len() < 0x1_0000 by {
            assert(most[i] == values[i]);
        }
        lemma_attribute_is_read(before, name, most, one + after, previous);
        let now = if most.len() == 0 {
            previous
        } else {
            name
        };
        lemma_utf8_size(name);
        lemma_utf8_size(written);
        lemma_value_round_trip(middle, tag, written, value, after, now);
        let read = IppValueView { name, value };
        lemma_after_one(
            named(name, most),
            read,
            attributes_at(bytes, (middle.len() + one.len()) as int, name),
        );
        assert(named(name, values) =~= named(name, most).push(read));
    }
}

/// What is written is read back: parts in a row come out with their names and
/// values, wherever in a message they stand and whatever follows.
pub proof fn law_parts_are_read(
    before: Seq<u8>,
    parts: Seq<IppPart>,
    after: Seq<u8>,
    previous: Seq<char>,
)
    requires
        parts_fit(parts),
        before.len() + parts_bytes(parts).len() + after.len() <= usize::MAX,
    ensures
        ({
            let bytes = before + parts_bytes(parts) + after;
            attributes_at(bytes, before.len() as int, previous) == after_values(
                parts_values(parts),
                attributes_at(
                    bytes,
                    (before.len() + parts_bytes(parts).len()) as int,
                    name_behind_all(parts, previous),
                ),
            )
        }),
    decreases parts.len(),
{
    let bytes = before + parts_bytes(parts) + after;
    if parts.len() == 0 {
        lemma_after_nothing(attributes_at(bytes, before.len() as int, previous));
    } else {
        let most = parts.drop_last();
        let part = parts.last();
        let middle = before + parts_bytes(most);
        let now = name_behind_all(most, previous);
        lemma_regroup(before, parts_bytes(most), part.bytes(), after);
        law_parts_are_read(before, most, part.bytes() + after, previous);
        let rest = attributes_at(
            bytes,
            (middle.len() + part.bytes().len()) as int,
            part.name_behind(now),
        );
        match part {
            IppPart::Group(tag) => {
                assert(bytes[middle.len() as int] == tag);
                lemma_after_nothing(rest);
            },
            IppPart::Attribute { name, values } => {
                lemma_attribute_is_read(middle, name, values, after, now);
            },
        }
        lemma_after_more(parts_values(most), part.values(), rest);
    }
}

/// A message as it is sent: its head, its parts and a document.
pub open spec fn message_bytes(
    version: Seq<u8>,
    code: u16,
    request_id: u32,
    parts: Seq<IppPart>,
    document: Seq<u8>,
) -> Seq<u8> {
    version + be16(code as nat) + be32(request_id as nat) + parts_bytes(parts) + seq![0x03u8]
        + document
}

/// A message that is sent is read as it was, and its document is what follows
/// the attributes.
pub proof fn law_message_round_trip(
    version: Seq<u8>,
    code: u16,
    request_id: u32,
    parts: Seq<IppPart>,
    document: Seq<u8>,
)
    requires
        version.len() == 2,
        parts_fit(parts),
        message_bytes(version, code, request_id, parts, document).len() <= usize::MAX,
    ensures
        ({
            let bytes = message_bytes(version, code, request_id, parts, document);
            parsed_request(bytes, bytes.len() as u64) == Ok::<IppRequestView, PrintErrorView>(
                IppRequestView {
                    version,
                    operation: code,
                    request_id,
                    attributes: parts_values(parts),
                    document_offset: (bytes.len() - document.len()) as u64,
                    document_size: document.len() as u64,
                },
            )
        }),
{
    let bytes = message_bytes(version, code, request_id, parts, document);
    let head = version + be16(code as nat) + be32(request_id as nat);
    let all = parts_bytes(parts);
    assert(bytes.take(2) =~= version);
    assert(bytes.subrange(2, 4) =~= be16(code as nat));
    assert(bytes.subrange(4, 8) =~= be32(request_id as nat));
    lemma_be16(code as nat);
    lemma_be32(request_id as nat);
    assert(bytes =~= head + all + (seq![0x03u8] + document));
    law_parts_are_read(head, parts, seq![0x03u8] + document, seq![]);
    assert(bytes[(8 + all.len()) as int] == 0x03);
    assert(parts_values(parts) + seq![] =~= parts_values(parts));
}

proof fn lemma_values_of_concat(first: Seq<IppValueView>, second: Seq<IppValueView>, name: Seq<char>)
    ensures
        values_of(first + second, name) == values_of(first, name) + values_of(second, name),
    decreases second.len(),
{
    if second.len() == 0 {
        assert(first + second =~= first);
        assert(values_of(first, name) + values_of(second, name) =~= values_of(first, name));
    } else {
        lemma_values_of_concat(first, second.drop_last(), name);
        assert((first + second).drop_last() =~= first + second.drop_last());
        assert(values_of(first + second, name) =~= values_of(first, name) + values_of(
            second,
            name,
        ));
    }
}

proof fn lemma_values_of_named(name: Seq<char>, values: Seq<(u8, Seq<u8>)>, sought: Seq<char>)
    ensures
        values_of(named(name, values), sought) == (IppPart::Attribute { name, values }).under(
            sought,
        ),
    decreases values.len(),
{
    let part = IppPart::Attribute { name, values };
    if values.len() > 0 {
        let most = values.drop_last();
        lemma_values_of_named(name, most, sought);
        assert(named(name, values).drop_last() =~= named(name, most));
        assert(named(name, values).last() == (IppValueView { name, value: values.last().1 }));
        if name == sought {
            assert(part.under(sought) =~= (IppPart::Attribute { name, values: most }).under(
                sought,
            ).push(values.last().1));
        }
    } else {
        assert(part.under(sought) =~= seq![]);
    }
}

/// The values that a reader finds under a name are those that the parts of
/// that name hold.
pub proof fn law_values_are_found(parts: Seq<IppPart>, name: Seq<char>)
    ensures
        values_of(parts_values(parts), name) == parts_under(parts, name),
    decreases parts.len(),
{
    if parts.len() > 0 {
        let most = parts_values(parts.drop_last());
        law_values_are_found(parts.drop_last(), name);
        lemma_values_of_concat(most, parts.last().values(), name);
        match parts.last() {
            IppPart::Group(_) => {},
            IppPart::Attribute { name: own, values } => {
                lemma_values_of_named(own, values, name);
            },
        }
    }
}

/// An attribute with one value.
pub open spec fn single_part(tag: u8, name: Seq<char>, value: Seq<u8>) -> IppPart {
    IppPart::Attribute { name, values: seq![(tag, value)] }
}

/// An attribute whose values share a tag.
pub open spec fn list_part(tag: u8, name: Seq<char>, values: Seq<Seq<u8>>) -> IppPart {
    IppPart::Attribute { name, values: values.map_values(|value: Seq<u8>| (tag, value)) }
}

/// A value more behind others.
pub proof fn lemma_tagged_push(name: Seq<char>, values: Seq<(u8, Seq<u8>)>, value: (u8, Seq<u8>))
    ensures
        tagged_bytes(name, values.push(value)) == tagged_bytes(name, values) + attribute_bytes(
            value.0,
            name_for(name, values.len() as int),
            value.1,
        ),
{
    assert(values.push(value).drop_last() =~= values);
}

/// How an attribute with one value is written and found.
pub proof fn lemma_single(tag: u8, name: Seq<char>, value: Seq<u8>)
    ensures
        single_part(tag, name, value).bytes() == attribute_bytes(tag, name, value),
        single_part(tag, name, value).under(name) == seq![value],
{
    let values = seq![(tag, value)];
    assert(values.drop_last() =~= seq![]);
    assert(values.last() == (tag, value));
    assert(tagged_bytes(name, values) == tagged_bytes(name, seq![]) + attribute_bytes(
        tag,
        name,
        value,
    ));
    assert(tagged_bytes(name, values) =~= attribute_bytes(tag, name, value));
    assert(single_part(tag, name, value).under(name) =~= seq![value]);
}

/// How an attribute with several values is written and found.
pub proof fn lemma_list(tag: u8, name: Seq<char>, values: Seq<Seq<u8>>)
    ensures
        list_part(tag, name, values).bytes() == repeated_bytes(tag, name, values),
        list_part(tag, name, values).under(name) == values,
    decreases values.len(),
{
    let tagged = values.map_values(|value: Seq<u8>| (tag, value));
    if values.len() > 0 {
        let most = values.drop_last();
        lemma_list(tag, name, most);
        assert(tagged.drop_last() =~= most.map_values(|value: Seq<u8>| (tag, value)));
    }
    assert(list_part(tag, name, values).under(name) =~= values);
}

/// A part more behind others.
pub proof fn lemma_push(parts: Seq<IppPart>, part: IppPart)
    ensures
        parts_bytes(parts.push(part)) == parts_bytes(parts) + part.bytes(),
        parts_fit(parts.push(part)) == (parts_fit(parts) && part.fits()),
{
    assert(parts.push(part).drop_last() =~= parts);
}

/// A part more behind others, and what it adds under a name.
pub proof fn lemma_push_under(parts: Seq<IppPart>, part: IppPart, name: Seq<char>)
    ensures
        parts_under(parts.push(part), name) == parts_under(parts, name) + part.under(name),
        part.under(name).len() == 0 ==> parts_under(parts.push(part), name) == parts_under(
            parts,
            name,
        ),
{
    assert(parts.push(part).drop_last() =~= parts);
    if part.under(name).len() == 0 {
        assert(parts_under(parts, name) + part.under(name) =~= parts_under(parts, name));
    }
}

} // verus!
