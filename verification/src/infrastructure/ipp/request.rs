//! Reading IPP requests.
use vstd::prelude::*;
use vstd::slice::slice_subrange;
use vstd::string::*;

use crate::bytes::{from_be16, from_be32, get_be16, get_be32, signed, to_signed};
use crate::error::{outcome, PrintError, PrintErrorView, PrintResult};
use crate::model::views;
use crate::text::{as_text, bytes_between, opt_text, same, utf8_text};

verus! {

/// One value of an attribute; an attribute with several values stands in a
/// request several times.
#[derive(Debug, PartialEq, Eq)]
pub struct IppValue {
    pub name: String,
    pub value: Vec<u8>,
}

pub struct IppValueView {
    pub name: Seq<char>,
    pub value: Seq<u8>,
}

impl View for IppValue {
    type V = IppValueView;

    open spec fn view(&self) -> IppValueView {
        IppValueView { name: self.name@, value: self.value@ }
    }
}

/// The attributes of a request: values under names, in the order of their
/// arrival.
#[derive(Debug, PartialEq, Eq)]
pub struct IppAttributes {
    values: Vec<IppValue>,
}

impl View for IppAttributes {
    type V = Seq<IppValueView>;

    closed spec fn view(&self) -> Seq<IppValueView> {
        views(self.values@)
    }
}

/// The values under `name`, in order.
pub open spec fn values_of(attributes: Seq<IppValueView>, name: Seq<char>) -> Seq<Seq<u8>>
    decreases attributes.len(),
{
    if attributes.len() == 0 {
        seq![]
    } else {
        let before = values_of(attributes.drop_last(), name);
        if attributes.last().name == name {
            before.push(attributes.last().value)
        } else {
            before
        }
    }
}

/// The first value under `name`.
pub open spec fn first_value(attributes: Seq<IppValueView>, name: Seq<char>) -> Option<Seq<u8>> {
    let values = values_of(attributes, name);
    if values.len() == 0 {
        None
    } else {
        Some(values[0])
    }
}

impl IppAttributes {
    /// No attributes.
    pub fn new() -> (r: Self)
        ensures
            r@ == Seq::<IppValueView>::empty(),
    {
        let r = IppAttributes { values: Vec::new() };
        assert(r@ =~= Seq::<IppValueView>::empty());
        r
    }

    /// Appends a value under `name`.
    pub fn add_value(&mut self, name: String, value: Vec<u8>)
        ensures
            final(self)@ == old(self)@.push(IppValueView { name: name@, value: value@ }),
    {
        self.values.push(IppValue { name, value });
        assert(self@ =~= old(self)@.push(IppValueView { name: name@, value: value@ }));
    }

    /// The first value under `name`.
    pub fn first(&self, name: &str) -> (r: Option<&Vec<u8>>)
        ensures
            match first_value(self@, name@) {
                Some(value) => r matches Some(v) && v@ == value,
                None => r is None,
            },
    {
        let mut i: usize = 0;
        assert(self@.take(0) =~= seq![]);
        while i < self.values.len()
            invariant
                i <= self.values@.len(),
                values_of(self@.take(i as int), name@) == Seq::<Seq<u8>>::empty(),
            decreases self.values@.len() - i,
        {
            assert(self@.take(i + 1).drop_last() =~= self@.take(i as int));
            assert(self@.take(i + 1).last() == self.values@[i as int]@);
            if same(self.values[i].name.as_str(), name) {
                proof {
                    lemma_values_of_prefix(self@, i + 1, name@);
                    let some = values_of(self@.take(i + 1), name@);
                    assert(some[0] == self.values@[i as int]@.value);
                    assert(some[0] == values_of(self@, name@)[0]);
                }
                return Some(&self.values[i].value);
            }
            i += 1;
        }
        assert(self@.take(i as int) =~= self@);
        None
    }

    /// The pairs of numbers under `name`; other values are passed over.
    fn number_pairs(&self, name: &str) -> (r: Vec<(i32, i32)>)
        ensures
            r@ == pairs_of(values_of(self@, name@)),
    {
        let mut out: Vec<(i32, i32)> = Vec::new();
        let mut i: usize = 0;
        assert(self@.take(0) =~= seq![]);
        while i < self.values.len()
            invariant
                i <= self.values@.len(),
                out@ == pairs_of(values_of(self@.take(i as int), name@)),
            decreases self.values@.len() - i,
        {
            let ghost now = self@.take(i + 1);
            let ghost before = self@.take(i as int);
            assert(now.drop_last() =~= before);
            assert(now.last() == self.values@[i as int]@);
            let entry = &self.values[i];
            if same(entry.name.as_str(), name) {
                assert(values_of(now, name@).drop_last() =~= values_of(before, name@));
                let value = &entry.value;
                if value.len() == 8 {
                    let first: u32 = get_be32(value.as_slice(), 0);
                    let last: u32 = get_be32(value.as_slice(), 4);
                    assert(value@.take(4) =~= value@.subrange(0, 4));
                    assert(value@.skip(4) =~= value@.subrange(4, 8));
                    out.push((to_signed(first), to_signed(last)));
                }
            }
            i += 1;
        }
        assert(self@.take(i as int) =~= self@);
        out
    }
}

proof fn lemma_values_of_prefix(attributes: Seq<IppValueView>, n: int, name: Seq<char>)
    requires
        0 <= n <= attributes.len(),
    ensures
        values_of(attributes.take(n), name).is_prefix_of(values_of(attributes, name)),
    decreases attributes.len() - n,
{
    if n == attributes.len() {
        assert(attributes.take(n) =~= attributes);
    } else {
        lemma_values_of_prefix(attributes, n + 1, name);
        assert(attributes.take(n + 1).drop_last() =~= attributes.take(n));
    }
}

/// The pairs of signed numbers among `values`: those of eight bytes.
pub open spec fn pairs_of(values: Seq<Seq<u8>>) -> Seq<(i32, i32)>
    decreases values.len(),
{
    if values.len() == 0 {
        seq![]
    } else {
        let before = pairs_of(values.drop_last());
        let value = values.last();
        if value.len() == 8 {
            before.push((signed(from_be32(value.take(4))), signed(from_be32(value.skip(4)))))
        } else {
            before
        }
    }
}

/// An IPP request without its document.
pub struct IppRequest {
    pub version: [u8; 2],
    pub operation: u16,
    pub request_id: u32,
    pub attributes: IppAttributes,
    pub document_offset: u64,
    pub document_size: u64,
}

pub struct IppRequestView {
    pub version: Seq<u8>,
    pub operation: u16,
    pub request_id: u32,
    pub attributes: Seq<IppValueView>,
    pub document_offset: u64,
    pub document_size: u64,
}

impl View for IppRequest {
    type V = IppRequestView;

    open spec fn view(&self) -> IppRequestView {
        IppRequestView {
            version: self.version@,
            operation: self.operation,
            request_id: self.request_id,
            attributes: self.attributes@,
            document_offset: self.document_offset,
            document_size: self.document_size,
        }
    }
}

/// The `length` bytes at `position`, if they are all there.
pub open spec fn slice_at(bytes: Seq<u8>, position: int, length: int) -> core::result::Result<
    Seq<u8>,
    PrintErrorView,
> {
    if position + length > usize::MAX {
        Err(PrintErrorView::Invalid("IPP attribute length overflow"@))
    } else if position + length > bytes.len() {
        Err(PrintErrorView::Invalid("IPP attribute is truncated"@))
    } else {
        Ok(bytes.subrange(position, position + length))
    }
}

/// A byte string after its length in two bytes, and the position behind it.
pub open spec fn counted_at(bytes: Seq<u8>, position: int) -> core::result::Result<
    (Seq<u8>, int),
    PrintErrorView,
> {
    match slice_at(bytes, position, 2) {
        Err(error) => Err(error),
        Ok(length) => match slice_at(bytes, position + 2, from_be16(length) as int) {
            Err(error) => Err(error),
            Ok(value) => Ok((value, position + 2 + from_be16(length) as int)),
        },
    }
}

/// The name at `position`, where an empty name stands for `previous`, and the
/// position behind it.
pub open spec fn name_at(
    bytes: Seq<u8>,
    position: int,
    previous: Seq<char>,
) -> core::result::Result<(Seq<char>, int), PrintErrorView> {
    match counted_at(bytes, position) {
        Err(error) => Err(error),
        Ok((name, next)) => if name.len() == 0 {
            Ok((previous, next))
        } else {
            match utf8_text(name) {
                Some(text) => Ok((text, next)),
                None => Err(PrintErrorView::Invalid("IPP attribute name is invalid"@)),
            }
        },
    }
}

/// The name and value at `position`, behind a tag, and the position behind
/// them.
pub open spec fn value_at(
    bytes: Seq<u8>,
    position: int,
    previous: Seq<char>,
) -> core::result::Result<(IppValueView, int), PrintErrorView> {
    match name_at(bytes, position, previous) {
        Err(error) => Err(error),
        Ok((name, middle)) => match counted_at(bytes, middle) {
            Err(error) => Err(error),
            Ok((value, next)) => Ok((IppValueView { name, value }, next)),
        },
    }
}

/// The attributes from `position` on, up to the end tag, and the position
/// behind that tag. Group tags forget the previous name.
pub open spec fn attributes_at(
    bytes: Seq<u8>,
    position: int,
    previous: Seq<char>,
) -> core::result::Result<(Seq<IppValueView>, int), PrintErrorView>
    decreases bytes.len() - position,
{
    if position >= bytes.len() {
        Err(PrintErrorView::Invalid("IPP attributes are truncated"@))
    } else if bytes[position] == 0x03 {
        Ok((seq![], position + 1))
    } else if bytes[position] <= 0x0f {
        attributes_at(bytes, position + 1, seq![])
    } else {
        match value_at(bytes, position + 1, previous) {
            Err(error) => Err(error),
            Ok((value, next)) => after_value(value, attributes_at(bytes, next, value.name)),
        }
    }
}

/// `value` in front of attributes that were read behind it.
pub open spec fn after_value(
    value: IppValueView,
    rest: core::result::Result<(Seq<IppValueView>, int), PrintErrorView>,
) -> core::result::Result<(Seq<IppValueView>, int), PrintErrorView> {
    match rest {
        Ok((values, end)) => Ok((seq![value] + values, end)),
        Err(error) => Err(error),
    }
}

/// `values` in front of attributes that were read behind them.
pub open spec fn after_values(
    values: Seq<IppValueView>,
    rest: core::result::Result<(Seq<IppValueView>, int), PrintErrorView>,
) -> core::result::Result<(Seq<IppValueView>, int), PrintErrorView> {
    match rest {
        Ok((more, end)) => Ok((values + more, end)),
        Err(error) => Err(error),
    }
}

/// The request at the start of `bytes`, which are the beginning of a message
/// of `total_size` bytes.
pub open spec fn parsed_request(bytes: Seq<u8>, total_size: u64) -> core::result::Result<
    IppRequestView,
    PrintErrorView,
> {
    if bytes.len() < 9 {
        Err(PrintErrorView::Invalid("IPP request is too short"@))
    } else {
        match attributes_at(bytes, 8, seq![]) {
            Err(error) => Err(error),
            Ok((attributes, end)) => if total_size < end {
                Err(PrintErrorView::Invalid("IPP request is shorter than its attributes"@))
            } else {
                Ok(
                    IppRequestView {
                        version: bytes.take(2),
                        operation: from_be16(bytes.subrange(2, 4)) as u16,
                        request_id: from_be32(bytes.subrange(4, 8)) as u32,
                        attributes,
                        document_offset: end as u64,
                        document_size: (total_size - end) as u64,
                    },
                )
            },
        }
    }
}

/// The `length` bytes at `position`, which moves behind them.
pub fn read_slice<'a>(bytes: &'a [u8], position: &mut usize, length: usize) -> (r: PrintResult<
    &'a [u8],
>)
    ensures
        match slice_at(bytes@, *old(position) as int, length as int) {
            Ok(value) => r matches Ok(v) && v@ == value && *final(position) == *old(position)
                + length,
            Err(error) => r matches Err(e) && e@ == error && *final(position) == *old(position),
        },
{
    if length > usize::MAX - *position {
        return Err(PrintError::Invalid("IPP attribute length overflow".to_string()));
    }
    let end: usize = *position + length;
    if end > bytes.len() {
        return Err(PrintError::Invalid("IPP attribute is truncated".to_string()));
    }
    let value = slice_subrange(bytes, *position, end);
    *position = end;
    Ok(value)
}

/// The number in the two bytes at `position`, which moves behind them.
pub fn read_u16(bytes: &[u8], position: &mut usize) -> (r: PrintResult<u16>)
    ensures
        match slice_at(bytes@, *old(position) as int, 2) {
            Ok(value) => r matches Ok(n) && n == from_be16(value) && *final(position) == *old(
                position,
            ) + 2,
            Err(error) => r matches Err(e) && e@ == error && *final(position) == *old(position),
        },
{
    match read_slice(bytes, position, 2) {
        Ok(value) => {
            assert(value@.subrange(0, 2) =~= value@);
            Ok(get_be16(value, 0))
        },
        Err(error) => Err(error),
    }
}

fn read_counted<'a>(bytes: &'a [u8], position: &mut usize) -> (r: PrintResult<&'a [u8]>)
    ensures
        match counted_at(bytes@, *old(position) as int) {
            Ok((value, next)) => r matches Ok(v) && v@ == value && *final(position) == next,
            Err(error) => r matches Err(e) && e@ == error,
        },
{
    match read_u16(bytes, position) {
        Ok(length) => read_slice(bytes, position, length as usize),
        Err(error) => Err(error),
    }
}

impl IppRequest {
    /// Reads a request from the beginning of a message of `total_size` bytes;
    /// what follows its attributes is the document.
    pub fn parse(bytes: &[u8], total_size: u64) -> (r: PrintResult<Self>)
        ensures
            outcome(r) == parsed_request(bytes@, total_size),
    {
        if bytes.len() < 9 {
            return Err(PrintError::Invalid("IPP request is too short".to_string()));
        }
        let version = [bytes[0], bytes[1]];
        assert(version@ =~= bytes@.take(2));
        let operation: u16 = get_be16(bytes, 2);
        let request_id: u32 = get_be32(bytes, 4);
        let mut position: usize = 8;
        let mut attributes = IppAttributes::new();
        let mut previous_name = String::new();
        let ghost whole = attributes_at(bytes@, 8, seq![]);
        assert(previous_name@ =~= seq![]);
        proof {
            lemma_after_nothing(whole);
        }
        loop
            invariant_except_break
                whole == after_values(
                    attributes@,
                    attributes_at(bytes@, position as int, previous_name@),
                ),
            invariant
                8 <= position <= bytes@.len(),
                9 <= bytes@.len(),
                whole == attributes_at(bytes@, 8, seq![]),
            ensures
                whole == Ok::<(Seq<IppValueView>, int), PrintErrorView>(
                    (attributes@, position as int),
                ),
            decreases bytes@.len() - position,
        {
            if position >= bytes.len() {
                return Err(PrintError::Invalid("IPP attributes are truncated".to_string()));
            }
            let tag: u8 = bytes[position];
            position += 1;
            if tag == 0x03 {
                assert(attributes@ + seq![] =~= attributes@);
                break;
            }
            if tag <= 0x0f {
                previous_name = String::new();
                assert(previous_name@ =~= seq![]);
                continue;
            }
            let ghost start = position;
            let ghost before_name = previous_name@;
            let name = match read_counted(bytes, &mut position) {
                Ok(name) => name,
                Err(error) => {
                    return Err(error);
                },
            };
            if name.len() != 0 {
                match as_text(name) {
                    Some(text) => {
                        previous_name = text.to_string();
                    },
                    None => {
                        return Err(
                            PrintError::Invalid("IPP attribute name is invalid".to_string()),
                        );
                    },
                }
            }
            let value = match read_counted(bytes, &mut position) {
                Ok(value) => {
                    let copy = bytes_between(value, 0, value.len());
                    assert(copy@ =~= value@);
                    copy
                },
                Err(error) => {
                    return Err(error);
                },
            };
            assert(value_at(bytes@, start as int, before_name) == Ok::<
                (IppValueView, int),
                PrintErrorView,
            >((IppValueView { name: previous_name@, value: value@ }, position as int)));
            let ghost entry = IppValueView { name: previous_name@, value: value@ };
            proof {
                lemma_after_one(
                    attributes@,
                    entry,
                    attributes_at(bytes@, position as int, previous_name@),
                );
            }
            attributes.add_value(previous_name.clone(), value);
        }
        let document_offset: u64 = position as u64;
        if total_size < document_offset {
            return Err(
                PrintError::Invalid("IPP request is shorter than its attributes".to_string()),
            );
        }
        Ok(
            IppRequest {
                version,
                operation,
                request_id,
                attributes,
                document_offset,
                document_size: total_size - document_offset,
            },
        )
    }

    /// The first value under `name`, if it is text.
    pub fn text(&self, name: &str) -> (r: Option<&str>)
        ensures
            opt_text(r) == self@.text_of(name@),
    {
        match self.attributes.first(name) {
            Some(value) => as_text(value.as_slice()),
            None => None,
        }
    }

    /// The first value under `name`, if it is a number.
    pub fn integer(&self, name: &str) -> (r: Option<i32>)
        ensures
            r == self@.integer_of(name@),
    {
        match self.attributes.first(name) {
            Some(value) => {
                if value.len() != 4 {
                    return None;
                }
                assert(value@.subrange(0, 4) =~= value@);
                let n: u32 = get_be32(value.as_slice(), 0);
                Some(to_signed(n))
            },
            None => None,
        }
    }

    /// The pairs of numbers under `name`; other values are passed over.
    pub fn ranges(&self, name: &str) -> (r: Vec<(i32, i32)>)
        ensures
            r@ == self@.ranges_of(name@),
    {
        self.attributes.number_pairs(name)
    }
}

impl IppRequestView {
    /// The first value under `name`, if it is text.
    pub open spec fn text_of(self, name: Seq<char>) -> Option<Seq<char>> {
        match first_value(self.attributes, name) {
            Some(value) => utf8_text(value),
            None => None,
        }
    }

    /// The first value under `name`, if it is a number.
    pub open spec fn integer_of(self, name: Seq<char>) -> Option<i32> {
        match first_value(self.attributes, name) {
            Some(value) => if value.len() == 4 {
                Some(signed(from_be32(value)))
            } else {
                None
            },
            None => None,
        }
    }

    /// The pairs of numbers under `name`.
    pub open spec fn ranges_of(self, name: Seq<char>) -> Seq<(i32, i32)> {
        pairs_of(values_of(self.attributes, name))
    }
}

/// Nothing in front changes nothing.
pub proof fn lemma_after_nothing(rest: core::result::Result<(Seq<IppValueView>, int), PrintErrorView>)
    ensures
        after_values(seq![], rest) == rest,
{
    if let Ok((values, end)) = rest {
        assert(Seq::<IppValueView>::empty() + values =~= values);
    }
}

/// A value behind others is read after them.
pub proof fn lemma_after_one(
    values: Seq<IppValueView>,
    value: IppValueView,
    rest: core::result::Result<(Seq<IppValueView>, int), PrintErrorView>,
)
    ensures
        after_values(values, after_value(value, rest)) == after_values(values.push(value), rest),
{
    if let Ok((more, end)) = rest {
        assert(values + (seq![value] + more) =~= values.push(value) + more);
    }
}

/// Reading never ends before the attributes do: the document of a request
/// begins behind the end tag and reaches to the end of the message.
pub proof fn law_document_follows_attributes(bytes: Seq<u8>, total_size: u64)
    requires
        bytes.len() <= u64::MAX,
        parsed_request(bytes, total_size) is Ok,
    ensures
        ({
            let request = parsed_request(bytes, total_size)->Ok_0;
            &&& 9 <= request.document_offset <= bytes.len()
            &&& bytes[request.document_offset - 1] == 0x03
            &&& request.document_offset + request.document_size == total_size
        }),
{
    lemma_attributes_end(bytes, 8, seq![]);
}

proof fn lemma_attributes_end(bytes: Seq<u8>, position: int, previous: Seq<char>)
    requires
        0 <= position,
    ensures
        attributes_at(bytes, position, previous) matches Ok((_, end)) ==> {
            &&& position < end <= bytes.len()
            &&& bytes[end - 1] == 0x03
        },
    decreases bytes.len() - position,
{
    if position < bytes.len() && bytes[position] != 0x03 {
        if bytes[position] <= 0x0f {
            lemma_attributes_end(bytes, position + 1, seq![]);
        } else if let Ok((value, next)) = value_at(bytes, position + 1, previous) {
            lemma_attributes_end(bytes, next, value.name);
        }
    }
}

} // verus!
