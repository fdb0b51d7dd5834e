//! JSON values, as the commands of the system print them.
use vstd::prelude::*;

verus! {

/// A JSON value.
#[derive(Debug, PartialEq, Eq)]
pub enum JsonValue {
    Null,
    Bool(bool),
    /// The number, if it is a whole number that fits.
    Number(Option<u64>),
    Text(String),
    List(Vec<JsonValue>),
    Members(Vec<JsonMember>),
}

/// A value under a name.
#[derive(Debug, PartialEq, Eq)]
pub struct JsonMember {
    pub name: String,
    pub value: JsonValue,
}

pub enum JsonValueView {
    Null,
    Bool(bool),
    Number(Option<u64>),
    Text(Seq<char>),
    List(Seq<JsonValueView>),
    Members(Seq<JsonMemberView>),
}

pub struct JsonMemberView {
    pub name: Seq<char>,
    pub value: JsonValueView,
}

impl JsonValue {
    /// The value, with sequences in place of vectors.
    pub open spec fn shown(self) -> JsonValueView
        decreases self,
    {
        match self {
            JsonValue::Null => JsonValueView::Null,
            JsonValue::Bool(b) => JsonValueView::Bool(b),
            JsonValue::Number(n) => JsonValueView::Number(n),
            JsonValue::Text(text) => JsonValueView::Text(text@),
            JsonValue::List(items) => JsonValueView::List(
                Seq::new(
                    items@.len(),
                    |i: int|
                        if 0 <= i < items@.len() {
                            items@[i].shown()
                        } else {
                            JsonValueView::Null
                        },
                ),
            ),
            JsonValue::Members(members) => JsonValueView::Members(
                Seq::new(
                    members@.len(),
                    |i: int|
                        if 0 <= i < members@.len() {
                            JsonMemberView {
                                name: members@[i].name@,
                                value: members@[i].value.shown(),
                            }
                        } else {
                            JsonMemberView { name: seq![], value: JsonValueView::Null }
                        },
                ),
            ),
        }
    }
}

impl View for JsonValue {
    type V = JsonValueView;

    open spec fn view(&self) -> JsonValueView {
        self.shown()
    }
}

impl View for JsonMember {
    type V = JsonMemberView;

    open spec fn view(&self) -> JsonMemberView {
        JsonMemberView { name: self.name@, value: self.value@ }
    }
}

#[verifier::external_type_specification]
#[verifier::external_body]
pub struct ExValue(serde_json::Value);

/// What a parsed value holds.
pub uninterp spec fn held(value: serde_json::Value) -> JsonValueView;

/// The value that JSON text stands for, or why it is not JSON.
pub uninterp spec fn json_value(text: Seq<char>) -> core::result::Result<
    JsonValueView,
    Seq<char>,
>;

/// `serde_json::from_str`: the value that the text stands for. The result
/// depends on nothing but the text; what JSON is is left to that crate.
#[verifier::external_body]
fn parse_value(text: &str) -> (r: core::result::Result<serde_json::Value, String>)
    ensures
        json_value(text@) == match r {
            Ok(value) => Ok(held(value)),
            Err(message) => Err(message@),
        },
{
    serde_json::from_str(text).map_err(|error| error.to_string())
}

/// The outermost layer of a parsed value.
enum JsonNode<'a> {
    Null,
    Bool(bool),
    Number(Option<u64>),
    Text(&'a String),
    List(Vec<&'a serde_json::Value>),
    Members(Vec<(&'a String, &'a serde_json::Value)>),
}

spec fn held_all(items: Seq<&serde_json::Value>) -> Seq<JsonValueView> {
    Seq::new(items.len(), |i: int| held(*items[i]))
}

spec fn held_members(members: Seq<(&String, &serde_json::Value)>) -> Seq<JsonMemberView> {
    Seq::new(
        members.len(),
        |i: int| JsonMemberView { name: members[i].0@, value: held(*members[i].1) },
    )
}

/// The variants of `serde_json::Value`, and `Number::as_u64`: what a value
/// holds is what is in its variant, the items of a list in order and the
/// members of an object in the order of its map.
#[verifier::external_body]
fn open_value(value: &serde_json::Value) -> (r: JsonNode<'_>)
    ensures
        held(*value) == match r {
            JsonNode::Null => JsonValueView::Null,
            JsonNode::Bool(b) => JsonValueView::Bool(b),
            JsonNode::Number(n) => JsonValueView::Number(n),
            JsonNode::Text(text) => JsonValueView::Text(text@),
            JsonNode::List(items) => JsonValueView::List(held_all(items@)),
            JsonNode::Members(members) => JsonValueView::Members(held_members(members@)),
        },
{
    match value {
        serde_json::Value::Null => JsonNode::Null,
        serde_json::Value::Bool(b) => JsonNode::Bool(*b),
        serde_json::Value::Number(n) => JsonNode::Number(n.as_u64()),
        serde_json::Value::String(text) => JsonNode::Text(text),
        serde_json::Value::Array(items) => JsonNode::List(items.iter().collect()),
        serde_json::Value::Object(members) => JsonNode::Members(members.iter().collect()),
    }
}

fn plain_value(value: &serde_json::Value) -> (r: JsonValue)
    ensures
        r@ == held(*value),
    decreases held(*value),
{
    match open_value(value) {
        JsonNode::Null => JsonValue::Null,
        JsonNode::Bool(b) => JsonValue::Bool(b),
        JsonNode::Number(n) => JsonValue::Number(n),
        JsonNode::Text(text) => JsonValue::Text(text.clone()),
        JsonNode::List(items) => {
            let ghost all = held_all(items@);
            assert(held(*value) == JsonValueView::List(all));
            let mut out: Vec<JsonValue> = Vec::new();
            let mut i: usize = 0;
            while i < items.len()
                invariant
                    i == out@.len() <= items@.len(),
                    all == held_all(items@),
                    held(*value) == JsonValueView::List(all),
                    forall|j: int| 0 <= j < i ==> (#[trigger] out@[j])@ == all[j],
                decreases items@.len() - i,
            {
                assert(all[i as int] == held(*items@[i as int]));
                assert(decreases_to!(held(*value) => held(*value)->List_0[i as int]));
                let item = plain_value(items[i]);
                out.push(item);
                i += 1;
            }
            let r = JsonValue::List(out);
            assert(r@->List_0 =~= all);
            r
        },
        JsonNode::Members(members) => {
            let ghost all = held_members(members@);
            let mut out: Vec<JsonMember> = Vec::new();
            let mut i: usize = 0;
            while i < members.len()
                invariant
                    i == out@.len() <= members@.len(),
                    all == held_members(members@),
                    held(*value) == JsonValueView::Members(all),
                    forall|j: int| 0 <= j < i ==> (#[trigger] out@[j])@ == all[j],
                decreases members@.len() - i,
            {
                let member = members[i];
                assert(all[i as int].value == held(*member.1));
                assert(decreases_to!(held(*value) => held(*value)->Members_0[i as int].value));
                let value = plain_value(member.1);
                out.push(JsonMember { name: member.0.clone(), value });
                i += 1;
            }
            let r = JsonValue::Members(out);
            assert(r@->Members_0 =~= all);
            r
        },
    }
}

/// The value that JSON text stands for, or why it is not JSON.
pub fn parse_json(text: &str) -> (r: core::result::Result<JsonValue, String>)
    ensures
        json_value(text@) == match r {
            Ok(value) => Ok(value@),
            Err(message) => Err(message@),
        },
{
    match parse_value(text) {
        Ok(value) => Ok(plain_value(&value)),
        Err(message) => Err(message),
    }
}

} // verus!
