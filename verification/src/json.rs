//! Parsed JSON as a table of what stands at each place of a document.

use crate::text;
use serde_with::de::DeserializeAsWrap;
use vstd::prelude::*;
use vstd::string::*;

verus! {

/// `serde_json::Value`, a parsed JSON document.
#[verifier::external_type_specification]
#[verifier::external_body]
pub struct ExValue(serde_json::Value);

/// What stands at one place of a document.
#[derive(Debug)]
pub enum JsonNode {
    Null,
    Bool(bool),
    Number,
    Text(String),
    /// A list of this many items.
    List(usize),
    Object,
}

pub enum JsonNodeView {
    Null,
    Bool(bool),
    Number,
    Text(Seq<char>),
    List(nat),
    Object,
}

impl View for JsonNode {
    type V = JsonNodeView;

    open spec fn view(&self) -> JsonNodeView {
        match self {
            JsonNode::Null => JsonNodeView::Null,
            JsonNode::Bool(value) => JsonNodeView::Bool(*value),
            JsonNode::Number => JsonNodeView::Number,
            JsonNode::Text(text) => JsonNodeView::Text(text@),
            JsonNode::List(count) => JsonNodeView::List(*count as nat),
            JsonNode::Object => JsonNodeView::Object,
        }
    }
}

/// What a parsed document holds: for each JSON pointer that leads somewhere,
/// what stands there.
pub uninterp spec fn json_nodes(value: serde_json::Value) -> Map<Seq<char>, JsonNodeView>;

/// What some bytes hold as a JSON document.
pub uninterp spec fn json_parsed(bytes: Seq<u8>) -> Option<Map<Seq<char>, JsonNodeView>>;

/// `serde_json::from_slice` reads one JSON document, or refuses the bytes.
#[verifier::external_body]
pub(crate) fn parse_json(bytes: &[u8]) -> (r: Option<serde_json::Value>)
    ensures
        match r {
            Some(value) => json_parsed(bytes@) == Some(json_nodes(value)),
            None => json_parsed(bytes@) is None,
        },
{
    serde_json::from_slice(bytes).ok()
}

/// `serde_json::Value::pointer` finds what a JSON pointer leads to, or nothing.
#[verifier::external_body]
pub(crate) fn json_at(value: &serde_json::Value, pointer: &str) -> (r: Option<JsonNode>)
    ensures
        match r {
            Some(node) => json_nodes(*value).contains_key(pointer@) && json_nodes(
                *value,
            )[pointer@] == node@,
            None => !json_nodes(*value).contains_key(pointer@),
        },
{
    match value.pointer(pointer)? {
        serde_json::Value::Null => Some(JsonNode::Null),
        serde_json::Value::Bool(value) => Some(JsonNode::Bool(*value)),
        serde_json::Value::Number(_) => Some(JsonNode::Number),
        serde_json::Value::String(text) => Some(JsonNode::Text(text.clone())),
        serde_json::Value::Array(items) => Some(JsonNode::List(items.len())),
        serde_json::Value::Object(_) => Some(JsonNode::Object),
    }
}

/// The members of an object in order: each name with what its value holds.
pub open spec fn members_view(members: Seq<(String, serde_json::Value)>) -> Seq<
    (Seq<char>, Map<Seq<char>, JsonNodeView>),
> {
    members.map_values(
        |member: (String, serde_json::Value)| (member.0@, json_nodes(member.1)),
    )
}

/// The members of the JSON object that some bytes hold, in order. A name
/// that occurs twice stands there twice.
pub uninterp spec fn json_members(bytes: Seq<u8>) -> Option<
    Seq<(Seq<char>, Map<Seq<char>, JsonNodeView>)>,
>;

/// `serde_json::from_slice` reads one JSON object as `serde_with::Map` lists
/// it: every member in order, where a `serde_json::Value` keeps only the last
/// of those that share a name. Bytes that hold no object are refused.
#[verifier::external_body]
pub(crate) fn read_members(bytes: &[u8]) -> (r: Option<Vec<(String, serde_json::Value)>>)
    ensures
        match json_members(bytes@) {
            Some(members) => r is Some && members_view(r->0@) == members,
            None => r is None,
        },
{
    let listed: DeserializeAsWrap<
        Vec<(String, serde_json::Value)>,
        serde_with::Map<serde_with::Same, serde_with::Same>,
    > = serde_json::from_slice(bytes).ok()?;
    Some(listed.into_inner())
}

/// The text that a value is, if it is one: the empty pointer leads to the
/// value itself.
pub open spec fn text_of(nodes: Map<Seq<char>, JsonNodeView>) -> Option<Seq<char>> {
    if nodes.contains_key(""@) {
        match nodes[""@] {
            JsonNodeView::Text(text) => Some(text),
            _ => None,
        }
    } else {
        None
    }
}

/// The members that bear a name.
pub open spec fn named(
    members: Seq<(Seq<char>, Map<Seq<char>, JsonNodeView>)>,
    name: Seq<char>,
) -> Seq<(Seq<char>, Map<Seq<char>, JsonNodeView>)> {
    members.filter(|member: (Seq<char>, Map<Seq<char>, JsonNodeView>)| member.0 == name)
}

/// The text of the one member that bears a name; a name that no member or
/// more than one bears has none.
pub open spec fn sole_text(
    members: Seq<(Seq<char>, Map<Seq<char>, JsonNodeView>)>,
    name: Seq<char>,
) -> Option<Seq<char>> {
    let found = named(members, name);
    if found.len() == 1 {
        text_of(found[0].1)
    } else {
        None
    }
}

proof fn lemma_named_step(
    members: Seq<(Seq<char>, Map<Seq<char>, JsonNodeView>)>,
    name: Seq<char>,
    i: int,
)
    requires
        0 <= i < members.len(),
    ensures
        named(members.take(i + 1), name) == if members[i].0 == name {
            named(members.take(i), name).push(members[i])
        } else {
            named(members.take(i), name)
        },
{
    reveal(Seq::filter);
    assert(members.take(i + 1).drop_last() =~= members.take(i));
}

/// Finds the text of the one member that bears a name.
pub fn read_sole_text(members: &Vec<(String, serde_json::Value)>, name: &str) -> (r: Option<
    String,
>)
    ensures
        match sole_text(members_view(members@), name@) {
            Some(text) => r is Some && r->0@ == text,
            None => r is None,
        },
{
    let ghost all = members_view(members@);
    let mut at: usize = 0;
    let mut count: usize = 0;
    let mut i: usize = 0;
    proof {
        reveal(Seq::filter);
        assert(all.take(0).len() == 0);
    }
    while i < members.len()
        invariant
            i <= members@.len(),
            all == members_view(members@),
            count == named(all.take(i as int), name@).len(),
            count <= i,
            count >= 1 ==> at < i && named(all.take(i as int), name@).last() == all[at as int],
        decreases members@.len() - i,
    {
        proof {
            lemma_named_step(all, name@, i as int);
        }
        if text::same(members[i].0.as_str(), name) {
            at = i;
            count = count + 1;
        }
        i = i + 1;
    }
    assert(all.take(i as int) =~= all);
    if count != 1 {
        return None;
    }
    match json_at(&members[at].1, "") {
        Some(JsonNode::Text(text)) => Some(text),
        _ => None,
    }
}

} // verus!
