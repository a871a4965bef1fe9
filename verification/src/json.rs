//! JSON documents.

use vstd::prelude::*;
use crate::text;
use crate::text::{opt_text, parse_number};

verus! {

/// A value of the crate `serde_json`.
#[verifier::external_type_specification]
#[verifier::external_body]
pub struct ExValue(serde_json::Value);

/// A JSON document as a tree. A number is held as its text; the members of an
/// object stand in the order in which it is walked.
pub enum JsonTree {
    Null,
    Bool(bool),
    Number(Seq<char>),
    Text(Seq<char>),
    Array(Seq<JsonTree>),
    Object(Seq<(Seq<char>, JsonTree)>),
}

/// The contents of a value.
pub uninterp spec fn json_tree(value: serde_json::Value) -> JsonTree;

/// The document that `serde_json::from_slice` reads from bytes, where it reads
/// one.
pub uninterp spec fn json_document(bytes: Seq<u8>) -> Option<JsonTree>;

/// The text that `serde_json::to_string` writes for a document.
pub uninterp spec fn json_text(tree: JsonTree) -> Seq<char>;

/// The outermost layer of a value.
pub enum JsonNode {
    Null,
    Bool(bool),
    Number(String),
    Text(String),
    Array(Vec<serde_json::Value>),
    Object(Vec<(String, serde_json::Value)>),
}

/// The trees of the items of an array.
pub open spec fn item_trees(items: Seq<serde_json::Value>) -> Seq<JsonTree> {
    items.map_values(|item: serde_json::Value| json_tree(item))
}

/// The names and trees of the members of an object.
pub open spec fn member_trees(members: Seq<(String, serde_json::Value)>) -> Seq<(Seq<char>, JsonTree)> {
    members.map_values(|member: (String, serde_json::Value)| (member.0@, json_tree(member.1)))
}

impl JsonNode {
    /// The tree of which this is the outermost layer.
    pub open spec fn tree(self) -> JsonTree {
        match self {
            JsonNode::Null => JsonTree::Null,
            JsonNode::Bool(value) => JsonTree::Bool(value),
            JsonNode::Number(digits) => JsonTree::Number(digits@),
            JsonNode::Text(value) => JsonTree::Text(value@),
            JsonNode::Array(items) => JsonTree::Array(item_trees(items@)),
            JsonNode::Object(members) => JsonTree::Object(member_trees(members@)),
        }
    }
}

/// The variants of `serde_json::Value`, with their contents copied out.
#[verifier::external_body]
pub(crate) fn open_json(value: &serde_json::Value) -> (r: JsonNode)
    ensures
        r.tree() == json_tree(*value),
{
    match value {
        serde_json::Value::Null => JsonNode::Null,
        serde_json::Value::Bool(flag) => JsonNode::Bool(*flag),
        serde_json::Value::Number(number) => JsonNode::Number(number.to_string()),
        serde_json::Value::String(text) => JsonNode::Text(text.clone()),
        serde_json::Value::Array(items) => JsonNode::Array(items.clone()),
        serde_json::Value::Object(members) => {
            JsonNode::Object(members.clone().into_iter().collect())
        }
    }
}

/// `serde_json::from_slice`, into a value: a function of the bytes.
#[verifier::external_body]
pub(crate) fn read_json(bytes: &[u8]) -> (r: Option<serde_json::Value>)
    ensures
        match r {
            Some(value) => json_document(bytes@) == Some(json_tree(value)),
            None => json_document(bytes@) is None,
        },
{
    serde_json::from_slice(bytes).ok()
}

/// `serde_json::to_string`, which writes any value: a function of its contents.
#[verifier::external_body]
pub(crate) fn write_json(value: &serde_json::Value) -> (r: String)
    ensures
        r@ == json_text(json_tree(*value)),
{
    serde_json::to_string(value).unwrap_or_default()
}

/// `serde_json::Value::String`: the value that is that text.
#[verifier::external_body]
pub(crate) fn text_value(value: &str) -> (r: serde_json::Value)
    ensures
        json_tree(r) == JsonTree::Text(value@),
{
    serde_json::Value::String(value.to_owned())
}

/// A JSON document.
pub struct Json {
    value: serde_json::Value,
}

impl View for Json {
    type V = JsonTree;

    closed spec fn view(&self) -> JsonTree {
        json_tree(self.value)
    }
}

/// Whether the member at `at` is the first of its name.
pub open spec fn is_first_member(members: Seq<(Seq<char>, JsonTree)>, name: Seq<char>, at: int) -> bool {
    &&& 0 <= at < members.len()
    &&& members[at].0 == name
    &&& forall|j: int| 0 <= j < at ==> (#[trigger] members[j]).0 != name
}

/// Whether an object has a member of that name.
pub open spec fn has_member(members: Seq<(Seq<char>, JsonTree)>, name: Seq<char>) -> bool {
    exists|at: int| #[trigger] is_first_member(members, name, at)
}

impl JsonTree {
    /// The member of that name, where this is an object that has one.
    pub open spec fn member(self, name: Seq<char>) -> Option<JsonTree> {
        match self {
            JsonTree::Object(members) => if has_member(members, name) {
                Some(members[choose|at: int| #[trigger] is_first_member(members, name, at)].1)
            } else {
                None
            },
            _ => None,
        }
    }

    /// The text, where this is one.
    pub open spec fn as_text(self) -> Option<Seq<char>> {
        match self {
            JsonTree::Text(value) => Some(value),
            _ => None,
        }
    }

    /// The text of the member of that name, where it is one.
    pub open spec fn text_member(self, name: Seq<char>) -> Option<Seq<char>> {
        match self.member(name) {
            Some(value) => value.as_text(),
            None => None,
        }
    }

    /// The unsigned number of the member of that name, where it is one that fits
    /// 64 bits.
    pub open spec fn number_member(self, name: Seq<char>) -> Option<nat> {
        match self.member(name) {
            Some(JsonTree::Number(digits)) => parse_number(digits, u64::MAX as nat),
            _ => None,
        }
    }

    /// The boolean of the member of that name, where it is one.
    pub open spec fn bool_member(self, name: Seq<char>) -> Option<bool> {
        match self.member(name) {
            Some(JsonTree::Bool(value)) => Some(value),
            _ => None,
        }
    }
}

/// The tree of an optional document.
pub open spec fn opt_json(value: Option<Json>) -> Option<JsonTree> {
    match value {
        Some(json) => Some(json@),
        None => None,
    }
}

/// The items of a list of documents.
pub open spec fn json_trees(items: Seq<Json>) -> Seq<JsonTree> {
    items.map_values(|item: Json| item@)
}

/// The names and trees of a list of members.
pub open spec fn json_members(members: Seq<(String, Json)>) -> Seq<(Seq<char>, JsonTree)> {
    members.map_values(|member: (String, Json)| (member.0@, member.1@))
}

impl Json {
    /// Reads a document.
    pub fn parse(bytes: &[u8]) -> (r: Option<Json>)
        ensures
            opt_json(r) == json_document(bytes@),
    {
        match read_json(bytes) {
            Some(value) => Some(Json { value }),
            None => None,
        }
    }

    /// The document that is that text.
    pub fn text(value: &str) -> (r: Json)
        ensures
            r@ == JsonTree::Text(value@),
    {
        Json { value: text_value(value) }
    }

    /// The document as compact text.
    pub fn to_string(&self) -> (r: String)
        ensures
            r@ == json_text(self@),
    {
        write_json(&self.value)
    }

    /// The member of that name, where the document is an object that has one.
    pub fn get(&self, name: &str) -> (r: Option<Json>)
        ensures
            opt_json(r) == self@.member(name@),
    {
        match open_json(&self.value) {
            JsonNode::Object(members) => {
                let ghost trees = member_trees(members@);
                let mut members = members;
                let mut i: usize = 0;
                while i < members.len()
                    invariant
                        i <= members@.len(),
                        trees == member_trees(members@),
                        self@ == JsonTree::Object(trees),
                        forall|j: int| 0 <= j < i ==> (#[trigger] trees[j]).0 != name@,
                    decreases members@.len() - i,
                {
                    assert(trees[i as int] == (members@[i as int].0@, json_tree(members@[i as int].1)));
                    if text::same(members[i].0.as_str(), name) {
                        proof {
                            assert(is_first_member(trees, name@, i as int));
                            let at = choose|at: int| #[trigger] is_first_member(trees, name@, at);
                            assert(at == i);
                        }
                        let (_, value) = members.swap_remove(i);
                        return Some(Json { value });
                    }
                    i += 1;
                }
                None
            },
            _ => None,
        }
    }

    /// The text, where the document is one.
    pub fn as_text(&self) -> (r: Option<String>)
        ensures
            opt_text(r) == self@.as_text(),
    {
        match open_json(&self.value) {
            JsonNode::Text(value) => Some(value),
            _ => None,
        }
    }

    /// The text of the member of that name, where it is one.
    pub fn text_of(&self, name: &str) -> (r: Option<String>)
        ensures
            opt_text(r) == self@.text_member(name@),
    {
        match self.get(name) {
            Some(value) => value.as_text(),
            None => None,
        }
    }

    /// The boolean of the member of that name, where it is one.
    pub fn bool_of(&self, name: &str) -> (r: Option<bool>)
        ensures
            r == self@.bool_member(name@),
    {
        match self.get(name) {
            Some(value) => match open_json(&value.value) {
                JsonNode::Bool(flag) => Some(flag),
                _ => None,
            },
            None => None,
        }
    }

    /// The unsigned number of the member of that name, where it is one that fits
    /// 64 bits.
    pub fn number_of(&self, name: &str) -> (r: Option<u64>)
        ensures
            match r {
                Some(n) => self@.number_member(name@) == Some(n as nat),
                None => self@.number_member(name@) is None,
            },
    {
        match self.get(name) {
            Some(value) => match open_json(&value.value) {
                JsonNode::Number(digits) => text::parse_unsigned(digits.as_str(), u64::MAX),
                _ => None,
            },
            None => None,
        }
    }

    /// Whether the document is null.
    pub fn is_null(&self) -> (r: bool)
        ensures
            r == (self@ == JsonTree::Null),
    {
        matches!(open_json(&self.value), JsonNode::Null)
    }

    /// Whether the document is an object.
    pub fn is_object(&self) -> (r: bool)
        ensures
            r == (self@ is Object),
    {
        matches!(open_json(&self.value), JsonNode::Object(_))
    }

    /// The items, where the document is an array.
    pub fn items(&self) -> (r: Option<Vec<Json>>)
        ensures
            match r {
                Some(items) => self@ == JsonTree::Array(json_trees(items@)),
                None => !(self@ is Array),
            },
    {
        match open_json(&self.value) {
            JsonNode::Array(values) => {
                let ghost all = values@;
                let mut rest = values;
                let mut out: Vec<Json> = Vec::new();
                proof {
                    assert(all.skip(0) =~= all);
                    assert(json_trees(out@) =~= item_trees(all).take(0));
                }
                while rest.len() > 0
                    invariant
                        out@.len() <= all.len(),
                        rest@ == all.skip(out@.len() as int),
                        json_trees(out@) == item_trees(all).take(out@.len() as int),
                    decreases rest@.len(),
                {
                    let value = rest.remove(0);
                    let ghost before = out@;
                    out.push(Json { value });
                    proof {
                        let n = before.len() as int;
                        assert(rest@ =~= all.skip(n + 1));
                        assert(json_trees(out@) =~= json_trees(before).push(json_tree(value)));
                        assert(item_trees(all).take(n + 1) =~= item_trees(all).take(n).push(
                            item_trees(all)[n],
                        ));
                    }
                }
                proof {
                    assert(item_trees(all).take(all.len() as int) =~= item_trees(all));
                }
                Some(out)
            },
            _ => None,
        }
    }

    /// The members, where the document is an object.
    pub fn members(&self) -> (r: Option<Vec<(String, Json)>>)
        ensures
            match r {
                Some(members) => self@ == JsonTree::Object(json_members(members@)),
                None => !(self@ is Object),
            },
    {
        match open_json(&self.value) {
            JsonNode::Object(values) => {
                let ghost all = values@;
                let mut rest = values;
                let mut out: Vec<(String, Json)> = Vec::new();
                proof {
                    assert(all.skip(0) =~= all);
                    assert(json_members(out@) =~= member_trees(all).take(0));
                }
                while rest.len() > 0
                    invariant
                        out@.len() <= all.len(),
                        rest@ == all.skip(out@.len() as int),
                        json_members(out@) == member_trees(all).take(out@.len() as int),
                    decreases rest@.len(),
                {
                    let (name, value) = rest.remove(0);
                    let ghost before = out@;
                    out.push((name, Json { value }));
                    proof {
                        let n = before.len() as int;
                        assert(rest@ =~= all.skip(n + 1));
                        assert(json_members(out@) =~= json_members(before).push((name@, json_tree(value))));
                        assert(member_trees(all).take(n + 1) =~= member_trees(all).take(n).push(
                            member_trees(all)[n],
                        ));
                    }
                }
                proof {
                    assert(member_trees(all).take(all.len() as int) =~= member_trees(all));
                }
                Some(out)
            },
            _ => None,
        }
    }
}

} // verus!
