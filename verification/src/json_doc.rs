//! JSON documents as plain data, and the calls into the `json` crate that
//! parse, build and print them.

use vstd::prelude::*;
use crate::text::same_text;

verus! {

/// A JSON value, held as plain data.
#[derive(Debug, PartialEq, Eq)]
pub enum JsonDoc {
    Null,
    Text(String),
    /// A number in decimal parts: `mantissa` times ten to the `exponent`,
    /// with its sign. `nan` marks a value that is no number at all.
    Number { nan: bool, positive: bool, mantissa: u64, exponent: i16 },
    Boolean(bool),
    /// The members of an object in the order in which they were added.
    Object(Vec<(String, JsonDoc)>),
    Array(Vec<JsonDoc>),
}

/// One member of a JSON object as a mathematical value.
pub struct JsonMember {
    pub name: Seq<char>,
    pub value: JsonTree,
}

/// A JSON value as a mathematical tree.
pub enum JsonTree {
    Null,
    Text(Seq<char>),
    Number { nan: bool, positive: bool, mantissa: int, exponent: int },
    Boolean(bool),
    Object(Seq<JsonMember>),
    Array(Seq<JsonTree>),
}

impl View for JsonDoc {
    type V = JsonTree;

    open spec fn view(&self) -> JsonTree
        decreases self,
    {
        match self {
            JsonDoc::Null => JsonTree::Null,
            JsonDoc::Text(text) => JsonTree::Text(text@),
            JsonDoc::Number { nan, positive, mantissa, exponent } => JsonTree::Number {
                nan: *nan,
                positive: *positive,
                mantissa: *mantissa as int,
                exponent: *exponent as int,
            },
            JsonDoc::Boolean(b) => JsonTree::Boolean(*b),
            JsonDoc::Object(members) => JsonTree::Object(
                Seq::new(
                    members@.len(),
                    |i: int|
                        if 0 <= i < members@.len() {
                            JsonMember { name: members@[i].0@, value: members@[i].1.view() }
                        } else {
                            JsonMember { name: Seq::empty(), value: JsonTree::Null }
                        },
                ),
            ),
            JsonDoc::Array(items) => JsonTree::Array(
                Seq::new(
                    items@.len(),
                    |i: int|
                        if 0 <= i < items@.len() {
                            items@[i].view()
                        } else {
                            JsonTree::Null
                        },
                ),
            ),
        }
    }
}

impl DeepView for JsonDoc {
    type V = JsonTree;

    open spec fn deep_view(&self) -> JsonTree {
        self@
    }
}

/// The position of the first member of `members` that is named `key`.
pub open spec fn spec_find(members: Seq<JsonMember>, key: Seq<char>) -> Option<int>
    decreases members.len(),
{
    if members.len() == 0 {
        None
    } else if members[0].name == key {
        Some(0)
    } else {
        match spec_find(members.drop_first(), key) {
            Some(i) => Some(i + 1),
            None => None,
        }
    }
}

/// The value of the member of object `tree` that is named `key`; `None`
/// where `tree` is no object or has no such member.
pub open spec fn spec_member(tree: JsonTree, key: Seq<char>) -> Option<JsonTree> {
    match tree {
        JsonTree::Object(members) => match spec_find(members, key) {
            Some(i) => Some(members[i].value),
            None => None,
        },
        _ => None,
    }
}

/// The number that `tree` holds, where it is a whole number written without
/// exponent that fits in 32 bits.
pub open spec fn spec_as_u32(tree: JsonTree) -> Option<u32> {
    match tree {
        JsonTree::Number { nan, positive, mantissa, exponent } => if !nan && positive && exponent
            == 0 && 0 <= mantissa <= u32::MAX {
            Some(mantissa as u32)
        } else {
            None
        },
        _ => None,
    }
}

/// The text that `tree` holds, where it is a string.
pub open spec fn spec_as_text(tree: JsonTree) -> Option<Seq<char>> {
    match tree {
        JsonTree::Text(text) => Some(text),
        _ => None,
    }
}

/// Whether every number in `tree` is a number and carries no trailing zero
/// behind the decimal point, and no object in it has two members of one name.
pub open spec fn spec_canonical(tree: JsonTree) -> bool
    decreases tree,
{
    match tree {
        JsonTree::Number { nan, positive, mantissa, exponent } => !nan && (exponent >= 0
            || mantissa % 10 != 0),
        JsonTree::Object(members) => {
            &&& forall|i: int, j: int|
                0 <= i < j < members.len() ==> (#[trigger] members[i]).name != (
                #[trigger] members[j]).name
            &&& forall|i: int|
                0 <= i < members.len() ==> spec_canonical((#[trigger] members[i]).value)
        },
        JsonTree::Array(items) => forall|i: int|
            0 <= i < items.len() ==> spec_canonical(#[trigger] items[i]),
        _ => true,
    }
}

/// `tree` with `item` added at the end of the array that its member `key`
/// holds; `tree` itself where it has no such array.
pub open spec fn spec_push_member(tree: JsonTree, key: Seq<char>, item: JsonTree) -> JsonTree {
    match tree {
        JsonTree::Object(members) => match spec_find(members, key) {
            Some(i) => match members[i].value {
                JsonTree::Array(items) => JsonTree::Object(
                    members.update(
                        i,
                        JsonMember { name: members[i].name, value: JsonTree::Array(items.push(item)) },
                    ),
                ),
                _ => tree,
            },
            None => tree,
        },
        _ => tree,
    }
}

/// `json::JsonValue`, a JSON value as the `json` crate holds it.
#[verifier::external_type_specification]
#[verifier::external_body]
pub struct ExJsonValue(json::JsonValue);

/// `json::Error`, the error of the `json` crate.
#[verifier::external_type_specification]
#[verifier::external_body]
pub struct ExJsonError(json::Error);

/// What a `json::JsonValue` holds: the kind of the value, its text, its
/// number in parts, the members of an object in the order in which they
/// were added, the items of an array in order.
pub uninterp spec fn json_tree(value: json::JsonValue) -> JsonTree;

/// The value that `json::parse` reads from `text`; `None` where it reports
/// an error.
pub uninterp spec fn parsed_json(text: Seq<char>) -> Option<JsonTree>;

/// The text that `json::JsonValue::dump` prints for a value that holds `tree`.
pub uninterp spec fn dumped_json(tree: JsonTree) -> Seq<char>;

/// Calls `json::parse`. Its result depends on the text alone: an error means
/// that the text is no JSON document.
#[verifier::external_body]
pub(crate) fn parse_json(text: &str) -> (r: Result<json::JsonValue, json::Error>)
    ensures
        match r {
            Ok(value) => parsed_json(text@) == Some(json_tree(value)),
            Err(_) => parsed_json(text@) is None,
        },
{
    json::parse(text)
}

/// Calls `json::JsonValue::dump`, which prints the value as compact JSON.
/// What it prints depends on what the value holds alone.
#[verifier::external_body]
pub(crate) fn dump_json(value: &json::JsonValue) -> (text: String)
    ensures
        text@ == dumped_json(json_tree(*value)),
{
    value.dump()
}

/// Copies a `json::JsonValue` into a `JsonDoc`, variant by variant. Both
/// string variants become `Text`; a number is taken apart by
/// `Number::as_parts` and `Number::is_nan`; the members of an object come in
/// the order of `Object::iter`, which is the order in which they were added.
#[verifier::external_body]
pub(crate) fn json_doc_of(value: &json::JsonValue) -> (doc: JsonDoc)
    ensures
        doc@ == json_tree(*value),
{
    match value {
        json::JsonValue::Null => JsonDoc::Null,
        json::JsonValue::Short(text) => JsonDoc::Text(text.as_str().to_string()),
        json::JsonValue::String(text) => JsonDoc::Text(text.clone()),
        json::JsonValue::Number(number) => {
            let (positive, mantissa, exponent) = number.as_parts();
            JsonDoc::Number { nan: number.is_nan(), positive, mantissa, exponent }
        },
        json::JsonValue::Boolean(b) => JsonDoc::Boolean(*b),
        json::JsonValue::Object(object) => JsonDoc::Object(
            object.iter().map(|(key, member)| (key.to_string(), json_doc_of(member))).collect(),
        ),
        json::JsonValue::Array(items) => JsonDoc::Array(items.iter().map(json_doc_of).collect()),
    }
}

/// Builds the `json::JsonValue` that holds what `doc` holds, variant by
/// variant. A number goes through `Number::from_parts`, which strips trailing
/// zeros behind the decimal point and cannot make a value that is no number;
/// an object is collected member by member, a later member replacing an
/// earlier one of the same name. Hence the demand that `doc` has none of these.
#[verifier::external_body]
pub(crate) fn json_value_of(doc: &JsonDoc) -> (value: json::JsonValue)
    requires
        spec_canonical(doc@),
    ensures
        json_tree(value) == doc@,
{
    match doc {
        JsonDoc::Null => json::JsonValue::Null,
        JsonDoc::Text(text) => json::JsonValue::String(text.clone()),
        JsonDoc::Number { positive, mantissa, exponent, .. } => json::JsonValue::Number(
            json::number::Number::from_parts(*positive, *mantissa, *exponent),
        ),
        JsonDoc::Boolean(b) => json::JsonValue::Boolean(*b),
        JsonDoc::Object(members) => json::JsonValue::Object(
            members.iter().map(|(key, member)| (key.as_str(), json_value_of(member))).collect(),
        ),
        JsonDoc::Array(items) => json::JsonValue::Array(items.iter().map(json_value_of).collect()),
    }
}

/// Calls `json::JsonValue::push` on the member `key` of `value`, reached by
/// indexing. Where that member is an array, `push` adds `item` at its end and
/// nothing else changes.
#[verifier::external_body]
pub(crate) fn push_member(value: &mut json::JsonValue, key: &str, item: json::JsonValue)
    requires
        spec_member(json_tree(*old(value)), key@) matches Some(JsonTree::Array(_)),
    ensures
        json_tree(*final(value)) == spec_push_member(
            json_tree(*old(value)),
            key@,
            json_tree(item),
        ),
{
    let _ = value[key].push(item);
}

/// Where the first `i` members are not named `key`, the search goes on
/// behind them.
pub proof fn lemma_find_skips(members: Seq<JsonMember>, key: Seq<char>, i: int)
    requires
        0 <= i <= members.len(),
        forall|k: int| 0 <= k < i ==> (#[trigger] members[k]).name != key,
    ensures
        spec_find(members, key) == match spec_find(members.skip(i), key) {
            Some(j) => Some(i + j),
            None => None,
        },
    decreases i,
{
    if i == 0 {
        assert(members.skip(0) == members);
    } else {
        let rest = members.drop_first();
        assert forall|k: int| 0 <= k < i - 1 implies (#[trigger] rest[k]).name != key by {
        }
        lemma_find_skips(rest, key, i - 1);
        assert(rest.skip(i - 1) == members.skip(i));
    }
}

/// The member of object `doc` that is named `key`.
pub fn member<'a>(doc: &'a JsonDoc, key: &str) -> (found: Option<&'a JsonDoc>)
    ensures
        match spec_member(doc@, key@) {
            Some(tree) => found matches Some(value) && value@ == tree,
            None => found is None,
        },
{
    match doc {
        JsonDoc::Object(members) => {
            let ghost trees = match doc@ {
                JsonTree::Object(m) => m,
                _ => Seq::empty(),
            };
            let mut i: usize = 0;
            while i < members.len()
                invariant
                    i <= members.len(),
                    doc matches JsonDoc::Object(m) && m == members,
                    doc@ == JsonTree::Object(trees),
                    trees.len() == members.len(),
                    forall|k: int|
                        0 <= k < trees.len() ==> #[trigger] trees[k] == (JsonMember {
                            name: members@[k].0@,
                            value: members@[k].1@,
                        }),
                    forall|k: int| 0 <= k < i ==> (#[trigger] trees[k]).name != key@,
                decreases members.len() - i,
            {
                if same_text(members[i].0.as_str(), key) {
                    proof {
                        lemma_find_skips(trees, key@, i as int);
                    }
                    return Some(&members[i].1);
                }
                i += 1;
            }
            proof {
                lemma_find_skips(trees, key@, trees.len() as int);
            }
            None
        },
        _ => None,
    }
}

/// The number that `doc` holds, where it is a whole number written without
/// exponent that fits in 32 bits.
pub fn as_u32(doc: &JsonDoc) -> (number: Option<u32>)
    ensures
        number == spec_as_u32(doc@),
{
    match doc {
        JsonDoc::Number { nan, positive, mantissa, exponent } => {
            if !*nan && *positive && *exponent == 0 && *mantissa <= 0xffff_ffff {
                Some(*mantissa as u32)
            } else {
                None
            }
        },
        _ => None,
    }
}

/// The text that `doc` holds, where it is a string.
pub fn as_text(doc: &JsonDoc) -> (text: Option<&String>)
    ensures
        match spec_as_text(doc@) {
            Some(chars) => text matches Some(found) && found@ == chars,
            None => text is None,
        },
{
    match doc {
        JsonDoc::Text(text) => Some(text),
        _ => None,
    }
}

/// Replacing the value of one member leaves every search for a name as it
/// was.
pub proof fn lemma_find_update(members: Seq<JsonMember>, key: Seq<char>, i: int, value: JsonTree)
    requires
        0 <= i < members.len(),
    ensures
        spec_find(members.update(i, JsonMember { name: members[i].name, value }), key)
            == spec_find(members, key),
    decreases members.len(),
{
    let changed = members.update(i, JsonMember { name: members[i].name, value });
    if i == 0 {
        assert(changed.drop_first() == members.drop_first());
    } else {
        lemma_find_update(members.drop_first(), key, i - 1, value);
        assert(changed.drop_first() == members.drop_first().update(
            i - 1,
            JsonMember { name: members.drop_first()[i - 1].name, value },
        ));
    }
}

/// Where a search finds a member, it finds it inside the object and under
/// the name that was asked for.
pub proof fn lemma_find_in_range(members: Seq<JsonMember>, key: Seq<char>)
    ensures
        spec_find(members, key) matches Some(i) ==> 0 <= i < members.len() && members[i].name
            == key,
    decreases members.len(),
{
    if members.len() > 0 && members[0].name != key {
        lemma_find_in_range(members.drop_first(), key);
    }
}

/// After `item` is added to the array under `key`, that member holds the
/// array with `item` at its end, and every other member is as it was.
pub proof fn lemma_push_member(tree: JsonTree, key: Seq<char>, item: JsonTree, other: Seq<char>)
    requires
        spec_member(tree, key) matches Some(JsonTree::Array(_)),
    ensures
        spec_member(spec_push_member(tree, key, item), key) == Some(
            JsonTree::Array(spec_member(tree, key)->0->Array_0.push(item)),
        ),
        other != key ==> spec_member(spec_push_member(tree, key, item), other) == spec_member(
            tree,
            other,
        ),
{
    let members = tree->Object_0;
    let i = spec_find(members, key)->0;
    let items = members[i].value->Array_0;
    lemma_find_in_range(members, key);
    lemma_find_in_range(members, other);
    let value = JsonTree::Array(items.push(item));
    lemma_find_update(members, key, i, value);
    lemma_find_update(members, other, i, value);
}

} // verus!
