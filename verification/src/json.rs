//! A plain model of JSON documents.
//!
//! The daemon answers every query with a JSON document whose schema it owns;
//! this module gives the library a value type for such documents. Numbers are
//! carried in their decimal text form, exactly as `serde_json` renders them,
//! so the type holds no floating point and stays fully visible to the
//! verifier.
use vstd::prelude::*;

verus! {

broadcast use vstd::std_specs::vec::group_vec_axioms, vstd::seq::group_seq_axioms;

/// A JSON document as a plain value: numbers by their decimal text,
/// object members in the order the parser yields them (sorted by key).
#[derive(Debug, PartialEq, Eq)]
pub enum JsonValue {
    Null,
    Bool(bool),
    Num(String),
    Text(String),
    Array(Vec<JsonValue>),
    Object(Vec<(String, JsonValue)>),
}

/// The mathematical shape of a JSON document, with every string a `Seq<char>`.
pub enum JsonSpec {
    Null,
    Bool(bool),
    Num(Seq<char>),
    Text(Seq<char>),
    Array(Seq<JsonSpec>),
    Object(Seq<(Seq<char>, JsonSpec)>),
}

/// The shape of a `JsonValue`, member by member.
pub open spec fn json_view(v: JsonValue) -> JsonSpec
    decreases v,
{
    match v {
        JsonValue::Null => JsonSpec::Null,
        JsonValue::Bool(b) => JsonSpec::Bool(b),
        JsonValue::Num(s) => JsonSpec::Num(s@),
        JsonValue::Text(s) => JsonSpec::Text(s@),
        JsonValue::Array(a) => JsonSpec::Array(arr_view(a@)),
        JsonValue::Object(o) => JsonSpec::Object(obj_view(o@)),
    }
}

/// The shapes of the elements of a JSON array.
pub open spec fn arr_view(s: Seq<JsonValue>) -> Seq<JsonSpec>
    decreases s,
{
    if s.len() == 0 {
        Seq::empty()
    } else {
        arr_view(s.drop_last()).push(json_view(s.last()))
    }
}

/// The shapes of the members of a JSON object.
pub open spec fn obj_view(s: Seq<(String, JsonValue)>) -> Seq<(Seq<char>, JsonSpec)>
    decreases s,
{
    if s.len() == 0 {
        Seq::empty()
    } else {
        obj_view(s.drop_last()).push((s.last().0@, json_view(s.last().1)))
    }
}

impl View for JsonValue {
    type V = JsonSpec;

    open spec fn view(&self) -> JsonSpec {
        json_view(*self)
    }
}

/// An array's shape has one entry per element: the element's own shape.
pub proof fn lemma_arr_view(s: Seq<JsonValue>)
    ensures
        arr_view(s).len() == s.len(),
        forall|i: int| 0 <= i < s.len() ==> arr_view(s)[i] == json_view(s[i]),
    decreases s.len(),
{
    if s.len() > 0 {
        lemma_arr_view(s.drop_last());
    }
}

/// An object's shape has one entry per member: the key's characters and the
/// value's shape.
pub proof fn lemma_obj_view(s: Seq<(String, JsonValue)>)
    ensures
        obj_view(s).len() == s.len(),
        forall|i: int| 0 <= i < s.len() ==> obj_view(s)[i] == (s[i].0@, json_view(s[i].1)),
    decreases s.len(),
{
    if s.len() > 0 {
        lemma_obj_view(s.drop_last());
    }
}

#[verifier::external_type_specification]
#[verifier::external_body]
pub struct ExValue(serde_json::Value);

/// The document that a piece of text holds, when it is valid JSON: what
/// `serde_json::from_str::<serde_json::Value>` parses, with numbers rendered
/// to decimal text and object members sorted by key, as that crate yields
/// them. `None` when the text is not valid JSON.
pub uninterp spec fn json_of(s: Seq<char>) -> Option<JsonSpec>;

/// Relies on `serde_json::from_str::<serde_json::Value>` to decide whether
/// the text is valid JSON and to parse it; the parsed document, carried over
/// member by member into `JsonValue`, is named `json_of`. The error text is
/// the parser's own message.
#[verifier::external_body]
pub(crate) fn parse_json(body: &str) -> (r: Result<JsonValue, String>)
    ensures
        r is Ok <==> json_of(body@) is Some,
        r matches Ok(v) ==> json_of(body@) == Some(v@),
{
    match serde_json::from_str::<serde_json::Value>(body) {
        Ok(v) => Ok(convert_value(v)),
        Err(e) => Err(e.to_string()),
    }
}

/// Carries a `serde_json` document over into `JsonValue`, variant by
/// variant: numbers by their decimal text, arrays and objects member by
/// member. Read together with `parse_json`, whose contract covers the pair.
#[verifier::external_body]
fn convert_value(v: serde_json::Value) -> JsonValue {
    match v {
        serde_json::Value::Null => JsonValue::Null,
        serde_json::Value::Bool(b) => JsonValue::Bool(b),
        serde_json::Value::Number(n) => JsonValue::Num(n.to_string()),
        serde_json::Value::String(s) => JsonValue::Text(s),
        serde_json::Value::Array(a) => JsonValue::Array(
            a.into_iter().map(convert_value).collect(),
        ),
        serde_json::Value::Object(m) => JsonValue::Object(
            m.into_iter().map(|p| (p.0, convert_value(p.1))).collect(),
        ),
    }
}

} // verus!
