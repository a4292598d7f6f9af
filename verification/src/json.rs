//! The feed document as a JSON tree of plain values.
//!
//! The upstream feed is a JSON document.  Parsing the document text is
//! serde_json's work, behind a small trusted boundary; everything the
//! decoder then does happens on [`Json`], a tree the verifier can see
//! into, so the whole schema walk is verified.

use vstd::prelude::*;

verus! {

/// One JSON value, held as plain values that contracts can speak of.
///
/// Feed numbers are integers; a parsed number that does not fit `i64`
/// (the feed has none) is read as `Null` and then rejected by the
/// decoder wherever an integer is required.
pub enum Json {
    Null,
    Bool(bool),
    Int(i64),
    Str(String),
    Arr(Vec<Json>),
    Obj(Vec<JsonField>),
}

/// One key/value member of a JSON object.
pub struct JsonField {
    pub key: String,
    pub value: Json,
}

/// The kind of a JSON value, named in type-mismatch errors.
#[derive(Clone, Copy, Debug, PartialEq, Eq, Structural)]
pub enum JsonKind {
    Null,
    Bool,
    Int,
    Str,
    Arr,
    Obj,
}

pub open spec fn kind_of(j: Json) -> JsonKind {
    match j {
        Json::Null => JsonKind::Null,
        Json::Bool(_) => JsonKind::Bool,
        Json::Int(_) => JsonKind::Int,
        Json::Str(_) => JsonKind::Str,
        Json::Arr(_) => JsonKind::Arr,
        Json::Obj(_) => JsonKind::Obj,
    }
}

impl Json {
    /// The kind of this value.
    pub fn kind(&self) -> (k: JsonKind)
        ensures
            k == kind_of(*self),
    {
        match self {
            Json::Null => JsonKind::Null,
            Json::Bool(_) => JsonKind::Bool,
            Json::Int(_) => JsonKind::Int,
            Json::Str(_) => JsonKind::Str,
            Json::Arr(_) => JsonKind::Arr,
            Json::Obj(_) => JsonKind::Obj,
        }
    }
}

/// The value of the first member named `key`, if any.  Objects from
/// the parser carry each key once, so the first member is the member.
pub open spec fn spec_get(fields: Seq<JsonField>, key: Seq<char>) -> Option<Json>
    decreases fields.len(),
{
    if fields.len() == 0 {
        None
    } else if fields[0].key@ == key {
        Some(fields[0].value)
    } else {
        spec_get(fields.drop_first(), key)
    }
}

/// Looks a member up by name.
#[verifier::loop_isolation(false)]
pub fn get_field<'a>(fields: &'a Vec<JsonField>, key: &String) -> (r: Option<&'a Json>)
    ensures
        match r {
            Some(v) => spec_get(fields@, key@) == Some(*v),
            None => spec_get(fields@, key@) is None,
        },
{
    proof {
        assert(fields@.subrange(0, fields@.len() as int) =~= fields@);
    }
    let n = fields.len();
    let mut i: usize = 0;
    while i < n
        invariant
            n == fields@.len(),
            0 <= i <= n,
            spec_get(fields@, key@) == spec_get(
                fields@.subrange(i as int, fields@.len() as int),
                key@,
            ),
        decreases n - i,
    {
        let ghost tail = fields@.subrange(i as int, fields@.len() as int);
        proof {
            assert(tail[0] == fields@[i as int]);
        }
        if fields[i].key == *key {
            return Some(&fields[i].value);
        }
        proof {
            assert(tail.drop_first() =~= fields@.subrange(i + 1 as int, fields@.len() as int));
        }
        i += 1;
    }
    None
}

// ---------------------------------------------------------------------
// The trusted boundary around serde_json.
// ---------------------------------------------------------------------

#[verifier::external_type_specification]
#[verifier::external_body]
pub struct ExValue(serde_json::Value);

/// The JSON tree written by a document text, `None` when the text is
/// not a valid JSON document.  What `serde_json::from_str` returns,
/// carried over into [`Json`], is a function of the text alone; this
/// name stands for it.
pub uninterp spec fn json_tree_of(s: Seq<char>) -> Option<Json>;

/// Relies on `serde_json::from_str`: parses the document text as JSON,
/// a function of the text alone, `None` exactly on invalid documents;
/// `json_value_to_tree` carries the parsed value over, so the tree's
/// shape is taken on trust under the name `json_tree_of`.
#[verifier::external_body]
pub(crate) fn parse_json_text(s: &str) -> (r: Option<Json>)
    ensures
        r == json_tree_of(s@),
{
    match serde_json::from_str::<serde_json::Value>(s) {
        Ok(v) => Some(json_value_to_tree(&v)),
        Err(_) => None,
    }
}

/// Relies on `serde_json::Value` and `Number::as_i64`: one arm for
/// each variant of the parsed value, moved field by field into the
/// library's tree; object members come out in the map's own (sorted)
/// order, and a number outside `i64` is read as `Null`.  Called only
/// by `parse_json_text`, whose contract covers the composition.
#[verifier::external_body]
fn json_value_to_tree(v: &serde_json::Value) -> Json {
    match v {
        serde_json::Value::Null => Json::Null,
        serde_json::Value::Bool(b) => Json::Bool(*b),
        serde_json::Value::Number(n) => match n.as_i64() {
            Some(i) => Json::Int(i),
            None => Json::Null,
        },
        serde_json::Value::String(s) => Json::Str(s.clone()),
        serde_json::Value::Array(a) => Json::Arr(a.iter().map(json_value_to_tree).collect()),
        serde_json::Value::Object(o) => Json::Obj(
            o.iter().map(
                |(k, x)| JsonField { key: k.clone(), value: json_value_to_tree(x) },
            ).collect(),
        ),
    }
}

} // verus!
