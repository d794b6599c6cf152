use vstd::prelude::*;
use vstd::string::StringExecFns;
use crate::text::text_eq;

verus! {

/// The top level of a JSON value. The items of an array and the values of an object are
/// kept as their compact JSON text, to be parsed in turn where they are needed.
pub enum Json {
    Null,
    Bool(bool),
    Number(String),
    Str(String),
    Array(Vec<String>),
    Object(Vec<(String, String)>),
}

/// The top level of a JSON value, with its texts taken as sequences of characters.
pub enum JsonModel {
    Null,
    Bool(bool),
    Number(Seq<char>),
    Str(Seq<char>),
    Array(Seq<Seq<char>>),
    Object(Seq<(Seq<char>, Seq<char>)>),
}

impl View for Json {
    type V = JsonModel;

    open spec fn view(&self) -> JsonModel {
        match self {
            Json::Null => JsonModel::Null,
            Json::Bool(b) => JsonModel::Bool(*b),
            Json::Number(n) => JsonModel::Number(n@),
            Json::Str(s) => JsonModel::Str(s@),
            Json::Array(items) => JsonModel::Array(items.deep_view()),
            Json::Object(members) => JsonModel::Object(members.deep_view()),
        }
    }
}

/// A parse result, with its texts taken as sequences of characters.
pub open spec fn parsed_view(r: Result<Json, String>) -> Result<JsonModel, Seq<char>> {
    match r {
        Ok(j) => Ok(j@),
        Err(m) => Err(m@),
    }
}

/// What serde_json makes of a text: `Err` with the text of its error where the text is not
/// JSON, else the top level of the value, with the items of an array and the values of an
/// object written back as compact JSON text, and the members of an object in the order of
/// serde_json's map.
pub uninterp spec fn json_parse(text: Seq<char>) -> Result<JsonModel, Seq<char>>;

/// The names of the members of an object are all different.
pub open spec fn distinct_names(members: Seq<(Seq<char>, Seq<char>)>) -> bool {
    forall|i: int, j: int|
        0 <= i < members.len() && 0 <= j < members.len() && i != j ==> #[trigger] members[i].0
            != #[trigger] members[j].0
}

/// Parses a text with `serde_json::from_str` into a `serde_json::Value` and converts its top
/// level variant for variant; array items and object values are written back with the
/// value's `Display` (compact JSON text). The contract claims that the result is what
/// serde_json computes from the text (the name `json_parse`), and that the names of an
/// object's members differ, as serde_json's map holds each name once.
#[verifier::external_body]
pub(crate) fn parse_json(text: &str) -> (r: Result<Json, String>)
    ensures
        parsed_view(r) == json_parse(text@),
        r matches Ok(Json::Object(m)) ==> distinct_names(m.deep_view()),
{
    let v: serde_json::Value = serde_json::from_str(text).map_err(|e| e.to_string())?;
    Ok(match v {
        serde_json::Value::Null => Json::Null,
        serde_json::Value::Bool(b) => Json::Bool(b),
        serde_json::Value::Number(n) => Json::Number(n.to_string()),
        serde_json::Value::String(s) => Json::Str(s),
        serde_json::Value::Array(a) => Json::Array(a.iter().map(|x| x.to_string()).collect()),
        serde_json::Value::Object(m) => Json::Object(m.iter().map(|(k, x)| (k.clone(), x.to_string())).collect()),
    })
}

/// The value text of the first member named `name`.
pub open spec fn member(members: Seq<(Seq<char>, Seq<char>)>, name: Seq<char>) -> Option<Seq<char>>
    decreases members.len(),
{
    if members.len() == 0 {
        None
    } else if members[0].0 == name {
        Some(members[0].1)
    } else {
        member(members.drop_first(), name)
    }
}

/// The value text under `name` where the parsed value is an object that has it
/// (serde_json's `Value::get` with a name).
pub open spec fn spec_field(parsed: Result<JsonModel, Seq<char>>, name: Seq<char>) -> Option<Seq<char>> {
    match parsed {
        Ok(JsonModel::Object(members)) => member(members, name),
        _ => None,
    }
}

/// The text of item `i` where the parsed value is an array that has it (serde_json's
/// `Value::get` with an index).
pub open spec fn spec_item(parsed: Result<JsonModel, Seq<char>>, i: int) -> Option<Seq<char>> {
    match parsed {
        Ok(JsonModel::Array(items)) => if 0 <= i < items.len() {
            Some(items[i])
        } else {
            None
        },
        _ => None,
    }
}

/// The string where the parsed value is one (serde_json's `Value::as_str`).
pub open spec fn spec_as_str(parsed: Result<JsonModel, Seq<char>>) -> Option<Seq<char>> {
    match parsed {
        Ok(JsonModel::Str(s)) => Some(s),
        _ => None,
    }
}

/// The boolean where the parsed value is one (serde_json's `Value::as_bool`).
pub open spec fn spec_as_bool(parsed: Result<JsonModel, Seq<char>>) -> Option<bool> {
    match parsed {
        Ok(JsonModel::Bool(b)) => Some(b),
        _ => None,
    }
}

/// The value text of the first member named `name`.
pub fn find_member(members: &Vec<(String, String)>, name: &str) -> (r: Option<String>)
    ensures
        r.deep_view() == member(members.deep_view(), name@),
{
    let ghost all = members.deep_view();
    let mut i: usize = 0;
    assert(all.skip(0) =~= all);
    while i < members.len()
        invariant
            i <= members.len(),
            all == members.deep_view(),
            member(all, name@) == member(all.skip(i as int), name@),
        decreases members.len() - i,
    {
        assert(all.skip(i as int)[0] == all[i as int]);
        assert(all.skip(i as int).drop_first() =~= all.skip(i + 1));
        if text_eq(members[i].0.as_str(), name) {
            return Some(members[i].1.clone());
        }
        i = i + 1;
    }
    assert(all.skip(i as int) =~= Seq::<(Seq<char>, Seq<char>)>::empty());
    None
}

/// The value text under `name` where the parsed value is an object that has it.
pub fn field(parsed: &Result<Json, String>, name: &str) -> (r: Option<String>)
    ensures
        r.deep_view() == spec_field(parsed_view(*parsed), name@),
{
    match parsed {
        Ok(Json::Object(members)) => find_member(members, name),
        _ => None,
    }
}

/// The text of item `i` where the parsed value is an array that has it.
pub fn item(parsed: &Result<Json, String>, i: usize) -> (r: Option<String>)
    ensures
        r.deep_view() == spec_item(parsed_view(*parsed), i as int),
{
    match parsed {
        Ok(Json::Array(items)) => if i < items.len() {
            Some(items[i].clone())
        } else {
            None
        },
        _ => None,
    }
}

/// The string where the parsed value is one.
pub fn as_str(parsed: &Result<Json, String>) -> (r: Option<String>)
    ensures
        r.deep_view() == spec_as_str(parsed_view(*parsed)),
{
    match parsed {
        Ok(Json::Str(s)) => Some(s.clone()),
        _ => None,
    }
}

/// The boolean where the parsed value is one.
pub fn as_bool(parsed: &Result<Json, String>) -> (r: Option<bool>)
    ensures
        r == spec_as_bool(parsed_view(*parsed)),
{
    match parsed {
        Ok(Json::Bool(b)) => Some(*b),
        _ => None,
    }
}

} // verus!
