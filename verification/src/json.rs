//! JSON trees: the wire form of what is sent to Ollama.

use serde_json::Value;
use vstd::prelude::*;

verus! {

/// A JSON tree over borrowed texts. The members of an object stand in the order in which they are
/// written. A floating-point number is held by its bits, and a value of an unknown shape as it is.
#[derive(Debug, PartialEq)]
pub enum Json<'a> {
    Null,
    Bool(bool),
    Integer(i128),
    Double { bits: u64 },
    Str(&'a str),
    Array(Vec<Json<'a>>),
    Object(Vec<(&'a str, Json<'a>)>),
    Raw(&'a Value),
}

/// `Json` over sequences.
pub enum JsonModel {
    Null,
    Bool(bool),
    Integer(int),
    Double { bits: u64 },
    Str(Seq<char>),
    Array(Seq<JsonModel>),
    Object(Seq<(Seq<char>, JsonModel)>),
    Raw(Value),
}

impl<'a> Json<'a> {
    pub open spec fn model(self) -> JsonModel
        decreases self,
    {
        match self {
            Json::Null => JsonModel::Null,
            Json::Bool(value) => JsonModel::Bool(value),
            Json::Integer(value) => JsonModel::Integer(value as int),
            Json::Double { bits } => JsonModel::Double { bits: bits },
            Json::Str(text) => JsonModel::Str(text@),
            Json::Array(items) => JsonModel::Array(
                Seq::new(
                    items@.len(),
                    |i: int|
                        if 0 <= i < items@.len() {
                            items@[i].model()
                        } else {
                            JsonModel::Null
                        },
                ),
            ),
            Json::Object(members) => JsonModel::Object(
                Seq::new(
                    members@.len(),
                    |i: int|
                        if 0 <= i < members@.len() {
                            (members@[i].0@, members@[i].1.model())
                        } else {
                            (Seq::empty(), JsonModel::Null)
                        },
                ),
            ),
            Json::Raw(value) => JsonModel::Raw(*value),
        }
    }
}

impl<'a> DeepView for Json<'a> {
    type V = JsonModel;

    open spec fn deep_view(&self) -> JsonModel {
        self.model()
    }
}

/// An array of the items.
pub fn array<'a>(items: Vec<Json<'a>>) -> (json: Json<'a>)
    ensures
        json.deep_view() == JsonModel::Array(items.deep_view()),
{
    let ghost models = items.deep_view();
    let json = Json::Array(items);
    assert(json.deep_view()->Array_0 == models);
    json
}

/// An object with the members.
pub fn object<'a>(members: Vec<(&'a str, Json<'a>)>) -> (json: Json<'a>)
    ensures
        json.deep_view() == JsonModel::Object(members.deep_view()),
{
    let ghost models = members.deep_view();
    let json = Json::Object(members);
    assert(json.deep_view()->Object_0 == models);
    json
}

/// Adds a member at the end.
pub fn add_member<'a>(members: &mut Vec<(&'a str, Json<'a>)>, name: &'a str, value: Json<'a>)
    ensures
        final(members).deep_view() == old(members).deep_view().push((name@, value.deep_view())),
{
    let ghost before = members.deep_view();
    members.push((name, value));
    assert(members.deep_view() == before.push((name@, value.deep_view())));
}

/// The member with that name and value, if there is a value.
pub open spec fn optional_member(name: Seq<char>, value: Option<JsonModel>) -> Seq<
    (Seq<char>, JsonModel),
> {
    match value {
        Some(value) => seq![(name, value)],
        None => Seq::empty(),
    }
}

/// Adds a member at the end if there is a value for it.
pub fn add_optional_member<'a>(
    members: &mut Vec<(&'a str, Json<'a>)>,
    name: &'a str,
    value: Option<Json<'a>>,
)
    ensures
        final(members).deep_view() == old(members).deep_view() + optional_member(
            name@,
            value.deep_view(),
        ),
{
    let ghost before = members.deep_view();
    if let Some(value) = value {
        add_member(members, name, value);
    }
    assert(members.deep_view() == before + optional_member(name@, value.deep_view()));
}

} // verus!
