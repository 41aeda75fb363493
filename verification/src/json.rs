//! JSON values as the decoder reads them, and the parser that produces them.

use vstd::prelude::*;
use crate::utils::{integer_text, plain_decimal};

verus! {

#[verifier::external_type_specification]
#[verifier::external_body]
pub struct ExJsonValue(serde_json::Value);

#[verifier::external_type_specification]
#[verifier::external_body]
pub struct ExJsonError(serde_json::Error);

/// A JSON value. A number carries its value as a 64-bit integer where it
/// has one, beside its text.
#[derive(Debug)]
pub enum Json {
    Null,
    Bool(bool),
    Number(Option<i64>, String),
    Text(String),
    Array(Vec<Json>),
    Object(Vec<(String, Json)>),
}

/// The mathematical content of a [`Json`] value.
pub ghost enum JsonModel {
    Null,
    Bool(bool),
    Number(Option<i64>, Seq<char>),
    Text(Seq<char>),
    Array(Seq<JsonModel>),
    Object(Seq<(Seq<char>, JsonModel)>),
}

/// The content of a value, element by element.
pub open spec fn json_model(value: Json) -> JsonModel
    decreases value,
{
    match value {
        Json::Null => JsonModel::Null,
        Json::Bool(b) => JsonModel::Bool(b),
        Json::Number(exact, text) => JsonModel::Number(exact, text@),
        Json::Text(text) => JsonModel::Text(text@),
        Json::Array(items) => JsonModel::Array(
            Seq::new(
                items@.len(),
                |i: int|
                    if 0 <= i < items@.len() {
                        json_model(items@[i])
                    } else {
                        JsonModel::Null
                    },
            ),
        ),
        Json::Object(fields) => JsonModel::Object(
            Seq::new(
                fields@.len(),
                |i: int|
                    if 0 <= i < fields@.len() {
                        (fields@[i].0@, json_model(fields@[i].1))
                    } else {
                        (Seq::empty(), JsonModel::Null)
                    },
            ),
        ),
    }
}

impl View for Json {
    type V = JsonModel;

    open spec fn view(&self) -> JsonModel {
        json_model(*self)
    }
}

/// The content of each value of a list.
pub open spec fn models(items: Seq<Json>) -> Seq<JsonModel> {
    Seq::new(items.len(), |i: int| items[i]@)
}

impl JsonModel {
    /// The value as a 64-bit integer, for a number that has one.
    pub open spec fn as_i64(self) -> Option<i64> {
        match self {
            JsonModel::Number(exact, _) => exact,
            _ => None,
        }
    }

    /// The characters of a string value.
    pub open spec fn as_text(self) -> Option<Seq<char>> {
        match self {
            JsonModel::Text(text) => Some(text),
            _ => None,
        }
    }

    /// The elements of an array value.
    pub open spec fn as_items(self) -> Option<Seq<JsonModel>> {
        match self {
            JsonModel::Array(items) => Some(items),
            _ => None,
        }
    }
}

/// An array's content is the content of its elements.
pub proof fn lemma_array_model(items: Vec<Json>)
    ensures
        Json::Array(items)@ == JsonModel::Array(models(items@)),
{
    reveal_with_fuel(json_model, 2);
    assert(Json::Array(items)@->Array_0 =~= models(items@));
}

impl Json {
    /// The number `n`.
    pub fn integer(n: i64) -> (value: Json)
        ensures
            value@ == JsonModel::Number(Some(n), plain_decimal(n as int)),
    {
        Json::Number(Some(n), integer_text(n as i128))
    }

    /// The string `text`.
    pub fn text(text: &str) -> (value: Json)
        ensures
            value@ == JsonModel::Text(text@),
    {
        Json::Text(String::from_str(text))
    }

    /// The array of `items`.
    pub fn array(items: Vec<Json>) -> (value: Json)
        ensures
            value@ == JsonModel::Array(models(items@)),
    {
        proof {
            lemma_array_model(items);
        }
        Json::Array(items)
    }

    /// The value as a 64-bit integer, for a number that has one.
    pub fn as_i64(&self) -> (exact: Option<i64>)
        ensures
            exact == self@.as_i64(),
    {
        match self {
            Json::Number(exact, _) => *exact,
            _ => None,
        }
    }

    /// The characters of a string value.
    pub fn as_str(&self) -> (text: Option<&str>)
        ensures
            text.deep_view() == self@.as_text(),
    {
        match self {
            Json::Text(text) => Some(text.as_str()),
            _ => None,
        }
    }

    /// The elements of an array value.
    pub fn as_array(&self) -> (items: Option<&Vec<Json>>)
        ensures
            match items {
                Some(v) => self@.as_items() == Some(models(v@)),
                None => self@.as_items() is None,
            },
    {
        match self {
            Json::Array(items) => {
                proof {
                    lemma_array_model(*items);
                }
                Some(items)
            },
            _ => None,
        }
    }
}

/// What `serde_json::from_str` makes of a text that is read as a list of
/// values: the content of the list, or nothing where the text is refused.
pub uninterp spec fn json_array_of_text(text: Seq<char>) -> Option<Seq<JsonModel>>;

/// Turns a `serde_json::Value` into a [`Json`], variant by variant. For a
/// number it keeps what `Number::as_i64` and the number's `Display` give;
/// the fields of an object come in the order in which the map hands them out.
#[verifier::external_body]
fn json_from_value(value: serde_json::Value) -> Json {
    match value {
        serde_json::Value::Null => Json::Null,
        serde_json::Value::Bool(b) => Json::Bool(b),
        serde_json::Value::Number(n) => Json::Number(n.as_i64(), n.to_string()),
        serde_json::Value::String(s) => Json::Text(s),
        serde_json::Value::Array(a) => Json::Array(a.into_iter().map(json_from_value).collect()),
        serde_json::Value::Object(o) => Json::Object(
            o.into_iter().map(|(k, v)| (k, json_from_value(v))).collect(),
        ),
    }
}

/// Calls `serde_json::from_str` for a `Vec<serde_json::Value>` and converts
/// each value. The parser reads nothing but the text, so the contract names
/// the outcome after the text: a list with that content, or an error
/// exactly where the name gives nothing.
#[verifier::external_body]
pub(crate) fn json_array_from_str(text: &str) -> (r: Result<Vec<Json>, serde_json::Error>)
    ensures
        match r {
            Ok(items) => json_array_of_text(text@) == Some(models(items@)),
            Err(_) => json_array_of_text(text@) is None,
        },
{
    match serde_json::from_str::<Vec<serde_json::Value>>(text) {
        Ok(values) => Ok(values.into_iter().map(json_from_value).collect()),
        Err(e) => Err(e),
    }
}

/// Calls the `Display` of `serde_json::Error`, which describes the error
/// and where in the text it was met. Nothing is claimed of the message.
#[verifier::external_body]
pub(crate) fn json_error_text(error: &serde_json::Error) -> String {
    error.to_string()
}

} // verus!
