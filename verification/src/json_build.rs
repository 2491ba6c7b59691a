//! JSON texts put together from plain values.

use crate::viewer::structured::{json_shape, json_shape_of};
use serde_json::Value;
use vstd::prelude::*;
use vstd::string::*;

verus! {

/// The value of a field of a JSON object.
#[derive(Debug, Clone, PartialEq, Eq)]
pub enum JsonField {
    Null,
    Bool(bool),
    Number(u64),
    Text(String),
    /// A value that is JSON text already.
    Raw(String),
}

/// A field value as a value of specifications.
pub enum JsonFieldModel {
    Null,
    Bool(bool),
    Number(u64),
    Text(Seq<char>),
    Raw(Seq<char>),
}

impl DeepView for JsonField {
    type V = JsonFieldModel;

    open spec fn deep_view(&self) -> JsonFieldModel {
        match self {
            JsonField::Null => JsonFieldModel::Null,
            JsonField::Bool(b) => JsonFieldModel::Bool(*b),
            JsonField::Number(n) => JsonFieldModel::Number(*n),
            JsonField::Text(text) => JsonFieldModel::Text(text@),
            JsonField::Raw(text) => JsonFieldModel::Raw(text@),
        }
    }
}

/// The fields of an object as values of specifications.
pub open spec fn field_models(fields: Seq<(String, JsonField)>) -> Seq<(Seq<char>, JsonFieldModel)> {
    Seq::new(fields.len(), |i: int| (fields[i].0@, fields[i].1.deep_view()))
}

/// Whether `serde_json` reads a text as a JSON value: the text has a
/// shape.
pub open spec fn is_json(text: Seq<char>) -> bool {
    json_shape_of(text) is Some
}

/// The compact text that `serde_json` writes for an object with the given
/// fields, each raw field being a JSON text.
pub uninterp spec fn json_object_text(fields: Seq<(Seq<char>, JsonFieldModel)>) -> Seq<char>;

/// The compact text that `serde_json` writes for an array of the given
/// values, each raw value being a JSON text.
pub uninterp spec fn json_array_text(items: Seq<JsonFieldModel>) -> Seq<char>;

/// Whether each raw value is a JSON text.
pub open spec fn items_are_json(items: Seq<JsonFieldModel>) -> bool {
    forall|i: int|
        0 <= i < items.len() ==> (#[trigger] items[i] matches JsonFieldModel::Raw(text)
            ==> is_json(text))
}

/// Whether each raw field is a JSON text.
pub open spec fn raw_fields_are_json(fields: Seq<(Seq<char>, JsonFieldModel)>) -> bool {
    forall|i: int|
        0 <= i < fields.len() ==> (#[trigger] fields[i].1 matches JsonFieldModel::Raw(text)
            ==> is_json(text))
}

/// A text as a raw value where it is a JSON text, and null where it is
/// none.
pub open spec fn raw_or_null(text: Seq<char>) -> JsonFieldModel {
    if is_json(text) {
        JsonFieldModel::Raw(text)
    } else {
        JsonFieldModel::Null
    }
}

/// Puts the fields into a `serde_json::Map` and writes it with the
/// `to_string` of `serde_json::Value`. A raw field is read with
/// `serde_json::from_str`: there is a text if and only if each of them is
/// read.
#[verifier::external_body]
pub(crate) fn json_object(fields: &Vec<(String, JsonField)>) -> (text: Option<String>)
    ensures
        text is Some <==> raw_fields_are_json(field_models(fields@)),
        text matches Some(t) ==> t@ == json_object_text(field_models(fields@)),
{
    let mut map = serde_json::Map::new();
    for (key, field) in fields {
        let value = match field {
            JsonField::Null => Value::Null,
            JsonField::Bool(b) => Value::from(*b),
            JsonField::Number(n) => Value::from(*n),
            JsonField::Text(text) => Value::from(text.as_str()),
            JsonField::Raw(text) => serde_json::from_str(text).ok()?,
        };
        map.insert(key.clone(), value);
    }
    Some(Value::Object(map).to_string())
}

/// Writes the array of the values with the `to_string` of
/// `serde_json::Value`. A raw value is read with `serde_json::from_str`:
/// there is a text if and only if each of them is read.
#[verifier::external_body]
pub(crate) fn json_array(items: &Vec<JsonField>) -> (text: Option<String>)
    ensures
        text is Some <==> items_are_json(items.deep_view()),
        text matches Some(t) ==> t@ == json_array_text(items.deep_view()),
{
    let mut values = Vec::new();
    for field in items {
        values.push(match field {
            JsonField::Null => Value::Null,
            JsonField::Bool(b) => Value::from(*b),
            JsonField::Number(n) => Value::from(*n),
            JsonField::Text(text) => Value::from(text.as_str()),
            JsonField::Raw(text) => serde_json::from_str(text).ok()?,
        });
    }
    Some(Value::Array(values).to_string())
}

/// A text as a raw value where `serde_json` reads it, and null where it
/// does not.
pub fn raw_value(text: String) -> (field: JsonField)
    ensures
        field.deep_view() == raw_or_null(text@),
{
    match json_shape(text.as_str()) {
        Some(_) => JsonField::Raw(text),
        None => JsonField::Null,
    }
}

} // verus!
