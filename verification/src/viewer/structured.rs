//! Structured documents: JSON, YAML and TOML, reformatted by their parsers,
//! with a line that sums up the shape of the document.

use crate::error::{outcome_view, ViewError, ViewErrorModel};
use crate::textfmt::{decimal, decode_strict, push_decimal};
use crate::viewer::text::{push_rule, rule_line};
use serde_json::Value;
use vstd::prelude::*;
use vstd::string::*;
use vstd::utf8::{decode_utf8, valid_utf8};

verus! {

/// What the first item of a JSON array is: an object, an array, a string,
/// a number or a boolean, and null where it is none of them.
#[derive(Debug, Clone, Copy, PartialEq, Eq, Structural)]
pub struct FirstItem {
    pub is_object: bool,
    pub is_array: bool,
    pub is_string: bool,
    pub is_number: bool,
    pub is_boolean: bool,
}

/// The shape of a JSON value, as far as a summary tells of it.
#[derive(Debug, Clone, PartialEq, Eq)]
pub enum JsonShape {
    Null,
    Bool(bool),
    /// A number, with its text.
    Number(String),
    /// A string, with its length in bytes.
    Text(usize),
    /// An array, with the number of its items and what the first of them
    /// is.
    Array(usize, Option<FirstItem>),
    /// An object, with the number of its keys.
    Object(usize),
}

/// A shape as a value of specifications.
pub enum JsonShapeModel {
    Null,
    Bool(bool),
    Number(Seq<char>),
    Text(nat),
    Array(nat, Option<FirstItem>),
    Object(nat),
}

impl View for JsonShape {
    type V = JsonShapeModel;

    open spec fn view(&self) -> JsonShapeModel {
        match self {
            JsonShape::Null => JsonShapeModel::Null,
            JsonShape::Bool(b) => JsonShapeModel::Bool(*b),
            JsonShape::Number(text) => JsonShapeModel::Number(text@),
            JsonShape::Text(len) => JsonShapeModel::Text(*len as nat),
            JsonShape::Array(len, first) => JsonShapeModel::Array(*len as nat, *first),
            JsonShape::Object(keys) => JsonShapeModel::Object(*keys as nat),
        }
    }
}

/// What became of a YAML or TOML document in the hands of its parser.
#[derive(Debug, Clone, PartialEq, Eq)]
pub enum Reformatted {
    /// The content is no document of the format; the parser's message.
    Invalid(String),
    /// The document was read and could not be written again; the message.
    Unprintable(String),
    /// The document in the parser's own layout, and as compact JSON where
    /// JSON can hold it.
    Valid(String, Option<String>),
}

/// A reformatted document as a value of specifications.
pub enum ReformattedModel {
    Invalid(Seq<char>),
    Unprintable(Seq<char>),
    Valid(Seq<char>, Option<Seq<char>>),
}

impl View for Reformatted {
    type V = ReformattedModel;

    open spec fn view(&self) -> ReformattedModel {
        match self {
            Reformatted::Invalid(message) => ReformattedModel::Invalid(message@),
            Reformatted::Unprintable(message) => ReformattedModel::Unprintable(message@),
            Reformatted::Valid(text, json) => ReformattedModel::Valid(
                text@,
                match json {
                    Some(j) => Some(j@),
                    None => None,
                },
            ),
        }
    }
}

/// A text or a message as a value of specifications.
pub open spec fn text_result(r: Result<String, String>) -> Result<Seq<char>, Seq<char>> {
    match r {
        Ok(text) => Ok(text@),
        Err(message) => Err(message@),
    }
}

/// The pretty form that `serde_json` gives to the JSON document in a text,
/// or the message of its error.
pub uninterp spec fn json_pretty(text: Seq<char>) -> Result<Seq<char>, Seq<char>>;

/// The shape of the JSON value that `serde_json` reads from a text, if it
/// reads one.
pub uninterp spec fn json_shape_of(text: Seq<char>) -> Option<JsonShapeModel>;

/// What `serde_yaml` makes of a text.
pub uninterp spec fn yaml_reformatted(text: Seq<char>) -> ReformattedModel;

/// What `toml` makes of a text.
pub uninterp spec fn toml_reformatted(text: Seq<char>) -> ReformattedModel;

/// Parses a text with `serde_json::from_str` and writes the value with
/// `serde_json::to_string_pretty`.
#[verifier::external_body]
pub(crate) fn pretty_json(text: &str) -> (pretty: Result<String, String>)
    ensures
        text_result(pretty) == json_pretty(text@),
{
    match serde_json::from_str::<serde_json::Value>(text) {
        Ok(value) => serde_json::to_string_pretty(&value).map_err(|error| error.to_string()),
        Err(error) => Err(error.to_string()),
    }
}

/// Parses a text with `serde_json::from_str` and tells the variant of the
/// value with what it holds: the text of a number, the length of a string
/// in bytes, the number of items or keys, and of an array what its first
/// item is, by `Value::is_object` and its like. A text that `pretty_json`
/// can read has a shape, since both read it with the same function.
#[verifier::external_body]
pub(crate) fn json_shape(text: &str) -> (shape: Option<JsonShape>)
    ensures
        match shape {
            Some(s) => json_shape_of(text@) == Some(s@),
            None => json_shape_of(text@) is None,
        },
        json_pretty(text@) is Ok ==> shape is Some,
{
    match serde_json::from_str::<Value>(text) {
        Err(_) => None,
        Ok(value) => Some(match value {
            Value::Null => JsonShape::Null,
            Value::Bool(b) => JsonShape::Bool(b),
            Value::Number(n) => JsonShape::Number(n.to_string()),
            Value::String(s) => JsonShape::Text(s.len()),
            Value::Array(a) => JsonShape::Array(a.len(), a.first().map(|v| FirstItem {
                is_object: v.is_object(), is_array: v.is_array(), is_string: v.is_string(),
                is_number: v.is_number(), is_boolean: v.is_boolean(),
            })),
            Value::Object(m) => JsonShape::Object(m.len()),
        }),
    }
}

/// Parses a text with `serde_yaml::from_str`, writes the value with
/// `serde_yaml::to_string`, and as JSON with `serde_json::to_string`.
#[verifier::external_body]
pub(crate) fn reformat_yaml(text: &str) -> (outcome: Reformatted)
    ensures
        outcome@ == yaml_reformatted(text@),
{
    match serde_yaml::from_str::<serde_yaml::Value>(text) {
        Err(error) => Reformatted::Invalid(error.to_string()),
        Ok(value) => match serde_yaml::to_string(&value) {
            Err(error) => Reformatted::Unprintable(error.to_string()),
            Ok(formatted) => Reformatted::Valid(formatted, serde_json::to_string(&value).ok()),
        },
    }
}

/// Parses a text with `toml::from_str`, writes the value with
/// `toml::to_string_pretty`, and as JSON with `serde_json::to_string`.
#[verifier::external_body]
pub(crate) fn reformat_toml(text: &str) -> (outcome: Reformatted)
    ensures
        outcome@ == toml_reformatted(text@),
{
    match toml::from_str::<toml::Value>(text) {
        Err(error) => Reformatted::Invalid(error.to_string()),
        Ok(value) => match toml::to_string_pretty(&value) {
            Err(error) => Reformatted::Unprintable(error.to_string()),
            Ok(formatted) => Reformatted::Valid(formatted, serde_json::to_string(&value).ok()),
        },
    }
}

/// The kind of the items of an array by its first item, in the plural.
pub open spec fn item_kind(first: Option<FirstItem>) -> Seq<char> {
    match first {
        Some(item) => if item.is_object {
            "objects"@
        } else if item.is_array {
            "arrays"@
        } else if item.is_string {
            "strings"@
        } else if item.is_number {
            "numbers"@
        } else if item.is_boolean {
            "booleans"@
        } else {
            "nulls"@
        },
        None => "nulls"@,
    }
}

/// The line that sums up a JSON value.
pub open spec fn json_summary(shape: JsonShapeModel) -> Seq<char> {
    match shape {
        JsonShapeModel::Object(keys) => "Object with "@ + decimal(keys) + " keys"@,
        JsonShapeModel::Array(len, first) => if len == 0 {
            "Empty array"@
        } else {
            "Array of "@ + decimal(len) + " items ("@ + item_kind(first) + ")"@
        },
        JsonShapeModel::Text(len) => "String ("@ + decimal(len) + " characters)"@,
        JsonShapeModel::Number(text) => "Number ("@ + text + ")"@,
        JsonShapeModel::Bool(b) => if b {
            "Boolean (true)"@
        } else {
            "Boolean (false)"@
        },
        JsonShapeModel::Null => "Null value"@,
    }
}

fn item_kind_name(first: Option<FirstItem>) -> (name: &'static str)
    ensures
        name@ == item_kind(first),
{
    match first {
        Some(item) => {
            if item.is_object {
                "objects"
            } else if item.is_array {
                "arrays"
            } else if item.is_string {
                "strings"
            } else if item.is_number {
                "numbers"
            } else if item.is_boolean {
                "booleans"
            } else {
                "nulls"
            }
        },
        None => "nulls",
    }
}

/// Sums up a JSON value in a line: what it is, and how much it holds.
pub fn analyze_json(shape: &JsonShape) -> (out: String)
    ensures
        out@ == json_summary(shape@),
{
    let mut out = String::new();
    match shape {
        JsonShape::Object(keys) => {
            out.append("Object with ");
            push_decimal(&mut out, *keys as u64);
            out.append(" keys");
        },
        JsonShape::Array(len, first) => {
            if *len == 0 {
                out.append("Empty array");
            } else {
                out.append("Array of ");
                push_decimal(&mut out, *len as u64);
                out.append(" items (");
                out.append(item_kind_name(*first));
                out.append(")");
            }
        },
        JsonShape::Text(len) => {
            out.append("String (");
            push_decimal(&mut out, *len as u64);
            out.append(" characters)");
        },
        JsonShape::Number(text) => {
            out.append("Number (");
            out.append(text.as_str());
            out.append(")");
        },
        JsonShape::Bool(b) => {
            if *b {
                out.append("Boolean (true)");
            } else {
                out.append("Boolean (false)");
            }
        },
        JsonShape::Null => {
            out.append("Null value");
        },
    }
    out
}

/// The summary of the JSON value in a text, behind `lead`; nothing where
/// the text holds no JSON value.
pub open spec fn summary_line(lead: Seq<char>, json: Option<Seq<char>>) -> Seq<char> {
    match json {
        Some(text) => match json_shape_of(text) {
            Some(shape) => lead + json_summary(shape),
            None => Seq::empty(),
        },
        None => Seq::empty(),
    }
}

fn push_summary_line(out: &mut String, lead: &str, json: Option<&str>)
    ensures
        final(out)@ == old(out)@ + summary_line(
            lead@,
            match json {
                Some(text) => Some(text@),
                None => None,
            },
        ),
{
    match json {
        Some(text) => {
            match json_shape(text) {
                Some(shape) => {
                    let summary = analyze_json(&shape);
                    out.append(lead);
                    out.append(summary.as_str());
                },
                None => {},
            }
        },
        None => {},
    }
}

/// The message for a content that is not valid UTF-8.
pub open spec fn not_utf8() -> Seq<char> {
    "stream did not contain valid UTF-8"@
}

/// The view of a JSON file: a banner, the document in pretty form and the
/// summary of its shape; the parser's message where the content is no JSON
/// document.
pub open spec fn json_file(path: Seq<char>, content: Seq<u8>) -> Result<Seq<char>, ViewErrorModel> {
    if !valid_utf8(content) {
        Err(ViewErrorModel::Parse(not_utf8()))
    } else {
        let text = decode_utf8(content);
        match json_pretty(text) {
            Ok(pretty) => Ok(json_view(path, pretty, json_shape_of(text)->0)),
            Err(message) => Err(ViewErrorModel::Parse(message)),
        }
    }
}

/// The view of a JSON document in pretty form, with the summary of its
/// shape.
pub open spec fn json_view(path: Seq<char>, pretty: Seq<char>, shape: JsonShapeModel) -> Seq<char> {
    "📋 JSON File: "@ + path + seq!['\n'] + rule_line(60) + pretty + "\n\n"@ + "📊 Summary: "@
        + json_summary(shape)
}

/// Renders a JSON document from its pretty form and its shape.
pub fn render_json_file(path: &str, pretty: &str, shape: &JsonShape) -> (out: String)
    ensures
        out@ == json_view(path@, pretty@, shape@),
{
    let mut out = String::new();
    out.append("📋 JSON File: ");
    out.append(path);
    out.push('\n');
    push_rule(&mut out, 60);
    out.append(pretty);
    out.append("\n\n");
    let summary = analyze_json(shape);
    out.append("📊 Summary: ");
    out.append(summary.as_str());
    proof {
        assert(out@ =~= json_view(path@, pretty@, shape@));
    }
    out
}

/// Views a JSON file: the document in pretty form, with a summary of its
/// shape. A content that is not one JSON document fails the view.
pub fn view_json_file(path: &str, content: &[u8]) -> (out: Result<String, ViewError>)
    ensures
        outcome_view(out) == json_file(path@, content@),
{
    let text = match decode_strict(content) {
        Some(text) => text,
        None => {
            return Err(ViewError::Parse("stream did not contain valid UTF-8".to_owned()));
        },
    };
    match pretty_json(text.as_str()) {
        Ok(pretty) => match json_shape(text.as_str()) {
            Some(shape) => Ok(render_json_file(path, pretty.as_str(), &shape)),
            None => {
                // a document that was read has a shape
                proof {
                    assert(false);
                }
                Ok(pretty)
            },
        },
        Err(message) => Err(ViewError::Parse(message)),
    }
}

/// The body of the view of a YAML or TOML document: the reformatted
/// document and its summary; or, where the content is no document, a
/// warning, the parser's message and the content as it is.
pub open spec fn document_body(
    outcome: ReformattedModel,
    text: Seq<char>,
    warning: Seq<char>,
) -> Seq<char> {
    match outcome {
        ReformattedModel::Valid(formatted, json) => formatted + summary_line(
            "\n📊 Summary: "@,
            json,
        ),
        ReformattedModel::Invalid(message) => warning + "Error: "@ + message + "\n\n"@
            + "Raw content:\n"@ + text,
        ReformattedModel::Unprintable(_) => Seq::empty(),
    }
}

/// The view of a YAML or TOML file under a banner. A document that was
/// read and cannot be written again has no view: the writer's message is
/// the error.
pub open spec fn document_view(
    banner: Seq<char>,
    path: Seq<char>,
    outcome: ReformattedModel,
    text: Seq<char>,
    warning: Seq<char>,
) -> Result<Seq<char>, ViewErrorModel> {
    match outcome {
        ReformattedModel::Unprintable(message) => Err(ViewErrorModel::Parse(message)),
        _ => Ok(banner + path + seq!['\n'] + rule_line(60) + document_body(outcome, text, warning)),
    }
}

/// Renders what a parser made of a document whose text is `text`.
pub fn render_document(
    banner: &str,
    path: &str,
    outcome: &Reformatted,
    text: &str,
    warning: &str,
) -> (out: Result<String, ViewError>)
    ensures
        outcome_view(out) == document_view(banner@, path@, outcome@, text@, warning@),
        out is Err <==> outcome is Unprintable,
{
    let mut out = String::new();
    out.append(banner);
    out.append(path);
    out.push('\n');
    push_rule(&mut out, 60);
    match outcome {
        Reformatted::Valid(formatted, json) => {
            out.append(formatted.as_str());
            match json {
                Some(j) => {
                    push_summary_line(&mut out, "\n📊 Summary: ", Some(j.as_str()));
                },
                None => {
                    push_summary_line(&mut out, "\n📊 Summary: ", None);
                },
            }
            assert(out@ =~= document_view(banner@, path@, outcome@, text@, warning@)->Ok_0);
            Ok(out)
        },
        Reformatted::Invalid(message) => {
            out.append(warning);
            out.append("Error: ");
            out.append(message.as_str());
            out.append("\n\n");
            out.append("Raw content:\n");
            out.append(text);
            assert(out@ =~= document_view(banner@, path@, outcome@, text@, warning@)->Ok_0);
            Ok(out)
        },
        Reformatted::Unprintable(message) => Err(ViewError::Parse(message.clone())),
    }
}

/// The view of a YAML file.
pub open spec fn yaml_file(path: Seq<char>, content: Seq<u8>) -> Result<Seq<char>, ViewErrorModel> {
    if !valid_utf8(content) {
        Err(ViewErrorModel::Parse(not_utf8()))
    } else {
        let text = decode_utf8(content);
        document_view("📄 YAML File: "@, path, yaml_reformatted(text), text, "⚠️  Invalid YAML format\n"@)
    }
}

/// Views a YAML file: the document as its parser writes it, with a
/// summary of its shape. A content that is no YAML document is shown as it
/// is, under a warning and the parser's message. The view fails only on a
/// content that is not valid UTF-8, and on a document that was read and
/// cannot be written again.
pub fn view_yaml_file(path: &str, content: &[u8]) -> (out: Result<String, ViewError>)
    ensures
        outcome_view(out) == yaml_file(path@, content@),
        out is Ok <==> valid_utf8(content@) && !(yaml_reformatted(
            decode_utf8(content@),
        ) is Unprintable),
{
    let text = match decode_strict(content) {
        Some(text) => text,
        None => {
            return Err(ViewError::Parse("stream did not contain valid UTF-8".to_owned()));
        },
    };
    let outcome = reformat_yaml(text.as_str());
    render_document("📄 YAML File: ", path, &outcome, text.as_str(), "⚠️  Invalid YAML format\n")
}

/// The view of a TOML file.
pub open spec fn toml_file(path: Seq<char>, content: Seq<u8>) -> Result<Seq<char>, ViewErrorModel> {
    if !valid_utf8(content) {
        Err(ViewErrorModel::Parse(not_utf8()))
    } else {
        let text = decode_utf8(content);
        document_view("⚙️  TOML File: "@, path, toml_reformatted(text), text, "⚠️  Invalid TOML format\n"@)
    }
}

/// Views a TOML file: the document as its parser writes it, with a
/// summary of its shape. A content that is no TOML document is shown as it
/// is, under a warning and the parser's message. The view fails only on a
/// content that is not valid UTF-8, and on a document that was read and
/// cannot be written again.
pub fn view_toml_file(path: &str, content: &[u8]) -> (out: Result<String, ViewError>)
    ensures
        outcome_view(out) == toml_file(path@, content@),
        out is Ok <==> valid_utf8(content@) && !(toml_reformatted(
            decode_utf8(content@),
        ) is Unprintable),
{
    let text = match decode_strict(content) {
        Some(text) => text,
        None => {
            return Err(ViewError::Parse("stream did not contain valid UTF-8".to_owned()));
        },
    };
    let outcome = reformat_toml(text.as_str());
    render_document("⚙️  TOML File: ", path, &outcome, text.as_str(), "⚠️  Invalid TOML format\n")
}

/// A JSON text in pretty form, or the parser's message and the text as it is.
pub open spec fn json_content(content: Seq<char>) -> Seq<char> {
    match json_pretty(content) {
        Ok(pretty) => pretty,
        Err(message) => "Error parsing JSON: "@ + message + "\n\nRaw content:\n"@ + content,
    }
}

/// Reformats a JSON text, or reports why it cannot be read.
pub fn parse_json_content(content: &str) -> (out: String)
    ensures
        out@ == json_content(content@),
{
    match pretty_json(content) {
        Ok(pretty) => pretty,
        Err(message) => {
            let mut out = String::new();
            out.append("Error parsing JSON: ");
            out.append(message.as_str());
            out.append("\n\nRaw content:\n");
            out.append(content);
            out
        },
    }
}

/// The reformatted document, or the content as it is where the parser
/// could not read or write it.
pub open spec fn reformatted_or_raw(outcome: ReformattedModel, content: Seq<char>) -> Seq<char> {
    match outcome {
        ReformattedModel::Valid(formatted, _) => formatted,
        _ => content,
    }
}

/// Reformats a YAML text, or hands it back where it is no YAML document.
pub fn parse_yaml_content(content: &str) -> (out: String)
    ensures
        out@ == reformatted_or_raw(yaml_reformatted(content@), content@),
{
    match reformat_yaml(content) {
        Reformatted::Valid(formatted, _) => formatted,
        _ => content.to_owned(),
    }
}

/// Reformats a TOML text, or hands it back where it is no TOML document.
pub fn parse_toml_content(content: &str) -> (out: String)
    ensures
        out@ == reformatted_or_raw(toml_reformatted(content@), content@),
{
    match reformat_toml(content) {
        Reformatted::Valid(formatted, _) => formatted,
        _ => content.to_owned(),
    }
}

} // verus!
