//! Decoded documents: the values that the text of a manifest can hold.

use vstd::prelude::*;

verus! {

/// A value of a decoded document.
#[derive(Debug)]
pub enum Node {
    Text(String),
    Integer(i64),
    /// A floating-point number, held as the bits of its 64-bit encoding.
    Float(u64),
    Boolean(bool),
    /// A date or time, held as written.
    Datetime(String),
    Array(Vec<Node>),
    Table(Vec<Entry>),
}

/// A key of a table with its value.
#[derive(Debug)]
pub struct Entry {
    pub key: String,
    pub value: Node,
}

/// A value as the TOML decoder holds it.
#[verifier::external_type_specification]
#[verifier::external_body]
pub struct ExTomlValue(toml::Value);

/// The error of the TOML decoder.
#[verifier::external_type_specification]
#[verifier::external_body]
pub struct ExTomlError(toml::de::Error);

/// The document that the TOML decoder reads from a text, or `None` where the
/// text is not in the grammar.
pub uninterp spec fn toml_document(text: Seq<char>) -> Option<toml::Value>;

/// What a value of the TOML decoder holds, as a value of this crate.
pub uninterp spec fn toml_node(value: toml::Value) -> Node;

/// `toml::from_str`, asked for a table: the decoder's reading of a whole
/// document. The contract claims only that the outcome is a function of the
/// text: the same text gives the same table, or fails, every time.
#[verifier::external_body]
fn parse_toml(text: &str) -> (r: Result<toml::Value, toml::de::Error>)
    ensures
        match r {
            Ok(value) => toml_document(text@) == Some(value),
            Err(_) => toml_document(text@) is None,
        },
{
    toml::from_str::<toml::Table>(text).map(toml::Value::Table)
}

/// Takes a `toml::Value` apart, variant by variant, into a `Node`: a float
/// by `f64::to_bits`, a date by its `to_string`, the items of an array in
/// order, the entries of a table in the order of `Map::into_iter`. The
/// contract claims only that the outcome is a function of the value.
#[verifier::external_body]
fn node_of_toml(value: toml::Value) -> (r: Node)
    ensures
        r == toml_node(value),
{
    match value {
        toml::Value::String(s) => Node::Text(s),
        toml::Value::Integer(i) => Node::Integer(i),
        toml::Value::Float(f) => Node::Float(f.to_bits()),
        toml::Value::Boolean(b) => Node::Boolean(b),
        toml::Value::Datetime(d) => Node::Datetime(d.to_string()),
        toml::Value::Array(a) => Node::Array(a.into_iter().map(node_of_toml).collect()),
        toml::Value::Table(t) => Node::Table(
            t.into_iter().map(|(key, v)| Entry { key, value: node_of_toml(v) }).collect(),
        ),
    }
}

/// The `to_string` of a `toml::de::Error`: what the decoder says went wrong
/// and where. Nothing is claimed of the text.
#[verifier::external_body]
fn toml_error_text(error: &toml::de::Error) -> (r: String) {
    error.to_string()
}

/// The document that a text holds, or `None` where the text is not in the
/// TOML grammar.
pub open spec fn decoded(text: Seq<char>) -> Option<Node> {
    match toml_document(text) {
        Some(value) => Some(toml_node(value)),
        None => None,
    }
}

/// Decodes the text of a document. Where the text is not in the TOML
/// grammar, the error is what the decoder says of it.
pub fn decode(text: &str) -> (r: Result<Node, String>)
    ensures
        match r {
            Ok(doc) => decoded(text@) == Some(doc),
            Err(_) => decoded(text@) is None,
        },
{
    match parse_toml(text) {
        Ok(value) => Ok(node_of_toml(value)),
        Err(error) => Err(toml_error_text(&error)),
    }
}

} // verus!
