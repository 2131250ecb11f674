//! The configuration tree that theme loading walks.
//!
//! Configuration text is parsed by the `toml` crate into its own value tree,
//! which this module keeps behind a small trusted surface: each parsed node
//! is given a mathematical model, a [`ConfigNode`], and every accessor the
//! loader calls states what it returns in terms of that model.

use vstd::prelude::*;

verus! {

/// The mathematical model of one parsed configuration node: the node shapes
/// the theme loader distinguishes, with every other shape collapsed to
/// `Other`.
pub enum ConfigNode {
    /// A string value.
    Str(Seq<char>),
    /// A boolean value.
    Bool(bool),
    /// An ordered sequence of values.
    Arr(Seq<ConfigNode>),
    /// A table of key/value pairs.
    Table(Map<Seq<char>, ConfigNode>),
    /// Any other node shape (integer, float, datetime).
    Other,
}

#[verifier::external_type_specification]
#[verifier::external_body]
pub struct ExTomlValue(toml::Value);

#[verifier::external_type_specification]
#[verifier::external_body]
#[verifier::reject_recursive_types(K)]
#[verifier::reject_recursive_types(V)]
pub struct ExTomlMap<K, V>(toml::map::Map<K, V>);

#[verifier::external_type_specification]
#[verifier::external_body]
pub struct ExTomlDeError(toml::de::Error);

/// The model of one parsed node.
pub uninterp spec fn value_model(v: toml::Value) -> ConfigNode;

/// The model of a parsed table: its keys, each mapped to the model of its
/// value.
pub uninterp spec fn table_model(t: toml::map::Map<String, toml::Value>) -> Map<
    Seq<char>,
    ConfigNode,
>;

/// What parsing configuration text yields: the model of the document's root
/// table for well-formed text, and nothing otherwise.
pub uninterp spec fn toml_tree(s: Seq<char>) -> Option<Map<Seq<char>, ConfigNode>>;

/// Relies on toml::from_str::<toml::Table>: parses the text into its root
/// table, deterministically in the text alone, succeeding exactly on
/// well-formed TOML documents.
#[verifier::external_body]
pub fn parse_toml(text: &str) -> (r: Result<toml::map::Map<String, toml::Value>, toml::de::Error>)
    ensures
        r is Ok <==> toml_tree(text@) is Some,
        r is Ok ==> table_model(r->Ok_0) == toml_tree(text@)->Some_0,
{
    toml::from_str::<toml::Table>(text)
}

/// Relies on toml::map::Map::get: returns the value at the key if the table
/// holds one.
#[verifier::external_body]
pub fn table_get<'a>(t: &'a toml::map::Map<String, toml::Value>, key: &str) -> (r: Option<
    &'a toml::Value,
>)
    ensures
        r is Some <==> table_model(*t).contains_key(key@),
        r is Some ==> value_model(*r->0) == table_model(*t)[key@],
{
    t.get(key)
}

/// Relies on toml::Value::as_str: returns the string exactly when the node
/// is a string.
#[verifier::external_body]
pub fn value_as_str<'a>(v: &'a toml::Value) -> (r: Option<&'a str>)
    ensures
        r is Some <==> value_model(*v) is Str,
        r is Some ==> r->0@ == value_model(*v)->Str_0,
{
    v.as_str()
}

/// Relies on toml::Value::as_bool: returns the boolean exactly when the node
/// is a boolean.
#[verifier::external_body]
pub fn value_as_bool(v: &toml::Value) -> (r: Option<bool>)
    ensures
        r is Some <==> value_model(*v) is Bool,
        r is Some ==> r->0 == value_model(*v)->Bool_0,
{
    v.as_bool()
}

/// Relies on toml::Value::as_array: returns the elements exactly when the
/// node is an array; their models are the model's elements, in order.
#[verifier::external_body]
pub fn value_as_array<'a>(v: &'a toml::Value) -> (r: Option<&'a Vec<toml::Value>>)
    ensures
        r is Some <==> value_model(*v) is Arr,
        r is Some ==> r->0@.map_values(|x: toml::Value| value_model(x)) == value_model(*v)->Arr_0,
{
    v.as_array()
}

/// Relies on toml::Value::as_table: returns the inner table exactly when the
/// node is a table.
#[verifier::external_body]
pub fn value_as_table<'a>(v: &'a toml::Value) -> (r: Option<
    &'a toml::map::Map<String, toml::Value>,
>)
    ensures
        r is Some <==> value_model(*v) is Table,
        r is Some ==> table_model(*r->0) == value_model(*v)->Table_0,
{
    v.as_table()
}

} // verus!
