//! TOML documents as the manifest reads them. The text is parsed by the
//! `toml` crate; the library holds the result as a tree of plain values.
use vstd::prelude::*;

verus! {

/// A TOML value as the library holds it. Floats carry no payload here: no
/// setting of the manifest is a float, so only their presence matters.
pub enum TomlValue {
    String(String),
    Integer(i64),
    Float,
    Boolean(bool),
    Datetime(String),
    Array(Vec<TomlValue>),
    Table(Vec<(String, TomlValue)>),
}

/// The model of a TOML value.
pub enum TomlData {
    String(Seq<char>),
    Integer(int),
    Float,
    Boolean(bool),
    Datetime(Seq<char>),
    Array(Seq<TomlData>),
    Table(Seq<(Seq<char>, TomlData)>),
}

/// The model of a value.
pub open spec fn toml_view(v: TomlValue) -> TomlData
    decreases v,
{
    match v {
        TomlValue::String(s) => TomlData::String(s@),
        TomlValue::Integer(i) => TomlData::Integer(i as int),
        TomlValue::Float => TomlData::Float,
        TomlValue::Boolean(b) => TomlData::Boolean(b),
        TomlValue::Datetime(d) => TomlData::Datetime(d@),
        TomlValue::Array(a) => TomlData::Array(
            Seq::new(
                a@.len(),
                |i: int|
                    if 0 <= i < a@.len() {
                        toml_view(a@[i])
                    } else {
                        TomlData::Float
                    },
            ),
        ),
        TomlValue::Table(t) => TomlData::Table(
            Seq::new(
                t@.len(),
                |i: int|
                    if 0 <= i < t@.len() {
                        (t@[i].0@, toml_view(t@[i].1))
                    } else {
                        (Seq::empty(), TomlData::Float)
                    },
            ),
        ),
    }
}

/// The model of the entries of a table.
pub open spec fn table_view(t: Seq<(String, TomlValue)>) -> Seq<(Seq<char>, TomlData)> {
    Seq::new(t.len(), |i: int| (t[i].0@, toml_view(t[i].1)))
}

/// The entries of the top-level table of a TOML document when `text` is a
/// valid TOML document, else the message of the error that parsing it
/// gives. The `toml` crate decides both.
pub uninterp spec fn toml_document(text: Seq<char>) -> Result<Seq<(Seq<char>, TomlData)>, Seq<char>>;

#[verifier::external_type_specification]
#[verifier::external_body]
pub struct ExTomlValue(toml::Value);

/// One-for-one conversion of a value of the `toml` crate into the
/// library's tree (a float's number is dropped, a datetime keeps its text).
#[verifier::external_body]
fn toml_value_of(v: toml::Value) -> TomlValue {
    match v {
        toml::Value::String(s) => TomlValue::String(s),
        toml::Value::Integer(i) => TomlValue::Integer(i),
        toml::Value::Float(_) => TomlValue::Float,
        toml::Value::Boolean(b) => TomlValue::Boolean(b),
        toml::Value::Datetime(d) => TomlValue::Datetime(d.to_string()),
        toml::Value::Array(a) => TomlValue::Array(a.into_iter().map(toml_value_of).collect()),
        toml::Value::Table(t) => TomlValue::Table(t.into_iter().map(|(k, v)| (k, toml_value_of(v))).collect()),
    }
}

/// Parses `text` as a TOML document with `toml`'s `FromStr` for
/// `toml::Table`. Claimed: its outcome is `toml_document` of the text, a
/// function of the text alone: the document's top-level entries, or the
/// displayed message of the parse error.
#[verifier::external_body]
pub(crate) fn parse_toml(text: &str) -> (r: Result<Vec<(String, TomlValue)>, String>)
    ensures
        match r {
            Ok(t) => toml_document(text@) == Ok::<Seq<(Seq<char>, TomlData)>, Seq<char>>(table_view(t@)),
            Err(m) => toml_document(text@) == Err::<Seq<(Seq<char>, TomlData)>, Seq<char>>(m@),
        },
{
    match text.parse::<toml::Table>() {
        Ok(t) => Ok(t.into_iter().map(|(k, v)| (k, toml_value_of(v))).collect()),
        Err(e) => Err(e.to_string()),
    }
}

} // verus!
