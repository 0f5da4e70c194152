//! The native-type registry: it maps a field's native-type annotation to one
//! member of the closed Postgres enumeration, and it decodes the serialized
//! form in which the surrounding pipeline hands an annotation around.

use vstd::prelude::*;

use crate::schema::NativeType;

verus! {

/// Relies on str's `PartialEq`: two string slices are equal exactly when
/// their character sequences are.
pub assume_specification[ <str as PartialEq<str>>::eq ](a: &str, b: &str) -> (r: bool)
    ensures
        r == (a@ == b@),
;

/// Compares two string slices by their character sequences.
pub fn str_eq(a: &str, b: &str) -> (r: bool)
    ensures
        r == (a@ == b@),
{
    <str as PartialEq<str>>::eq(a, b)
}

/// The annotation name each native type answers to.
pub open spec fn spec_resolve_native_type(name: Seq<char>) -> Option<NativeType> {
    if name == "SmallInt"@ {
        Some(NativeType::SmallInt)
    } else if name == "Integer"@ {
        Some(NativeType::Integer)
    } else if name == "BigInt"@ {
        Some(NativeType::BigInt)
    } else if name == "Decimal"@ {
        Some(NativeType::Decimal)
    } else if name == "Money"@ {
        Some(NativeType::Money)
    } else if name == "Inet"@ {
        Some(NativeType::Inet)
    } else if name == "Oid"@ {
        Some(NativeType::Oid)
    } else if name == "Citext"@ {
        Some(NativeType::Citext)
    } else if name == "Real"@ {
        Some(NativeType::Real)
    } else if name == "DoublePrecision"@ {
        Some(NativeType::DoublePrecision)
    } else if name == "VarChar"@ {
        Some(NativeType::VarChar)
    } else if name == "Char"@ {
        Some(NativeType::Char)
    } else if name == "Text"@ {
        Some(NativeType::Text)
    } else if name == "ByteA"@ {
        Some(NativeType::ByteA)
    } else if name == "Timestamp"@ {
        Some(NativeType::Timestamp)
    } else if name == "Timestamptz"@ {
        Some(NativeType::Timestamptz)
    } else if name == "Date"@ {
        Some(NativeType::Date)
    } else if name == "Time"@ {
        Some(NativeType::Time)
    } else if name == "Timetz"@ {
        Some(NativeType::Timetz)
    } else if name == "Boolean"@ {
        Some(NativeType::Boolean)
    } else if name == "Bit"@ {
        Some(NativeType::Bit)
    } else if name == "VarBit"@ {
        Some(NativeType::VarBit)
    } else if name == "Uuid"@ {
        Some(NativeType::Uuid)
    } else if name == "Xml"@ {
        Some(NativeType::Xml)
    } else if name == "Json"@ {
        Some(NativeType::Json)
    } else if name == "JsonB"@ {
        Some(NativeType::JsonB)
    } else {
        None
    }
}

/// Looks an annotation name up in the closed Postgres enumeration; a name the
/// registry does not know resolves to nothing.
pub fn resolve_native_type(name: &str) -> (r: Option<NativeType>)
    ensures
        r == spec_resolve_native_type(name@),
{
    if str_eq(name, "SmallInt") {
        Some(NativeType::SmallInt)
    } else if str_eq(name, "Integer") {
        Some(NativeType::Integer)
    } else if str_eq(name, "BigInt") {
        Some(NativeType::BigInt)
    } else if str_eq(name, "Decimal") {
        Some(NativeType::Decimal)
    } else if str_eq(name, "Money") {
        Some(NativeType::Money)
    } else if str_eq(name, "Inet") {
        Some(NativeType::Inet)
    } else if str_eq(name, "Oid") {
        Some(NativeType::Oid)
    } else if str_eq(name, "Citext") {
        Some(NativeType::Citext)
    } else if str_eq(name, "Real") {
        Some(NativeType::Real)
    } else if str_eq(name, "DoublePrecision") {
        Some(NativeType::DoublePrecision)
    } else if str_eq(name, "VarChar") {
        Some(NativeType::VarChar)
    } else if str_eq(name, "Char") {
        Some(NativeType::Char)
    } else if str_eq(name, "Text") {
        Some(NativeType::Text)
    } else if str_eq(name, "ByteA") {
        Some(NativeType::ByteA)
    } else if str_eq(name, "Timestamp") {
        Some(NativeType::Timestamp)
    } else if str_eq(name, "Timestamptz") {
        Some(NativeType::Timestamptz)
    } else if str_eq(name, "Date") {
        Some(NativeType::Date)
    } else if str_eq(name, "Time") {
        Some(NativeType::Time)
    } else if str_eq(name, "Timetz") {
        Some(NativeType::Timetz)
    } else if str_eq(name, "Boolean") {
        Some(NativeType::Boolean)
    } else if str_eq(name, "Bit") {
        Some(NativeType::Bit)
    } else if str_eq(name, "VarBit") {
        Some(NativeType::VarBit)
    } else if str_eq(name, "Uuid") {
        Some(NativeType::Uuid)
    } else if str_eq(name, "Xml") {
        Some(NativeType::Xml)
    } else if str_eq(name, "Json") {
        Some(NativeType::Json)
    } else if str_eq(name, "JsonB") {
        Some(NativeType::JsonB)
    } else {
        None
    }
}

/// What decoding a JSON text as one JSON string literal yields: the decoded
/// characters, or nothing where the text is not exactly one string literal.
pub uninterp spec fn json_decoded_string(text: Seq<char>) -> Option<Seq<char>>;

/// Relies on `serde_json::from_str::<String>`: it decodes a JSON text that
/// consists of one string literal, fails on any other text, and its outcome
/// is a function of the text alone.
#[verifier::external_body]
fn decode_json_string(text: &str) -> (r: Option<String>)
    ensures
        r.deep_view() == json_decoded_string(text@),
{
    serde_json::from_str::<String>(text).ok()
}

/// What the serialized form of an annotation resolves to: the registry's
/// answer for the decoded name, or nothing where the form does not decode.
pub open spec fn spec_resolve_serialized_native_type(text: Seq<char>) -> Option<NativeType> {
    match json_decoded_string(text) {
        Some(name) => spec_resolve_native_type(name),
        None => None,
    }
}

/// Resolves a native-type annotation from the serialized form in which the
/// surrounding pipeline carries it: a JSON string literal holding the
/// annotation name.
pub fn resolve_serialized_native_type(text: &str) -> (r: Option<NativeType>)
    ensures
        r == spec_resolve_serialized_native_type(text@),
{
    match decode_json_string(text) {
        Some(name) => resolve_native_type(name.as_str()),
        None => None,
    }
}

} // verus!
