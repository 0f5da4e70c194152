//! The exact texts of the validator's diagnostics, each stated once as a
//! spec-level sequence of characters and built once by a verified renderer.

use vstd::prelude::*;
use vstd::string::StringExecFns;

use crate::schema::{IndexAlgorithm, NativeType, OperatorClass};

verus! {

/// How an operator class is written in a diagnostic; the raw escape class
/// shows the class name it carries.
pub open spec fn spec_operator_class_name(c: OperatorClass) -> Seq<char> {
    match c {
        OperatorClass::InetOps => "InetOps"@,
        OperatorClass::JsonbOps => "JsonbOps"@,
        OperatorClass::JsonbPathOps => "JsonbPathOps"@,
        OperatorClass::ArrayOps => "ArrayOps"@,
        OperatorClass::NetworkOps => "NetworkOps"@,
        OperatorClass::TextOps => "TextOps"@,
        OperatorClass::Raw(s) => s@,
    }
}

/// How an index algorithm is written in a diagnostic.
pub open spec fn spec_algorithm_name(a: IndexAlgorithm) -> Seq<char> {
    match a {
        IndexAlgorithm::BTree => "BTree"@,
        IndexAlgorithm::Hash => "Hash"@,
        IndexAlgorithm::Gist => "Gist"@,
        IndexAlgorithm::Gin => "Gin"@,
        IndexAlgorithm::SpGist => "SpGist"@,
        IndexAlgorithm::Brin => "Brin"@,
    }
}

/// How a native type is written in a diagnostic.
pub open spec fn spec_native_type_name(t: NativeType) -> Seq<char> {
    match t {
        NativeType::SmallInt => "SmallInt"@,
        NativeType::Integer => "Integer"@,
        NativeType::BigInt => "BigInt"@,
        NativeType::Decimal => "Decimal"@,
        NativeType::Money => "Money"@,
        NativeType::Inet => "Inet"@,
        NativeType::Oid => "Oid"@,
        NativeType::Citext => "Citext"@,
        NativeType::Real => "Real"@,
        NativeType::DoublePrecision => "DoublePrecision"@,
        NativeType::VarChar => "VarChar"@,
        NativeType::Char => "Char"@,
        NativeType::Text => "Text"@,
        NativeType::ByteA => "ByteA"@,
        NativeType::Timestamp => "Timestamp"@,
        NativeType::Timestamptz => "Timestamptz"@,
        NativeType::Date => "Date"@,
        NativeType::Time => "Time"@,
        NativeType::Timetz => "Timetz"@,
        NativeType::Boolean => "Boolean"@,
        NativeType::Bit => "Bit"@,
        NativeType::VarBit => "VarBit"@,
        NativeType::Uuid => "Uuid"@,
        NativeType::Xml => "Xml"@,
        NativeType::Json => "Json"@,
        NativeType::JsonB => "JsonB"@,
    }
}

impl OperatorClass {
    /// The class's rendered name.
    pub fn name(&self) -> (r: String)
        ensures
            r@ == spec_operator_class_name(*self),
    {
        match self {
            OperatorClass::InetOps => String::from_str("InetOps"),
            OperatorClass::JsonbOps => String::from_str("JsonbOps"),
            OperatorClass::JsonbPathOps => String::from_str("JsonbPathOps"),
            OperatorClass::ArrayOps => String::from_str("ArrayOps"),
            OperatorClass::NetworkOps => String::from_str("NetworkOps"),
            OperatorClass::TextOps => String::from_str("TextOps"),
            OperatorClass::Raw(s) => s.clone(),
        }
    }
}

impl IndexAlgorithm {
    /// The algorithm's rendered name.
    pub fn name(&self) -> (r: String)
        ensures
            r@ == spec_algorithm_name(*self),
    {
        match self {
            IndexAlgorithm::BTree => String::from_str("BTree"),
            IndexAlgorithm::Hash => String::from_str("Hash"),
            IndexAlgorithm::Gist => String::from_str("Gist"),
            IndexAlgorithm::Gin => String::from_str("Gin"),
            IndexAlgorithm::SpGist => String::from_str("SpGist"),
            IndexAlgorithm::Brin => String::from_str("Brin"),
        }
    }
}

impl NativeType {
    /// The native type's rendered name.
    pub fn name(&self) -> (r: String)
        ensures
            r@ == spec_native_type_name(*self),
    {
        match self {
            NativeType::SmallInt => String::from_str("SmallInt"),
            NativeType::Integer => String::from_str("Integer"),
            NativeType::BigInt => String::from_str("BigInt"),
            NativeType::Decimal => String::from_str("Decimal"),
            NativeType::Money => String::from_str("Money"),
            NativeType::Inet => String::from_str("Inet"),
            NativeType::Oid => String::from_str("Oid"),
            NativeType::Citext => String::from_str("Citext"),
            NativeType::Real => String::from_str("Real"),
            NativeType::DoublePrecision => String::from_str("DoublePrecision"),
            NativeType::VarChar => String::from_str("VarChar"),
            NativeType::Char => String::from_str("Char"),
            NativeType::Text => String::from_str("Text"),
            NativeType::ByteA => String::from_str("ByteA"),
            NativeType::Timestamp => String::from_str("Timestamp"),
            NativeType::Timestamptz => String::from_str("Timestamptz"),
            NativeType::Date => String::from_str("Date"),
            NativeType::Time => String::from_str("Time"),
            NativeType::Timetz => String::from_str("Timetz"),
            NativeType::Boolean => String::from_str("Boolean"),
            NativeType::Bit => String::from_str("Bit"),
            NativeType::VarBit => String::from_str("VarBit"),
            NativeType::Uuid => String::from_str("Uuid"),
            NativeType::Xml => String::from_str("Xml"),
            NativeType::Json => String::from_str("Json"),
            NativeType::JsonB => String::from_str("JsonB"),
        }
    }
}

/// Reported when an operator class is declared for an algorithm that does not
/// accept it.
pub open spec fn msg_class_not_supported_with_algo(class: Seq<char>, algo: Seq<char>) -> Seq<
    char,
> {
    "The given operator class `"@ + class + "` is not supported with the `"@ + algo
        + "` index type."@
}

pub fn render_class_not_supported_with_algo(class: &str, algo: &str) -> (r: String)
    ensures
        r@ == msg_class_not_supported_with_algo(class@, algo@),
{
    let mut s = String::from_str("The given operator class `");
    s.append(class);
    s.append("` is not supported with the `");
    s.append(algo);
    s.append("` index type.");
    s
}

/// Reported when a field's native type is wrong for its declared operator
/// class.
pub open spec fn msg_class_wrong_native_type(
    class: Seq<char>,
    native: Seq<char>,
    field: Seq<char>,
) -> Seq<char> {
    "The given operator class `"@ + class + "` does not support native type `"@ + native
        + "` of field `"@ + field + "`."@
}

pub fn render_class_wrong_native_type(class: &str, native: &str, field: &str) -> (r: String)
    ensures
        r@ == msg_class_wrong_native_type(class@, native@, field@),
{
    let mut s = String::from_str("The given operator class `");
    s.append(class);
    s.append("` does not support native type `");
    s.append(native);
    s.append("` of field `");
    s.append(field);
    s.append("`.");
    s
}

/// Reported when a native type is present, no operator class is declared, and
/// the native type has no implicit class for the algorithm.
pub open spec fn msg_no_default_operator_class(algo: Seq<char>, native: Seq<char>) -> Seq<char> {
    "The "@ + algo + " index field type `"@ + native + "` has no default operator class."@
}

pub fn render_no_default_operator_class(algo: &str, native: &str) -> (r: String)
    ensures
        r@ == msg_no_default_operator_class(algo@, native@),
{
    let mut s = String::from_str("The ");
    s.append(algo);
    s.append(" index field type `");
    s.append(native);
    s.append("` has no default operator class.");
    s
}

/// Reported when an operator class needs a native-type annotation that the
/// field does not carry.
pub open spec fn msg_expects_valid_native_type(class: Seq<char>, field: Seq<char>) -> Seq<char> {
    "The given operator class `"@ + class + "` expects the field `"@ + field
        + "` to define a valid native type."@
}

pub fn render_expects_valid_native_type(class: &str, field: &str) -> (r: String)
    ensures
        r@ == msg_expects_valid_native_type(class@, field@),
{
    let mut s = String::from_str("The given operator class `");
    s.append(class);
    s.append("` expects the field `");
    s.append(field);
    s.append("` to define a valid native type.");
    s
}

/// Reported when neither an operator class nor a native type is declared and
/// the algorithm cannot index the field's logical type.
pub open spec fn msg_unsupported_field_type(algo: Seq<char>, field: Seq<char>) -> Seq<char> {
    "The "@ + algo + " index type does not support the type of the field `"@ + field + "`."@
}

pub fn render_unsupported_field_type(algo: &str, field: &str) -> (r: String)
    ensures
        r@ == msg_unsupported_field_type(algo@, field@),
{
    let mut s = String::from_str("The ");
    s.append(algo);
    s.append(" index type does not support the type of the field `");
    s.append(field);
    s.append("`.");
    s
}

/// Reported when a json operator class points at a field whose logical type
/// is not json.
pub open spec fn msg_not_of_json_type(class: Seq<char>, field: Seq<char>) -> Seq<char> {
    "The given operator class `"@ + class + "` points to the field `"@ + field
        + "` that is not of Json type."@
}

pub fn render_not_of_json_type(class: &str, field: &str) -> (r: String)
    ensures
        r@ == msg_not_of_json_type(class@, field@),
{
    let mut s = String::from_str("The given operator class `");
    s.append(class);
    s.append("` points to the field `");
    s.append(field);
    s.append("` that is not of Json type.");
    s
}

/// Reported when a text operator class points at a field whose logical type
/// is not string.
pub open spec fn msg_not_of_string_type(class: Seq<char>, field: Seq<char>) -> Seq<char> {
    "The given operator class `"@ + class + "` points to the field `"@ + field
        + "` that is not of String type."@
}

pub fn render_not_of_string_type(class: &str, field: &str) -> (r: String)
    ensures
        r@ == msg_not_of_string_type(class@, field@),
{
    let mut s = String::from_str("The given operator class `");
    s.append(class);
    s.append("` points to the field `");
    s.append(field);
    s.append("` that is not of String type.");
    s
}

/// Reported when the array operator class points at a field that is not a
/// list.
pub open spec fn msg_expects_array(field: Seq<char>) -> Seq<char> {
    "The given operator class `ArrayOps` expects the type of field `"@ + field
        + "` to be an array."@
}

pub fn render_expects_array(field: &str) -> (r: String)
    ensures
        r@ == msg_expects_array(field@),
{
    let mut s = String::from_str("The given operator class `ArrayOps` expects the type of field `");
    s.append(field);
    s.append("` to be an array.");
    s
}

/// Reported when a field whose native type no index may touch stands in a
/// unique index.
pub open spec fn msg_incompatible_native_type_with_unique(native: Seq<char>) -> Seq<char> {
    "Native type "@ + native + " cannot be unique in Postgres."@
}

pub fn render_incompatible_native_type_with_unique(native: &str) -> (r: String)
    ensures
        r@ == msg_incompatible_native_type_with_unique(native@),
{
    let mut s = String::from_str("Native type ");
    s.append(native);
    s.append(" cannot be unique in Postgres.");
    s
}

/// Reported when a field whose native type no index may touch stands in a
/// non-unique index.
pub open spec fn msg_incompatible_native_type_with_index(native: Seq<char>) -> Seq<char> {
    "You cannot define an index on fields with native type "@ + native + " of Postgres."@
}

pub fn render_incompatible_native_type_with_index(native: &str) -> (r: String)
    ensures
        r@ == msg_incompatible_native_type_with_index(native@),
{
    let mut s = String::from_str("You cannot define an index on fields with native type ");
    s.append(native);
    s.append(" of Postgres.");
    s
}

} // verus!
