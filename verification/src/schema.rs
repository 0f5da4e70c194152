//! The schema data that the validator consumes: fields with their logical
//! types, arities and resolved native types, and index declarations with
//! their algorithm, operator classes and source spans.

use vstd::prelude::*;

verus! {

/// A source range, in byte offsets, pointing at the schema text that a
/// diagnostic is about.
#[derive(Clone, Copy, Debug, PartialEq, Eq, Structural)]
pub struct Span {
    pub start: usize,
    pub end: usize,
}

/// How many values a field holds.
#[derive(Clone, Copy, Debug, PartialEq, Eq, Structural)]
pub enum FieldArity {
    Required,
    Optional,
    List,
}

impl FieldArity {
    pub fn is_list(&self) -> (r: bool)
        ensures
            r == (*self is List),
    {
        matches!(self, FieldArity::List)
    }
}

/// The logical (engine-independent) type of a field.
#[derive(Clone, Copy, Debug, PartialEq, Eq, Structural)]
pub enum ScalarType {
    Int,
    BigInt,
    Decimal,
    Boolean,
    String,
    DateTime,
    Json,
    Bytes,
    Enum,
    /// A database type that the schema language cannot express; such a field
    /// is never validated against the capability tables.
    Unsupported,
}

impl ScalarType {
    pub fn is_json(&self) -> (r: bool)
        ensures
            r == (*self is Json),
    {
        matches!(self, ScalarType::Json)
    }

    pub fn is_string(&self) -> (r: bool)
        ensures
            r == (*self is String),
    {
        matches!(self, ScalarType::String)
    }
}

/// The closed set of Postgres native types a field annotation can resolve to.
#[derive(Clone, Copy, Debug, PartialEq, Eq, Structural)]
pub enum NativeType {
    SmallInt,
    Integer,
    BigInt,
    Decimal,
    Money,
    Inet,
    Oid,
    Citext,
    Real,
    DoublePrecision,
    VarChar,
    Char,
    Text,
    ByteA,
    Timestamp,
    Timestamptz,
    Date,
    Time,
    Timetz,
    Boolean,
    Bit,
    VarBit,
    Uuid,
    Xml,
    Json,
    JsonB,
}

/// The storage structure backing an index.
#[derive(Clone, Copy, Debug, PartialEq, Eq, Structural)]
pub enum IndexAlgorithm {
    BTree,
    Hash,
    Gist,
    Gin,
    SpGist,
    Brin,
}

impl IndexAlgorithm {
    pub fn is_gist(&self) -> (r: bool)
        ensures
            r == (*self is Gist),
    {
        matches!(self, IndexAlgorithm::Gist)
    }

    pub fn is_gin(&self) -> (r: bool)
        ensures
            r == (*self is Gin),
    {
        matches!(self, IndexAlgorithm::Gin)
    }

    pub fn is_spgist(&self) -> (r: bool)
        ensures
            r == (*self is SpGist),
    {
        matches!(self, IndexAlgorithm::SpGist)
    }
}

/// An operator class selects how an index algorithm compares the values of
/// one indexed column. `Raw` carries an unrecognized class name through
/// unvalidated, as an escape hatch for classes the schema language does not
/// know.
#[derive(Debug, PartialEq, Eq)]
pub enum OperatorClass {
    InetOps,
    JsonbOps,
    JsonbPathOps,
    ArrayOps,
    NetworkOps,
    TextOps,
    Raw(String),
}

impl Clone for OperatorClass {
    fn clone(&self) -> (res: Self)
        ensures
            res == *self,
    {
        match self {
            OperatorClass::InetOps => OperatorClass::InetOps,
            OperatorClass::JsonbOps => OperatorClass::JsonbOps,
            OperatorClass::JsonbPathOps => OperatorClass::JsonbPathOps,
            OperatorClass::ArrayOps => OperatorClass::ArrayOps,
            OperatorClass::NetworkOps => OperatorClass::NetworkOps,
            OperatorClass::TextOps => OperatorClass::TextOps,
            OperatorClass::Raw(s) => OperatorClass::Raw(s.clone()),
        }
    }
}

impl OperatorClass {
    /// The escape value for a class name the schema language does not know.
    pub fn raw(name: &str) -> (r: Self)
        ensures
            r matches OperatorClass::Raw(s) && s@ == name@,
    {
        OperatorClass::Raw(name.to_owned())
    }
}

/// Whether an index enforces uniqueness.
#[derive(Clone, Copy, Debug, PartialEq, Eq, Structural)]
pub enum IndexType {
    Normal,
    Unique,
}

/// One column of an index: the referenced field's name and the operator
/// class declared for it, if any.
#[derive(Debug, PartialEq, Eq)]
pub struct IndexField {
    pub name: String,
    pub operator_class: Option<OperatorClass>,
}

impl IndexField {
    /// An index column over the model field of the given name, with no
    /// operator class declared.
    pub fn new_in_model(name: &str) -> (r: Self)
        ensures
            r.name@ == name@,
            r.operator_class is None,
    {
        IndexField { name: name.to_owned(), operator_class: None }
    }
}

/// A declared index: its columns in declaration order, its kind, and the
/// algorithm chosen for it (absent means the connector default applies).
#[derive(Debug, PartialEq, Eq)]
pub struct IndexDefinition {
    pub name: Option<String>,
    pub db_name: Option<String>,
    pub fields: Vec<IndexField>,
    pub tpe: IndexType,
    pub defined_on_field: bool,
    pub algorithm: Option<IndexAlgorithm>,
    pub clustered: Option<bool>,
}

impl IndexDefinition {
    pub fn is_unique(&self) -> (r: bool)
        ensures
            r == (self.tpe is Unique),
    {
        matches!(self.tpe, IndexType::Unique)
    }
}

/// An index definition together with the source span of the attribute that
/// declared it; diagnostics about the index point at this span.
#[derive(Debug, PartialEq, Eq)]
pub struct IndexAttribute {
    pub definition: IndexDefinition,
    pub attribute_span: Span,
}

/// A model field as the validator sees it: its logical type, its arity, the
/// native type its annotation resolved to (if any), and the span of its
/// declaration.
#[derive(Debug, PartialEq, Eq)]
pub struct FieldDefinition {
    pub name: String,
    pub scalar_type: ScalarType,
    pub arity: FieldArity,
    pub native_type: Option<NativeType>,
    pub span: Span,
}

/// A model: its fields and the indexes declared on it.
#[derive(Debug, PartialEq, Eq)]
pub struct Model {
    pub name: String,
    pub fields: Vec<FieldDefinition>,
    pub indexes: Vec<IndexAttribute>,
}

} // verus!
