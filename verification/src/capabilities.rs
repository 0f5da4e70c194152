//! The capability tables of the Postgres connector: which operator classes
//! each index algorithm accepts, and which field types an algorithm can index
//! when no operator class constrains the choice.

use vstd::prelude::*;

use crate::schema::{FieldArity, FieldDefinition, IndexAlgorithm, OperatorClass, ScalarType};

verus! {

/// Which algorithms accept the given operator class. The raw escape class is
/// accepted everywhere: the engine, not the schema language, will judge it.
pub open spec fn spec_supports_index_type(c: OperatorClass, algo: IndexAlgorithm) -> bool {
    match c {
        OperatorClass::InetOps => algo is Gist,
        OperatorClass::JsonbOps => algo is Gin,
        OperatorClass::JsonbPathOps => algo is Gin,
        OperatorClass::ArrayOps => algo is Gin,
        OperatorClass::NetworkOps => algo is SpGist,
        OperatorClass::TextOps => algo is SpGist,
        OperatorClass::Raw(_) => true,
    }
}

impl OperatorClass {
    /// Whether this operator class may be combined with the given index
    /// algorithm at all.
    pub fn supports_index_type(&self, algo: IndexAlgorithm) -> (r: bool)
        ensures
            r == spec_supports_index_type(*self, algo),
    {
        match self {
            OperatorClass::InetOps => algo.is_gist(),
            OperatorClass::JsonbOps => algo.is_gin(),
            OperatorClass::JsonbPathOps => algo.is_gin(),
            OperatorClass::ArrayOps => algo.is_gin(),
            OperatorClass::NetworkOps => algo.is_spgist(),
            OperatorClass::TextOps => algo.is_spgist(),
            OperatorClass::Raw(_) => true,
        }
    }
}

/// Which field types the given algorithm can index when neither an operator
/// class nor a native type narrows the choice. A field of an unsupported
/// database type is never challenged.
pub open spec fn spec_supports_field_type(
    algo: IndexAlgorithm,
    scalar_type: ScalarType,
    arity: FieldArity,
) -> bool {
    scalar_type is Unsupported || match algo {
        IndexAlgorithm::BTree => true,
        IndexAlgorithm::Hash => true,
        IndexAlgorithm::Brin => true,
        IndexAlgorithm::Gist => scalar_type is String,
        IndexAlgorithm::SpGist => scalar_type is String,
        IndexAlgorithm::Gin => arity is List || scalar_type is Json,
    }
}

impl IndexAlgorithm {
    /// Whether this algorithm supports the logical type of the given field.
    pub fn supports_field_type(&self, field: &FieldDefinition) -> (r: bool)
        ensures
            r == spec_supports_field_type(*self, field.scalar_type, field.arity),
    {
        if matches!(field.scalar_type, ScalarType::Unsupported) {
            true
        } else {
            match self {
                IndexAlgorithm::BTree => true,
                IndexAlgorithm::Hash => true,
                IndexAlgorithm::Brin => true,
                IndexAlgorithm::Gist => field.scalar_type.is_string(),
                IndexAlgorithm::SpGist => field.scalar_type.is_string(),
                IndexAlgorithm::Gin => field.arity.is_list() || field.scalar_type.is_json(),
            }
        }
    }
}

/// The operator class that takes part in the capability checks: a raw escape
/// class is carried through unvalidated, as if none had been declared.
pub open spec fn spec_known_class(declared: Option<OperatorClass>) -> Option<OperatorClass> {
    match declared {
        Some(OperatorClass::Raw(_)) => None,
        _ => declared,
    }
}

} // verus!
