use pg_index_validation::diagnostics::Diagnostics;
use pg_index_validation::schema::{
    FieldArity, FieldDefinition, IndexAlgorithm, IndexAttribute, IndexDefinition, IndexField,
    IndexType, Model, NativeType, OperatorClass, ScalarType, Span,
};
use pg_index_validation::validations::validate_model;

struct FieldSpec {
    name: &'static str,
    scalar_type: ScalarType,
    arity: FieldArity,
    native_type: Option<NativeType>,
}

fn model_of(
    fields: Vec<FieldSpec>,
    index_fields: Vec<IndexField>,
    tpe: IndexType,
    algorithm: Option<IndexAlgorithm>,
) -> Model {
    let fields = fields
        .into_iter()
        .enumerate()
        .map(|(i, f)| FieldDefinition {
            name: f.name.to_string(),
            scalar_type: f.scalar_type,
            arity: f.arity,
            native_type: f.native_type,
            span: Span {
                start: 20 * (i + 1),
                end: 20 * (i + 1) + 10,
            },
        })
        .collect();
    Model {
        name: "A".to_string(),
        fields,
        indexes: vec![IndexAttribute {
            definition: IndexDefinition {
                name: None,
                db_name: Some("A_a_idx".to_string()),
                fields: index_fields,
                tpe,
                defined_on_field: false,
                algorithm,
                clustered: None,
            },
            attribute_span: Span { start: 200, end: 240 },
        }],
    }
}

fn field_a(
    scalar_type: ScalarType,
    arity: FieldArity,
    native_type: Option<NativeType>,
) -> Vec<FieldSpec> {
    vec![
        FieldSpec {
            name: "id",
            scalar_type: ScalarType::Int,
            arity: FieldArity::Required,
            native_type: None,
        },
        FieldSpec {
            name: "a",
            scalar_type,
            arity,
            native_type,
        },
    ]
}

fn index_on_a(operator_class: Option<OperatorClass>) -> Vec<IndexField> {
    let mut f = IndexField::new_in_model("a");
    f.operator_class = operator_class;
    vec![f]
}

fn validated(model: &Model) -> Diagnostics {
    let mut diagnostics = Diagnostics::new();
    validate_model(model, &mut diagnostics);
    diagnostics
}

#[test]
fn default_algorithm_accepts_plain_field() {
    // No declared algorithm: the connector default (B-tree) applies, which
    // puts no operator-class restriction on a plain field.
    let model = model_of(
        field_a(ScalarType::Int, FieldArity::Required, None),
        index_on_a(None),
        IndexType::Normal,
        None,
    );
    assert!(validated(&model).is_empty());
}

#[test]
fn default_algorithm_rejects_class_like_btree() {
    // No declared algorithm: a declared operator class is held against the
    // default algorithm, and the message names the default.
    let model = model_of(
        field_a(ScalarType::String, FieldArity::Required, None),
        index_on_a(Some(OperatorClass::TextOps)),
        IndexType::Normal,
        None,
    );
    let diagnostics = validated(&model);
    assert_eq!(diagnostics.errors.len(), 1);
    assert_eq!(
        diagnostics.errors[0].message,
        "The given operator class `TextOps` is not supported with the `BTree` index type."
    );
}

#[test]
fn xml_native_type_on_unique_index() {
    let model = model_of(
        field_a(ScalarType::String, FieldArity::Required, Some(NativeType::Xml)),
        index_on_a(None),
        IndexType::Unique,
        None,
    );
    let diagnostics = validated(&model);
    assert_eq!(diagnostics.errors.len(), 1);
    assert_eq!(
        diagnostics.errors[0].message,
        "Native type Xml cannot be unique in Postgres."
    );
    assert_eq!(diagnostics.errors[0].attribute, None);
    // the diagnostic points at the field, not at the index attribute
    assert_eq!(diagnostics.errors[0].span, Span { start: 40, end: 50 });
}

#[test]
fn xml_native_type_on_normal_index() {
    let model = model_of(
        field_a(ScalarType::String, FieldArity::Required, Some(NativeType::Xml)),
        index_on_a(None),
        IndexType::Normal,
        None,
    );
    let diagnostics = validated(&model);
    assert_eq!(diagnostics.errors.len(), 1);
    assert_eq!(
        diagnostics.errors[0].message,
        "You cannot define an index on fields with native type Xml of Postgres."
    );
    assert_eq!(diagnostics.errors[0].attribute, None);
}

#[test]
fn xml_sweep_stops_at_first_offending_field() {
    // Two offending fields in one unique index: only the first is reported.
    let fields = vec![
        FieldSpec {
            name: "a",
            scalar_type: ScalarType::String,
            arity: FieldArity::Required,
            native_type: Some(NativeType::Xml),
        },
        FieldSpec {
            name: "b",
            scalar_type: ScalarType::String,
            arity: FieldArity::Required,
            native_type: Some(NativeType::Xml),
        },
    ];
    let index_fields = vec![IndexField::new_in_model("a"), IndexField::new_in_model("b")];
    let model = model_of(fields, index_fields, IndexType::Unique, None);
    let diagnostics = validated(&model);
    assert_eq!(diagnostics.errors.len(), 1);
    assert_eq!(
        diagnostics.errors[0].message,
        "Native type Xml cannot be unique in Postgres."
    );
    // the span of field `a`, the first offending field
    assert_eq!(diagnostics.errors[0].span, Span { start: 20, end: 30 });
}

#[test]
fn validator_runs_are_identical() {
    // The same immutable model, validated twice: byte-identical diagnostics
    // in the same order.
    let model = model_of(
        field_a(ScalarType::Int, FieldArity::Required, Some(NativeType::Xml)),
        index_on_a(Some(OperatorClass::NetworkOps)),
        IndexType::Unique,
        Some(IndexAlgorithm::SpGist),
    );
    let first = validated(&model);
    let second = validated(&model);
    assert!(!first.errors.is_empty());
    assert_eq!(first.errors, second.errors);
}

#[test]
fn array_ops_on_scalar_field_under_gin() {
    // The dedicated array message, never the generic one.
    let model = model_of(
        field_a(ScalarType::Int, FieldArity::Required, None),
        index_on_a(Some(OperatorClass::ArrayOps)),
        IndexType::Normal,
        Some(IndexAlgorithm::Gin),
    );
    let diagnostics = validated(&model);
    assert_eq!(diagnostics.len(), 1);
    assert_eq!(
        diagnostics.errors[0].message,
        "The given operator class `ArrayOps` expects the type of field `a` to be an array."
    );
    assert!(diagnostics.errors[0].message.ends_with("to be an array."));
}

#[test]
fn array_ops_on_list_field_under_gin() {
    let model = model_of(
        field_a(ScalarType::Int, FieldArity::List, None),
        index_on_a(Some(OperatorClass::ArrayOps)),
        IndexType::Normal,
        Some(IndexAlgorithm::Gin),
    );
    assert!(validated(&model).errors.is_empty());
}

#[test]
fn jsonb_ops_on_jsonb_native_type() {
    let model = model_of(
        field_a(ScalarType::Json, FieldArity::Required, Some(NativeType::JsonB)),
        index_on_a(Some(OperatorClass::JsonbOps)),
        IndexType::Normal,
        Some(IndexAlgorithm::Gin),
    );
    assert!(validated(&model).errors.is_empty());
}

#[test]
fn json_field_has_implicit_gin_default() {
    let model = model_of(
        field_a(ScalarType::Json, FieldArity::Required, None),
        index_on_a(None),
        IndexType::Normal,
        Some(IndexAlgorithm::Gin),
    );
    assert!(validated(&model).errors.is_empty());
}

#[test]
fn jsonb_path_ops_on_non_json_field() {
    let model = model_of(
        field_a(ScalarType::Int, FieldArity::Required, None),
        index_on_a(Some(OperatorClass::JsonbPathOps)),
        IndexType::Normal,
        Some(IndexAlgorithm::Gin),
    );
    let diagnostics = validated(&model);
    assert_eq!(diagnostics.errors.len(), 1);
    assert_eq!(
        diagnostics.errors[0].message,
        "The given operator class `JsonbPathOps` points to the field `a` that is not of Json type."
    );
}

#[test]
fn inet_ops_on_inet_native_type_under_gist() {
    let model = model_of(
        field_a(ScalarType::String, FieldArity::Required, Some(NativeType::Inet)),
        index_on_a(Some(OperatorClass::InetOps)),
        IndexType::Normal,
        Some(IndexAlgorithm::Gist),
    );
    assert!(validated(&model).errors.is_empty());
}

#[test]
fn inet_native_type_without_class_under_gist() {
    let model = model_of(
        field_a(ScalarType::String, FieldArity::Required, Some(NativeType::Inet)),
        index_on_a(None),
        IndexType::Normal,
        Some(IndexAlgorithm::Gist),
    );
    let diagnostics = validated(&model);
    assert_eq!(diagnostics.errors.len(), 1);
    assert_eq!(
        diagnostics.errors[0].message,
        "The Gist index field type `Inet` has no default operator class."
    );
}

#[test]
fn text_ops_on_inet_native_type() {
    let model = model_of(
        field_a(ScalarType::String, FieldArity::Required, Some(NativeType::Inet)),
        index_on_a(Some(OperatorClass::TextOps)),
        IndexType::Normal,
        Some(IndexAlgorithm::SpGist),
    );
    let diagnostics = validated(&model);
    assert_eq!(diagnostics.errors.len(), 1);
    assert_eq!(
        diagnostics.errors[0].message,
        "The given operator class `TextOps` does not support native type `Inet` of field `a`."
    );
}

#[test]
fn varchar_native_type_without_class_under_spgist() {
    let model = model_of(
        field_a(ScalarType::String, FieldArity::Required, Some(NativeType::VarChar)),
        index_on_a(None),
        IndexType::Normal,
        Some(IndexAlgorithm::SpGist),
    );
    let diagnostics = validated(&model);
    assert_eq!(diagnostics.errors.len(), 1);
    assert_eq!(
        diagnostics.errors[0].message,
        "The SpGist index field type `VarChar` has no default operator class."
    );
}

#[test]
fn one_diagnostic_per_offending_field() {
    // Two offending columns in one index: both are reported, in declaration
    // order, against the index attribute.
    let fields = vec![
        FieldSpec {
            name: "a",
            scalar_type: ScalarType::Int,
            arity: FieldArity::Required,
            native_type: None,
        },
        FieldSpec {
            name: "b",
            scalar_type: ScalarType::Boolean,
            arity: FieldArity::Required,
            native_type: None,
        },
    ];
    let index_fields = vec![IndexField::new_in_model("a"), IndexField::new_in_model("b")];
    let model = model_of(
        fields,
        index_fields,
        IndexType::Normal,
        Some(IndexAlgorithm::SpGist),
    );
    let diagnostics = validated(&model);
    assert_eq!(diagnostics.errors.len(), 2);
    assert_eq!(
        diagnostics.errors[0].message,
        "The SpGist index type does not support the type of the field `a`."
    );
    assert_eq!(
        diagnostics.errors[1].message,
        "The SpGist index type does not support the type of the field `b`."
    );
}

#[test]
fn xml_sweep_precedes_generalized_check() {
    // One index that offends both checks: the sweep's diagnostic comes first,
    // and the generalized check still reports its own.
    let model = model_of(
        field_a(ScalarType::Int, FieldArity::Required, Some(NativeType::Xml)),
        index_on_a(None),
        IndexType::Normal,
        Some(IndexAlgorithm::SpGist),
    );
    let diagnostics = validated(&model);
    assert_eq!(diagnostics.errors.len(), 2);
    assert_eq!(
        diagnostics.errors[0].message,
        "You cannot define an index on fields with native type Xml of Postgres."
    );
    assert_eq!(
        diagnostics.errors[1].message,
        "The SpGist index field type `Xml` has no default operator class."
    );
}

#[test]
fn inet_ops_without_native_type_under_gist() {
    // The inet class defaults where the field carries no native type.
    let model = model_of(
        field_a(ScalarType::String, FieldArity::Required, None),
        index_on_a(Some(OperatorClass::InetOps)),
        IndexType::Normal,
        Some(IndexAlgorithm::Gist),
    );
    assert!(validated(&model).errors.is_empty());
}
