use pg_index_validation::diagnostics::Diagnostics;
use pg_index_validation::schema::{
    FieldArity, FieldDefinition, IndexAlgorithm, IndexAttribute, IndexDefinition, IndexField,
    IndexType, Model, NativeType, OperatorClass, ScalarType, Span,
};
use pg_index_validation::validations::validate_model;

fn spgist_model(
    a_type: ScalarType,
    a_native: Option<NativeType>,
    operator_class: Option<OperatorClass>,
    algorithm: IndexAlgorithm,
) -> Model {
    let mut index_field = IndexField::new_in_model("a");
    index_field.operator_class = operator_class;
    Model {
        name: "A".to_string(),
        fields: vec![
            FieldDefinition {
                name: "id".to_string(),
                scalar_type: ScalarType::Int,
                arity: FieldArity::Required,
                native_type: None,
                span: Span { start: 20, end: 30 },
            },
            FieldDefinition {
                name: "a".to_string(),
                scalar_type: a_type,
                arity: FieldArity::Required,
                native_type: a_native,
                span: Span { start: 40, end: 60 },
            },
        ],
        indexes: vec![IndexAttribute {
            definition: IndexDefinition {
                name: None,
                db_name: Some("A_a_idx".to_string()),
                fields: vec![index_field],
                tpe: IndexType::Normal,
                defined_on_field: false,
                algorithm: Some(algorithm),
                clustered: None,
            },
            attribute_span: Span { start: 70, end: 100 },
        }],
    }
}

fn spgist_assert_has_index(model: &Model, expected: &IndexDefinition) {
    assert!(
        model.indexes.iter().any(|i| &i.definition == expected),
        "model has no matching index"
    );
}

fn spgist_expected_index(operator_class: Option<OperatorClass>) -> IndexDefinition {
    let mut field = IndexField::new_in_model("a");
    field.operator_class = operator_class;
    IndexDefinition {
        name: None,
        db_name: Some("A_a_idx".to_string()),
        fields: vec![field],
        tpe: IndexType::Normal,
        defined_on_field: false,
        algorithm: Some(IndexAlgorithm::SpGist),
        clustered: None,
    }
}

#[test]
fn spgist_with_raw_unsupported() {
    let model = spgist_model(
        ScalarType::Unsupported,
        None,
        Some(OperatorClass::raw("poly_ops")),
        IndexAlgorithm::SpGist,
    );

    let mut diagnostics = Diagnostics::new();
    validate_model(&model, &mut diagnostics);
    assert!(diagnostics.errors.is_empty());

    spgist_assert_has_index(
        &model,
        &spgist_expected_index(Some(OperatorClass::raw("poly_ops"))),
    );
}

#[test]
fn spgist_with_unsupported_no_ops() {
    let model = spgist_model(ScalarType::Unsupported, None, None, IndexAlgorithm::SpGist);

    let mut diagnostics = Diagnostics::new();
    validate_model(&model, &mut diagnostics);
    assert!(diagnostics.errors.is_empty());

    spgist_assert_has_index(&model, &spgist_expected_index(None));
}

// NetworkOps

#[test]
fn no_ops_inet_native_type() {
    let model = spgist_model(
        ScalarType::String,
        Some(NativeType::Inet),
        None,
        IndexAlgorithm::SpGist,
    );

    let mut diagnostics = Diagnostics::new();
    validate_model(&model, &mut diagnostics);
    assert!(diagnostics.errors.is_empty());

    spgist_assert_has_index(&model, &spgist_expected_index(None));
}

#[test]
fn inet_type_network_ops() {
    let model = spgist_model(
        ScalarType::String,
        Some(NativeType::Inet),
        Some(OperatorClass::NetworkOps),
        IndexAlgorithm::SpGist,
    );

    let mut diagnostics = Diagnostics::new();
    validate_model(&model, &mut diagnostics);
    assert!(diagnostics.errors.is_empty());

    spgist_assert_has_index(
        &model,
        &spgist_expected_index(Some(OperatorClass::NetworkOps)),
    );
}

#[test]
fn no_native_type_network_ops() {
    let model = spgist_model(
        ScalarType::String,
        None,
        Some(OperatorClass::NetworkOps),
        IndexAlgorithm::SpGist,
    );

    let mut diagnostics = Diagnostics::new();
    validate_model(&model, &mut diagnostics);
    assert!(diagnostics.errors.is_empty());

    spgist_assert_has_index(
        &model,
        &spgist_expected_index(Some(OperatorClass::NetworkOps)),
    );
}

#[test]
fn network_ops_with_wrong_prisma_type() {
    let model = spgist_model(
        ScalarType::Int,
        None,
        Some(OperatorClass::NetworkOps),
        IndexAlgorithm::SpGist,
    );

    let mut diagnostics = Diagnostics::new();
    validate_model(&model, &mut diagnostics);

    assert_eq!(diagnostics.errors.len(), 1);
    assert_eq!(
        diagnostics.errors[0].message,
        "The given operator class `NetworkOps` expects the field `a` to define a valid native type."
    );
    assert_eq!(diagnostics.errors[0].attribute, Some("@index".to_string()));
    assert_eq!(diagnostics.errors[0].span, Span { start: 70, end: 100 });
}

#[test]
fn network_ops_with_wrong_index_type() {
    let model = spgist_model(
        ScalarType::String,
        Some(NativeType::Inet),
        Some(OperatorClass::NetworkOps),
        IndexAlgorithm::Gist,
    );

    let mut diagnostics = Diagnostics::new();
    validate_model(&model, &mut diagnostics);

    assert_eq!(diagnostics.errors.len(), 1);
    assert_eq!(
        diagnostics.errors[0].message,
        "The given operator class `NetworkOps` is not supported with the `Gist` index type."
    );
    assert_eq!(diagnostics.errors[0].attribute, Some("@index".to_string()));
}

// TextOps

#[test]
fn no_ops_text_native_type() {
    let model = spgist_model(
        ScalarType::String,
        Some(NativeType::Text),
        None,
        IndexAlgorithm::SpGist,
    );

    let mut diagnostics = Diagnostics::new();
    validate_model(&model, &mut diagnostics);
    assert!(diagnostics.errors.is_empty());

    spgist_assert_has_index(&model, &spgist_expected_index(None));
}

#[test]
fn text_type_text_ops() {
    let model = spgist_model(
        ScalarType::String,
        Some(NativeType::Text),
        Some(OperatorClass::TextOps),
        IndexAlgorithm::SpGist,
    );

    let mut diagnostics = Diagnostics::new();
    validate_model(&model, &mut diagnostics);
    assert!(diagnostics.errors.is_empty());

    spgist_assert_has_index(
        &model,
        &spgist_expected_index(Some(OperatorClass::TextOps)),
    );
}

#[test]
fn no_native_type_text_ops() {
    let model = spgist_model(
        ScalarType::String,
        None,
        Some(OperatorClass::TextOps),
        IndexAlgorithm::SpGist,
    );

    let mut diagnostics = Diagnostics::new();
    validate_model(&model, &mut diagnostics);
    assert!(diagnostics.errors.is_empty());

    spgist_assert_has_index(
        &model,
        &spgist_expected_index(Some(OperatorClass::TextOps)),
    );
}

#[test]
fn text_ops_with_wrong_prisma_type() {
    let model = spgist_model(
        ScalarType::Int,
        None,
        Some(OperatorClass::TextOps),
        IndexAlgorithm::SpGist,
    );

    let mut diagnostics = Diagnostics::new();
    validate_model(&model, &mut diagnostics);

    assert_eq!(diagnostics.errors.len(), 1);
    assert_eq!(
        diagnostics.errors[0].message,
        "The given operator class `TextOps` points to the field `a` that is not of String type."
    );
    assert_eq!(diagnostics.errors[0].attribute, Some("@index".to_string()));
}

#[test]
fn no_ops_weird_type() {
    let model = spgist_model(ScalarType::Int, None, None, IndexAlgorithm::SpGist);

    let mut diagnostics = Diagnostics::new();
    validate_model(&model, &mut diagnostics);

    assert_eq!(diagnostics.errors.len(), 1);
    assert_eq!(
        diagnostics.errors[0].message,
        "The SpGist index type does not support the type of the field `a`."
    );
    assert_eq!(diagnostics.errors[0].attribute, Some("@index".to_string()));
}

#[test]
fn text_ops_with_wrong_index_type() {
    let model = spgist_model(
        ScalarType::String,
        Some(NativeType::Text),
        Some(OperatorClass::TextOps),
        IndexAlgorithm::Gist,
    );

    let mut diagnostics = Diagnostics::new();
    validate_model(&model, &mut diagnostics);

    assert_eq!(diagnostics.errors.len(), 1);
    assert_eq!(
        diagnostics.errors[0].message,
        "The given operator class `TextOps` is not supported with the `Gist` index type."
    );
    assert_eq!(diagnostics.errors[0].attribute, Some("@index".to_string()));
}
