//! The index validator: one forward pass over a model's indexes that holds
//! every index against the connector's capability tables and appends a
//! diagnostic for each combination the engine rejects.
//!
//! Two checks run per index, in order. The native-type sweep looks for the
//! one native type no index may touch (`Xml`) and reports the first offending
//! field, unique and non-unique indexes getting different messages; the rest
//! of that index's fields are then left unchecked. The generalized check then
//! walks the index's fields in declaration order and holds each field's
//! operator class and native type against the effective algorithm's rules.

use vstd::prelude::*;

use crate::capabilities::{spec_known_class, spec_supports_field_type, spec_supports_index_type};
use crate::diagnostics::{DiagView, Diagnostic, Diagnostics};
use crate::messages::{
    msg_class_not_supported_with_algo,
    msg_class_wrong_native_type,
    msg_expects_array,
    msg_expects_valid_native_type,
    msg_incompatible_native_type_with_index,
    msg_incompatible_native_type_with_unique,
    msg_no_default_operator_class,
    msg_not_of_json_type,
    msg_not_of_string_type,
    msg_unsupported_field_type,
    render_class_not_supported_with_algo,
    render_class_wrong_native_type,
    render_expects_array,
    render_expects_valid_native_type,
    render_incompatible_native_type_with_index,
    render_incompatible_native_type_with_unique,
    render_no_default_operator_class,
    render_not_of_json_type,
    render_not_of_string_type,
    render_unsupported_field_type,
    spec_algorithm_name,
    spec_native_type_name,
    spec_operator_class_name,
};
use crate::schema::{
    FieldDefinition,
    IndexAlgorithm,
    IndexAttribute,
    IndexDefinition,
    IndexField,
    Model,
    NativeType,
    OperatorClass,
    Span,
};

verus! {

/// The algorithm an index is validated against: the declared one, or the
/// connector default where none is declared.
pub open spec fn spec_effective_algorithm(d: IndexDefinition) -> IndexAlgorithm {
    match d.algorithm {
        Some(a) => a,
        None => IndexAlgorithm::BTree,
    }
}

/// Whether some model field carries the given name.
pub open spec fn field_resolves(fields: Seq<FieldDefinition>, name: Seq<char>) -> bool {
    exists|i: int| 0 <= i < fields.len() && fields[i].name@ == name
}

/// The first model field carrying the given name.
pub open spec fn spec_field_named(fields: Seq<FieldDefinition>, name: Seq<char>) -> FieldDefinition
    decreases fields.len(),
{
    if fields.len() == 0 {
        vstd::pervasive::arbitrary()
    } else if fields[0].name@ == name {
        fields[0]
    } else {
        spec_field_named(fields.drop_first(), name)
    }
}

/// Every column of the index names a field of the model.
pub open spec fn spec_index_fields_resolve(
    index: IndexAttribute,
    fields: Seq<FieldDefinition>,
) -> bool {
    forall|j: int|
        0 <= j < index.definition.fields@.len() ==> #[trigger] field_resolves(
            fields,
            index.definition.fields@[j].name@,
        )
}

/// A diagnostic about the index attribute.
pub open spec fn attr_diag(message: Seq<char>, span: Span) -> DiagView {
    DiagView { message, attribute: Some("@index"@), span }
}

/// A diagnostic carrying only a message, pointing at a field.
pub open spec fn plain_diag(message: Seq<char>, span: Span) -> DiagView {
    DiagView { message, attribute: None, span }
}

/// The fallback verdicts, shared by every algorithm family: each combination
/// of "native type present or not" and "operator class declared or not" that
/// no family-specific rule accepted is mapped to its own diagnostic, and the
/// bare field type is held against the algorithm where neither is given.
pub open spec fn spec_generic_field_diags(
    algo: IndexAlgorithm,
    nt: Option<NativeType>,
    oc: Option<OperatorClass>,
    field: FieldDefinition,
    span: Span,
) -> Seq<DiagView> {
    match (nt, oc) {
        (Some(n), Some(c)) => seq![
            attr_diag(
                msg_class_wrong_native_type(
                    spec_operator_class_name(c),
                    spec_native_type_name(n),
                    field.name@,
                ),
                span,
            ),
        ],
        (Some(n), None) => seq![
            attr_diag(
                msg_no_default_operator_class(spec_algorithm_name(algo), spec_native_type_name(n)),
                span,
            ),
        ],
        (None, Some(c)) => seq![
            attr_diag(msg_expects_valid_native_type(spec_operator_class_name(c), field.name@), span),
        ],
        (None, None) => if !spec_supports_field_type(algo, field.scalar_type, field.arity) {
            seq![
                attr_diag(msg_unsupported_field_type(spec_algorithm_name(algo), field.name@), span),
            ]
        } else {
            Seq::empty()
        },
    }
}

/// The json operator classes point at a field that must be of json type.
pub open spec fn spec_json_points_diags(
    c: OperatorClass,
    field: FieldDefinition,
    span: Span,
) -> Seq<DiagView> {
    if !(field.scalar_type is Json) {
        seq![attr_diag(msg_not_of_json_type(spec_operator_class_name(c), field.name@), span)]
    } else {
        Seq::empty()
    }
}

/// The text operator class points at a field that must be of string type.
pub open spec fn spec_string_points_diags(
    c: OperatorClass,
    field: FieldDefinition,
    span: Span,
) -> Seq<DiagView> {
    if !(field.scalar_type is String) {
        seq![attr_diag(msg_not_of_string_type(spec_operator_class_name(c), field.name@), span)]
    } else {
        Seq::empty()
    }
}

/// GiST accepts the inet class over the inet native type, or over a field
/// with no native type at all, where the annotation defaults.
pub open spec fn spec_gist_diags(
    nt: Option<NativeType>,
    oc: Option<OperatorClass>,
    field: FieldDefinition,
    span: Span,
) -> Seq<DiagView> {
    match (nt, oc) {
        (Some(NativeType::Inet), Some(OperatorClass::InetOps)) => Seq::empty(),
        (None, Some(OperatorClass::InetOps)) => Seq::empty(),
        _ => spec_generic_field_diags(IndexAlgorithm::Gist, nt, oc, field, span),
    }
}

/// GIN accepts the jsonb classes over the jsonb native type or a json field,
/// and the array class over a list field; the array class over a non-list
/// field gets its own message, never the generic one.
pub open spec fn spec_gin_diags(
    nt: Option<NativeType>,
    oc: Option<OperatorClass>,
    field: FieldDefinition,
    span: Span,
) -> Seq<DiagView> {
    match (nt, oc) {
        (None, None) => if field.scalar_type is Json {
            Seq::empty()
        } else {
            spec_generic_field_diags(IndexAlgorithm::Gin, nt, oc, field, span)
        },
        (Some(NativeType::JsonB), Some(OperatorClass::JsonbOps)) => Seq::empty(),
        (Some(NativeType::JsonB), Some(OperatorClass::JsonbPathOps)) => Seq::empty(),
        (Some(NativeType::JsonB), None) => Seq::empty(),
        (None, Some(OperatorClass::JsonbOps)) => spec_json_points_diags(
            OperatorClass::JsonbOps,
            field,
            span,
        ),
        (None, Some(OperatorClass::JsonbPathOps)) => spec_json_points_diags(
            OperatorClass::JsonbPathOps,
            field,
            span,
        ),
        (_, Some(OperatorClass::ArrayOps)) => if field.arity is List {
            Seq::empty()
        } else {
            seq![attr_diag(msg_expects_array(field.name@), span)]
        },
        _ => spec_generic_field_diags(IndexAlgorithm::Gin, nt, oc, field, span),
    }
}

/// SP-GiST accepts the network class over the inet native type or a string
/// field, and the text class over the text native type or a string field.
pub open spec fn spec_spgist_diags(
    nt: Option<NativeType>,
    oc: Option<OperatorClass>,
    field: FieldDefinition,
    span: Span,
) -> Seq<DiagView> {
    match (nt, oc) {
        (Some(NativeType::Inet), Some(OperatorClass::NetworkOps)) => Seq::empty(),
        (Some(NativeType::Inet), None) => Seq::empty(),
        (None, Some(OperatorClass::NetworkOps)) => if field.scalar_type is String {
            Seq::empty()
        } else {
            spec_generic_field_diags(IndexAlgorithm::SpGist, nt, oc, field, span)
        },
        (None, None) => if field.scalar_type is String {
            Seq::empty()
        } else {
            spec_generic_field_diags(IndexAlgorithm::SpGist, nt, oc, field, span)
        },
        (None, Some(OperatorClass::TextOps)) => spec_string_points_diags(
            OperatorClass::TextOps,
            field,
            span,
        ),
        (Some(NativeType::Text), Some(OperatorClass::TextOps)) => Seq::empty(),
        (Some(NativeType::Text), None) => Seq::empty(),
        _ => spec_generic_field_diags(IndexAlgorithm::SpGist, nt, oc, field, span),
    }
}

/// The family-specific verdict tables; the default algorithm and the other
/// families without operator-class rules accept everything here.
pub open spec fn spec_class_check_diags(
    algo: IndexAlgorithm,
    oc: Option<OperatorClass>,
    field: FieldDefinition,
    span: Span,
) -> Seq<DiagView> {
    if algo is Gist {
        spec_gist_diags(field.native_type, oc, field, span)
    } else if algo is Gin {
        spec_gin_diags(field.native_type, oc, field, span)
    } else if algo is SpGist {
        spec_spgist_diags(field.native_type, oc, field, span)
    } else {
        Seq::empty()
    }
}

/// Everything the generalized check says about one index column: a declared
/// operator class the algorithm rejects outright is reported alone, with the
/// native-type rules left unapplied; otherwise the family's verdict table
/// decides.
pub open spec fn spec_field_diags(
    algo: IndexAlgorithm,
    field: FieldDefinition,
    declared: Option<OperatorClass>,
    span: Span,
) -> Seq<DiagView> {
    match spec_known_class(declared) {
        Some(c) => if !spec_supports_index_type(c, algo) {
            seq![
                attr_diag(
                    msg_class_not_supported_with_algo(
                        spec_operator_class_name(c),
                        spec_algorithm_name(algo),
                    ),
                    span,
                ),
            ]
        } else {
            spec_class_check_diags(algo, Some(c), field, span)
        },
        None => spec_class_check_diags(algo, None, field, span),
    }
}

/// The generalized check's diagnostics for the first `n` columns of an index,
/// in declaration order.
pub open spec fn spec_generalized_diags_upto(
    algo: IndexAlgorithm,
    ifields: Seq<IndexField>,
    fields: Seq<FieldDefinition>,
    span: Span,
    n: int,
) -> Seq<DiagView>
    decreases n,
{
    if n <= 0 {
        Seq::empty()
    } else {
        spec_generalized_diags_upto(algo, ifields, fields, span, n - 1) + spec_field_diags(
            algo,
            spec_field_named(fields, ifields[n - 1].name@),
            ifields[n - 1].operator_class,
            span,
        )
    }
}

/// Everything the generalized check says about one index.
pub open spec fn spec_generalized_index_diags(
    index: IndexAttribute,
    fields: Seq<FieldDefinition>,
) -> Seq<DiagView> {
    spec_generalized_diags_upto(
        spec_effective_algorithm(index.definition),
        index.definition.fields@,
        fields,
        index.attribute_span,
        index.definition.fields@.len() as int,
    )
}

/// The diagnostic the native-type sweep reports for an offending field: the
/// unique and the non-unique index each have their own message, pointing at
/// the field's own span.
pub open spec fn spec_xml_diag(unique: bool, span: Span) -> DiagView {
    if unique {
        plain_diag(
            msg_incompatible_native_type_with_unique(spec_native_type_name(NativeType::Xml)),
            span,
        )
    } else {
        plain_diag(
            msg_incompatible_native_type_with_index(spec_native_type_name(NativeType::Xml)),
            span,
        )
    }
}

/// The native-type sweep from column `i` on: the first field whose native
/// type is the globally forbidden one is reported, and the sweep stops there.
pub open spec fn spec_xml_diags_from(
    ifields: Seq<IndexField>,
    fields: Seq<FieldDefinition>,
    unique: bool,
    i: int,
) -> Seq<DiagView>
    decreases ifields.len() - i,
{
    if i < 0 || i >= ifields.len() {
        Seq::empty()
    } else if spec_field_named(fields, ifields[i].name@).native_type == Some(NativeType::Xml) {
        seq![spec_xml_diag(unique, spec_field_named(fields, ifields[i].name@).span)]
    } else {
        spec_xml_diags_from(ifields, fields, unique, i + 1)
    }
}

/// Everything the native-type sweep says about one index.
pub open spec fn spec_native_type_diags(
    index: IndexAttribute,
    fields: Seq<FieldDefinition>,
) -> Seq<DiagView> {
    spec_xml_diags_from(
        index.definition.fields@,
        fields,
        index.definition.tpe is Unique,
        0,
    )
}

/// Every column of every index of the model names a field of the model.
pub open spec fn spec_model_resolves(m: Model) -> bool {
    forall|i: int|
        0 <= i < m.indexes@.len() ==> #[trigger] spec_index_fields_resolve(m.indexes@[i], m.fields@)
}

/// The whole pass over the first `n` indexes of a model: per index, the
/// native-type sweep, then the generalized check.
pub open spec fn spec_model_diags_upto(
    indexes: Seq<IndexAttribute>,
    fields: Seq<FieldDefinition>,
    n: int,
) -> Seq<DiagView>
    decreases n,
{
    if n <= 0 {
        Seq::empty()
    } else {
        spec_model_diags_upto(indexes, fields, n - 1) + spec_native_type_diags(
            indexes[n - 1],
            fields,
        ) + spec_generalized_index_diags(indexes[n - 1], fields)
    }
}

/// Everything the validator says about a model.
pub open spec fn spec_validate_model_diags(m: Model) -> Seq<DiagView> {
    spec_model_diags_upto(m.indexes@, m.fields@, m.indexes@.len() as int)
}

proof fn lemma_field_named_at(fields: Seq<FieldDefinition>, name: Seq<char>, i: int)
    requires
        0 <= i < fields.len(),
        fields[i].name@ == name,
        forall|j: int| 0 <= j < i ==> #[trigger] fields[j].name@ != name,
    ensures
        spec_field_named(fields, name) == fields[i],
    decreases i,
{
    if i == 0 {
    } else {
        assert(fields[0].name@ != name);
        lemma_field_named_at(fields.drop_first(), name, i - 1);
        assert(fields.drop_first()[i - 1] == fields[i]);
    }
}

/// Looks an index column's field up among the model's fields.
fn find_field<'a>(fields: &'a Vec<FieldDefinition>, name: &str) -> (r: &'a FieldDefinition)
    requires
        field_resolves(fields@, name@),
    ensures
        *r == spec_field_named(fields@, name@),
{
    let n = fields.len();
    let mut i: usize = 0;
    while i < n
        invariant
            n == fields@.len(),
            0 <= i <= n,
            field_resolves(fields@, name@),
            forall|j: int| 0 <= j < i ==> #[trigger] fields@[j].name@ != name@,
        decreases n - i,
    {
        if crate::registry::str_eq(fields[i].name.as_str(), name) {
            proof {
                lemma_field_named_at(fields@, name@, i as int);
            }
            return &fields[i];
        }
        i = i + 1;
    }
    proof {
        let witness = choose|k: int| 0 <= k < fields@.len() && fields@[k].name@ == name@;
        assert(fields@[witness].name@ != name@);
    }
    unreached()
}

/// The fallback verdicts, executed: see [`spec_generic_field_diags`].
fn emit_generic(
    algo: IndexAlgorithm,
    field: &FieldDefinition,
    oc: &Option<OperatorClass>,
    span: Span,
    errors: &mut Diagnostics,
)
    ensures
        final(errors)@ == old(errors)@ + spec_generic_field_diags(
            algo,
            field.native_type,
            *oc,
            *field,
            span,
        ),
{
    match (field.native_type, oc) {
        (Some(n), Some(c)) => {
            let cn = c.name();
            let nn = n.name();
            let msg = render_class_wrong_native_type(cn.as_str(), nn.as_str(), field.name.as_str());
            errors.push_error(Diagnostic::new_attribute_validation_error(msg, "@index", span));
            proof {
                assert(errors@ =~= old(errors)@ + spec_generic_field_diags(
                    algo,
                    field.native_type,
                    *oc,
                    *field,
                    span,
                ));
            }
        },
        (Some(n), None) => {
            let an = algo.name();
            let nn = n.name();
            let msg = render_no_default_operator_class(an.as_str(), nn.as_str());
            errors.push_error(Diagnostic::new_attribute_validation_error(msg, "@index", span));
            proof {
                assert(errors@ =~= old(errors)@ + spec_generic_field_diags(
                    algo,
                    field.native_type,
                    *oc,
                    *field,
                    span,
                ));
            }
        },
        (None, Some(c)) => {
            let cn = c.name();
            let msg = render_expects_valid_native_type(cn.as_str(), field.name.as_str());
            errors.push_error(Diagnostic::new_attribute_validation_error(msg, "@index", span));
            proof {
                assert(errors@ =~= old(errors)@ + spec_generic_field_diags(
                    algo,
                    field.native_type,
                    *oc,
                    *field,
                    span,
                ));
            }
        },
        (None, None) => {
            if !algo.supports_field_type(field) {
                let an = algo.name();
                let msg = render_unsupported_field_type(an.as_str(), field.name.as_str());
                errors.push_error(Diagnostic::new_attribute_validation_error(msg, "@index", span));
                proof {
                    assert(errors@ =~= old(errors)@ + spec_generic_field_diags(
                        algo,
                        field.native_type,
                        *oc,
                        *field,
                        span,
                    ));
                }
            } else {
                proof {
                    assert(errors@ =~= old(errors)@ + spec_generic_field_diags(
                        algo,
                        field.native_type,
                        *oc,
                        *field,
                        span,
                    ));
                }
            }
        },
    }
}

/// The GiST verdicts, executed: see [`spec_gist_diags`].
fn check_gist(field: &FieldDefinition, oc: &Option<OperatorClass>, span: Span, errors: &mut Diagnostics)
    ensures
        final(errors)@ == old(errors)@ + spec_gist_diags(field.native_type, *oc, *field, span),
{
    let ghost expected = spec_gist_diags(field.native_type, *oc, *field, span);
    match (field.native_type, oc) {
        (Some(NativeType::Inet), Some(OperatorClass::InetOps)) => {},
        (None, Some(OperatorClass::InetOps)) => {},
        _ => {
            emit_generic(IndexAlgorithm::Gist, field, oc, span, errors);
        },
    }
    proof {
        assert(errors@ =~= old(errors)@ + expected);
    }
}

/// The GIN verdicts, executed: see [`spec_gin_diags`].
fn check_gin(field: &FieldDefinition, oc: &Option<OperatorClass>, span: Span, errors: &mut Diagnostics)
    ensures
        final(errors)@ == old(errors)@ + spec_gin_diags(field.native_type, *oc, *field, span),
{
    let ghost expected = spec_gin_diags(field.native_type, *oc, *field, span);
    match (field.native_type, oc) {
        (None, None) => {
            if !field.scalar_type.is_json() {
                emit_generic(IndexAlgorithm::Gin, field, oc, span, errors);
            }
        },
        (Some(NativeType::JsonB), Some(OperatorClass::JsonbOps)) => {},
        (Some(NativeType::JsonB), Some(OperatorClass::JsonbPathOps)) => {},
        (Some(NativeType::JsonB), None) => {},
        (None, Some(OperatorClass::JsonbOps)) => {
            if !field.scalar_type.is_json() {
                let msg = render_not_of_json_type("JsonbOps", field.name.as_str());
                errors.push_error(Diagnostic::new_attribute_validation_error(msg, "@index", span));
            }
        },
        (None, Some(OperatorClass::JsonbPathOps)) => {
            if !field.scalar_type.is_json() {
                let msg = render_not_of_json_type("JsonbPathOps", field.name.as_str());
                errors.push_error(Diagnostic::new_attribute_validation_error(msg, "@index", span));
            }
        },
        (_, Some(OperatorClass::ArrayOps)) => {
            if !field.arity.is_list() {
                let msg = render_expects_array(field.name.as_str());
                errors.push_error(Diagnostic::new_attribute_validation_error(msg, "@index", span));
            }
        },
        _ => {
            emit_generic(IndexAlgorithm::Gin, field, oc, span, errors);
        },
    }
    proof {
        assert(errors@ =~= old(errors)@ + expected);
    }
}

/// The SP-GiST verdicts, executed: see [`spec_spgist_diags`].
fn check_spgist(field: &FieldDefinition, oc: &Option<OperatorClass>, span: Span, errors: &mut Diagnostics)
    ensures
        final(errors)@ == old(errors)@ + spec_spgist_diags(field.native_type, *oc, *field, span),
{
    let ghost expected = spec_spgist_diags(field.native_type, *oc, *field, span);
    match (field.native_type, oc) {
        (Some(NativeType::Inet), Some(OperatorClass::NetworkOps)) => {},
        (Some(NativeType::Inet), None) => {},
        (None, Some(OperatorClass::NetworkOps)) => {
            if !field.scalar_type.is_string() {
                emit_generic(IndexAlgorithm::SpGist, field, oc, span, errors);
            }
        },
        (None, None) => {
            if !field.scalar_type.is_string() {
                emit_generic(IndexAlgorithm::SpGist, field, oc, span, errors);
            }
        },
        (None, Some(OperatorClass::TextOps)) => {
            if !field.scalar_type.is_string() {
                let msg = render_not_of_string_type("TextOps", field.name.as_str());
                errors.push_error(Diagnostic::new_attribute_validation_error(msg, "@index", span));
            }
        },
        (Some(NativeType::Text), Some(OperatorClass::TextOps)) => {},
        (Some(NativeType::Text), None) => {},
        _ => {
            emit_generic(IndexAlgorithm::SpGist, field, oc, span, errors);
        },
    }
    proof {
        assert(errors@ =~= old(errors)@ + expected);
    }
}

/// One index column, held against the effective algorithm: see
/// [`spec_field_diags`].
fn check_field(
    algo: IndexAlgorithm,
    field: &FieldDefinition,
    declared: &Option<OperatorClass>,
    span: Span,
    errors: &mut Diagnostics,
)
    ensures
        final(errors)@ == old(errors)@ + spec_field_diags(algo, *field, *declared, span),
{
    let known: Option<OperatorClass> = match declared {
        Some(OperatorClass::Raw(_)) => None,
        Some(c) => Some(c.clone()),
        None => None,
    };
    proof {
        assert(known == spec_known_class(*declared));
    }
    let mismatch = match &known {
        Some(c) => !c.supports_index_type(algo),
        None => false,
    };
    if mismatch {
        let c = match &known {
            Some(c) => c,
            None => unreached(),
        };
        let cn = c.name();
        let an = algo.name();
        let msg = render_class_not_supported_with_algo(cn.as_str(), an.as_str());
        errors.push_error(Diagnostic::new_attribute_validation_error(msg, "@index", span));
        proof {
            assert(errors@ =~= old(errors)@ + spec_field_diags(algo, *field, *declared, span));
        }
    } else {
        match algo {
            IndexAlgorithm::Gist => check_gist(field, &known, span, errors),
            IndexAlgorithm::Gin => check_gin(field, &known, span, errors),
            IndexAlgorithm::SpGist => check_spgist(field, &known, span, errors),
            IndexAlgorithm::BTree => (),
            IndexAlgorithm::Hash => (),
            IndexAlgorithm::Brin => (),
        }
        proof {
            assert(errors@ =~= old(errors)@ + spec_field_diags(algo, *field, *declared, span));
        }
    }
}

proof fn lemma_xml_skip_clean(
    ifields: Seq<IndexField>,
    fields: Seq<FieldDefinition>,
    unique: bool,
    k: int,
)
    requires
        0 <= k <= ifields.len(),
        forall|j: int|
            0 <= j < k ==> #[trigger] spec_field_named(fields, ifields[j].name@).native_type
                != Some(NativeType::Xml),
    ensures
        spec_xml_diags_from(ifields, fields, unique, 0) == spec_xml_diags_from(
            ifields,
            fields,
            unique,
            k,
        ),
    decreases k,
{
    if k > 0 {
        lemma_xml_skip_clean(ifields, fields, unique, k - 1);
        assert(spec_field_named(fields, ifields[k - 1].name@).native_type != Some(
            NativeType::Xml,
        ));
    }
}

/// The native-type sweep of one index: the first field whose annotation
/// resolved to the globally forbidden native type is reported — the unique
/// index with its own message — and the index's remaining fields are left
/// unchecked.
pub fn compatible_native_types(
    index: &IndexAttribute,
    fields: &Vec<FieldDefinition>,
    errors: &mut Diagnostics,
)
    requires
        spec_index_fields_resolve(*index, fields@),
    ensures
        final(errors)@ == old(errors)@ + spec_native_type_diags(*index, fields@),
{
    let ghost ifields = index.definition.fields@;
    let ghost unique = index.definition.tpe is Unique;
    let n = index.definition.fields.len();
    let mut i: usize = 0;
    while i < n
        invariant
            n == ifields.len(),
            0 <= i <= n,
            ifields == index.definition.fields@,
            unique == (index.definition.tpe is Unique),
            spec_index_fields_resolve(*index, fields@),
            errors@ == old(errors)@,
            forall|j: int|
                0 <= j < i ==> #[trigger] spec_field_named(fields@, ifields[j].name@).native_type
                    != Some(NativeType::Xml),
        decreases n - i,
    {
        let field = find_field(fields, index.definition.fields[i].name.as_str());
        let is_xml = matches!(field.native_type, Some(NativeType::Xml));
        if is_xml {
            let nn = match field.native_type {
                Some(t) => t.name(),
                None => unreached(),
            };
            let msg = if index.definition.is_unique() {
                render_incompatible_native_type_with_unique(nn.as_str())
            } else {
                render_incompatible_native_type_with_index(nn.as_str())
            };
            errors.push_error(Diagnostic::new_error(msg, field.span));
            proof {
                lemma_xml_skip_clean(ifields, fields@, unique, i as int);
                assert(errors@ =~= old(errors)@ + spec_native_type_diags(*index, fields@));
            }
            return ;
        }
        i = i + 1;
    }
    proof {
        lemma_xml_skip_clean(ifields, fields@, unique, n as int);
        assert(errors@ =~= old(errors)@ + spec_native_type_diags(*index, fields@));
    }
}

/// The generalized check of one index: every column in declaration order is
/// held against the effective algorithm's operator-class and native-type
/// rules, and each offending column is reported against the index attribute.
pub fn generalized_index_validations(
    index: &IndexAttribute,
    fields: &Vec<FieldDefinition>,
    errors: &mut Diagnostics,
)
    requires
        spec_index_fields_resolve(*index, fields@),
    ensures
        final(errors)@ == old(errors)@ + spec_generalized_index_diags(*index, fields@),
{
    let algo = match index.definition.algorithm {
        Some(a) => a,
        None => IndexAlgorithm::BTree,
    };
    let span = index.attribute_span;
    let ghost ifields = index.definition.fields@;
    let n = index.definition.fields.len();
    let mut i: usize = 0;
    while i < n
        invariant
            n == ifields.len(),
            0 <= i <= n,
            ifields == index.definition.fields@,
            algo == spec_effective_algorithm(index.definition),
            span == index.attribute_span,
            spec_index_fields_resolve(*index, fields@),
            errors@ == old(errors)@ + spec_generalized_diags_upto(
                algo,
                ifields,
                fields@,
                span,
                i as int,
            ),
        decreases n - i,
    {
        let ifield = &index.definition.fields[i];
        let field = find_field(fields, ifield.name.as_str());
        check_field(algo, field, &ifield.operator_class, span, errors);
        proof {
            assert(errors@ =~= old(errors)@ + spec_generalized_diags_upto(
                algo,
                ifields,
                fields@,
                span,
                i as int + 1,
            ));
        }
        i = i + 1;
    }
    proof {
        assert(spec_generalized_diags_upto(algo, ifields, fields@, span, n as int)
            == spec_generalized_index_diags(*index, fields@));
    }
}

/// One forward validation pass over a model: for each index in declaration
/// order, the native-type sweep, then the generalized check. The model is
/// never mutated; diagnostics only accumulate.
pub fn validate_model(model: &Model, errors: &mut Diagnostics)
    requires
        spec_model_resolves(*model),
    ensures
        final(errors)@ == old(errors)@ + spec_validate_model_diags(*model),
{
    let n = model.indexes.len();
    let mut i: usize = 0;
    while i < n
        invariant
            n == model.indexes@.len(),
            0 <= i <= n,
            spec_model_resolves(*model),
            errors@ == old(errors)@ + spec_model_diags_upto(
                model.indexes@,
                model.fields@,
                i as int,
            ),
        decreases n - i,
    {
        let index = &model.indexes[i];
        compatible_native_types(index, &model.fields, errors);
        generalized_index_validations(index, &model.fields, errors);
        proof {
            assert(errors@ =~= old(errors)@ + spec_model_diags_upto(
                model.indexes@,
                model.fields@,
                i as int + 1,
            ));
        }
        i = i + 1;
    }
}

/// Law: an index that declares no algorithm is validated exactly as one that
/// declares the connector default, the B-tree; no rule beyond the default
/// algorithm's applies to it.
pub proof fn lemma_default_algorithm(
    index: IndexAttribute,
    with_default: IndexAttribute,
    fields: Seq<FieldDefinition>,
)
    requires
        index.definition.algorithm is None,
        with_default.definition.algorithm == Some(IndexAlgorithm::BTree),
        with_default.definition.fields == index.definition.fields,
        with_default.definition.tpe == index.definition.tpe,
        with_default.attribute_span == index.attribute_span,
    ensures
        spec_effective_algorithm(index.definition) == IndexAlgorithm::BTree,
        spec_generalized_index_diags(index, fields) == spec_generalized_index_diags(
            with_default,
            fields,
        ),
        spec_native_type_diags(index, fields) == spec_native_type_diags(with_default, fields),
{
}

/// Whether the index column at `j` resolves to a field of the globally
/// forbidden native type.
pub open spec fn spec_column_is_xml(
    ifields: Seq<IndexField>,
    fields: Seq<FieldDefinition>,
    j: int,
) -> bool {
    spec_field_named(fields, ifields[j].name@).native_type == Some(NativeType::Xml)
}

proof fn lemma_xml_found(
    ifields: Seq<IndexField>,
    fields: Seq<FieldDefinition>,
    unique: bool,
    i: int,
)
    requires
        0 <= i <= ifields.len(),
        exists|j: int| i <= j < ifields.len() && spec_column_is_xml(ifields, fields, j),
    ensures
        exists|k: int|
            i <= k < ifields.len() && spec_column_is_xml(ifields, fields, k) && (forall|j: int|
                i <= j < k ==> !spec_column_is_xml(ifields, fields, j))
                && spec_xml_diags_from(ifields, fields, unique, i) == seq![
                spec_xml_diag(unique, spec_field_named(fields, ifields[k].name@).span),
            ],
    decreases ifields.len() - i,
{
    if spec_column_is_xml(ifields, fields, i) {
        assert(spec_column_is_xml(ifields, fields, i) && (forall|j: int|
            i <= j < i ==> !spec_column_is_xml(ifields, fields, j)) && spec_xml_diags_from(
            ifields,
            fields,
            unique,
            i,
        ) == seq![spec_xml_diag(unique, spec_field_named(fields, ifields[i].name@).span)]);
    } else {
        let j0 = choose|j: int| i <= j < ifields.len() && spec_column_is_xml(ifields, fields, j);
        assert(i + 1 <= j0 < ifields.len() && spec_column_is_xml(ifields, fields, j0));
        lemma_xml_found(ifields, fields, unique, i + 1);
        let k = choose|k: int|
            i + 1 <= k < ifields.len() && spec_column_is_xml(ifields, fields, k) && (forall|j: int|
                i + 1 <= j < k ==> !spec_column_is_xml(ifields, fields, j))
                && spec_xml_diags_from(ifields, fields, unique, i + 1) == seq![
                spec_xml_diag(unique, spec_field_named(fields, ifields[k].name@).span),
            ];
        assert(spec_column_is_xml(ifields, fields, k) && (forall|j: int|
            i <= j < k ==> !spec_column_is_xml(ifields, fields, j)) && spec_xml_diags_from(
            ifields,
            fields,
            unique,
            i,
        ) == seq![spec_xml_diag(unique, spec_field_named(fields, ifields[k].name@).span)]);
    }
}

/// Law: an index containing a field of the globally forbidden native type
/// gets exactly one diagnostic from the native-type sweep, at the first
/// offending field's span — a second offending field adds nothing — and the
/// message is the unique variant exactly on a unique index.
pub proof fn lemma_forbidden_native_type(index: IndexAttribute, fields: Seq<FieldDefinition>)
    requires
        exists|j: int|
            0 <= j < index.definition.fields@.len() && spec_column_is_xml(
                index.definition.fields@,
                fields,
                j,
            ),
    ensures
        spec_native_type_diags(index, fields).len() == 1,
        spec_native_type_diags(index, fields)[0].attribute is None,
        index.definition.tpe is Unique ==> spec_native_type_diags(index, fields)[0].message
            == msg_incompatible_native_type_with_unique(spec_native_type_name(NativeType::Xml)),
        !(index.definition.tpe is Unique) ==> spec_native_type_diags(index, fields)[0].message
            == msg_incompatible_native_type_with_index(spec_native_type_name(NativeType::Xml)),
        exists|k: int|
            0 <= k < index.definition.fields@.len() && spec_column_is_xml(
                index.definition.fields@,
                fields,
                k,
            ) && (forall|j: int|
                0 <= j < k ==> !spec_column_is_xml(index.definition.fields@, fields, j))
                && spec_native_type_diags(index, fields)[0].span == spec_field_named(
                fields,
                index.definition.fields@[k].name@,
            ).span,
{
    lemma_xml_found(index.definition.fields@, fields, index.definition.tpe is Unique, 0);
}

/// Law: the validator is a function of the immutable model alone, so two runs
/// over the same model produce identical diagnostic sequences, in the same
/// order; `validate_model` pins what it appends to this one sequence.
pub proof fn lemma_validator_deterministic(m: Model, d1: Seq<DiagView>, d2: Seq<DiagView>)
    requires
        d1 == spec_validate_model_diags(m),
        d2 == spec_validate_model_diags(m),
    ensures
        d1 == d2,
{
}

/// Law: under the inverted index, the array operator class over a non-list
/// field yields exactly the dedicated array message — never the generic
/// unsupported-field message, from which it differs.
pub proof fn lemma_array_ops_non_list(
    field: FieldDefinition,
    declared: Option<OperatorClass>,
    span: Span,
)
    requires
        spec_known_class(declared) == Some(OperatorClass::ArrayOps),
        !(field.arity is List),
    ensures
        spec_field_diags(IndexAlgorithm::Gin, field, declared, span) == seq![
            attr_diag(msg_expects_array(field.name@), span),
        ],
        msg_expects_array(field.name@) != msg_unsupported_field_type(
            spec_algorithm_name(IndexAlgorithm::Gin),
            field.name@,
        ),
{
    reveal_strlit("The given operator class `ArrayOps` expects the type of field `");
    reveal_strlit("The ");
    reveal_strlit("Gin");
    let a = msg_expects_array(field.name@);
    let b = msg_unsupported_field_type(spec_algorithm_name(IndexAlgorithm::Gin), field.name@);
    assert(a[4] == 'g');
    assert(("The "@ + "Gin"@)[4] == 'G');
    assert(b[4] == 'G');
    assert(a != b);
}

} // verus!
