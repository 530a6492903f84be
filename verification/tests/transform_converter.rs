use conceptweave_relation_partition::catalog::{QualifiedTypeName, RelationKind};
use conceptweave_relation_partition::error::ObservationError;
use conceptweave_relation_partition::exclusion_constraint::IndexExclusionConstraintCoordinate;
use conceptweave_relation_partition::procedure_definition::{
    IndexExclusionConstraintOperatorProcedureDefinitionObservation,
    IndexExclusionConstraintOperatorProcedureDefinitionSnapshot,
};
use conceptweave_relation_partition::procedure_material::{
    IndexExclusionConstraintOperatorProcedureDefinitionMaterial,
    IndexExclusionConstraintOperatorProcedureTransformConverterFunctionDefinition,
};
use conceptweave_relation_partition::procedure_parallel_safety::{IssuedProcedureBindings, OperatorProcedureBinding};
use conceptweave_relation_partition::procedure_transform_converter::{
    IndexExclusionConstraintOperatorProcedureTransformConverterBinding,
    IndexExclusionConstraintOperatorProcedureTransformConverterFunction,
    IndexExclusionConstraintOperatorProcedureTransformConverterObservation,
    IndexExclusionConstraintOperatorProcedureTransformConverterSnapshot,
};
use conceptweave_relation_partition::procedure_transform_types::{IssuedTransformTypes, TransformTypesEntry};
use conceptweave_relation_partition::signatures::{QualifiedOperatorSignature, QualifiedProcedureSignature};

const OBSERVED_AT: &str = "2026-01-01T00:00:00Z";

fn invalid(field: &'static str) -> ObservationError {
    ObservationError::InvalidObservationField { field }
}

fn ty(schema: &str, name: &str) -> QualifiedTypeName {
    QualifiedTypeName::new(schema, name).unwrap()
}

fn internal() -> QualifiedTypeName {
    ty("pg_catalog", "internal")
}

fn coordinate(name: &str) -> IndexExclusionConstraintCoordinate {
    IndexExclusionConstraintCoordinate::new("public", "bookings", RelationKind::Table, name).unwrap()
}

fn operator() -> QualifiedOperatorSignature {
    QualifiedOperatorSignature::new("public", "&&", ty("public", "span"), ty("public", "span")).unwrap()
}

fn procedure() -> QualifiedProcedureSignature {
    QualifiedProcedureSignature::new("public", "span_overlaps", vec![ty("public", "span"), ty("public", "span")]).unwrap()
}

fn other_procedure() -> QualifiedProcedureSignature {
    QualifiedProcedureSignature::new("public", "span_touches", vec![ty("public", "span"), ty("public", "span")]).unwrap()
}

fn definition(prosrc: &str) -> IndexExclusionConstraintOperatorProcedureTransformConverterFunctionDefinition {
    IndexExclusionConstraintOperatorProcedureTransformConverterFunctionDefinition::new("c", prosrc, Some("$libdir/span_plpython".to_string()), None)
        .unwrap()
}

fn converter(name: &str, return_type: QualifiedTypeName) -> IndexExclusionConstraintOperatorProcedureTransformConverterFunction {
    IndexExclusionConstraintOperatorProcedureTransformConverterFunction::new("public", name, internal(), return_type, definition(name))
        .unwrap()
}

fn row(schema: &str, name: &str) -> IndexExclusionConstraintOperatorProcedureTransformConverterBinding {
    IndexExclusionConstraintOperatorProcedureTransformConverterBinding::new(
        ty(schema, name),
        Some(converter("span_from_sql", internal())),
        Some(converter("span_to_sql", ty(schema, name))),
    )
    .unwrap()
}

fn observation(
    constraint: &str,
    procedure: QualifiedProcedureSignature,
    language: &str,
    rows: Vec<IndexExclusionConstraintOperatorProcedureTransformConverterBinding>,
) -> IndexExclusionConstraintOperatorProcedureTransformConverterObservation {
    IndexExclusionConstraintOperatorProcedureTransformConverterObservation::new(
        coordinate(constraint),
        1,
        operator(),
        procedure,
        language,
        rows,
    )
    .unwrap()
}

fn transform_types(revision: &str) -> IssuedTransformTypes {
    IssuedTransformTypes::new(
        "primary",
        "policy:v1",
        "sha256:transform-types",
        revision,
        OBSERVED_AT,
        vec![
            TransformTypesEntry::new(
                coordinate("b_excl"),
                1,
                operator(),
                procedure(),
                Some(vec![ty("public", "hstore"), ty("public", "span")]),
            ),
            TransformTypesEntry::new(coordinate("a_excl"), 1, operator(), procedure(), None),
        ],
    )
}

fn definitions() -> IndexExclusionConstraintOperatorProcedureDefinitionSnapshot {
    let bindings = IssuedProcedureBindings::new(
        "primary",
        "policy:v1",
        "sha256:leakproof",
        "extractor-1",
        OBSERVED_AT,
        vec![
            OperatorProcedureBinding::new(coordinate("a_excl"), 1, operator(), procedure()),
            OperatorProcedureBinding::new(coordinate("b_excl"), 1, operator(), procedure()),
        ],
    );
    let material = || IndexExclusionConstraintOperatorProcedureDefinitionMaterial::new("plpython3u", "return a.overlaps(b)", None, None).unwrap();
    IndexExclusionConstraintOperatorProcedureDefinitionSnapshot::new(
        &bindings,
        vec![
            IndexExclusionConstraintOperatorProcedureDefinitionObservation::new(coordinate("a_excl"), 1, operator(), procedure(), material())
                .unwrap(),
            IndexExclusionConstraintOperatorProcedureDefinitionObservation::new(coordinate("b_excl"), 1, operator(), procedure(), material())
                .unwrap(),
        ],
    )
    .unwrap()
}

fn accepted_observations() -> Vec<IndexExclusionConstraintOperatorProcedureTransformConverterObservation> {
    vec![
        observation("b_excl", procedure(), "plpython3u", vec![row("public", "span"), row("public", "hstore")]),
        observation("a_excl", procedure(), "plpython3u", vec![]),
    ]
}

#[test]
fn converter_function_requires_internal_argument() {
    let f = converter("span_from_sql", internal());
    assert_eq!(f.schema_name(), "public");
    assert_eq!(f.argument_type(), &internal());
    assert_eq!(f.implementation_language_name(), "c");
    assert!(f.definition_digest().starts_with("sha256:"));
    assert_eq!(
        IndexExclusionConstraintOperatorProcedureTransformConverterFunction::new(" ", "f", internal(), internal(), definition("f"))
            .unwrap_err(),
        invalid("index_exclusion_constraint_operator_procedure_transform_converter_function_schema")
    );
    assert_eq!(
        IndexExclusionConstraintOperatorProcedureTransformConverterFunction::new("public", "", internal(), internal(), definition("f"))
            .unwrap_err(),
        invalid("index_exclusion_constraint_operator_procedure_transform_converter_function_name")
    );
    assert_eq!(
        IndexExclusionConstraintOperatorProcedureTransformConverterFunction::new(
            "public",
            "f",
            ty("pg_catalog", "int4"),
            internal(),
            definition("f")
        )
        .unwrap_err(),
        invalid("index_exclusion_constraint_operator_procedure_transform_converter_argument_type")
    );
}

#[test]
fn converter_definition_digest_binds_material() {
    assert_eq!(definition("a").definition_digest(), definition("a").definition_digest());
    assert_ne!(definition("a").definition_digest(), definition("b").definition_digest());
    let without_probin =
        IndexExclusionConstraintOperatorProcedureTransformConverterFunctionDefinition::new("c", "a", None, None).unwrap();
    let empty_probin =
        IndexExclusionConstraintOperatorProcedureTransformConverterFunctionDefinition::new("c", "a", Some(String::new()), None)
            .unwrap();
    assert_ne!(without_probin.definition_digest(), empty_probin.definition_digest());
    assert_eq!(
        IndexExclusionConstraintOperatorProcedureTransformConverterFunctionDefinition::new(" ", "a", None, None).unwrap_err(),
        invalid("index_exclusion_constraint_operator_procedure_transform_converter_function_language")
    );
}

#[test]
fn converter_binding_checks_directions_and_return_types() {
    let span = ty("public", "span");
    let only_to = IndexExclusionConstraintOperatorProcedureTransformConverterBinding::new(
        span.clone(),
        None,
        Some(converter("span_to_sql", span.clone())),
    )
    .unwrap();
    assert!(only_to.from_sql().is_none());
    assert_eq!(only_to.to_sql().unwrap().function_name(), "span_to_sql");
    assert_eq!(
        IndexExclusionConstraintOperatorProcedureTransformConverterBinding::new(span.clone(), None, None).unwrap_err(),
        invalid("index_exclusion_constraint_operator_procedure_transform_converter_direction")
    );
    assert_eq!(
        IndexExclusionConstraintOperatorProcedureTransformConverterBinding::new(
            span.clone(),
            Some(converter("span_from_sql", span.clone())),
            None
        )
        .unwrap_err(),
        invalid("index_exclusion_constraint_operator_procedure_transform_converter_from_sql_return_type")
    );
    assert_eq!(
        IndexExclusionConstraintOperatorProcedureTransformConverterBinding::new(
            span.clone(),
            Some(converter("span_from_sql", internal())),
            Some(converter("span_to_sql", ty("public", "hstore")))
        )
        .unwrap_err(),
        invalid("index_exclusion_constraint_operator_procedure_transform_converter_to_sql_return_type")
    );
}

#[test]
fn converter_observation_orders_rows_and_refuses_repeats() {
    let o = observation("b_excl", procedure(), "plpython3u", vec![row("public", "span"), row("public", "hstore")]);
    let names: Vec<&str> = o.converters().iter().map(|b| b.transform_type().name()).collect();
    assert_eq!(names, vec!["hstore", "span"]);
    assert_eq!(
        o.canonical_location(),
        "/schemas/public/relations/table/bookings/constraints/b_excl/exclusion-partition-state/exclusion-operators/1/procedure-transform-converters"
    );
    assert_eq!(
        IndexExclusionConstraintOperatorProcedureTransformConverterObservation::new(
            coordinate("b_excl"),
            1,
            operator(),
            procedure(),
            "plpython3u",
            vec![row("public", "span"), row("public", "span")],
        )
        .unwrap_err(),
        invalid("index_exclusion_constraint_operator_procedure_transform_converter_duplicate")
    );
    assert_eq!(
        IndexExclusionConstraintOperatorProcedureTransformConverterObservation::new(
            coordinate("b_excl"),
            0,
            operator(),
            procedure(),
            "plpython3u",
            vec![],
        )
        .unwrap_err(),
        ObservationError::InvalidOrdinalPosition
    );
    assert_eq!(
        IndexExclusionConstraintOperatorProcedureTransformConverterObservation::new(
            coordinate("b_excl"),
            1,
            operator(),
            procedure(),
            "\t",
            vec![],
        )
        .unwrap_err(),
        invalid("index_exclusion_constraint_operator_procedure_transform_converter_target_language")
    );
}

#[test]
fn converter_snapshot_binds_transform_types_and_definitions() {
    let snapshot =
        IndexExclusionConstraintOperatorProcedureTransformConverterSnapshot::new(&transform_types("extractor-1"), &definitions(), accepted_observations())
            .unwrap();
    let names: Vec<&str> = snapshot.observations().iter().map(|o| o.coordinate().constraint_name()).collect();
    assert_eq!(names, vec!["a_excl", "b_excl"]);
    assert_eq!(snapshot.source_connection_key(), "primary");
    assert_eq!(snapshot.extractor_revision(), "extractor-1");
    assert!(snapshot.snapshot_digest().starts_with("sha256:"));
    assert_ne!(snapshot.snapshot_digest(), "sha256:transform-types");

    let mut reversed = accepted_observations();
    reversed.reverse();
    let again =
        IndexExclusionConstraintOperatorProcedureTransformConverterSnapshot::new(&transform_types("extractor-1"), &definitions(), reversed)
            .unwrap();
    assert_eq!(again.snapshot_digest(), snapshot.snapshot_digest());

    let receipt = snapshot.source_receipt(coordinate("b_excl"), 1).unwrap();
    assert_eq!(receipt.source_digest(), snapshot.snapshot_digest());
    assert_eq!(receipt.location().converters().len(), 2);
    assert_eq!(
        snapshot.source_receipt(coordinate("b_excl"), 2).unwrap_err(),
        ObservationError::UnknownObservationLocation {
            location: "/schemas/public/relations/table/bookings/constraints/b_excl/exclusion-partition-state/exclusion-operators/2/procedure-transform-converters"
                .to_string(),
        }
    );
}

#[test]
fn converter_digest_binds_converter_material() {
    let base =
        IndexExclusionConstraintOperatorProcedureTransformConverterSnapshot::new(&transform_types("extractor-1"), &definitions(), accepted_observations())
            .unwrap();
    let changed_row = IndexExclusionConstraintOperatorProcedureTransformConverterBinding::new(
        ty("public", "span"),
        Some(converter("span_from_sql_v2", internal())),
        Some(converter("span_to_sql", ty("public", "span"))),
    )
    .unwrap();
    let changed = IndexExclusionConstraintOperatorProcedureTransformConverterSnapshot::new(
        &transform_types("extractor-1"),
        &definitions(),
        vec![
            observation("b_excl", procedure(), "plpython3u", vec![changed_row, row("public", "hstore")]),
            observation("a_excl", procedure(), "plpython3u", vec![]),
        ],
    )
    .unwrap();
    assert_ne!(changed.snapshot_digest(), base.snapshot_digest());
}

#[test]
fn converter_snapshot_refuses_inconsistent_evidence() {
    let refuse = |types: IssuedTransformTypes, obs: Vec<IndexExclusionConstraintOperatorProcedureTransformConverterObservation>| {
        IndexExclusionConstraintOperatorProcedureTransformConverterSnapshot::new(&types, &definitions(), obs).unwrap_err()
    };
    assert_eq!(
        refuse(transform_types("extractor-2"), accepted_observations()),
        invalid("index_exclusion_constraint_operator_procedure_transform_converter_generation")
    );
    assert_eq!(
        refuse(
            transform_types("extractor-1"),
            vec![
                observation("a_excl", procedure(), "plpython3u", vec![]),
                observation("a_excl", procedure(), "plpython3u", vec![]),
            ]
        ),
        invalid("index_exclusion_constraint_operator_procedure_transform_converter_coordinate")
    );
    assert_eq!(
        refuse(transform_types("extractor-1"), vec![observation("a_excl", procedure(), "plpython3u", vec![])]),
        invalid("index_exclusion_constraint_operator_procedure_transform_converter_completeness")
    );
    assert_eq!(
        refuse(
            transform_types("extractor-1"),
            vec![
                observation("a_excl", other_procedure(), "plpython3u", vec![]),
                observation("b_excl", procedure(), "plpython3u", vec![row("public", "span"), row("public", "hstore")]),
            ]
        ),
        invalid("index_exclusion_constraint_operator_procedure_transform_converter_binding")
    );
    assert_eq!(
        refuse(
            transform_types("extractor-1"),
            vec![
                observation("a_excl", procedure(), "plperl", vec![]),
                observation("b_excl", procedure(), "plpython3u", vec![row("public", "span"), row("public", "hstore")]),
            ]
        ),
        invalid("index_exclusion_constraint_operator_procedure_transform_converter_language_binding")
    );
    assert_eq!(
        refuse(
            transform_types("extractor-1"),
            vec![
                observation("a_excl", procedure(), "plpython3u", vec![row("public", "span")]),
                observation("b_excl", procedure(), "plpython3u", vec![row("public", "span"), row("public", "hstore")]),
            ]
        ),
        invalid("index_exclusion_constraint_operator_procedure_transform_converter_completeness")
    );
    assert_eq!(
        refuse(
            transform_types("extractor-1"),
            vec![
                observation("a_excl", procedure(), "plpython3u", vec![]),
                observation("b_excl", procedure(), "plpython3u", vec![row("public", "span")]),
            ]
        ),
        invalid("index_exclusion_constraint_operator_procedure_transform_converter_completeness")
    );
}
