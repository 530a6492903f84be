use conceptweave_relation_partition::catalog::{QualifiedTypeName, RelationKind};
use conceptweave_relation_partition::error::ObservationError;
use conceptweave_relation_partition::exclusion_constraint::IndexExclusionConstraintCoordinate;
use conceptweave_relation_partition::procedure_access_control::{
    IndexExclusionConstraintOperatorProcedureAccessControlObservation,
    IndexExclusionConstraintOperatorProcedureAccessControlSnapshot,
};
use conceptweave_relation_partition::procedure_configuration::{
    IndexExclusionConstraintOperatorProcedureConfigurationObservation,
    IndexExclusionConstraintOperatorProcedureConfigurationSnapshot,
};
use conceptweave_relation_partition::procedure_definition::{
    IndexExclusionConstraintOperatorProcedureDefinitionObservation,
    IndexExclusionConstraintOperatorProcedureDefinitionSnapshot,
};
use conceptweave_relation_partition::procedure_material::{
    IndexExclusionConstraintOperatorProcedureAccessControlMaterial,
    IndexExclusionConstraintOperatorProcedureConfigurationMaterial,
    IndexExclusionConstraintOperatorProcedureDefinitionMaterial, IndexExclusionConstraintOperatorProcedureExecuteGrant,
};
use conceptweave_relation_partition::procedure_parallel_safety::{IssuedProcedureBindings, OperatorProcedureBinding};
use conceptweave_relation_partition::procedure_planner_support::{
    IndexExclusionConstraintOperatorProcedurePlannerSupportObservation,
    IndexExclusionConstraintOperatorProcedurePlannerSupportSnapshot,
};
use conceptweave_relation_partition::signatures::{QualifiedOperatorSignature, QualifiedProcedureSignature};

fn int4() -> QualifiedTypeName {
    QualifiedTypeName::new("pg_catalog", "int4").unwrap()
}

fn coordinate() -> IndexExclusionConstraintCoordinate {
    IndexExclusionConstraintCoordinate::new("public", "bookings", RelationKind::Table, "bookings_no_overlap").unwrap()
}

fn operator() -> QualifiedOperatorSignature {
    QualifiedOperatorSignature::new("pg_catalog", "=", int4(), int4()).unwrap()
}

fn procedure() -> QualifiedProcedureSignature {
    QualifiedProcedureSignature::new("pg_catalog", "int4eq", vec![int4(), int4()]).unwrap()
}

fn issued() -> IssuedProcedureBindings {
    IssuedProcedureBindings::new(
        "primary",
        "policy:v1",
        "sha256:owner",
        "extractor-1",
        "2026-01-01T00:00:00Z",
        vec![OperatorProcedureBinding::new(coordinate(), 1, operator(), procedure())],
    )
}

fn configuration_layer(proconfig: Option<Vec<String>>) -> IndexExclusionConstraintOperatorProcedureConfigurationSnapshot {
    let observation = IndexExclusionConstraintOperatorProcedureConfigurationObservation::new(
        coordinate(),
        1,
        operator(),
        procedure(),
        IndexExclusionConstraintOperatorProcedureConfigurationMaterial::from_proconfig(proconfig),
    )
    .unwrap();
    IndexExclusionConstraintOperatorProcedureConfigurationSnapshot::new(&issued(), vec![observation]).unwrap()
}

fn access_control_layer() -> IndexExclusionConstraintOperatorProcedureAccessControlSnapshot {
    let grant = IndexExclusionConstraintOperatorProcedureExecuteGrant::public("postgres", false).unwrap();
    let material = IndexExclusionConstraintOperatorProcedureAccessControlMaterial::new(false, vec![grant]).unwrap();
    let observation = IndexExclusionConstraintOperatorProcedureAccessControlObservation::new(
        coordinate(),
        1,
        operator(),
        procedure(),
        material,
    )
    .unwrap();
    IndexExclusionConstraintOperatorProcedureAccessControlSnapshot::new(&configuration_layer(None), vec![observation])
        .unwrap()
}

#[test]
fn configuration_layer_distinguishes_configured_functions() {
    let plain = configuration_layer(None);
    let configured = configuration_layer(Some(vec!["search_path=pg_catalog".to_string()]));
    assert_ne!(plain.snapshot_digest(), configured.snapshot_digest());
    assert_eq!(plain.source_connection_key(), "primary");
    assert!(!plain.observations()[0].configuration().is_configured());
    assert_eq!(
        IndexExclusionConstraintOperatorProcedureConfigurationObservation::new(
            coordinate(),
            0,
            operator(),
            procedure(),
            IndexExclusionConstraintOperatorProcedureConfigurationMaterial::from_proconfig(None),
        ),
        Err(ObservationError::InvalidOrdinalPosition)
    );
    assert_eq!(
        plain.observations()[0].canonical_location(),
        "/schemas/public/relations/table/bookings/constraints/bookings_no_overlap/exclusion-partition-state/exclusion-operators/1/procedure-configuration"
    );
}

#[test]
fn access_control_layer_binds_configuration_positions() {
    let layer = access_control_layer();
    assert_eq!(layer.observations()[0].access_control().grant_count(), 1);
    assert_eq!(layer.extractor_revision(), "extractor-1");
    let receipt = layer.source_receipt(coordinate(), 1).unwrap();
    assert_eq!(receipt.source_digest(), layer.snapshot_digest());
    assert_eq!(
        IndexExclusionConstraintOperatorProcedureAccessControlSnapshot::new(&configuration_layer(None), vec![]),
        Err(ObservationError::InvalidObservationField {
            field: "index_exclusion_constraint_operator_procedure_access_control_completeness"
        })
    );
}

#[test]
fn planner_support_requires_internal_signature() {
    let internal = QualifiedTypeName::new("pg_catalog", "internal").unwrap();
    let support = QualifiedProcedureSignature::new("pg_catalog", "int4eq_support", vec![internal]).unwrap();
    let wrong = QualifiedProcedureSignature::new("pg_catalog", "int4eq_support", vec![int4()]).unwrap();
    assert_eq!(
        IndexExclusionConstraintOperatorProcedurePlannerSupportObservation::new(
            coordinate(),
            1,
            operator(),
            procedure(),
            Some(wrong),
        ),
        Err(ObservationError::InvalidObservationField { field: "exclusion_planner_support_signature" })
    );
    let with_support = IndexExclusionConstraintOperatorProcedurePlannerSupportObservation::new(
        coordinate(),
        1,
        operator(),
        procedure(),
        Some(support),
    )
    .unwrap();
    let without = IndexExclusionConstraintOperatorProcedurePlannerSupportObservation::new(
        coordinate(),
        1,
        operator(),
        procedure(),
        None,
    )
    .unwrap();
    let supported =
        IndexExclusionConstraintOperatorProcedurePlannerSupportSnapshot::new(&access_control_layer(), vec![with_support])
            .unwrap();
    let unsupported =
        IndexExclusionConstraintOperatorProcedurePlannerSupportSnapshot::new(&access_control_layer(), vec![without])
            .unwrap();
    assert_ne!(supported.snapshot_digest(), unsupported.snapshot_digest());
    assert!(supported.observations()[0].planner_support().is_some());
    assert!(unsupported.observations()[0].planner_support().is_none());
}

#[test]
fn definition_layer_keeps_language_and_definition_digest() {
    let material =
        IndexExclusionConstraintOperatorProcedureDefinitionMaterial::new("internal", "int4eq", None, None).unwrap();
    let observation = IndexExclusionConstraintOperatorProcedureDefinitionObservation::new(
        coordinate(),
        1,
        operator(),
        procedure(),
        material,
    )
    .unwrap();
    assert_eq!(observation.language_name(), "internal");
    assert!(observation.definition_digest().starts_with("sha256:"));
    let layer = IndexExclusionConstraintOperatorProcedureDefinitionSnapshot::new(&issued(), vec![observation]).unwrap();
    assert_ne!(layer.snapshot_digest(), "sha256:owner");
    let other_operator = QualifiedOperatorSignature::new("pg_catalog", "<>", int4(), int4()).unwrap();
    let rebound = IndexExclusionConstraintOperatorProcedureDefinitionObservation::new(
        coordinate(),
        1,
        other_operator,
        procedure(),
        IndexExclusionConstraintOperatorProcedureDefinitionMaterial::new("internal", "int4eq", None, None).unwrap(),
    )
    .unwrap();
    assert_eq!(
        IndexExclusionConstraintOperatorProcedureDefinitionSnapshot::new(&issued(), vec![rebound]),
        Err(ObservationError::InvalidObservationField {
            field: "index_exclusion_constraint_operator_procedure_definition_binding"
        })
    );
}
