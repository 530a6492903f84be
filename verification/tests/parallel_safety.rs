use conceptweave_relation_partition::catalog::{QualifiedTypeName, RelationKind};
use conceptweave_relation_partition::error::ObservationError;
use conceptweave_relation_partition::exclusion_constraint::IndexExclusionConstraintCoordinate;
use conceptweave_relation_partition::procedure_parallel_safety::{
    compute_procedure_parallel_safety_digest, IndexExclusionConstraintOperatorProcedureParallelSafetyObservation,
    IndexExclusionConstraintOperatorProcedureParallelSafetySnapshot, IssuedProcedureBindings, OperatorProcedureBinding,
};
use conceptweave_relation_partition::signatures::{QualifiedOperatorSignature, QualifiedProcedureSignature};

fn int4() -> QualifiedTypeName {
    QualifiedTypeName::new("pg_catalog", "int4").unwrap()
}

fn coordinate() -> IndexExclusionConstraintCoordinate {
    IndexExclusionConstraintCoordinate::new("public", "bookings", RelationKind::Table, "bookings_no_overlap").unwrap()
}

fn operator() -> QualifiedOperatorSignature {
    QualifiedOperatorSignature::new("pg_catalog", "=", int4(), int4()).unwrap()
}

fn procedure() -> QualifiedProcedureSignature {
    QualifiedProcedureSignature::new("pg_catalog", "int4eq", vec![int4(), int4()]).unwrap()
}

fn observation(state: char) -> IndexExclusionConstraintOperatorProcedureParallelSafetyObservation {
    IndexExclusionConstraintOperatorProcedureParallelSafetyObservation::new(coordinate(), 1, operator(), procedure(), state)
        .unwrap()
}

fn predecessor(key_positions: &[u32]) -> IssuedProcedureBindings {
    let bindings = key_positions
        .iter()
        .map(|&key| OperatorProcedureBinding::new(coordinate(), key, operator(), procedure()))
        .collect();
    IssuedProcedureBindings::new(
        "primary",
        "policy:v1",
        "sha256:predecessor",
        "extractor-1",
        "2026-01-01T00:00:00Z",
        bindings,
    )
}

#[test]
fn parallel_safety_digest_domain_separates_all_postgres_states() {
    let safe = compute_procedure_parallel_safety_digest("sha256:predecessor", &[observation('s')]);
    let restricted = compute_procedure_parallel_safety_digest("sha256:predecessor", &[observation('r')]);
    let unsafe_state = compute_procedure_parallel_safety_digest("sha256:predecessor", &[observation('u')]);
    assert_ne!(safe, restricted);
    assert_ne!(safe, unsafe_state);
    assert_ne!(restricted, unsafe_state);
}

#[test]
fn parallel_safety_digest_is_prefixed_lowercase_sha256() {
    let digest = compute_procedure_parallel_safety_digest("sha256:predecessor", &[observation('s')]);
    assert!(digest.starts_with("sha256:"));
    let hex = &digest["sha256:".len()..];
    assert_eq!(hex.len(), 64);
    assert!(hex.chars().all(|c| c.is_ascii_digit() || ('a'..='f').contains(&c)));
    let other_predecessor = compute_procedure_parallel_safety_digest("sha256:other", &[observation('s')]);
    assert_ne!(digest, other_predecessor);
}

#[test]
fn parallel_safety_observation_rejects_zero_key_and_unknown_state() {
    assert_eq!(
        IndexExclusionConstraintOperatorProcedureParallelSafetyObservation::new(coordinate(), 0, operator(), procedure(), 's'),
        Err(ObservationError::InvalidOrdinalPosition)
    );
    assert_eq!(
        IndexExclusionConstraintOperatorProcedureParallelSafetyObservation::new(coordinate(), 1, operator(), procedure(), 'x'),
        Err(ObservationError::InvalidObservationField {
            field: "index_exclusion_constraint_operator_procedure_parallel_safety"
        })
    );
    assert_eq!(observation('r').parallel_safety(), 'r');
    assert_eq!(
        observation('u').canonical_location(),
        "/schemas/public/relations/table/bookings/constraints/bookings_no_overlap/exclusion-partition-state/exclusion-operators/1/procedure-parallel-safety"
    );
}

#[test]
fn parallel_safety_snapshot_binds_to_predecessor_positions() {
    let snapshot =
        IndexExclusionConstraintOperatorProcedureParallelSafetySnapshot::new(&predecessor(&[1]), vec![observation('s')])
            .unwrap();
    assert_eq!(snapshot.source_connection_key(), "primary");
    assert_eq!(snapshot.extractor_revision(), "extractor-1");
    assert_eq!(
        snapshot.snapshot_digest(),
        compute_procedure_parallel_safety_digest("sha256:predecessor", &[observation('s')])
    );
    let receipt = snapshot.source_receipt(coordinate(), 1).unwrap();
    assert_eq!(receipt.source_digest(), snapshot.snapshot_digest());
    assert_eq!(receipt.location().parallel_safety(), 's');
    assert!(matches!(
        snapshot.source_receipt(coordinate(), 2),
        Err(ObservationError::UnknownObservationLocation { .. })
    ));
}

#[test]
fn parallel_safety_snapshot_rejects_duplicates_gaps_and_rebinding() {
    let duplicate = IndexExclusionConstraintOperatorProcedureParallelSafetySnapshot::new(
        &predecessor(&[1]),
        vec![observation('s'), observation('u')],
    );
    assert_eq!(
        duplicate,
        Err(ObservationError::InvalidObservationField {
            field: "index_exclusion_constraint_operator_procedure_parallel_safety_coordinate"
        })
    );
    let missing = IndexExclusionConstraintOperatorProcedureParallelSafetySnapshot::new(&predecessor(&[1, 2]), vec![observation('s')]);
    assert_eq!(
        missing,
        Err(ObservationError::InvalidObservationField {
            field: "index_exclusion_constraint_operator_procedure_parallel_safety_completeness"
        })
    );
    let other_procedure = QualifiedProcedureSignature::new("pg_catalog", "int4ne", vec![int4(), int4()]).unwrap();
    let rebound = IndexExclusionConstraintOperatorProcedureParallelSafetyObservation::new(
        coordinate(),
        1,
        operator(),
        other_procedure,
        's',
    )
    .unwrap();
    assert_eq!(
        IndexExclusionConstraintOperatorProcedureParallelSafetySnapshot::new(&predecessor(&[1]), vec![rebound]),
        Err(ObservationError::InvalidObservationField {
            field: "index_exclusion_constraint_operator_procedure_parallel_safety_binding"
        })
    );
}

use conceptweave_relation_partition::procedure_kind::{
    IndexExclusionConstraintOperatorProcedureKindObservation, IndexExclusionConstraintOperatorProcedureKindSnapshot,
};
use conceptweave_relation_partition::procedure_security_definer::{
    IndexExclusionConstraintOperatorProcedureSecurityDefinerObservation,
    IndexExclusionConstraintOperatorProcedureSecurityDefinerSnapshot,
};

fn parallel_safety_layer() -> IndexExclusionConstraintOperatorProcedureParallelSafetySnapshot {
    IndexExclusionConstraintOperatorProcedureParallelSafetySnapshot::new(&predecessor(&[1]), vec![observation('r')]).unwrap()
}

fn kind_layer() -> IndexExclusionConstraintOperatorProcedureKindSnapshot {
    let kind =
        IndexExclusionConstraintOperatorProcedureKindObservation::new(coordinate(), 1, operator(), procedure(), 'f').unwrap();
    IndexExclusionConstraintOperatorProcedureKindSnapshot::new(&parallel_safety_layer(), vec![kind]).unwrap()
}

#[test]
fn procedure_kind_requires_normal_function() {
    assert_eq!(
        IndexExclusionConstraintOperatorProcedureKindObservation::new(coordinate(), 1, operator(), procedure(), 'p'),
        Err(ObservationError::InvalidObservationField { field: "index_exclusion_constraint_operator_procedure_kind" })
    );
    assert_eq!(
        IndexExclusionConstraintOperatorProcedureKindObservation::new(coordinate(), 0, operator(), procedure(), 'f'),
        Err(ObservationError::InvalidOrdinalPosition)
    );
    let layer = kind_layer();
    assert_eq!(layer.observations()[0].procedure_kind(), 'f');
    assert_eq!(layer.source_connection_key(), parallel_safety_layer().source_connection_key());
    assert_ne!(layer.snapshot_digest(), parallel_safety_layer().snapshot_digest());
    assert_eq!(
        IndexExclusionConstraintOperatorProcedureKindSnapshot::new(&parallel_safety_layer(), vec![]),
        Err(ObservationError::InvalidObservationField {
            field: "index_exclusion_constraint_operator_procedure_kind_completeness"
        })
    );
    assert_eq!(
        layer.observations()[0].canonical_location(),
        "/schemas/public/relations/table/bookings/constraints/bookings_no_overlap/exclusion-partition-state/exclusion-operators/1/procedure-kind"
    );
}

#[test]
fn security_definer_states_never_share_a_digest() {
    let invoker = IndexExclusionConstraintOperatorProcedureSecurityDefinerObservation::new(
        coordinate(),
        1,
        operator(),
        procedure(),
        false,
    )
    .unwrap();
    let definer = IndexExclusionConstraintOperatorProcedureSecurityDefinerObservation::new(
        coordinate(),
        1,
        operator(),
        procedure(),
        true,
    )
    .unwrap();
    let invoker_layer =
        IndexExclusionConstraintOperatorProcedureSecurityDefinerSnapshot::new(&kind_layer(), vec![invoker]).unwrap();
    let definer_layer =
        IndexExclusionConstraintOperatorProcedureSecurityDefinerSnapshot::new(&kind_layer(), vec![definer]).unwrap();
    assert_ne!(invoker_layer.snapshot_digest(), definer_layer.snapshot_digest());
    assert!(definer_layer.observations()[0].security_definer());
    let receipt = definer_layer.source_receipt(coordinate(), 1).unwrap();
    assert!(receipt.location().security_definer());
    assert_eq!(
        IndexExclusionConstraintOperatorProcedureSecurityDefinerObservation::new(coordinate(), 0, operator(), procedure(), true),
        Err(ObservationError::InvalidOrdinalPosition)
    );
}
