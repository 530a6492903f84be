use conceptweave_relation_partition::catalog::{QualifiedTypeName, RelationKind};
use conceptweave_relation_partition::constraint_operator_kind::{
    IndexExclusionConstraintOperatorKindObservation, IndexExclusionConstraintOperatorKindSnapshot,
};
use conceptweave_relation_partition::constraint_procedure_scalar::{
    IndexExclusionConstraintOperatorProcedureScalarObservation,
    IndexExclusionConstraintOperatorProcedureScalarSnapshot,
};
use conceptweave_relation_partition::error::ObservationError;
use conceptweave_relation_partition::exclusion_constraint::IndexExclusionConstraintCoordinate;
use conceptweave_relation_partition::procedure_parallel_safety::{IssuedProcedureBindings, OperatorProcedureBinding};
use conceptweave_relation_partition::signatures::{QualifiedOperatorSignature, QualifiedProcedureSignature};

fn invalid(field: &'static str) -> ObservationError {
    ObservationError::InvalidObservationField { field }
}

fn int4() -> QualifiedTypeName {
    QualifiedTypeName::new("pg_catalog", "int4").unwrap()
}

fn coordinate() -> IndexExclusionConstraintCoordinate {
    IndexExclusionConstraintCoordinate::new("public", "bookings", RelationKind::Table, "bookings_no_overlap").unwrap()
}

fn operator() -> QualifiedOperatorSignature {
    QualifiedOperatorSignature::new("pg_catalog", "=", int4(), int4()).unwrap()
}

fn procedure() -> QualifiedProcedureSignature {
    QualifiedProcedureSignature::new("pg_catalog", "int4eq", vec![int4(), int4()]).unwrap()
}

fn results() -> IssuedProcedureBindings {
    IssuedProcedureBindings::new(
        "primary",
        "policy:v1",
        "sha256:results",
        "extractor-1",
        "2026-01-01T00:00:00Z",
        vec![
            OperatorProcedureBinding::new(coordinate(), 2, operator(), procedure()),
            OperatorProcedureBinding::new(coordinate(), 1, operator(), procedure()),
        ],
    )
}

fn kind(position: u32, oprkind: char) -> IndexExclusionConstraintOperatorKindObservation {
    IndexExclusionConstraintOperatorKindObservation::new(coordinate(), position, operator(), oprkind).unwrap()
}

fn kinds() -> IndexExclusionConstraintOperatorKindSnapshot {
    IndexExclusionConstraintOperatorKindSnapshot::new(&results(), vec![kind(2, 'b'), kind(1, 'b')]).unwrap()
}

fn scalar(position: u32, returns_set: bool) -> IndexExclusionConstraintOperatorProcedureScalarObservation {
    IndexExclusionConstraintOperatorProcedureScalarObservation::new(coordinate(), position, operator(), procedure(), returns_set)
        .unwrap()
}

#[test]
fn operator_kind_accepts_binary_operators_in_key_order() {
    let snapshot = kinds();
    let positions: Vec<u32> = snapshot.observations().iter().map(|o| o.key_position()).collect();
    assert_eq!(positions, vec![1, 2]);
    assert_eq!(snapshot.source_connection_key(), "primary");
    assert!(snapshot.snapshot_digest().starts_with("sha256:"));
    assert_ne!(snapshot.snapshot_digest(), "sha256:results");
    assert_eq!(
        snapshot.observations()[0].canonical_location(),
        "/schemas/public/relations/table/bookings/constraints/bookings_no_overlap/exclusion-partition-state/exclusion-operators/1/operator-kind"
    );
    let receipt = snapshot.source_receipt(coordinate(), 2).unwrap();
    assert_eq!(receipt.location().key_position(), 2);
    assert_eq!(receipt.source_digest(), snapshot.snapshot_digest());
}

#[test]
fn operator_kind_digest_is_independent_of_supply_order() {
    let reversed = IndexExclusionConstraintOperatorKindSnapshot::new(&results(), vec![kind(1, 'b'), kind(2, 'b')]).unwrap();
    assert_eq!(reversed.snapshot_digest(), kinds().snapshot_digest());
}

#[test]
fn operator_kind_refuses_zero_position_and_non_binary_kinds() {
    assert_eq!(
        IndexExclusionConstraintOperatorKindObservation::new(coordinate(), 0, operator(), 'b').unwrap_err(),
        ObservationError::InvalidOrdinalPosition
    );
    assert_eq!(
        IndexExclusionConstraintOperatorKindSnapshot::new(&results(), vec![kind(1, 'b'), kind(2, 'l')]).unwrap_err(),
        invalid("index_exclusion_constraint_operator_kind_state")
    );
    assert_eq!(
        IndexExclusionConstraintOperatorKindSnapshot::new(&results(), vec![kind(1, 'b')]).unwrap_err(),
        invalid("index_exclusion_constraint_operator_kind_completeness")
    );
    assert_eq!(
        IndexExclusionConstraintOperatorKindSnapshot::new(&results(), vec![kind(1, 'b'), kind(1, 'b')]).unwrap_err(),
        invalid("index_exclusion_constraint_operator_kind_coordinate")
    );
    assert!(kinds().source_receipt(coordinate(), 3).is_err());
}

#[test]
fn procedure_scalar_accepts_non_set_returning_procedures() {
    let snapshot =
        IndexExclusionConstraintOperatorProcedureScalarSnapshot::new(&results(), &kinds(), vec![scalar(2, false), scalar(1, false)])
            .unwrap();
    let positions: Vec<u32> = snapshot.observations().iter().map(|o| o.key_position()).collect();
    assert_eq!(positions, vec![1, 2]);
    assert!(snapshot.snapshot_digest().starts_with("sha256:"));
    assert_ne!(snapshot.snapshot_digest(), kinds().snapshot_digest());
    assert!(!snapshot.observations()[0].returns_set());
}

#[test]
fn procedure_scalar_refuses_set_returning_procedures_and_foreign_kinds() {
    assert_eq!(
        IndexExclusionConstraintOperatorProcedureScalarSnapshot::new(&results(), &kinds(), vec![scalar(1, false), scalar(2, true)])
            .unwrap_err(),
        invalid("index_exclusion_constraint_operator_procedure_scalar_state")
    );
    assert_eq!(
        IndexExclusionConstraintOperatorProcedureScalarSnapshot::new(&results(), &kinds(), vec![scalar(1, false)]).unwrap_err(),
        invalid("index_exclusion_constraint_operator_procedure_scalar_completeness")
    );
    let other_results = IssuedProcedureBindings::new(
        "primary",
        "policy:v1",
        "sha256:other",
        "extractor-1",
        "2026-01-01T00:00:00Z",
        vec![
            OperatorProcedureBinding::new(coordinate(), 1, operator(), procedure()),
            OperatorProcedureBinding::new(coordinate(), 2, operator(), procedure()),
        ],
    );
    assert_eq!(
        IndexExclusionConstraintOperatorProcedureScalarSnapshot::new(
            &other_results,
            &kinds(),
            vec![scalar(1, false), scalar(2, false)]
        )
        .unwrap_err(),
        invalid("index_exclusion_constraint_operator_procedure_scalar_predecessor_binding")
    );
}
