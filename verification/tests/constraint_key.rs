use conceptweave_relation_partition::catalog::{
    BaseColumn, BaseConstraint, BaseIndex, BaseRelation, IndexPartitionCoordinate, IndexPartitionEvidence,
    IndexPartitionMembership, IssuedSnapshot, QualifiedTypeName, RelationKind,
};
use conceptweave_relation_partition::constraint_key::{
    IndexExclusionConstraintKeyObservation, IndexExclusionConstraintKeySnapshot,
};
use conceptweave_relation_partition::constraint_commutator::{
    IndexExclusionConstraintOperatorCommutatorObservation, IndexExclusionConstraintOperatorCommutatorSnapshot,
};
use conceptweave_relation_partition::constraint_operator::{
    IndexExclusionConstraintOperatorObservation, IndexExclusionConstraintOperatorSnapshot,
};
use conceptweave_relation_partition::error::ObservationError;
use conceptweave_relation_partition::exclusion::{IndexExclusionSemanticsSnapshot, IndexKeyExclusionSemanticsObservation};
use conceptweave_relation_partition::signatures::{QualifiedOperatorSignature, QualifiedProcedureSignature};
use conceptweave_relation_partition::exclusion_constraint::{
    IndexExclusionConstraintCoordinate, IndexExclusionConstraintObservation, IndexExclusionConstraintSnapshot,
};

const OBSERVED_AT: &str = "2026-01-01T00:00:00Z";

fn invalid(field: &'static str) -> ObservationError {
    ObservationError::InvalidObservationField { field }
}

fn parent_index() -> IndexPartitionCoordinate {
    IndexPartitionCoordinate::new("public", "bookings", RelationKind::PartitionedTable, "bookings_room_excl").unwrap()
}

fn child_index() -> IndexPartitionCoordinate {
    IndexPartitionCoordinate::new("public", "bookings_2024", RelationKind::Table, "bookings_2024_room_excl").unwrap()
}

fn constraint(relation: &str, kind: RelationKind, name: &str) -> IndexExclusionConstraintCoordinate {
    IndexExclusionConstraintCoordinate::new("public", relation, kind, name).unwrap()
}

fn parent_constraint() -> IndexExclusionConstraintCoordinate {
    constraint("bookings", RelationKind::PartitionedTable, "bookings_room_excl")
}

fn child_constraint() -> IndexExclusionConstraintCoordinate {
    constraint("bookings_2024", RelationKind::Table, "bookings_2024_room_excl")
}

fn exclusion_index(name: &str) -> BaseIndex {
    BaseIndex::new(name, vec![1], vec![], false, Some(true))
}

fn healthy(name: &str) -> BaseIndex {
    exclusion_index(name).with_key_attributes(vec![Some("room".to_string()), None])
}

fn relations_with(parent: BaseIndex, child: BaseIndex, extra: Vec<BaseRelation>) -> Vec<BaseRelation> {
    let mut rels = vec![
        BaseRelation::new("public", "bookings", RelationKind::PartitionedTable, vec!["room".to_string()], vec![parent])
            .with_constraints(vec![BaseConstraint::new("bookings_pkey", true)])
            .with_columns(columns(2)),
        BaseRelation::new("public", "bookings_2024", RelationKind::Table, vec!["room".to_string()], vec![child])
            .with_columns(columns(3)),
    ];
    rels.extend(extra);
    rels
}

fn relations() -> Vec<BaseRelation> {
    relations_with(healthy("bookings_room_excl"), healthy("bookings_2024_room_excl"), vec![])
}

fn partition_with(digest: &str) -> IndexPartitionEvidence {
    IndexPartitionEvidence::new(
        "primary",
        "policy:v1",
        digest,
        "extractor-1",
        OBSERVED_AT,
        vec![
            IndexPartitionMembership::new(parent_index(), false, None),
            IndexPartitionMembership::new(child_index(), true, Some(parent_index())),
        ],
    )
}

fn partition() -> IndexPartitionEvidence {
    partition_with("sha256:index-partition")
}

fn constraints_for(
    rels: &[BaseRelation],
    part: &IndexPartitionEvidence,
    parent: IndexExclusionConstraintCoordinate,
    child: IndexExclusionConstraintCoordinate,
) -> IndexExclusionConstraintSnapshot {
    let root = IndexExclusionConstraintObservation::root(parent.clone(), parent_index()).unwrap();
    let attached = IndexExclusionConstraintObservation::partition(child, child_index(), parent, false, 1).unwrap();
    IndexExclusionConstraintSnapshot::new(rels, None, part, vec![attached, root]).unwrap()
}

fn columns(room_position: u32) -> Vec<BaseColumn> {
    vec![BaseColumn::new("room", QualifiedTypeName::new("pg_catalog", "int4").unwrap()).with_ordinal_position(room_position)]
}

fn constraints() -> IndexExclusionConstraintSnapshot {
    constraints_for(&relations(), &partition(), parent_constraint(), child_constraint())
}

fn period() -> IssuedSnapshot {
    IssuedSnapshot::new("primary", "policy:v1", "sha256:period", "extractor-1", OBSERVED_AT)
}

fn key(coordinate: IndexExclusionConstraintCoordinate, numbers: Vec<i16>) -> IndexExclusionConstraintKeyObservation {
    IndexExclusionConstraintKeyObservation::new(coordinate, numbers).unwrap()
}

#[test]
fn constraint_key_matches_backing_index_key_attributes() {
    assert_eq!(
        IndexExclusionConstraintKeyObservation::new(parent_constraint(), vec![]),
        Err(invalid("index_exclusion_constraint_key_state"))
    );
    let layer = IndexExclusionConstraintKeySnapshot::new(
        &relations(),
        &constraints(),
        &period(),
        vec![key(child_constraint(), vec![3, 0]), key(parent_constraint(), vec![2, 0])],
    )
    .unwrap();
    assert_eq!(layer.observations().len(), 2);
    assert_eq!(layer.observations()[0].coordinate(), &parent_constraint());
    assert_eq!(layer.observations()[0].attribute_numbers(), &[2, 0]);
    assert_eq!(layer.source_connection_key(), "primary");
    assert!(layer.snapshot_digest().starts_with("sha256:"));
    assert_eq!(
        layer.observations()[1].canonical_location(),
        "/schemas/public/relations/table/bookings_2024/constraints/bookings_2024_room_excl/exclusion-partition-state/key-attributes"
    );
    let receipt = layer.source_receipt(child_constraint()).unwrap();
    assert_eq!(receipt.location().attribute_numbers(), &[3, 0]);
}

#[test]
fn constraint_key_refuses_contradictory_vectors() {
    let rels = relations();
    let cons = constraints();
    assert_eq!(
        IndexExclusionConstraintKeySnapshot::new(
            &rels,
            &cons,
            &period(),
            vec![key(child_constraint(), vec![3]), key(parent_constraint(), vec![2, 0])],
        ),
        Err(invalid("index_exclusion_constraint_key_state"))
    );
    assert_eq!(
        IndexExclusionConstraintKeySnapshot::new(&rels, &cons, &period(), vec![key(parent_constraint(), vec![2, 0])]),
        Err(invalid("index_exclusion_constraint_key_completeness"))
    );
    assert_eq!(
        IndexExclusionConstraintKeySnapshot::new(
            &rels,
            &cons,
            &period(),
            vec![key(parent_constraint(), vec![2, 0]), key(parent_constraint(), vec![2, 0]), key(child_constraint(), vec![3, 0])],
        ),
        Err(invalid("index_exclusion_constraint_key_coordinate"))
    );
    let unnamed = relations_with(
        exclusion_index("bookings_room_excl").with_key_attributes(vec![Some("missing".to_string())]),
        healthy("bookings_2024_room_excl"),
        vec![],
    );
    assert_eq!(
        IndexExclusionConstraintKeySnapshot::new(
            &unnamed,
            &cons,
            &period(),
            vec![key(child_constraint(), vec![3, 0]), key(parent_constraint(), vec![2, 0])],
        ),
        Err(invalid("index_exclusion_constraint_key_attribute"))
    );
    let wide = vec![BaseRelation::new(
        "public",
        "bookings",
        RelationKind::PartitionedTable,
        vec!["room".to_string()],
        vec![healthy("bookings_room_excl")],
    )
    .with_columns(columns(40000))];
    assert_eq!(
        IndexExclusionConstraintKeySnapshot::new(
            &wide,
            &cons,
            &period(),
            vec![key(child_constraint(), vec![3, 0]), key(parent_constraint(), vec![2, 0])],
        ),
        Err(invalid("index_exclusion_constraint_key_attribute_number"))
    );
}

fn int4() -> QualifiedTypeName {
    QualifiedTypeName::new("pg_catalog", "int4").unwrap()
}

fn equals() -> QualifiedOperatorSignature {
    QualifiedOperatorSignature::new("pg_catalog", "=", int4(), int4()).unwrap()
}

fn int4eq() -> QualifiedProcedureSignature {
    QualifiedProcedureSignature::new("pg_catalog", "int4eq", vec![int4(), int4()]).unwrap()
}

fn families() -> IssuedSnapshot {
    IssuedSnapshot::new("primary", "policy:v1", "sha256:families", "extractor-1", OBSERVED_AT)
}

fn semantics() -> IndexExclusionSemanticsSnapshot {
    IndexExclusionSemanticsSnapshot::new(
        &families(),
        &relations(),
        &partition(),
        vec![
            IndexKeyExclusionSemanticsObservation::new(child_index(), 1, equals(), int4eq(), 3).unwrap(),
            IndexKeyExclusionSemanticsObservation::new(parent_index(), 1, equals(), int4eq(), 3).unwrap(),
        ],
    )
    .unwrap()
}

fn keys() -> IndexExclusionConstraintKeySnapshot {
    IndexExclusionConstraintKeySnapshot::new(
        &relations(),
        &constraints(),
        &period(),
        vec![key(child_constraint(), vec![3, 0]), key(parent_constraint(), vec![2, 0])],
    )
    .unwrap()
}

fn operators(coordinate: IndexExclusionConstraintCoordinate, ops: Vec<QualifiedOperatorSignature>) -> IndexExclusionConstraintOperatorObservation {
    IndexExclusionConstraintOperatorObservation::new(coordinate, ops).unwrap()
}

#[test]
fn constraint_operator_matches_backing_exclusion_semantics() {
    assert_eq!(
        IndexExclusionConstraintOperatorObservation::new(parent_constraint(), vec![]),
        Err(invalid("index_exclusion_constraint_operator_state"))
    );
    let sem = semantics();
    let key_layer = keys();
    let layer = IndexExclusionConstraintOperatorSnapshot::new(
        &relations(),
        None,
        &partition(),
        &constraints(),
        &period(),
        &key_layer,
        &families(),
        &sem,
        vec![operators(child_constraint(), vec![equals()]), operators(parent_constraint(), vec![equals()])],
    )
    .unwrap();
    assert_eq!(layer.observations().len(), 2);
    assert_eq!(layer.observations()[0].coordinate(), &parent_constraint());
    assert_eq!(layer.backing_procedure(&parent_constraint(), 1), Some(&int4eq()));
    assert_eq!(layer.backing_procedure(&parent_constraint(), 2), None);
    assert_eq!(layer.source_connection_key(), "primary");
    assert_ne!(layer.snapshot_digest(), key_layer.snapshot_digest());
    assert_eq!(
        layer.observations()[0].canonical_location(),
        "/schemas/public/relations/partitioned_table/bookings/constraints/bookings_room_excl/exclusion-partition-state/exclusion-operators"
    );
}

#[test]
fn constraint_operator_refuses_other_operators() {
    let sem = semantics();
    let key_layer = keys();
    let less = QualifiedOperatorSignature::new("pg_catalog", "<", int4(), int4()).unwrap();
    assert_eq!(
        IndexExclusionConstraintOperatorSnapshot::new(
            &relations(),
            None,
            &partition(),
            &constraints(),
            &period(),
            &key_layer,
            &families(),
            &sem,
            vec![operators(child_constraint(), vec![equals()]), operators(parent_constraint(), vec![less])],
        ),
        Err(invalid("index_exclusion_constraint_operator_state"))
    );
    assert_eq!(
        IndexExclusionConstraintOperatorSnapshot::new(
            &relations(),
            None,
            &partition(),
            &constraints(),
            &period(),
            &key_layer,
            &families(),
            &sem,
            vec![operators(child_constraint(), vec![equals(), equals()]), operators(parent_constraint(), vec![equals()])],
        ),
        Err(invalid("index_exclusion_constraint_operator_state"))
    );
    assert_eq!(
        IndexExclusionConstraintOperatorSnapshot::new(
            &relations(),
            None,
            &partition(),
            &constraints(),
            &period(),
            &key_layer,
            &families(),
            &sem,
            vec![operators(parent_constraint(), vec![equals()])],
        ),
        Err(invalid("index_exclusion_constraint_operator_completeness"))
    );
    assert_eq!(
        IndexExclusionConstraintOperatorSnapshot::new(
            &relations(),
            None,
            &partition_with("sha256:other"),
            &constraints(),
            &period(),
            &key_layer,
            &families(),
            &sem,
            vec![operators(child_constraint(), vec![equals()]), operators(parent_constraint(), vec![equals()])],
        ),
        Err(invalid("index_exclusion_constraint_operator_predecessor_binding"))
    );
    let other_families = IssuedSnapshot::new("primary", "policy:v1", "sha256:other-families", "extractor-1", OBSERVED_AT);
    assert_eq!(
        IndexExclusionConstraintOperatorSnapshot::new(
            &relations(),
            None,
            &partition(),
            &constraints(),
            &period(),
            &key_layer,
            &other_families,
            &sem,
            vec![operators(child_constraint(), vec![equals()]), operators(parent_constraint(), vec![equals()])],
        ),
        Err(invalid("index_exclusion_constraint_operator_predecessor_binding"))
    );
    let other_period = IssuedSnapshot::new("primary", "policy:v1", "sha256:other-period", "extractor-1", OBSERVED_AT);
    assert_eq!(
        IndexExclusionConstraintOperatorSnapshot::new(
            &relations(),
            None,
            &partition(),
            &constraints(),
            &other_period,
            &key_layer,
            &families(),
            &sem,
            vec![operators(child_constraint(), vec![equals()]), operators(parent_constraint(), vec![equals()])],
        ),
        Err(invalid("index_exclusion_constraint_operator_predecessor_binding"))
    );
}

fn operator_layer() -> IndexExclusionConstraintOperatorSnapshot {
    IndexExclusionConstraintOperatorSnapshot::new(
        &relations(),
        None,
        &partition(),
        &constraints(),
        &period(),
        &keys(),
        &families(),
        &semantics(),
        vec![operators(child_constraint(), vec![equals()]), operators(parent_constraint(), vec![equals()])],
    )
    .unwrap()
}

fn commutator(
    coordinate: IndexExclusionConstraintCoordinate,
    key_position: u32,
    operator: QualifiedOperatorSignature,
    commutator: QualifiedOperatorSignature,
) -> IndexExclusionConstraintOperatorCommutatorObservation {
    IndexExclusionConstraintOperatorCommutatorObservation::new(coordinate, key_position, operator, commutator).unwrap()
}

#[test]
fn operator_commutator_requires_self_commutation() {
    assert_eq!(
        IndexExclusionConstraintOperatorCommutatorObservation::new(parent_constraint(), 0, equals(), equals()),
        Err(ObservationError::InvalidOrdinalPosition)
    );
    let ops = operator_layer();
    let layer = IndexExclusionConstraintOperatorCommutatorSnapshot::new(
        &ops,
        vec![
            commutator(child_constraint(), 1, equals(), equals()),
            commutator(parent_constraint(), 1, equals(), equals()),
        ],
    )
    .unwrap();
    assert_eq!(layer.observations().len(), 2);
    assert_eq!(layer.observations()[0].coordinate(), &parent_constraint());
    assert_eq!(layer.observations()[0].key_position(), 1);
    assert_ne!(layer.snapshot_digest(), ops.snapshot_digest());
    assert_eq!(
        layer.observations()[0].canonical_location(),
        "/schemas/public/relations/partitioned_table/bookings/constraints/bookings_room_excl/exclusion-partition-state/exclusion-operators/1/commutator"
    );
    assert!(layer.source_receipt(child_constraint(), 1).is_ok());
    assert_eq!(
        layer.source_receipt(child_constraint(), 2),
        Err(ObservationError::UnknownObservationLocation {
            location: "/schemas/public/relations/table/bookings_2024/constraints/bookings_2024_room_excl/exclusion-partition-state/exclusion-operators/2/commutator"
                .to_string(),
        })
    );

    let less = QualifiedOperatorSignature::new("pg_catalog", "<", int4(), int4()).unwrap();
    let greater = QualifiedOperatorSignature::new("pg_catalog", ">", int4(), int4()).unwrap();
    assert_eq!(
        IndexExclusionConstraintOperatorCommutatorSnapshot::new(
            &ops,
            vec![commutator(child_constraint(), 1, equals(), equals()), commutator(parent_constraint(), 1, less.clone(), greater)],
        ),
        Err(invalid("index_exclusion_constraint_operator_commutator_binding"))
    );
    assert_eq!(
        IndexExclusionConstraintOperatorCommutatorSnapshot::new(
            &ops,
            vec![commutator(child_constraint(), 1, equals(), equals()), commutator(parent_constraint(), 1, equals(), less)],
        ),
        Err(invalid("index_exclusion_constraint_operator_commutator_state"))
    );
    assert_eq!(
        IndexExclusionConstraintOperatorCommutatorSnapshot::new(&ops, vec![commutator(parent_constraint(), 1, equals(), equals())]),
        Err(invalid("index_exclusion_constraint_operator_commutator_completeness"))
    );
    assert_eq!(
        IndexExclusionConstraintOperatorCommutatorSnapshot::new(
            &ops,
            vec![
                commutator(child_constraint(), 1, equals(), equals()),
                commutator(parent_constraint(), 1, equals(), equals()),
                commutator(parent_constraint(), 2, equals(), equals()),
            ],
        ),
        Err(invalid("index_exclusion_constraint_operator_commutator_completeness"))
    );
    assert_eq!(
        IndexExclusionConstraintOperatorCommutatorSnapshot::new(
            &ops,
            vec![
                commutator(child_constraint(), 1, equals(), equals()),
                commutator(child_constraint(), 1, equals(), equals()),
                commutator(parent_constraint(), 1, equals(), equals()),
            ],
        ),
        Err(invalid("index_exclusion_constraint_operator_commutator_coordinate"))
    );
}
