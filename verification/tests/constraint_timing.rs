use conceptweave_relation_partition::catalog::{
    BaseConstraint, BaseIndex, BaseRelation, IndexPartitionCoordinate, IndexPartitionEvidence, IndexPartitionMembership,
    RelationKind,
};
use conceptweave_relation_partition::constraint_enforcement::{
    IndexExclusionConstraintEnforcementObservation, IndexExclusionConstraintEnforcementSnapshot,
};
use conceptweave_relation_partition::constraint_immediacy::IndexExclusionConstraintImmediacySnapshot;
use conceptweave_relation_partition::constraint_index_role::IndexExclusionConstraintIndexRoleSnapshot;
use conceptweave_relation_partition::constraint_timing::{ConstraintTiming, IssuedConstraintTiming};
use conceptweave_relation_partition::error::ObservationError;
use conceptweave_relation_partition::exclusion_constraint::{
    IndexExclusionConstraintCoordinate, IndexExclusionConstraintObservation, IndexExclusionConstraintSnapshot,
};

const OBSERVED_AT: &str = "2026-01-01T00:00:00Z";

fn invalid(field: &'static str) -> ObservationError {
    ObservationError::InvalidObservationField { field }
}

fn parent_index() -> IndexPartitionCoordinate {
    IndexPartitionCoordinate::new("public", "bookings", RelationKind::PartitionedTable, "bookings_room_excl").unwrap()
}

fn child_index() -> IndexPartitionCoordinate {
    IndexPartitionCoordinate::new("public", "bookings_2024", RelationKind::Table, "bookings_2024_room_excl").unwrap()
}

fn constraint(relation: &str, kind: RelationKind, name: &str) -> IndexExclusionConstraintCoordinate {
    IndexExclusionConstraintCoordinate::new("public", relation, kind, name).unwrap()
}

fn parent_constraint() -> IndexExclusionConstraintCoordinate {
    constraint("bookings", RelationKind::PartitionedTable, "bookings_room_excl")
}

fn child_constraint() -> IndexExclusionConstraintCoordinate {
    constraint("bookings_2024", RelationKind::Table, "bookings_2024_room_excl")
}

fn exclusion_index(name: &str) -> BaseIndex {
    BaseIndex::new(name, vec![1], vec![], false, Some(true))
}

fn healthy(name: &str) -> BaseIndex {
    exclusion_index(name).with_catalog_flags(false, true)
}

fn relations_with(parent: BaseIndex, child: BaseIndex, extra: Vec<BaseRelation>) -> Vec<BaseRelation> {
    let mut rels = vec![
        BaseRelation::new("public", "bookings", RelationKind::PartitionedTable, vec!["room".to_string()], vec![parent])
            .with_constraints(vec![BaseConstraint::new("bookings_pkey", true)]),
        BaseRelation::new("public", "bookings_2024", RelationKind::Table, vec!["room".to_string()], vec![child]),
    ];
    rels.extend(extra);
    rels
}

fn relations() -> Vec<BaseRelation> {
    relations_with(healthy("bookings_room_excl"), healthy("bookings_2024_room_excl"), vec![])
}

fn partition_with(digest: &str) -> IndexPartitionEvidence {
    IndexPartitionEvidence::new(
        "primary",
        "policy:v1",
        digest,
        "extractor-1",
        OBSERVED_AT,
        vec![
            IndexPartitionMembership::new(parent_index(), false, None),
            IndexPartitionMembership::new(child_index(), true, Some(parent_index())),
        ],
    )
}

fn partition() -> IndexPartitionEvidence {
    partition_with("sha256:index-partition")
}

fn constraints_for(
    rels: &[BaseRelation],
    part: &IndexPartitionEvidence,
    parent: IndexExclusionConstraintCoordinate,
    child: IndexExclusionConstraintCoordinate,
) -> IndexExclusionConstraintSnapshot {
    let root = IndexExclusionConstraintObservation::root(parent.clone(), parent_index()).unwrap();
    let attached = IndexExclusionConstraintObservation::partition(child, child_index(), parent, false, 1).unwrap();
    IndexExclusionConstraintSnapshot::new(rels, None, part, vec![attached, root]).unwrap()
}

fn constraints() -> IndexExclusionConstraintSnapshot {
    constraints_for(&relations(), &partition(), parent_constraint(), child_constraint())
}

fn timing_with(child_deferrable: bool) -> IssuedConstraintTiming {
    IssuedConstraintTiming::new(
        "primary",
        "policy:v1",
        "sha256:timing",
        "extractor-1",
        OBSERVED_AT,
        vec![
            ConstraintTiming::new(child_constraint(), child_deferrable, false),
            ConstraintTiming::new(parent_constraint(), false, false),
        ],
    )
}

fn enforcement(coordinate: IndexExclusionConstraintCoordinate) -> IndexExclusionConstraintEnforcementObservation {
    IndexExclusionConstraintEnforcementObservation::new(coordinate, true).unwrap()
}

#[test]
fn enforcement_requires_enforced_exclusion_constraints() {
    assert_eq!(
        IndexExclusionConstraintEnforcementObservation::new(parent_constraint(), false),
        Err(invalid("index_exclusion_constraint_enforcement_state"))
    );
    let timing = timing_with(false);
    let layer = IndexExclusionConstraintEnforcementSnapshot::new(
        &timing,
        vec![enforcement(child_constraint()), enforcement(parent_constraint())],
    )
    .unwrap();
    assert_eq!(layer.observations().len(), 2);
    assert_eq!(layer.observations()[0].coordinate(), &parent_constraint());
    assert!(layer.observations()[0].enforced());
    assert_eq!(layer.source_connection_key(), "primary");
    assert_ne!(layer.snapshot_digest(), timing.snapshot_digest());
    assert_eq!(
        layer.observations()[1].canonical_location(),
        "/schemas/public/relations/table/bookings_2024/constraints/bookings_2024_room_excl/exclusion-partition-state/enforcement"
    );
    assert_eq!(
        IndexExclusionConstraintEnforcementSnapshot::new(&timing, vec![enforcement(parent_constraint())]),
        Err(invalid("index_exclusion_constraint_enforcement_completeness"))
    );
    assert_eq!(
        IndexExclusionConstraintEnforcementSnapshot::new(
            &timing,
            vec![enforcement(parent_constraint()), enforcement(child_constraint()), enforcement(parent_constraint())],
        ),
        Err(invalid("index_exclusion_constraint_enforcement_coordinate"))
    );
}

#[test]
fn immediacy_binds_deferrability_to_backing_index_immediacy() {
    let rels = relations();
    let layer =
        IndexExclusionConstraintImmediacySnapshot::new(&rels, None, &partition(), &constraints(), &timing_with(false)).unwrap();
    assert_eq!(layer.observations().len(), 2);
    assert_eq!(layer.observations()[0].coordinate(), &parent_constraint());
    assert!(!layer.observations()[0].constraint_deferrable());
    assert!(layer.observations()[0].index_immediate());
    assert_eq!(layer.source_connection_key(), "primary");
    let receipt = layer.source_receipt(child_constraint()).unwrap();
    assert_eq!(receipt.location().backing_index(), &child_index());
    assert_eq!(
        receipt.location().canonical_location(),
        "/schemas/public/relations/table/bookings_2024/constraints/bookings_2024_room_excl/exclusion-partition-state/timing-index-coherence"
    );
}

#[test]
fn immediacy_refuses_incoherent_or_uncaptured_state() {
    let rels = relations();
    assert_eq!(
        IndexExclusionConstraintImmediacySnapshot::new(&rels, None, &partition(), &constraints(), &timing_with(true)),
        Err(invalid("index_exclusion_constraint_immediacy_state"))
    );
    let uncaptured = relations_with(exclusion_index("bookings_room_excl"), healthy("bookings_2024_room_excl"), vec![]);
    assert_eq!(
        IndexExclusionConstraintImmediacySnapshot::new(&uncaptured, None, &partition(), &constraints(), &timing_with(false)),
        Err(invalid("index_exclusion_constraint_immediacy_catalog_flags"))
    );
    let partial = IssuedConstraintTiming::new(
        "primary",
        "policy:v1",
        "sha256:timing",
        "extractor-1",
        OBSERVED_AT,
        vec![ConstraintTiming::new(parent_constraint(), false, false)],
    );
    assert_eq!(
        IndexExclusionConstraintImmediacySnapshot::new(&rels, None, &partition(), &constraints(), &partial),
        Err(invalid("index_exclusion_constraint_immediacy_predecessor_binding"))
    );
    assert_eq!(
        IndexExclusionConstraintImmediacySnapshot::new(
            &rels,
            None,
            &partition_with("sha256:other"),
            &constraints(),
            &timing_with(false)
        ),
        Err(invalid("index_exclusion_constraint_immediacy_predecessor_binding"))
    );
}

#[test]
fn index_role_requires_plain_exclusion_backing_indexes() {
    let rels = relations();
    let timing = timing_with(false);
    let immediacy = IndexExclusionConstraintImmediacySnapshot::new(&rels, None, &partition(), &constraints(), &timing).unwrap();
    let layer =
        IndexExclusionConstraintIndexRoleSnapshot::new(&rels, None, &partition(), &constraints(), &timing, &immediacy).unwrap();
    assert_eq!(layer.observations().len(), 2);
    for observation in layer.observations() {
        assert!(!observation.index_unique());
        assert!(!observation.index_primary());
        assert!(observation.index_exclusion());
    }
    assert_ne!(layer.snapshot_digest(), immediacy.snapshot_digest());
    assert_eq!(layer.source_receipt(parent_constraint()).unwrap().source_digest(), layer.snapshot_digest());

    let unique_child = relations_with(
        healthy("bookings_room_excl"),
        healthy("bookings_2024_room_excl").with_unique(true),
        vec![],
    );
    assert_eq!(
        IndexExclusionConstraintIndexRoleSnapshot::new(&unique_child, None, &partition(), &constraints(), &timing, &immediacy),
        Err(invalid("index_exclusion_constraint_index_role_state"))
    );
    let primary_parent = relations_with(
        exclusion_index("bookings_room_excl").with_catalog_flags(true, true),
        healthy("bookings_2024_room_excl"),
        vec![],
    );
    assert_eq!(
        IndexExclusionConstraintIndexRoleSnapshot::new(&primary_parent, None, &partition(), &constraints(), &timing, &immediacy),
        Err(invalid("index_exclusion_constraint_index_role_state"))
    );
}

#[test]
fn index_role_refuses_unbound_immediacy() {
    let rels = relations();
    let timing = timing_with(false);
    let other_timing = IssuedConstraintTiming::new(
        "primary",
        "policy:v1",
        "sha256:other-timing",
        "extractor-1",
        OBSERVED_AT,
        vec![
            ConstraintTiming::new(child_constraint(), false, false),
            ConstraintTiming::new(parent_constraint(), false, false),
        ],
    );
    let foreign = IndexExclusionConstraintImmediacySnapshot::new(&rels, None, &partition(), &constraints(), &other_timing).unwrap();
    assert_eq!(
        IndexExclusionConstraintIndexRoleSnapshot::new(&rels, None, &partition(), &constraints(), &timing, &foreign),
        Err(invalid("index_exclusion_constraint_index_role_predecessor_binding"))
    );
    assert_eq!(
        IndexExclusionConstraintIndexRoleSnapshot::new(&rels, None, &partition(), &constraints(), &timing_with(true), &foreign),
        Err(invalid("index_exclusion_constraint_immediacy_state"))
    );
}
