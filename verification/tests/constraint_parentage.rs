use conceptweave_relation_partition::catalog::{
    BaseConstraint, BaseIndex, BaseRelation, IndexPartitionCoordinate, IndexPartitionEvidence, IndexPartitionMembership,
    RelationKind,
};
use conceptweave_relation_partition::constraint_inheritance::{
    IndexConstraintInheritanceObservation, IndexConstraintInheritanceSnapshot,
};
use conceptweave_relation_partition::constraint_parentage::{
    IndexConstraintParentageCoordinate, IndexConstraintParentageObservation, IndexConstraintParentageSnapshot,
};
use conceptweave_relation_partition::error::ObservationError;

fn invalid(field: &'static str) -> ObservationError {
    ObservationError::InvalidObservationField { field }
}

fn index(relation: &str, kind: RelationKind, name: &str) -> IndexPartitionCoordinate {
    IndexPartitionCoordinate::new("public", relation, kind, name).unwrap()
}

fn parent_key() -> IndexConstraintParentageCoordinate {
    IndexConstraintParentageCoordinate::new("public", "orders", RelationKind::PartitionedTable, "orders_pkey").unwrap()
}

fn child_key() -> IndexConstraintParentageCoordinate {
    IndexConstraintParentageCoordinate::new("public", "orders_2024", RelationKind::Table, "orders_2024_pkey").unwrap()
}

fn relations(parent_constraints: Vec<BaseConstraint>) -> Vec<BaseRelation> {
    vec![
        BaseRelation::new(
            "public",
            "orders",
            RelationKind::PartitionedTable,
            vec!["id".to_string()],
            vec![BaseIndex::new("orders_pkey", vec![1], vec![], false, Some(false))],
        )
        .with_constraints(parent_constraints),
        BaseRelation::new(
            "public",
            "orders_2024",
            RelationKind::Table,
            vec!["id".to_string()],
            vec![BaseIndex::new("orders_2024_pkey", vec![1], vec![], false, Some(false))],
        )
        .with_constraints(vec![BaseConstraint::new("orders_2024_pkey", true)]),
    ]
}

fn keyed_relations() -> Vec<BaseRelation> {
    relations(vec![BaseConstraint::new("orders_pkey", true)])
}

fn partition() -> IndexPartitionEvidence {
    IndexPartitionEvidence::new(
        "primary",
        "policy:v1",
        "sha256:index-partition",
        "extractor-1",
        "2026-01-01T00:00:00Z",
        vec![
            IndexPartitionMembership::new(index("orders", RelationKind::PartitionedTable, "orders_pkey"), false, None),
            IndexPartitionMembership::new(
                index("orders_2024", RelationKind::Table, "orders_2024_pkey"),
                true,
                Some(index("orders", RelationKind::PartitionedTable, "orders_pkey")),
            ),
        ],
    )
}

fn parentage() -> IndexConstraintParentageSnapshot {
    IndexConstraintParentageSnapshot::new(
        &keyed_relations(),
        &partition(),
        vec![
            IndexConstraintParentageObservation::partition(child_key(), parent_key()).unwrap(),
            IndexConstraintParentageObservation::root(parent_key()).unwrap(),
        ],
    )
    .unwrap()
}

#[test]
fn parentage_coordinate_validates_names() {
    assert_eq!(
        IndexConstraintParentageCoordinate::new("", "orders", RelationKind::Table, "k"),
        Err(invalid("index_constraint_parentage_schema_name"))
    );
    assert_eq!(
        IndexConstraintParentageCoordinate::new("public", " ", RelationKind::Table, "k"),
        Err(invalid("index_constraint_parentage_relation_name"))
    );
    assert_eq!(
        IndexConstraintParentageCoordinate::new("public", "orders", RelationKind::Table, "\n"),
        Err(invalid("index_constraint_parentage_constraint_name"))
    );
    assert_eq!(
        parent_key().canonical_location(),
        "/schemas/public/relations/partitioned_table/orders/constraints/orders_pkey/parentage"
    );
    assert_eq!(
        IndexConstraintParentageObservation::partition(parent_key(), parent_key()),
        Err(invalid("index_constraint_parentage_parent"))
    );
}

#[test]
fn parentage_snapshot_accepts_attached_key_constraint() {
    let snapshot = parentage();
    assert_eq!(snapshot.observations()[0].coordinate(), &parent_key());
    assert_eq!(snapshot.observations()[1].parent_constraint(), Some(&parent_key()));
    assert!(snapshot.snapshot_digest().starts_with("sha256:"));
    assert_eq!(snapshot.source_connection_key(), "primary");
    let receipt = snapshot.source_receipt(child_key()).unwrap();
    assert_eq!(receipt.source_digest(), snapshot.snapshot_digest());
    let unknown = IndexConstraintParentageCoordinate::new("public", "orders", RelationKind::Table, "x").unwrap();
    assert!(matches!(snapshot.source_receipt(unknown), Err(ObservationError::UnknownObservationLocation { .. })));
}

#[test]
fn parentage_snapshot_refuses_wrong_or_missing_parentage() {
    assert_eq!(
        IndexConstraintParentageSnapshot::new(
            &keyed_relations(),
            &partition(),
            vec![
                IndexConstraintParentageObservation::root(child_key()).unwrap(),
                IndexConstraintParentageObservation::root(parent_key()).unwrap(),
            ],
        ),
        Err(invalid("index_constraint_parentage"))
    );
    assert_eq!(
        IndexConstraintParentageSnapshot::new(
            &keyed_relations(),
            &partition(),
            vec![IndexConstraintParentageObservation::root(parent_key()).unwrap()],
        ),
        Err(invalid("index_constraint_parentage_completeness"))
    );
    assert_eq!(
        IndexConstraintParentageSnapshot::new(
            &keyed_relations(),
            &partition(),
            vec![
                IndexConstraintParentageObservation::root(parent_key()).unwrap(),
                IndexConstraintParentageObservation::root(parent_key()).unwrap(),
            ],
        ),
        Err(invalid("index_constraint_parentage_coordinate"))
    );
    let no_memberships =
        IndexPartitionEvidence::new("primary", "policy:v1", "sha256:p", "extractor-1", "2026-01-01T00:00:00Z", vec![]);
    assert_eq!(
        IndexConstraintParentageSnapshot::new(
            &keyed_relations(),
            &no_memberships,
            vec![
                IndexConstraintParentageObservation::partition(child_key(), parent_key()).unwrap(),
                IndexConstraintParentageObservation::root(parent_key()).unwrap(),
            ],
        ),
        Err(invalid("index_constraint_parentage_backing_index"))
    );
}

#[test]
fn parentage_below_unconstrained_parent_index_stays_local() {
    let snapshot = IndexConstraintParentageSnapshot::new(
        &relations(vec![]),
        &partition(),
        vec![IndexConstraintParentageObservation::root(child_key()).unwrap()],
    )
    .unwrap();
    assert!(snapshot.observations()[0].parent_constraint().is_none());
    let orphan_parent = vec![relations(vec![]).remove(1)];
    assert_eq!(
        IndexConstraintParentageSnapshot::new(
            &orphan_parent,
            &partition(),
            vec![IndexConstraintParentageObservation::root(child_key()).unwrap()],
        ),
        Err(invalid("index_constraint_parentage_parent_coordinate"))
    );
}

#[test]
fn inheritance_state_follows_parentage() {
    let parentage = parentage();
    let snapshot = IndexConstraintInheritanceSnapshot::new(
        &parentage,
        vec![
            IndexConstraintInheritanceObservation::new(child_key(), false, 1).unwrap(),
            IndexConstraintInheritanceObservation::new(parent_key(), true, 0).unwrap(),
        ],
    )
    .unwrap();
    assert_eq!(snapshot.observations()[0].coordinate(), &parent_key());
    assert_eq!(snapshot.observations()[1].inheritance_count(), 1);
    assert_eq!(snapshot.extractor_revision(), parentage.extractor_revision());
    assert_ne!(snapshot.snapshot_digest(), parentage.snapshot_digest());
    assert_eq!(
        IndexConstraintInheritanceSnapshot::new(
            &parentage,
            vec![
                IndexConstraintInheritanceObservation::new(child_key(), true, 1).unwrap(),
                IndexConstraintInheritanceObservation::new(parent_key(), true, 0).unwrap(),
            ],
        ),
        Err(invalid("index_constraint_inheritance_state"))
    );
    assert_eq!(
        IndexConstraintInheritanceSnapshot::new(
            &parentage,
            vec![IndexConstraintInheritanceObservation::new(parent_key(), true, 0).unwrap()],
        ),
        Err(invalid("index_constraint_inheritance_completeness"))
    );
    assert_eq!(
        IndexConstraintInheritanceObservation::new(parent_key(), true, -1),
        Err(invalid("index_constraint_inheritance_count"))
    );
    assert_eq!(
        IndexConstraintInheritanceObservation::new(parent_key(), true, 0).unwrap().canonical_location(),
        "/schemas/public/relations/partitioned_table/orders/constraints/orders_pkey/parentage/inheritance-state"
    );
    let receipt = snapshot.source_receipt(child_key()).unwrap();
    assert!(!receipt.location().is_local());
}
