use conceptweave_relation_partition::catalog::{
    BaseConstraint, BaseIndex, BaseRelation, IndexPartitionCoordinate, IndexPartitionEvidence, IndexPartitionMembership,
    IssuedSnapshot, RelationKind,
};
use conceptweave_relation_partition::catalog_shape::{
    IndexExclusionConstraintForeignActionCodes, IndexExclusionConstraintForeignPayloadPresence,
};
use conceptweave_relation_partition::constraint_catalog_shape::{
    IndexExclusionConstraintCatalogShapeObservation, IndexExclusionConstraintCatalogShapeSnapshot,
};
use conceptweave_relation_partition::constraint_index_lifecycle::IndexExclusionConstraintIndexLifecycleSnapshot;
use conceptweave_relation_partition::constraint_index_name::IndexExclusionConstraintIndexNameSnapshot;
use conceptweave_relation_partition::constraint_index_namespace::{
    IndexExclusionConstraintIndexNamespaceObservation, IndexExclusionConstraintIndexNamespaceSnapshot,
};
use conceptweave_relation_partition::error::ObservationError;
use conceptweave_relation_partition::exclusion_constraint::{
    IndexExclusionConstraintCoordinate, IndexExclusionConstraintObservation, IndexExclusionConstraintSnapshot,
};

const OBSERVED_AT: &str = "2026-01-01T00:00:00Z";
const BASE_DIGEST: &str = "sha256:base";

fn invalid(field: &'static str) -> ObservationError {
    ObservationError::InvalidObservationField { field }
}

fn parent_index() -> IndexPartitionCoordinate {
    IndexPartitionCoordinate::new("public", "bookings", RelationKind::PartitionedTable, "bookings_room_excl").unwrap()
}

fn child_index() -> IndexPartitionCoordinate {
    IndexPartitionCoordinate::new("public", "bookings_2024", RelationKind::Table, "bookings_2024_room_excl").unwrap()
}

fn constraint(relation: &str, kind: RelationKind, name: &str) -> IndexExclusionConstraintCoordinate {
    IndexExclusionConstraintCoordinate::new("public", relation, kind, name).unwrap()
}

fn parent_constraint() -> IndexExclusionConstraintCoordinate {
    constraint("bookings", RelationKind::PartitionedTable, "bookings_room_excl")
}

fn child_constraint() -> IndexExclusionConstraintCoordinate {
    constraint("bookings_2024", RelationKind::Table, "bookings_2024_room_excl")
}

fn exclusion_index(name: &str) -> BaseIndex {
    BaseIndex::new(name, vec![1], vec![], false, Some(true))
}

fn healthy(name: &str) -> BaseIndex {
    exclusion_index(name).with_lifecycle(Some(true), Some(true), Some(true))
}

fn relations_with(parent: BaseIndex, child: BaseIndex, extra: Vec<BaseRelation>) -> Vec<BaseRelation> {
    let mut rels = vec![
        BaseRelation::new("public", "bookings", RelationKind::PartitionedTable, vec!["room".to_string()], vec![parent])
            .with_constraints(vec![BaseConstraint::new("bookings_pkey", true)]),
        BaseRelation::new("public", "bookings_2024", RelationKind::Table, vec!["room".to_string()], vec![child]),
    ];
    rels.extend(extra);
    rels
}

fn relations() -> Vec<BaseRelation> {
    relations_with(healthy("bookings_room_excl"), healthy("bookings_2024_room_excl"), vec![])
}

fn partition_with(digest: &str) -> IndexPartitionEvidence {
    IndexPartitionEvidence::new(
        "primary",
        "policy:v1",
        digest,
        "extractor-1",
        OBSERVED_AT,
        vec![
            IndexPartitionMembership::new(parent_index(), false, None),
            IndexPartitionMembership::new(child_index(), true, Some(parent_index())),
        ],
    )
}

fn partition() -> IndexPartitionEvidence {
    partition_with("sha256:index-partition")
}

fn constraints_for(
    rels: &[BaseRelation],
    part: &IndexPartitionEvidence,
    parent: IndexExclusionConstraintCoordinate,
    child: IndexExclusionConstraintCoordinate,
) -> IndexExclusionConstraintSnapshot {
    let root = IndexExclusionConstraintObservation::root(parent.clone(), parent_index()).unwrap();
    let attached = IndexExclusionConstraintObservation::partition(child, child_index(), parent, false, 1).unwrap();
    IndexExclusionConstraintSnapshot::new(rels, None, part, vec![attached, root]).unwrap()
}

fn shape(coordinate: IndexExclusionConstraintCoordinate) -> IndexExclusionConstraintCatalogShapeObservation {
    IndexExclusionConstraintCatalogShapeObservation::new(
        coordinate,
        'x',
        true,
        false,
        IndexExclusionConstraintForeignActionCodes::new(' ', ' ', ' '),
        IndexExclusionConstraintForeignPayloadPresence::new(false, false, [false, false, false], false),
        false,
    )
    .unwrap()
}

fn shapes_for(
    constraints: &IndexExclusionConstraintSnapshot,
    parent: IndexExclusionConstraintCoordinate,
    child: IndexExclusionConstraintCoordinate,
) -> IndexExclusionConstraintCatalogShapeSnapshot {
    IndexExclusionConstraintCatalogShapeSnapshot::new(constraints, vec![shape(child), shape(parent)]).unwrap()
}

fn index_names() -> IndexExclusionConstraintIndexNameSnapshot {
    let rels = relations();
    let part = partition();
    let constraints = constraints_for(&rels, &part, parent_constraint(), child_constraint());
    let shapes = shapes_for(&constraints, parent_constraint(), child_constraint());
    IndexExclusionConstraintIndexNameSnapshot::new(BASE_DIGEST, &rels, None, &part, &constraints, &shapes).unwrap()
}

fn namespace(
    coordinate: IndexExclusionConstraintCoordinate,
    index: IndexPartitionCoordinate,
    schema: &str,
) -> IndexExclusionConstraintIndexNamespaceObservation {
    IndexExclusionConstraintIndexNamespaceObservation::new(coordinate, index, schema).unwrap()
}

fn namespaces() -> IndexExclusionConstraintIndexNamespaceSnapshot {
    IndexExclusionConstraintIndexNamespaceSnapshot::new(
        &index_names(),
        vec![
            namespace(child_constraint(), child_index(), "public"),
            namespace(parent_constraint(), parent_index(), "public"),
        ],
    )
    .unwrap()
}

fn base() -> IssuedSnapshot {
    IssuedSnapshot::new("primary", "policy:v1", BASE_DIGEST, "extractor-1", OBSERVED_AT)
}

#[test]
fn index_name_snapshot_binds_constraint_and_index_names() {
    let names = index_names();
    assert_eq!(names.observations().len(), 2);
    assert_eq!(names.observations()[0].coordinate(), &parent_constraint());
    assert_eq!(names.observations()[0].backing_index(), &parent_index());
    assert_eq!(names.observations()[1].coordinate(), &child_constraint());
    assert_eq!(names.source_snapshot_digest(), BASE_DIGEST);
    assert_eq!(names.source_connection_key(), "primary");
    assert_eq!(names.connection_policy_binding(), "policy:v1");
    assert_eq!(names.extractor_revision(), "extractor-1");
    assert_eq!(names.observed_at_utc(), OBSERVED_AT);
    assert!(names.snapshot_digest().starts_with("sha256:"));
    assert_eq!(
        names.observations()[0].canonical_location(),
        "/schemas/public/relations/partitioned_table/bookings/constraints/bookings_room_excl/exclusion-partition-state/backing-index-name"
    );
    let receipt = names.source_receipt(child_constraint()).unwrap();
    assert_eq!(receipt.source_digest(), names.snapshot_digest());
    assert_eq!(receipt.location().backing_index(), &child_index());
    let unknown = constraint("bookings", RelationKind::PartitionedTable, "other");
    assert_eq!(
        names.source_receipt(unknown),
        Err(ObservationError::UnknownObservationLocation {
            location: "/schemas/public/relations/partitioned_table/bookings/constraints/other/exclusion-partition-state/backing-index-name"
                .to_string(),
        })
    );
}

#[test]
fn index_name_snapshot_refuses_differently_named_constraint() {
    let rels = relations();
    let part = partition();
    let parent = constraint("bookings", RelationKind::PartitionedTable, "bookings_no_overlap");
    let constraints = constraints_for(&rels, &part, parent.clone(), child_constraint());
    let shapes = shapes_for(&constraints, parent, child_constraint());
    assert_eq!(
        IndexExclusionConstraintIndexNameSnapshot::new(BASE_DIGEST, &rels, None, &part, &constraints, &shapes),
        Err(invalid("index_exclusion_constraint_index_name_state"))
    );
}

#[test]
fn index_name_snapshot_refuses_namespace_collisions() {
    let part = partition();
    let plain = relations();
    let constraints = constraints_for(&plain, &part, parent_constraint(), child_constraint());
    let shapes = shapes_for(&constraints, parent_constraint(), child_constraint());

    let relation_named_like_index = relations_with(
        healthy("bookings_room_excl"),
        healthy("bookings_2024_room_excl"),
        vec![BaseRelation::new("public", "bookings_room_excl", RelationKind::Table, vec![], vec![])],
    );
    assert_eq!(
        IndexExclusionConstraintIndexNameSnapshot::new(
            BASE_DIGEST,
            &relation_named_like_index,
            None,
            &part,
            &constraints,
            &shapes
        ),
        Err(invalid("index_exclusion_constraint_index_name_namespace"))
    );

    let index_name_reused = relations_with(
        healthy("bookings_room_excl"),
        healthy("bookings_2024_room_excl"),
        vec![BaseRelation::new(
            "public",
            "rooms",
            RelationKind::Table,
            vec!["id".to_string()],
            vec![BaseIndex::new("bookings_room_excl", vec![1], vec![], false, Some(false))],
        )],
    );
    assert_eq!(
        IndexExclusionConstraintIndexNameSnapshot::new(BASE_DIGEST, &index_name_reused, None, &part, &constraints, &shapes),
        Err(invalid("index_exclusion_constraint_index_name_namespace"))
    );

    let other_schema = relations_with(
        healthy("bookings_room_excl"),
        healthy("bookings_2024_room_excl"),
        vec![BaseRelation::new("archive", "bookings_room_excl", RelationKind::Table, vec![], vec![])],
    );
    assert!(IndexExclusionConstraintIndexNameSnapshot::new(BASE_DIGEST, &other_schema, None, &part, &constraints, &shapes)
        .is_ok());
}

#[test]
fn index_name_snapshot_refuses_unbound_predecessors() {
    let rels = relations();
    let issued = partition_with("sha256:issued-partition");
    let constraints = constraints_for(&rels, &issued, parent_constraint(), child_constraint());
    let shapes = shapes_for(&constraints, parent_constraint(), child_constraint());
    assert_eq!(
        IndexExclusionConstraintIndexNameSnapshot::new(BASE_DIGEST, &rels, None, &partition(), &constraints, &shapes),
        Err(invalid("index_exclusion_constraint_index_name_predecessor_binding"))
    );

    let part = partition();
    let constraints = constraints_for(&rels, &part, parent_constraint(), child_constraint());
    let other_constraints = constraints_for(&rels, &issued, parent_constraint(), child_constraint());
    let foreign_shapes = shapes_for(&other_constraints, parent_constraint(), child_constraint());
    assert_eq!(
        IndexExclusionConstraintIndexNameSnapshot::new(BASE_DIGEST, &rels, None, &part, &constraints, &foreign_shapes),
        Err(invalid("index_exclusion_constraint_index_name_predecessor_binding"))
    );
}

#[test]
fn index_namespace_snapshot_requires_owning_schema() {
    assert_eq!(
        IndexExclusionConstraintIndexNamespaceObservation::new(parent_constraint(), parent_index(), " "),
        Err(invalid("index_exclusion_constraint_index_namespace_name"))
    );
    let names = index_names();
    let layer = namespaces();
    assert_eq!(layer.observations().len(), 2);
    assert_eq!(layer.observations()[0].coordinate(), &parent_constraint());
    assert_eq!(layer.observations()[0].index_schema_name(), "public");
    assert_eq!(layer.source_snapshot_digest(), BASE_DIGEST);
    assert_ne!(layer.snapshot_digest(), names.snapshot_digest());
    let receipt = layer.source_receipt(parent_constraint()).unwrap();
    assert_eq!(receipt.location().backing_index(), &parent_index());

    assert_eq!(
        IndexExclusionConstraintIndexNamespaceSnapshot::new(
            &names,
            vec![
                namespace(child_constraint(), child_index(), "archive"),
                namespace(parent_constraint(), parent_index(), "public"),
            ],
        ),
        Err(invalid("index_exclusion_constraint_index_namespace_state"))
    );
    assert_eq!(
        IndexExclusionConstraintIndexNamespaceSnapshot::new(
            &names,
            vec![namespace(parent_constraint(), parent_index(), "public")],
        ),
        Err(invalid("index_exclusion_constraint_index_namespace_completeness"))
    );
    assert_eq!(
        IndexExclusionConstraintIndexNamespaceSnapshot::new(
            &names,
            vec![
                namespace(child_constraint(), parent_index(), "public"),
                namespace(parent_constraint(), parent_index(), "public"),
            ],
        ),
        Err(invalid("index_exclusion_constraint_index_namespace_completeness"))
    );
    assert_eq!(
        IndexExclusionConstraintIndexNamespaceSnapshot::new(
            &names,
            vec![
                namespace(parent_constraint(), parent_index(), "public"),
                namespace(child_constraint(), child_index(), "public"),
                namespace(parent_constraint(), parent_index(), "public"),
            ],
        ),
        Err(invalid("index_exclusion_constraint_index_namespace_coordinate"))
    );
}

#[test]
fn index_namespace_digest_ignores_supply_order() {
    let names = index_names();
    let forward = IndexExclusionConstraintIndexNamespaceSnapshot::new(
        &names,
        vec![
            namespace(parent_constraint(), parent_index(), "public"),
            namespace(child_constraint(), child_index(), "public"),
        ],
    )
    .unwrap();
    assert_eq!(forward, namespaces());
}

#[test]
fn index_lifecycle_snapshot_binds_healthy_backing_indexes() {
    let layer = IndexExclusionConstraintIndexLifecycleSnapshot::new(&base(), &relations(), &namespaces()).unwrap();
    assert_eq!(layer.observations().len(), 2);
    for observation in layer.observations() {
        assert!(observation.index_ready());
        assert!(observation.index_valid());
        assert!(observation.index_live());
    }
    assert_eq!(layer.observations()[1].backing_index(), &child_index());
    assert_eq!(layer.source_connection_key(), "primary");
    assert!(layer.snapshot_digest().starts_with("sha256:"));
    let receipt = layer.source_receipt(child_constraint()).unwrap();
    assert_eq!(receipt.location().coordinate(), &child_constraint());
    assert_eq!(
        receipt.location().canonical_location(),
        "/schemas/public/relations/table/bookings_2024/constraints/bookings_2024_room_excl/exclusion-partition-state/backing-index-lifecycle"
    );
}

#[test]
fn index_lifecycle_snapshot_refuses_missing_or_unhealthy_flags() {
    let ns = namespaces();
    let uncaptured = relations_with(exclusion_index("bookings_room_excl"), healthy("bookings_2024_room_excl"), vec![]);
    assert_eq!(
        IndexExclusionConstraintIndexLifecycleSnapshot::new(&base(), &uncaptured, &ns),
        Err(invalid("index_exclusion_constraint_index_lifecycle_presence"))
    );
    let invalid_child = relations_with(
        healthy("bookings_room_excl"),
        exclusion_index("bookings_2024_room_excl").with_lifecycle(Some(true), Some(false), Some(true)),
        vec![],
    );
    assert_eq!(
        IndexExclusionConstraintIndexLifecycleSnapshot::new(&base(), &invalid_child, &ns),
        Err(invalid("index_exclusion_constraint_index_lifecycle_state"))
    );
    let missing_child = relations_with(healthy("bookings_room_excl"), healthy("bookings_2024_other"), vec![]);
    assert_eq!(
        IndexExclusionConstraintIndexLifecycleSnapshot::new(&base(), &missing_child, &ns),
        Err(invalid("index_exclusion_constraint_index_lifecycle_backing_index"))
    );
    let other_base = IssuedSnapshot::new("primary", "policy:v1", "sha256:other-base", "extractor-1", OBSERVED_AT);
    assert_eq!(
        IndexExclusionConstraintIndexLifecycleSnapshot::new(&other_base, &relations(), &ns),
        Err(invalid("index_exclusion_constraint_index_lifecycle_predecessor_binding"))
    );
}
