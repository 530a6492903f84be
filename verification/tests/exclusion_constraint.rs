use conceptweave_relation_partition::catalog::{
    BaseConstraint, BaseIndex, BaseNotNullConstraint, BaseRelation, IndexPartitionCoordinate, IndexPartitionEvidence,
    IndexPartitionMembership, RelationKind,
};
use conceptweave_relation_partition::catalog_shape::{
    IndexExclusionConstraintForeignActionCodes, IndexExclusionConstraintForeignPayloadPresence,
};
use conceptweave_relation_partition::constraint_catalog_shape::{
    IndexExclusionConstraintCatalogShapeObservation, IndexExclusionConstraintCatalogShapeSnapshot,
};
use conceptweave_relation_partition::constraint_namespace::{
    IndexExclusionConstraintNamespaceObservation, IndexExclusionConstraintNamespaceSnapshot,
};
use conceptweave_relation_partition::constraint_no_inherit::{
    IndexExclusionConstraintNoInheritObservation, IndexExclusionConstraintNoInheritSnapshot,
};
use conceptweave_relation_partition::error::ObservationError;
use conceptweave_relation_partition::exclusion_constraint::{
    IndexExclusionConstraintCoordinate, IndexExclusionConstraintObservation, IndexExclusionConstraintSnapshot,
};

fn invalid(field: &'static str) -> ObservationError {
    ObservationError::InvalidObservationField { field }
}

fn parent_index() -> IndexPartitionCoordinate {
    IndexPartitionCoordinate::new("public", "bookings", RelationKind::PartitionedTable, "bookings_room_excl").unwrap()
}

fn child_index() -> IndexPartitionCoordinate {
    IndexPartitionCoordinate::new("public", "bookings_2024", RelationKind::Table, "bookings_2024_room_excl").unwrap()
}

fn parent_constraint() -> IndexExclusionConstraintCoordinate {
    IndexExclusionConstraintCoordinate::new("public", "bookings", RelationKind::PartitionedTable, "bookings_room_excl")
        .unwrap()
}

fn child_constraint() -> IndexExclusionConstraintCoordinate {
    IndexExclusionConstraintCoordinate::new("public", "bookings_2024", RelationKind::Table, "bookings_2024_room_excl")
        .unwrap()
}

fn exclusion_index(name: &str, exclusion: Option<bool>) -> BaseIndex {
    BaseIndex::new(name, vec![1], vec![], false, exclusion)
}

fn relations_with(parent_flag: Option<bool>, parent_constraints: Vec<BaseConstraint>) -> Vec<BaseRelation> {
    vec![
        BaseRelation::new(
            "public",
            "bookings",
            RelationKind::PartitionedTable,
            vec!["room".to_string(), "during".to_string()],
            vec![exclusion_index("bookings_room_excl", parent_flag)],
        )
        .with_constraints(parent_constraints),
        BaseRelation::new(
            "public",
            "bookings_2024",
            RelationKind::Table,
            vec!["room".to_string(), "during".to_string()],
            vec![exclusion_index("bookings_2024_room_excl", Some(true))],
        ),
    ]
}

fn relations() -> Vec<BaseRelation> {
    relations_with(Some(true), vec![BaseConstraint::new("bookings_pkey", true)])
}

fn partition() -> IndexPartitionEvidence {
    IndexPartitionEvidence::new(
        "primary",
        "policy:v1",
        "sha256:index-partition",
        "extractor-1",
        "2026-01-01T00:00:00Z",
        vec![
            IndexPartitionMembership::new(parent_index(), false, None),
            IndexPartitionMembership::new(child_index(), true, Some(parent_index())),
        ],
    )
}

fn root() -> IndexExclusionConstraintObservation {
    IndexExclusionConstraintObservation::root(parent_constraint(), parent_index()).unwrap()
}

fn attached() -> IndexExclusionConstraintObservation {
    IndexExclusionConstraintObservation::partition(child_constraint(), child_index(), parent_constraint(), false, 1).unwrap()
}

fn snapshot() -> IndexExclusionConstraintSnapshot {
    IndexExclusionConstraintSnapshot::new(&relations(), None, &partition(), vec![attached(), root()]).unwrap()
}

#[test]
fn exclusion_constraint_coordinate_validates_and_escapes() {
    assert_eq!(
        IndexExclusionConstraintCoordinate::new(" ", "bookings", RelationKind::Table, "c"),
        Err(invalid("index_exclusion_constraint_schema_name"))
    );
    assert_eq!(
        IndexExclusionConstraintCoordinate::new("public", "\t", RelationKind::Table, "c"),
        Err(invalid("index_exclusion_constraint_relation_name"))
    );
    assert_eq!(
        IndexExclusionConstraintCoordinate::new("public", "bookings", RelationKind::Table, ""),
        Err(invalid("index_exclusion_constraint_name"))
    );
    let coordinate =
        IndexExclusionConstraintCoordinate::new("a/b", "r~s", RelationKind::PartitionedTable, "no/overlap").unwrap();
    assert_eq!(
        coordinate.canonical_location(),
        "/schemas/a~1b/relations/partitioned_table/r~0s/constraints/no~1overlap/exclusion-partition-state"
    );
}

#[test]
fn exclusion_constraint_observation_rejects_bad_rows() {
    assert_eq!(
        IndexExclusionConstraintObservation::partition(child_constraint(), child_index(), parent_constraint(), false, -1),
        Err(invalid("index_exclusion_constraint_inheritance_count"))
    );
    assert_eq!(
        IndexExclusionConstraintObservation::root(child_constraint(), parent_index()),
        Err(invalid("index_exclusion_constraint_backing_index"))
    );
    assert_eq!(
        IndexExclusionConstraintObservation::partition(child_constraint(), child_index(), child_constraint(), false, 1),
        Err(invalid("index_exclusion_constraint_parent"))
    );
    let root = root();
    assert!(root.is_local());
    assert_eq!(root.inheritance_count(), 0);
    assert!(root.parent_constraint().is_none());
}

#[test]
fn exclusion_constraint_snapshot_accepts_root_and_attached_constraint() {
    let snapshot = snapshot();
    assert_eq!(snapshot.observations().len(), 2);
    assert_eq!(snapshot.observations()[0].coordinate(), &parent_constraint());
    assert_eq!(snapshot.observations()[1].coordinate(), &child_constraint());
    assert_eq!(snapshot.source_connection_key(), "primary");
    assert_eq!(snapshot.connection_policy_binding(), "policy:v1");
    assert_eq!(snapshot.extractor_revision(), "extractor-1");
    assert_eq!(snapshot.observed_at_utc(), "2026-01-01T00:00:00Z");
    assert!(snapshot.snapshot_digest().starts_with("sha256:"));
    assert_eq!(snapshot.snapshot_digest().len(), "sha256:".len() + 64);
    assert_ne!(snapshot.snapshot_digest(), "sha256:index-partition");
    let receipt = snapshot.source_receipt(child_constraint()).unwrap();
    assert_eq!(receipt.source_digest(), snapshot.snapshot_digest());
    assert_eq!(receipt.location().parent_constraint(), Some(&parent_constraint()));
    let unknown =
        IndexExclusionConstraintCoordinate::new("public", "bookings", RelationKind::PartitionedTable, "other").unwrap();
    assert_eq!(
        snapshot.source_receipt(unknown),
        Err(ObservationError::UnknownObservationLocation {
            location: "/schemas/public/relations/partitioned_table/bookings/constraints/other/exclusion-partition-state"
                .to_string()
        })
    );
}

#[test]
fn exclusion_constraint_snapshot_digest_ignores_supply_order() {
    let forward =
        IndexExclusionConstraintSnapshot::new(&relations(), None, &partition(), vec![root(), attached()]).unwrap();
    let backward =
        IndexExclusionConstraintSnapshot::new(&relations(), None, &partition(), vec![attached(), root()]).unwrap();
    assert_eq!(forward.snapshot_digest(), backward.snapshot_digest());
}

#[test]
fn exclusion_constraint_snapshot_rejects_duplicate_coordinate() {
    assert_eq!(
        IndexExclusionConstraintSnapshot::new(&relations(), None, &partition(), vec![root(), attached(), root()]),
        Err(invalid("index_exclusion_constraint_coordinate"))
    );
}

#[test]
fn exclusion_constraint_snapshot_rejects_name_collisions() {
    let colliding = relations_with(Some(true), vec![BaseConstraint::new("bookings_room_excl", false)]);
    assert_eq!(
        IndexExclusionConstraintSnapshot::new(&colliding, None, &partition(), vec![root(), attached()]),
        Err(ObservationError::DuplicateConstraintName {
            schema_name: "public".to_string(),
            table_name: "bookings".to_string(),
            constraint_name: "bookings_room_excl".to_string(),
        })
    );
    let not_null = vec![BaseNotNullConstraint::new(
        "public",
        "bookings_2024",
        RelationKind::Table,
        "bookings_2024_room_excl",
    )];
    assert_eq!(
        IndexExclusionConstraintSnapshot::new(&relations(), Some(&not_null), &partition(), vec![root(), attached()]),
        Err(ObservationError::DuplicateConstraintName {
            schema_name: "public".to_string(),
            table_name: "bookings_2024".to_string(),
            constraint_name: "bookings_2024_room_excl".to_string(),
        })
    );
    let only_parent = vec![relations().remove(0)];
    assert_eq!(
        IndexExclusionConstraintSnapshot::new(&only_parent, None, &partition(), vec![root(), attached()]),
        Err(invalid("index_exclusion_constraint_relation"))
    );
}

#[test]
fn exclusion_constraint_snapshot_requires_flags_and_completeness() {
    let missing_flags = relations_with(None, vec![]);
    assert_eq!(
        IndexExclusionConstraintSnapshot::new(&missing_flags, None, &partition(), vec![root(), attached()]),
        Err(invalid("index_exclusion_constraint_catalog_flags"))
    );
    assert_eq!(
        IndexExclusionConstraintSnapshot::new(&relations(), None, &partition(), vec![root()]),
        Err(invalid("index_exclusion_constraint_completeness"))
    );
}

#[test]
fn exclusion_constraint_snapshot_leaves_temporal_key_backing_indexes_out() {
    let temporal_key = relations_with(Some(true), vec![BaseConstraint::new("bookings_room_excl", true)]);
    let child_only = IndexPartitionEvidence::new(
        "primary",
        "policy:v1",
        "sha256:index-partition",
        "extractor-1",
        "2026-01-01T00:00:00Z",
        vec![IndexPartitionMembership::new(child_index(), true, None)],
    );
    let standalone =
        IndexExclusionConstraintObservation::root(child_constraint(), child_index()).unwrap();
    let snapshot = IndexExclusionConstraintSnapshot::new(&temporal_key, None, &child_only, vec![standalone]).unwrap();
    assert_eq!(snapshot.observations().len(), 1);
}

#[test]
fn exclusion_constraint_snapshot_checks_parentage_and_inheritance_state() {
    let detached = IndexExclusionConstraintObservation::root(child_constraint(), child_index()).unwrap();
    assert_eq!(
        IndexExclusionConstraintSnapshot::new(&relations(), None, &partition(), vec![root(), detached]),
        Err(invalid("index_exclusion_constraint_parentage"))
    );
    let local_child =
        IndexExclusionConstraintObservation::partition(child_constraint(), child_index(), parent_constraint(), true, 1)
            .unwrap();
    assert_eq!(
        IndexExclusionConstraintSnapshot::new(&relations(), None, &partition(), vec![root(), local_child]),
        Err(invalid("index_exclusion_constraint_inheritance_state"))
    );
    let no_memberships =
        IndexPartitionEvidence::new("primary", "policy:v1", "sha256:p", "extractor-1", "2026-01-01T00:00:00Z", vec![]);
    assert_eq!(
        IndexExclusionConstraintSnapshot::new(&relations(), None, &no_memberships, vec![root(), attached()]),
        Err(invalid("index_exclusion_constraint_backing_index"))
    );
    let plain_parent = relations_with(Some(false), vec![]);
    assert_eq!(
        IndexExclusionConstraintSnapshot::new(&plain_parent, None, &partition(), vec![attached()]),
        Err(invalid("index_exclusion_constraint_parent_index"))
    );
}

#[test]
fn no_inherit_snapshot_requires_every_constraint_once() {
    let constraints = snapshot();
    let layer = IndexExclusionConstraintNoInheritSnapshot::new(
        &constraints,
        vec![
            IndexExclusionConstraintNoInheritObservation::new(child_constraint(), false),
            IndexExclusionConstraintNoInheritObservation::new(parent_constraint(), true),
        ],
    )
    .unwrap();
    assert_eq!(layer.observations()[0].coordinate(), &parent_constraint());
    assert!(layer.observations()[0].no_inherit());
    assert_eq!(layer.source_connection_key(), constraints.source_connection_key());
    assert_ne!(layer.snapshot_digest(), constraints.snapshot_digest());
    let flipped = IndexExclusionConstraintNoInheritSnapshot::new(
        &constraints,
        vec![
            IndexExclusionConstraintNoInheritObservation::new(child_constraint(), true),
            IndexExclusionConstraintNoInheritObservation::new(parent_constraint(), true),
        ],
    )
    .unwrap();
    assert_ne!(layer.snapshot_digest(), flipped.snapshot_digest());
    assert_eq!(
        IndexExclusionConstraintNoInheritSnapshot::new(
            &constraints,
            vec![IndexExclusionConstraintNoInheritObservation::new(parent_constraint(), true)],
        ),
        Err(invalid("index_exclusion_constraint_no_inherit_completeness"))
    );
    assert_eq!(
        IndexExclusionConstraintNoInheritSnapshot::new(
            &constraints,
            vec![
                IndexExclusionConstraintNoInheritObservation::new(parent_constraint(), true),
                IndexExclusionConstraintNoInheritObservation::new(parent_constraint(), false),
            ],
        ),
        Err(invalid("index_exclusion_constraint_no_inherit_coordinate"))
    );
    let receipt = layer.source_receipt(parent_constraint()).unwrap();
    assert_eq!(receipt.source_digest(), layer.snapshot_digest());
    assert_eq!(
        IndexExclusionConstraintNoInheritObservation::new(parent_constraint(), true).canonical_location(),
        "/schemas/public/relations/partitioned_table/bookings/constraints/bookings_room_excl/exclusion-partition-state/no-inherit"
    );
}

#[test]
fn namespace_observation_requires_owning_schema() {
    assert_eq!(
        IndexExclusionConstraintNamespaceObservation::new(parent_constraint(), " "),
        Err(invalid("index_exclusion_constraint_namespace_name"))
    );
    assert_eq!(
        IndexExclusionConstraintNamespaceObservation::new(parent_constraint(), "audit"),
        Err(invalid("index_exclusion_constraint_namespace_state"))
    );
    let constraints = snapshot();
    let layer = IndexExclusionConstraintNamespaceSnapshot::new(
        &constraints,
        vec![
            IndexExclusionConstraintNamespaceObservation::new(parent_constraint(), "public").unwrap(),
            IndexExclusionConstraintNamespaceObservation::new(child_constraint(), "public").unwrap(),
        ],
    )
    .unwrap();
    assert_eq!(layer.observations()[1].constraint_schema_name(), "public");
    assert_eq!(
        layer.observations()[0].canonical_location(),
        "/schemas/public/relations/partitioned_table/bookings/constraints/bookings_room_excl/exclusion-partition-state/constraint-namespace"
    );
}

fn shape(coordinate: IndexExclusionConstraintCoordinate, check: bool) -> Result<IndexExclusionConstraintCatalogShapeObservation, ObservationError> {
    IndexExclusionConstraintCatalogShapeObservation::new(
        coordinate,
        'x',
        true,
        false,
        IndexExclusionConstraintForeignActionCodes::new(' ', ' ', ' '),
        IndexExclusionConstraintForeignPayloadPresence::new(false, false, [false, false, false], false),
        check,
    )
}

#[test]
fn catalog_shape_requires_exclusion_only_rows() {
    assert_eq!(shape(parent_constraint(), true), Err(invalid("index_exclusion_constraint_catalog_shape")));
    assert_eq!(
        IndexExclusionConstraintCatalogShapeObservation::new(
            parent_constraint(),
            'c',
            true,
            false,
            IndexExclusionConstraintForeignActionCodes::new(' ', ' ', ' '),
            IndexExclusionConstraintForeignPayloadPresence::new(false, false, [false, false, false], false),
            false,
        ),
        Err(invalid("index_exclusion_constraint_catalog_type"))
    );
    assert_eq!(
        IndexExclusionConstraintCatalogShapeObservation::new(
            parent_constraint(),
            'x',
            true,
            false,
            IndexExclusionConstraintForeignActionCodes::new('a', ' ', ' '),
            IndexExclusionConstraintForeignPayloadPresence::new(false, false, [false, false, false], false),
            false,
        ),
        Err(invalid("index_exclusion_constraint_catalog_shape"))
    );
    let constraints = snapshot();
    let layer = IndexExclusionConstraintCatalogShapeSnapshot::new(
        &constraints,
        vec![shape(child_constraint(), false).unwrap(), shape(parent_constraint(), false).unwrap()],
    )
    .unwrap();
    assert_eq!(layer.observations()[0].constraint_type_code(), 'x');
    assert!(layer.snapshot_digest().starts_with("sha256:"));
    assert_eq!(
        IndexExclusionConstraintCatalogShapeSnapshot::new(&constraints, vec![shape(child_constraint(), false).unwrap()]),
        Err(invalid("index_exclusion_constraint_catalog_shape_completeness"))
    );
}

use conceptweave_relation_partition::constraint_access_method::{
    IndexExclusionConstraintAccessMethodCapabilityObservation, IndexExclusionConstraintAccessMethodCapabilitySnapshot,
};

fn gist_relations() -> Vec<BaseRelation> {
    vec![
        BaseRelation::new(
            "public",
            "bookings",
            RelationKind::PartitionedTable,
            vec!["room".to_string()],
            vec![exclusion_index("bookings_room_excl", Some(true)).with_access_method("gist")],
        )
        .with_constraints(vec![BaseConstraint::new("bookings_pkey", true)]),
        BaseRelation::new(
            "public",
            "bookings_2024",
            RelationKind::Table,
            vec!["room".to_string()],
            vec![exclusion_index("bookings_2024_room_excl", Some(true)).with_access_method("gist")],
        ),
    ]
}

fn capability(
    coordinate: IndexExclusionConstraintCoordinate,
    index: IndexPartitionCoordinate,
    method: &str,
    can_exclude: bool,
) -> IndexExclusionConstraintAccessMethodCapabilityObservation {
    IndexExclusionConstraintAccessMethodCapabilityObservation::new(coordinate, index, method, can_exclude).unwrap()
}

#[test]
fn access_method_capability_binds_backing_index_and_method() {
    let relations = gist_relations();
    let constraints =
        IndexExclusionConstraintSnapshot::new(&relations, None, &partition(), vec![root(), attached()]).unwrap();
    let layer = IndexExclusionConstraintAccessMethodCapabilitySnapshot::new(
        &relations,
        None,
        &partition(),
        &constraints,
        vec![
            capability(child_constraint(), child_index(), "gist", true),
            capability(parent_constraint(), parent_index(), "gist", true),
        ],
    )
    .unwrap();
    assert_eq!(layer.observations()[0].coordinate(), &parent_constraint());
    assert_eq!(layer.observations()[0].access_method_name(), "gist");
    assert_eq!(layer.source_connection_key(), "primary");
    assert_ne!(layer.snapshot_digest(), constraints.snapshot_digest());
    assert_eq!(
        layer.observations()[1].canonical_location(),
        "/schemas/public/relations/table/bookings_2024/constraints/bookings_2024_room_excl/exclusion-partition-state/access-method-exclusion-capability"
    );
    assert!(layer.source_receipt(child_constraint()).unwrap().location().can_exclude());
}

#[test]
fn access_method_capability_refuses_wrong_method_state_and_rebinding() {
    let relations = gist_relations();
    let constraints =
        IndexExclusionConstraintSnapshot::new(&relations, None, &partition(), vec![root(), attached()]).unwrap();
    assert_eq!(
        IndexExclusionConstraintAccessMethodCapabilityObservation::new(parent_constraint(), parent_index(), " ", true),
        Err(invalid("index_exclusion_constraint_access_method_name"))
    );
    assert_eq!(
        IndexExclusionConstraintAccessMethodCapabilitySnapshot::new(
            &relations,
            None,
            &partition(),
            &constraints,
            vec![
                capability(parent_constraint(), parent_index(), "btree", true),
                capability(child_constraint(), child_index(), "gist", true),
            ],
        ),
        Err(invalid("index_exclusion_constraint_access_method_capability_binding"))
    );
    assert_eq!(
        IndexExclusionConstraintAccessMethodCapabilitySnapshot::new(
            &relations,
            None,
            &partition(),
            &constraints,
            vec![
                capability(parent_constraint(), parent_index(), "gist", false),
                capability(child_constraint(), child_index(), "gist", true),
            ],
        ),
        Err(invalid("index_exclusion_constraint_access_method_capability_state"))
    );
    assert_eq!(
        IndexExclusionConstraintAccessMethodCapabilitySnapshot::new(
            &relations,
            None,
            &partition(),
            &constraints,
            vec![capability(parent_constraint(), parent_index(), "gist", true)],
        ),
        Err(invalid("index_exclusion_constraint_access_method_capability_completeness"))
    );
    let other_partition = IndexPartitionEvidence::new(
        "primary",
        "policy:v1",
        "sha256:other-index-partition",
        "extractor-1",
        "2026-01-01T00:00:00Z",
        vec![
            IndexPartitionMembership::new(parent_index(), false, None),
            IndexPartitionMembership::new(child_index(), true, Some(parent_index())),
        ],
    );
    assert_eq!(
        IndexExclusionConstraintAccessMethodCapabilitySnapshot::new(
            &relations,
            None,
            &other_partition,
            &constraints,
            vec![
                capability(parent_constraint(), parent_index(), "gist", true),
                capability(child_constraint(), child_index(), "gist", true),
            ],
        ),
        Err(invalid("index_exclusion_constraint_access_method_capability_predecessor_binding"))
    );
}
