use conceptweave_relation_partition::catalog::{
    BaseColumn, BaseColumnCollation, BaseIndex, BaseRelation, ColumnTypeModifier, IndexPartitionCoordinate,
    IndexPartitionEvidence, IndexPartitionMembership, IssuedSnapshot, IssuedTypeModifiers, QualifiedCollationName,
    QualifiedTypeName, RelationKind,
};
use conceptweave_relation_partition::error::ObservationError;
use conceptweave_relation_partition::exclusion::IndexExclusionSemanticsSnapshot;
use conceptweave_relation_partition::expression_semantics::{
    CanonicalExpression, CanonicalExpressionField, CanonicalExpressionValue,
};
use conceptweave_relation_partition::expression_semantics_snapshot::{
    IndexExpressionSemanticsObservation, IndexExpressionSemanticsSnapshot, IndexPredicateSemanticsObservation,
};
use conceptweave_relation_partition::expression_var::{
    IndexExpressionRelationVarLocation, IndexExpressionRelationVarObservation, RelationVarRelationRole,
    RelationVarReturningType,
};
use conceptweave_relation_partition::expression_relation_var_schema::IndexExpressionRelationVarNodeSchemaSnapshot;
use conceptweave_relation_partition::expression_schema::IndexExpressionNodeSchemaSnapshot;
use conceptweave_relation_partition::relation_var_snapshot::IndexExpressionRelationVarSnapshot;

const OBSERVED_AT: &str = "2024-05-01T00:00:00Z";

fn invalid(field: &'static str) -> ObservationError {
    ObservationError::InvalidObservationField { field }
}

fn parent_index() -> IndexPartitionCoordinate {
    IndexPartitionCoordinate::new("public", "orders", RelationKind::PartitionedTable, "orders_lower_email_idx").unwrap()
}

fn child_index() -> IndexPartitionCoordinate {
    IndexPartitionCoordinate::new("public", "orders_2024", RelationKind::Table, "orders_2024_lower_email_idx").unwrap()
}

fn text_type() -> QualifiedTypeName {
    QualifiedTypeName::new("pg_catalog", "text").unwrap()
}

fn default_collation() -> QualifiedCollationName {
    QualifiedCollationName::new("pg_catalog", "default").unwrap()
}

fn lower_of(column: &str) -> CanonicalExpression {
    let args = CanonicalExpressionValue::ExpressionList(vec![CanonicalExpression::column(column).unwrap()]);
    CanonicalExpression::node("FuncExpr", vec![CanonicalExpressionField::new("args", args).unwrap()]).unwrap()
}

fn relation(name: &str, kind: RelationKind, index_name: &str) -> BaseRelation {
    BaseRelation::new(
        "public",
        name,
        kind,
        vec!["id".to_string(), "email".to_string()],
        vec![BaseIndex::new(index_name, vec![0], vec![1], false, Some(false))],
    )
    .with_columns(vec![
        BaseColumn::new("id", QualifiedTypeName::new("pg_catalog", "int8").unwrap()),
        BaseColumn::new("email", text_type()),
    ])
}

fn relations() -> Vec<BaseRelation> {
    vec![
        relation("orders", RelationKind::PartitionedTable, "orders_lower_email_idx"),
        relation("orders_2024", RelationKind::Table, "orders_2024_lower_email_idx"),
    ]
}

fn partition() -> IndexPartitionEvidence {
    IndexPartitionEvidence::new(
        "warehouse",
        "policy-7",
        "sha256:partition",
        "extractor-3",
        OBSERVED_AT,
        vec![
            IndexPartitionMembership::new(parent_index(), false, None),
            IndexPartitionMembership::new(child_index(), true, Some(parent_index())),
        ],
    )
}

fn families() -> IssuedSnapshot {
    IssuedSnapshot::new("warehouse", "policy-7", "sha256:families", "extractor-3", OBSERVED_AT)
}

fn exclusion_for(rels: &[BaseRelation], part: &IndexPartitionEvidence) -> IndexExclusionSemanticsSnapshot {
    IndexExclusionSemanticsSnapshot::new(&families(), rels, part, vec![]).unwrap()
}

fn expression_snapshot() -> IndexExpressionSemanticsSnapshot {
    IndexExpressionSemanticsSnapshot::new(
        &families(),
        &exclusion_for(&relations(), &partition()),
        &relations(),
        &partition(),
        vec![
            IndexExpressionSemanticsObservation::new(parent_index(), 1, lower_of("email")).unwrap(),
            IndexExpressionSemanticsObservation::new(child_index(), 1, lower_of("email")).unwrap(),
        ],
        vec![],
    )
    .unwrap()
}

fn type_modifiers(child_modifier: i32) -> IssuedTypeModifiers {
    IssuedTypeModifiers::new(
        "warehouse",
        "policy-7",
        "sha256:type-modifiers",
        "extractor-3",
        OBSERVED_AT,
        vec![
            ColumnTypeModifier::new("public", "orders", RelationKind::PartitionedTable, "email", -1),
            ColumnTypeModifier::new("public", "orders_2024", RelationKind::Table, "email", child_modifier),
        ],
    )
}

fn collations() -> Vec<BaseColumnCollation> {
    vec![
        BaseColumnCollation::new("public", "orders", RelationKind::PartitionedTable, "email", Some(default_collation())),
        BaseColumnCollation::new("public", "orders_2024", RelationKind::Table, "email", Some(default_collation())),
    ]
}

fn leaf(index: IndexPartitionCoordinate, column: &str, type_modifier: i32) -> IndexExpressionRelationVarObservation {
    IndexExpressionRelationVarObservation::new(
        IndexExpressionRelationVarLocation::expression(index, 1, 1).unwrap(),
        column,
        text_type(),
        type_modifier,
        Some(default_collation()),
        RelationVarRelationRole::IndexRelation,
        true,
        0,
        RelationVarReturningType::Default,
    )
    .unwrap()
}

fn leaves() -> Vec<IndexExpressionRelationVarObservation> {
    vec![leaf(child_index(), "email", -1), leaf(parent_index(), "email", -1)]
}

fn build(
    relations: &[BaseRelation],
    collations: Option<&[BaseColumnCollation]>,
    modifiers: &IssuedTypeModifiers,
    observations: Vec<IndexExpressionRelationVarObservation>,
) -> Result<IndexExpressionRelationVarSnapshot, ObservationError> {
    IndexExpressionRelationVarSnapshot::new(
        relations,
        collations,
        &partition(),
        &families(),
        &exclusion_for(relations, &partition()),
        expression_snapshot(),
        modifiers,
        observations,
    )
}

#[test]
fn relation_var_snapshot_accepts_complete_leaves() {
    let expression = expression_snapshot();
    let colls = collations();
    let snapshot = build(&relations(), Some(&colls), &type_modifiers(-1), leaves()).unwrap();
    assert_eq!(snapshot.observations().len(), 2);
    assert_eq!(snapshot.observations()[0].location().index(), &parent_index());
    assert_eq!(snapshot.observations()[1].location().index(), &child_index());
    assert_eq!(snapshot.source_connection_key(), "warehouse");
    assert_eq!(snapshot.connection_policy_binding(), "policy-7");
    assert_eq!(snapshot.extractor_revision(), "extractor-3");
    assert_eq!(snapshot.observed_at_utc(), OBSERVED_AT);
    assert!(snapshot.snapshot_digest().starts_with("sha256:"));
    assert_eq!(snapshot.snapshot_digest().len(), "sha256:".len() + 64);
    assert_ne!(snapshot.snapshot_digest(), expression.snapshot_digest());
}

#[test]
fn relation_var_supply_order_is_not_semantic() {
    let colls = collations();
    let first = build(&relations(), Some(&colls), &type_modifiers(-1), leaves()).unwrap();
    let mut reversed = leaves();
    reversed.reverse();
    let second = build(&relations(), Some(&colls), &type_modifiers(-1), reversed).unwrap();
    assert_eq!(first.snapshot_digest(), second.snapshot_digest());
    assert_eq!(first, second);
}

#[test]
fn relation_var_digest_depends_on_type_modifier_digest() {
    let colls = collations();
    let first = build(&relations(), Some(&colls), &type_modifiers(-1), leaves()).unwrap();
    let other = IssuedTypeModifiers::new(
        "warehouse",
        "policy-7",
        "sha256:other-type-modifiers",
        "extractor-3",
        OBSERVED_AT,
        vec![
            ColumnTypeModifier::new("public", "orders", RelationKind::PartitionedTable, "email", -1),
            ColumnTypeModifier::new("public", "orders_2024", RelationKind::Table, "email", -1),
        ],
    );
    let second = build(&relations(), Some(&colls), &other, leaves()).unwrap();
    assert_ne!(first.snapshot_digest(), second.snapshot_digest());
}

#[test]
fn relation_var_receipts_cover_observed_locations_only() {
    let colls = collations();
    let snapshot = build(&relations(), Some(&colls), &type_modifiers(-1), leaves()).unwrap();
    let location = IndexExpressionRelationVarLocation::expression(child_index(), 1, 1).unwrap();
    let receipt = snapshot.source_receipt(location.clone()).unwrap();
    assert_eq!(receipt.source_id(), "warehouse");
    assert_eq!(receipt.connection_policy_binding(), "policy-7");
    assert_eq!(receipt.source_digest(), snapshot.snapshot_digest());
    assert_eq!(receipt.extractor_revision(), "extractor-3");
    assert_eq!(receipt.observed_at_utc(), OBSERVED_AT);
    assert_eq!(receipt.location(), &location);

    let unknown = IndexExpressionRelationVarLocation::expression(child_index(), 1, 2).unwrap();
    let expected = unknown.canonical_location();
    assert_eq!(
        snapshot.source_receipt(unknown),
        Err(ObservationError::UnknownObservationLocation { location: expected })
    );
}

#[test]
fn relation_var_rejects_missing_and_repeated_leaves() {
    let colls = collations();
    let missing = vec![leaf(parent_index(), "email", -1)];
    assert_eq!(
        build(&relations(), Some(&colls), &type_modifiers(-1), missing),
        Err(invalid("index_expression_relation_var_completeness"))
    );
    let extra = vec![
        leaf(parent_index(), "email", -1),
        leaf(child_index(), "email", -1),
        IndexExpressionRelationVarObservation::new(
            IndexExpressionRelationVarLocation::expression(child_index(), 1, 2).unwrap(),
            "email",
            text_type(),
            -1,
            Some(default_collation()),
            RelationVarRelationRole::IndexRelation,
            true,
            0,
            RelationVarReturningType::Default,
        )
        .unwrap(),
    ];
    assert_eq!(
        build(&relations(), Some(&colls), &type_modifiers(-1), extra),
        Err(invalid("index_expression_relation_var_completeness"))
    );
    let repeated = vec![leaf(parent_index(), "email", -1), leaf(parent_index(), "email", -1), leaf(child_index(), "email", -1)];
    assert_eq!(
        build(&relations(), Some(&colls), &type_modifiers(-1), repeated),
        Err(invalid("index_expression_relation_var_coordinate"))
    );
}

#[test]
fn relation_var_rejects_wrong_column_and_type() {
    let colls = collations();
    let wrong_column = vec![leaf(parent_index(), "id", -1), leaf(child_index(), "email", -1)];
    assert_eq!(
        build(&relations(), Some(&colls), &type_modifiers(-1), wrong_column),
        Err(invalid("index_expression_relation_var_column"))
    );
    let mut wrong_type = leaves();
    wrong_type[1] = IndexExpressionRelationVarObservation::new(
        IndexExpressionRelationVarLocation::expression(parent_index(), 1, 1).unwrap(),
        "email",
        QualifiedTypeName::new("pg_catalog", "varchar").unwrap(),
        -1,
        Some(default_collation()),
        RelationVarRelationRole::IndexRelation,
        true,
        0,
        RelationVarReturningType::Default,
    )
    .unwrap();
    assert_eq!(
        build(&relations(), Some(&colls), &type_modifiers(-1), wrong_type),
        Err(invalid("index_expression_relation_var_value_type"))
    );
}

#[test]
fn relation_var_rejects_missing_owner_and_typed_column() {
    let colls = collations();
    let only_parent = vec![relation("orders", RelationKind::PartitionedTable, "orders_lower_email_idx")];
    assert_eq!(
        IndexExclusionSemanticsSnapshot::new(&families(), &only_parent, &partition(), vec![]).unwrap_err(),
        invalid("index_exclusion_semantics_index_binding")
    );
    let untyped = vec![
        BaseRelation::new(
            "public",
            "orders",
            RelationKind::PartitionedTable,
            vec!["id".to_string(), "email".to_string()],
            vec![BaseIndex::new("orders_lower_email_idx", vec![0], vec![1], false, Some(false))],
        ),
        relation("orders_2024", RelationKind::Table, "orders_2024_lower_email_idx"),
    ];
    assert_eq!(
        build(&untyped, Some(&colls), &type_modifiers(-1), leaves()),
        Err(invalid("index_expression_relation_var_column"))
    );
}

#[test]
fn relation_var_rejects_type_modifier_mismatches() {
    let colls = collations();
    let missing = IssuedTypeModifiers::new(
        "warehouse",
        "policy-7",
        "sha256:type-modifiers",
        "extractor-3",
        OBSERVED_AT,
        vec![ColumnTypeModifier::new("public", "orders", RelationKind::PartitionedTable, "email", -1)],
    );
    assert_eq!(
        build(&relations(), Some(&colls), &missing, leaves()),
        Err(invalid("index_expression_relation_var_type_modifier_evidence"))
    );
    assert_eq!(
        build(&relations(), Some(&colls), &type_modifiers(40), leaves()),
        Err(invalid("index_expression_relation_var_type_modifier"))
    );
}

#[test]
fn relation_var_rejects_collation_mismatches() {
    assert_eq!(
        build(&relations(), None, &type_modifiers(-1), leaves()),
        Err(invalid("index_expression_relation_var_column_collation_evidence"))
    );
    let partial = vec![BaseColumnCollation::new(
        "public",
        "orders",
        RelationKind::PartitionedTable,
        "email",
        Some(default_collation()),
    )];
    assert_eq!(
        build(&relations(), Some(&partial), &type_modifiers(-1), leaves()),
        Err(invalid("index_expression_relation_var_column_collation_evidence"))
    );
    let other = vec![
        BaseColumnCollation::new("public", "orders", RelationKind::PartitionedTable, "email", None),
        BaseColumnCollation::new("public", "orders_2024", RelationKind::Table, "email", Some(default_collation())),
    ];
    assert_eq!(
        build(&relations(), Some(&other), &type_modifiers(-1), leaves()),
        Err(invalid("index_expression_relation_var_collation"))
    );
}

#[test]
fn relation_var_rejects_child_leaf_that_differs_from_parent() {
    let colls = collations();
    let differing = vec![leaf(parent_index(), "email", -1), leaf(child_index(), "email", 40)];
    assert_eq!(
        build(&relations(), Some(&colls), &type_modifiers(40), differing),
        Err(invalid("index_expression_relation_var_attached_equivalence"))
    );
}

#[test]
fn relation_var_rejects_predecessors_from_other_sources() {
    let colls = collations();
    let foreign = IssuedTypeModifiers::new(
        "other-warehouse",
        "policy-7",
        "sha256:type-modifiers",
        "extractor-3",
        OBSERVED_AT,
        vec![],
    );
    assert_eq!(
        build(&relations(), Some(&colls), &foreign, leaves()),
        Err(invalid("index_expression_relation_var_predecessor_provenance"))
    );
}

#[test]
fn relation_var_rejects_whole_row_and_empty_evidence() {
    let table = IndexPartitionCoordinate::new("public", "events", RelationKind::Table, "events_row_idx").unwrap();
    let rels = vec![BaseRelation::new(
        "public",
        "events",
        RelationKind::Table,
        vec!["id".to_string()],
        vec![BaseIndex::new("events_row_idx", vec![0], vec![1], false, Some(false))],
    )];
    let part = IndexPartitionEvidence::new(
        "warehouse",
        "policy-7",
        "sha256:partition",
        "extractor-3",
        OBSERVED_AT,
        vec![IndexPartitionMembership::new(table.clone(), false, None)],
    );
    let whole_row = IndexExpressionSemanticsSnapshot::new(
        &families(),
        &exclusion_for(&rels, &part),
        &rels,
        &part,
        vec![IndexExpressionSemanticsObservation::new(table.clone(), 1, CanonicalExpression::whole_row()).unwrap()],
        vec![],
    )
    .unwrap();
    let colls: Vec<BaseColumnCollation> = vec![];
    let modifiers = type_modifiers(-1);
    assert_eq!(
        IndexExpressionRelationVarSnapshot::new(&rels, Some(&colls), &part, &families(), &exclusion_for(&rels, &part), whole_row, &modifiers, vec![]),
        Err(invalid("index_expression_relation_var_whole_row"))
    );

    let plain = vec![BaseRelation::new(
        "public",
        "events",
        RelationKind::Table,
        vec!["id".to_string()],
        vec![BaseIndex::new("events_id_idx", vec![1], vec![], false, Some(false))],
    )];
    let empty = IndexExpressionSemanticsSnapshot::new(&families(), &exclusion_for(&plain, &part), &plain, &part, vec![], vec![]).unwrap();
    assert_eq!(
        IndexExpressionRelationVarSnapshot::new(&plain, Some(&colls), &part, &families(), &exclusion_for(&plain, &part), empty, &modifiers, vec![]),
        Err(invalid("index_expression_relation_var_empty"))
    );
}

#[test]
fn relation_var_covers_predicate_leaves() {
    let table = IndexPartitionCoordinate::new("public", "events", RelationKind::Table, "events_open_idx").unwrap();
    let rels = vec![BaseRelation::new(
        "public",
        "events",
        RelationKind::Table,
        vec!["id".to_string(), "closed".to_string()],
        vec![BaseIndex::new("events_open_idx", vec![1], vec![], true, Some(false))],
    )
    .with_columns(vec![BaseColumn::new("closed", QualifiedTypeName::new("pg_catalog", "bool").unwrap())])];
    let part = IndexPartitionEvidence::new(
        "warehouse",
        "policy-7",
        "sha256:partition",
        "extractor-3",
        OBSERVED_AT,
        vec![IndexPartitionMembership::new(table.clone(), false, None)],
    );
    let not_closed = CanonicalExpression::node(
        "BoolExpr",
        vec![CanonicalExpressionField::new(
            "args",
            CanonicalExpressionValue::ExpressionList(vec![CanonicalExpression::column("closed").unwrap()]),
        )
        .unwrap()],
    )
    .unwrap();
    let expression = IndexExpressionSemanticsSnapshot::new(
        &families(),
        &exclusion_for(&rels, &part),
        &rels,
        &part,
        vec![],
        vec![IndexPredicateSemanticsObservation::new(table.clone(), not_closed).unwrap()],
    )
    .unwrap();
    let modifiers = IssuedTypeModifiers::new(
        "warehouse",
        "policy-7",
        "sha256:type-modifiers",
        "extractor-3",
        OBSERVED_AT,
        vec![ColumnTypeModifier::new("public", "events", RelationKind::Table, "closed", -1)],
    );
    let colls = vec![BaseColumnCollation::new("public", "events", RelationKind::Table, "closed", None)];
    let observation = IndexExpressionRelationVarObservation::new(
        IndexExpressionRelationVarLocation::predicate(table.clone(), 1).unwrap(),
        "closed",
        QualifiedTypeName::new("pg_catalog", "bool").unwrap(),
        -1,
        None,
        RelationVarRelationRole::IndexRelation,
        true,
        0,
        RelationVarReturningType::Default,
    )
    .unwrap();
    let snapshot =
        IndexExpressionRelationVarSnapshot::new(
            &rels,
            Some(&colls),
            &part,
            &families(),
            &exclusion_for(&rels, &part),
            expression,
            &modifiers,
            vec![observation],
        )
            .unwrap();
    assert_eq!(snapshot.observations().len(), 1);
    assert_eq!(snapshot.observations()[0].location().key_position(), None);
    assert_eq!(snapshot.observations()[0].location().leaf_position(), 1);
}

fn expression_observations() -> Vec<IndexExpressionSemanticsObservation> {
    vec![
        IndexExpressionSemanticsObservation::new(parent_index(), 1, lower_of("email")).unwrap(),
        IndexExpressionSemanticsObservation::new(child_index(), 1, lower_of("email")).unwrap(),
    ]
}

#[test]
fn expression_semantics_rebind_exclusion_evidence() {
    let other_families = IssuedSnapshot::new("warehouse", "policy-7", "sha256:other-families", "extractor-3", OBSERVED_AT);
    let foreign_exclusion = IndexExclusionSemanticsSnapshot::new(&other_families, &relations(), &partition(), vec![]).unwrap();
    assert_eq!(
        IndexExpressionSemanticsSnapshot::new(
            &families(),
            &foreign_exclusion,
            &relations(),
            &partition(),
            expression_observations(),
            vec![],
        )
        .unwrap_err(),
        invalid("index_expression_semantics_predecessor_binding")
    );
}

#[test]
fn relation_var_rebinds_expression_evidence() {
    let colls = collations();
    let other_families = IssuedSnapshot::new("warehouse", "policy-7", "sha256:other-families", "extractor-3", OBSERVED_AT);
    let foreign_exclusion = IndexExclusionSemanticsSnapshot::new(&other_families, &relations(), &partition(), vec![]).unwrap();
    let expression_over_other = IndexExpressionSemanticsSnapshot::new(
        &other_families,
        &foreign_exclusion,
        &relations(),
        &partition(),
        expression_observations(),
        vec![],
    )
    .unwrap();
    assert_eq!(
        IndexExpressionRelationVarSnapshot::new(
            &relations(),
            Some(&colls),
            &partition(),
            &families(),
            &exclusion_for(&relations(), &partition()),
            expression_over_other,
            &type_modifiers(-1),
            leaves(),
        )
        .unwrap_err(),
        invalid("index_expression_relation_var_expression_predecessor")
    );
}

fn column_expression_snapshot() -> IndexExpressionSemanticsSnapshot {
    IndexExpressionSemanticsSnapshot::new(
        &families(),
        &exclusion_for(&relations(), &partition()),
        &relations(),
        &partition(),
        vec![
            IndexExpressionSemanticsObservation::new(parent_index(), 1, CanonicalExpression::column("email").unwrap()).unwrap(),
            IndexExpressionSemanticsObservation::new(child_index(), 1, CanonicalExpression::column("email").unwrap()).unwrap(),
        ],
        vec![],
    )
    .unwrap()
}

fn column_relation_vars(modifiers: &IssuedTypeModifiers) -> IndexExpressionRelationVarSnapshot {
    IndexExpressionRelationVarSnapshot::new(
        &relations(),
        Some(&collations()),
        &partition(),
        &families(),
        &exclusion_for(&relations(), &partition()),
        column_expression_snapshot(),
        modifiers,
        leaves(),
    )
    .unwrap()
}

fn compose(
    node: &IndexExpressionNodeSchemaSnapshot,
    relation_vars: IndexExpressionRelationVarSnapshot,
) -> Result<IndexExpressionRelationVarNodeSchemaSnapshot, ObservationError> {
    IndexExpressionRelationVarNodeSchemaSnapshot::new(
        &relations(),
        Some(&collations()),
        &partition(),
        &families(),
        &exclusion_for(&relations(), &partition()),
        column_expression_snapshot(),
        &type_modifiers(-1),
        node,
        relation_vars,
    )
}

#[test]
fn composed_schema_rebinds_relation_var_evidence() {
    let node = IndexExpressionNodeSchemaSnapshot::new(&column_expression_snapshot()).unwrap();
    let relation_vars = column_relation_vars(&type_modifiers(-1));
    let relation_var_digest = relation_vars.snapshot_digest().to_string();
    let composed = compose(&node, relation_vars).unwrap();
    assert_eq!(composed.relation_var_predecessor_digest(), relation_var_digest);
    assert_eq!(composed.node_schema_predecessor_digest(), node.snapshot_digest());
    assert_eq!(composed.source_connection_key(), "warehouse");

    let other_modifiers = IssuedTypeModifiers::new(
        "warehouse",
        "policy-7",
        "sha256:other-type-modifiers",
        "extractor-3",
        OBSERVED_AT,
        vec![
            ColumnTypeModifier::new("public", "orders", RelationKind::PartitionedTable, "email", -1),
            ColumnTypeModifier::new("public", "orders_2024", RelationKind::Table, "email", -1),
        ],
    );
    let foreign = column_relation_vars(&other_modifiers);
    assert_eq!(compose(&node, foreign).unwrap_err(), invalid("index_expression_relation_var_predecessor"));
}
