//! Exclusion-constraint identity and partition inheritance state.
//!
//! Every index-backed `EXCLUDE` constraint is recorded by its relation-scoped coordinate, its
//! resolved backing index (`conindid`), its resolved parent constraint (`conparentid`) and its
//! `conislocal` / `coninhcount` state. A snapshot holds exactly one constraint per exclusion
//! backing index that no PRIMARY KEY or UNIQUE constraint of the relation owns, and every
//! attached constraint points at the constraint of its backing index's parent index.

use vstd::prelude::*;

use crate::catalog::{
    base_index_coordinate, coordinate_lt, frame_index, lemma_coordinate_lt_irreflexive, lemma_coordinate_lt_total,
    lemma_coordinate_lt_transitive, owning_relation, put_index, relation_kind_token, validate_nonblank, BaseConstraint,
    BaseIndex, BaseIndexView, BaseNotNullConstraint, BaseRelation, BaseRelationView, ConstraintCoordinateView,
    IndexCoordinateView, IndexPartitionCoordinate, IndexPartitionEvidence, IndexPartitionMembership, LineageView,
    MembershipView, RelationKind,
};
use crate::digest::{digest_text, finish_digest, frame_bool, frame_i16, frame_len, frame_str, put_bool, put_i16, put_len, put_raw, put_str, put_tag};
use crate::error::{fails_with, fails_with_text, invalid, ObservationError};
use crate::order::{compare_text, has_key_collision, same_elements, sort_by_key, sorted_by_key, strictly_sorted, text_eq, KeyOrder, SortKey};
use crate::text::{escape_json_pointer_token, is_blank, json_pointer_escape, push_text};
use vstd::utf8::encode_utf8;

verus! {

/// The coordinate order key of a constraint: its coordinate read as an index coordinate whose
/// last component is the constraint name.
pub open spec fn constraint_key(c: ConstraintCoordinateView) -> IndexCoordinateView {
    IndexCoordinateView {
        schema_name: c.schema_name,
        relation_name: c.relation_name,
        relation_kind: c.relation_kind,
        index_name: c.constraint_name,
    }
}

/// Order of constraint coordinates: schema, relation, relation-kind token, constraint name.
pub open spec fn constraint_lt(a: ConstraintCoordinateView, b: ConstraintCoordinateView) -> bool {
    coordinate_lt(constraint_key(a), constraint_key(b))
}

/// The governed location of an exclusion constraint.
pub open spec fn constraint_location(c: ConstraintCoordinateView) -> Seq<char> {
    "/schemas/"@ + json_pointer_escape(c.schema_name) + "/relations/"@ + relation_kind_token(c.relation_kind) + "/"@
        + json_pointer_escape(c.relation_name) + "/constraints/"@ + json_pointer_escape(c.constraint_name)
        + "/exclusion-partition-state"@
}

/// Exact relation-scoped coordinate of one PostgreSQL `EXCLUDE` constraint.
#[derive(Debug, PartialEq, Eq)]
pub struct IndexExclusionConstraintCoordinate {
    schema_name: String,
    relation_name: String,
    relation_kind: RelationKind,
    constraint_name: String,
}

impl View for IndexExclusionConstraintCoordinate {
    type V = ConstraintCoordinateView;

    closed spec fn view(&self) -> ConstraintCoordinateView {
        ConstraintCoordinateView {
            schema_name: self.schema_name@,
            relation_name: self.relation_name@,
            relation_kind: self.relation_kind,
            constraint_name: self.constraint_name@,
        }
    }
}

impl Clone for IndexExclusionConstraintCoordinate {
    fn clone(&self) -> (c: Self)
        ensures
            c@ == self@,
            c == *self,
    {
        IndexExclusionConstraintCoordinate {
            schema_name: self.schema_name.clone(),
            relation_name: self.relation_name.clone(),
            relation_kind: self.relation_kind,
            constraint_name: self.constraint_name.clone(),
        }
    }
}

impl IndexExclusionConstraintCoordinate {
    /// Creates one exact exclusion-constraint coordinate; every name must be non-blank.
    pub fn new(
        schema_name: &str,
        relation_name: &str,
        relation_kind: RelationKind,
        constraint_name: &str,
    ) -> (r: Result<Self, ObservationError>)
        ensures
            r is Ok <==> !is_blank(schema_name@) && !is_blank(relation_name@) && !is_blank(constraint_name@),
            r matches Ok(c) ==> c@ == (ConstraintCoordinateView {
                schema_name: schema_name@,
                relation_name: relation_name@,
                relation_kind,
                constraint_name: constraint_name@,
            }),
            is_blank(schema_name@) ==> fails_with(r, "index_exclusion_constraint_schema_name"),
            !is_blank(schema_name@) && is_blank(relation_name@) ==> fails_with(
                r,
                "index_exclusion_constraint_relation_name",
            ),
            !is_blank(schema_name@) && !is_blank(relation_name@) && is_blank(constraint_name@) ==> fails_with(
                r,
                "index_exclusion_constraint_name",
            ),
    {
        validate_nonblank(schema_name, "index_exclusion_constraint_schema_name")?;
        validate_nonblank(relation_name, "index_exclusion_constraint_relation_name")?;
        validate_nonblank(constraint_name, "index_exclusion_constraint_name")?;
        Ok(IndexExclusionConstraintCoordinate {
            schema_name: schema_name.to_owned(),
            relation_name: relation_name.to_owned(),
            relation_kind,
            constraint_name: constraint_name.to_owned(),
        })
    }

    /// Returns the exact source schema identifier.
    pub fn schema_name(&self) -> (s: &str)
        ensures
            s@ == self@.schema_name,
    {
        self.schema_name.as_str()
    }

    /// Returns the exact owning relation identifier.
    pub fn relation_name(&self) -> (s: &str)
        ensures
            s@ == self@.relation_name,
    {
        self.relation_name.as_str()
    }

    /// Returns the exact owning relation kind.
    pub fn relation_kind(&self) -> (k: RelationKind)
        ensures
            k == self@.relation_kind,
    {
        self.relation_kind
    }

    /// Returns the exact source constraint identifier.
    pub fn constraint_name(&self) -> (s: &str)
        ensures
            s@ == self@.constraint_name,
    {
        self.constraint_name.as_str()
    }

    /// Returns the collision-safe governed location of this exclusion constraint.
    pub fn canonical_location(&self) -> (s: String)
        ensures
            s@ == constraint_location(self@),
    {
        let mut out = String::new();
        proof {
            reveal_strlit("/schemas/");
            reveal_strlit("/relations/");
            reveal_strlit("/");
            reveal_strlit("/constraints/");
            reveal_strlit("/exclusion-partition-state");
        }
        push_text(&mut out, "/schemas/");
        let schema = escape_json_pointer_token(self.schema_name.as_str());
        push_text(&mut out, schema.as_str());
        push_text(&mut out, "/relations/");
        push_text(&mut out, self.relation_kind.token());
        push_text(&mut out, "/");
        let relation = escape_json_pointer_token(self.relation_name.as_str());
        push_text(&mut out, relation.as_str());
        push_text(&mut out, "/constraints/");
        let name = escape_json_pointer_token(self.constraint_name.as_str());
        push_text(&mut out, name.as_str());
        push_text(&mut out, "/exclusion-partition-state");
        out
    }

    /// Reports whether two coordinates are equal.
    pub fn same_as(&self, other: &Self) -> (b: bool)
        ensures
            b == (self@ == other@),
    {
        text_eq(self.schema_name.as_str(), other.schema_name.as_str()) && text_eq(
            self.relation_name.as_str(),
            other.relation_name.as_str(),
        ) && self.relation_kind == other.relation_kind && text_eq(
            self.constraint_name.as_str(),
            other.constraint_name.as_str(),
        )
    }

    /// Compares two coordinates in coordinate order.
    pub fn compare(&self, other: &Self) -> (o: KeyOrder)
        ensures
            (o == KeyOrder::Less) == constraint_lt(self@, other@),
            (o == KeyOrder::Greater) == constraint_lt(other@, self@),
            (o == KeyOrder::Equal) == (self@ == other@),
    {
        let schema = compare_text(self.schema_name.as_str(), other.schema_name.as_str());
        if schema != KeyOrder::Equal {
            return schema;
        }
        let relation = compare_text(self.relation_name.as_str(), other.relation_name.as_str());
        if relation != KeyOrder::Equal {
            return relation;
        }
        let kind = compare_text(self.relation_kind.token(), other.relation_kind.token());
        if kind != KeyOrder::Equal {
            return kind;
        }
        proof {
            assert(self.relation_kind == other.relation_kind) by {
                reveal_strlit("table");
                reveal_strlit("partitioned_table");
                if self.relation_kind != other.relation_kind {
                    assert(relation_kind_token(self.relation_kind).len() != relation_kind_token(other.relation_kind).len());
                }
            }
        }
        compare_text(self.constraint_name.as_str(), other.constraint_name.as_str())
    }
}

/// Two different constraint coordinates have different order keys.
pub proof fn lemma_constraint_key_injective(a: ConstraintCoordinateView, b: ConstraintCoordinateView)
    ensures
        (constraint_key(a) == constraint_key(b)) == (a == b),
{
}

} // verus!

verus! {

/// The value of one exclusion-constraint observation.
pub struct ExclusionConstraintView {
    pub coordinate: ConstraintCoordinateView,
    pub backing_index: IndexCoordinateView,
    pub parent_constraint: Option<ConstraintCoordinateView>,
    pub is_local: bool,
    pub inheritance_count: i16,
}

/// The field refused by the observation constructor, or `None` when the observation is accepted:
/// a negative inheritance count, a backing index of another relation, then a constraint that
/// names itself as its parent.
pub open spec fn constraint_observation_error(
    coordinate: ConstraintCoordinateView,
    backing_index: IndexCoordinateView,
    parent_constraint: Option<ConstraintCoordinateView>,
    inheritance_count: i16,
) -> Option<Seq<char>> {
    if inheritance_count < 0 {
        Some("index_exclusion_constraint_inheritance_count"@)
    } else if coordinate.schema_name != backing_index.schema_name || coordinate.relation_name
        != backing_index.relation_name || coordinate.relation_kind != backing_index.relation_kind {
        Some("index_exclusion_constraint_backing_index"@)
    } else if parent_constraint == Some(coordinate) {
        Some("index_exclusion_constraint_parent"@)
    } else {
        None
    }
}

/// Exact `pg_constraint` state for one index-backed `EXCLUDE` constraint.
#[derive(Debug, PartialEq, Eq)]
pub struct IndexExclusionConstraintObservation {
    coordinate: IndexExclusionConstraintCoordinate,
    backing_index: IndexPartitionCoordinate,
    parent_constraint: Option<IndexExclusionConstraintCoordinate>,
    is_local: bool,
    inheritance_count: i16,
}

/// The view of an optional constraint coordinate.
pub open spec fn optional_constraint_view(c: Option<IndexExclusionConstraintCoordinate>) -> Option<ConstraintCoordinateView> {
    match c {
        Some(p) => Some(p@),
        None => None,
    }
}

impl View for IndexExclusionConstraintObservation {
    type V = ExclusionConstraintView;

    closed spec fn view(&self) -> ExclusionConstraintView {
        ExclusionConstraintView {
            coordinate: self.coordinate@,
            backing_index: self.backing_index@,
            parent_constraint: optional_constraint_view(self.parent_constraint),
            is_local: self.is_local,
            inheritance_count: self.inheritance_count,
        }
    }
}

impl Clone for IndexExclusionConstraintObservation {
    fn clone(&self) -> (c: Self)
        ensures
            c@ == self@,
            c == *self,
    {
        let parent_constraint = match &self.parent_constraint {
            Some(p) => Some(p.clone()),
            None => None,
        };
        IndexExclusionConstraintObservation {
            coordinate: self.coordinate.clone(),
            backing_index: self.backing_index.clone(),
            parent_constraint,
            is_local: self.is_local,
            inheritance_count: self.inheritance_count,
        }
    }
}

impl IndexExclusionConstraintObservation {
    /// Records a root exclusion constraint and its exact resolved `conindid` backing index: it is
    /// local and inherited from nowhere.
    pub fn root(coordinate: IndexExclusionConstraintCoordinate, backing_index: IndexPartitionCoordinate) -> (r: Result<
        Self,
        ObservationError,
    >)
        ensures
            r is Ok <==> constraint_observation_error(coordinate@, backing_index@, None, 0) is None,
            r is Err ==> fails_with_text(r, constraint_observation_error(coordinate@, backing_index@, None, 0)->0),
            r matches Ok(o) ==> o@ == (ExclusionConstraintView {
                coordinate: coordinate@,
                backing_index: backing_index@,
                parent_constraint: None,
                is_local: true,
                inheritance_count: 0,
            }),
    {
        Self::new(coordinate, backing_index, None, true, 0)
    }

    /// Records an attached exclusion constraint with exact `conindid` and `conparentid`
    /// resolution and its observed `conislocal` and `coninhcount`.
    pub fn partition(
        coordinate: IndexExclusionConstraintCoordinate,
        backing_index: IndexPartitionCoordinate,
        parent_constraint: IndexExclusionConstraintCoordinate,
        is_local: bool,
        inheritance_count: i16,
    ) -> (r: Result<Self, ObservationError>)
        ensures
            r is Ok <==> constraint_observation_error(coordinate@, backing_index@, Some(parent_constraint@), inheritance_count)
                is None,
            r is Err ==> fails_with_text(
                r,
                constraint_observation_error(coordinate@, backing_index@, Some(parent_constraint@), inheritance_count)->0,
            ),
            r matches Ok(o) ==> o@ == (ExclusionConstraintView {
                coordinate: coordinate@,
                backing_index: backing_index@,
                parent_constraint: Some(parent_constraint@),
                is_local,
                inheritance_count,
            }),
    {
        Self::new(coordinate, backing_index, Some(parent_constraint), is_local, inheritance_count)
    }

    fn new(
        coordinate: IndexExclusionConstraintCoordinate,
        backing_index: IndexPartitionCoordinate,
        parent_constraint: Option<IndexExclusionConstraintCoordinate>,
        is_local: bool,
        inheritance_count: i16,
    ) -> (r: Result<Self, ObservationError>)
        ensures
            r is Ok <==> constraint_observation_error(
                coordinate@,
                backing_index@,
                optional_constraint_view(parent_constraint),
                inheritance_count,
            ) is None,
            r is Err ==> fails_with_text(
                r,
                constraint_observation_error(
                    coordinate@,
                    backing_index@,
                    optional_constraint_view(parent_constraint),
                    inheritance_count,
                )->0,
            ),
            r matches Ok(o) ==> o@ == (ExclusionConstraintView {
                coordinate: coordinate@,
                backing_index: backing_index@,
                parent_constraint: optional_constraint_view(parent_constraint),
                is_local,
                inheritance_count,
            }),
    {
        if inheritance_count < 0 {
            return Err(invalid("index_exclusion_constraint_inheritance_count"));
        }
        if !text_eq(coordinate.schema_name(), backing_index.schema_name()) || !text_eq(
            coordinate.relation_name(),
            backing_index.relation_name(),
        ) || coordinate.relation_kind() != backing_index.relation_kind() {
            return Err(invalid("index_exclusion_constraint_backing_index"));
        }
        let names_itself = match &parent_constraint {
            Some(parent) => parent.same_as(&coordinate),
            None => false,
        };
        if names_itself {
            return Err(invalid("index_exclusion_constraint_parent"));
        }
        Ok(IndexExclusionConstraintObservation {
            coordinate,
            backing_index,
            parent_constraint,
            is_local,
            inheritance_count,
        })
    }

    /// Returns the exact exclusion-constraint coordinate.
    pub fn coordinate(&self) -> (c: &IndexExclusionConstraintCoordinate)
        ensures
            c@ == self@.coordinate,
    {
        &self.coordinate
    }

    /// Returns the exact resolved `pg_constraint.conindid` backing-index coordinate.
    pub fn backing_index(&self) -> (c: &IndexPartitionCoordinate)
        ensures
            c@ == self@.backing_index,
    {
        &self.backing_index
    }

    /// Returns the exact resolved parent constraint, or `None` for `conparentid = 0`.
    pub fn parent_constraint(&self) -> (p: Option<&IndexExclusionConstraintCoordinate>)
        ensures
            match p {
                Some(c) => self@.parent_constraint == Some(c@),
                None => self@.parent_constraint is None,
            },
    {
        match &self.parent_constraint {
            Some(p) => Some(p),
            None => None,
        }
    }

    /// Returns observed `pg_constraint.conislocal`.
    pub fn is_local(&self) -> (b: bool)
        ensures
            b == self@.is_local,
    {
        self.is_local
    }

    /// Returns observed `pg_constraint.coninhcount`.
    pub fn inheritance_count(&self) -> (n: i16)
        ensures
            n == self@.inheritance_count,
    {
        self.inheritance_count
    }
}

impl SortKey for IndexExclusionConstraintObservation {
    open spec fn key_lt(self, other: Self) -> bool {
        constraint_lt(self@.coordinate, other@.coordinate)
    }

    proof fn lemma_key_lt_transitive(a: Self, b: Self, c: Self) {
        lemma_coordinate_lt_transitive(constraint_key(a@.coordinate), constraint_key(b@.coordinate), constraint_key(c@.coordinate));
    }

    proof fn lemma_key_lt_irreflexive(a: Self) {
        lemma_coordinate_lt_irreflexive(constraint_key(a@.coordinate));
    }

    fn compare_key(&self, other: &Self) -> (o: KeyOrder) {
        proof {
            lemma_coordinate_lt_irreflexive(constraint_key(self@.coordinate));
        }
        self.coordinate.compare(&other.coordinate)
    }
}

/// Immutable provenance receipt for one exclusion-constraint catalog observation.
#[derive(Debug, PartialEq, Eq)]
pub struct IndexExclusionConstraintSourceReceipt {
    source_id: String,
    connection_policy_binding: String,
    source_digest: String,
    extractor_revision: String,
    observed_at_utc: String,
    location: IndexExclusionConstraintObservation,
}

impl IndexExclusionConstraintSourceReceipt {
    /// The provenance carried by this receipt.
    pub closed spec fn lineage(&self) -> LineageView {
        LineageView {
            source_connection_key: self.source_id@,
            connection_policy_binding: self.connection_policy_binding@,
            snapshot_digest: self.source_digest@,
            extractor_revision: self.extractor_revision@,
            observed_at_utc: self.observed_at_utc@,
        }
    }

    /// The observation covered by this receipt.
    pub closed spec fn location_view(&self) -> ExclusionConstraintView {
        self.location@
    }

    /// Returns the stable source registry key, never credential material.
    pub fn source_id(&self) -> (s: &str)
        ensures
            s@ == self.lineage().source_connection_key,
    {
        self.source_id.as_str()
    }

    /// Returns the immutable source-policy binding.
    pub fn connection_policy_binding(&self) -> (s: &str)
        ensures
            s@ == self.lineage().connection_policy_binding,
    {
        self.connection_policy_binding.as_str()
    }

    /// Returns the owner-computed exclusion-constraint successor digest.
    pub fn source_digest(&self) -> (s: &str)
        ensures
            s@ == self.lineage().snapshot_digest,
    {
        self.source_digest.as_str()
    }

    /// Returns the exact extractor revision inherited from the predecessor stack.
    pub fn extractor_revision(&self) -> (s: &str)
        ensures
            s@ == self.lineage().extractor_revision,
    {
        self.extractor_revision.as_str()
    }

    /// Returns the exact canonical observation time inherited from the predecessor stack.
    pub fn observed_at_utc(&self) -> (s: &str)
        ensures
            s@ == self.lineage().observed_at_utc,
    {
        self.observed_at_utc.as_str()
    }

    /// Returns the exact exclusion-constraint catalog observation.
    pub fn location(&self) -> (o: &IndexExclusionConstraintObservation)
        ensures
            o@ == self.location_view(),
    {
        &self.location
    }
}

} // verus!

verus! {

/// The observation values of a sequence of observations.
pub open spec fn constraint_views(s: Seq<IndexExclusionConstraintObservation>) -> Seq<ExclusionConstraintView> {
    s.map_values(|o: IndexExclusionConstraintObservation| o@)
}

/// The first base relation with the constraint's owning schema, relation name and kind.
pub open spec fn relation_of_constraint(rels: Seq<BaseRelationView>, c: ConstraintCoordinateView) -> Option<BaseRelationView> {
    owning_relation(rels, constraint_key(c))
}

/// The relation already has a table constraint of that name.
pub open spec fn relation_names_constraint(r: BaseRelationView, name: Seq<char>) -> bool {
    exists|k: int| 0 <= k < r.constraints.len() && (#[trigger] r.constraints[k]).constraint_name == name
}

/// A captured NOT NULL constraint has exactly that coordinate.
pub open spec fn not_null_names_constraint(not_null: Option<Seq<ConstraintCoordinateView>>, c: ConstraintCoordinateView) -> bool {
    match not_null {
        Some(s) => s.contains(c),
        None => false,
    }
}

/// 1 when the owning relation is missing, 2 when the constraint name is already used by the
/// relation or by one of its NOT NULL constraints, 0 otherwise.
pub open spec fn name_collision_code(
    rels: Seq<BaseRelationView>,
    not_null: Option<Seq<ConstraintCoordinateView>>,
    c: ConstraintCoordinateView,
) -> int {
    match relation_of_constraint(rels, c) {
        None => 1,
        Some(r) => if relation_names_constraint(r, c.constraint_name) || not_null_names_constraint(not_null, c) {
            2
        } else {
            0
        },
    }
}

/// The first observation, in the given order, whose name is refused.
pub open spec fn first_name_collision(
    rels: Seq<BaseRelationView>,
    not_null: Option<Seq<ConstraintCoordinateView>>,
    obs: Seq<ExclusionConstraintView>,
) -> Option<ConstraintCoordinateView>
    decreases obs.len(),
{
    if obs.len() == 0 {
        None
    } else if name_collision_code(rels, not_null, obs[0].coordinate) != 0 {
        Some(obs[0].coordinate)
    } else {
        first_name_collision(rels, not_null, obs.drop_first())
    }
}

/// The NOT NULL constraint values, when they were captured.
pub open spec fn not_null_views(not_null: Option<Seq<BaseNotNullConstraint>>) -> Option<Seq<ConstraintCoordinateView>> {
    match not_null {
        Some(s) => Some(s.map_values(|c: BaseNotNullConstraint| c@)),
        None => None,
    }
}

fn find_constraint_relation<'a>(rels: &'a [BaseRelation], c: &IndexExclusionConstraintCoordinate) -> (r: Option<&'a BaseRelation>)
    ensures
        match r {
            Some(x) => relation_of_constraint(rels@.map_values(|b: BaseRelation| b@), c@) == Some(x@),
            None => relation_of_constraint(rels@.map_values(|b: BaseRelation| b@), c@) is None,
        },
{
    let ghost views = rels@.map_values(|b: BaseRelation| b@);
    let ghost key = constraint_key(c@);
    let mut i: usize = 0;
    assert(views.skip(0) =~= views);
    while i < rels.len()
        invariant
            i <= rels@.len(),
            views == rels@.map_values(|b: BaseRelation| b@),
            key == constraint_key(c@),
            owning_relation(views, key) == owning_relation(views.skip(i as int), key),
        decreases rels@.len() - i,
    {
        assert(views.skip(i as int)[0] == rels@[i as int]@);
        assert(views.skip(i as int).drop_first() =~= views.skip(i + 1));
        let rel = &rels[i];
        if text_eq(rel.schema_name(), c.schema_name()) && text_eq(rel.relation_name(), c.relation_name())
            && rel.relation_kind() == c.relation_kind() {
            return Some(rel);
        }
        i = i + 1;
    }
    None
}

fn relation_has_constraint_named(rel: &BaseRelation, name: &str) -> (b: bool)
    ensures
        b == relation_names_constraint(rel@, name@),
{
    let constraints = rel.constraints();
    let ghost views = rel@.constraints;
    let mut k: usize = 0;
    while k < constraints.len()
        invariant
            k <= constraints@.len(),
            constraints@.map_values(|x: BaseConstraint| x@) == views,
            views == rel@.constraints,
            forall|j: int| 0 <= j < k ==> (#[trigger] views[j]).constraint_name != name@,
        decreases constraints@.len() - k,
    {
        assert(views[k as int] == constraints@[k as int]@);
        if text_eq(constraints[k].constraint_name(), name) {
            assert(views[k as int].constraint_name == name@);
            return true;
        }
        k = k + 1;
    }
    false
}

fn not_null_has_constraint(constraints: &[BaseNotNullConstraint], c: &IndexExclusionConstraintCoordinate) -> (b: bool)
    ensures
        b == constraints@.map_values(|x: BaseNotNullConstraint| x@).contains(c@),
{
    let ghost views = constraints@.map_values(|x: BaseNotNullConstraint| x@);
    let mut k: usize = 0;
    while k < constraints.len()
        invariant
            k <= constraints@.len(),
            views == constraints@.map_values(|x: BaseNotNullConstraint| x@),
            forall|j: int| 0 <= j < k ==> views[j] != c@,
        decreases constraints@.len() - k,
    {
        assert(views[k as int] == constraints@[k as int]@);
        if constraints[k].is_at(c.schema_name(), c.relation_name(), c.relation_kind(), c.constraint_name()) {
            assert(views[k as int] == c@);
            return true;
        }
        k = k + 1;
    }
    false
}

/// Holds when `result` failed with exactly the duplicate-name error for `c`.
pub open spec fn fails_with_duplicate_name<T>(result: Result<T, ObservationError>, c: ConstraintCoordinateView) -> bool {
    result matches Err(ObservationError::DuplicateConstraintName { schema_name, table_name, constraint_name })
        && schema_name@ == c.schema_name && table_name@ == c.relation_name && constraint_name@ == c.constraint_name
}

fn reject_constraint_name_collisions(
    relations: &[BaseRelation],
    not_null: Option<&[BaseNotNullConstraint]>,
    observations: &[IndexExclusionConstraintObservation],
) -> (r: Result<(), ObservationError>)
    ensures
        ({
            let rels = relations@.map_values(|b: BaseRelation| b@);
            let nn = match not_null {
                Some(s) => Some(s@.map_values(|x: BaseNotNullConstraint| x@)),
                None => None,
            };
            let first = first_name_collision(rels, nn, constraint_views(observations@));
            &&& r is Ok <==> first is None
            &&& first matches Some(c) ==> {
                if name_collision_code(rels, nn, c) == 1 {
                    fails_with(r, "index_exclusion_constraint_relation")
                } else {
                    fails_with_duplicate_name(r, c)
                }
            }
        }),
{
    let ghost rels = relations@.map_values(|b: BaseRelation| b@);
    let ghost nn = match not_null {
        Some(s) => Some(s@.map_values(|x: BaseNotNullConstraint| x@)),
        None => None,
    };
    let ghost views = constraint_views(observations@);
    let mut i: usize = 0;
    assert(views.skip(0) =~= views);
    while i < observations.len()
        invariant
            i <= observations@.len(),
            rels == relations@.map_values(|b: BaseRelation| b@),
            nn == (match not_null {
                Some(s) => Some(s@.map_values(|x: BaseNotNullConstraint| x@)),
                None => None,
            }),
            views == constraint_views(observations@),
            first_name_collision(rels, nn, views) == first_name_collision(rels, nn, views.skip(i as int)),
        decreases observations@.len() - i,
    {
        assert(views.skip(i as int)[0] == observations@[i as int]@);
        assert(views.skip(i as int).drop_first() =~= views.skip(i + 1));
        let coordinate = observations[i].coordinate();
        let relation = match find_constraint_relation(relations, coordinate) {
            Some(r) => r,
            None => {
                return Err(invalid("index_exclusion_constraint_relation"));
            },
        };
        let relation_collision = relation_has_constraint_named(relation, coordinate.constraint_name());
        let not_null_collision = match not_null {
            Some(constraints) => not_null_has_constraint(constraints, coordinate),
            None => false,
        };
        if relation_collision || not_null_collision {
            return Err(
                ObservationError::DuplicateConstraintName {
                    schema_name: coordinate.schema_name().to_owned(),
                    table_name: coordinate.relation_name().to_owned(),
                    constraint_name: coordinate.constraint_name().to_owned(),
                },
            );
        }
        i = i + 1;
    }
    Ok(())
}

} // verus!

verus! {

/// A PRIMARY KEY or UNIQUE constraint of the relation has the index's name, so the index backs
/// a (temporal) key constraint rather than an `EXCLUDE` constraint.
pub open spec fn key_constraint_owns(r: BaseRelationView, index_name: Seq<char>) -> bool {
    exists|k: int| 0 <= k < r.constraints.len() && (#[trigger] r.constraints[k]).is_key && r.constraints[k].constraint_name
        == index_name
}

/// The index is an exclusion index that backs no key constraint.
pub open spec fn backs_exclusion_constraint(r: BaseRelationView, i: BaseIndexView) -> bool {
    i.exclusion == Some(true) && !key_constraint_owns(r, i.index_name)
}

/// 1 when the index's catalog flags were not captured; 2, 3 or 4 when the index backs an
/// exclusion constraint but its schema, relation or index name is blank; 0 otherwise.
pub open spec fn index_backing_code(r: BaseRelationView, i: BaseIndexView) -> int {
    if i.exclusion is None {
        1
    } else if !backs_exclusion_constraint(r, i) {
        0
    } else if is_blank(r.schema_name) {
        2
    } else if is_blank(r.relation_name) {
        3
    } else if is_blank(i.index_name) {
        4
    } else {
        0
    }
}

/// The first non-zero backing code over the relation's indexes, in order.
pub open spec fn first_index_backing_code(r: BaseRelationView, idxs: Seq<BaseIndexView>) -> int
    decreases idxs.len(),
{
    if idxs.len() == 0 {
        0
    } else if index_backing_code(r, idxs[0]) != 0 {
        index_backing_code(r, idxs[0])
    } else {
        first_index_backing_code(r, idxs.drop_first())
    }
}

/// The first non-zero backing code over every relation and index, in order.
pub open spec fn first_backing_code(rels: Seq<BaseRelationView>) -> int
    decreases rels.len(),
{
    if rels.len() == 0 {
        0
    } else if first_index_backing_code(rels[0], rels[0].indexes) != 0 {
        first_index_backing_code(rels[0], rels[0].indexes)
    } else {
        first_backing_code(rels.drop_first())
    }
}

/// The field reported for a non-zero backing code.
pub open spec fn backing_field(code: int) -> Seq<char> {
    if code == 1 {
        "index_exclusion_constraint_catalog_flags"@
    } else if code == 2 {
        "index_schema_name"@
    } else if code == 3 {
        "index_relation_name"@
    } else {
        "index_name"@
    }
}

pub(crate) fn has_key_constraint_named(rel: &BaseRelation, name: &str) -> (b: bool)
    ensures
        b == key_constraint_owns(rel@, name@),
{
    let constraints = rel.constraints();
    let ghost views = rel@.constraints;
    let mut k: usize = 0;
    while k < constraints.len()
        invariant
            k <= constraints@.len(),
            constraints@.map_values(|x: BaseConstraint| x@) == views,
            views == rel@.constraints,
            forall|j: int| 0 <= j < k ==> !((#[trigger] views[j]).is_key && views[j].constraint_name == name@),
        decreases constraints@.len() - k,
    {
        assert(views[k as int] == constraints@[k as int]@);
        if constraints[k].is_key() && text_eq(constraints[k].constraint_name(), name) {
            assert(views[k as int].is_key && views[k as int].constraint_name == name@);
            return true;
        }
        k = k + 1;
    }
    false
}

fn index_backs_exclusion_constraint(rel: &BaseRelation, idx: &BaseIndex) -> (b: bool)
    ensures
        b == backs_exclusion_constraint(rel@, idx@),
{
    match idx.exclusion() {
        Some(true) => !has_key_constraint_named(rel, idx.index_name()),
        _ => false,
    }
}

fn check_index_backing(rel: &BaseRelation, idx: &BaseIndex) -> (r: Result<(), ObservationError>)
    ensures
        r is Ok <==> index_backing_code(rel@, idx@) == 0,
        r is Err ==> fails_with_text(r, backing_field(index_backing_code(rel@, idx@))),
{
    if idx.exclusion().is_none() {
        return Err(invalid("index_exclusion_constraint_catalog_flags"));
    }
    if index_backs_exclusion_constraint(rel, idx) {
        let coordinate = IndexPartitionCoordinate::new(
            rel.schema_name(),
            rel.relation_name(),
            rel.relation_kind(),
            idx.index_name(),
        );
        if let Err(e) = coordinate {
            return Err(e);
        }
    }
    Ok(())
}

fn check_relation_backing(rel: &BaseRelation) -> (r: Result<(), ObservationError>)
    ensures
        r is Ok <==> first_index_backing_code(rel@, rel@.indexes) == 0,
        r is Err ==> fails_with_text(r, backing_field(first_index_backing_code(rel@, rel@.indexes))),
{
    let idxs = rel.indexes();
    let ghost views = rel@.indexes;
    let mut b: usize = 0;
    assert(views.skip(0) =~= views);
    while b < idxs.len()
        invariant
            b <= idxs@.len(),
            idxs@.map_values(|x: BaseIndex| x@) == views,
            views == rel@.indexes,
            first_index_backing_code(rel@, views) == first_index_backing_code(rel@, views.skip(b as int)),
        decreases idxs@.len() - b,
    {
        assert(views.skip(b as int)[0] == idxs@[b as int]@);
        assert(views.skip(b as int).drop_first() =~= views.skip(b + 1));
        check_index_backing(rel, &idxs[b])?;
        b = b + 1;
    }
    Ok(())
}

fn check_backing_indexes(relations: &[BaseRelation]) -> (r: Result<(), ObservationError>)
    ensures
        r is Ok <==> first_backing_code(relations@.map_values(|b: BaseRelation| b@)) == 0,
        r is Err ==> fails_with_text(r, backing_field(first_backing_code(relations@.map_values(|b: BaseRelation| b@)))),
{
    let ghost rels = relations@.map_values(|b: BaseRelation| b@);
    let mut a: usize = 0;
    assert(rels.skip(0) =~= rels);
    while a < relations.len()
        invariant
            a <= relations@.len(),
            rels == relations@.map_values(|b: BaseRelation| b@),
            first_backing_code(rels) == first_backing_code(rels.skip(a as int)),
        decreases relations@.len() - a,
    {
        assert(rels.skip(a as int)[0] == relations@[a as int]@);
        assert(rels.skip(a as int).drop_first() =~= rels.skip(a + 1));
        check_relation_backing(&relations[a])?;
        a = a + 1;
    }
    Ok(())
}

} // verus!

verus! {

/// The base snapshot has an exclusion index at `c` that backs no key constraint.
pub open spec fn expects_backing(rels: Seq<BaseRelationView>, c: IndexCoordinateView) -> bool {
    exists|a: int, b: int|
        0 <= a < rels.len() && 0 <= b < rels[a].indexes.len() && backs_exclusion_constraint(
            rels[a],
            #[trigger] rels[a].indexes[b],
        ) && base_index_coordinate(rels[a], rels[a].indexes[b]) == c
}

/// Some observation is backed by the index at `c`.
pub open spec fn backing_observed(obs: Seq<ExclusionConstraintView>, c: IndexCoordinateView) -> bool {
    exists|k: int| 0 <= k < obs.len() && (#[trigger] obs[k]).backing_index == c
}

/// Every exclusion backing index of one relation is observed.
pub open spec fn relation_backings_observed(obs: Seq<ExclusionConstraintView>, r: BaseRelationView) -> bool {
    forall|y: int|
        0 <= y < r.indexes.len() && backs_exclusion_constraint(r, #[trigger] r.indexes[y]) ==> backing_observed(
            obs,
            base_index_coordinate(r, r.indexes[y]),
        )
}

/// The observed backing indexes are exactly the base snapshot's exclusion backing indexes.
pub open spec fn backing_complete(rels: Seq<BaseRelationView>, obs: Seq<ExclusionConstraintView>) -> bool {
    &&& forall|i: int| 0 <= i < obs.len() ==> expects_backing(rels, (#[trigger] obs[i]).backing_index)
    &&& forall|a: int| 0 <= a < rels.len() ==> relation_backings_observed(obs, #[trigger] rels[a])
}

/// Two different observations share a backing index.
pub open spec fn duplicate_backing(obs: Seq<ExclusionConstraintView>) -> bool {
    exists|i: int, j: int| 0 <= i < j < obs.len() && (#[trigger] obs[i]).backing_index == (#[trigger] obs[j]).backing_index
}

fn has_duplicate_backing(obs: &[IndexExclusionConstraintObservation]) -> (b: bool)
    ensures
        b == duplicate_backing(constraint_views(obs@)),
{
    let ghost ov = constraint_views(obs@);
    let mut i: usize = 0;
    while i < obs.len()
        invariant
            i <= obs@.len(),
            ov == constraint_views(obs@),
            forall|x: int, y: int| 0 <= x < i && x < y < obs@.len() ==> (#[trigger] ov[x]).backing_index != (#[trigger] ov[y]).backing_index,
        decreases obs@.len() - i,
    {
        let mut j: usize = i + 1;
        while j < obs.len()
            invariant
                i < j <= obs@.len(),
                ov == constraint_views(obs@),
                forall|x: int, y: int| 0 <= x < i && x < y < obs@.len() ==> (#[trigger] ov[x]).backing_index != (#[trigger] ov[y]).backing_index,
                forall|y: int| i < y < j ==> ov[i as int].backing_index != (#[trigger] ov[y]).backing_index,
            decreases obs@.len() - j,
        {
            assert(ov[i as int] == obs@[i as int]@ && ov[j as int] == obs@[j as int]@);
            if obs[i].backing_index().same_as(obs[j].backing_index()) {
                return true;
            }
            j = j + 1;
        }
        i = i + 1;
    }
    false
}

fn index_is_at(c: &IndexPartitionCoordinate, rel: &BaseRelation, idx: &BaseIndex) -> (b: bool)
    ensures
        b == (c@ == base_index_coordinate(rel@, idx@)),
{
    rel.owns(c) && text_eq(c.index_name(), idx.index_name())
}

fn is_expected_backing(relations: &[BaseRelation], c: &IndexPartitionCoordinate) -> (b: bool)
    ensures
        b == expects_backing(relations@.map_values(|r: BaseRelation| r@), c@),
{
    let ghost rels = relations@.map_values(|r: BaseRelation| r@);
    let mut a: usize = 0;
    while a < relations.len()
        invariant
            a <= relations@.len(),
            rels == relations@.map_values(|r: BaseRelation| r@),
            forall|x: int, y: int|
                0 <= x < a && 0 <= y < rels[x].indexes.len() ==> !(backs_exclusion_constraint(
                    rels[x],
                    #[trigger] rels[x].indexes[y],
                ) && base_index_coordinate(rels[x], rels[x].indexes[y]) == c@),
        decreases relations@.len() - a,
    {
        let rel = &relations[a];
        assert(rels[a as int] == rel@);
        let indexes = rel.indexes();
        let mut b: usize = 0;
        while b < indexes.len()
            invariant
                b <= indexes@.len(),
                a < relations@.len(),
                rels == relations@.map_values(|r: BaseRelation| r@),
                rels[a as int] == rel@,
                indexes@.map_values(|x: BaseIndex| x@) == rel@.indexes,
                forall|y: int|
                    0 <= y < b ==> !(backs_exclusion_constraint(rel@, #[trigger] rel@.indexes[y]) && base_index_coordinate(
                        rel@,
                        rel@.indexes[y],
                    ) == c@),
            decreases indexes@.len() - b,
        {
            let idx = &indexes[b];
            assert(rel@.indexes[b as int] == idx@);
            if index_backs_exclusion_constraint(rel, idx) && index_is_at(c, rel, idx) {
                assert(backs_exclusion_constraint(rels[a as int], rels[a as int].indexes[b as int]));
                return true;
            }
            b = b + 1;
        }
        a = a + 1;
    }
    false
}

fn backing_is_observed(obs: &[IndexExclusionConstraintObservation], rel: &BaseRelation, idx: &BaseIndex) -> (b: bool)
    ensures
        b == backing_observed(constraint_views(obs@), base_index_coordinate(rel@, idx@)),
{
    let ghost ov = constraint_views(obs@);
    let mut i: usize = 0;
    while i < obs.len()
        invariant
            i <= obs@.len(),
            ov == constraint_views(obs@),
            forall|x: int| 0 <= x < i ==> (#[trigger] ov[x]).backing_index != base_index_coordinate(rel@, idx@),
        decreases obs@.len() - i,
    {
        assert(ov[i as int] == obs@[i as int]@);
        if index_is_at(obs[i].backing_index(), rel, idx) {
            return true;
        }
        i = i + 1;
    }
    false
}

fn relation_backings_are_observed(obs: &[IndexExclusionConstraintObservation], rel: &BaseRelation) -> (b: bool)
    ensures
        b == relation_backings_observed(constraint_views(obs@), rel@),
{
    let indexes = rel.indexes();
    let mut b: usize = 0;
    while b < indexes.len()
        invariant
            b <= indexes@.len(),
            indexes@.map_values(|x: BaseIndex| x@) == rel@.indexes,
            forall|y: int|
                0 <= y < b && backs_exclusion_constraint(rel@, #[trigger] rel@.indexes[y]) ==> backing_observed(
                    constraint_views(obs@),
                    base_index_coordinate(rel@, rel@.indexes[y]),
                ),
        decreases indexes@.len() - b,
    {
        let idx = &indexes[b];
        assert(rel@.indexes[b as int] == idx@);
        if index_backs_exclusion_constraint(rel, idx) && !backing_is_observed(obs, rel, idx) {
            return false;
        }
        b = b + 1;
    }
    true
}

fn backings_are_complete(relations: &[BaseRelation], obs: &[IndexExclusionConstraintObservation]) -> (b: bool)
    ensures
        b == backing_complete(relations@.map_values(|r: BaseRelation| r@), constraint_views(obs@)),
{
    let ghost rels = relations@.map_values(|r: BaseRelation| r@);
    let ghost ov = constraint_views(obs@);
    let mut i: usize = 0;
    while i < obs.len()
        invariant
            i <= obs@.len(),
            rels == relations@.map_values(|r: BaseRelation| r@),
            ov == constraint_views(obs@),
            forall|x: int| 0 <= x < i ==> expects_backing(rels, (#[trigger] ov[x]).backing_index),
        decreases obs@.len() - i,
    {
        assert(ov[i as int] == obs@[i as int]@);
        if !is_expected_backing(relations, obs[i].backing_index()) {
            return false;
        }
        i = i + 1;
    }
    let mut a: usize = 0;
    while a < relations.len()
        invariant
            a <= relations@.len(),
            rels == relations@.map_values(|r: BaseRelation| r@),
            ov == constraint_views(obs@),
            forall|x: int| 0 <= x < obs@.len() ==> expects_backing(rels, (#[trigger] ov[x]).backing_index),
            forall|x: int| 0 <= x < a ==> relation_backings_observed(ov, #[trigger] rels[x]),
        decreases relations@.len() - a,
    {
        assert(rels[a as int] == relations@[a as int]@);
        if !relation_backings_are_observed(obs, &relations[a]) {
            return false;
        }
        a = a + 1;
    }
    true
}

} // verus!

verus! {

/// The first membership of the index at `c`.
pub open spec fn membership_at(ms: Seq<MembershipView>, c: IndexCoordinateView) -> Option<MembershipView>
    decreases ms.len(),
{
    if ms.len() == 0 {
        None
    } else if ms[0].coordinate == c {
        Some(ms[0])
    } else {
        membership_at(ms.drop_first(), c)
    }
}

/// The first observation backed by the index at `c`.
pub open spec fn constraint_backed_by(obs: Seq<ExclusionConstraintView>, c: IndexCoordinateView) -> Option<ExclusionConstraintView>
    decreases obs.len(),
{
    if obs.len() == 0 {
        None
    } else if obs[0].backing_index == c {
        Some(obs[0])
    } else {
        constraint_backed_by(obs.drop_first(), c)
    }
}

/// The `conislocal` / `coninhcount` state owed by a constraint: a root constraint is local with
/// no inheritance, an attached one is inherited once and not local.
pub open spec fn inheritance_state_matches(o: ExclusionConstraintView, attached: bool) -> bool {
    if attached {
        !o.is_local && o.inheritance_count == 1
    } else {
        o.is_local && o.inheritance_count == 0
    }
}

/// 1 when the backing index has no membership, 2 when its parent index backs no observed
/// constraint, 3 when the recorded parent constraint differs from the expected one, 4 when the
/// inheritance state differs from the expected one, 0 otherwise.
pub open spec fn parentage_code(ms: Seq<MembershipView>, obs: Seq<ExclusionConstraintView>, o: ExclusionConstraintView) -> int {
    match membership_at(ms, o.backing_index) {
        None => 1,
        Some(m) => match m.parent_index {
            None => if o.parent_constraint is Some {
                3
            } else if !inheritance_state_matches(o, false) {
                4
            } else {
                0
            },
            Some(p) => match constraint_backed_by(obs, p) {
                None => 2,
                Some(parent) => if o.parent_constraint != Some(parent.coordinate) {
                    3
                } else if !inheritance_state_matches(o, true) {
                    4
                } else {
                    0
                },
            },
        },
    }
}

/// The first non-zero parentage code over `rest`, in order, with parents looked up in `obs`.
pub open spec fn first_parentage_code(
    ms: Seq<MembershipView>,
    obs: Seq<ExclusionConstraintView>,
    rest: Seq<ExclusionConstraintView>,
) -> int
    decreases rest.len(),
{
    if rest.len() == 0 {
        0
    } else if parentage_code(ms, obs, rest[0]) != 0 {
        parentage_code(ms, obs, rest[0])
    } else {
        first_parentage_code(ms, obs, rest.drop_first())
    }
}

/// The field reported for a non-zero parentage code.
pub open spec fn parentage_field(code: int) -> Seq<char> {
    if code == 1 {
        "index_exclusion_constraint_backing_index"@
    } else if code == 2 {
        "index_exclusion_constraint_parent_index"@
    } else if code == 3 {
        "index_exclusion_constraint_parentage"@
    } else {
        "index_exclusion_constraint_inheritance_state"@
    }
}

pub(crate) fn find_membership<'a>(ms: &'a [IndexPartitionMembership], c: &IndexPartitionCoordinate) -> (r: Option<&'a IndexPartitionMembership>)
    ensures
        match r {
            Some(m) => membership_at(ms@.map_values(|x: IndexPartitionMembership| x@), c@) == Some(m@),
            None => membership_at(ms@.map_values(|x: IndexPartitionMembership| x@), c@) is None,
        },
{
    let ghost views = ms@.map_values(|x: IndexPartitionMembership| x@);
    let mut i: usize = 0;
    assert(views.skip(0) =~= views);
    while i < ms.len()
        invariant
            i <= ms@.len(),
            views == ms@.map_values(|x: IndexPartitionMembership| x@),
            membership_at(views, c@) == membership_at(views.skip(i as int), c@),
        decreases ms@.len() - i,
    {
        assert(views.skip(i as int)[0] == ms@[i as int]@);
        assert(views.skip(i as int).drop_first() =~= views.skip(i + 1));
        if ms[i].coordinate().same_as(c) {
            return Some(&ms[i]);
        }
        i = i + 1;
    }
    None
}

fn find_constraint_backed_by<'a>(obs: &'a [IndexExclusionConstraintObservation], c: &IndexPartitionCoordinate) -> (r: Option<
    &'a IndexExclusionConstraintObservation,
>)
    ensures
        match r {
            Some(o) => constraint_backed_by(constraint_views(obs@), c@) == Some(o@),
            None => constraint_backed_by(constraint_views(obs@), c@) is None,
        },
{
    let ghost views = constraint_views(obs@);
    let mut i: usize = 0;
    assert(views.skip(0) =~= views);
    while i < obs.len()
        invariant
            i <= obs@.len(),
            views == constraint_views(obs@),
            constraint_backed_by(views, c@) == constraint_backed_by(views.skip(i as int), c@),
        decreases obs@.len() - i,
    {
        assert(views.skip(i as int)[0] == obs@[i as int]@);
        assert(views.skip(i as int).drop_first() =~= views.skip(i + 1));
        if obs[i].backing_index().same_as(c) {
            return Some(&obs[i]);
        }
        i = i + 1;
    }
    None
}

fn check_one_parentage(
    ms: &[IndexPartitionMembership],
    obs: &[IndexExclusionConstraintObservation],
    o: &IndexExclusionConstraintObservation,
) -> (r: Result<(), ObservationError>)
    ensures
        ({
            let code = parentage_code(ms@.map_values(|x: IndexPartitionMembership| x@), constraint_views(obs@), o@);
            &&& r is Ok <==> code == 0
            &&& r is Err ==> fails_with_text(r, parentage_field(code))
        }),
{
    let membership = match find_membership(ms, o.backing_index()) {
        Some(m) => m,
        None => {
            return Err(invalid("index_exclusion_constraint_backing_index"));
        },
    };
    match membership.parent_index() {
        None => {
            if o.parent_constraint().is_some() {
                return Err(invalid("index_exclusion_constraint_parentage"));
            }
            if !(o.is_local() && o.inheritance_count() == 0) {
                return Err(invalid("index_exclusion_constraint_inheritance_state"));
            }
        },
        Some(parent_index) => {
            let parent = match find_constraint_backed_by(obs, parent_index) {
                Some(p) => p,
                None => {
                    return Err(invalid("index_exclusion_constraint_parent_index"));
                },
            };
            let matches_parent = match o.parent_constraint() {
                Some(recorded) => recorded.same_as(parent.coordinate()),
                None => false,
            };
            if !matches_parent {
                return Err(invalid("index_exclusion_constraint_parentage"));
            }
            if !(!o.is_local() && o.inheritance_count() == 1) {
                return Err(invalid("index_exclusion_constraint_inheritance_state"));
            }
        },
    }
    Ok(())
}

fn check_parentage(ms: &[IndexPartitionMembership], obs: &[IndexExclusionConstraintObservation]) -> (r: Result<
    (),
    ObservationError,
>)
    ensures
        ({
            let code = first_parentage_code(
                ms@.map_values(|x: IndexPartitionMembership| x@),
                constraint_views(obs@),
                constraint_views(obs@),
            );
            &&& r is Ok <==> code == 0
            &&& r is Err ==> fails_with_text(r, parentage_field(code))
        }),
{
    let ghost mv = ms@.map_values(|x: IndexPartitionMembership| x@);
    let ghost views = constraint_views(obs@);
    let mut i: usize = 0;
    assert(views.skip(0) =~= views);
    while i < obs.len()
        invariant
            i <= obs@.len(),
            mv == ms@.map_values(|x: IndexPartitionMembership| x@),
            views == constraint_views(obs@),
            first_parentage_code(mv, views, views) == first_parentage_code(mv, views, views.skip(i as int)),
        decreases obs@.len() - i,
    {
        assert(views.skip(i as int)[0] == obs@[i as int]@);
        assert(views.skip(i as int).drop_first() =~= views.skip(i + 1));
        check_one_parentage(ms, obs, &obs[i])?;
        i = i + 1;
    }
    Ok(())
}

} // verus!

verus! {

/// Two different observations share a constraint coordinate.
pub open spec fn duplicate_constraint(obs: Seq<ExclusionConstraintView>) -> bool {
    exists|i: int, j: int| 0 <= i < j < obs.len() && (#[trigger] obs[i]).coordinate == (#[trigger] obs[j]).coordinate
}

proof fn lemma_constraint_collision(s: Seq<IndexExclusionConstraintObservation>)
    ensures
        has_key_collision(s) <==> duplicate_constraint(constraint_views(s)),
{
    let v = constraint_views(s);
    if has_key_collision(s) {
        let (i, j) = choose|i: int, j: int| 0 <= i < j < s.len() && crate::order::same_key(#[trigger] s[i], #[trigger] s[j]);
        assert(v[i] == s[i]@ && v[j] == s[j]@);
        if v[i].coordinate != v[j].coordinate {
            lemma_coordinate_lt_total(constraint_key(v[i].coordinate), constraint_key(v[j].coordinate));
        }
    }
    if duplicate_constraint(v) {
        let (i, j) = choose|i: int, j: int| 0 <= i < j < v.len() && (#[trigger] v[i]).coordinate == (#[trigger] v[j]).coordinate;
        lemma_coordinate_lt_irreflexive(constraint_key(v[i].coordinate));
        assert(crate::order::same_key(s[i], s[j]));
    }
}

/// Why a set of exclusion-constraint observations is refused.
pub enum ConstraintRefusal {
    /// The named observation field is invalid.
    Field(Seq<char>),
    /// The constraint's name is already used by a constraint of its relation.
    DuplicateName(ConstraintCoordinateView),
}

/// Holds when `result` failed exactly as `refusal` says.
pub open spec fn refused_as<T>(result: Result<T, ObservationError>, refusal: ConstraintRefusal) -> bool {
    match refusal {
        ConstraintRefusal::Field(name) => fails_with_text(result, name),
        ConstraintRefusal::DuplicateName(c) => fails_with_duplicate_name(result, c),
    }
}

/// Why exclusion-constraint observations are refused, or `None` when they are accepted: a
/// repeated coordinate; then, over the coordinate order, a missing owning relation or a name
/// already used by the relation; then missing catalog flags or a blank backing-index name; then
/// backing indexes that are not exactly the base snapshot's exclusion backing indexes; then,
/// over the coordinate order, parentage and inheritance state.
pub open spec fn exclusion_constraint_refusal(
    rels: Seq<BaseRelationView>,
    not_null: Option<Seq<ConstraintCoordinateView>>,
    ms: Seq<MembershipView>,
    obs: Seq<IndexExclusionConstraintObservation>,
) -> Option<ConstraintRefusal> {
    let sorted = constraint_views(sorted_by_key(obs));
    if duplicate_constraint(constraint_views(obs)) {
        Some(ConstraintRefusal::Field("index_exclusion_constraint_coordinate"@))
    } else if first_name_collision(rels, not_null, sorted) is Some {
        let c = first_name_collision(rels, not_null, sorted)->0;
        if name_collision_code(rels, not_null, c) == 1 {
            Some(ConstraintRefusal::Field("index_exclusion_constraint_relation"@))
        } else {
            Some(ConstraintRefusal::DuplicateName(c))
        }
    } else if first_backing_code(rels) != 0 {
        Some(ConstraintRefusal::Field(backing_field(first_backing_code(rels))))
    } else if duplicate_backing(sorted) || !backing_complete(rels, sorted) {
        Some(ConstraintRefusal::Field("index_exclusion_constraint_completeness"@))
    } else if first_parentage_code(ms, sorted, sorted) != 0 {
        Some(ConstraintRefusal::Field(parentage_field(first_parentage_code(ms, sorted, sorted))))
    } else {
        None
    }
}

/// Sorts exclusion-constraint observations by coordinate and validates them against the base
/// snapshot's relations, constraints and NOT NULL constraints (`None` when they were not
/// captured) and against the issued index memberships.
pub fn canonicalize_exclusion_constraints(
    relations: &[BaseRelation],
    not_null_constraints: Option<&[BaseNotNullConstraint]>,
    partition: &IndexPartitionEvidence,
    observations: Vec<IndexExclusionConstraintObservation>,
) -> (r: Result<Vec<IndexExclusionConstraintObservation>, ObservationError>)
    ensures
        ({
            let refusal = exclusion_constraint_refusal(
                relations@.map_values(|b: BaseRelation| b@),
                match not_null_constraints {
                    Some(s) => Some(s@.map_values(|x: BaseNotNullConstraint| x@)),
                    None => None,
                },
                partition.membership_views(),
                observations@,
            );
            &&& r is Ok <==> refusal is None
            &&& refusal matches Some(f) ==> refused_as(r, f)
        }),
        r matches Ok(v) ==> v@ == sorted_by_key(observations@) && strictly_sorted(v@) && same_elements(v@, observations@),
{
    let ghost input = observations@;
    proof {
        lemma_constraint_collision(input);
    }
    let sorted = match sort_by_key(observations) {
        Some(v) => v,
        None => {
            return Err(invalid("index_exclusion_constraint_coordinate"));
        },
    };
    reject_constraint_name_collisions(relations, not_null_constraints, sorted.as_slice())?;
    check_backing_indexes(relations)?;
    if has_duplicate_backing(sorted.as_slice()) || !backings_are_complete(relations, sorted.as_slice()) {
        return Err(invalid("index_exclusion_constraint_completeness"));
    }
    check_parentage(partition.memberships(), sorted.as_slice())?;
    Ok(sorted)
}

} // verus!

verus! {

/// Domain separator of the exclusion-constraint digest.
pub const INDEX_EXCLUSION_CONSTRAINT_DIGEST_DOMAIN: &'static str =
    "conceptweave.postgres_schema_snapshot.v3.relation_partition.index_partition.exclusion_constraint.v1";

/// Framing of a constraint coordinate: schema, relation, relation-kind token and name.
pub open spec fn frame_constraint(c: ConstraintCoordinateView) -> Seq<u8> {
    frame_str(c.schema_name) + frame_str(c.relation_name) + frame_str(relation_kind_token(c.relation_kind)) + frame_str(
        c.constraint_name,
    )
}

/// An absent parent is the byte 0; a present one is the byte 1 and its framed coordinate.
pub open spec fn frame_parent(p: Option<ConstraintCoordinateView>) -> Seq<u8> {
    match p {
        None => seq![0u8],
        Some(c) => seq![1u8] + frame_constraint(c),
    }
}

/// Framing of one exclusion-constraint observation.
pub open spec fn frame_exclusion_constraint(o: ExclusionConstraintView) -> Seq<u8> {
    frame_constraint(o.coordinate) + frame_index(o.backing_index) + frame_parent(o.parent_constraint) + frame_bool(
        o.is_local,
    ) + frame_i16(o.inheritance_count)
}

/// Framing of a sequence of exclusion-constraint observations, in order.
pub open spec fn frame_exclusion_constraints(s: Seq<ExclusionConstraintView>) -> Seq<u8>
    decreases s.len(),
{
    if s.len() == 0 {
        Seq::empty()
    } else {
        frame_exclusion_constraints(s.drop_last()) + frame_exclusion_constraint(s.last())
    }
}

/// The preimage of the exclusion-constraint digest.
pub open spec fn exclusion_constraint_preimage(predecessor_digest: Seq<char>, s: Seq<ExclusionConstraintView>) -> Seq<u8> {
    encode_utf8(INDEX_EXCLUSION_CONSTRAINT_DIGEST_DOMAIN@) + frame_str(predecessor_digest) + frame_len(s.len())
        + frame_exclusion_constraints(s)
}

/// Appends the framing of a constraint coordinate.
pub fn put_constraint(out: &mut Vec<u8>, c: &IndexExclusionConstraintCoordinate)
    ensures
        final(out)@ == old(out)@ + frame_constraint(c@),
{
    put_str(out, c.schema_name());
    put_str(out, c.relation_name());
    put_str(out, c.relation_kind().token());
    put_str(out, c.constraint_name());
    proof {
        assert(final(out)@ =~= old(out)@ + frame_constraint(c@));
    }
}

fn put_parent(out: &mut Vec<u8>, p: Option<&IndexExclusionConstraintCoordinate>)
    ensures
        final(out)@ == old(out)@ + frame_parent(
            match p {
                Some(c) => Some(c@),
                None => None,
            },
        ),
{
    match p {
        None => {
            put_tag(out, 0);
            assert(final(out)@ =~= old(out)@ + seq![0u8]);
        },
        Some(c) => {
            put_tag(out, 1);
            let ghost mid = out@;
            put_constraint(out, c);
            assert(final(out)@ =~= old(out)@ + (seq![1u8] + frame_constraint(c@)));
        },
    }
}

fn put_exclusion_constraint(out: &mut Vec<u8>, o: &IndexExclusionConstraintObservation)
    ensures
        final(out)@ == old(out)@ + frame_exclusion_constraint(o@),
{
    let ghost s0 = out@;
    let ghost a = frame_constraint(o@.coordinate);
    let ghost b = frame_index(o@.backing_index);
    let ghost c = frame_parent(o@.parent_constraint);
    let ghost d = frame_bool(o@.is_local);
    let ghost e = frame_i16(o@.inheritance_count);
    put_constraint(out, o.coordinate());
    put_index(out, o.backing_index());
    proof {
        vstd::seq_lib::lemma_concat_associative(s0, a, b);
    }
    put_parent(out, o.parent_constraint());
    proof {
        vstd::seq_lib::lemma_concat_associative(s0, a + b, c);
    }
    put_bool(out, o.is_local());
    proof {
        vstd::seq_lib::lemma_concat_associative(s0, a + b + c, d);
    }
    put_i16(out, o.inheritance_count());
    proof {
        vstd::seq_lib::lemma_concat_associative(s0, a + b + c + d, e);
    }
}

fn compute_exclusion_constraint_digest(predecessor_digest: &str, observations: &[IndexExclusionConstraintObservation]) -> (d:
    String)
    ensures
        d@ == digest_text(exclusion_constraint_preimage(predecessor_digest@, constraint_views(observations@))),
{
    let ghost views = constraint_views(observations@);
    let mut out: Vec<u8> = Vec::new();
    put_raw(&mut out, INDEX_EXCLUSION_CONSTRAINT_DIGEST_DOMAIN.as_bytes());
    put_str(&mut out, predecessor_digest);
    put_len(&mut out, observations.len());
    let ghost header = out@;
    let mut i: usize = 0;
    while i < observations.len()
        invariant
            i <= observations@.len(),
            views == constraint_views(observations@),
            out@ == header + frame_exclusion_constraints(views.subrange(0, i as int)),
        decreases observations@.len() - i,
    {
        put_exclusion_constraint(&mut out, &observations[i]);
        proof {
            let next = views.subrange(0, i + 1);
            assert(next.drop_last() =~= views.subrange(0, i as int));
            assert(next.last() == observations@[i as int]@);
            assert(out@ =~= header + frame_exclusion_constraints(next));
        }
        i = i + 1;
    }
    proof {
        assert(views.subrange(0, observations@.len() as int) =~= views);
    }
    finish_digest(&out)
}

} // verus!

verus! {

/// The observation at `c` (the first such observation).
pub open spec fn constraint_at(obs: Seq<ExclusionConstraintView>, c: ConstraintCoordinateView) -> Option<ExclusionConstraintView>
    decreases obs.len(),
{
    if obs.len() == 0 {
        None
    } else if obs[0].coordinate == c {
        Some(obs[0])
    } else {
        constraint_at(obs.drop_first(), c)
    }
}

pub(crate) fn lookup_constraint<'a>(obs: &'a [IndexExclusionConstraintObservation], c: &IndexExclusionConstraintCoordinate) -> (r: Option<
    &'a IndexExclusionConstraintObservation,
>)
    ensures
        match r {
            Some(o) => constraint_at(constraint_views(obs@), c@) == Some(o@),
            None => constraint_at(constraint_views(obs@), c@) is None,
        },
{
    let ghost views = constraint_views(obs@);
    let mut i: usize = 0;
    assert(views.skip(0) =~= views);
    while i < obs.len()
        invariant
            i <= obs@.len(),
            views == constraint_views(obs@),
            constraint_at(views, c@) == constraint_at(views.skip(i as int), c@),
        decreases obs@.len() - i,
    {
        assert(views.skip(i as int)[0] == obs@[i as int]@);
        assert(views.skip(i as int).drop_first() =~= views.skip(i + 1));
        if obs[i].coordinate().same_as(c) {
            return Some(&obs[i]);
        }
        i = i + 1;
    }
    None
}

/// Complete PostgreSQL `EXCLUDE` constraint catalog state over issued index-partition evidence.
///
/// Each observation is explicit evidence for one `pg_constraint.contype = 'x'` row and carries its
/// resolved `conindid`; names are never inferred from index names. Exclusion indexes whose name is
/// also the name of a PRIMARY KEY or UNIQUE constraint of their relation back temporal key
/// constraints and are left out of this family. Every remaining exclusion backing index has
/// exactly one constraint observation.
#[derive(Debug, PartialEq, Eq)]
pub struct IndexExclusionConstraintSnapshot {
    source_connection_key: String,
    connection_policy_binding: String,
    snapshot_digest: String,
    extractor_revision: String,
    observed_at_utc: String,
    observations: Vec<IndexExclusionConstraintObservation>,
}

impl IndexExclusionConstraintSnapshot {
    /// The provenance of this snapshot, with its own digest.
    pub closed spec fn lineage(&self) -> LineageView {
        LineageView {
            source_connection_key: self.source_connection_key@,
            connection_policy_binding: self.connection_policy_binding@,
            snapshot_digest: self.snapshot_digest@,
            extractor_revision: self.extractor_revision@,
            observed_at_utc: self.observed_at_utc@,
        }
    }

    /// The observations, in coordinate order.
    pub closed spec fn observation_views(&self) -> Seq<ExclusionConstraintView> {
        constraint_views(self.observations@)
    }

    /// The observations held, in coordinate order.
    pub closed spec fn entries(&self) -> Seq<IndexExclusionConstraintObservation> {
        self.observations@
    }

    /// Creates complete exclusion-constraint catalog evidence over the base snapshot's relations
    /// and NOT NULL constraints and the issued index-partition evidence, which it succeeds.
    pub fn new(
        relations: &[BaseRelation],
        not_null_constraints: Option<&[BaseNotNullConstraint]>,
        partition: &IndexPartitionEvidence,
        observations: Vec<IndexExclusionConstraintObservation>,
    ) -> (r: Result<Self, ObservationError>)
        ensures
            ({
                let refusal = exclusion_constraint_refusal(
                    relations@.map_values(|b: BaseRelation| b@),
                    match not_null_constraints {
                        Some(s) => Some(s@.map_values(|x: BaseNotNullConstraint| x@)),
                        None => None,
                    },
                    partition.membership_views(),
                    observations@,
                );
                &&& r is Ok <==> refusal is None
                &&& refusal matches Some(f) ==> refused_as(r, f)
            }),
            r matches Ok(s) ==> {
                &&& s.observation_views() == constraint_views(sorted_by_key(observations@))
                &&& s.entries() == sorted_by_key(observations@)
                &&& s.lineage() == (LineageView {
                    snapshot_digest: digest_text(
                        exclusion_constraint_preimage(partition.lineage().snapshot_digest, s.observation_views()),
                    ),
                    ..partition.lineage()
                })
            },
    {
        let observations = canonicalize_exclusion_constraints(relations, not_null_constraints, partition, observations)?;
        let snapshot_digest = compute_exclusion_constraint_digest(partition.snapshot_digest(), observations.as_slice());
        Ok(IndexExclusionConstraintSnapshot {
            source_connection_key: partition.source_connection_key().to_owned(),
            connection_policy_binding: partition.connection_policy_binding().to_owned(),
            snapshot_digest,
            extractor_revision: partition.extractor_revision().to_owned(),
            observed_at_utc: partition.observed_at_utc().to_owned(),
            observations,
        })
    }

    /// Returns the stable source registry key.
    pub fn source_connection_key(&self) -> (s: &str)
        ensures
            s@ == self.lineage().source_connection_key,
    {
        self.source_connection_key.as_str()
    }

    /// Returns the immutable source-policy binding.
    pub fn connection_policy_binding(&self) -> (s: &str)
        ensures
            s@ == self.lineage().connection_policy_binding,
    {
        self.connection_policy_binding.as_str()
    }

    /// Returns the domain-separated exclusion-constraint snapshot digest.
    pub fn snapshot_digest(&self) -> (s: &str)
        ensures
            s@ == self.lineage().snapshot_digest,
    {
        self.snapshot_digest.as_str()
    }

    /// Returns the exact extractor revision inherited from the predecessor stack.
    pub fn extractor_revision(&self) -> (s: &str)
        ensures
            s@ == self.lineage().extractor_revision,
    {
        self.extractor_revision.as_str()
    }

    /// Returns the exact canonical UTC observation time inherited from the predecessor stack.
    pub fn observed_at_utc(&self) -> (s: &str)
        ensures
            s@ == self.lineage().observed_at_utc,
    {
        self.observed_at_utc.as_str()
    }

    /// Returns complete exclusion-constraint observations in deterministic coordinate order.
    pub fn observations(&self) -> (o: &[IndexExclusionConstraintObservation])
        ensures
            constraint_views(o@) == self.observation_views(),
            o@ == self.entries(),
    {
        self.observations.as_slice()
    }

    /// Issues exact provenance for one observed exclusion constraint.
    pub fn source_receipt(&self, coordinate: IndexExclusionConstraintCoordinate) -> (r: Result<
        IndexExclusionConstraintSourceReceipt,
        ObservationError,
    >)
        ensures
            r is Ok <==> constraint_at(self.observation_views(), coordinate@) is Some,
            r matches Ok(receipt) ==> receipt.lineage() == self.lineage() && Some(receipt.location_view())
                == constraint_at(self.observation_views(), coordinate@),
            r matches Err(e) ==> e matches ObservationError::UnknownObservationLocation { location: l } && l@
                == constraint_location(coordinate@),
    {
        let observation = match lookup_constraint(self.observations.as_slice(), &coordinate) {
            Some(o) => o,
            None => {
                return Err(ObservationError::UnknownObservationLocation { location: coordinate.canonical_location() });
            },
        };
        Ok(IndexExclusionConstraintSourceReceipt {
            source_id: self.source_connection_key.clone(),
            connection_policy_binding: self.connection_policy_binding.clone(),
            source_digest: self.snapshot_digest.clone(),
            extractor_revision: self.extractor_revision.clone(),
            observed_at_utc: self.observed_at_utc.clone(),
            location: observation.clone(),
        })
    }
}

} // verus!

verus! {

/// Supply order is not semantic: two observation lists holding the same observations, one of
/// which has a coordinate order, issue the same ordered observations and the same digest
/// preimage.
pub proof fn lemma_exclusion_constraint_supply_order(
    predecessor_digest: Seq<char>,
    first: Seq<IndexExclusionConstraintObservation>,
    second: Seq<IndexExclusionConstraintObservation>,
)
    requires
        same_elements(first, second),
        strictly_sorted(sorted_by_key(first)),
        same_elements(sorted_by_key(first), first),
    ensures
        sorted_by_key(first) == sorted_by_key(second),
        exclusion_constraint_preimage(predecessor_digest, constraint_views(sorted_by_key(first)))
            == exclusion_constraint_preimage(predecessor_digest, constraint_views(sorted_by_key(second))),
{
    crate::order::lemma_sorted_by_key_order_independent(first, second);
}

} // verus!
