//! Key-constraint parentage layered over issued index-partition evidence.
//!
//! `pg_constraint.conparentid` is catalog evidence independent of `pg_inherits` index parentage.
//! PostgreSQL sets it when a constraint-backed child index is attached below a constraint-backed
//! parent index. This layer keeps that resolved constraint edge for every PRIMARY KEY and UNIQUE
//! constraint.

use vstd::prelude::*;

use crate::catalog::{
    lemma_coordinate_lt_irreflexive, lemma_coordinate_lt_total, lemma_coordinate_lt_transitive,
    owning_relation, find_owning_relation, relation_kind_token, validate_nonblank, BaseConstraint, BaseRelation,
    BaseRelationView, ConstraintCoordinateView, IndexCoordinateView, IndexPartitionCoordinate, IndexPartitionEvidence,
    IndexPartitionMembership, LineageView, MembershipView, RelationKind,
};
use crate::digest::{digest_text, finish_digest, frame_len, frame_str, put_len, put_raw, put_str, put_tag};
use crate::error::{fails_with, fails_with_text, invalid, ObservationError};
use crate::exclusion_constraint::{
    constraint_key, constraint_lt, frame_parent, key_constraint_owns, membership_at,
};
use crate::order::{
    compare_text, has_key_collision, same_elements, same_key, sort_by_key, sorted_by_key, strictly_sorted, text_eq,
    KeyOrder, SortKey,
};
use crate::text::{escape_json_pointer_token, is_blank, json_pointer_escape, push_text};
use vstd::utf8::encode_utf8;

verus! {

/// The governed location of a key constraint's parentage.
pub open spec fn parentage_location(c: ConstraintCoordinateView) -> Seq<char> {
    "/schemas/"@ + json_pointer_escape(c.schema_name) + "/relations/"@ + relation_kind_token(c.relation_kind) + "/"@
        + json_pointer_escape(c.relation_name) + "/constraints/"@ + json_pointer_escape(c.constraint_name)
        + "/parentage"@
}

/// Every name of a constraint coordinate is non-blank.
pub open spec fn constraint_names_nonblank(c: ConstraintCoordinateView) -> bool {
    !is_blank(c.schema_name) && !is_blank(c.relation_name) && !is_blank(c.constraint_name)
}

/// Exact resolved coordinate of one PostgreSQL PRIMARY KEY or UNIQUE constraint.
#[derive(Debug, PartialEq, Eq)]
pub struct IndexConstraintParentageCoordinate {
    schema_name: String,
    relation_name: String,
    relation_kind: RelationKind,
    constraint_name: String,
}

impl View for IndexConstraintParentageCoordinate {
    type V = ConstraintCoordinateView;

    closed spec fn view(&self) -> ConstraintCoordinateView {
        ConstraintCoordinateView {
            schema_name: self.schema_name@,
            relation_name: self.relation_name@,
            relation_kind: self.relation_kind,
            constraint_name: self.constraint_name@,
        }
    }
}

impl IndexConstraintParentageCoordinate {
    /// The invariant of every coordinate: its names are non-blank.
    #[verifier::type_invariant]
    pub open spec fn names_nonblank(self) -> bool {
        constraint_names_nonblank(self@)
    }
}

impl Clone for IndexConstraintParentageCoordinate {
    fn clone(&self) -> (c: Self)
        ensures
            c@ == self@,
    {
        proof {
            use_type_invariant(self);
        }
        IndexConstraintParentageCoordinate {
            schema_name: self.schema_name.clone(),
            relation_name: self.relation_name.clone(),
            relation_kind: self.relation_kind,
            constraint_name: self.constraint_name.clone(),
        }
    }
}

impl IndexConstraintParentageCoordinate {
    /// Creates one exact relation-scoped key-constraint coordinate; every name must be non-blank.
    pub fn new(
        schema_name: &str,
        relation_name: &str,
        relation_kind: RelationKind,
        constraint_name: &str,
    ) -> (r: Result<Self, ObservationError>)
        ensures
            r is Ok <==> !is_blank(schema_name@) && !is_blank(relation_name@) && !is_blank(constraint_name@),
            r matches Ok(c) ==> c@ == (ConstraintCoordinateView {
                schema_name: schema_name@,
                relation_name: relation_name@,
                relation_kind,
                constraint_name: constraint_name@,
            }),
            is_blank(schema_name@) ==> fails_with(r, "index_constraint_parentage_schema_name"),
            !is_blank(schema_name@) && is_blank(relation_name@) ==> fails_with(
                r,
                "index_constraint_parentage_relation_name",
            ),
            !is_blank(schema_name@) && !is_blank(relation_name@) && is_blank(constraint_name@) ==> fails_with(
                r,
                "index_constraint_parentage_constraint_name",
            ),
    {
        validate_nonblank(schema_name, "index_constraint_parentage_schema_name")?;
        validate_nonblank(relation_name, "index_constraint_parentage_relation_name")?;
        validate_nonblank(constraint_name, "index_constraint_parentage_constraint_name")?;
        Ok(IndexConstraintParentageCoordinate {
            schema_name: schema_name.to_owned(),
            relation_name: relation_name.to_owned(),
            relation_kind,
            constraint_name: constraint_name.to_owned(),
        })
    }

    /// Returns the exact source schema identifier.
    pub fn schema_name(&self) -> (s: &str)
        ensures
            s@ == self@.schema_name,
    {
        self.schema_name.as_str()
    }

    /// Returns the exact owning relation identifier.
    pub fn relation_name(&self) -> (s: &str)
        ensures
            s@ == self@.relation_name,
    {
        self.relation_name.as_str()
    }

    /// Returns the exact owning relation kind.
    pub fn relation_kind(&self) -> (k: RelationKind)
        ensures
            k == self@.relation_kind,
    {
        self.relation_kind
    }

    /// Returns the exact source constraint identifier.
    pub fn constraint_name(&self) -> (s: &str)
        ensures
            s@ == self@.constraint_name,
    {
        self.constraint_name.as_str()
    }

    /// Returns a collision-safe evidence location for this constraint-parentage fact.
    pub fn canonical_location(&self) -> (s: String)
        ensures
            s@ == parentage_location(self@),
    {
        let mut out = String::new();
        proof {
            reveal_strlit("/schemas/");
            reveal_strlit("/relations/");
            reveal_strlit("/");
            reveal_strlit("/constraints/");
            reveal_strlit("/parentage");
        }
        push_text(&mut out, "/schemas/");
        let schema = escape_json_pointer_token(self.schema_name.as_str());
        push_text(&mut out, schema.as_str());
        push_text(&mut out, "/relations/");
        push_text(&mut out, self.relation_kind.token());
        push_text(&mut out, "/");
        let relation = escape_json_pointer_token(self.relation_name.as_str());
        push_text(&mut out, relation.as_str());
        push_text(&mut out, "/constraints/");
        let name = escape_json_pointer_token(self.constraint_name.as_str());
        push_text(&mut out, name.as_str());
        push_text(&mut out, "/parentage");
        out
    }

    /// Reports whether two coordinates are equal.
    pub fn same_as(&self, other: &Self) -> (b: bool)
        ensures
            b == (self@ == other@),
    {
        text_eq(self.schema_name.as_str(), other.schema_name.as_str()) && text_eq(
            self.relation_name.as_str(),
            other.relation_name.as_str(),
        ) && self.relation_kind == other.relation_kind && text_eq(
            self.constraint_name.as_str(),
            other.constraint_name.as_str(),
        )
    }

    /// Compares two coordinates in coordinate order.
    pub fn compare(&self, other: &Self) -> (o: KeyOrder)
        ensures
            (o == KeyOrder::Less) == constraint_lt(self@, other@),
            (o == KeyOrder::Greater) == constraint_lt(other@, self@),
            (o == KeyOrder::Equal) == (self@ == other@),
    {
        let schema = compare_text(self.schema_name.as_str(), other.schema_name.as_str());
        if schema != KeyOrder::Equal {
            return schema;
        }
        let relation = compare_text(self.relation_name.as_str(), other.relation_name.as_str());
        if relation != KeyOrder::Equal {
            return relation;
        }
        let kind = compare_text(self.relation_kind.token(), other.relation_kind.token());
        if kind != KeyOrder::Equal {
            return kind;
        }
        proof {
            assert(self.relation_kind == other.relation_kind) by {
                reveal_strlit("table");
                reveal_strlit("partitioned_table");
                if self.relation_kind != other.relation_kind {
                    assert(relation_kind_token(self.relation_kind).len() != relation_kind_token(other.relation_kind).len());
                }
            }
        }
        compare_text(self.constraint_name.as_str(), other.constraint_name.as_str())
    }
}

/// The value of one key-constraint parentage observation.
pub struct ParentageView {
    pub coordinate: ConstraintCoordinateView,
    pub parent_constraint: Option<ConstraintCoordinateView>,
}

/// The view of an optional parentage coordinate.
pub open spec fn optional_parentage_view(c: Option<IndexConstraintParentageCoordinate>) -> Option<ConstraintCoordinateView> {
    match c {
        Some(p) => Some(p@),
        None => None,
    }
}

/// One exact resolved `pg_constraint.conparentid` observation for a key constraint: `root`
/// records `conparentid = 0`, `partition` the exact parent constraint a nonzero `conparentid`
/// resolves to.
#[derive(Debug, PartialEq, Eq)]
pub struct IndexConstraintParentageObservation {
    coordinate: IndexConstraintParentageCoordinate,
    parent_constraint: Option<IndexConstraintParentageCoordinate>,
}

impl View for IndexConstraintParentageObservation {
    type V = ParentageView;

    closed spec fn view(&self) -> ParentageView {
        ParentageView { coordinate: self.coordinate@, parent_constraint: optional_parentage_view(self.parent_constraint) }
    }
}

impl Clone for IndexConstraintParentageObservation {
    fn clone(&self) -> (c: Self)
        ensures
            c@ == self@,
    {
        let parent_constraint = match &self.parent_constraint {
            Some(p) => Some(p.clone()),
            None => None,
        };
        IndexConstraintParentageObservation { coordinate: self.coordinate.clone(), parent_constraint }
    }
}

impl IndexConstraintParentageObservation {
    /// Records a key constraint with no parent constraint (`conparentid = 0`).
    pub fn root(coordinate: IndexConstraintParentageCoordinate) -> (r: Result<Self, ObservationError>)
        ensures
            r matches Ok(o) && o@ == (ParentageView { coordinate: coordinate@, parent_constraint: None }),
    {
        Ok(IndexConstraintParentageObservation { coordinate, parent_constraint: None })
    }

    /// Records a key constraint with one exact resolved parent constraint, which must differ
    /// from the constraint itself.
    pub fn partition(coordinate: IndexConstraintParentageCoordinate, parent_constraint: IndexConstraintParentageCoordinate) -> (r:
        Result<Self, ObservationError>)
        ensures
            r is Ok <==> parent_constraint@ != coordinate@,
            parent_constraint@ == coordinate@ ==> fails_with(r, "index_constraint_parentage_parent"),
            r matches Ok(o) ==> o@ == (ParentageView { coordinate: coordinate@, parent_constraint: Some(parent_constraint@) }),
    {
        if parent_constraint.same_as(&coordinate) {
            return Err(invalid("index_constraint_parentage_parent"));
        }
        Ok(IndexConstraintParentageObservation { coordinate, parent_constraint: Some(parent_constraint) })
    }

    /// Returns the exact child constraint coordinate.
    pub fn coordinate(&self) -> (c: &IndexConstraintParentageCoordinate)
        ensures
            c@ == self@.coordinate,
    {
        &self.coordinate
    }

    /// Returns the exact resolved parent constraint, or `None` for `conparentid = 0`.
    pub fn parent_constraint(&self) -> (p: Option<&IndexConstraintParentageCoordinate>)
        ensures
            match p {
                Some(c) => self@.parent_constraint == Some(c@),
                None => self@.parent_constraint is None,
            },
    {
        match &self.parent_constraint {
            Some(p) => Some(p),
            None => None,
        }
    }
}

impl SortKey for IndexConstraintParentageObservation {
    open spec fn key_lt(self, other: Self) -> bool {
        constraint_lt(self@.coordinate, other@.coordinate)
    }

    proof fn lemma_key_lt_transitive(a: Self, b: Self, c: Self) {
        lemma_coordinate_lt_transitive(constraint_key(a@.coordinate), constraint_key(b@.coordinate), constraint_key(c@.coordinate));
    }

    proof fn lemma_key_lt_irreflexive(a: Self) {
        lemma_coordinate_lt_irreflexive(constraint_key(a@.coordinate));
    }

    fn compare_key(&self, other: &Self) -> (o: KeyOrder) {
        proof {
            lemma_coordinate_lt_irreflexive(constraint_key(self@.coordinate));
        }
        self.coordinate.compare(&other.coordinate)
    }
}

/// Immutable provenance receipt for one exact key-constraint parentage observation.
#[derive(Debug, PartialEq, Eq)]
pub struct IndexConstraintParentageSourceReceipt {
    source_id: String,
    connection_policy_binding: String,
    source_digest: String,
    extractor_revision: String,
    observed_at_utc: String,
    location: IndexConstraintParentageObservation,
}

impl IndexConstraintParentageSourceReceipt {
    /// The provenance carried by this receipt.
    pub closed spec fn lineage(&self) -> LineageView {
        LineageView {
            source_connection_key: self.source_id@,
            connection_policy_binding: self.connection_policy_binding@,
            snapshot_digest: self.source_digest@,
            extractor_revision: self.extractor_revision@,
            observed_at_utc: self.observed_at_utc@,
        }
    }

    /// The observation covered by this receipt.
    pub closed spec fn location_view(&self) -> ParentageView {
        self.location@
    }

    /// Returns the stable source registry key, never credential material.
    pub fn source_id(&self) -> (s: &str)
        ensures
            s@ == self.lineage().source_connection_key,
    {
        self.source_id.as_str()
    }

    /// Returns the immutable source-policy binding.
    pub fn connection_policy_binding(&self) -> (s: &str)
        ensures
            s@ == self.lineage().connection_policy_binding,
    {
        self.connection_policy_binding.as_str()
    }

    /// Returns the owner-computed parentage successor digest.
    pub fn source_digest(&self) -> (s: &str)
        ensures
            s@ == self.lineage().snapshot_digest,
    {
        self.source_digest.as_str()
    }

    /// Returns the exact extractor revision inherited from the predecessor stack.
    pub fn extractor_revision(&self) -> (s: &str)
        ensures
            s@ == self.lineage().extractor_revision,
    {
        self.extractor_revision.as_str()
    }

    /// Returns the exact canonical observation time inherited from the predecessor stack.
    pub fn observed_at_utc(&self) -> (s: &str)
        ensures
            s@ == self.lineage().observed_at_utc,
    {
        self.observed_at_utc.as_str()
    }

    /// Returns the exact constraint-parentage observation.
    pub fn location(&self) -> (o: &IndexConstraintParentageObservation)
        ensures
            o@ == self.location_view(),
    {
        &self.location
    }
}

} // verus!

verus! {

/// The parentage values of a sequence of observations.
pub open spec fn parentage_views(s: Seq<IndexConstraintParentageObservation>) -> Seq<ParentageView> {
    s.map_values(|o: IndexConstraintParentageObservation| o@)
}

/// The coordinate of the constraint called `name` on relation `r`.
pub open spec fn relation_constraint(r: BaseRelationView, name: Seq<char>) -> ConstraintCoordinateView {
    ConstraintCoordinateView {
        schema_name: r.schema_name,
        relation_name: r.relation_name,
        relation_kind: r.relation_kind,
        constraint_name: name,
    }
}

/// The base snapshot has a PRIMARY KEY or UNIQUE constraint at `c`.
pub open spec fn expects_key_constraint(rels: Seq<BaseRelationView>, c: ConstraintCoordinateView) -> bool {
    exists|a: int, k: int|
        0 <= a < rels.len() && 0 <= k < rels[a].constraints.len() && (#[trigger] rels[a].constraints[k]).is_key
            && relation_constraint(rels[a], rels[a].constraints[k].constraint_name) == c
}

/// Some observation is at `c`.
pub open spec fn parentage_observed(obs: Seq<ParentageView>, c: ConstraintCoordinateView) -> bool {
    exists|i: int| 0 <= i < obs.len() && (#[trigger] obs[i]).coordinate == c
}

/// Every key constraint of one relation is observed.
pub open spec fn relation_keys_observed(obs: Seq<ParentageView>, r: BaseRelationView) -> bool {
    forall|k: int|
        0 <= k < r.constraints.len() && (#[trigger] r.constraints[k]).is_key ==> parentage_observed(
            obs,
            relation_constraint(r, r.constraints[k].constraint_name),
        )
}

/// The observed coordinates are exactly the base snapshot's key constraints.
pub open spec fn parentage_complete(rels: Seq<BaseRelationView>, obs: Seq<ParentageView>) -> bool {
    &&& forall|i: int| 0 <= i < obs.len() ==> expects_key_constraint(rels, (#[trigger] obs[i]).coordinate)
    &&& forall|a: int| 0 <= a < rels.len() ==> relation_keys_observed(obs, #[trigger] rels[a])
}

/// Two different observations share a coordinate.
pub open spec fn repeated_parentage(obs: Seq<ParentageView>) -> bool {
    exists|i: int, j: int| 0 <= i < j < obs.len() && (#[trigger] obs[i]).coordinate == (#[trigger] obs[j]).coordinate
}

/// The constraint coordinate named like an index: the key constraint an index backs.
pub open spec fn index_constraint(p: IndexCoordinateView) -> ConstraintCoordinateView {
    ConstraintCoordinateView {
        schema_name: p.schema_name,
        relation_name: p.relation_name,
        relation_kind: p.relation_kind,
        constraint_name: p.index_name,
    }
}

/// 1 when the constraint's same-name backing index has no membership, 2 when its parent index
/// belongs to no base relation, 3 when the recorded parent differs from the key constraint the
/// parent index backs (none when the parent index backs no key constraint), 0 otherwise.
pub open spec fn key_parentage_code(rels: Seq<BaseRelationView>, ms: Seq<MembershipView>, o: ParentageView) -> int {
    match membership_at(ms, constraint_key(o.coordinate)) {
        None => 1,
        Some(m) => match m.parent_index {
            None => if o.parent_constraint is None {
                0
            } else {
                3
            },
            Some(p) => match owning_relation(rels, p) {
                None => 2,
                Some(r) => if o.parent_constraint == (if key_constraint_owns(r, p.index_name) {
                    Some(index_constraint(p))
                } else {
                    None
                }) {
                    0
                } else {
                    3
                },
            },
        },
    }
}

/// The first non-zero parentage code over `obs`, in order.
pub open spec fn first_key_parentage_code(rels: Seq<BaseRelationView>, ms: Seq<MembershipView>, obs: Seq<ParentageView>) -> int
    decreases obs.len(),
{
    if obs.len() == 0 {
        0
    } else if key_parentage_code(rels, ms, obs[0]) != 0 {
        key_parentage_code(rels, ms, obs[0])
    } else {
        first_key_parentage_code(rels, ms, obs.drop_first())
    }
}

/// The field reported for a non-zero parentage code.
pub open spec fn key_parentage_field(code: int) -> Seq<char> {
    if code == 1 {
        "index_constraint_parentage_backing_index"@
    } else if code == 2 {
        "index_constraint_parentage_parent_coordinate"@
    } else {
        "index_constraint_parentage"@
    }
}

/// The field reported when parentage observations are refused, or `None` when they are
/// accepted: a repeated coordinate, coordinates other than the base snapshot's key constraints,
/// then, in coordinate order, the parentage of each constraint.
pub open spec fn parentage_error(
    rels: Seq<BaseRelationView>,
    ms: Seq<MembershipView>,
    obs: Seq<IndexConstraintParentageObservation>,
) -> Option<Seq<char>> {
    let sorted = parentage_views(sorted_by_key(obs));
    if repeated_parentage(parentage_views(obs)) {
        Some("index_constraint_parentage_coordinate"@)
    } else if !parentage_complete(rels, sorted) {
        Some("index_constraint_parentage_completeness"@)
    } else if first_key_parentage_code(rels, ms, sorted) != 0 {
        Some(key_parentage_field(first_key_parentage_code(rels, ms, sorted)))
    } else {
        None
    }
}

proof fn lemma_parentage_collision(s: Seq<IndexConstraintParentageObservation>)
    ensures
        has_key_collision(s) <==> repeated_parentage(parentage_views(s)),
{
    let v = parentage_views(s);
    if has_key_collision(s) {
        let (i, j) = choose|i: int, j: int| 0 <= i < j < s.len() && same_key(#[trigger] s[i], #[trigger] s[j]);
        assert(v[i] == s[i]@ && v[j] == s[j]@);
        if v[i].coordinate != v[j].coordinate {
            lemma_coordinate_lt_total(constraint_key(v[i].coordinate), constraint_key(v[j].coordinate));
        }
    }
    if repeated_parentage(v) {
        let (i, j) = choose|i: int, j: int| 0 <= i < j < v.len() && (#[trigger] v[i]).coordinate == (#[trigger] v[j]).coordinate;
        lemma_coordinate_lt_irreflexive(constraint_key(v[i].coordinate));
        assert(same_key(s[i], s[j]));
    }
}

fn is_expected_key_constraint(relations: &[BaseRelation], c: &IndexConstraintParentageCoordinate) -> (b: bool)
    ensures
        b == expects_key_constraint(relations@.map_values(|r: BaseRelation| r@), c@),
{
    let ghost rels = relations@.map_values(|r: BaseRelation| r@);
    let mut a: usize = 0;
    while a < relations.len()
        invariant
            a <= relations@.len(),
            rels == relations@.map_values(|r: BaseRelation| r@),
            forall|x: int, y: int|
                0 <= x < a && 0 <= y < rels[x].constraints.len() ==> !((#[trigger] rels[x].constraints[y]).is_key
                    && relation_constraint(rels[x], rels[x].constraints[y].constraint_name) == c@),
        decreases relations@.len() - a,
    {
        let rel = &relations[a];
        assert(rels[a as int] == rel@);
        let constraints = rel.constraints();
        let same_relation = text_eq(rel.schema_name(), c.schema_name()) && text_eq(rel.relation_name(), c.relation_name())
            && rel.relation_kind() == c.relation_kind();
        let mut k: usize = 0;
        while k < constraints.len()
            invariant
                k <= constraints@.len(),
                a < relations@.len(),
                rels == relations@.map_values(|r: BaseRelation| r@),
                rels[a as int] == rel@,
                constraints@.map_values(|x: BaseConstraint| x@) == rel@.constraints,
                same_relation == (rel@.schema_name == c@.schema_name && rel@.relation_name == c@.relation_name
                    && rel@.relation_kind == c@.relation_kind),
                forall|y: int|
                    0 <= y < k ==> !((#[trigger] rel@.constraints[y]).is_key && relation_constraint(
                        rel@,
                        rel@.constraints[y].constraint_name,
                    ) == c@),
            decreases constraints@.len() - k,
        {
            assert(rel@.constraints[k as int] == constraints@[k as int]@);
            if same_relation && constraints[k].is_key() && text_eq(constraints[k].constraint_name(), c.constraint_name()) {
                assert(rels[a as int].constraints[k as int].is_key);
                assert(relation_constraint(rels[a as int], rels[a as int].constraints[k as int].constraint_name) == c@);
                return true;
            }
            k = k + 1;
        }
        a = a + 1;
    }
    false
}

fn key_constraint_is_observed(obs: &[IndexConstraintParentageObservation], rel: &BaseRelation, name: &str) -> (b: bool)
    ensures
        b == parentage_observed(parentage_views(obs@), relation_constraint(rel@, name@)),
{
    let ghost ov = parentage_views(obs@);
    let mut i: usize = 0;
    while i < obs.len()
        invariant
            i <= obs@.len(),
            ov == parentage_views(obs@),
            forall|x: int| 0 <= x < i ==> (#[trigger] ov[x]).coordinate != relation_constraint(rel@, name@),
        decreases obs@.len() - i,
    {
        assert(ov[i as int] == obs@[i as int]@);
        let c = obs[i].coordinate();
        if text_eq(c.schema_name(), rel.schema_name()) && text_eq(c.relation_name(), rel.relation_name())
            && c.relation_kind() == rel.relation_kind() && text_eq(c.constraint_name(), name) {
            assert(ov[i as int].coordinate == relation_constraint(rel@, name@));
            return true;
        }
        i = i + 1;
    }
    false
}

fn relation_keys_are_observed(obs: &[IndexConstraintParentageObservation], rel: &BaseRelation) -> (b: bool)
    ensures
        b == relation_keys_observed(parentage_views(obs@), rel@),
{
    let constraints = rel.constraints();
    let mut k: usize = 0;
    while k < constraints.len()
        invariant
            k <= constraints@.len(),
            constraints@.map_values(|x: BaseConstraint| x@) == rel@.constraints,
            forall|y: int|
                0 <= y < k && (#[trigger] rel@.constraints[y]).is_key ==> parentage_observed(
                    parentage_views(obs@),
                    relation_constraint(rel@, rel@.constraints[y].constraint_name),
                ),
        decreases constraints@.len() - k,
    {
        assert(rel@.constraints[k as int] == constraints@[k as int]@);
        if constraints[k].is_key() && !key_constraint_is_observed(obs, rel, constraints[k].constraint_name()) {
            return false;
        }
        k = k + 1;
    }
    true
}

fn parentage_is_complete(relations: &[BaseRelation], obs: &[IndexConstraintParentageObservation]) -> (b: bool)
    ensures
        b == parentage_complete(relations@.map_values(|r: BaseRelation| r@), parentage_views(obs@)),
{
    let ghost rels = relations@.map_values(|r: BaseRelation| r@);
    let ghost ov = parentage_views(obs@);
    let mut i: usize = 0;
    while i < obs.len()
        invariant
            i <= obs@.len(),
            rels == relations@.map_values(|r: BaseRelation| r@),
            ov == parentage_views(obs@),
            forall|x: int| 0 <= x < i ==> expects_key_constraint(rels, (#[trigger] ov[x]).coordinate),
        decreases obs@.len() - i,
    {
        assert(ov[i as int] == obs@[i as int]@);
        if !is_expected_key_constraint(relations, obs[i].coordinate()) {
            return false;
        }
        i = i + 1;
    }
    let mut a: usize = 0;
    while a < relations.len()
        invariant
            a <= relations@.len(),
            rels == relations@.map_values(|r: BaseRelation| r@),
            ov == parentage_views(obs@),
            forall|x: int| 0 <= x < obs@.len() ==> expects_key_constraint(rels, (#[trigger] ov[x]).coordinate),
            forall|x: int| 0 <= x < a ==> relation_keys_observed(ov, #[trigger] rels[x]),
        decreases relations@.len() - a,
    {
        assert(rels[a as int] == relations@[a as int]@);
        if !relation_keys_are_observed(obs, &relations[a]) {
            return false;
        }
        a = a + 1;
    }
    true
}

fn same_optional_parent(
    recorded: Option<&IndexConstraintParentageCoordinate>,
    expected: Option<&IndexConstraintParentageCoordinate>,
) -> (b: bool)
    ensures
        b == (match recorded {
            Some(c) => Some(c@),
            None => None,
        } == match expected {
            Some(c) => Some(c@),
            None => None,
        }),
{
    match (recorded, expected) {
        (None, None) => true,
        (Some(a), Some(b)) => a.same_as(b),
        _ => false,
    }
}

fn check_key_parentage(
    relations: &[BaseRelation],
    ms: &[IndexPartitionMembership],
    o: &IndexConstraintParentageObservation,
) -> (r: Result<(), ObservationError>)
    ensures
        ({
            let code = key_parentage_code(
                relations@.map_values(|b: BaseRelation| b@),
                ms@.map_values(|x: IndexPartitionMembership| x@),
                o@,
            );
            &&& r is Ok <==> code == 0
            &&& r is Err ==> fails_with_text(r, key_parentage_field(code))
        }),
{
    let c = o.coordinate();
    proof {
        use_type_invariant(c);
    }
    let child_index = match IndexPartitionCoordinate::new(c.schema_name(), c.relation_name(), c.relation_kind(), c.constraint_name()) {
        Ok(i) => i,
        Err(e) => {
            return Err(e);
        },
    };
    let membership = match crate::exclusion_constraint::find_membership(ms, &child_index) {
        Some(m) => m,
        None => {
            return Err(invalid("index_constraint_parentage_backing_index"));
        },
    };
    let parent_index = match membership.parent_index() {
        None => {
            if o.parent_constraint().is_some() {
                return Err(invalid("index_constraint_parentage"));
            }
            return Ok(());
        },
        Some(p) => p,
    };
    let parent_relation = match find_owning_relation(relations, parent_index) {
        Some(r) => r,
        None => {
            return Err(invalid("index_constraint_parentage_parent_coordinate"));
        },
    };
    let expected = if crate::exclusion_constraint::has_key_constraint_named(parent_relation, parent_index.index_name()) {
        proof {
            use_type_invariant(parent_index);
        }
        match IndexConstraintParentageCoordinate::new(
            parent_index.schema_name(),
            parent_index.relation_name(),
            parent_index.relation_kind(),
            parent_index.index_name(),
        ) {
            Ok(p) => Some(p),
            Err(e) => {
                return Err(e);
            },
        }
    } else {
        None
    };
    let expected_ref = match &expected {
        Some(p) => Some(p),
        None => None,
    };
    if !same_optional_parent(o.parent_constraint(), expected_ref) {
        return Err(invalid("index_constraint_parentage"));
    }
    Ok(())
}

fn check_all_key_parentage(
    relations: &[BaseRelation],
    ms: &[IndexPartitionMembership],
    obs: &[IndexConstraintParentageObservation],
) -> (r: Result<(), ObservationError>)
    ensures
        ({
            let code = first_key_parentage_code(
                relations@.map_values(|b: BaseRelation| b@),
                ms@.map_values(|x: IndexPartitionMembership| x@),
                parentage_views(obs@),
            );
            &&& r is Ok <==> code == 0
            &&& r is Err ==> fails_with_text(r, key_parentage_field(code))
        }),
{
    let ghost rels = relations@.map_values(|b: BaseRelation| b@);
    let ghost mv = ms@.map_values(|x: IndexPartitionMembership| x@);
    let ghost views = parentage_views(obs@);
    let mut i: usize = 0;
    assert(views.skip(0) =~= views);
    while i < obs.len()
        invariant
            i <= obs@.len(),
            rels == relations@.map_values(|b: BaseRelation| b@),
            mv == ms@.map_values(|x: IndexPartitionMembership| x@),
            views == parentage_views(obs@),
            first_key_parentage_code(rels, mv, views) == first_key_parentage_code(rels, mv, views.skip(i as int)),
        decreases obs@.len() - i,
    {
        assert(views.skip(i as int)[0] == obs@[i as int]@);
        assert(views.skip(i as int).drop_first() =~= views.skip(i + 1));
        check_key_parentage(relations, ms, &obs[i])?;
        i = i + 1;
    }
    Ok(())
}

/// Sorts key-constraint parentage by coordinate, requires exactly the base snapshot's PRIMARY KEY
/// and UNIQUE constraints, and requires each recorded parent to be the key constraint that backs
/// the parent index of the constraint's same-name index (none when that parent index backs no key
/// constraint or there is no parent index).
pub fn canonicalize_parentage(
    relations: &[BaseRelation],
    partition: &IndexPartitionEvidence,
    observations: Vec<IndexConstraintParentageObservation>,
) -> (r: Result<Vec<IndexConstraintParentageObservation>, ObservationError>)
    ensures
        r is Ok <==> parentage_error(relations@.map_values(|b: BaseRelation| b@), partition.membership_views(), observations@)
            is None,
        r is Err ==> fails_with_text(
            r,
            parentage_error(relations@.map_values(|b: BaseRelation| b@), partition.membership_views(), observations@)->0,
        ),
        r matches Ok(v) ==> v@ == sorted_by_key(observations@) && strictly_sorted(v@) && same_elements(v@, observations@),
{
    proof {
        lemma_parentage_collision(observations@);
    }
    let sorted = match sort_by_key(observations) {
        Some(v) => v,
        None => {
            return Err(invalid("index_constraint_parentage_coordinate"));
        },
    };
    if !parentage_is_complete(relations, sorted.as_slice()) {
        return Err(invalid("index_constraint_parentage_completeness"));
    }
    check_all_key_parentage(relations, partition.memberships(), sorted.as_slice())?;
    Ok(sorted)
}

} // verus!

verus! {

/// Domain separator of the key-constraint parentage digest.
pub const CONSTRAINT_PARENTAGE_DIGEST_DOMAIN: &'static str =
    "conceptweave.postgres_schema_snapshot.v3.relation_partition.index_partition.constraint_parentage.v1";

/// Framing of one parentage observation: its coordinate, then its parent (tag 0, or tag 1 and the
/// parent's coordinate).
pub open spec fn frame_parentage(o: ParentageView) -> Seq<u8> {
    crate::exclusion_constraint::frame_constraint(o.coordinate) + frame_parent(o.parent_constraint)
}

/// Framing of a sequence of parentage observations, in order.
pub open spec fn frame_parentages(s: Seq<ParentageView>) -> Seq<u8>
    decreases s.len(),
{
    if s.len() == 0 {
        Seq::empty()
    } else {
        frame_parentages(s.drop_last()) + frame_parentage(s.last())
    }
}

/// The preimage of the key-constraint parentage digest.
pub open spec fn parentage_preimage(predecessor_digest: Seq<char>, s: Seq<ParentageView>) -> Seq<u8> {
    encode_utf8(CONSTRAINT_PARENTAGE_DIGEST_DOMAIN@) + frame_str(predecessor_digest) + frame_len(s.len()) + frame_parentages(s)
}

/// Appends the framing of a key-constraint coordinate.
pub fn put_parentage_coordinate(out: &mut Vec<u8>, c: &IndexConstraintParentageCoordinate)
    ensures
        final(out)@ == old(out)@ + crate::exclusion_constraint::frame_constraint(c@),
{
    put_str(out, c.schema_name());
    put_str(out, c.relation_name());
    put_str(out, c.relation_kind().token());
    put_str(out, c.constraint_name());
    proof {
        assert(final(out)@ =~= old(out)@ + crate::exclusion_constraint::frame_constraint(c@));
    }
}

fn put_parentage(out: &mut Vec<u8>, o: &IndexConstraintParentageObservation)
    ensures
        final(out)@ == old(out)@ + frame_parentage(o@),
{
    let ghost s0 = out@;
    put_parentage_coordinate(out, o.coordinate());
    let ghost s1 = out@;
    match o.parent_constraint() {
        None => {
            put_tag(out, 0);
            assert(out@ =~= s1 + frame_parent(o@.parent_constraint));
        },
        Some(p) => {
            put_tag(out, 1);
            put_parentage_coordinate(out, p);
            assert(out@ =~= s1 + frame_parent(o@.parent_constraint));
        },
    }
    proof {
        vstd::seq_lib::lemma_concat_associative(
            s0,
            crate::exclusion_constraint::frame_constraint(o@.coordinate),
            frame_parent(o@.parent_constraint),
        );
    }
}

fn compute_parentage_digest(predecessor_digest: &str, observations: &[IndexConstraintParentageObservation]) -> (d: String)
    ensures
        d@ == digest_text(parentage_preimage(predecessor_digest@, parentage_views(observations@))),
{
    let ghost views = parentage_views(observations@);
    let mut out: Vec<u8> = Vec::new();
    put_raw(&mut out, CONSTRAINT_PARENTAGE_DIGEST_DOMAIN.as_bytes());
    put_str(&mut out, predecessor_digest);
    put_len(&mut out, observations.len());
    let ghost header = out@;
    let mut i: usize = 0;
    while i < observations.len()
        invariant
            i <= observations@.len(),
            views == parentage_views(observations@),
            out@ == header + frame_parentages(views.subrange(0, i as int)),
        decreases observations@.len() - i,
    {
        put_parentage(&mut out, &observations[i]);
        proof {
            let next = views.subrange(0, i + 1);
            assert(next.drop_last() =~= views.subrange(0, i as int));
            assert(next.last() == observations@[i as int]@);
            assert(out@ =~= header + frame_parentages(next));
        }
        i = i + 1;
    }
    proof {
        assert(views.subrange(0, observations@.len() as int) =~= views);
    }
    finish_digest(&out)
}

/// The observation at `c` (the first such observation).
pub open spec fn parentage_at(obs: Seq<ParentageView>, c: ConstraintCoordinateView) -> Option<ParentageView>
    decreases obs.len(),
{
    if obs.len() == 0 {
        None
    } else if obs[0].coordinate == c {
        Some(obs[0])
    } else {
        parentage_at(obs.drop_first(), c)
    }
}

/// Finds the parentage observation at `c`.
pub fn find_parentage<'a>(obs: &'a [IndexConstraintParentageObservation], c: &IndexConstraintParentageCoordinate) -> (r: Option<
    &'a IndexConstraintParentageObservation,
>)
    ensures
        match r {
            Some(o) => parentage_at(parentage_views(obs@), c@) == Some(o@),
            None => parentage_at(parentage_views(obs@), c@) is None,
        },
{
    let ghost views = parentage_views(obs@);
    let mut i: usize = 0;
    assert(views.skip(0) =~= views);
    while i < obs.len()
        invariant
            i <= obs@.len(),
            views == parentage_views(obs@),
            parentage_at(views, c@) == parentage_at(views.skip(i as int), c@),
        decreases obs@.len() - i,
    {
        assert(views.skip(i as int)[0] == obs@[i as int]@);
        assert(views.skip(i as int).drop_first() =~= views.skip(i + 1));
        if obs[i].coordinate().same_as(c) {
            return Some(&obs[i]);
        }
        i = i + 1;
    }
    None
}

/// Complete key-constraint parentage over issued index-partition evidence.
///
/// It covers every PRIMARY KEY and UNIQUE constraint. A key constraint whose same-name backing
/// index is attached below a constraint-backed parent index records exactly that parent key
/// constraint; one attached below a parent index that backs no key constraint stays local with
/// `conparentid = 0`, as PostgreSQL's detach and attach leave it.
#[derive(Debug, PartialEq, Eq)]
pub struct IndexConstraintParentageSnapshot {
    source_connection_key: String,
    connection_policy_binding: String,
    snapshot_digest: String,
    extractor_revision: String,
    observed_at_utc: String,
    observations: Vec<IndexConstraintParentageObservation>,
}

impl IndexConstraintParentageSnapshot {
    /// The provenance of this snapshot, with its own digest.
    pub closed spec fn lineage(&self) -> LineageView {
        LineageView {
            source_connection_key: self.source_connection_key@,
            connection_policy_binding: self.connection_policy_binding@,
            snapshot_digest: self.snapshot_digest@,
            extractor_revision: self.extractor_revision@,
            observed_at_utc: self.observed_at_utc@,
        }
    }

    /// The observations, in coordinate order.
    pub closed spec fn observation_views(&self) -> Seq<ParentageView> {
        parentage_views(self.observations@)
    }

    /// Creates complete key-constraint parentage over the base snapshot's relations and the
    /// issued index-partition evidence, which it succeeds.
    pub fn new(
        relations: &[BaseRelation],
        partition: &IndexPartitionEvidence,
        observations: Vec<IndexConstraintParentageObservation>,
    ) -> (r: Result<Self, ObservationError>)
        ensures
            r is Ok <==> parentage_error(relations@.map_values(|b: BaseRelation| b@), partition.membership_views(), observations@)
                is None,
            r is Err ==> fails_with_text(
                r,
                parentage_error(relations@.map_values(|b: BaseRelation| b@), partition.membership_views(), observations@)->0,
            ),
            r matches Ok(s) ==> {
                &&& s.observation_views() == parentage_views(sorted_by_key(observations@))
                &&& s.lineage() == (LineageView {
                    snapshot_digest: digest_text(parentage_preimage(partition.lineage().snapshot_digest, s.observation_views())),
                    ..partition.lineage()
                })
            },
    {
        let observations = canonicalize_parentage(relations, partition, observations)?;
        let snapshot_digest = compute_parentage_digest(partition.snapshot_digest(), observations.as_slice());
        Ok(IndexConstraintParentageSnapshot {
            source_connection_key: partition.source_connection_key().to_owned(),
            connection_policy_binding: partition.connection_policy_binding().to_owned(),
            snapshot_digest,
            extractor_revision: partition.extractor_revision().to_owned(),
            observed_at_utc: partition.observed_at_utc().to_owned(),
            observations,
        })
    }

    /// Returns the stable source registry key.
    pub fn source_connection_key(&self) -> (s: &str)
        ensures
            s@ == self.lineage().source_connection_key,
    {
        self.source_connection_key.as_str()
    }

    /// Returns the immutable source-policy binding.
    pub fn connection_policy_binding(&self) -> (s: &str)
        ensures
            s@ == self.lineage().connection_policy_binding,
    {
        self.connection_policy_binding.as_str()
    }

    /// Returns the owner-computed domain-separated digest.
    pub fn snapshot_digest(&self) -> (s: &str)
        ensures
            s@ == self.lineage().snapshot_digest,
    {
        self.snapshot_digest.as_str()
    }

    /// Returns the exact extractor revision inherited from the predecessor stack.
    pub fn extractor_revision(&self) -> (s: &str)
        ensures
            s@ == self.lineage().extractor_revision,
    {
        self.extractor_revision.as_str()
    }

    /// Returns the exact canonical observation time inherited from the predecessor stack.
    pub fn observed_at_utc(&self) -> (s: &str)
        ensures
            s@ == self.lineage().observed_at_utc,
    {
        self.observed_at_utc.as_str()
    }

    /// Returns complete key-constraint parentage in coordinate order.
    pub fn observations(&self) -> (o: &[IndexConstraintParentageObservation])
        ensures
            parentage_views(o@) == self.observation_views(),
    {
        self.observations.as_slice()
    }

    /// Issues exact provenance for one observed key-constraint parentage coordinate.
    pub fn source_receipt(&self, coordinate: IndexConstraintParentageCoordinate) -> (r: Result<
        IndexConstraintParentageSourceReceipt,
        ObservationError,
    >)
        ensures
            r is Ok <==> parentage_at(self.observation_views(), coordinate@) is Some,
            r matches Ok(receipt) ==> receipt.lineage() == self.lineage() && Some(receipt.location_view())
                == parentage_at(self.observation_views(), coordinate@),
            r matches Err(e) ==> e matches ObservationError::UnknownObservationLocation { location: l } && l@
                == parentage_location(coordinate@),
    {
        let observation = match find_parentage(self.observations.as_slice(), &coordinate) {
            Some(o) => o,
            None => {
                return Err(ObservationError::UnknownObservationLocation { location: coordinate.canonical_location() });
            },
        };
        Ok(IndexConstraintParentageSourceReceipt {
            source_id: self.source_connection_key.clone(),
            connection_policy_binding: self.connection_policy_binding.clone(),
            source_digest: self.snapshot_digest.clone(),
            extractor_revision: self.extractor_revision.clone(),
            observed_at_utc: self.observed_at_utc.clone(),
            location: observation.clone(),
        })
    }
}

} // verus!
