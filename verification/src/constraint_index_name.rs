//! Ordinary exclusion-constraint backing-index naming evidence.
//!
//! PostgreSQL implements an ordinary `EXCLUDE` constraint with an index of the same name, and that
//! name also occupies the schema-scoped relation namespace. The constraint coordinate and its
//! resolved backing index are independent facts, so this layer checks that their names agree and
//! that the name occurs exactly once among the schema's indexes and never as a relation name.

use vstd::prelude::*;

use crate::catalog::{
    frame_index, put_index, BaseIndex, BaseIndexView, BaseNotNullConstraint, BaseRelation, BaseRelationView,
    ConstraintCoordinateView, IndexCoordinateView, IndexPartitionCoordinate, IndexPartitionEvidence, LineageView,
    MembershipView,
};
use crate::constraint_access_method::{rebind_exclusion_constraints, rebinding_refusal};
use crate::constraint_catalog_shape::{
    IndexExclusionConstraintCatalogShapeObservation, IndexExclusionConstraintCatalogShapeSnapshot,
    CATALOG_SHAPE_DIGEST_DOMAIN,
};
use crate::constraint_property::{
    constraint_property_location, constraint_property_preimage, coordinate_refusal_code, coordinates_of,
    render_constraint_property_location,
};
use crate::digest::{digest_text, finish_digest, frame_len, frame_str, put_len, put_raw, put_str};
use crate::error::{fails_with_text, invalid, ObservationError};
use crate::exclusion_constraint::{
    constraint_views, frame_constraint, put_constraint, refused_as, ConstraintRefusal, ExclusionConstraintView,
    IndexExclusionConstraintCoordinate, IndexExclusionConstraintObservation, IndexExclusionConstraintSnapshot,
};
use crate::order::{sorted_by_key, text_eq};
use vstd::utf8::encode_utf8;

verus! {

/// The value of one backing-index name binding: the constraint and its resolved backing index.
pub struct IndexNameBindingView {
    pub coordinate: ConstraintCoordinateView,
    pub backing_index: IndexCoordinateView,
}

/// Validated name binding of one ordinary `EXCLUDE` constraint and its backing index.
#[derive(Debug, PartialEq, Eq)]
pub struct IndexExclusionConstraintIndexNameObservation {
    coordinate: IndexExclusionConstraintCoordinate,
    backing_index: IndexPartitionCoordinate,
}

impl View for IndexExclusionConstraintIndexNameObservation {
    type V = IndexNameBindingView;

    closed spec fn view(&self) -> IndexNameBindingView {
        IndexNameBindingView { coordinate: self.coordinate@, backing_index: self.backing_index@ }
    }
}

impl Clone for IndexExclusionConstraintIndexNameObservation {
    fn clone(&self) -> (c: Self)
        ensures
            c@ == self@,
    {
        IndexExclusionConstraintIndexNameObservation {
            coordinate: self.coordinate.clone(),
            backing_index: self.backing_index.clone(),
        }
    }
}

impl IndexExclusionConstraintIndexNameObservation {
    /// Returns the exact exclusion-constraint coordinate.
    pub fn coordinate(&self) -> (c: &IndexExclusionConstraintCoordinate)
        ensures
            c@ == self@.coordinate,
    {
        &self.coordinate
    }

    /// Returns the exact resolved backing-index coordinate.
    pub fn backing_index(&self) -> (c: &IndexPartitionCoordinate)
        ensures
            c@ == self@.backing_index,
    {
        &self.backing_index
    }

    /// Returns the collision-safe location of this name binding.
    pub fn canonical_location(&self) -> (s: String)
        ensures
            s@ == constraint_property_location(self@.coordinate, "backing-index-name"@),
    {
        render_constraint_property_location(&self.coordinate, "backing-index-name")
    }
}

/// The name bindings of exclusion constraints, in order.
pub open spec fn bindings_of(s: Seq<ExclusionConstraintView>) -> Seq<IndexNameBindingView> {
    s.map_values(|c: ExclusionConstraintView| IndexNameBindingView { coordinate: c.coordinate, backing_index: c.backing_index })
}

/// Some relation of `schema` is called `name`.
pub open spec fn relation_name_taken(rels: Seq<BaseRelationView>, schema: Seq<char>, name: Seq<char>) -> bool {
    exists|a: int| 0 <= a < rels.len() && (#[trigger] rels[a]).schema_name == schema && rels[a].relation_name == name
}

/// The number of indexes called `name`.
pub open spec fn named_index_count(idxs: Seq<BaseIndexView>, name: Seq<char>) -> nat
    decreases idxs.len(),
{
    if idxs.len() == 0 {
        0
    } else {
        named_index_count(idxs.drop_last(), name) + if idxs.last().index_name == name {
            1nat
        } else {
            0nat
        }
    }
}

/// The number of indexes called `name` over the relations of `schema`.
pub open spec fn schema_index_count(rels: Seq<BaseRelationView>, schema: Seq<char>, name: Seq<char>) -> nat
    decreases rels.len(),
{
    if rels.len() == 0 {
        0
    } else {
        schema_index_count(rels.drop_last(), schema, name) + if rels.last().schema_name == schema {
            named_index_count(rels.last().indexes, name)
        } else {
            0nat
        }
    }
}

/// The number of indexes called like `idx` over the relations that own `idx`.
pub open spec fn owner_index_count(rels: Seq<BaseRelationView>, idx: IndexCoordinateView) -> nat
    decreases rels.len(),
{
    if rels.len() == 0 {
        0
    } else {
        owner_index_count(rels.drop_last(), idx) + if rels.last().schema_name == idx.schema_name
            && rels.last().relation_name == idx.relation_name && rels.last().relation_kind == idx.relation_kind {
            named_index_count(rels.last().indexes, idx.index_name)
        } else {
            0nat
        }
    }
}

/// The backing-index name is no relation's name in its schema, names exactly one index of the
/// schema, and that index belongs to the backing index's relation.
pub open spec fn namespace_ok(rels: Seq<BaseRelationView>, idx: IndexCoordinateView) -> bool {
    &&& !relation_name_taken(rels, idx.schema_name, idx.index_name)
    &&& schema_index_count(rels, idx.schema_name, idx.index_name) == 1
    &&& owner_index_count(rels, idx) == 1
}

/// 1 when the constraint and its backing index are named differently, 2 when the name does not
/// hold its place in the schema's relation namespace, 0 otherwise.
pub open spec fn index_name_code(rels: Seq<BaseRelationView>, c: ExclusionConstraintView) -> int {
    if c.coordinate.constraint_name != c.backing_index.index_name {
        1
    } else if !namespace_ok(rels, c.backing_index) {
        2
    } else {
        0
    }
}

/// The first non-zero naming code over the constraints, in order.
pub open spec fn first_index_name_code(rels: Seq<BaseRelationView>, s: Seq<ExclusionConstraintView>) -> int
    decreases s.len(),
{
    if s.len() == 0 {
        0
    } else if index_name_code(rels, s[0]) != 0 {
        index_name_code(rels, s[0])
    } else {
        first_index_name_code(rels, s.drop_first())
    }
}

proof fn lemma_first_index_name_code_range(rels: Seq<BaseRelationView>, s: Seq<ExclusionConstraintView>)
    ensures
        0 <= first_index_name_code(rels, s) <= 2,
    decreases s.len(),
{
    if s.len() > 0 {
        lemma_first_index_name_code_range(rels, s.drop_first());
    }
}

/// A count capped at two: what tells none, one and many apart.
pub open spec fn cap2(n: nat) -> nat {
    if n >= 2 {
        2
    } else {
        n
    }
}

fn count_named_indexes(idxs: &[BaseIndex], name: &str) -> (c: u8)
    ensures
        c == cap2(named_index_count(idxs@.map_values(|x: BaseIndex| x@), name@)),
{
    let ghost views = idxs@.map_values(|x: BaseIndex| x@);
    let mut c: u8 = 0;
    let mut j: usize = 0;
    while j < idxs.len()
        invariant
            j <= idxs@.len(),
            views == idxs@.map_values(|x: BaseIndex| x@),
            c == cap2(named_index_count(views.subrange(0, j as int), name@)),
        decreases idxs@.len() - j,
    {
        let ghost next = views.subrange(0, j + 1);
        assert(next.drop_last() =~= views.subrange(0, j as int));
        assert(next.last() == idxs@[j as int]@);
        if text_eq(idxs[j].index_name(), name) && c < 2 {
            c = c + 1;
        }
        j = j + 1;
    }
    assert(views.subrange(0, idxs@.len() as int) =~= views);
    c
}

fn check_index_namespace(relations: &[BaseRelation], idx: &IndexPartitionCoordinate) -> (b: bool)
    ensures
        b == namespace_ok(relations@.map_values(|r: BaseRelation| r@), idx@),
{
    let ghost rels = relations@.map_values(|r: BaseRelation| r@);
    let mut schema_count: u8 = 0;
    let mut owner_count: u8 = 0;
    let mut i: usize = 0;
    while i < relations.len()
        invariant
            i <= relations@.len(),
            rels == relations@.map_values(|r: BaseRelation| r@),
            forall|a: int| 0 <= a < i ==> !((#[trigger] rels[a]).schema_name == idx@.schema_name && rels[a].relation_name == idx@.index_name),
            schema_count == cap2(schema_index_count(rels.subrange(0, i as int), idx@.schema_name, idx@.index_name)),
            owner_count == cap2(owner_index_count(rels.subrange(0, i as int), idx@)),
        decreases relations@.len() - i,
    {
        let ghost next = rels.subrange(0, i + 1);
        assert(next.drop_last() =~= rels.subrange(0, i as int));
        assert(next.last() == relations@[i as int]@);
        let r = &relations[i];
        if text_eq(r.schema_name(), idx.schema_name()) {
            if text_eq(r.relation_name(), idx.index_name()) {
                assert(rels[i as int].schema_name == idx@.schema_name && rels[i as int].relation_name == idx@.index_name);
                return false;
            }
            let n = count_named_indexes(r.indexes(), idx.index_name());
            schema_count = if schema_count + n >= 2 {
                2
            } else {
                schema_count + n
            };
            if text_eq(r.relation_name(), idx.relation_name()) && r.relation_kind() == idx.relation_kind() {
                owner_count = if owner_count + n >= 2 {
                    2
                } else {
                    owner_count + n
                };
            }
        }
        i = i + 1;
    }
    assert(rels.subrange(0, relations@.len() as int) =~= rels);
    schema_count == 1 && owner_count == 1
}

fn check_index_names(relations: &[BaseRelation], constraints: &[IndexExclusionConstraintObservation]) -> (r: Result<
    Vec<IndexExclusionConstraintIndexNameObservation>,
    ObservationError,
>)
    ensures
        ({
            let code = first_index_name_code(relations@.map_values(|b: BaseRelation| b@), constraint_views(constraints@));
            &&& r is Ok <==> code == 0
            &&& code == 1 ==> fails_with_text(r, "index_exclusion_constraint_index_name_state"@)
            &&& code == 2 ==> fails_with_text(r, "index_exclusion_constraint_index_name_namespace"@)
        }),
        r matches Ok(v) ==> v@.map_values(|o: IndexExclusionConstraintIndexNameObservation| o@) == bindings_of(
            constraint_views(constraints@),
        ),
{
    let ghost rels = relations@.map_values(|b: BaseRelation| b@);
    let ghost views = constraint_views(constraints@);
    let mut out: Vec<IndexExclusionConstraintIndexNameObservation> = Vec::new();
    let mut i: usize = 0;
    assert(views.skip(0) =~= views);
    while i < constraints.len()
        invariant
            i <= constraints@.len(),
            rels == relations@.map_values(|b: BaseRelation| b@),
            views == constraint_views(constraints@),
            first_index_name_code(rels, views) == first_index_name_code(rels, views.skip(i as int)),
            out@.map_values(|o: IndexExclusionConstraintIndexNameObservation| o@) == bindings_of(views).subrange(0, i as int),
        decreases constraints@.len() - i,
    {
        assert(views.skip(i as int)[0] == constraints@[i as int]@);
        assert(views.skip(i as int).drop_first() =~= views.skip(i + 1));
        let c = &constraints[i];
        if !text_eq(c.coordinate().constraint_name(), c.backing_index().index_name()) {
            return Err(invalid("index_exclusion_constraint_index_name_state"));
        }
        if !check_index_namespace(relations, c.backing_index()) {
            return Err(invalid("index_exclusion_constraint_index_name_namespace"));
        }
        let o = IndexExclusionConstraintIndexNameObservation {
            coordinate: c.coordinate().clone(),
            backing_index: c.backing_index().clone(),
        };
        assert(o@ == bindings_of(views)[i as int]);
        let ghost before = out@;
        out.push(o);
        proof {
            assert(out@.map_values(|o: IndexExclusionConstraintIndexNameObservation| o@) =~= before.map_values(
                |o: IndexExclusionConstraintIndexNameObservation| o@,
            ).push(bindings_of(views)[i as int]));
            assert(out@.map_values(|o: IndexExclusionConstraintIndexNameObservation| o@) =~= bindings_of(views).subrange(
                0,
                i + 1,
            ));
        }
        i = i + 1;
    }
    assert(bindings_of(views).subrange(0, constraints@.len() as int) =~= bindings_of(views));
    Ok(out)
}

} // verus!

verus! {

/// The field reported when a predecessor cannot be rebound.
pub const INDEX_NAME_BINDING_FIELD: &'static str = "index_exclusion_constraint_index_name_predecessor_binding";

fn clone_shape_observations(s: &[IndexExclusionConstraintCatalogShapeObservation]) -> (v: Vec<
    IndexExclusionConstraintCatalogShapeObservation,
>)
    ensures
        v@ == s@,
{
    let mut v: Vec<IndexExclusionConstraintCatalogShapeObservation> = Vec::new();
    let mut i: usize = 0;
    while i < s.len()
        invariant
            i <= s@.len(),
            v@ == s@.subrange(0, i as int),
        decreases s@.len() - i,
    {
        v.push(s[i].clone());
        proof {
            assert(v@ =~= s@.subrange(0, i + 1));
        }
        i = i + 1;
    }
    proof {
        assert(s@.subrange(0, s@.len() as int) =~= s@);
    }
    v
}

/// Why the predecessor chain cannot be rebound, or `None` when it can: the exclusion-constraint
/// evidence must be rebuilt from the base snapshot and the index-partition evidence to its issued
/// digest, and the catalog-shape evidence must be rebuilt over it (its own refusal) to its issued
/// digest.
#[verifier::opaque]
pub open spec fn chain_refusal(
    rels: Seq<BaseRelationView>,
    not_null: Option<Seq<ConstraintCoordinateView>>,
    ms: Seq<MembershipView>,
    partition_digest: Seq<char>,
    constraints: Seq<IndexExclusionConstraintObservation>,
    constraint_digest: Seq<char>,
    shapes: Seq<IndexExclusionConstraintCatalogShapeObservation>,
    shape_digest: Seq<char>,
) -> Option<ConstraintRefusal> {
    let shape_code = coordinate_refusal_code(coordinates_of(sorted_by_key(constraints)), shapes);
    if rebinding_refusal(rels, not_null, ms, partition_digest, constraints, constraint_digest, INDEX_NAME_BINDING_FIELD@)
        is Some {
        rebinding_refusal(rels, not_null, ms, partition_digest, constraints, constraint_digest, INDEX_NAME_BINDING_FIELD@)
    } else if shape_code == 1 {
        Some(ConstraintRefusal::Field("index_exclusion_constraint_catalog_shape_coordinate"@))
    } else if shape_code == 2 {
        Some(ConstraintRefusal::Field("index_exclusion_constraint_catalog_shape_completeness"@))
    } else if digest_text(constraint_property_preimage(CATALOG_SHAPE_DIGEST_DOMAIN@, constraint_digest, sorted_by_key(shapes)))
        != shape_digest {
        Some(ConstraintRefusal::Field(INDEX_NAME_BINDING_FIELD@))
    } else {
        None
    }
}

/// Why naming evidence is refused, or `None` when it is issued: the predecessor chain must be
/// rebound; then, in constraint order, each constraint must carry its backing index's name, and
/// that name must hold its place in the schema's relation namespace.
pub open spec fn index_name_refusal(
    rels: Seq<BaseRelationView>,
    not_null: Option<Seq<ConstraintCoordinateView>>,
    ms: Seq<MembershipView>,
    partition_digest: Seq<char>,
    constraints: Seq<IndexExclusionConstraintObservation>,
    constraint_digest: Seq<char>,
    shapes: Seq<IndexExclusionConstraintCatalogShapeObservation>,
    shape_digest: Seq<char>,
) -> Option<ConstraintRefusal> {
    let code = first_index_name_code(rels, constraint_views(sorted_by_key(constraints)));
    if chain_refusal(rels, not_null, ms, partition_digest, constraints, constraint_digest, shapes, shape_digest) is Some {
        chain_refusal(rels, not_null, ms, partition_digest, constraints, constraint_digest, shapes, shape_digest)
    } else if code == 1 {
        Some(ConstraintRefusal::Field("index_exclusion_constraint_index_name_state"@))
    } else if code == 2 {
        Some(ConstraintRefusal::Field("index_exclusion_constraint_index_name_namespace"@))
    } else {
        None
    }
}

fn rebind_chain(
    relations: &[BaseRelation],
    not_null_constraints: Option<&[BaseNotNullConstraint]>,
    partition: &IndexPartitionEvidence,
    constraint_snapshot: &IndexExclusionConstraintSnapshot,
    catalog_shape_snapshot: &IndexExclusionConstraintCatalogShapeSnapshot,
) -> (r: Result<(IndexExclusionConstraintSnapshot, IndexExclusionConstraintCatalogShapeSnapshot), ObservationError>)
    ensures
        ({
            let refusal = chain_refusal(
                relations@.map_values(|b: BaseRelation| b@),
                match not_null_constraints {
                    Some(s) => Some(s@.map_values(|x: BaseNotNullConstraint| x@)),
                    None => None,
                },
                partition.membership_views(),
                partition.lineage().snapshot_digest,
                constraint_snapshot.entries(),
                constraint_snapshot.lineage().snapshot_digest,
                catalog_shape_snapshot.entries(),
                catalog_shape_snapshot.lineage().snapshot_digest,
            );
            &&& r is Ok <==> refusal is None
            &&& refusal matches Some(f) ==> refused_as(r, f)
        }),
        r matches Ok((c, s)) ==> {
            &&& c.entries() == sorted_by_key(constraint_snapshot.entries())
            &&& s.lineage() == (LineageView {
                snapshot_digest: catalog_shape_snapshot.lineage().snapshot_digest,
                ..partition.lineage()
            })
        },
{
    proof {
        reveal(chain_refusal);
    }
    let rebound = rebind_exclusion_constraints(
        relations,
        not_null_constraints,
        partition,
        constraint_snapshot,
        INDEX_NAME_BINDING_FIELD,
    )?;
    let shapes = clone_shape_observations(catalog_shape_snapshot.observations());
    let rebound_shape = IndexExclusionConstraintCatalogShapeSnapshot::new(&rebound, shapes)?;
    if !text_eq(rebound_shape.snapshot_digest(), catalog_shape_snapshot.snapshot_digest()) {
        return Err(invalid(INDEX_NAME_BINDING_FIELD));
    }
    Ok((rebound, rebound_shape))
}

/// Domain separator of the backing-index naming digest.
pub const INDEX_NAME_DIGEST_DOMAIN: &'static str =
    "conceptweave.postgres_schema_snapshot.v3.relation_partition.index_partition.exclusion_constraint.index_name.v1";

/// Framing of one name binding: the constraint coordinate and the backing-index coordinate.
pub open spec fn frame_index_name_binding(b: IndexNameBindingView) -> Seq<u8> {
    frame_constraint(b.coordinate) + frame_index(b.backing_index)
}

/// Framing of name bindings, in order.
pub open spec fn frame_index_name_bindings(s: Seq<IndexNameBindingView>) -> Seq<u8>
    decreases s.len(),
{
    if s.len() == 0 {
        Seq::empty()
    } else {
        frame_index_name_bindings(s.drop_last()) + frame_index_name_binding(s.last())
    }
}

/// The preimage of the backing-index naming digest over the catalog-shape digest.
pub open spec fn index_name_preimage(predecessor_digest: Seq<char>, s: Seq<IndexNameBindingView>) -> Seq<u8> {
    encode_utf8(INDEX_NAME_DIGEST_DOMAIN@) + frame_str(predecessor_digest) + frame_len(s.len()) + frame_index_name_bindings(s)
}

fn compute_index_name_digest(predecessor_digest: &str, observations: &[IndexExclusionConstraintIndexNameObservation]) -> (d:
    String)
    ensures
        d@ == digest_text(
            index_name_preimage(
                predecessor_digest@,
                observations@.map_values(|o: IndexExclusionConstraintIndexNameObservation| o@),
            ),
        ),
{
    let ghost views = observations@.map_values(|o: IndexExclusionConstraintIndexNameObservation| o@);
    let mut out: Vec<u8> = Vec::new();
    put_raw(&mut out, INDEX_NAME_DIGEST_DOMAIN.as_bytes());
    put_str(&mut out, predecessor_digest);
    put_len(&mut out, observations.len());
    let ghost header = out@;
    let mut i: usize = 0;
    while i < observations.len()
        invariant
            i <= observations@.len(),
            views == observations@.map_values(|o: IndexExclusionConstraintIndexNameObservation| o@),
            out@ == header + frame_index_name_bindings(views.subrange(0, i as int)),
        decreases observations@.len() - i,
    {
        let ghost before = out@;
        put_constraint(&mut out, observations[i].coordinate());
        put_index(&mut out, observations[i].backing_index());
        proof {
            let next = views.subrange(0, i + 1);
            assert(next.drop_last() =~= views.subrange(0, i as int));
            assert(next.last() == observations@[i as int]@);
            assert(out@ =~= header + frame_index_name_bindings(next));
        }
        i = i + 1;
    }
    proof {
        assert(views.subrange(0, observations@.len() as int) =~= views);
    }
    finish_digest(&out)
}

} // verus!

verus! {

/// The first name binding of constraint `c`.
pub open spec fn binding_at(s: Seq<IndexNameBindingView>, c: ConstraintCoordinateView) -> Option<IndexNameBindingView>
    decreases s.len(),
{
    if s.len() == 0 {
        None
    } else if s[0].coordinate == c {
        Some(s[0])
    } else {
        binding_at(s.drop_first(), c)
    }
}

fn find_binding<'a>(obs: &'a [IndexExclusionConstraintIndexNameObservation], c: &IndexExclusionConstraintCoordinate) -> (r:
    Option<&'a IndexExclusionConstraintIndexNameObservation>)
    ensures
        match r {
            Some(o) => binding_at(obs@.map_values(|x: IndexExclusionConstraintIndexNameObservation| x@), c@) == Some(o@),
            None => binding_at(obs@.map_values(|x: IndexExclusionConstraintIndexNameObservation| x@), c@) is None,
        },
{
    let ghost views = obs@.map_values(|x: IndexExclusionConstraintIndexNameObservation| x@);
    let mut i: usize = 0;
    assert(views.skip(0) =~= views);
    while i < obs.len()
        invariant
            i <= obs@.len(),
            views == obs@.map_values(|x: IndexExclusionConstraintIndexNameObservation| x@),
            binding_at(views, c@) == binding_at(views.skip(i as int), c@),
        decreases obs@.len() - i,
    {
        assert(views.skip(i as int)[0] == obs@[i as int]@);
        assert(views.skip(i as int).drop_first() =~= views.skip(i + 1));
        if obs[i].coordinate().same_as(c) {
            return Some(&obs[i]);
        }
        i = i + 1;
    }
    None
}

/// Immutable provenance receipt for one validated backing-index name binding.
#[derive(Debug, PartialEq, Eq)]
pub struct IndexExclusionConstraintIndexNameSourceReceipt {
    source_id: String,
    connection_policy_binding: String,
    source_digest: String,
    extractor_revision: String,
    observed_at_utc: String,
    location: IndexExclusionConstraintIndexNameObservation,
}

impl IndexExclusionConstraintIndexNameSourceReceipt {
    /// The provenance carried by this receipt.
    pub closed spec fn lineage(&self) -> LineageView {
        LineageView {
            source_connection_key: self.source_id@,
            connection_policy_binding: self.connection_policy_binding@,
            snapshot_digest: self.source_digest@,
            extractor_revision: self.extractor_revision@,
            observed_at_utc: self.observed_at_utc@,
        }
    }

    /// The name binding covered by this receipt.
    pub closed spec fn location_view(&self) -> IndexNameBindingView {
        self.location@
    }

    /// Returns the stable source registry key, never credential material.
    pub fn source_id(&self) -> (s: &str)
        ensures
            s@ == self.lineage().source_connection_key,
    {
        self.source_id.as_str()
    }

    /// Returns the immutable source-policy binding.
    pub fn connection_policy_binding(&self) -> (s: &str)
        ensures
            s@ == self.lineage().connection_policy_binding,
    {
        self.connection_policy_binding.as_str()
    }

    /// Returns the owner-computed backing-index naming digest.
    pub fn source_digest(&self) -> (s: &str)
        ensures
            s@ == self.lineage().snapshot_digest,
    {
        self.source_digest.as_str()
    }

    /// Returns the exact extractor revision inherited from the predecessor.
    pub fn extractor_revision(&self) -> (s: &str)
        ensures
            s@ == self.lineage().extractor_revision,
    {
        self.extractor_revision.as_str()
    }

    /// Returns the exact canonical UTC observation time inherited from the predecessor.
    pub fn observed_at_utc(&self) -> (s: &str)
        ensures
            s@ == self.lineage().observed_at_utc,
    {
        self.observed_at_utc.as_str()
    }

    /// Returns the validated constraint/index name binding.
    pub fn location(&self) -> (o: &IndexExclusionConstraintIndexNameObservation)
        ensures
            o@ == self.location_view(),
    {
        &self.location
    }
}

/// Complete ordinary `EXCLUDE` backing-index naming integrity over one exact predecessor chain.
///
/// Each constraint of the rebuilt exclusion-constraint evidence carries the name of its backing
/// index, and that name occurs once among the indexes of its schema, on its own relation, and
/// never as a relation name there.
#[derive(Debug, PartialEq, Eq)]
pub struct IndexExclusionConstraintIndexNameSnapshot {
    source_connection_key: String,
    connection_policy_binding: String,
    source_snapshot_digest: String,
    snapshot_digest: String,
    extractor_revision: String,
    observed_at_utc: String,
    observations: Vec<IndexExclusionConstraintIndexNameObservation>,
}

impl IndexExclusionConstraintIndexNameSnapshot {
    /// The provenance of this snapshot, with its own digest.
    pub closed spec fn lineage(&self) -> LineageView {
        LineageView {
            source_connection_key: self.source_connection_key@,
            connection_policy_binding: self.connection_policy_binding@,
            snapshot_digest: self.snapshot_digest@,
            extractor_revision: self.extractor_revision@,
            observed_at_utc: self.observed_at_utc@,
        }
    }

    /// The digest of the base snapshot this evidence was validated against.
    pub closed spec fn source_snapshot(&self) -> Seq<char> {
        self.source_snapshot_digest@
    }

    /// The name bindings, in constraint order.
    pub closed spec fn binding_views(&self) -> Seq<IndexNameBindingView> {
        self.observations@.map_values(|o: IndexExclusionConstraintIndexNameObservation| o@)
    }

    /// Rebinds the exclusion-constraint and catalog-shape evidence to the base snapshot (its
    /// relations, NOT NULL constraints and digest) and the index-partition evidence, and validates
    /// the backing-index name of every constraint.
    pub fn new(
        base_snapshot_digest: &str,
        relations: &[BaseRelation],
        not_null_constraints: Option<&[BaseNotNullConstraint]>,
        partition: &IndexPartitionEvidence,
        constraint_snapshot: &IndexExclusionConstraintSnapshot,
        catalog_shape_snapshot: &IndexExclusionConstraintCatalogShapeSnapshot,
    ) -> (r: Result<Self, ObservationError>)
        ensures
            ({
                let refusal = index_name_refusal(
                    relations@.map_values(|b: BaseRelation| b@),
                    match not_null_constraints {
                        Some(s) => Some(s@.map_values(|x: BaseNotNullConstraint| x@)),
                        None => None,
                    },
                    partition.membership_views(),
                    partition.lineage().snapshot_digest,
                    constraint_snapshot.entries(),
                    constraint_snapshot.lineage().snapshot_digest,
                    catalog_shape_snapshot.entries(),
                    catalog_shape_snapshot.lineage().snapshot_digest,
                );
                &&& r is Ok <==> refusal is None
                &&& refusal matches Some(f) ==> refused_as(r, f)
            }),
            r matches Ok(s) ==> {
                &&& s.binding_views() == bindings_of(constraint_views(sorted_by_key(constraint_snapshot.entries())))
                &&& s.source_snapshot() == base_snapshot_digest@
                &&& s.lineage() == (LineageView {
                    snapshot_digest: digest_text(
                        index_name_preimage(catalog_shape_snapshot.lineage().snapshot_digest, s.binding_views()),
                    ),
                    ..partition.lineage()
                })
            },
    {
        let (rebound, rebound_shape) = rebind_chain(
            relations,
            not_null_constraints,
            partition,
            constraint_snapshot,
            catalog_shape_snapshot,
        )?;
        proof {
            lemma_first_index_name_code_range(
                relations@.map_values(|b: BaseRelation| b@),
                constraint_views(sorted_by_key(constraint_snapshot.entries())),
            );
        }
        let observations = check_index_names(relations, rebound.observations())?;
        let snapshot_digest = compute_index_name_digest(rebound_shape.snapshot_digest(), observations.as_slice());
        Ok(IndexExclusionConstraintIndexNameSnapshot {
            source_connection_key: rebound_shape.source_connection_key().to_owned(),
            connection_policy_binding: rebound_shape.connection_policy_binding().to_owned(),
            source_snapshot_digest: base_snapshot_digest.to_owned(),
            snapshot_digest,
            extractor_revision: rebound_shape.extractor_revision().to_owned(),
            observed_at_utc: rebound_shape.observed_at_utc().to_owned(),
            observations,
        })
    }

    /// Returns the stable source-connection registry key.
    pub fn source_connection_key(&self) -> (s: &str)
        ensures
            s@ == self.lineage().source_connection_key,
    {
        self.source_connection_key.as_str()
    }

    /// Returns the immutable source-policy binding.
    pub fn connection_policy_binding(&self) -> (s: &str)
        ensures
            s@ == self.lineage().connection_policy_binding,
    {
        self.connection_policy_binding.as_str()
    }

    /// Returns the digest of the base snapshot this generation was validated against.
    pub fn source_snapshot_digest(&self) -> (s: &str)
        ensures
            s@ == self.source_snapshot(),
    {
        self.source_snapshot_digest.as_str()
    }

    /// Returns the domain-separated backing-index naming digest.
    pub fn snapshot_digest(&self) -> (s: &str)
        ensures
            s@ == self.lineage().snapshot_digest,
    {
        self.snapshot_digest.as_str()
    }

    /// Returns the exact extractor revision inherited from the catalog-shape predecessor.
    pub fn extractor_revision(&self) -> (s: &str)
        ensures
            s@ == self.lineage().extractor_revision,
    {
        self.extractor_revision.as_str()
    }

    /// Returns the exact canonical UTC observation time inherited from the predecessor.
    pub fn observed_at_utc(&self) -> (s: &str)
        ensures
            s@ == self.lineage().observed_at_utc,
    {
        self.observed_at_utc.as_str()
    }

    /// Returns validated name bindings in constraint order.
    pub fn observations(&self) -> (o: &[IndexExclusionConstraintIndexNameObservation])
        ensures
            o@.map_values(|x: IndexExclusionConstraintIndexNameObservation| x@) == self.binding_views(),
    {
        self.observations.as_slice()
    }

    /// Issues provenance for one validated backing-index name binding.
    pub fn source_receipt(&self, coordinate: IndexExclusionConstraintCoordinate) -> (r: Result<
        IndexExclusionConstraintIndexNameSourceReceipt,
        ObservationError,
    >)
        ensures
            r is Ok <==> binding_at(self.binding_views(), coordinate@) is Some,
            r matches Ok(receipt) ==> receipt.lineage() == self.lineage() && Some(receipt.location_view()) == binding_at(
                self.binding_views(),
                coordinate@,
            ),
            r matches Err(e) ==> e matches ObservationError::UnknownObservationLocation { location: l } && l@
                == constraint_property_location(coordinate@, "backing-index-name"@),
    {
        let observation = match find_binding(self.observations.as_slice(), &coordinate) {
            Some(o) => o,
            None => {
                return Err(
                    ObservationError::UnknownObservationLocation {
                        location: render_constraint_property_location(&coordinate, "backing-index-name"),
                    },
                );
            },
        };
        Ok(IndexExclusionConstraintIndexNameSourceReceipt {
            source_id: self.source_connection_key.clone(),
            connection_policy_binding: self.connection_policy_binding.clone(),
            source_digest: self.snapshot_digest.clone(),
            extractor_revision: self.extractor_revision.clone(),
            observed_at_utc: self.observed_at_utc.clone(),
            location: observation.clone(),
        })
    }
}

} // verus!
