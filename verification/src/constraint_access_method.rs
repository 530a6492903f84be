//! Exclusion-constraint access-method capability evidence.
//!
//! An ordinary `EXCLUDE` constraint is not valid merely because its backing index reports
//! `pg_index.indisexclusion`. PostgreSQL 18 refuses exclusion constraints whose index access
//! method has no tuple-at-a-time scans (`amgettuple`), which SQL shows as
//! `pg_indexam_has_property(am_oid, 'can_exclude')`. This layer keeps that independently observed
//! capability and binds it to the exact `conindid` backing index and its observed access-method
//! name, rather than inferring the capability from a list of built-in methods.

use vstd::prelude::*;

use crate::catalog::{
    frame_index, lemma_coordinate_lt_irreflexive, lemma_coordinate_lt_transitive, put_index, BaseNotNullConstraint,
    BaseRelation, BaseRelationView, ConstraintCoordinateView, IndexCoordinateView, IndexPartitionCoordinate,
    IndexPartitionEvidence, LineageView, MembershipView,
};
use crate::constraint_property::{
    canonicalize_constraint_properties, compute_constraint_property_digest, constraint_property_location,
    constraint_property_preimage, coordinate_refusal_code, coordinates_of, find_constraint_observation,
    observation_of_constraint, render_constraint_property_location, sorted_by_constraint, ConstraintBound,
    ConstraintPropertyView,
};
use crate::digest::{digest_text, frame_bool, frame_str, put_bool, put_str};
use crate::error::{fails_with, invalid, ObservationError};
use crate::exclusion::{base_index_of, find_base_index};
use crate::exclusion_constraint::{
    constraint_at, constraint_key, constraint_lt, constraint_views, exclusion_constraint_preimage,
    exclusion_constraint_refusal, refused_as, ConstraintRefusal, ExclusionConstraintView,
    IndexExclusionConstraintCoordinate, IndexExclusionConstraintObservation, IndexExclusionConstraintSnapshot,
};
use crate::order::{sorted_by_key, text_eq, KeyOrder, SortKey};
use crate::text::is_blank;

verus! {

/// The access-method facts of one backing index.
pub struct CapabilityView {
    pub backing_index: IndexCoordinateView,
    pub access_method_name: Seq<char>,
    pub can_exclude: bool,
}

/// Exact access-method exclusion capability observed for one ordinary `EXCLUDE` backing index.
#[derive(Debug, PartialEq, Eq)]
pub struct IndexExclusionConstraintAccessMethodCapabilityObservation {
    coordinate: IndexExclusionConstraintCoordinate,
    backing_index: IndexPartitionCoordinate,
    access_method_name: String,
    can_exclude: bool,
}

impl View for IndexExclusionConstraintAccessMethodCapabilityObservation {
    type V = ConstraintPropertyView<CapabilityView>;

    closed spec fn view(&self) -> ConstraintPropertyView<CapabilityView> {
        ConstraintPropertyView {
            coordinate: self.coordinate@,
            property: CapabilityView {
                backing_index: self.backing_index@,
                access_method_name: self.access_method_name@,
                can_exclude: self.can_exclude,
            },
        }
    }
}

impl Clone for IndexExclusionConstraintAccessMethodCapabilityObservation {
    fn clone(&self) -> (c: Self)
        ensures
            c@ == self@,
    {
        IndexExclusionConstraintAccessMethodCapabilityObservation {
            coordinate: self.coordinate.clone(),
            backing_index: self.backing_index.clone(),
            access_method_name: self.access_method_name.clone(),
            can_exclude: self.can_exclude,
        }
    }
}

impl IndexExclusionConstraintAccessMethodCapabilityObservation {
    /// Records the independently resolved access-method capability of one exact `conindid`
    /// index; the access-method name must be non-blank.
    pub fn new(
        coordinate: IndexExclusionConstraintCoordinate,
        backing_index: IndexPartitionCoordinate,
        access_method_name: &str,
        can_exclude: bool,
    ) -> (r: Result<Self, ObservationError>)
        ensures
            r is Ok <==> !is_blank(access_method_name@),
            is_blank(access_method_name@) ==> fails_with(r, "index_exclusion_constraint_access_method_name"),
            r matches Ok(o) ==> o@ == (ConstraintPropertyView {
                coordinate: coordinate@,
                property: CapabilityView {
                    backing_index: backing_index@,
                    access_method_name: access_method_name@,
                    can_exclude,
                },
            }),
    {
        crate::catalog::validate_nonblank(access_method_name, "index_exclusion_constraint_access_method_name")?;
        Ok(IndexExclusionConstraintAccessMethodCapabilityObservation {
            coordinate,
            backing_index,
            access_method_name: access_method_name.to_owned(),
            can_exclude,
        })
    }

    /// Returns the exact exclusion-constraint coordinate.
    pub fn coordinate(&self) -> (c: &IndexExclusionConstraintCoordinate)
        ensures
            c@ == self@.coordinate,
    {
        &self.coordinate
    }

    /// Returns the exact resolved `pg_constraint.conindid` backing-index coordinate.
    pub fn backing_index(&self) -> (c: &IndexPartitionCoordinate)
        ensures
            c@ == self@.property.backing_index,
    {
        &self.backing_index
    }

    /// Returns the independently observed backing-index access-method name.
    pub fn access_method_name(&self) -> (s: &str)
        ensures
            s@ == self@.property.access_method_name,
    {
        self.access_method_name.as_str()
    }

    /// Returns `pg_indexam_has_property(am_oid, 'can_exclude')` for the observed access method.
    pub fn can_exclude(&self) -> (b: bool)
        ensures
            b == self@.property.can_exclude,
    {
        self.can_exclude
    }

    /// Returns the collision-safe source location of this capability evidence.
    pub fn canonical_location(&self) -> (s: String)
        ensures
            s@ == constraint_property_location(self@.coordinate, "access-method-exclusion-capability"@),
    {
        proof {
            reveal_strlit("access-method-exclusion-capability");
        }
        render_constraint_property_location(&self.coordinate, "access-method-exclusion-capability")
    }
}

impl ConstraintBound for IndexExclusionConstraintAccessMethodCapabilityObservation {
    open spec fn bound_constraint(&self) -> ConstraintCoordinateView {
        self@.coordinate
    }

    open spec fn constraint_property_frame(&self) -> Seq<u8> {
        frame_index(self@.property.backing_index) + frame_str(self@.property.access_method_name) + frame_bool(
            self@.property.can_exclude,
        )
    }

    fn constraint_coordinate(&self) -> (c: &IndexExclusionConstraintCoordinate) {
        &self.coordinate
    }

    fn put_constraint_property(&self, out: &mut Vec<u8>) {
        let ghost s0 = out@;
        let ghost a = frame_index(self@.property.backing_index);
        let ghost b = frame_str(self@.property.access_method_name);
        let ghost c = frame_bool(self@.property.can_exclude);
        put_index(out, &self.backing_index);
        put_str(out, self.access_method_name.as_str());
        proof {
            vstd::seq_lib::lemma_concat_associative(s0, a, b);
        }
        put_bool(out, self.can_exclude);
        proof {
            vstd::seq_lib::lemma_concat_associative(s0, a + b, c);
        }
    }
}

impl SortKey for IndexExclusionConstraintAccessMethodCapabilityObservation {
    open spec fn key_lt(self, other: Self) -> bool {
        constraint_lt(self@.coordinate, other@.coordinate)
    }

    proof fn lemma_key_lt_transitive(a: Self, b: Self, c: Self) {
        lemma_coordinate_lt_transitive(constraint_key(a@.coordinate), constraint_key(b@.coordinate), constraint_key(c@.coordinate));
    }

    proof fn lemma_key_lt_irreflexive(a: Self) {
        lemma_coordinate_lt_irreflexive(constraint_key(a@.coordinate));
    }

    fn compare_key(&self, other: &Self) -> (o: KeyOrder) {
        proof {
            lemma_coordinate_lt_irreflexive(constraint_key(self@.coordinate));
        }
        self.coordinate.compare(&other.coordinate)
    }
}

/// Immutable provenance receipt for one exact exclusion access-method capability observation.
#[derive(Debug, PartialEq, Eq)]
pub struct IndexExclusionConstraintAccessMethodCapabilitySourceReceipt {
    source_id: String,
    connection_policy_binding: String,
    source_digest: String,
    extractor_revision: String,
    observed_at_utc: String,
    location: IndexExclusionConstraintAccessMethodCapabilityObservation,
}

impl IndexExclusionConstraintAccessMethodCapabilitySourceReceipt {
    /// The provenance carried by this receipt.
    pub closed spec fn lineage(&self) -> LineageView {
        LineageView {
            source_connection_key: self.source_id@,
            connection_policy_binding: self.connection_policy_binding@,
            snapshot_digest: self.source_digest@,
            extractor_revision: self.extractor_revision@,
            observed_at_utc: self.observed_at_utc@,
        }
    }

    /// The observation covered by this receipt.
    pub closed spec fn location_view(&self) -> ConstraintPropertyView<CapabilityView> {
        self.location@
    }

    /// Returns the stable source registry key, never credential material.
    pub fn source_id(&self) -> (s: &str)
        ensures
            s@ == self.lineage().source_connection_key,
    {
        self.source_id.as_str()
    }

    /// Returns the immutable source-policy binding.
    pub fn connection_policy_binding(&self) -> (s: &str)
        ensures
            s@ == self.lineage().connection_policy_binding,
    {
        self.connection_policy_binding.as_str()
    }

    /// Returns the owner-computed capability successor digest.
    pub fn source_digest(&self) -> (s: &str)
        ensures
            s@ == self.lineage().snapshot_digest,
    {
        self.source_digest.as_str()
    }

    /// Returns the exact extractor revision inherited from the predecessor stack.
    pub fn extractor_revision(&self) -> (s: &str)
        ensures
            s@ == self.lineage().extractor_revision,
    {
        self.extractor_revision.as_str()
    }

    /// Returns the exact canonical UTC observation time inherited from the predecessor stack.
    pub fn observed_at_utc(&self) -> (s: &str)
        ensures
            s@ == self.lineage().observed_at_utc,
    {
        self.observed_at_utc.as_str()
    }

    /// Returns the exact validated capability observation.
    pub fn location(&self) -> (o: &IndexExclusionConstraintAccessMethodCapabilityObservation)
        ensures
            o@ == self.location_view(),
    {
        &self.location
    }
}

} // verus!

verus! {

/// 1 when the capability is bound to another backing index than the constraint's, to an index
/// missing from the base snapshot, to an index whose access method was not captured, or to
/// another access method than the captured one; 2 when the access method cannot exclude; 0
/// otherwise.
pub open spec fn capability_code(
    rels: Seq<BaseRelationView>,
    constraints: Seq<ExclusionConstraintView>,
    o: ConstraintPropertyView<CapabilityView>,
) -> int {
    match constraint_at(constraints, o.coordinate) {
        None => 1,
        Some(c) => if c.backing_index != o.property.backing_index {
            1
        } else {
            match base_index_of(rels, o.property.backing_index) {
                None => 1,
                Some(i) => match i.access_method {
                    None => 1,
                    Some(m) => if m != o.property.access_method_name {
                        1
                    } else if !o.property.can_exclude {
                        2
                    } else {
                        0
                    },
                },
            }
        },
    }
}

/// The first non-zero capability code over `obs`, in order.
pub open spec fn first_capability_code(
    rels: Seq<BaseRelationView>,
    constraints: Seq<ExclusionConstraintView>,
    obs: Seq<ConstraintPropertyView<CapabilityView>>,
) -> int
    decreases obs.len(),
{
    if obs.len() == 0 {
        0
    } else if capability_code(rels, constraints, obs[0]) != 0 {
        capability_code(rels, constraints, obs[0])
    } else {
        first_capability_code(rels, constraints, obs.drop_first())
    }
}

proof fn lemma_first_capability_code_range(
    rels: Seq<BaseRelationView>,
    constraints: Seq<ExclusionConstraintView>,
    obs: Seq<ConstraintPropertyView<CapabilityView>>,
)
    ensures
        0 <= first_capability_code(rels, constraints, obs) <= 2,
    decreases obs.len(),
{
    if obs.len() > 0 {
        lemma_first_capability_code_range(rels, constraints, obs.drop_first());
    }
}

/// The capability values of a sequence of observations.
pub open spec fn capability_views(s: Seq<IndexExclusionConstraintAccessMethodCapabilityObservation>) -> Seq<
    ConstraintPropertyView<CapabilityView>,
> {
    s.map_values(|o: IndexExclusionConstraintAccessMethodCapabilityObservation| o@)
}

/// The field reported when the issued exclusion-constraint evidence cannot be rebound.
pub const CAPABILITY_BINDING_FIELD: &'static str = "index_exclusion_constraint_access_method_capability_predecessor_binding";

/// Why issued exclusion-constraint evidence cannot be rebound, or `None` when it can: its own
/// refusal when rebuilt from the base snapshot and the index-partition evidence, or a rebuilt
/// digest other than the issued one.
#[verifier::opaque]
pub open spec fn rebinding_refusal(
    rels: Seq<BaseRelationView>,
    not_null: Option<Seq<ConstraintCoordinateView>>,
    ms: Seq<MembershipView>,
    partition_digest: Seq<char>,
    constraints: Seq<IndexExclusionConstraintObservation>,
    constraint_digest: Seq<char>,
    binding_field: Seq<char>,
) -> Option<ConstraintRefusal> {
    if exclusion_constraint_refusal(rels, not_null, ms, constraints) is Some {
        exclusion_constraint_refusal(rels, not_null, ms, constraints)
    } else if digest_text(exclusion_constraint_preimage(partition_digest, constraint_views(sorted_by_key(constraints))))
        != constraint_digest {
        Some(ConstraintRefusal::Field(binding_field))
    } else {
        None
    }
}

/// Why capability observations are refused, or `None` when they are accepted: the predecessor
/// constraint evidence must first be rebuilt from the base snapshot and the index-partition
/// evidence (its own refusal), to the very digest it was issued with; then the observations must
/// cover exactly its constraints, once each; then, in coordinate order, each must be bound to its
/// constraint's backing index and that index's captured access method, which must be able to
/// exclude.
pub open spec fn capability_refusal(
    rels: Seq<BaseRelationView>,
    not_null: Option<Seq<ConstraintCoordinateView>>,
    ms: Seq<MembershipView>,
    partition_digest: Seq<char>,
    constraints: Seq<IndexExclusionConstraintObservation>,
    constraint_digest: Seq<char>,
    obs: Seq<IndexExclusionConstraintAccessMethodCapabilityObservation>,
) -> Option<ConstraintRefusal> {
    let rebound = sorted_by_key(constraints);
    if rebinding_refusal(rels, not_null, ms, partition_digest, constraints, constraint_digest, CAPABILITY_BINDING_FIELD@)
        is Some {
        rebinding_refusal(rels, not_null, ms, partition_digest, constraints, constraint_digest, CAPABILITY_BINDING_FIELD@)
    } else if coordinate_refusal_code(coordinates_of(rebound), obs) == 1 {
        Some(ConstraintRefusal::Field("index_exclusion_constraint_access_method_capability_coordinate"@))
    } else if coordinate_refusal_code(coordinates_of(rebound), obs) == 2 {
        Some(ConstraintRefusal::Field("index_exclusion_constraint_access_method_capability_completeness"@))
    } else if first_capability_code(rels, constraint_views(rebound), capability_views(sorted_by_key(obs))) == 1 {
        Some(ConstraintRefusal::Field("index_exclusion_constraint_access_method_capability_binding"@))
    } else if first_capability_code(rels, constraint_views(rebound), capability_views(sorted_by_key(obs))) == 2 {
        Some(ConstraintRefusal::Field("index_exclusion_constraint_access_method_capability_state"@))
    } else {
        None
    }
}

pub(crate) fn clone_constraint_observations(s: &[IndexExclusionConstraintObservation]) -> (v: Vec<IndexExclusionConstraintObservation>)
    ensures
        v@ == s@,
{
    let mut v: Vec<IndexExclusionConstraintObservation> = Vec::new();
    let mut i: usize = 0;
    while i < s.len()
        invariant
            i <= s@.len(),
            v@ == s@.subrange(0, i as int),
        decreases s@.len() - i,
    {
        v.push(s[i].clone());
        proof {
            assert(v@ =~= s@.subrange(0, i + 1));
        }
        i = i + 1;
    }
    proof {
        assert(s@.subrange(0, s@.len() as int) =~= s@);
    }
    v
}

fn check_capability(
    relations: &[BaseRelation],
    constraints: &[IndexExclusionConstraintObservation],
    o: &IndexExclusionConstraintAccessMethodCapabilityObservation,
) -> (r: Result<(), ObservationError>)
    ensures
        ({
            let code = capability_code(relations@.map_values(|b: BaseRelation| b@), constraint_views(constraints@), o@);
            &&& r is Ok <==> code == 0
            &&& code == 1 ==> fails_with(r, "index_exclusion_constraint_access_method_capability_binding")
            &&& code == 2 ==> fails_with(r, "index_exclusion_constraint_access_method_capability_state")
        }),
{
    let constraint = match crate::exclusion_constraint::lookup_constraint(constraints, o.coordinate()) {
        Some(c) => c,
        None => {
            return Err(invalid("index_exclusion_constraint_access_method_capability_binding"));
        },
    };
    if !constraint.backing_index().same_as(o.backing_index()) {
        return Err(invalid("index_exclusion_constraint_access_method_capability_binding"));
    }
    let index = match find_base_index(relations, o.backing_index()) {
        Some(i) => i,
        None => {
            return Err(invalid("index_exclusion_constraint_access_method_capability_binding"));
        },
    };
    let access_method = match index.access_method() {
        Some(m) => m,
        None => {
            return Err(invalid("index_exclusion_constraint_access_method_capability_binding"));
        },
    };
    if !text_eq(access_method, o.access_method_name()) {
        return Err(invalid("index_exclusion_constraint_access_method_capability_binding"));
    }
    if !o.can_exclude() {
        return Err(invalid("index_exclusion_constraint_access_method_capability_state"));
    }
    Ok(())
}

fn check_capabilities(
    relations: &[BaseRelation],
    constraints: &[IndexExclusionConstraintObservation],
    obs: &[IndexExclusionConstraintAccessMethodCapabilityObservation],
) -> (r: Result<(), ObservationError>)
    ensures
        ({
            let code = first_capability_code(
                relations@.map_values(|b: BaseRelation| b@),
                constraint_views(constraints@),
                capability_views(obs@),
            );
            &&& r is Ok <==> code == 0
            &&& 0 <= code <= 2
            &&& code == 1 ==> fails_with(r, "index_exclusion_constraint_access_method_capability_binding")
            &&& code == 2 ==> fails_with(r, "index_exclusion_constraint_access_method_capability_state")
        }),
{
    let ghost rels = relations@.map_values(|b: BaseRelation| b@);
    let ghost cons = constraint_views(constraints@);
    let ghost views = capability_views(obs@);
    proof {
        lemma_first_capability_code_range(rels, cons, views);
    }
    let mut i: usize = 0;
    assert(views.skip(0) =~= views);
    while i < obs.len()
        invariant
            i <= obs@.len(),
            rels == relations@.map_values(|b: BaseRelation| b@),
            cons == constraint_views(constraints@),
            views == capability_views(obs@),
            first_capability_code(rels, cons, views) == first_capability_code(rels, cons, views.skip(i as int)),
        decreases obs@.len() - i,
    {
        assert(views.skip(i as int)[0] == obs@[i as int]@);
        assert(views.skip(i as int).drop_first() =~= views.skip(i + 1));
        check_capability(relations, constraints, &obs[i])?;
        i = i + 1;
    }
    Ok(())
}

} // verus!

verus! {

/// Rebuilds exclusion-constraint evidence from the base snapshot and the index-partition
/// evidence and requires it to reproduce the issued digest.
pub(crate) fn rebind_exclusion_constraints(
    relations: &[BaseRelation],
    not_null_constraints: Option<&[BaseNotNullConstraint]>,
    partition: &IndexPartitionEvidence,
    constraint_snapshot: &IndexExclusionConstraintSnapshot,
    binding_field: &'static str,
) -> (r: Result<IndexExclusionConstraintSnapshot, ObservationError>)
    ensures
        ({
            let refusal = rebinding_refusal(
                relations@.map_values(|b: BaseRelation| b@),
                match not_null_constraints {
                    Some(s) => Some(s@.map_values(|x: BaseNotNullConstraint| x@)),
                    None => None,
                },
                partition.membership_views(),
                partition.lineage().snapshot_digest,
                constraint_snapshot.entries(),
                constraint_snapshot.lineage().snapshot_digest,
                binding_field@,
            );
            &&& r is Ok <==> refusal is None
            &&& refusal matches Some(f) ==> refused_as(r, f)
            &&& r matches Ok(s) ==> s.entries() == sorted_by_key(constraint_snapshot.entries()) && s.lineage() == (LineageView {
                snapshot_digest: constraint_snapshot.lineage().snapshot_digest,
                ..partition.lineage()
            })
        }),
{
    proof {
        reveal(rebinding_refusal);
    }
    let entries = clone_constraint_observations(constraint_snapshot.observations());
    let rebound = IndexExclusionConstraintSnapshot::new(relations, not_null_constraints, partition, entries)?;
    if !text_eq(rebound.snapshot_digest(), constraint_snapshot.snapshot_digest()) {
        return Err(invalid(binding_field));
    }
    Ok(rebound)
}

/// Domain separator of the access-method capability digest.
pub const ACCESS_METHOD_CAPABILITY_DIGEST_DOMAIN: &'static str =
    "conceptweave.postgres_schema_snapshot.v3.relation_partition.index_partition.exclusion_constraint.access_method_capability.v1";

/// Complete access-method capability evidence over one exact exclusion-constraint snapshot.
///
/// Every predecessor constraint has exactly one capability observation, bound to its exact
/// backing index and that index's captured access method, and every such method can exclude.
#[derive(Debug, PartialEq, Eq)]
pub struct IndexExclusionConstraintAccessMethodCapabilitySnapshot {
    source_connection_key: String,
    connection_policy_binding: String,
    snapshot_digest: String,
    extractor_revision: String,
    observed_at_utc: String,
    observations: Vec<IndexExclusionConstraintAccessMethodCapabilityObservation>,
}

impl IndexExclusionConstraintAccessMethodCapabilitySnapshot {
    /// The provenance of this snapshot, with its own digest.
    pub closed spec fn lineage(&self) -> LineageView {
        LineageView {
            source_connection_key: self.source_connection_key@,
            connection_policy_binding: self.connection_policy_binding@,
            snapshot_digest: self.snapshot_digest@,
            extractor_revision: self.extractor_revision@,
            observed_at_utc: self.observed_at_utc@,
        }
    }

    /// The observations held, in coordinate order.
    pub closed spec fn entries(&self) -> Seq<IndexExclusionConstraintAccessMethodCapabilityObservation> {
        self.observations@
    }

    /// Creates complete access-method capability evidence over one exact exclusion-constraint
    /// snapshot, which is first rebuilt from the base snapshot's relations and NOT NULL
    /// constraints and the index-partition evidence and must reproduce its digest.
    pub fn new(
        relations: &[BaseRelation],
        not_null_constraints: Option<&[BaseNotNullConstraint]>,
        partition: &IndexPartitionEvidence,
        constraint_snapshot: &IndexExclusionConstraintSnapshot,
        observations: Vec<IndexExclusionConstraintAccessMethodCapabilityObservation>,
    ) -> (r: Result<Self, ObservationError>)
        ensures
            ({
                let refusal = capability_refusal(
                    relations@.map_values(|b: BaseRelation| b@),
                    match not_null_constraints {
                        Some(s) => Some(s@.map_values(|x: BaseNotNullConstraint| x@)),
                        None => None,
                    },
                    partition.membership_views(),
                    partition.lineage().snapshot_digest,
                    constraint_snapshot.entries(),
                    constraint_snapshot.lineage().snapshot_digest,
                    observations@,
                );
                &&& r is Ok <==> refusal is None
                &&& refusal matches Some(f) ==> refused_as(r, f)
            }),
            r matches Ok(s) ==> {
                &&& s.entries() == sorted_by_key(observations@)
                &&& s.lineage() == (LineageView {
                    snapshot_digest: digest_text(
                        constraint_property_preimage(
                            ACCESS_METHOD_CAPABILITY_DIGEST_DOMAIN@,
                            constraint_snapshot.lineage().snapshot_digest,
                            s.entries(),
                        ),
                    ),
                    ..partition.lineage()
                })
            },
    {
        let ghost old_observations = observations@;
        let rebound = rebind_exclusion_constraints(
            relations,
            not_null_constraints,
            partition,
            constraint_snapshot,
            CAPABILITY_BINDING_FIELD,
        )?;
        proof {
            assert(sorted_by_constraint::<IndexExclusionConstraintAccessMethodCapabilityObservation>());
        }
        let observations = canonicalize_constraint_properties(
            rebound.observations(),
            observations,
            "index_exclusion_constraint_access_method_capability_coordinate",
            "index_exclusion_constraint_access_method_capability_completeness",
        )?;
        let constraints = rebound.observations();
        assert(constraints@ == sorted_by_key(constraint_snapshot.entries()));
        assert(observations@ == sorted_by_key(old_observations));
        let checked = check_capabilities(relations, constraints, observations.as_slice());
        if let Err(e) = checked {
            return Err(e);
        }
        let snapshot_digest = compute_constraint_property_digest(
            ACCESS_METHOD_CAPABILITY_DIGEST_DOMAIN,
            rebound.snapshot_digest(),
            observations.as_slice(),
        );
        Ok(IndexExclusionConstraintAccessMethodCapabilitySnapshot {
            source_connection_key: rebound.source_connection_key().to_owned(),
            connection_policy_binding: rebound.connection_policy_binding().to_owned(),
            snapshot_digest,
            extractor_revision: rebound.extractor_revision().to_owned(),
            observed_at_utc: rebound.observed_at_utc().to_owned(),
            observations,
        })
    }

    /// Returns the stable source-connection registry key.
    pub fn source_connection_key(&self) -> (s: &str)
        ensures
            s@ == self.lineage().source_connection_key,
    {
        self.source_connection_key.as_str()
    }

    /// Returns the immutable source-policy binding.
    pub fn connection_policy_binding(&self) -> (s: &str)
        ensures
            s@ == self.lineage().connection_policy_binding,
    {
        self.connection_policy_binding.as_str()
    }

    /// Returns the domain-separated capability successor digest.
    pub fn snapshot_digest(&self) -> (s: &str)
        ensures
            s@ == self.lineage().snapshot_digest,
    {
        self.snapshot_digest.as_str()
    }

    /// Returns the exact extractor revision inherited from the predecessor stack.
    pub fn extractor_revision(&self) -> (s: &str)
        ensures
            s@ == self.lineage().extractor_revision,
    {
        self.extractor_revision.as_str()
    }

    /// Returns the exact canonical UTC observation time inherited from the predecessor stack.
    pub fn observed_at_utc(&self) -> (s: &str)
        ensures
            s@ == self.lineage().observed_at_utc,
    {
        self.observed_at_utc.as_str()
    }

    /// Returns complete capability observations in coordinate order.
    pub fn observations(&self) -> (o: &[IndexExclusionConstraintAccessMethodCapabilityObservation])
        ensures
            o@ == self.entries(),
    {
        self.observations.as_slice()
    }

    /// Issues exact provenance for one observed exclusion constraint.
    pub fn source_receipt(&self, coordinate: IndexExclusionConstraintCoordinate) -> (r: Result<
        IndexExclusionConstraintAccessMethodCapabilitySourceReceipt,
        ObservationError,
    >)
        ensures
            r is Ok <==> observation_of_constraint(self.entries(), coordinate@) is Some,
            r matches Ok(receipt) ==> receipt.lineage() == self.lineage() && receipt.location_view()
                == observation_of_constraint(self.entries(), coordinate@)->0@,
            r matches Err(e) ==> e matches ObservationError::UnknownObservationLocation { location: l } && l@
                == constraint_property_location(coordinate@, "access-method-exclusion-capability"@),
    {
        let observation = match find_constraint_observation(self.observations.as_slice(), &coordinate) {
            Some(o) => o,
            None => {
                proof {
                    reveal_strlit("access-method-exclusion-capability");
                }
                return Err(
                    ObservationError::UnknownObservationLocation {
                        location: render_constraint_property_location(&coordinate, "access-method-exclusion-capability"),
                    },
                );
            },
        };
        Ok(IndexExclusionConstraintAccessMethodCapabilitySourceReceipt {
            source_id: self.source_connection_key.clone(),
            connection_policy_binding: self.connection_policy_binding.clone(),
            source_digest: self.snapshot_digest.clone(),
            extractor_revision: self.extractor_revision.clone(),
            observed_at_utc: self.observed_at_utc.clone(),
            location: observation.clone(),
        })
    }
}

} // verus!
