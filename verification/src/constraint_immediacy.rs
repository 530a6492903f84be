//! Ordinary exclusion-constraint timing and backing-index immediacy coherence.
//!
//! PostgreSQL stores constraint deferrability in `pg_constraint.condeferrable` and, separately,
//! backing-index immediacy in `pg_index.indimmediate`. For the index of an ordinary `EXCLUDE`
//! constraint PostgreSQL 18 writes `indimmediate = !condeferrable`. Both facts stay independently
//! observed; this layer checks that every constraint and its backing index agree.

use vstd::prelude::*;

use crate::catalog::{
    frame_index, put_index, BaseIndexView, BaseNotNullConstraint, BaseRelation, BaseRelationView,
    ConstraintCoordinateView, IndexCoordinateView, IndexPartitionCoordinate, IndexPartitionEvidence, LineageView,
    MembershipView,
};
use crate::constraint_access_method::{rebind_exclusion_constraints, rebinding_refusal};
use crate::constraint_property::{
    constraint_property_location, coordinate_refusal_code, coordinates_of, find_constraint_observation,
    observation_of_constraint, render_constraint_property_location, ConstraintBound,
};
use crate::constraint_timing::{ConstraintTiming, IssuedConstraintTiming};
use crate::digest::{digest_text, finish_digest, frame_bool, frame_len, frame_str, put_bool, put_len, put_raw, put_str};
use crate::error::{fails_with_text, invalid, ObservationError};
use crate::exclusion::{base_index_of, find_base_index};
use crate::exclusion_constraint::{
    constraint_views, frame_constraint, put_constraint, refused_as, ConstraintRefusal, ExclusionConstraintView,
    IndexExclusionConstraintCoordinate, IndexExclusionConstraintObservation, IndexExclusionConstraintSnapshot,
};
use crate::order::sorted_by_key;
use vstd::utf8::encode_utf8;

verus! {

/// The value of one immediacy observation.
pub struct IndexImmediacyView {
    pub coordinate: ConstraintCoordinateView,
    pub backing_index: IndexCoordinateView,
    pub constraint_deferrable: bool,
    pub index_immediate: bool,
}

/// Verified timing/immediacy state of one ordinary `EXCLUDE` constraint and its backing index.
#[derive(Debug, PartialEq, Eq)]
pub struct IndexExclusionConstraintImmediacyObservation {
    coordinate: IndexExclusionConstraintCoordinate,
    backing_index: IndexPartitionCoordinate,
    constraint_deferrable: bool,
    index_immediate: bool,
}

impl View for IndexExclusionConstraintImmediacyObservation {
    type V = IndexImmediacyView;

    closed spec fn view(&self) -> IndexImmediacyView {
        IndexImmediacyView {
            coordinate: self.coordinate@,
            backing_index: self.backing_index@,
            constraint_deferrable: self.constraint_deferrable,
            index_immediate: self.index_immediate,
        }
    }
}

impl Clone for IndexExclusionConstraintImmediacyObservation {
    fn clone(&self) -> (c: Self)
        ensures
            c@ == self@,
    {
        IndexExclusionConstraintImmediacyObservation {
            coordinate: self.coordinate.clone(),
            backing_index: self.backing_index.clone(),
            constraint_deferrable: self.constraint_deferrable,
            index_immediate: self.index_immediate,
        }
    }
}

impl IndexExclusionConstraintImmediacyObservation {
    /// Returns the exact exclusion-constraint coordinate.
    pub fn coordinate(&self) -> (c: &IndexExclusionConstraintCoordinate)
        ensures
            c@ == self@.coordinate,
    {
        &self.coordinate
    }

    /// Returns the exact backing-index coordinate.
    pub fn backing_index(&self) -> (c: &IndexPartitionCoordinate)
        ensures
            c@ == self@.backing_index,
    {
        &self.backing_index
    }

    /// Returns `pg_constraint.condeferrable` from the timing evidence.
    pub fn constraint_deferrable(&self) -> (b: bool)
        ensures
            b == self@.constraint_deferrable,
    {
        self.constraint_deferrable
    }

    /// Returns the backing index's `pg_index.indimmediate`.
    pub fn index_immediate(&self) -> (b: bool)
        ensures
            b == self@.index_immediate,
    {
        self.index_immediate
    }

    /// Returns the collision-safe location of this coherence observation.
    pub fn canonical_location(&self) -> (s: String)
        ensures
            s@ == constraint_property_location(self@.coordinate, "timing-index-coherence"@),
    {
        render_constraint_property_location(&self.coordinate, "timing-index-coherence")
    }
}

/// The field reported when a predecessor cannot be rebound.
pub const IMMEDIACY_BINDING_FIELD: &'static str = "index_exclusion_constraint_immediacy_predecessor_binding";

/// The catalog flags of an index were captured.
pub open spec fn catalog_flags_captured(i: BaseIndexView) -> bool {
    i.exclusion is Some && i.primary is Some && i.immediate is Some
}

/// How one constraint fails to cohere with its backing index, or 0: 1 no timing, 2 no backing
/// index in the base snapshot, 3 catalog flags not captured, 4 immediacy equal to deferrability.
pub open spec fn immediacy_code(rels: Seq<BaseRelationView>, timings: Seq<ConstraintTiming>, c: ExclusionConstraintView) -> int {
    match observation_of_constraint(timings, c.coordinate) {
        None => 1,
        Some(t) => match base_index_of(rels, c.backing_index) {
            None => 2,
            Some(i) => if !catalog_flags_captured(i) {
                3
            } else if i.immediate->0 == t@.property.deferrable {
                4
            } else {
                0
            },
        },
    }
}

/// The first non-zero coherence code over the constraints, in order.
pub open spec fn first_immediacy_code(rels: Seq<BaseRelationView>, timings: Seq<ConstraintTiming>, s: Seq<ExclusionConstraintView>) -> int
    decreases s.len(),
{
    if s.len() == 0 {
        0
    } else if immediacy_code(rels, timings, s[0]) != 0 {
        immediacy_code(rels, timings, s[0])
    } else {
        first_immediacy_code(rels, timings, s.drop_first())
    }
}

/// The field reported for a non-zero coherence code.
pub open spec fn immediacy_field(code: int) -> Seq<char> {
    if code == 1 {
        "index_exclusion_constraint_immediacy_completeness"@
    } else if code == 2 {
        "index_exclusion_constraint_immediacy_backing_index"@
    } else if code == 3 {
        "index_exclusion_constraint_immediacy_catalog_flags"@
    } else {
        "index_exclusion_constraint_immediacy_state"@
    }
}

/// The immediacy observations issued for coherent constraints: each constraint's deferrability
/// and its backing index's opposite immediacy.
pub open spec fn immediacies_of(timings: Seq<ConstraintTiming>, s: Seq<ExclusionConstraintView>) -> Seq<IndexImmediacyView> {
    s.map_values(
        |c: ExclusionConstraintView|
            IndexImmediacyView {
                coordinate: c.coordinate,
                backing_index: c.backing_index,
                constraint_deferrable: observation_of_constraint(timings, c.coordinate)->0@.property.deferrable,
                index_immediate: !observation_of_constraint(timings, c.coordinate)->0@.property.deferrable,
            },
    )
}

/// Why the predecessors cannot be rebound, or `None` when they can: the exclusion-constraint
/// evidence must be rebuilt from the base snapshot and the index-partition evidence to its issued
/// digest, and the timing evidence must time exactly its constraints, once each.
#[verifier::opaque]
pub open spec fn immediacy_chain_refusal(
    rels: Seq<BaseRelationView>,
    not_null: Option<Seq<ConstraintCoordinateView>>,
    ms: Seq<MembershipView>,
    partition_digest: Seq<char>,
    constraints: Seq<IndexExclusionConstraintObservation>,
    constraint_digest: Seq<char>,
    timings: Seq<ConstraintTiming>,
    binding_field: Seq<char>,
) -> Option<ConstraintRefusal> {
    if rebinding_refusal(rels, not_null, ms, partition_digest, constraints, constraint_digest, binding_field) is Some {
        rebinding_refusal(rels, not_null, ms, partition_digest, constraints, constraint_digest, binding_field)
    } else if coordinate_refusal_code(coordinates_of(sorted_by_key(constraints)), timings) != 0 {
        Some(ConstraintRefusal::Field(binding_field))
    } else {
        None
    }
}

/// Why immediacy evidence is refused, or `None` when it is issued: the predecessors must be
/// rebound; then, in constraint order, each constraint must cohere with its backing index.
pub open spec fn immediacy_refusal(
    rels: Seq<BaseRelationView>,
    not_null: Option<Seq<ConstraintCoordinateView>>,
    ms: Seq<MembershipView>,
    partition_digest: Seq<char>,
    constraints: Seq<IndexExclusionConstraintObservation>,
    constraint_digest: Seq<char>,
    timings: Seq<ConstraintTiming>,
) -> Option<ConstraintRefusal> {
    let code = first_immediacy_code(rels, timings, constraint_views(sorted_by_key(constraints)));
    if immediacy_chain_refusal(
        rels,
        not_null,
        ms,
        partition_digest,
        constraints,
        constraint_digest,
        timings,
        IMMEDIACY_BINDING_FIELD@,
    ) is Some {
        immediacy_chain_refusal(
            rels,
            not_null,
            ms,
            partition_digest,
            constraints,
            constraint_digest,
            timings,
            IMMEDIACY_BINDING_FIELD@,
        )
    } else if code != 0 {
        Some(ConstraintRefusal::Field(immediacy_field(code)))
    } else {
        None
    }
}

proof fn lemma_first_immediacy_code_range(rels: Seq<BaseRelationView>, timings: Seq<ConstraintTiming>, s: Seq<ExclusionConstraintView>)
    ensures
        0 <= first_immediacy_code(rels, timings, s) <= 4,
    decreases s.len(),
{
    if s.len() > 0 {
        lemma_first_immediacy_code_range(rels, timings, s.drop_first());
    }
}

fn timings_cover(constraints: &[IndexExclusionConstraintObservation], timings: &[ConstraintTiming]) -> (b: bool)
    ensures
        b == (coordinate_refusal_code(coordinates_of(constraints@), timings@) == 0),
{
    crate::constraint_property::coordinates_match_once(constraints, timings)
}

pub(crate) fn rebind_with_timing(
    relations: &[BaseRelation],
    not_null_constraints: Option<&[BaseNotNullConstraint]>,
    partition: &IndexPartitionEvidence,
    constraint_snapshot: &IndexExclusionConstraintSnapshot,
    timing: &IssuedConstraintTiming,
    binding_field: &'static str,
) -> (r: Result<IndexExclusionConstraintSnapshot, ObservationError>)
    ensures
        ({
            let refusal = immediacy_chain_refusal(
                relations@.map_values(|b: BaseRelation| b@),
                match not_null_constraints {
                    Some(s) => Some(s@.map_values(|x: BaseNotNullConstraint| x@)),
                    None => None,
                },
                partition.membership_views(),
                partition.lineage().snapshot_digest,
                constraint_snapshot.entries(),
                constraint_snapshot.lineage().snapshot_digest,
                timing.entries(),
                binding_field@,
            );
            &&& r is Ok <==> refusal is None
            &&& refusal matches Some(f) ==> refused_as(r, f)
        }),
        r matches Ok(c) ==> c.entries() == sorted_by_key(constraint_snapshot.entries()) && c.lineage() == (LineageView {
            snapshot_digest: constraint_snapshot.lineage().snapshot_digest,
            ..partition.lineage()
        }),
{
    proof {
        reveal(immediacy_chain_refusal);
    }
    let rebound = rebind_exclusion_constraints(relations, not_null_constraints, partition, constraint_snapshot, binding_field)?;
    if !timings_cover(rebound.observations(), timing.timings()) {
        return Err(invalid(binding_field));
    }
    Ok(rebound)
}

} // verus!

verus! {

fn check_immediacies(
    relations: &[BaseRelation],
    timings: &[ConstraintTiming],
    constraints: &[IndexExclusionConstraintObservation],
) -> (r: Result<Vec<IndexExclusionConstraintImmediacyObservation>, ObservationError>)
    ensures
        ({
            let code = first_immediacy_code(relations@.map_values(|b: BaseRelation| b@), timings@, constraint_views(constraints@));
            &&& r is Ok <==> code == 0
            &&& r is Err ==> fails_with_text(r, immediacy_field(code))
        }),
        r matches Ok(v) ==> v@.map_values(|o: IndexExclusionConstraintImmediacyObservation| o@) == immediacies_of(
            timings@,
            constraint_views(constraints@),
        ),
{
    let ghost rels = relations@.map_values(|b: BaseRelation| b@);
    let ghost views = constraint_views(constraints@);
    let mut out: Vec<IndexExclusionConstraintImmediacyObservation> = Vec::new();
    let mut i: usize = 0;
    assert(views.skip(0) =~= views);
    while i < constraints.len()
        invariant
            i <= constraints@.len(),
            rels == relations@.map_values(|b: BaseRelation| b@),
            views == constraint_views(constraints@),
            first_immediacy_code(rels, timings@, views) == first_immediacy_code(rels, timings@, views.skip(i as int)),
            out@.map_values(|o: IndexExclusionConstraintImmediacyObservation| o@) == immediacies_of(timings@, views).subrange(
                0,
                i as int,
            ),
        decreases constraints@.len() - i,
    {
        assert(views.skip(i as int)[0] == constraints@[i as int]@);
        assert(views.skip(i as int).drop_first() =~= views.skip(i + 1));
        let c = &constraints[i];
        let timing = match find_constraint_observation(timings, c.coordinate()) {
            Some(t) => t,
            None => {
                return Err(invalid("index_exclusion_constraint_immediacy_completeness"));
            },
        };
        let index = match find_base_index(relations, c.backing_index()) {
            Some(x) => x,
            None => {
                return Err(invalid("index_exclusion_constraint_immediacy_backing_index"));
            },
        };
        let immediate = match (index.exclusion(), index.primary(), index.immediate()) {
            (Some(_), Some(_), Some(m)) => m,
            _ => {
                return Err(invalid("index_exclusion_constraint_immediacy_catalog_flags"));
            },
        };
        if immediate == timing.deferrable() {
            return Err(invalid("index_exclusion_constraint_immediacy_state"));
        }
        let observation = IndexExclusionConstraintImmediacyObservation {
            coordinate: c.coordinate().clone(),
            backing_index: c.backing_index().clone(),
            constraint_deferrable: timing.deferrable(),
            index_immediate: immediate,
        };
        assert(observation@ == immediacies_of(timings@, views)[i as int]);
        let ghost before = out@;
        out.push(observation);
        proof {
            assert(out@.map_values(|o: IndexExclusionConstraintImmediacyObservation| o@) =~= before.map_values(
                |o: IndexExclusionConstraintImmediacyObservation| o@,
            ).push(immediacies_of(timings@, views)[i as int]));
            assert(out@.map_values(|o: IndexExclusionConstraintImmediacyObservation| o@) =~= immediacies_of(
                timings@,
                views,
            ).subrange(0, i + 1));
        }
        i = i + 1;
    }
    assert(immediacies_of(timings@, views).subrange(0, constraints@.len() as int) =~= immediacies_of(timings@, views));
    Ok(out)
}

/// Domain separator of the immediacy digest.
pub const IMMEDIACY_DIGEST_DOMAIN: &'static str =
    "conceptweave.postgres_schema_snapshot.v3.relation_partition.index_partition.exclusion_constraint.immediacy.v1";

/// Framing of one immediacy observation: constraint, backing index, deferrability, immediacy.
pub open spec fn frame_immediacy(o: IndexImmediacyView) -> Seq<u8> {
    frame_constraint(o.coordinate) + frame_index(o.backing_index) + frame_bool(o.constraint_deferrable) + frame_bool(
        o.index_immediate,
    )
}

/// Framing of immediacy observations, in order.
pub open spec fn frame_immediacies(s: Seq<IndexImmediacyView>) -> Seq<u8>
    decreases s.len(),
{
    if s.len() == 0 {
        Seq::empty()
    } else {
        frame_immediacies(s.drop_last()) + frame_immediacy(s.last())
    }
}

/// The preimage of the immediacy digest over the timing digest.
pub open spec fn immediacy_preimage(predecessor_digest: Seq<char>, s: Seq<IndexImmediacyView>) -> Seq<u8> {
    encode_utf8(IMMEDIACY_DIGEST_DOMAIN@) + frame_str(predecessor_digest) + frame_len(s.len()) + frame_immediacies(s)
}

fn put_immediacy(out: &mut Vec<u8>, o: &IndexExclusionConstraintImmediacyObservation)
    ensures
        final(out)@ == old(out)@ + frame_immediacy(o@),
{
    let ghost s0 = out@;
    put_constraint(out, o.coordinate());
    put_index(out, o.backing_index());
    put_bool(out, o.constraint_deferrable());
    put_bool(out, o.index_immediate());
    assert(final(out)@ =~= s0 + frame_immediacy(o@));
}

fn compute_immediacy_digest(predecessor_digest: &str, observations: &[IndexExclusionConstraintImmediacyObservation]) -> (d:
    String)
    ensures
        d@ == digest_text(
            immediacy_preimage(
                predecessor_digest@,
                observations@.map_values(|o: IndexExclusionConstraintImmediacyObservation| o@),
            ),
        ),
{
    let ghost views = observations@.map_values(|o: IndexExclusionConstraintImmediacyObservation| o@);
    let mut out: Vec<u8> = Vec::new();
    put_raw(&mut out, IMMEDIACY_DIGEST_DOMAIN.as_bytes());
    put_str(&mut out, predecessor_digest);
    put_len(&mut out, observations.len());
    let ghost header = out@;
    let mut i: usize = 0;
    while i < observations.len()
        invariant
            i <= observations@.len(),
            views == observations@.map_values(|o: IndexExclusionConstraintImmediacyObservation| o@),
            out@ == header + frame_immediacies(views.subrange(0, i as int)),
        decreases observations@.len() - i,
    {
        put_immediacy(&mut out, &observations[i]);
        proof {
            let next = views.subrange(0, i + 1);
            assert(next.drop_last() =~= views.subrange(0, i as int));
            assert(next.last() == observations@[i as int]@);
            assert(out@ =~= header + frame_immediacies(next));
        }
        i = i + 1;
    }
    proof {
        assert(views.subrange(0, observations@.len() as int) =~= views);
    }
    finish_digest(&out)
}

/// The first immediacy observation of constraint `c`.
pub open spec fn immediacy_at(s: Seq<IndexImmediacyView>, c: ConstraintCoordinateView) -> Option<IndexImmediacyView>
    decreases s.len(),
{
    if s.len() == 0 {
        None
    } else if s[0].coordinate == c {
        Some(s[0])
    } else {
        immediacy_at(s.drop_first(), c)
    }
}

fn find_immediacy<'a>(obs: &'a [IndexExclusionConstraintImmediacyObservation], c: &IndexExclusionConstraintCoordinate) -> (r:
    Option<&'a IndexExclusionConstraintImmediacyObservation>)
    ensures
        match r {
            Some(o) => immediacy_at(obs@.map_values(|x: IndexExclusionConstraintImmediacyObservation| x@), c@) == Some(o@),
            None => immediacy_at(obs@.map_values(|x: IndexExclusionConstraintImmediacyObservation| x@), c@) is None,
        },
{
    let ghost views = obs@.map_values(|x: IndexExclusionConstraintImmediacyObservation| x@);
    let mut i: usize = 0;
    assert(views.skip(0) =~= views);
    while i < obs.len()
        invariant
            i <= obs@.len(),
            views == obs@.map_values(|x: IndexExclusionConstraintImmediacyObservation| x@),
            immediacy_at(views, c@) == immediacy_at(views.skip(i as int), c@),
        decreases obs@.len() - i,
    {
        assert(views.skip(i as int)[0] == obs@[i as int]@);
        assert(views.skip(i as int).drop_first() =~= views.skip(i + 1));
        if obs[i].coordinate().same_as(c) {
            return Some(&obs[i]);
        }
        i = i + 1;
    }
    None
}

/// Immutable provenance receipt for one timing/immediacy coherence observation.
#[derive(Debug, PartialEq, Eq)]
pub struct IndexExclusionConstraintImmediacySourceReceipt {
    source_id: String,
    connection_policy_binding: String,
    source_digest: String,
    extractor_revision: String,
    observed_at_utc: String,
    location: IndexExclusionConstraintImmediacyObservation,
}

impl IndexExclusionConstraintImmediacySourceReceipt {
    /// The provenance carried by this receipt.
    pub closed spec fn lineage(&self) -> LineageView {
        LineageView {
            source_connection_key: self.source_id@,
            connection_policy_binding: self.connection_policy_binding@,
            snapshot_digest: self.source_digest@,
            extractor_revision: self.extractor_revision@,
            observed_at_utc: self.observed_at_utc@,
        }
    }

    /// The observation covered by this receipt.
    pub closed spec fn location_view(&self) -> IndexImmediacyView {
        self.location@
    }

    /// Returns the stable source registry key, never credential material.
    pub fn source_id(&self) -> (s: &str)
        ensures
            s@ == self.lineage().source_connection_key,
    {
        self.source_id.as_str()
    }

    /// Returns the immutable source-policy binding.
    pub fn connection_policy_binding(&self) -> (s: &str)
        ensures
            s@ == self.lineage().connection_policy_binding,
    {
        self.connection_policy_binding.as_str()
    }

    /// Returns the owner-computed immediacy digest.
    pub fn source_digest(&self) -> (s: &str)
        ensures
            s@ == self.lineage().snapshot_digest,
    {
        self.source_digest.as_str()
    }

    /// Returns the exact extractor revision inherited from the predecessor.
    pub fn extractor_revision(&self) -> (s: &str)
        ensures
            s@ == self.lineage().extractor_revision,
    {
        self.extractor_revision.as_str()
    }

    /// Returns the exact canonical UTC observation time inherited from the predecessor.
    pub fn observed_at_utc(&self) -> (s: &str)
        ensures
            s@ == self.lineage().observed_at_utc,
    {
        self.observed_at_utc.as_str()
    }

    /// Returns the exact coherence observation.
    pub fn location(&self) -> (o: &IndexExclusionConstraintImmediacyObservation)
        ensures
            o@ == self.location_view(),
    {
        &self.location
    }
}

/// Complete timing/backing-index immediacy coherence for every ordinary `EXCLUDE` constraint.
#[derive(Debug, PartialEq, Eq)]
pub struct IndexExclusionConstraintImmediacySnapshot {
    source_connection_key: String,
    connection_policy_binding: String,
    snapshot_digest: String,
    extractor_revision: String,
    observed_at_utc: String,
    observations: Vec<IndexExclusionConstraintImmediacyObservation>,
}

impl IndexExclusionConstraintImmediacySnapshot {
    /// The provenance of this snapshot, with its own digest.
    pub closed spec fn lineage(&self) -> LineageView {
        LineageView {
            source_connection_key: self.source_connection_key@,
            connection_policy_binding: self.connection_policy_binding@,
            snapshot_digest: self.snapshot_digest@,
            extractor_revision: self.extractor_revision@,
            observed_at_utc: self.observed_at_utc@,
        }
    }

    /// The coherence observations, in constraint order.
    pub closed spec fn immediacy_views(&self) -> Seq<IndexImmediacyView> {
        self.observations@.map_values(|o: IndexExclusionConstraintImmediacyObservation| o@)
    }

    /// Rebinds the exclusion-constraint evidence to the base snapshot (its relations and NOT NULL
    /// constraints) and the index-partition evidence, requires the timing evidence to time exactly
    /// its constraints, and checks each constraint against its backing index's immediacy.
    pub fn new(
        relations: &[BaseRelation],
        not_null_constraints: Option<&[BaseNotNullConstraint]>,
        partition: &IndexPartitionEvidence,
        constraint_snapshot: &IndexExclusionConstraintSnapshot,
        timing: &IssuedConstraintTiming,
    ) -> (r: Result<Self, ObservationError>)
        ensures
            ({
                let refusal = immediacy_refusal(
                    relations@.map_values(|b: BaseRelation| b@),
                    match not_null_constraints {
                        Some(s) => Some(s@.map_values(|x: BaseNotNullConstraint| x@)),
                        None => None,
                    },
                    partition.membership_views(),
                    partition.lineage().snapshot_digest,
                    constraint_snapshot.entries(),
                    constraint_snapshot.lineage().snapshot_digest,
                    timing.entries(),
                );
                &&& r is Ok <==> refusal is None
                &&& refusal matches Some(f) ==> refused_as(r, f)
            }),
            r matches Ok(s) ==> {
                &&& s.immediacy_views() == immediacies_of(
                    timing.entries(),
                    constraint_views(sorted_by_key(constraint_snapshot.entries())),
                )
                &&& s.lineage() == (LineageView {
                    snapshot_digest: digest_text(immediacy_preimage(timing.lineage().snapshot_digest, s.immediacy_views())),
                    ..partition.lineage()
                })
            },
    {
        let rebound = rebind_with_timing(
            relations,
            not_null_constraints,
            partition,
            constraint_snapshot,
            timing,
            IMMEDIACY_BINDING_FIELD,
        )?;
        proof {
            lemma_first_immediacy_code_range(
                relations@.map_values(|b: BaseRelation| b@),
                timing.entries(),
                constraint_views(sorted_by_key(constraint_snapshot.entries())),
            );
        }
        let observations = check_immediacies(relations, timing.timings(), rebound.observations())?;
        let snapshot_digest = compute_immediacy_digest(timing.snapshot_digest(), observations.as_slice());
        Ok(IndexExclusionConstraintImmediacySnapshot {
            source_connection_key: rebound.source_connection_key().to_owned(),
            connection_policy_binding: rebound.connection_policy_binding().to_owned(),
            snapshot_digest,
            extractor_revision: rebound.extractor_revision().to_owned(),
            observed_at_utc: rebound.observed_at_utc().to_owned(),
            observations,
        })
    }

    /// Returns the stable source-connection registry key.
    pub fn source_connection_key(&self) -> (s: &str)
        ensures
            s@ == self.lineage().source_connection_key,
    {
        self.source_connection_key.as_str()
    }

    /// Returns the immutable source-policy binding.
    pub fn connection_policy_binding(&self) -> (s: &str)
        ensures
            s@ == self.lineage().connection_policy_binding,
    {
        self.connection_policy_binding.as_str()
    }

    /// Returns the domain-separated immediacy digest.
    pub fn snapshot_digest(&self) -> (s: &str)
        ensures
            s@ == self.lineage().snapshot_digest,
    {
        self.snapshot_digest.as_str()
    }

    /// Returns the exact extractor revision inherited from the predecessors.
    pub fn extractor_revision(&self) -> (s: &str)
        ensures
            s@ == self.lineage().extractor_revision,
    {
        self.extractor_revision.as_str()
    }

    /// Returns the exact canonical UTC observation time inherited from the predecessors.
    pub fn observed_at_utc(&self) -> (s: &str)
        ensures
            s@ == self.lineage().observed_at_utc,
    {
        self.observed_at_utc.as_str()
    }

    /// Returns complete coherence observations in constraint order.
    pub fn observations(&self) -> (o: &[IndexExclusionConstraintImmediacyObservation])
        ensures
            o@.map_values(|x: IndexExclusionConstraintImmediacyObservation| x@) == self.immediacy_views(),
    {
        self.observations.as_slice()
    }

    /// Issues provenance for one coherence observation.
    pub fn source_receipt(&self, coordinate: IndexExclusionConstraintCoordinate) -> (r: Result<
        IndexExclusionConstraintImmediacySourceReceipt,
        ObservationError,
    >)
        ensures
            r is Ok <==> immediacy_at(self.immediacy_views(), coordinate@) is Some,
            r matches Ok(receipt) ==> receipt.lineage() == self.lineage() && Some(receipt.location_view())
                == immediacy_at(self.immediacy_views(), coordinate@),
            r matches Err(e) ==> e matches ObservationError::UnknownObservationLocation { location: l } && l@
                == constraint_property_location(coordinate@, "timing-index-coherence"@),
    {
        let observation = match find_immediacy(self.observations.as_slice(), &coordinate) {
            Some(o) => o,
            None => {
                return Err(
                    ObservationError::UnknownObservationLocation {
                        location: render_constraint_property_location(&coordinate, "timing-index-coherence"),
                    },
                );
            },
        };
        Ok(IndexExclusionConstraintImmediacySourceReceipt {
            source_id: self.source_connection_key.clone(),
            connection_policy_binding: self.connection_policy_binding.clone(),
            source_digest: self.snapshot_digest.clone(),
            extractor_revision: self.extractor_revision.clone(),
            observed_at_utc: self.observed_at_utc.clone(),
            location: observation.clone(),
        })
    }
}

} // verus!
