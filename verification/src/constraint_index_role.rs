//! Ordinary exclusion-constraint backing-index role evidence.
//!
//! PostgreSQL turns an ordinary `EXCLUDE` constraint into a non-unique, non-primary index marked as
//! exclusion-backed in `pg_index`. The constraint's backing-index edge and the index role flags are
//! independent catalog facts; this layer rebinds the constraint, timing and immediacy evidence and
//! refuses a contradictory role, never deriving a flag from the constraint kind.

use vstd::prelude::*;

use crate::catalog::{
    frame_index, put_index, BaseNotNullConstraint, BaseRelation, BaseRelationView, ConstraintCoordinateView,
    IndexCoordinateView, IndexPartitionCoordinate, IndexPartitionEvidence, LineageView, MembershipView,
};
use crate::constraint_immediacy::{
    catalog_flags_captured, immediacies_of, immediacy_chain_refusal, immediacy_preimage, immediacy_refusal,
    rebind_with_timing, IndexExclusionConstraintImmediacySnapshot,
};
use crate::constraint_property::{constraint_property_location, render_constraint_property_location};
use crate::constraint_timing::{ConstraintTiming, IssuedConstraintTiming};
use crate::digest::{digest_text, finish_digest, frame_bool, frame_len, frame_str, put_bool, put_len, put_raw, put_str};
use crate::error::{fails_with_text, invalid, ObservationError};
use crate::exclusion::{base_index_of, find_base_index};
use crate::exclusion_constraint::{
    constraint_views, frame_constraint, put_constraint, refused_as, ConstraintRefusal, ExclusionConstraintView,
    IndexExclusionConstraintCoordinate, IndexExclusionConstraintObservation, IndexExclusionConstraintSnapshot,
};
use crate::order::{sorted_by_key, text_eq};
use vstd::utf8::encode_utf8;

verus! {

/// The value of one role observation.
pub struct IndexRoleView {
    pub coordinate: ConstraintCoordinateView,
    pub backing_index: IndexCoordinateView,
    pub index_unique: bool,
    pub index_primary: bool,
    pub index_exclusion: bool,
}

/// Verified `pg_index` role of one ordinary `EXCLUDE` constraint's backing index.
#[derive(Debug, PartialEq, Eq)]
pub struct IndexExclusionConstraintIndexRoleObservation {
    coordinate: IndexExclusionConstraintCoordinate,
    backing_index: IndexPartitionCoordinate,
    index_unique: bool,
    index_primary: bool,
    index_exclusion: bool,
}

impl View for IndexExclusionConstraintIndexRoleObservation {
    type V = IndexRoleView;

    closed spec fn view(&self) -> IndexRoleView {
        IndexRoleView {
            coordinate: self.coordinate@,
            backing_index: self.backing_index@,
            index_unique: self.index_unique,
            index_primary: self.index_primary,
            index_exclusion: self.index_exclusion,
        }
    }
}

impl Clone for IndexExclusionConstraintIndexRoleObservation {
    fn clone(&self) -> (c: Self)
        ensures
            c@ == self@,
    {
        IndexExclusionConstraintIndexRoleObservation {
            coordinate: self.coordinate.clone(),
            backing_index: self.backing_index.clone(),
            index_unique: self.index_unique,
            index_primary: self.index_primary,
            index_exclusion: self.index_exclusion,
        }
    }
}

impl IndexExclusionConstraintIndexRoleObservation {
    /// Returns the exact exclusion-constraint coordinate.
    pub fn coordinate(&self) -> (c: &IndexExclusionConstraintCoordinate)
        ensures
            c@ == self@.coordinate,
    {
        &self.coordinate
    }

    /// Returns the exact backing-index coordinate.
    pub fn backing_index(&self) -> (c: &IndexPartitionCoordinate)
        ensures
            c@ == self@.backing_index,
    {
        &self.backing_index
    }

    /// Returns the backing index's `pg_index.indisunique`.
    pub fn index_unique(&self) -> (b: bool)
        ensures
            b == self@.index_unique,
    {
        self.index_unique
    }

    /// Returns the backing index's `pg_index.indisprimary`.
    pub fn index_primary(&self) -> (b: bool)
        ensures
            b == self@.index_primary,
    {
        self.index_primary
    }

    /// Returns the backing index's `pg_index.indisexclusion`.
    pub fn index_exclusion(&self) -> (b: bool)
        ensures
            b == self@.index_exclusion,
    {
        self.index_exclusion
    }

    /// Returns the collision-safe location of this role observation.
    pub fn canonical_location(&self) -> (s: String)
        ensures
            s@ == constraint_property_location(self@.coordinate, "backing-index-role"@),
    {
        render_constraint_property_location(&self.coordinate, "backing-index-role")
    }
}

/// The field reported when a predecessor cannot be rebound.
pub const INDEX_ROLE_BINDING_FIELD: &'static str = "index_exclusion_constraint_index_role_predecessor_binding";

/// How the backing index of one constraint fails its role, or 0: 1 no such index in the base
/// snapshot, 2 catalog flags not captured, 3 unique, primary or not exclusion-backed.
pub open spec fn role_code(rels: Seq<BaseRelationView>, c: ExclusionConstraintView) -> int {
    match base_index_of(rels, c.backing_index) {
        None => 1,
        Some(i) => if !catalog_flags_captured(i) {
            2
        } else if i.unique || i.primary->0 || !i.exclusion->0 {
            3
        } else {
            0
        },
    }
}

/// The first non-zero role code over the constraints, in order.
pub open spec fn first_role_code(rels: Seq<BaseRelationView>, s: Seq<ExclusionConstraintView>) -> int
    decreases s.len(),
{
    if s.len() == 0 {
        0
    } else if role_code(rels, s[0]) != 0 {
        role_code(rels, s[0])
    } else {
        first_role_code(rels, s.drop_first())
    }
}

/// The field reported for a non-zero role code.
pub open spec fn role_field(code: int) -> Seq<char> {
    if code == 1 {
        "index_exclusion_constraint_index_role_backing_index"@
    } else if code == 2 {
        "index_exclusion_constraint_index_role_catalog_flags"@
    } else {
        "index_exclusion_constraint_index_role_state"@
    }
}

/// The role observations issued for accepted constraints: non-unique, non-primary, exclusion.
pub open spec fn roles_of(s: Seq<ExclusionConstraintView>) -> Seq<IndexRoleView> {
    s.map_values(
        |c: ExclusionConstraintView|
            IndexRoleView {
                coordinate: c.coordinate,
                backing_index: c.backing_index,
                index_unique: false,
                index_primary: false,
                index_exclusion: true,
            },
    )
}

/// Why the predecessors cannot be rebound, or `None` when they can: the exclusion-constraint and
/// timing evidence as for immediacy; then the immediacy evidence must be rebuilt over them (its
/// own refusal) to its issued digest.
#[verifier::opaque]
pub open spec fn role_chain_refusal(
    rels: Seq<BaseRelationView>,
    not_null: Option<Seq<ConstraintCoordinateView>>,
    ms: Seq<MembershipView>,
    partition_digest: Seq<char>,
    constraints: Seq<IndexExclusionConstraintObservation>,
    constraint_digest: Seq<char>,
    timing_digest: Seq<char>,
    timings: Seq<ConstraintTiming>,
    immediacy_digest: Seq<char>,
) -> Option<ConstraintRefusal> {
    if immediacy_chain_refusal(rels, not_null, ms, partition_digest, constraints, constraint_digest, timings, INDEX_ROLE_BINDING_FIELD@)
        is Some {
        immediacy_chain_refusal(rels, not_null, ms, partition_digest, constraints, constraint_digest, timings, INDEX_ROLE_BINDING_FIELD@)
    } else if immediacy_refusal(rels, not_null, ms, partition_digest, constraints, constraint_digest, timings) is Some {
        immediacy_refusal(rels, not_null, ms, partition_digest, constraints, constraint_digest, timings)
    } else if digest_text(
        immediacy_preimage(timing_digest, immediacies_of(timings, constraint_views(sorted_by_key(constraints)))),
    ) != immediacy_digest {
        Some(ConstraintRefusal::Field(INDEX_ROLE_BINDING_FIELD@))
    } else {
        None
    }
}

/// Why role evidence is refused, or `None` when it is issued: the predecessors must be rebound;
/// then, in constraint order, each backing index must be non-unique, non-primary and
/// exclusion-backed.
pub open spec fn index_role_refusal(
    rels: Seq<BaseRelationView>,
    not_null: Option<Seq<ConstraintCoordinateView>>,
    ms: Seq<MembershipView>,
    partition_digest: Seq<char>,
    constraints: Seq<IndexExclusionConstraintObservation>,
    constraint_digest: Seq<char>,
    timing_digest: Seq<char>,
    timings: Seq<ConstraintTiming>,
    immediacy_digest: Seq<char>,
) -> Option<ConstraintRefusal> {
    let chain = role_chain_refusal(
        rels,
        not_null,
        ms,
        partition_digest,
        constraints,
        constraint_digest,
        timing_digest,
        timings,
        immediacy_digest,
    );
    let code = first_role_code(rels, constraint_views(sorted_by_key(constraints)));
    if chain is Some {
        chain
    } else if code != 0 {
        Some(ConstraintRefusal::Field(role_field(code)))
    } else {
        None
    }
}

proof fn lemma_first_role_code_range(rels: Seq<BaseRelationView>, s: Seq<ExclusionConstraintView>)
    ensures
        0 <= first_role_code(rels, s) <= 3,
    decreases s.len(),
{
    if s.len() > 0 {
        lemma_first_role_code_range(rels, s.drop_first());
    }
}

fn rebind_role_chain(
    relations: &[BaseRelation],
    not_null_constraints: Option<&[BaseNotNullConstraint]>,
    partition: &IndexPartitionEvidence,
    constraint_snapshot: &IndexExclusionConstraintSnapshot,
    timing: &IssuedConstraintTiming,
    immediacy_snapshot: &IndexExclusionConstraintImmediacySnapshot,
) -> (r: Result<(IndexExclusionConstraintSnapshot, IndexExclusionConstraintImmediacySnapshot), ObservationError>)
    ensures
        ({
            let refusal = role_chain_refusal(
                relations@.map_values(|b: BaseRelation| b@),
                match not_null_constraints {
                    Some(s) => Some(s@.map_values(|x: BaseNotNullConstraint| x@)),
                    None => None,
                },
                partition.membership_views(),
                partition.lineage().snapshot_digest,
                constraint_snapshot.entries(),
                constraint_snapshot.lineage().snapshot_digest,
                timing.lineage().snapshot_digest,
                timing.entries(),
                immediacy_snapshot.lineage().snapshot_digest,
            );
            &&& r is Ok <==> refusal is None
            &&& refusal matches Some(f) ==> refused_as(r, f)
        }),
        r matches Ok((c, m)) ==> {
            &&& c.entries() == sorted_by_key(constraint_snapshot.entries())
            &&& m.lineage() == (LineageView {
                snapshot_digest: immediacy_snapshot.lineage().snapshot_digest,
                ..partition.lineage()
            })
        },
{
    proof {
        reveal(role_chain_refusal);
        reveal(crate::constraint_immediacy::immediacy_chain_refusal);
    }
    let rebound = rebind_with_timing(
        relations,
        not_null_constraints,
        partition,
        constraint_snapshot,
        timing,
        INDEX_ROLE_BINDING_FIELD,
    )?;
    let rebound_immediacy = IndexExclusionConstraintImmediacySnapshot::new(
        relations,
        not_null_constraints,
        partition,
        constraint_snapshot,
        timing,
    )?;
    if !text_eq(rebound_immediacy.snapshot_digest(), immediacy_snapshot.snapshot_digest()) {
        return Err(invalid(INDEX_ROLE_BINDING_FIELD));
    }
    Ok((rebound, rebound_immediacy))
}

fn check_roles(relations: &[BaseRelation], constraints: &[IndexExclusionConstraintObservation]) -> (r: Result<
    Vec<IndexExclusionConstraintIndexRoleObservation>,
    ObservationError,
>)
    ensures
        ({
            let code = first_role_code(relations@.map_values(|b: BaseRelation| b@), constraint_views(constraints@));
            &&& r is Ok <==> code == 0
            &&& r is Err ==> fails_with_text(r, role_field(code))
        }),
        r matches Ok(v) ==> v@.map_values(|o: IndexExclusionConstraintIndexRoleObservation| o@) == roles_of(
            constraint_views(constraints@),
        ),
{
    let ghost rels = relations@.map_values(|b: BaseRelation| b@);
    let ghost views = constraint_views(constraints@);
    let mut out: Vec<IndexExclusionConstraintIndexRoleObservation> = Vec::new();
    let mut i: usize = 0;
    assert(views.skip(0) =~= views);
    while i < constraints.len()
        invariant
            i <= constraints@.len(),
            rels == relations@.map_values(|b: BaseRelation| b@),
            views == constraint_views(constraints@),
            first_role_code(rels, views) == first_role_code(rels, views.skip(i as int)),
            out@.map_values(|o: IndexExclusionConstraintIndexRoleObservation| o@) == roles_of(views).subrange(0, i as int),
        decreases constraints@.len() - i,
    {
        assert(views.skip(i as int)[0] == constraints@[i as int]@);
        assert(views.skip(i as int).drop_first() =~= views.skip(i + 1));
        let c = &constraints[i];
        let index = match find_base_index(relations, c.backing_index()) {
            Some(x) => x,
            None => {
                return Err(invalid("index_exclusion_constraint_index_role_backing_index"));
            },
        };
        let (exclusion, primary) = match (index.exclusion(), index.primary(), index.immediate()) {
            (Some(e), Some(p), Some(_)) => (e, p),
            _ => {
                return Err(invalid("index_exclusion_constraint_index_role_catalog_flags"));
            },
        };
        let unique = index.unique();
        if unique || primary || !exclusion {
            return Err(invalid("index_exclusion_constraint_index_role_state"));
        }
        let observation = IndexExclusionConstraintIndexRoleObservation {
            coordinate: c.coordinate().clone(),
            backing_index: c.backing_index().clone(),
            index_unique: unique,
            index_primary: primary,
            index_exclusion: exclusion,
        };
        assert(observation@ == roles_of(views)[i as int]);
        let ghost before = out@;
        out.push(observation);
        proof {
            assert(out@.map_values(|o: IndexExclusionConstraintIndexRoleObservation| o@) =~= before.map_values(
                |o: IndexExclusionConstraintIndexRoleObservation| o@,
            ).push(roles_of(views)[i as int]));
            assert(out@.map_values(|o: IndexExclusionConstraintIndexRoleObservation| o@) =~= roles_of(views).subrange(
                0,
                i + 1,
            ));
        }
        i = i + 1;
    }
    assert(roles_of(views).subrange(0, constraints@.len() as int) =~= roles_of(views));
    Ok(out)
}

/// Domain separator of the backing-index role digest.
pub const INDEX_ROLE_DIGEST_DOMAIN: &'static str =
    "conceptweave.postgres_schema_snapshot.v3.relation_partition.index_partition.exclusion_constraint.index_role.v1";

/// Framing of one role observation: constraint, backing index and the three role flags.
pub open spec fn frame_role(o: IndexRoleView) -> Seq<u8> {
    frame_constraint(o.coordinate) + frame_index(o.backing_index) + frame_bool(o.index_unique) + frame_bool(o.index_primary)
        + frame_bool(o.index_exclusion)
}

/// Framing of role observations, in order.
pub open spec fn frame_roles(s: Seq<IndexRoleView>) -> Seq<u8>
    decreases s.len(),
{
    if s.len() == 0 {
        Seq::empty()
    } else {
        frame_roles(s.drop_last()) + frame_role(s.last())
    }
}

/// The preimage of the role digest over the immediacy digest.
pub open spec fn index_role_preimage(predecessor_digest: Seq<char>, s: Seq<IndexRoleView>) -> Seq<u8> {
    encode_utf8(INDEX_ROLE_DIGEST_DOMAIN@) + frame_str(predecessor_digest) + frame_len(s.len()) + frame_roles(s)
}

fn put_role(out: &mut Vec<u8>, o: &IndexExclusionConstraintIndexRoleObservation)
    ensures
        final(out)@ == old(out)@ + frame_role(o@),
{
    let ghost s0 = out@;
    put_constraint(out, o.coordinate());
    put_index(out, o.backing_index());
    put_bool(out, o.index_unique());
    put_bool(out, o.index_primary());
    put_bool(out, o.index_exclusion());
    assert(final(out)@ =~= s0 + frame_role(o@));
}

fn compute_index_role_digest(predecessor_digest: &str, observations: &[IndexExclusionConstraintIndexRoleObservation]) -> (d:
    String)
    ensures
        d@ == digest_text(
            index_role_preimage(
                predecessor_digest@,
                observations@.map_values(|o: IndexExclusionConstraintIndexRoleObservation| o@),
            ),
        ),
{
    let ghost views = observations@.map_values(|o: IndexExclusionConstraintIndexRoleObservation| o@);
    let mut out: Vec<u8> = Vec::new();
    put_raw(&mut out, INDEX_ROLE_DIGEST_DOMAIN.as_bytes());
    put_str(&mut out, predecessor_digest);
    put_len(&mut out, observations.len());
    let ghost header = out@;
    let mut i: usize = 0;
    while i < observations.len()
        invariant
            i <= observations@.len(),
            views == observations@.map_values(|o: IndexExclusionConstraintIndexRoleObservation| o@),
            out@ == header + frame_roles(views.subrange(0, i as int)),
        decreases observations@.len() - i,
    {
        put_role(&mut out, &observations[i]);
        proof {
            let next = views.subrange(0, i + 1);
            assert(next.drop_last() =~= views.subrange(0, i as int));
            assert(next.last() == observations@[i as int]@);
            assert(out@ =~= header + frame_roles(next));
        }
        i = i + 1;
    }
    proof {
        assert(views.subrange(0, observations@.len() as int) =~= views);
    }
    finish_digest(&out)
}

/// The first role observation of constraint `c`.
pub open spec fn role_at(s: Seq<IndexRoleView>, c: ConstraintCoordinateView) -> Option<IndexRoleView>
    decreases s.len(),
{
    if s.len() == 0 {
        None
    } else if s[0].coordinate == c {
        Some(s[0])
    } else {
        role_at(s.drop_first(), c)
    }
}

fn find_role<'a>(obs: &'a [IndexExclusionConstraintIndexRoleObservation], c: &IndexExclusionConstraintCoordinate) -> (r:
    Option<&'a IndexExclusionConstraintIndexRoleObservation>)
    ensures
        match r {
            Some(o) => role_at(obs@.map_values(|x: IndexExclusionConstraintIndexRoleObservation| x@), c@) == Some(o@),
            None => role_at(obs@.map_values(|x: IndexExclusionConstraintIndexRoleObservation| x@), c@) is None,
        },
{
    let ghost views = obs@.map_values(|x: IndexExclusionConstraintIndexRoleObservation| x@);
    let mut i: usize = 0;
    assert(views.skip(0) =~= views);
    while i < obs.len()
        invariant
            i <= obs@.len(),
            views == obs@.map_values(|x: IndexExclusionConstraintIndexRoleObservation| x@),
            role_at(views, c@) == role_at(views.skip(i as int), c@),
        decreases obs@.len() - i,
    {
        assert(views.skip(i as int)[0] == obs@[i as int]@);
        assert(views.skip(i as int).drop_first() =~= views.skip(i + 1));
        if obs[i].coordinate().same_as(c) {
            return Some(&obs[i]);
        }
        i = i + 1;
    }
    None
}

/// Immutable provenance receipt for one backing-index role observation.
#[derive(Debug, PartialEq, Eq)]
pub struct IndexExclusionConstraintIndexRoleSourceReceipt {
    source_id: String,
    connection_policy_binding: String,
    source_digest: String,
    extractor_revision: String,
    observed_at_utc: String,
    location: IndexExclusionConstraintIndexRoleObservation,
}

impl IndexExclusionConstraintIndexRoleSourceReceipt {
    /// The provenance carried by this receipt.
    pub closed spec fn lineage(&self) -> LineageView {
        LineageView {
            source_connection_key: self.source_id@,
            connection_policy_binding: self.connection_policy_binding@,
            snapshot_digest: self.source_digest@,
            extractor_revision: self.extractor_revision@,
            observed_at_utc: self.observed_at_utc@,
        }
    }

    /// The observation covered by this receipt.
    pub closed spec fn location_view(&self) -> IndexRoleView {
        self.location@
    }

    /// Returns the stable source registry key, never credential material.
    pub fn source_id(&self) -> (s: &str)
        ensures
            s@ == self.lineage().source_connection_key,
    {
        self.source_id.as_str()
    }

    /// Returns the immutable source-policy binding.
    pub fn connection_policy_binding(&self) -> (s: &str)
        ensures
            s@ == self.lineage().connection_policy_binding,
    {
        self.connection_policy_binding.as_str()
    }

    /// Returns the owner-computed backing-index role digest.
    pub fn source_digest(&self) -> (s: &str)
        ensures
            s@ == self.lineage().snapshot_digest,
    {
        self.source_digest.as_str()
    }

    /// Returns the exact extractor revision inherited from the predecessor.
    pub fn extractor_revision(&self) -> (s: &str)
        ensures
            s@ == self.lineage().extractor_revision,
    {
        self.extractor_revision.as_str()
    }

    /// Returns the exact canonical UTC observation time inherited from the predecessor.
    pub fn observed_at_utc(&self) -> (s: &str)
        ensures
            s@ == self.lineage().observed_at_utc,
    {
        self.observed_at_utc.as_str()
    }

    /// Returns the exact role observation.
    pub fn location(&self) -> (o: &IndexExclusionConstraintIndexRoleObservation)
        ensures
            o@ == self.location_view(),
    {
        &self.location
    }
}

/// Complete backing-index role evidence for every ordinary `EXCLUDE` constraint: each backing
/// index is non-unique, non-primary and exclusion-backed.
#[derive(Debug, PartialEq, Eq)]
pub struct IndexExclusionConstraintIndexRoleSnapshot {
    source_connection_key: String,
    connection_policy_binding: String,
    snapshot_digest: String,
    extractor_revision: String,
    observed_at_utc: String,
    observations: Vec<IndexExclusionConstraintIndexRoleObservation>,
}

impl IndexExclusionConstraintIndexRoleSnapshot {
    /// The provenance of this snapshot, with its own digest.
    pub closed spec fn lineage(&self) -> LineageView {
        LineageView {
            source_connection_key: self.source_connection_key@,
            connection_policy_binding: self.connection_policy_binding@,
            snapshot_digest: self.snapshot_digest@,
            extractor_revision: self.extractor_revision@,
            observed_at_utc: self.observed_at_utc@,
        }
    }

    /// The role observations, in constraint order.
    pub closed spec fn role_views(&self) -> Seq<IndexRoleView> {
        self.observations@.map_values(|o: IndexExclusionConstraintIndexRoleObservation| o@)
    }

    /// Rebinds the exclusion-constraint, timing and immediacy evidence to the base snapshot (its
    /// relations and NOT NULL constraints) and the index-partition evidence, and checks the role
    /// flags of every constraint's backing index.
    pub fn new(
        relations: &[BaseRelation],
        not_null_constraints: Option<&[BaseNotNullConstraint]>,
        partition: &IndexPartitionEvidence,
        constraint_snapshot: &IndexExclusionConstraintSnapshot,
        timing: &IssuedConstraintTiming,
        immediacy_snapshot: &IndexExclusionConstraintImmediacySnapshot,
    ) -> (r: Result<Self, ObservationError>)
        ensures
            ({
                let refusal = index_role_refusal(
                    relations@.map_values(|b: BaseRelation| b@),
                    match not_null_constraints {
                        Some(s) => Some(s@.map_values(|x: BaseNotNullConstraint| x@)),
                        None => None,
                    },
                    partition.membership_views(),
                    partition.lineage().snapshot_digest,
                    constraint_snapshot.entries(),
                    constraint_snapshot.lineage().snapshot_digest,
                    timing.lineage().snapshot_digest,
                    timing.entries(),
                    immediacy_snapshot.lineage().snapshot_digest,
                );
                &&& r is Ok <==> refusal is None
                &&& refusal matches Some(f) ==> refused_as(r, f)
            }),
            r matches Ok(s) ==> {
                &&& s.role_views() == roles_of(constraint_views(sorted_by_key(constraint_snapshot.entries())))
                &&& s.lineage() == (LineageView {
                    snapshot_digest: digest_text(
                        index_role_preimage(immediacy_snapshot.lineage().snapshot_digest, s.role_views()),
                    ),
                    ..partition.lineage()
                })
            },
    {
        let (rebound, rebound_immediacy) = rebind_role_chain(
            relations,
            not_null_constraints,
            partition,
            constraint_snapshot,
            timing,
            immediacy_snapshot,
        )?;
        proof {
            lemma_first_role_code_range(
                relations@.map_values(|b: BaseRelation| b@),
                constraint_views(sorted_by_key(constraint_snapshot.entries())),
            );
        }
        let observations = check_roles(relations, rebound.observations())?;
        let snapshot_digest = compute_index_role_digest(rebound_immediacy.snapshot_digest(), observations.as_slice());
        Ok(IndexExclusionConstraintIndexRoleSnapshot {
            source_connection_key: rebound_immediacy.source_connection_key().to_owned(),
            connection_policy_binding: rebound_immediacy.connection_policy_binding().to_owned(),
            snapshot_digest,
            extractor_revision: rebound_immediacy.extractor_revision().to_owned(),
            observed_at_utc: rebound_immediacy.observed_at_utc().to_owned(),
            observations,
        })
    }

    /// Returns the stable source-connection registry key.
    pub fn source_connection_key(&self) -> (s: &str)
        ensures
            s@ == self.lineage().source_connection_key,
    {
        self.source_connection_key.as_str()
    }

    /// Returns the immutable source-policy binding.
    pub fn connection_policy_binding(&self) -> (s: &str)
        ensures
            s@ == self.lineage().connection_policy_binding,
    {
        self.connection_policy_binding.as_str()
    }

    /// Returns the domain-separated backing-index role digest.
    pub fn snapshot_digest(&self) -> (s: &str)
        ensures
            s@ == self.lineage().snapshot_digest,
    {
        self.snapshot_digest.as_str()
    }

    /// Returns the exact extractor revision inherited from the predecessors.
    pub fn extractor_revision(&self) -> (s: &str)
        ensures
            s@ == self.lineage().extractor_revision,
    {
        self.extractor_revision.as_str()
    }

    /// Returns the exact canonical UTC observation time inherited from the predecessors.
    pub fn observed_at_utc(&self) -> (s: &str)
        ensures
            s@ == self.lineage().observed_at_utc,
    {
        self.observed_at_utc.as_str()
    }

    /// Returns complete role observations in constraint order.
    pub fn observations(&self) -> (o: &[IndexExclusionConstraintIndexRoleObservation])
        ensures
            o@.map_values(|x: IndexExclusionConstraintIndexRoleObservation| x@) == self.role_views(),
    {
        self.observations.as_slice()
    }

    /// Issues provenance for one backing-index role observation.
    pub fn source_receipt(&self, coordinate: IndexExclusionConstraintCoordinate) -> (r: Result<
        IndexExclusionConstraintIndexRoleSourceReceipt,
        ObservationError,
    >)
        ensures
            r is Ok <==> role_at(self.role_views(), coordinate@) is Some,
            r matches Ok(receipt) ==> receipt.lineage() == self.lineage() && Some(receipt.location_view())
                == role_at(self.role_views(), coordinate@),
            r matches Err(e) ==> e matches ObservationError::UnknownObservationLocation { location: l } && l@
                == constraint_property_location(coordinate@, "backing-index-role"@),
    {
        let observation = match find_role(self.observations.as_slice(), &coordinate) {
            Some(o) => o,
            None => {
                return Err(
                    ObservationError::UnknownObservationLocation {
                        location: render_constraint_property_location(&coordinate, "backing-index-role"),
                    },
                );
            },
        };
        Ok(IndexExclusionConstraintIndexRoleSourceReceipt {
            source_id: self.source_connection_key.clone(),
            connection_policy_binding: self.connection_policy_binding.clone(),
            source_digest: self.snapshot_digest.clone(),
            extractor_revision: self.extractor_revision.clone(),
            observed_at_utc: self.observed_at_utc.clone(),
            location: observation.clone(),
        })
    }
}

} // verus!
