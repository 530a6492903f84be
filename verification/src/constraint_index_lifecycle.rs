//! Ordinary exclusion-constraint backing-index lifecycle integrity.
//!
//! `pg_constraint.conindid` names the index that enforces an ordinary `EXCLUDE` constraint, while
//! `pg_index.indisready`, `indisvalid` and `indislive` say whether that index accepts writes, is
//! valid and is still live. This layer binds the captured flags of each backing index proven by
//! the namespace evidence and refuses a flag that was not captured or is not set; it never derives
//! a healthy lifecycle from the constraint.

use vstd::prelude::*;

use crate::catalog::{
    frame_index, put_index, BaseRelation, BaseRelationView, ConstraintCoordinateView, IndexCoordinateView,
    IndexPartitionCoordinate, IssuedSnapshot, LineageView,
};
use crate::constraint_index_namespace::{
    IndexExclusionConstraintIndexNamespaceObservation, IndexExclusionConstraintIndexNamespaceSnapshot, IndexNamespaceView,
};
use crate::constraint_property::{constraint_property_location, render_constraint_property_location, ConstraintPropertyView};
use crate::digest::{digest_text, finish_digest, frame_bool, frame_len, frame_str, put_bool, put_len, put_raw, put_str};
use crate::error::{fails_with_text, invalid, ObservationError};
use crate::exclusion::{base_index_of, find_base_index};
use crate::exclusion_constraint::{frame_constraint, put_constraint, IndexExclusionConstraintCoordinate};
use crate::expression_relation_var_schema::same_provenance;
use crate::order::text_eq;
use vstd::utf8::encode_utf8;

verus! {

/// The value of one lifecycle observation: constraint, backing index and its three flags.
pub struct IndexLifecycleView {
    pub coordinate: ConstraintCoordinateView,
    pub backing_index: IndexCoordinateView,
    pub index_ready: bool,
    pub index_valid: bool,
    pub index_live: bool,
}

/// Verified lifecycle state of one ordinary `EXCLUDE` backing index.
#[derive(Debug, PartialEq, Eq)]
pub struct IndexExclusionConstraintIndexLifecycleObservation {
    coordinate: IndexExclusionConstraintCoordinate,
    backing_index: IndexPartitionCoordinate,
    index_ready: bool,
    index_valid: bool,
    index_live: bool,
}

impl View for IndexExclusionConstraintIndexLifecycleObservation {
    type V = IndexLifecycleView;

    closed spec fn view(&self) -> IndexLifecycleView {
        IndexLifecycleView {
            coordinate: self.coordinate@,
            backing_index: self.backing_index@,
            index_ready: self.index_ready,
            index_valid: self.index_valid,
            index_live: self.index_live,
        }
    }
}

impl Clone for IndexExclusionConstraintIndexLifecycleObservation {
    fn clone(&self) -> (c: Self)
        ensures
            c@ == self@,
    {
        IndexExclusionConstraintIndexLifecycleObservation {
            coordinate: self.coordinate.clone(),
            backing_index: self.backing_index.clone(),
            index_ready: self.index_ready,
            index_valid: self.index_valid,
            index_live: self.index_live,
        }
    }
}

impl IndexExclusionConstraintIndexLifecycleObservation {
    /// Returns the exact exclusion-constraint coordinate.
    pub fn coordinate(&self) -> (c: &IndexExclusionConstraintCoordinate)
        ensures
            c@ == self@.coordinate,
    {
        &self.coordinate
    }

    /// Returns the exact backing-index coordinate proven by the predecessor.
    pub fn backing_index(&self) -> (c: &IndexPartitionCoordinate)
        ensures
            c@ == self@.backing_index,
    {
        &self.backing_index
    }

    /// Returns the backing index's observed `pg_index.indisready`.
    pub fn index_ready(&self) -> (b: bool)
        ensures
            b == self@.index_ready,
    {
        self.index_ready
    }

    /// Returns the backing index's observed `pg_index.indisvalid`.
    pub fn index_valid(&self) -> (b: bool)
        ensures
            b == self@.index_valid,
    {
        self.index_valid
    }

    /// Returns the backing index's observed `pg_index.indislive`.
    pub fn index_live(&self) -> (b: bool)
        ensures
            b == self@.index_live,
    {
        self.index_live
    }

    /// Returns the collision-safe location of this lifecycle observation.
    pub fn canonical_location(&self) -> (s: String)
        ensures
            s@ == constraint_property_location(self@.coordinate, "backing-index-lifecycle"@),
    {
        render_constraint_property_location(&self.coordinate, "backing-index-lifecycle")
    }
}

/// The namespace observations, by value.
pub open spec fn namespace_views(s: Seq<IndexExclusionConstraintIndexNamespaceObservation>) -> Seq<
    ConstraintPropertyView<IndexNamespaceView>,
> {
    s.map_values(|o: IndexExclusionConstraintIndexNamespaceObservation| o@)
}

/// How the backing index of one namespace observation fails its lifecycle, or 0: 1 no such index
/// in the base snapshot, 2 a flag that was not captured, 3 a flag that is not set.
pub open spec fn lifecycle_code(rels: Seq<BaseRelationView>, o: ConstraintPropertyView<IndexNamespaceView>) -> int {
    match base_index_of(rels, o.property.backing_index) {
        None => 1,
        Some(i) => if i.ready is None || i.valid is None || i.live is None {
            2
        } else if !(i.ready->0 && i.valid->0 && i.live->0) {
            3
        } else {
            0
        },
    }
}

/// The first non-zero lifecycle code over the observations, in order.
pub open spec fn first_lifecycle_code(rels: Seq<BaseRelationView>, s: Seq<ConstraintPropertyView<IndexNamespaceView>>) -> int
    decreases s.len(),
{
    if s.len() == 0 {
        0
    } else if lifecycle_code(rels, s[0]) != 0 {
        lifecycle_code(rels, s[0])
    } else {
        first_lifecycle_code(rels, s.drop_first())
    }
}

/// The field reported for a non-zero lifecycle code.
pub open spec fn lifecycle_field(code: int) -> Seq<char> {
    if code == 1 {
        "index_exclusion_constraint_index_lifecycle_backing_index"@
    } else if code == 2 {
        "index_exclusion_constraint_index_lifecycle_presence"@
    } else {
        "index_exclusion_constraint_index_lifecycle_state"@
    }
}

/// The lifecycle observations issued for accepted namespace observations: every flag set.
pub open spec fn lifecycles_of(s: Seq<ConstraintPropertyView<IndexNamespaceView>>) -> Seq<IndexLifecycleView> {
    s.map_values(
        |o: ConstraintPropertyView<IndexNamespaceView>|
            IndexLifecycleView {
                coordinate: o.coordinate,
                backing_index: o.property.backing_index,
                index_ready: true,
                index_valid: true,
                index_live: true,
            },
    )
}

/// Why lifecycle evidence is refused, or `None` when it is issued: the base snapshot must be the
/// one the namespace evidence descends from (same provenance and digest); then, in constraint
/// order, each backing index must exist with all three flags captured and set.
pub open spec fn lifecycle_refusal(
    base: LineageView,
    namespace: LineageView,
    namespace_source: Seq<char>,
    rels: Seq<BaseRelationView>,
    obs: Seq<ConstraintPropertyView<IndexNamespaceView>>,
) -> Option<Seq<char>> {
    if !same_provenance(base, namespace) || base.snapshot_digest != namespace_source {
        Some("index_exclusion_constraint_index_lifecycle_predecessor_binding"@)
    } else if first_lifecycle_code(rels, obs) != 0 {
        Some(lifecycle_field(first_lifecycle_code(rels, obs)))
    } else {
        None
    }
}

proof fn lemma_first_lifecycle_code_range(rels: Seq<BaseRelationView>, s: Seq<ConstraintPropertyView<IndexNamespaceView>>)
    ensures
        0 <= first_lifecycle_code(rels, s) <= 3,
    decreases s.len(),
{
    if s.len() > 0 {
        lemma_first_lifecycle_code_range(rels, s.drop_first());
    }
}

fn check_lifecycles(relations: &[BaseRelation], obs: &[IndexExclusionConstraintIndexNamespaceObservation]) -> (r: Result<
    Vec<IndexExclusionConstraintIndexLifecycleObservation>,
    ObservationError,
>)
    ensures
        ({
            let code = first_lifecycle_code(relations@.map_values(|b: BaseRelation| b@), namespace_views(obs@));
            &&& r is Ok <==> code == 0
            &&& r is Err ==> fails_with_text(r, lifecycle_field(code))
        }),
        r matches Ok(v) ==> v@.map_values(|o: IndexExclusionConstraintIndexLifecycleObservation| o@) == lifecycles_of(
            namespace_views(obs@),
        ),
{
    let ghost rels = relations@.map_values(|b: BaseRelation| b@);
    let ghost views = namespace_views(obs@);
    let mut out: Vec<IndexExclusionConstraintIndexLifecycleObservation> = Vec::new();
    let mut i: usize = 0;
    assert(views.skip(0) =~= views);
    while i < obs.len()
        invariant
            i <= obs@.len(),
            rels == relations@.map_values(|b: BaseRelation| b@),
            views == namespace_views(obs@),
            first_lifecycle_code(rels, views) == first_lifecycle_code(rels, views.skip(i as int)),
            out@.map_values(|o: IndexExclusionConstraintIndexLifecycleObservation| o@) == lifecycles_of(views).subrange(0, i as int),
        decreases obs@.len() - i,
    {
        assert(views.skip(i as int)[0] == obs@[i as int]@);
        assert(views.skip(i as int).drop_first() =~= views.skip(i + 1));
        let o = &obs[i];
        let index = match find_base_index(relations, o.backing_index()) {
            Some(x) => x,
            None => {
                return Err(invalid("index_exclusion_constraint_index_lifecycle_backing_index"));
            },
        };
        let (ready, valid, live) = match (index.ready(), index.valid(), index.live()) {
            (Some(a), Some(b), Some(c)) => (a, b, c),
            _ => {
                return Err(invalid("index_exclusion_constraint_index_lifecycle_presence"));
            },
        };
        if !ready || !valid || !live {
            return Err(invalid("index_exclusion_constraint_index_lifecycle_state"));
        }
        let observation = IndexExclusionConstraintIndexLifecycleObservation {
            coordinate: o.coordinate().clone(),
            backing_index: o.backing_index().clone(),
            index_ready: ready,
            index_valid: valid,
            index_live: live,
        };
        assert(observation@ == lifecycles_of(views)[i as int]);
        let ghost before = out@;
        out.push(observation);
        proof {
            assert(out@.map_values(|o: IndexExclusionConstraintIndexLifecycleObservation| o@) =~= before.map_values(
                |o: IndexExclusionConstraintIndexLifecycleObservation| o@,
            ).push(lifecycles_of(views)[i as int]));
            assert(out@.map_values(|o: IndexExclusionConstraintIndexLifecycleObservation| o@) =~= lifecycles_of(
                views,
            ).subrange(0, i + 1));
        }
        i = i + 1;
    }
    assert(lifecycles_of(views).subrange(0, obs@.len() as int) =~= lifecycles_of(views));
    Ok(out)
}

/// Domain separator of the backing-index lifecycle digest.
pub const INDEX_LIFECYCLE_DIGEST_DOMAIN: &'static str =
    "conceptweave.postgres_schema_snapshot.v3.relation_partition.index_partition.exclusion_constraint.index_lifecycle.v1";

/// Framing of one lifecycle observation: constraint, backing index and the three flags.
pub open spec fn frame_lifecycle(o: IndexLifecycleView) -> Seq<u8> {
    frame_constraint(o.coordinate) + frame_index(o.backing_index) + frame_bool(o.index_ready) + frame_bool(o.index_valid)
        + frame_bool(o.index_live)
}

/// Framing of lifecycle observations, in order.
pub open spec fn frame_lifecycles(s: Seq<IndexLifecycleView>) -> Seq<u8>
    decreases s.len(),
{
    if s.len() == 0 {
        Seq::empty()
    } else {
        frame_lifecycles(s.drop_last()) + frame_lifecycle(s.last())
    }
}

/// The preimage of the lifecycle digest over the base and namespace digests.
pub open spec fn lifecycle_preimage(base_digest: Seq<char>, predecessor_digest: Seq<char>, s: Seq<IndexLifecycleView>) -> Seq<u8> {
    encode_utf8(INDEX_LIFECYCLE_DIGEST_DOMAIN@) + frame_str(base_digest) + frame_str(predecessor_digest) + frame_len(s.len())
        + frame_lifecycles(s)
}

fn put_lifecycle(out: &mut Vec<u8>, o: &IndexExclusionConstraintIndexLifecycleObservation)
    ensures
        final(out)@ == old(out)@ + frame_lifecycle(o@),
{
    let ghost s0 = out@;
    put_constraint(out, o.coordinate());
    put_index(out, o.backing_index());
    put_bool(out, o.index_ready());
    put_bool(out, o.index_valid());
    put_bool(out, o.index_live());
    assert(final(out)@ =~= s0 + frame_lifecycle(o@));
}

fn compute_lifecycle_digest(
    base_digest: &str,
    predecessor_digest: &str,
    observations: &[IndexExclusionConstraintIndexLifecycleObservation],
) -> (d: String)
    ensures
        d@ == digest_text(
            lifecycle_preimage(
                base_digest@,
                predecessor_digest@,
                observations@.map_values(|o: IndexExclusionConstraintIndexLifecycleObservation| o@),
            ),
        ),
{
    let ghost views = observations@.map_values(|o: IndexExclusionConstraintIndexLifecycleObservation| o@);
    let mut out: Vec<u8> = Vec::new();
    put_raw(&mut out, INDEX_LIFECYCLE_DIGEST_DOMAIN.as_bytes());
    put_str(&mut out, base_digest);
    put_str(&mut out, predecessor_digest);
    put_len(&mut out, observations.len());
    let ghost header = out@;
    let mut i: usize = 0;
    while i < observations.len()
        invariant
            i <= observations@.len(),
            views == observations@.map_values(|o: IndexExclusionConstraintIndexLifecycleObservation| o@),
            out@ == header + frame_lifecycles(views.subrange(0, i as int)),
        decreases observations@.len() - i,
    {
        put_lifecycle(&mut out, &observations[i]);
        proof {
            let next = views.subrange(0, i + 1);
            assert(next.drop_last() =~= views.subrange(0, i as int));
            assert(next.last() == observations@[i as int]@);
            assert(out@ =~= header + frame_lifecycles(next));
        }
        i = i + 1;
    }
    proof {
        assert(views.subrange(0, observations@.len() as int) =~= views);
    }
    finish_digest(&out)
}

} // verus!

verus! {

/// The first lifecycle observation of constraint `c`.
pub open spec fn lifecycle_at(s: Seq<IndexLifecycleView>, c: ConstraintCoordinateView) -> Option<IndexLifecycleView>
    decreases s.len(),
{
    if s.len() == 0 {
        None
    } else if s[0].coordinate == c {
        Some(s[0])
    } else {
        lifecycle_at(s.drop_first(), c)
    }
}

fn find_lifecycle<'a>(obs: &'a [IndexExclusionConstraintIndexLifecycleObservation], c: &IndexExclusionConstraintCoordinate) -> (r:
    Option<&'a IndexExclusionConstraintIndexLifecycleObservation>)
    ensures
        match r {
            Some(o) => lifecycle_at(obs@.map_values(|x: IndexExclusionConstraintIndexLifecycleObservation| x@), c@) == Some(o@),
            None => lifecycle_at(obs@.map_values(|x: IndexExclusionConstraintIndexLifecycleObservation| x@), c@) is None,
        },
{
    let ghost views = obs@.map_values(|x: IndexExclusionConstraintIndexLifecycleObservation| x@);
    let mut i: usize = 0;
    assert(views.skip(0) =~= views);
    while i < obs.len()
        invariant
            i <= obs@.len(),
            views == obs@.map_values(|x: IndexExclusionConstraintIndexLifecycleObservation| x@),
            lifecycle_at(views, c@) == lifecycle_at(views.skip(i as int), c@),
        decreases obs@.len() - i,
    {
        assert(views.skip(i as int)[0] == obs@[i as int]@);
        assert(views.skip(i as int).drop_first() =~= views.skip(i + 1));
        if obs[i].coordinate().same_as(c) {
            return Some(&obs[i]);
        }
        i = i + 1;
    }
    None
}

/// Immutable provenance receipt for one backing-index lifecycle observation.
#[derive(Debug, PartialEq, Eq)]
pub struct IndexExclusionConstraintIndexLifecycleSourceReceipt {
    source_id: String,
    connection_policy_binding: String,
    source_digest: String,
    extractor_revision: String,
    observed_at_utc: String,
    location: IndexExclusionConstraintIndexLifecycleObservation,
}

impl IndexExclusionConstraintIndexLifecycleSourceReceipt {
    /// The provenance carried by this receipt.
    pub closed spec fn lineage(&self) -> LineageView {
        LineageView {
            source_connection_key: self.source_id@,
            connection_policy_binding: self.connection_policy_binding@,
            snapshot_digest: self.source_digest@,
            extractor_revision: self.extractor_revision@,
            observed_at_utc: self.observed_at_utc@,
        }
    }

    /// The observation covered by this receipt.
    pub closed spec fn location_view(&self) -> IndexLifecycleView {
        self.location@
    }

    /// Returns the stable source registry key, never credential material.
    pub fn source_id(&self) -> (s: &str)
        ensures
            s@ == self.lineage().source_connection_key,
    {
        self.source_id.as_str()
    }

    /// Returns the immutable source-policy binding.
    pub fn connection_policy_binding(&self) -> (s: &str)
        ensures
            s@ == self.lineage().connection_policy_binding,
    {
        self.connection_policy_binding.as_str()
    }

    /// Returns the owner-computed backing-index lifecycle digest.
    pub fn source_digest(&self) -> (s: &str)
        ensures
            s@ == self.lineage().snapshot_digest,
    {
        self.source_digest.as_str()
    }

    /// Returns the exact extractor revision inherited from the predecessor.
    pub fn extractor_revision(&self) -> (s: &str)
        ensures
            s@ == self.lineage().extractor_revision,
    {
        self.extractor_revision.as_str()
    }

    /// Returns the exact canonical UTC observation time inherited from the predecessor.
    pub fn observed_at_utc(&self) -> (s: &str)
        ensures
            s@ == self.lineage().observed_at_utc,
    {
        self.observed_at_utc.as_str()
    }

    /// Returns the exact lifecycle observation.
    pub fn location(&self) -> (o: &IndexExclusionConstraintIndexLifecycleObservation)
        ensures
            o@ == self.location_view(),
    {
        &self.location
    }
}

/// Complete lifecycle integrity of every ordinary `EXCLUDE` backing index proven by the namespace
/// evidence: each one is ready, valid and live in the base snapshot it descends from.
#[derive(Debug, PartialEq, Eq)]
pub struct IndexExclusionConstraintIndexLifecycleSnapshot {
    source_connection_key: String,
    connection_policy_binding: String,
    snapshot_digest: String,
    extractor_revision: String,
    observed_at_utc: String,
    observations: Vec<IndexExclusionConstraintIndexLifecycleObservation>,
}

impl IndexExclusionConstraintIndexLifecycleSnapshot {
    /// The provenance of this snapshot, with its own digest.
    pub closed spec fn lineage(&self) -> LineageView {
        LineageView {
            source_connection_key: self.source_connection_key@,
            connection_policy_binding: self.connection_policy_binding@,
            snapshot_digest: self.snapshot_digest@,
            extractor_revision: self.extractor_revision@,
            observed_at_utc: self.observed_at_utc@,
        }
    }

    /// The lifecycle observations, in constraint order.
    pub closed spec fn lifecycle_views(&self) -> Seq<IndexLifecycleView> {
        self.observations@.map_values(|o: IndexExclusionConstraintIndexLifecycleObservation| o@)
    }

    /// Binds the lifecycle flags of the base snapshot (its identity and relations) to every
    /// backing index of the namespace evidence.
    pub fn new(
        base_snapshot: &IssuedSnapshot,
        relations: &[BaseRelation],
        namespace_snapshot: &IndexExclusionConstraintIndexNamespaceSnapshot,
    ) -> (r: Result<Self, ObservationError>)
        ensures
            ({
                let refusal = lifecycle_refusal(
                    base_snapshot.lineage(),
                    namespace_snapshot.lineage(),
                    namespace_snapshot.source_snapshot(),
                    relations@.map_values(|b: BaseRelation| b@),
                    namespace_views(namespace_snapshot.entries()),
                );
                &&& r is Ok <==> refusal is None
                &&& refusal is Some ==> fails_with_text(r, refusal->0)
            }),
            r matches Ok(s) ==> {
                &&& s.lifecycle_views() == lifecycles_of(namespace_views(namespace_snapshot.entries()))
                &&& s.lineage() == (LineageView {
                    snapshot_digest: digest_text(
                        lifecycle_preimage(
                            base_snapshot.lineage().snapshot_digest,
                            namespace_snapshot.lineage().snapshot_digest,
                            s.lifecycle_views(),
                        ),
                    ),
                    ..namespace_snapshot.lineage()
                })
            },
    {
        if !text_eq(base_snapshot.source_connection_key(), namespace_snapshot.source_connection_key()) || !text_eq(
            base_snapshot.connection_policy_binding(),
            namespace_snapshot.connection_policy_binding(),
        ) || !text_eq(base_snapshot.snapshot_digest(), namespace_snapshot.source_snapshot_digest()) || !text_eq(
            base_snapshot.extractor_revision(),
            namespace_snapshot.extractor_revision(),
        ) || !text_eq(base_snapshot.observed_at_utc(), namespace_snapshot.observed_at_utc()) {
            return Err(invalid("index_exclusion_constraint_index_lifecycle_predecessor_binding"));
        }
        proof {
            lemma_first_lifecycle_code_range(
                relations@.map_values(|b: BaseRelation| b@),
                namespace_views(namespace_snapshot.entries()),
            );
        }
        let observations = check_lifecycles(relations, namespace_snapshot.observations())?;
        let snapshot_digest = compute_lifecycle_digest(
            base_snapshot.snapshot_digest(),
            namespace_snapshot.snapshot_digest(),
            observations.as_slice(),
        );
        Ok(IndexExclusionConstraintIndexLifecycleSnapshot {
            source_connection_key: namespace_snapshot.source_connection_key().to_owned(),
            connection_policy_binding: namespace_snapshot.connection_policy_binding().to_owned(),
            snapshot_digest,
            extractor_revision: namespace_snapshot.extractor_revision().to_owned(),
            observed_at_utc: namespace_snapshot.observed_at_utc().to_owned(),
            observations,
        })
    }

    /// Returns the stable source-connection registry key.
    pub fn source_connection_key(&self) -> (s: &str)
        ensures
            s@ == self.lineage().source_connection_key,
    {
        self.source_connection_key.as_str()
    }

    /// Returns the immutable source-policy binding inherited from the predecessor.
    pub fn connection_policy_binding(&self) -> (s: &str)
        ensures
            s@ == self.lineage().connection_policy_binding,
    {
        self.connection_policy_binding.as_str()
    }

    /// Returns the domain-separated backing-index lifecycle digest.
    pub fn snapshot_digest(&self) -> (s: &str)
        ensures
            s@ == self.lineage().snapshot_digest,
    {
        self.snapshot_digest.as_str()
    }

    /// Returns the exact extractor revision inherited from the predecessor.
    pub fn extractor_revision(&self) -> (s: &str)
        ensures
            s@ == self.lineage().extractor_revision,
    {
        self.extractor_revision.as_str()
    }

    /// Returns the exact canonical UTC observation time inherited from the predecessor.
    pub fn observed_at_utc(&self) -> (s: &str)
        ensures
            s@ == self.lineage().observed_at_utc,
    {
        self.observed_at_utc.as_str()
    }

    /// Returns complete lifecycle observations in constraint order.
    pub fn observations(&self) -> (o: &[IndexExclusionConstraintIndexLifecycleObservation])
        ensures
            o@.map_values(|x: IndexExclusionConstraintIndexLifecycleObservation| x@) == self.lifecycle_views(),
    {
        self.observations.as_slice()
    }

    /// Issues provenance for one backing-index lifecycle observation.
    pub fn source_receipt(&self, coordinate: IndexExclusionConstraintCoordinate) -> (r: Result<
        IndexExclusionConstraintIndexLifecycleSourceReceipt,
        ObservationError,
    >)
        ensures
            r is Ok <==> lifecycle_at(self.lifecycle_views(), coordinate@) is Some,
            r matches Ok(receipt) ==> receipt.lineage() == self.lineage() && Some(receipt.location_view())
                == lifecycle_at(self.lifecycle_views(), coordinate@),
            r matches Err(e) ==> e matches ObservationError::UnknownObservationLocation { location: l } && l@
                == constraint_property_location(coordinate@, "backing-index-lifecycle"@),
    {
        let observation = match find_lifecycle(self.observations.as_slice(), &coordinate) {
            Some(o) => o,
            None => {
                return Err(
                    ObservationError::UnknownObservationLocation {
                        location: render_constraint_property_location(&coordinate, "backing-index-lifecycle"),
                    },
                );
            },
        };
        Ok(IndexExclusionConstraintIndexLifecycleSourceReceipt {
            source_id: self.source_connection_key.clone(),
            connection_policy_binding: self.connection_policy_binding.clone(),
            source_digest: self.snapshot_digest.clone(),
            extractor_revision: self.extractor_revision.clone(),
            observed_at_utc: self.observed_at_utc.clone(),
            location: observation.clone(),
        })
    }
}

} // verus!
