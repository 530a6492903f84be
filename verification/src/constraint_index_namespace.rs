//! Ordinary exclusion-constraint backing-index namespace evidence.
//!
//! PostgreSQL stores an index relation's namespace in `pg_class.relnamespace`. An index is created
//! in its table's schema, but that catalog column is still observed and resolved rather than
//! derived from the index coordinate. This layer keeps the resolved name and refuses one that
//! differs from the schema of the backing index or of its constraint.

use vstd::prelude::*;

use crate::catalog::{
    frame_index, lemma_coordinate_lt_irreflexive, put_index, validate_nonblank, IndexCoordinateView,
    IndexPartitionCoordinate, LineageView,
};
use crate::constraint_index_name::{IndexExclusionConstraintIndexNameObservation, IndexExclusionConstraintIndexNameSnapshot, IndexNameBindingView};
use crate::constraint_property::{
    compute_constraint_property_digest, constraint_property_location, constraint_property_preimage, coordinates_of,
    find_constraint_observation, lemma_coordinate_collision, observation_of_constraint,
    render_constraint_property_location, repeated_coordinate, sorted_by_constraint, ConstraintBound,
    ConstraintPropertyView,
};
use crate::digest::{digest_text, frame_str, put_str};
use crate::error::{fails_with, fails_with_text, invalid, ObservationError};
use crate::exclusion_constraint::{constraint_key, constraint_lt, IndexExclusionConstraintCoordinate};
use crate::order::{sort_by_key, sorted_by_key, text_eq, KeyOrder, SortKey};
use crate::text::is_blank;

verus! {

/// The resolved namespace of one backing index: the index and its `relnamespace` name.
pub struct IndexNamespaceView {
    pub backing_index: IndexCoordinateView,
    pub index_schema_name: Seq<char>,
}

/// Independently resolved `pg_class.relnamespace` for one ordinary `EXCLUDE` backing index.
#[derive(Debug, PartialEq, Eq)]
pub struct IndexExclusionConstraintIndexNamespaceObservation {
    coordinate: IndexExclusionConstraintCoordinate,
    backing_index: IndexPartitionCoordinate,
    index_schema_name: String,
}

impl View for IndexExclusionConstraintIndexNamespaceObservation {
    type V = ConstraintPropertyView<IndexNamespaceView>;

    closed spec fn view(&self) -> ConstraintPropertyView<IndexNamespaceView> {
        ConstraintPropertyView {
            coordinate: self.coordinate@,
            property: IndexNamespaceView { backing_index: self.backing_index@, index_schema_name: self.index_schema_name@ },
        }
    }
}

impl Clone for IndexExclusionConstraintIndexNamespaceObservation {
    fn clone(&self) -> (c: Self)
        ensures
            c@ == self@,
    {
        IndexExclusionConstraintIndexNamespaceObservation {
            coordinate: self.coordinate.clone(),
            backing_index: self.backing_index.clone(),
            index_schema_name: self.index_schema_name.clone(),
        }
    }
}

impl IndexExclusionConstraintIndexNamespaceObservation {
    /// Records the resolved namespace of one backing index; the name must be non-blank.
    pub fn new(
        coordinate: IndexExclusionConstraintCoordinate,
        backing_index: IndexPartitionCoordinate,
        index_schema_name: &str,
    ) -> (r: Result<Self, ObservationError>)
        ensures
            r is Ok <==> !is_blank(index_schema_name@),
            r is Err ==> fails_with(r, "index_exclusion_constraint_index_namespace_name"),
            r matches Ok(o) ==> o@ == (ConstraintPropertyView {
                coordinate: coordinate@,
                property: IndexNamespaceView { backing_index: backing_index@, index_schema_name: index_schema_name@ },
            }),
    {
        validate_nonblank(index_schema_name, "index_exclusion_constraint_index_namespace_name")?;
        Ok(IndexExclusionConstraintIndexNamespaceObservation {
            coordinate,
            backing_index,
            index_schema_name: index_schema_name.to_owned(),
        })
    }

    /// Returns the exact exclusion-constraint coordinate.
    pub fn coordinate(&self) -> (c: &IndexExclusionConstraintCoordinate)
        ensures
            c@ == self@.coordinate,
    {
        &self.coordinate
    }

    /// Returns the exact backing-index coordinate.
    pub fn backing_index(&self) -> (c: &IndexPartitionCoordinate)
        ensures
            c@ == self@.property.backing_index,
    {
        &self.backing_index
    }

    /// Returns the namespace name resolved from `pg_class.relnamespace`.
    pub fn index_schema_name(&self) -> (s: &str)
        ensures
            s@ == self@.property.index_schema_name,
    {
        self.index_schema_name.as_str()
    }

    /// Returns the collision-safe location of this namespace observation.
    pub fn canonical_location(&self) -> (s: String)
        ensures
            s@ == constraint_property_location(self@.coordinate, "backing-index-namespace"@),
    {
        render_constraint_property_location(&self.coordinate, "backing-index-namespace")
    }
}

impl ConstraintBound for IndexExclusionConstraintIndexNamespaceObservation {
    open spec fn bound_constraint(&self) -> crate::catalog::ConstraintCoordinateView {
        self@.coordinate
    }

    open spec fn constraint_property_frame(&self) -> Seq<u8> {
        frame_index(self@.property.backing_index) + frame_str(self@.property.index_schema_name)
    }

    fn constraint_coordinate(&self) -> (c: &IndexExclusionConstraintCoordinate) {
        &self.coordinate
    }

    fn put_constraint_property(&self, out: &mut Vec<u8>) {
        put_index(out, &self.backing_index);
        put_str(out, self.index_schema_name.as_str());
        assert(final(out)@ =~= old(out)@ + (frame_index(self@.property.backing_index) + frame_str(
            self@.property.index_schema_name,
        )));
    }
}

impl SortKey for IndexExclusionConstraintIndexNamespaceObservation {
    open spec fn key_lt(self, other: Self) -> bool {
        constraint_lt(self@.coordinate, other@.coordinate)
    }

    proof fn lemma_key_lt_transitive(a: Self, b: Self, c: Self) {
        crate::catalog::lemma_coordinate_lt_transitive(
            constraint_key(a@.coordinate),
            constraint_key(b@.coordinate),
            constraint_key(c@.coordinate),
        );
    }

    proof fn lemma_key_lt_irreflexive(a: Self) {
        lemma_coordinate_lt_irreflexive(constraint_key(a@.coordinate));
    }

    fn compare_key(&self, other: &Self) -> (o: KeyOrder) {
        proof {
            lemma_coordinate_lt_irreflexive(constraint_key(self@.coordinate));
        }
        self.coordinate.compare(&other.coordinate)
    }
}

/// The (constraint, backing index) binding that a namespace observation is about.
pub open spec fn namespace_binding(o: IndexExclusionConstraintIndexNamespaceObservation) -> IndexNameBindingView {
    IndexNameBindingView { coordinate: o@.coordinate, backing_index: o@.property.backing_index }
}

/// The observations are about exactly the issued name bindings.
pub open spec fn same_bindings(pred: Seq<IndexNameBindingView>, obs: Seq<IndexExclusionConstraintIndexNamespaceObservation>) -> bool {
    &&& forall|i: int| 0 <= i < obs.len() ==> pred.contains(namespace_binding(#[trigger] obs[i]))
    &&& forall|k: int| 0 <= k < pred.len() ==> obs.map_values(|o: IndexExclusionConstraintIndexNamespaceObservation| namespace_binding(o)).contains(#[trigger] pred[k])
}

/// The resolved namespace is the schema of the backing index and of the constraint.
pub open spec fn namespace_state_ok(o: ConstraintPropertyView<IndexNamespaceView>) -> bool {
    o.property.index_schema_name == o.property.backing_index.schema_name && o.property.index_schema_name
        == o.coordinate.schema_name
}

/// The field reported when namespace observations are refused, or `None` when they are accepted:
/// a repeated constraint, then bindings other than exactly the issued ones, then a resolved
/// namespace other than the schema of the backing index or of its constraint.
pub open spec fn index_namespace_refusal(
    pred: Seq<IndexNameBindingView>,
    obs: Seq<IndexExclusionConstraintIndexNamespaceObservation>,
) -> Option<Seq<char>> {
    let sorted = sorted_by_key(obs);
    if repeated_coordinate(coordinates_of(obs)) {
        Some("index_exclusion_constraint_index_namespace_coordinate"@)
    } else if !same_bindings(pred, sorted) {
        Some("index_exclusion_constraint_index_namespace_completeness"@)
    } else if exists|i: int| 0 <= i < sorted.len() && !namespace_state_ok(#[trigger] sorted[i]@) {
        Some("index_exclusion_constraint_index_namespace_state"@)
    } else {
        None
    }
}

fn binding_issued(pred: &[IndexExclusionConstraintIndexNameObservation], o: &IndexExclusionConstraintIndexNamespaceObservation) -> (b: bool)
    ensures
        b == pred@.map_values(|p: IndexExclusionConstraintIndexNameObservation| p@).contains(namespace_binding(*o)),
{
    let ghost views = pred@.map_values(|p: IndexExclusionConstraintIndexNameObservation| p@);
    let mut i: usize = 0;
    while i < pred.len()
        invariant
            i <= pred@.len(),
            views == pred@.map_values(|p: IndexExclusionConstraintIndexNameObservation| p@),
            forall|k: int| 0 <= k < i ==> views[k] != namespace_binding(*o),
        decreases pred@.len() - i,
    {
        if pred[i].coordinate().same_as(o.coordinate()) && pred[i].backing_index().same_as(o.backing_index()) {
            assert(views[i as int] == namespace_binding(*o));
            return true;
        }
        i = i + 1;
    }
    false
}

fn binding_observed(obs: &[IndexExclusionConstraintIndexNamespaceObservation], p: &IndexExclusionConstraintIndexNameObservation) -> (b:
    bool)
    ensures
        b == obs@.map_values(|o: IndexExclusionConstraintIndexNamespaceObservation| namespace_binding(o)).contains(p@),
{
    let ghost pairs = obs@.map_values(|o: IndexExclusionConstraintIndexNamespaceObservation| namespace_binding(o));
    let mut i: usize = 0;
    while i < obs.len()
        invariant
            i <= obs@.len(),
            pairs == obs@.map_values(|o: IndexExclusionConstraintIndexNamespaceObservation| namespace_binding(o)),
            forall|k: int| 0 <= k < i ==> pairs[k] != p@,
        decreases obs@.len() - i,
    {
        if obs[i].coordinate().same_as(p.coordinate()) && obs[i].backing_index().same_as(p.backing_index()) {
            assert(pairs[i as int] == p@);
            return true;
        }
        i = i + 1;
    }
    false
}

fn bindings_match(pred: &[IndexExclusionConstraintIndexNameObservation], obs: &[IndexExclusionConstraintIndexNamespaceObservation]) -> (b:
    bool)
    ensures
        b == same_bindings(pred@.map_values(|p: IndexExclusionConstraintIndexNameObservation| p@), obs@),
{
    let ghost views = pred@.map_values(|p: IndexExclusionConstraintIndexNameObservation| p@);
    let mut i: usize = 0;
    while i < obs.len()
        invariant
            i <= obs@.len(),
            views == pred@.map_values(|p: IndexExclusionConstraintIndexNameObservation| p@),
            forall|k: int| 0 <= k < i ==> views.contains(namespace_binding(#[trigger] obs@[k])),
        decreases obs@.len() - i,
    {
        if !binding_issued(pred, &obs[i]) {
            return false;
        }
        i = i + 1;
    }
    let mut j: usize = 0;
    while j < pred.len()
        invariant
            j <= pred@.len(),
            views == pred@.map_values(|p: IndexExclusionConstraintIndexNameObservation| p@),
            forall|k: int| 0 <= k < obs@.len() ==> views.contains(namespace_binding(#[trigger] obs@[k])),
            forall|k: int| 0 <= k < j ==> obs@.map_values(|o: IndexExclusionConstraintIndexNamespaceObservation| namespace_binding(o)).contains(#[trigger] views[k]),
        decreases pred@.len() - j,
    {
        assert(views[j as int] == pred@[j as int]@);
        if !binding_observed(obs, &pred[j]) {
            return false;
        }
        j = j + 1;
    }
    true
}

fn states_ok(obs: &[IndexExclusionConstraintIndexNamespaceObservation]) -> (b: bool)
    ensures
        b == !(exists|i: int| 0 <= i < obs@.len() && !namespace_state_ok(#[trigger] obs@[i]@)),
{
    let mut i: usize = 0;
    while i < obs.len()
        invariant
            i <= obs@.len(),
            forall|k: int| 0 <= k < i ==> namespace_state_ok(#[trigger] obs@[k]@),
        decreases obs@.len() - i,
    {
        let o = &obs[i];
        if !text_eq(o.index_schema_name(), o.backing_index().schema_name()) || !text_eq(
            o.index_schema_name(),
            o.coordinate().schema_name(),
        ) {
            assert(!namespace_state_ok(obs@[i as int]@));
            return false;
        }
        i = i + 1;
    }
    true
}

} // verus!

verus! {

/// Domain separator of the backing-index namespace digest.
pub const INDEX_NAMESPACE_DIGEST_DOMAIN: &'static str =
    "conceptweave.postgres_schema_snapshot.v3.relation_partition.index_partition.exclusion_constraint.index_namespace.v1";

/// Immutable provenance receipt for one backing-index namespace observation.
#[derive(Debug, PartialEq, Eq)]
pub struct IndexExclusionConstraintIndexNamespaceSourceReceipt {
    source_id: String,
    connection_policy_binding: String,
    source_digest: String,
    extractor_revision: String,
    observed_at_utc: String,
    location: IndexExclusionConstraintIndexNamespaceObservation,
}

impl IndexExclusionConstraintIndexNamespaceSourceReceipt {
    /// The provenance carried by this receipt.
    pub closed spec fn lineage(&self) -> LineageView {
        LineageView {
            source_connection_key: self.source_id@,
            connection_policy_binding: self.connection_policy_binding@,
            snapshot_digest: self.source_digest@,
            extractor_revision: self.extractor_revision@,
            observed_at_utc: self.observed_at_utc@,
        }
    }

    /// The observation covered by this receipt.
    pub closed spec fn location_view(&self) -> ConstraintPropertyView<IndexNamespaceView> {
        self.location@
    }

    /// Returns the stable source registry key, never credential material.
    pub fn source_id(&self) -> (s: &str)
        ensures
            s@ == self.lineage().source_connection_key,
    {
        self.source_id.as_str()
    }

    /// Returns the immutable source-policy binding.
    pub fn connection_policy_binding(&self) -> (s: &str)
        ensures
            s@ == self.lineage().connection_policy_binding,
    {
        self.connection_policy_binding.as_str()
    }

    /// Returns the owner-computed backing-index namespace digest.
    pub fn source_digest(&self) -> (s: &str)
        ensures
            s@ == self.lineage().snapshot_digest,
    {
        self.source_digest.as_str()
    }

    /// Returns the exact extractor revision inherited from the index-name predecessor.
    pub fn extractor_revision(&self) -> (s: &str)
        ensures
            s@ == self.lineage().extractor_revision,
    {
        self.extractor_revision.as_str()
    }

    /// Returns the exact canonical UTC observation time inherited from the predecessor.
    pub fn observed_at_utc(&self) -> (s: &str)
        ensures
            s@ == self.lineage().observed_at_utc,
    {
        self.observed_at_utc.as_str()
    }

    /// Returns the exact namespace observation.
    pub fn location(&self) -> (o: &IndexExclusionConstraintIndexNamespaceObservation)
        ensures
            o@ == self.location_view(),
    {
        &self.location
    }
}

/// Complete ordinary `EXCLUDE` backing-index namespace evidence over one naming snapshot.
///
/// Every issued name binding has exactly one resolved namespace observation, and that namespace
/// is the schema of both the backing index and its constraint.
#[derive(Debug, PartialEq, Eq)]
pub struct IndexExclusionConstraintIndexNamespaceSnapshot {
    source_connection_key: String,
    connection_policy_binding: String,
    source_snapshot_digest: String,
    snapshot_digest: String,
    extractor_revision: String,
    observed_at_utc: String,
    observations: Vec<IndexExclusionConstraintIndexNamespaceObservation>,
}

impl IndexExclusionConstraintIndexNamespaceSnapshot {
    /// The provenance of this snapshot, with its own digest.
    pub closed spec fn lineage(&self) -> LineageView {
        LineageView {
            source_connection_key: self.source_connection_key@,
            connection_policy_binding: self.connection_policy_binding@,
            snapshot_digest: self.snapshot_digest@,
            extractor_revision: self.extractor_revision@,
            observed_at_utc: self.observed_at_utc@,
        }
    }

    /// The digest of the base snapshot inherited from the naming predecessor.
    pub closed spec fn source_snapshot(&self) -> Seq<char> {
        self.source_snapshot_digest@
    }

    /// The observations held, in coordinate order.
    pub closed spec fn entries(&self) -> Seq<IndexExclusionConstraintIndexNamespaceObservation> {
        self.observations@
    }

    /// Creates complete namespace evidence over one naming snapshot: exactly one observation for
    /// each of its name bindings.
    pub fn new(
        index_name_snapshot: &IndexExclusionConstraintIndexNameSnapshot,
        observations: Vec<IndexExclusionConstraintIndexNamespaceObservation>,
    ) -> (r: Result<Self, ObservationError>)
        ensures
            ({
                let refusal = index_namespace_refusal(index_name_snapshot.binding_views(), observations@);
                &&& r is Ok <==> refusal is None
                &&& refusal is Some ==> fails_with_text(r, refusal->0)
            }),
            r matches Ok(s) ==> {
                &&& s.entries() == sorted_by_key(observations@)
                &&& s.source_snapshot() == index_name_snapshot.source_snapshot()
                &&& s.lineage() == (LineageView {
                    snapshot_digest: digest_text(
                        constraint_property_preimage(
                            INDEX_NAMESPACE_DIGEST_DOMAIN@,
                            index_name_snapshot.lineage().snapshot_digest,
                            s.entries(),
                        ),
                    ),
                    ..index_name_snapshot.lineage()
                })
            },
    {
        proof {
            assert(sorted_by_constraint::<IndexExclusionConstraintIndexNamespaceObservation>());
            lemma_coordinate_collision(observations@);
        }
        let sorted = match sort_by_key(observations) {
            Some(v) => v,
            None => {
                return Err(invalid("index_exclusion_constraint_index_namespace_coordinate"));
            },
        };
        if !bindings_match(index_name_snapshot.observations(), sorted.as_slice()) {
            return Err(invalid("index_exclusion_constraint_index_namespace_completeness"));
        }
        if !states_ok(sorted.as_slice()) {
            return Err(invalid("index_exclusion_constraint_index_namespace_state"));
        }
        let snapshot_digest = compute_constraint_property_digest(
            INDEX_NAMESPACE_DIGEST_DOMAIN,
            index_name_snapshot.snapshot_digest(),
            sorted.as_slice(),
        );
        Ok(IndexExclusionConstraintIndexNamespaceSnapshot {
            source_connection_key: index_name_snapshot.source_connection_key().to_owned(),
            connection_policy_binding: index_name_snapshot.connection_policy_binding().to_owned(),
            source_snapshot_digest: index_name_snapshot.source_snapshot_digest().to_owned(),
            snapshot_digest,
            extractor_revision: index_name_snapshot.extractor_revision().to_owned(),
            observed_at_utc: index_name_snapshot.observed_at_utc().to_owned(),
            observations: sorted,
        })
    }

    /// Returns the stable source-connection registry key.
    pub fn source_connection_key(&self) -> (s: &str)
        ensures
            s@ == self.lineage().source_connection_key,
    {
        self.source_connection_key.as_str()
    }

    /// Returns the immutable source-policy binding inherited from the predecessor.
    pub fn connection_policy_binding(&self) -> (s: &str)
        ensures
            s@ == self.lineage().connection_policy_binding,
    {
        self.connection_policy_binding.as_str()
    }

    /// Returns the base snapshot digest inherited from the naming predecessor.
    pub fn source_snapshot_digest(&self) -> (s: &str)
        ensures
            s@ == self.source_snapshot(),
    {
        self.source_snapshot_digest.as_str()
    }

    /// Returns the domain-separated backing-index namespace digest.
    pub fn snapshot_digest(&self) -> (s: &str)
        ensures
            s@ == self.lineage().snapshot_digest,
    {
        self.snapshot_digest.as_str()
    }

    /// Returns the exact extractor revision inherited from the predecessor.
    pub fn extractor_revision(&self) -> (s: &str)
        ensures
            s@ == self.lineage().extractor_revision,
    {
        self.extractor_revision.as_str()
    }

    /// Returns the exact canonical UTC observation time inherited from the predecessor.
    pub fn observed_at_utc(&self) -> (s: &str)
        ensures
            s@ == self.lineage().observed_at_utc,
    {
        self.observed_at_utc.as_str()
    }

    /// Returns complete namespace observations in coordinate order.
    pub fn observations(&self) -> (o: &[IndexExclusionConstraintIndexNamespaceObservation])
        ensures
            o@ == self.entries(),
    {
        self.observations.as_slice()
    }

    /// Issues provenance for one backing-index namespace observation.
    pub fn source_receipt(&self, coordinate: IndexExclusionConstraintCoordinate) -> (r: Result<
        IndexExclusionConstraintIndexNamespaceSourceReceipt,
        ObservationError,
    >)
        ensures
            r is Ok <==> observation_of_constraint(self.entries(), coordinate@) is Some,
            r matches Ok(receipt) ==> receipt.lineage() == self.lineage() && receipt.location_view()
                == observation_of_constraint(self.entries(), coordinate@)->0@,
            r matches Err(e) ==> e matches ObservationError::UnknownObservationLocation { location: l } && l@
                == constraint_property_location(coordinate@, "backing-index-namespace"@),
    {
        let observation = match find_constraint_observation(self.observations.as_slice(), &coordinate) {
            Some(o) => o,
            None => {
                return Err(
                    ObservationError::UnknownObservationLocation {
                        location: render_constraint_property_location(&coordinate, "backing-index-namespace"),
                    },
                );
            },
        };
        Ok(IndexExclusionConstraintIndexNamespaceSourceReceipt {
            source_id: self.source_connection_key.clone(),
            connection_policy_binding: self.connection_policy_binding.clone(),
            source_digest: self.snapshot_digest.clone(),
            extractor_revision: self.extractor_revision.clone(),
            observed_at_utc: self.observed_at_utc.clone(),
            location: observation.clone(),
        })
    }
}

} // verus!
