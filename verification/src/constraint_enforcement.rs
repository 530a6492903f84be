//! Exclusion-constraint enforcement evidence.
//!
//! PostgreSQL 18 records `pg_constraint.conenforced` for every constraint, but accepts `NOT
//! ENFORCED` only for `CHECK` and foreign-key constraints. An ordinary `EXCLUDE` constraint is
//! therefore valid only when the bit is set; this layer binds that bit for every constraint of the
//! issued timing evidence.

use vstd::prelude::*;

use crate::catalog::{lemma_coordinate_lt_irreflexive, LineageView};
use crate::constraint_property::{
    canonicalize_constraint_properties, compute_constraint_property_digest, constraint_property_location,
    constraint_property_preimage, coordinate_refusal_code, coordinates_of, find_constraint_observation,
    observation_of_constraint, render_constraint_property_location, sorted_by_constraint, ConstraintBound,
    ConstraintPropertyView,
};
use crate::digest::{digest_text, frame_bool, put_bool};
use crate::error::{fails_with, fails_with_text, ObservationError};
use crate::constraint_timing::IssuedConstraintTiming;
use crate::exclusion_constraint::{constraint_key, constraint_lt, IndexExclusionConstraintCoordinate};
use crate::order::{sorted_by_key, KeyOrder, SortKey};

verus! {

/// Exact `pg_constraint.conenforced` state for one exclusion constraint.
#[derive(Debug, PartialEq, Eq)]
pub struct IndexExclusionConstraintEnforcementObservation {
    coordinate: IndexExclusionConstraintCoordinate,
    enforced: bool,
}

impl View for IndexExclusionConstraintEnforcementObservation {
    type V = ConstraintPropertyView<bool>;

    closed spec fn view(&self) -> ConstraintPropertyView<bool> {
        ConstraintPropertyView { coordinate: self.coordinate@, property: self.enforced }
    }
}

impl Clone for IndexExclusionConstraintEnforcementObservation {
    fn clone(&self) -> (c: Self)
        ensures
            c@ == self@,
    {
        IndexExclusionConstraintEnforcementObservation { coordinate: self.coordinate.clone(), enforced: self.enforced }
    }
}

impl IndexExclusionConstraintEnforcementObservation {
    /// Records the enforcement bit of one exclusion constraint; an `EXCLUDE` row that is not
    /// enforced contradicts PostgreSQL 18 and is refused rather than normalized.
    pub fn new(coordinate: IndexExclusionConstraintCoordinate, enforced: bool) -> (r: Result<Self, ObservationError>)
        ensures
            r is Ok <==> enforced,
            !enforced ==> fails_with(r, "index_exclusion_constraint_enforcement_state"),
            r matches Ok(o) ==> o@ == (ConstraintPropertyView { coordinate: coordinate@, property: enforced }),
    {
        if !enforced {
            return Err(crate::error::invalid("index_exclusion_constraint_enforcement_state"));
        }
        Ok(IndexExclusionConstraintEnforcementObservation { coordinate, enforced })
    }

    /// Returns the exact exclusion-constraint coordinate.
    pub fn coordinate(&self) -> (c: &IndexExclusionConstraintCoordinate)
        ensures
            c@ == self@.coordinate,
    {
        &self.coordinate
    }

    /// Returns observed `pg_constraint.conenforced`.
    pub fn enforced(&self) -> (b: bool)
        ensures
            b == self@.property,
    {
        self.enforced
    }

    /// Returns the collision-safe evidence location for this enforcement observation.
    pub fn canonical_location(&self) -> (s: String)
        ensures
            s@ == constraint_property_location(self@.coordinate, "enforcement"@),
    {
        proof {
            reveal_strlit("enforcement");
        }
        render_constraint_property_location(&self.coordinate, "enforcement")
    }
}

impl ConstraintBound for IndexExclusionConstraintEnforcementObservation {
    open spec fn bound_constraint(&self) -> crate::catalog::ConstraintCoordinateView {
        self@.coordinate
    }

    open spec fn constraint_property_frame(&self) -> Seq<u8> {
        frame_bool(self@.property)
    }

    fn constraint_coordinate(&self) -> (c: &IndexExclusionConstraintCoordinate) {
        &self.coordinate
    }

    fn put_constraint_property(&self, out: &mut Vec<u8>) {
        put_bool(out, self.enforced);
    }
}

impl SortKey for IndexExclusionConstraintEnforcementObservation {
    open spec fn key_lt(self, other: Self) -> bool {
        constraint_lt(self@.coordinate, other@.coordinate)
    }

    proof fn lemma_key_lt_transitive(a: Self, b: Self, c: Self) {
        crate::catalog::lemma_coordinate_lt_transitive(
            constraint_key(a@.coordinate),
            constraint_key(b@.coordinate),
            constraint_key(c@.coordinate),
        );
    }

    proof fn lemma_key_lt_irreflexive(a: Self) {
        lemma_coordinate_lt_irreflexive(constraint_key(a@.coordinate));
    }

    fn compare_key(&self, other: &Self) -> (o: KeyOrder) {
        proof {
            lemma_coordinate_lt_irreflexive(constraint_key(self@.coordinate));
        }
        self.coordinate.compare(&other.coordinate)
    }
}

/// Domain separator of the enforcement digest.
pub const ENFORCEMENT_DIGEST_DOMAIN: &'static str =
    "conceptweave.postgres_schema_snapshot.v3.relation_partition.index_partition.exclusion_constraint.enforcement.v1";

/// Immutable provenance receipt for one exact enforcement observation.
#[derive(Debug, PartialEq, Eq)]
pub struct IndexExclusionConstraintEnforcementSourceReceipt {
    source_id: String,
    connection_policy_binding: String,
    source_digest: String,
    extractor_revision: String,
    observed_at_utc: String,
    location: IndexExclusionConstraintEnforcementObservation,
}

impl IndexExclusionConstraintEnforcementSourceReceipt {
    /// The provenance carried by this receipt.
    pub closed spec fn lineage(&self) -> LineageView {
        LineageView {
            source_connection_key: self.source_id@,
            connection_policy_binding: self.connection_policy_binding@,
            snapshot_digest: self.source_digest@,
            extractor_revision: self.extractor_revision@,
            observed_at_utc: self.observed_at_utc@,
        }
    }

    /// The observation covered by this receipt.
    pub closed spec fn location_view(&self) -> ConstraintPropertyView<bool> {
        self.location@
    }

    /// Returns the stable source registry key, never credential material.
    pub fn source_id(&self) -> (s: &str)
        ensures
            s@ == self.lineage().source_connection_key,
    {
        self.source_id.as_str()
    }

    /// Returns the immutable source-policy binding.
    pub fn connection_policy_binding(&self) -> (s: &str)
        ensures
            s@ == self.lineage().connection_policy_binding,
    {
        self.connection_policy_binding.as_str()
    }

    /// Returns the owner-computed enforcement successor digest.
    pub fn source_digest(&self) -> (s: &str)
        ensures
            s@ == self.lineage().snapshot_digest,
    {
        self.source_digest.as_str()
    }

    /// Returns the exact extractor revision inherited from the timing predecessor.
    pub fn extractor_revision(&self) -> (s: &str)
        ensures
            s@ == self.lineage().extractor_revision,
    {
        self.extractor_revision.as_str()
    }

    /// Returns the exact canonical UTC observation time inherited from the predecessor.
    pub fn observed_at_utc(&self) -> (s: &str)
        ensures
            s@ == self.lineage().observed_at_utc,
    {
        self.observed_at_utc.as_str()
    }

    /// Returns the exact enforcement observation.
    pub fn location(&self) -> (o: &IndexExclusionConstraintEnforcementObservation)
        ensures
            o@ == self.location_view(),
    {
        &self.location
    }
}

/// Complete `pg_constraint.conenforced` evidence over the issued timing evidence.
///
/// Every timed constraint has exactly one observation, and every one of them is enforced.
#[derive(Debug, PartialEq, Eq)]
pub struct IndexExclusionConstraintEnforcementSnapshot {
    source_connection_key: String,
    connection_policy_binding: String,
    snapshot_digest: String,
    extractor_revision: String,
    observed_at_utc: String,
    observations: Vec<IndexExclusionConstraintEnforcementObservation>,
}

impl IndexExclusionConstraintEnforcementSnapshot {
    /// The provenance of this snapshot, with its own digest.
    pub closed spec fn lineage(&self) -> LineageView {
        LineageView {
            source_connection_key: self.source_connection_key@,
            connection_policy_binding: self.connection_policy_binding@,
            snapshot_digest: self.snapshot_digest@,
            extractor_revision: self.extractor_revision@,
            observed_at_utc: self.observed_at_utc@,
        }
    }

    /// The observations held, in coordinate order.
    pub closed spec fn entries(&self) -> Seq<IndexExclusionConstraintEnforcementObservation> {
        self.observations@
    }

    /// Creates complete enforcement evidence over the issued timing evidence: exactly one
    /// observation for each of its constraints.
    pub fn new(
        timing_snapshot: &IssuedConstraintTiming,
        observations: Vec<IndexExclusionConstraintEnforcementObservation>,
    ) -> (r: Result<Self, ObservationError>)
        ensures
            ({
                let code = coordinate_refusal_code(coordinates_of(timing_snapshot.entries()), observations@);
                &&& r is Ok <==> code == 0
                &&& code == 1 ==> fails_with_text(r, "index_exclusion_constraint_enforcement_coordinate"@)
                &&& code == 2 ==> fails_with_text(r, "index_exclusion_constraint_enforcement_completeness"@)
            }),
            r matches Ok(s) ==> {
                &&& s.entries() == sorted_by_key(observations@)
                &&& s.lineage() == (LineageView {
                    snapshot_digest: digest_text(
                        constraint_property_preimage(ENFORCEMENT_DIGEST_DOMAIN@, timing_snapshot.lineage().snapshot_digest, s.entries()),
                    ),
                    ..timing_snapshot.lineage()
                })
            },
    {
        proof {
            assert(sorted_by_constraint::<IndexExclusionConstraintEnforcementObservation>());
        }
        let observations = canonicalize_constraint_properties(
            timing_snapshot.timings(),
            observations,
            "index_exclusion_constraint_enforcement_coordinate",
            "index_exclusion_constraint_enforcement_completeness",
        )?;
        let snapshot_digest = compute_constraint_property_digest(
            ENFORCEMENT_DIGEST_DOMAIN,
            timing_snapshot.snapshot_digest(),
            observations.as_slice(),
        );
        Ok(IndexExclusionConstraintEnforcementSnapshot {
            source_connection_key: timing_snapshot.source_connection_key().to_owned(),
            connection_policy_binding: timing_snapshot.connection_policy_binding().to_owned(),
            snapshot_digest,
            extractor_revision: timing_snapshot.extractor_revision().to_owned(),
            observed_at_utc: timing_snapshot.observed_at_utc().to_owned(),
            observations,
        })
    }

    /// Returns the stable source registry key.
    pub fn source_connection_key(&self) -> (s: &str)
        ensures
            s@ == self.lineage().source_connection_key,
    {
        self.source_connection_key.as_str()
    }

    /// Returns the immutable source-policy binding.
    pub fn connection_policy_binding(&self) -> (s: &str)
        ensures
            s@ == self.lineage().connection_policy_binding,
    {
        self.connection_policy_binding.as_str()
    }

    /// Returns the owner-computed domain-separated enforcement successor digest.
    pub fn snapshot_digest(&self) -> (s: &str)
        ensures
            s@ == self.lineage().snapshot_digest,
    {
        self.snapshot_digest.as_str()
    }

    /// Returns the exact extractor revision inherited from the timing predecessor.
    pub fn extractor_revision(&self) -> (s: &str)
        ensures
            s@ == self.lineage().extractor_revision,
    {
        self.extractor_revision.as_str()
    }

    /// Returns the exact canonical UTC observation time inherited from the predecessor.
    pub fn observed_at_utc(&self) -> (s: &str)
        ensures
            s@ == self.lineage().observed_at_utc,
    {
        self.observed_at_utc.as_str()
    }

    /// Returns complete enforcement observations in coordinate order.
    pub fn observations(&self) -> (o: &[IndexExclusionConstraintEnforcementObservation])
        ensures
            o@ == self.entries(),
    {
        self.observations.as_slice()
    }

    /// Issues exact provenance for one observed exclusion constraint.
    pub fn source_receipt(&self, coordinate: IndexExclusionConstraintCoordinate) -> (r: Result<
        IndexExclusionConstraintEnforcementSourceReceipt,
        ObservationError,
    >)
        ensures
            r is Ok <==> observation_of_constraint(self.entries(), coordinate@) is Some,
            r matches Ok(receipt) ==> receipt.lineage() == self.lineage() && receipt.location_view()
                == observation_of_constraint(self.entries(), coordinate@)->0@,
            r matches Err(e) ==> e matches ObservationError::UnknownObservationLocation { location: l } && l@
                == constraint_property_location(coordinate@, "enforcement"@),
    {
        let observation = match find_constraint_observation(self.observations.as_slice(), &coordinate) {
            Some(o) => o,
            None => {
                proof {
                    reveal_strlit("enforcement");
                }
                return Err(
                    ObservationError::UnknownObservationLocation {
                        location: render_constraint_property_location(&coordinate, "enforcement"),
                    },
                );
            },
        };
        Ok(IndexExclusionConstraintEnforcementSourceReceipt {
            source_id: self.source_connection_key.clone(),
            connection_policy_binding: self.connection_policy_binding.clone(),
            source_digest: self.snapshot_digest.clone(),
            extractor_revision: self.extractor_revision.clone(),
            observed_at_utc: self.observed_at_utc.clone(),
            location: observation.clone(),
        })
    }
}

} // verus!
