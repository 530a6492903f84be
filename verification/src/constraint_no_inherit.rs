//! Exclusion-constraint `connoinherit` evidence.
//!
//! PostgreSQL 18 records `pg_constraint.connoinherit` independently. Creation with an explicit
//! parent constraint and creation as a standalone constraint set the bit differently, and later
//! re-parenting changes parentage and locality without rewriting it. This layer therefore keeps
//! the raw bit as governed evidence rather than deriving it from the current parentage.

use vstd::prelude::*;

use crate::catalog::{lemma_coordinate_lt_irreflexive, LineageView};
use crate::constraint_property::{
    canonicalize_constraint_properties, compute_constraint_property_digest, constraint_property_location,
    constraint_property_preimage, coordinate_refusal_code, coordinates_of, find_constraint_observation,
    observation_of_constraint, render_constraint_property_location, sorted_by_constraint, ConstraintBound,
    ConstraintPropertyView,
};
use crate::digest::{digest_text, frame_bool, put_bool};
use crate::error::{fails_with_text, ObservationError};
use crate::exclusion_constraint::{
    constraint_key, constraint_lt, IndexExclusionConstraintCoordinate, IndexExclusionConstraintSnapshot,
};
use crate::order::{sorted_by_key, KeyOrder, SortKey};

verus! {

/// Exact `pg_constraint.connoinherit` state for one exclusion constraint.
#[derive(Debug, PartialEq, Eq)]
pub struct IndexExclusionConstraintNoInheritObservation {
    coordinate: IndexExclusionConstraintCoordinate,
    no_inherit: bool,
}

impl View for IndexExclusionConstraintNoInheritObservation {
    type V = ConstraintPropertyView<bool>;

    closed spec fn view(&self) -> ConstraintPropertyView<bool> {
        ConstraintPropertyView { coordinate: self.coordinate@, property: self.no_inherit }
    }
}

impl Clone for IndexExclusionConstraintNoInheritObservation {
    fn clone(&self) -> (c: Self)
        ensures
            c@ == self@,
    {
        IndexExclusionConstraintNoInheritObservation { coordinate: self.coordinate.clone(), no_inherit: self.no_inherit }
    }
}

impl IndexExclusionConstraintNoInheritObservation {
    /// Records the raw PostgreSQL `connoinherit` bit for one exact exclusion constraint.
    pub fn new(coordinate: IndexExclusionConstraintCoordinate, no_inherit: bool) -> (o: Self)
        ensures
            o@ == (ConstraintPropertyView { coordinate: coordinate@, property: no_inherit }),
    {
        IndexExclusionConstraintNoInheritObservation { coordinate, no_inherit }
    }

    /// Returns the exact exclusion-constraint coordinate.
    pub fn coordinate(&self) -> (c: &IndexExclusionConstraintCoordinate)
        ensures
            c@ == self@.coordinate,
    {
        &self.coordinate
    }

    /// Returns observed `pg_constraint.connoinherit`.
    pub fn no_inherit(&self) -> (b: bool)
        ensures
            b == self@.property,
    {
        self.no_inherit
    }

    /// Returns the collision-safe evidence location for this no-inherit observation.
    pub fn canonical_location(&self) -> (s: String)
        ensures
            s@ == constraint_property_location(self@.coordinate, "no-inherit"@),
    {
        proof {
            reveal_strlit("no-inherit");
        }
        render_constraint_property_location(&self.coordinate, "no-inherit")
    }
}

impl ConstraintBound for IndexExclusionConstraintNoInheritObservation {
    open spec fn bound_constraint(&self) -> crate::catalog::ConstraintCoordinateView {
        self@.coordinate
    }

    open spec fn constraint_property_frame(&self) -> Seq<u8> {
        frame_bool(self@.property)
    }

    fn constraint_coordinate(&self) -> (c: &IndexExclusionConstraintCoordinate) {
        &self.coordinate
    }

    fn put_constraint_property(&self, out: &mut Vec<u8>) {
        put_bool(out, self.no_inherit);
    }
}

impl SortKey for IndexExclusionConstraintNoInheritObservation {
    open spec fn key_lt(self, other: Self) -> bool {
        constraint_lt(self@.coordinate, other@.coordinate)
    }

    proof fn lemma_key_lt_transitive(a: Self, b: Self, c: Self) {
        crate::catalog::lemma_coordinate_lt_transitive(
            constraint_key(a@.coordinate),
            constraint_key(b@.coordinate),
            constraint_key(c@.coordinate),
        );
    }

    proof fn lemma_key_lt_irreflexive(a: Self) {
        lemma_coordinate_lt_irreflexive(constraint_key(a@.coordinate));
    }

    fn compare_key(&self, other: &Self) -> (o: KeyOrder) {
        proof {
            lemma_coordinate_lt_irreflexive(constraint_key(self@.coordinate));
        }
        self.coordinate.compare(&other.coordinate)
    }
}

/// Domain separator of the no-inherit digest.
pub const NO_INHERIT_DIGEST_DOMAIN: &'static str =
    "conceptweave.postgres_schema_snapshot.v3.relation_partition.index_partition.exclusion_constraint.no_inherit.v1";

/// Immutable provenance receipt for one exact `connoinherit` observation.
#[derive(Debug, PartialEq, Eq)]
pub struct IndexExclusionConstraintNoInheritSourceReceipt {
    source_id: String,
    connection_policy_binding: String,
    source_digest: String,
    extractor_revision: String,
    observed_at_utc: String,
    location: IndexExclusionConstraintNoInheritObservation,
}

impl IndexExclusionConstraintNoInheritSourceReceipt {
    /// The provenance carried by this receipt.
    pub closed spec fn lineage(&self) -> LineageView {
        LineageView {
            source_connection_key: self.source_id@,
            connection_policy_binding: self.connection_policy_binding@,
            snapshot_digest: self.source_digest@,
            extractor_revision: self.extractor_revision@,
            observed_at_utc: self.observed_at_utc@,
        }
    }

    /// The observation covered by this receipt.
    pub closed spec fn location_view(&self) -> ConstraintPropertyView<bool> {
        self.location@
    }

    /// Returns the stable source registry key, never credential material.
    pub fn source_id(&self) -> (s: &str)
        ensures
            s@ == self.lineage().source_connection_key,
    {
        self.source_id.as_str()
    }

    /// Returns the immutable source-policy binding.
    pub fn connection_policy_binding(&self) -> (s: &str)
        ensures
            s@ == self.lineage().connection_policy_binding,
    {
        self.connection_policy_binding.as_str()
    }

    /// Returns the owner-computed no-inherit successor digest.
    pub fn source_digest(&self) -> (s: &str)
        ensures
            s@ == self.lineage().snapshot_digest,
    {
        self.source_digest.as_str()
    }

    /// Returns the exact extractor revision inherited from the exclusion-constraint predecessor.
    pub fn extractor_revision(&self) -> (s: &str)
        ensures
            s@ == self.lineage().extractor_revision,
    {
        self.extractor_revision.as_str()
    }

    /// Returns the exact canonical UTC observation time inherited from the predecessor.
    pub fn observed_at_utc(&self) -> (s: &str)
        ensures
            s@ == self.lineage().observed_at_utc,
    {
        self.observed_at_utc.as_str()
    }

    /// Returns the exact no-inherit observation.
    pub fn location(&self) -> (o: &IndexExclusionConstraintNoInheritObservation)
        ensures
            o@ == self.location_view(),
    {
        &self.location
    }
}

/// Complete `pg_constraint.connoinherit` evidence over one exact exclusion-constraint snapshot.
///
/// Every predecessor constraint has exactly one raw observation. The same current parentage can
/// carry different bits depending on whether a child constraint was cloned with its parent or
/// attached later, so the bit is kept in its own digest domain without normalization.
#[derive(Debug, PartialEq, Eq)]
pub struct IndexExclusionConstraintNoInheritSnapshot {
    source_connection_key: String,
    connection_policy_binding: String,
    snapshot_digest: String,
    extractor_revision: String,
    observed_at_utc: String,
    observations: Vec<IndexExclusionConstraintNoInheritObservation>,
}

impl IndexExclusionConstraintNoInheritSnapshot {
    /// The provenance of this snapshot, with its own digest.
    pub closed spec fn lineage(&self) -> LineageView {
        LineageView {
            source_connection_key: self.source_connection_key@,
            connection_policy_binding: self.connection_policy_binding@,
            snapshot_digest: self.snapshot_digest@,
            extractor_revision: self.extractor_revision@,
            observed_at_utc: self.observed_at_utc@,
        }
    }

    /// The observations held, in coordinate order.
    pub closed spec fn entries(&self) -> Seq<IndexExclusionConstraintNoInheritObservation> {
        self.observations@
    }

    /// Creates complete raw no-inherit evidence over one exact exclusion-constraint snapshot:
    /// exactly one observation for each of its constraints.
    pub fn new(
        constraint_snapshot: &IndexExclusionConstraintSnapshot,
        observations: Vec<IndexExclusionConstraintNoInheritObservation>,
    ) -> (r: Result<Self, ObservationError>)
        ensures
            ({
                let code = coordinate_refusal_code(coordinates_of(constraint_snapshot.entries()), observations@);
                &&& r is Ok <==> code == 0
                &&& code == 1 ==> fails_with_text(r, "index_exclusion_constraint_no_inherit_coordinate"@)
                &&& code == 2 ==> fails_with_text(r, "index_exclusion_constraint_no_inherit_completeness"@)
            }),
            r matches Ok(s) ==> {
                &&& s.entries() == sorted_by_key(observations@)
                &&& s.lineage() == (LineageView {
                    snapshot_digest: digest_text(
                        constraint_property_preimage(NO_INHERIT_DIGEST_DOMAIN@, constraint_snapshot.lineage().snapshot_digest, s.entries()),
                    ),
                    ..constraint_snapshot.lineage()
                })
            },
    {
        proof {
            assert(sorted_by_constraint::<IndexExclusionConstraintNoInheritObservation>());
        }
        let observations = canonicalize_constraint_properties(
            constraint_snapshot.observations(),
            observations,
            "index_exclusion_constraint_no_inherit_coordinate",
            "index_exclusion_constraint_no_inherit_completeness",
        )?;
        let snapshot_digest = compute_constraint_property_digest(
            NO_INHERIT_DIGEST_DOMAIN,
            constraint_snapshot.snapshot_digest(),
            observations.as_slice(),
        );
        Ok(IndexExclusionConstraintNoInheritSnapshot {
            source_connection_key: constraint_snapshot.source_connection_key().to_owned(),
            connection_policy_binding: constraint_snapshot.connection_policy_binding().to_owned(),
            snapshot_digest,
            extractor_revision: constraint_snapshot.extractor_revision().to_owned(),
            observed_at_utc: constraint_snapshot.observed_at_utc().to_owned(),
            observations,
        })
    }

    /// Returns the stable source registry key.
    pub fn source_connection_key(&self) -> (s: &str)
        ensures
            s@ == self.lineage().source_connection_key,
    {
        self.source_connection_key.as_str()
    }

    /// Returns the immutable source-policy binding.
    pub fn connection_policy_binding(&self) -> (s: &str)
        ensures
            s@ == self.lineage().connection_policy_binding,
    {
        self.connection_policy_binding.as_str()
    }

    /// Returns the owner-computed domain-separated no-inherit successor digest.
    pub fn snapshot_digest(&self) -> (s: &str)
        ensures
            s@ == self.lineage().snapshot_digest,
    {
        self.snapshot_digest.as_str()
    }

    /// Returns the exact extractor revision inherited from the exclusion-constraint predecessor.
    pub fn extractor_revision(&self) -> (s: &str)
        ensures
            s@ == self.lineage().extractor_revision,
    {
        self.extractor_revision.as_str()
    }

    /// Returns the exact canonical UTC observation time inherited from the predecessor.
    pub fn observed_at_utc(&self) -> (s: &str)
        ensures
            s@ == self.lineage().observed_at_utc,
    {
        self.observed_at_utc.as_str()
    }

    /// Returns complete no-inherit observations in coordinate order.
    pub fn observations(&self) -> (o: &[IndexExclusionConstraintNoInheritObservation])
        ensures
            o@ == self.entries(),
    {
        self.observations.as_slice()
    }

    /// Issues exact provenance for one observed exclusion constraint.
    pub fn source_receipt(&self, coordinate: IndexExclusionConstraintCoordinate) -> (r: Result<
        IndexExclusionConstraintNoInheritSourceReceipt,
        ObservationError,
    >)
        ensures
            r is Ok <==> observation_of_constraint(self.entries(), coordinate@) is Some,
            r matches Ok(receipt) ==> receipt.lineage() == self.lineage() && receipt.location_view()
                == observation_of_constraint(self.entries(), coordinate@)->0@,
            r matches Err(e) ==> e matches ObservationError::UnknownObservationLocation { location: l } && l@
                == constraint_property_location(coordinate@, "no-inherit"@),
    {
        let observation = match find_constraint_observation(self.observations.as_slice(), &coordinate) {
            Some(o) => o,
            None => {
                proof {
                    reveal_strlit("no-inherit");
                }
                return Err(
                    ObservationError::UnknownObservationLocation {
                        location: render_constraint_property_location(&coordinate, "no-inherit"),
                    },
                );
            },
        };
        Ok(IndexExclusionConstraintNoInheritSourceReceipt {
            source_id: self.source_connection_key.clone(),
            connection_policy_binding: self.connection_policy_binding.clone(),
            source_digest: self.snapshot_digest.clone(),
            extractor_revision: self.extractor_revision.clone(),
            observed_at_utc: self.observed_at_utc.clone(),
            location: observation.clone(),
        })
    }
}

} // verus!

verus! {

/// The raw `connoinherit` bit is never normalized away: under one predecessor digest, two single
/// observations of the same constraint with different bits have different digest preimages.
pub proof fn lemma_no_inherit_bits_separate(
    predecessor_digest: Seq<char>,
    a: IndexExclusionConstraintNoInheritObservation,
    b: IndexExclusionConstraintNoInheritObservation,
)
    requires
        a@.coordinate == b@.coordinate,
        a@.property != b@.property,
    ensures
        constraint_property_preimage(NO_INHERIT_DIGEST_DOMAIN@, predecessor_digest, seq![a]) != constraint_property_preimage(
            NO_INHERIT_DIGEST_DOMAIN@,
            predecessor_digest,
            seq![b],
        ),
{
    assert(a.constraint_property_frame()[0] != b.constraint_property_frame()[0]);
    crate::constraint_property::lemma_constraint_properties_separate(NO_INHERIT_DIGEST_DOMAIN@, predecessor_digest, a, b);
}

} // verus!
