//! Exclusion-constraint namespace evidence.
//!
//! PostgreSQL stores `pg_constraint.connamespace` independently from `conrelid`. PostgreSQL 18
//! creates an index-backed `EXCLUDE` constraint in its relation's namespace, but the namespace is
//! still observed and resolved rather than derived from the relation coordinate. This layer keeps
//! that resolved fact and refuses a namespace that differs from the owning relation's schema.

use vstd::prelude::*;

use crate::catalog::{lemma_coordinate_lt_irreflexive, LineageView};
use crate::constraint_property::{
    canonicalize_constraint_properties, compute_constraint_property_digest, constraint_property_location,
    constraint_property_preimage, coordinate_refusal_code, coordinates_of, find_constraint_observation,
    observation_of_constraint, render_constraint_property_location, sorted_by_constraint, ConstraintBound,
    ConstraintPropertyView,
};
use crate::catalog::validate_nonblank;
use crate::digest::{digest_text, frame_str, put_str};
use crate::error::{fails_with, invalid};
use crate::order::text_eq;
use crate::text::is_blank;
use crate::error::{fails_with_text, ObservationError};
use crate::exclusion_constraint::{
    constraint_key, constraint_lt, IndexExclusionConstraintCoordinate, IndexExclusionConstraintSnapshot,
};
use crate::order::{sorted_by_key, KeyOrder, SortKey};

verus! {

/// Resolved `pg_constraint.connamespace` schema name for one exclusion constraint.
#[derive(Debug, PartialEq, Eq)]
pub struct IndexExclusionConstraintNamespaceObservation {
    coordinate: IndexExclusionConstraintCoordinate,
    constraint_schema_name: String,
}

impl View for IndexExclusionConstraintNamespaceObservation {
    type V = ConstraintPropertyView<Seq<char>>;

    closed spec fn view(&self) -> ConstraintPropertyView<Seq<char>> {
        ConstraintPropertyView { coordinate: self.coordinate@, property: self.constraint_schema_name@ }
    }
}

impl Clone for IndexExclusionConstraintNamespaceObservation {
    fn clone(&self) -> (c: Self)
        ensures
            c@ == self@,
    {
        IndexExclusionConstraintNamespaceObservation {
            coordinate: self.coordinate.clone(),
            constraint_schema_name: self.constraint_schema_name.clone(),
        }
    }
}

impl IndexExclusionConstraintNamespaceObservation {
    /// Records the independently resolved constraint namespace; it must be non-blank and equal
    /// to the owning relation's schema, where PostgreSQL creates index-backed constraints.
    pub fn new(coordinate: IndexExclusionConstraintCoordinate, constraint_schema_name: &str) -> (r: Result<
        Self,
        ObservationError,
    >)
        ensures
            r is Ok <==> !is_blank(constraint_schema_name@) && constraint_schema_name@ == coordinate@.schema_name,
            is_blank(constraint_schema_name@) ==> fails_with(r, "index_exclusion_constraint_namespace_name"),
            !is_blank(constraint_schema_name@) && constraint_schema_name@ != coordinate@.schema_name ==> fails_with(
                r,
                "index_exclusion_constraint_namespace_state",
            ),
            r matches Ok(o) ==> o@ == (ConstraintPropertyView { coordinate: coordinate@, property: constraint_schema_name@ }),
    {
        validate_nonblank(constraint_schema_name, "index_exclusion_constraint_namespace_name")?;
        if !text_eq(constraint_schema_name, coordinate.schema_name()) {
            return Err(invalid("index_exclusion_constraint_namespace_state"));
        }
        Ok(IndexExclusionConstraintNamespaceObservation {
            coordinate,
            constraint_schema_name: constraint_schema_name.to_owned(),
        })
    }

    /// Returns the exact exclusion-constraint coordinate.
    pub fn coordinate(&self) -> (c: &IndexExclusionConstraintCoordinate)
        ensures
            c@ == self@.coordinate,
    {
        &self.coordinate
    }

    /// Returns the independently resolved `pg_constraint.connamespace` schema name.
    pub fn constraint_schema_name(&self) -> (s: &str)
        ensures
            s@ == self@.property,
    {
        self.constraint_schema_name.as_str()
    }

    /// Returns a collision-safe source location for the constraint namespace observation.
    pub fn canonical_location(&self) -> (s: String)
        ensures
            s@ == constraint_property_location(self@.coordinate, "constraint-namespace"@),
    {
        proof {
            reveal_strlit("constraint-namespace");
        }
        render_constraint_property_location(&self.coordinate, "constraint-namespace")
    }
}

impl ConstraintBound for IndexExclusionConstraintNamespaceObservation {
    open spec fn bound_constraint(&self) -> crate::catalog::ConstraintCoordinateView {
        self@.coordinate
    }

    open spec fn constraint_property_frame(&self) -> Seq<u8> {
        frame_str(self@.property)
    }

    fn constraint_coordinate(&self) -> (c: &IndexExclusionConstraintCoordinate) {
        &self.coordinate
    }

    fn put_constraint_property(&self, out: &mut Vec<u8>) {
        put_str(out, self.constraint_schema_name.as_str());
    }
}

impl SortKey for IndexExclusionConstraintNamespaceObservation {
    open spec fn key_lt(self, other: Self) -> bool {
        constraint_lt(self@.coordinate, other@.coordinate)
    }

    proof fn lemma_key_lt_transitive(a: Self, b: Self, c: Self) {
        crate::catalog::lemma_coordinate_lt_transitive(
            constraint_key(a@.coordinate),
            constraint_key(b@.coordinate),
            constraint_key(c@.coordinate),
        );
    }

    proof fn lemma_key_lt_irreflexive(a: Self) {
        lemma_coordinate_lt_irreflexive(constraint_key(a@.coordinate));
    }

    fn compare_key(&self, other: &Self) -> (o: KeyOrder) {
        proof {
            lemma_coordinate_lt_irreflexive(constraint_key(self@.coordinate));
        }
        self.coordinate.compare(&other.coordinate)
    }
}

/// Domain separator of the constraint-namespace digest.
pub const NAMESPACE_DIGEST_DOMAIN: &'static str =
    "conceptweave.postgres_schema_snapshot.v3.relation_partition.index_partition.exclusion_constraint.namespace.v1";

/// Immutable provenance receipt for one exact constraint-namespace observation.
#[derive(Debug, PartialEq, Eq)]
pub struct IndexExclusionConstraintNamespaceSourceReceipt {
    source_id: String,
    connection_policy_binding: String,
    source_digest: String,
    extractor_revision: String,
    observed_at_utc: String,
    location: IndexExclusionConstraintNamespaceObservation,
}

impl IndexExclusionConstraintNamespaceSourceReceipt {
    /// The provenance carried by this receipt.
    pub closed spec fn lineage(&self) -> LineageView {
        LineageView {
            source_connection_key: self.source_id@,
            connection_policy_binding: self.connection_policy_binding@,
            snapshot_digest: self.source_digest@,
            extractor_revision: self.extractor_revision@,
            observed_at_utc: self.observed_at_utc@,
        }
    }

    /// The observation covered by this receipt.
    pub closed spec fn location_view(&self) -> ConstraintPropertyView<Seq<char>> {
        self.location@
    }

    /// Returns the stable source registry key, never credential material.
    pub fn source_id(&self) -> (s: &str)
        ensures
            s@ == self.lineage().source_connection_key,
    {
        self.source_id.as_str()
    }

    /// Returns the immutable source-policy binding.
    pub fn connection_policy_binding(&self) -> (s: &str)
        ensures
            s@ == self.lineage().connection_policy_binding,
    {
        self.connection_policy_binding.as_str()
    }

    /// Returns the owner-computed constraint-namespace successor digest.
    pub fn source_digest(&self) -> (s: &str)
        ensures
            s@ == self.lineage().snapshot_digest,
    {
        self.source_digest.as_str()
    }

    /// Returns the exact extractor revision inherited from the exclusion-constraint predecessor.
    pub fn extractor_revision(&self) -> (s: &str)
        ensures
            s@ == self.lineage().extractor_revision,
    {
        self.extractor_revision.as_str()
    }

    /// Returns the exact canonical UTC observation time inherited from the predecessor.
    pub fn observed_at_utc(&self) -> (s: &str)
        ensures
            s@ == self.lineage().observed_at_utc,
    {
        self.observed_at_utc.as_str()
    }

    /// Returns the exact constraint-namespace observation.
    pub fn location(&self) -> (o: &IndexExclusionConstraintNamespaceObservation)
        ensures
            o@ == self.location_view(),
    {
        &self.location
    }
}

/// Complete resolved `pg_constraint.connamespace` evidence for exclusion constraints.
///
/// Every predecessor constraint has exactly one namespace observation; the raw resolved name is
/// kept in the digest and the provenance.
#[derive(Debug, PartialEq, Eq)]
pub struct IndexExclusionConstraintNamespaceSnapshot {
    source_connection_key: String,
    connection_policy_binding: String,
    snapshot_digest: String,
    extractor_revision: String,
    observed_at_utc: String,
    observations: Vec<IndexExclusionConstraintNamespaceObservation>,
}

impl IndexExclusionConstraintNamespaceSnapshot {
    /// The provenance of this snapshot, with its own digest.
    pub closed spec fn lineage(&self) -> LineageView {
        LineageView {
            source_connection_key: self.source_connection_key@,
            connection_policy_binding: self.connection_policy_binding@,
            snapshot_digest: self.snapshot_digest@,
            extractor_revision: self.extractor_revision@,
            observed_at_utc: self.observed_at_utc@,
        }
    }

    /// The observations held, in coordinate order.
    pub closed spec fn entries(&self) -> Seq<IndexExclusionConstraintNamespaceObservation> {
        self.observations@
    }

    /// Creates complete namespace evidence over one exact exclusion-constraint snapshot: exactly
    /// one observation for each of its constraints.
    pub fn new(
        constraint_snapshot: &IndexExclusionConstraintSnapshot,
        observations: Vec<IndexExclusionConstraintNamespaceObservation>,
    ) -> (r: Result<Self, ObservationError>)
        ensures
            ({
                let code = coordinate_refusal_code(coordinates_of(constraint_snapshot.entries()), observations@);
                &&& r is Ok <==> code == 0
                &&& code == 1 ==> fails_with_text(r, "index_exclusion_constraint_namespace_coordinate"@)
                &&& code == 2 ==> fails_with_text(r, "index_exclusion_constraint_namespace_completeness"@)
            }),
            r matches Ok(s) ==> {
                &&& s.entries() == sorted_by_key(observations@)
                &&& s.lineage() == (LineageView {
                    snapshot_digest: digest_text(
                        constraint_property_preimage(NAMESPACE_DIGEST_DOMAIN@, constraint_snapshot.lineage().snapshot_digest, s.entries()),
                    ),
                    ..constraint_snapshot.lineage()
                })
            },
    {
        proof {
            assert(sorted_by_constraint::<IndexExclusionConstraintNamespaceObservation>());
        }
        let observations = canonicalize_constraint_properties(
            constraint_snapshot.observations(),
            observations,
            "index_exclusion_constraint_namespace_coordinate",
            "index_exclusion_constraint_namespace_completeness",
        )?;
        let snapshot_digest = compute_constraint_property_digest(
            NAMESPACE_DIGEST_DOMAIN,
            constraint_snapshot.snapshot_digest(),
            observations.as_slice(),
        );
        Ok(IndexExclusionConstraintNamespaceSnapshot {
            source_connection_key: constraint_snapshot.source_connection_key().to_owned(),
            connection_policy_binding: constraint_snapshot.connection_policy_binding().to_owned(),
            snapshot_digest,
            extractor_revision: constraint_snapshot.extractor_revision().to_owned(),
            observed_at_utc: constraint_snapshot.observed_at_utc().to_owned(),
            observations,
        })
    }

    /// Returns the stable source registry key.
    pub fn source_connection_key(&self) -> (s: &str)
        ensures
            s@ == self.lineage().source_connection_key,
    {
        self.source_connection_key.as_str()
    }

    /// Returns the immutable source-policy binding.
    pub fn connection_policy_binding(&self) -> (s: &str)
        ensures
            s@ == self.lineage().connection_policy_binding,
    {
        self.connection_policy_binding.as_str()
    }

    /// Returns the owner-computed domain-separated constraint-namespace successor digest.
    pub fn snapshot_digest(&self) -> (s: &str)
        ensures
            s@ == self.lineage().snapshot_digest,
    {
        self.snapshot_digest.as_str()
    }

    /// Returns the exact extractor revision inherited from the exclusion-constraint predecessor.
    pub fn extractor_revision(&self) -> (s: &str)
        ensures
            s@ == self.lineage().extractor_revision,
    {
        self.extractor_revision.as_str()
    }

    /// Returns the exact canonical UTC observation time inherited from the predecessor.
    pub fn observed_at_utc(&self) -> (s: &str)
        ensures
            s@ == self.lineage().observed_at_utc,
    {
        self.observed_at_utc.as_str()
    }

    /// Returns complete constraint-namespace observations in coordinate order.
    pub fn observations(&self) -> (o: &[IndexExclusionConstraintNamespaceObservation])
        ensures
            o@ == self.entries(),
    {
        self.observations.as_slice()
    }

    /// Issues exact provenance for one observed exclusion constraint.
    pub fn source_receipt(&self, coordinate: IndexExclusionConstraintCoordinate) -> (r: Result<
        IndexExclusionConstraintNamespaceSourceReceipt,
        ObservationError,
    >)
        ensures
            r is Ok <==> observation_of_constraint(self.entries(), coordinate@) is Some,
            r matches Ok(receipt) ==> receipt.lineage() == self.lineage() && receipt.location_view()
                == observation_of_constraint(self.entries(), coordinate@)->0@,
            r matches Err(e) ==> e matches ObservationError::UnknownObservationLocation { location: l } && l@
                == constraint_property_location(coordinate@, "constraint-namespace"@),
    {
        let observation = match find_constraint_observation(self.observations.as_slice(), &coordinate) {
            Some(o) => o,
            None => {
                proof {
                    reveal_strlit("constraint-namespace");
                }
                return Err(
                    ObservationError::UnknownObservationLocation {
                        location: render_constraint_property_location(&coordinate, "constraint-namespace"),
                    },
                );
            },
        };
        Ok(IndexExclusionConstraintNamespaceSourceReceipt {
            source_id: self.source_connection_key.clone(),
            connection_policy_binding: self.connection_policy_binding.clone(),
            source_digest: self.snapshot_digest.clone(),
            extractor_revision: self.extractor_revision.clone(),
            observed_at_utc: self.observed_at_utc.clone(),
            location: observation.clone(),
        })
    }
}

} // verus!
