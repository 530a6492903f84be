//! Exclusion-constraint catalog-family shape evidence.
//!
//! `pg_constraint` stores several fields that mean something only for domain, foreign-key or
//! CHECK constraints. An ordinary `contype = 'x'` row must not keep residue of those families.
//! This layer requires explicit evidence for the family discriminator, the table and domain owner
//! sentinels, the foreign-key-only payload and the CHECK expression before it issues evidence, and
//! never derives those facts from the constraint coordinate.

use vstd::prelude::*;

use crate::catalog::{lemma_coordinate_lt_irreflexive, LineageView};
use crate::constraint_property::{
    canonicalize_constraint_properties, compute_constraint_property_digest, constraint_property_location,
    constraint_property_preimage, coordinate_refusal_code, coordinates_of, find_constraint_observation,
    observation_of_constraint, render_constraint_property_location, sorted_by_constraint, ConstraintBound,
    ConstraintPropertyView,
};
use crate::catalog_shape::{
    ForeignActionCodesView, ForeignPayloadPresenceView, IndexExclusionConstraintForeignActionCodes,
    IndexExclusionConstraintForeignPayloadPresence,
};
use crate::digest::{digest_text, frame_bool, frame_char, put_bool, put_char};
use crate::error::{fails_with, invalid};
use crate::error::{fails_with_text, ObservationError};
use crate::exclusion_constraint::{
    constraint_key, constraint_lt, IndexExclusionConstraintCoordinate, IndexExclusionConstraintSnapshot,
};
use crate::order::{sorted_by_key, KeyOrder, SortKey};

verus! {

/// The value of the catalog-family shape of one exclusion-constraint row.
pub struct CatalogShapeView {
    pub constraint_type_code: char,
    pub relation_owner_present: bool,
    pub domain_owner_present: bool,
    pub foreign_action_codes: ForeignActionCodesView,
    pub foreign_payload_presence: ForeignPayloadPresenceView,
    pub check_expression_present: bool,
}

/// The row carries nothing of the domain, foreign-key or CHECK families: it belongs to a
/// relation and to no domain, its action codes are the non-foreign-key spaces, it has no
/// foreign-key payload and no CHECK expression.
pub open spec fn is_exclusion_only_shape(v: CatalogShapeView) -> bool {
    &&& v.relation_owner_present
    &&& !v.domain_owner_present
    &&& v.foreign_action_codes.update_action == ' '
    &&& v.foreign_action_codes.delete_action == ' '
    &&& v.foreign_action_codes.match_type == ' '
    &&& !v.foreign_payload_presence.foreign_relation_present
    &&& !v.foreign_payload_presence.foreign_key_columns_present
    &&& !v.foreign_payload_presence.equality_operator_vectors_present[0]
    &&& !v.foreign_payload_presence.equality_operator_vectors_present[1]
    &&& !v.foreign_payload_presence.equality_operator_vectors_present[2]
    &&& !v.foreign_payload_presence.delete_set_columns_present
    &&& !v.check_expression_present
}

/// Framing of a catalog-family shape: the type code, both owner flags, the three action codes,
/// every payload flag in order, and the CHECK-expression flag.
pub open spec fn frame_catalog_shape(v: CatalogShapeView) -> Seq<u8> {
    frame_char(v.constraint_type_code) + frame_bool(v.relation_owner_present) + frame_bool(v.domain_owner_present)
        + frame_char(v.foreign_action_codes.update_action) + frame_char(v.foreign_action_codes.delete_action)
        + frame_char(v.foreign_action_codes.match_type) + frame_bool(v.foreign_payload_presence.foreign_relation_present)
        + frame_bool(v.foreign_payload_presence.foreign_key_columns_present) + frame_bool(
        v.foreign_payload_presence.equality_operator_vectors_present[0],
    ) + frame_bool(v.foreign_payload_presence.equality_operator_vectors_present[1]) + frame_bool(
        v.foreign_payload_presence.equality_operator_vectors_present[2],
    ) + frame_bool(v.foreign_payload_presence.delete_set_columns_present) + frame_bool(v.check_expression_present)
}

/// Catalog-family shape evidence for one ordinary `EXCLUDE` constraint row.
#[derive(Debug, PartialEq, Eq)]
pub struct IndexExclusionConstraintCatalogShapeObservation {
    coordinate: IndexExclusionConstraintCoordinate,
    constraint_type_code: char,
    relation_owner_present: bool,
    domain_owner_present: bool,
    foreign_action_codes: IndexExclusionConstraintForeignActionCodes,
    foreign_payload_presence: IndexExclusionConstraintForeignPayloadPresence,
    check_expression_present: bool,
}

impl View for IndexExclusionConstraintCatalogShapeObservation {
    type V = ConstraintPropertyView<CatalogShapeView>;

    closed spec fn view(&self) -> ConstraintPropertyView<CatalogShapeView> {
        ConstraintPropertyView {
            coordinate: self.coordinate@,
            property: CatalogShapeView {
                constraint_type_code: self.constraint_type_code,
                relation_owner_present: self.relation_owner_present,
                domain_owner_present: self.domain_owner_present,
                foreign_action_codes: self.foreign_action_codes@,
                foreign_payload_presence: self.foreign_payload_presence@,
                check_expression_present: self.check_expression_present,
            },
        }
    }
}

impl Clone for IndexExclusionConstraintCatalogShapeObservation {
    fn clone(&self) -> (c: Self)
        ensures
            c@ == self@,
            c == *self,
    {
        IndexExclusionConstraintCatalogShapeObservation {
            coordinate: self.coordinate.clone(),
            constraint_type_code: self.constraint_type_code,
            relation_owner_present: self.relation_owner_present,
            domain_owner_present: self.domain_owner_present,
            foreign_action_codes: self.foreign_action_codes,
            foreign_payload_presence: self.foreign_payload_presence,
            check_expression_present: self.check_expression_present,
        }
    }
}

impl IndexExclusionConstraintCatalogShapeObservation {
    /// Records explicit catalog-family shape evidence; the type code must be `x` and the row must
    /// carry nothing of the domain, foreign-key or CHECK families.
    pub fn new(
        coordinate: IndexExclusionConstraintCoordinate,
        constraint_type_code: char,
        relation_owner_present: bool,
        domain_owner_present: bool,
        foreign_action_codes: IndexExclusionConstraintForeignActionCodes,
        foreign_payload_presence: IndexExclusionConstraintForeignPayloadPresence,
        check_expression_present: bool,
    ) -> (r: Result<Self, ObservationError>)
        ensures
            ({
                let shape = CatalogShapeView {
                    constraint_type_code,
                    relation_owner_present,
                    domain_owner_present,
                    foreign_action_codes: foreign_action_codes@,
                    foreign_payload_presence: foreign_payload_presence@,
                    check_expression_present,
                };
                &&& r is Ok <==> constraint_type_code == 'x' && is_exclusion_only_shape(shape)
                &&& constraint_type_code != 'x' ==> fails_with(r, "index_exclusion_constraint_catalog_type")
                &&& constraint_type_code == 'x' && !is_exclusion_only_shape(shape) ==> fails_with(
                    r,
                    "index_exclusion_constraint_catalog_shape",
                )
                &&& r matches Ok(o) ==> o@ == (ConstraintPropertyView { coordinate: coordinate@, property: shape })
            }),
    {
        if constraint_type_code != 'x' {
            return Err(invalid("index_exclusion_constraint_catalog_type"));
        }
        if !relation_owner_present || domain_owner_present || !foreign_action_codes.is_non_foreign_key_sentinel()
            || !foreign_payload_presence.is_empty() || check_expression_present {
            return Err(invalid("index_exclusion_constraint_catalog_shape"));
        }
        Ok(IndexExclusionConstraintCatalogShapeObservation {
            coordinate,
            constraint_type_code,
            relation_owner_present,
            domain_owner_present,
            foreign_action_codes,
            foreign_payload_presence,
            check_expression_present,
        })
    }

    /// Returns the exact exclusion-constraint coordinate.
    pub fn coordinate(&self) -> (c: &IndexExclusionConstraintCoordinate)
        ensures
            c@ == self@.coordinate,
    {
        &self.coordinate
    }

    /// Returns raw `pg_constraint.contype`.
    pub fn constraint_type_code(&self) -> (c: char)
        ensures
            c == self@.property.constraint_type_code,
    {
        self.constraint_type_code
    }

    /// Returns whether raw `pg_constraint.conrelid` was nonzero.
    pub fn relation_owner_present(&self) -> (b: bool)
        ensures
            b == self@.property.relation_owner_present,
    {
        self.relation_owner_present
    }

    /// Returns whether raw `pg_constraint.contypid` was nonzero.
    pub fn domain_owner_present(&self) -> (b: bool)
        ensures
            b == self@.property.domain_owner_present,
    {
        self.domain_owner_present
    }

    /// Returns the raw non-foreign-key action-code sentinels.
    pub fn foreign_action_codes(&self) -> (c: IndexExclusionConstraintForeignActionCodes)
        ensures
            c@ == self@.property.foreign_action_codes,
    {
        self.foreign_action_codes
    }

    /// Returns the presence state of foreign-key-only payload.
    pub fn foreign_payload_presence(&self) -> (p: IndexExclusionConstraintForeignPayloadPresence)
        ensures
            p@ == self@.property.foreign_payload_presence,
    {
        self.foreign_payload_presence
    }

    /// Returns whether `pg_constraint.conbin` was non-NULL.
    pub fn check_expression_present(&self) -> (b: bool)
        ensures
            b == self@.property.check_expression_present,
    {
        self.check_expression_present
    }

    /// Returns a collision-safe source location for catalog-family shape evidence.
    pub fn canonical_location(&self) -> (s: String)
        ensures
            s@ == constraint_property_location(self@.coordinate, "catalog-family-shape"@),
    {
        proof {
            reveal_strlit("catalog-family-shape");
        }
        render_constraint_property_location(&self.coordinate, "catalog-family-shape")
    }
}

impl ConstraintBound for IndexExclusionConstraintCatalogShapeObservation {
    open spec fn bound_constraint(&self) -> crate::catalog::ConstraintCoordinateView {
        self@.coordinate
    }

    open spec fn constraint_property_frame(&self) -> Seq<u8> {
        frame_catalog_shape(self@.property)
    }

    fn constraint_coordinate(&self) -> (c: &IndexExclusionConstraintCoordinate) {
        &self.coordinate
    }

    fn put_constraint_property(&self, out: &mut Vec<u8>) {
        let ghost v = self@.property;
        let ghost s0 = out@;
        let actions = self.foreign_action_codes;
        let payload = self.foreign_payload_presence;
        let vectors = payload.equality_operator_vectors_present();
        put_char(out, self.constraint_type_code);
        put_bool(out, self.relation_owner_present);
        proof {
            vstd::seq_lib::lemma_concat_associative(s0, frame_char(v.constraint_type_code), frame_bool(v.relation_owner_present));
        }
        let ghost p1 = frame_char(v.constraint_type_code) + frame_bool(v.relation_owner_present);
        put_bool(out, self.domain_owner_present);
        proof {
            vstd::seq_lib::lemma_concat_associative(s0, p1, frame_bool(v.domain_owner_present));
        }
        let ghost p2 = p1 + frame_bool(v.domain_owner_present);
        put_char(out, actions.update_action());
        proof {
            vstd::seq_lib::lemma_concat_associative(s0, p2, frame_char(v.foreign_action_codes.update_action));
        }
        let ghost p3 = p2 + frame_char(v.foreign_action_codes.update_action);
        put_char(out, actions.delete_action());
        proof {
            vstd::seq_lib::lemma_concat_associative(s0, p3, frame_char(v.foreign_action_codes.delete_action));
        }
        let ghost p4 = p3 + frame_char(v.foreign_action_codes.delete_action);
        put_char(out, actions.match_type());
        proof {
            vstd::seq_lib::lemma_concat_associative(s0, p4, frame_char(v.foreign_action_codes.match_type));
        }
        let ghost p5 = p4 + frame_char(v.foreign_action_codes.match_type);
        put_bool(out, payload.foreign_relation_present());
        proof {
            vstd::seq_lib::lemma_concat_associative(s0, p5, frame_bool(v.foreign_payload_presence.foreign_relation_present));
        }
        let ghost p6 = p5 + frame_bool(v.foreign_payload_presence.foreign_relation_present);
        put_bool(out, payload.foreign_key_columns_present());
        proof {
            vstd::seq_lib::lemma_concat_associative(s0, p6, frame_bool(v.foreign_payload_presence.foreign_key_columns_present));
        }
        let ghost p7 = p6 + frame_bool(v.foreign_payload_presence.foreign_key_columns_present);
        put_bool(out, vectors[0]);
        proof {
            vstd::seq_lib::lemma_concat_associative(s0, p7, frame_bool(v.foreign_payload_presence.equality_operator_vectors_present[0]));
        }
        let ghost p8 = p7 + frame_bool(v.foreign_payload_presence.equality_operator_vectors_present[0]);
        put_bool(out, vectors[1]);
        proof {
            vstd::seq_lib::lemma_concat_associative(s0, p8, frame_bool(v.foreign_payload_presence.equality_operator_vectors_present[1]));
        }
        let ghost p9 = p8 + frame_bool(v.foreign_payload_presence.equality_operator_vectors_present[1]);
        put_bool(out, vectors[2]);
        proof {
            vstd::seq_lib::lemma_concat_associative(s0, p9, frame_bool(v.foreign_payload_presence.equality_operator_vectors_present[2]));
        }
        let ghost p10 = p9 + frame_bool(v.foreign_payload_presence.equality_operator_vectors_present[2]);
        put_bool(out, payload.delete_set_columns_present());
        proof {
            vstd::seq_lib::lemma_concat_associative(s0, p10, frame_bool(v.foreign_payload_presence.delete_set_columns_present));
        }
        let ghost p11 = p10 + frame_bool(v.foreign_payload_presence.delete_set_columns_present);
        put_bool(out, self.check_expression_present);
        proof {
            vstd::seq_lib::lemma_concat_associative(s0, p11, frame_bool(v.check_expression_present));
        }
    }
}

impl SortKey for IndexExclusionConstraintCatalogShapeObservation {
    open spec fn key_lt(self, other: Self) -> bool {
        constraint_lt(self@.coordinate, other@.coordinate)
    }

    proof fn lemma_key_lt_transitive(a: Self, b: Self, c: Self) {
        crate::catalog::lemma_coordinate_lt_transitive(
            constraint_key(a@.coordinate),
            constraint_key(b@.coordinate),
            constraint_key(c@.coordinate),
        );
    }

    proof fn lemma_key_lt_irreflexive(a: Self) {
        lemma_coordinate_lt_irreflexive(constraint_key(a@.coordinate));
    }

    fn compare_key(&self, other: &Self) -> (o: KeyOrder) {
        proof {
            lemma_coordinate_lt_irreflexive(constraint_key(self@.coordinate));
        }
        self.coordinate.compare(&other.coordinate)
    }
}

/// Domain separator of the catalog-family shape digest.
pub const CATALOG_SHAPE_DIGEST_DOMAIN: &'static str =
    "conceptweave.postgres_schema_snapshot.v3.relation_partition.index_partition.exclusion_constraint.catalog_shape.v1";

/// Immutable provenance receipt for one exact catalog-family shape observation.
#[derive(Debug, PartialEq, Eq)]
pub struct IndexExclusionConstraintCatalogShapeSourceReceipt {
    source_id: String,
    connection_policy_binding: String,
    source_digest: String,
    extractor_revision: String,
    observed_at_utc: String,
    location: IndexExclusionConstraintCatalogShapeObservation,
}

impl IndexExclusionConstraintCatalogShapeSourceReceipt {
    /// The provenance carried by this receipt.
    pub closed spec fn lineage(&self) -> LineageView {
        LineageView {
            source_connection_key: self.source_id@,
            connection_policy_binding: self.connection_policy_binding@,
            snapshot_digest: self.source_digest@,
            extractor_revision: self.extractor_revision@,
            observed_at_utc: self.observed_at_utc@,
        }
    }

    /// The observation covered by this receipt.
    pub closed spec fn location_view(&self) -> ConstraintPropertyView<CatalogShapeView> {
        self.location@
    }

    /// Returns the stable source registry key, never credential material.
    pub fn source_id(&self) -> (s: &str)
        ensures
            s@ == self.lineage().source_connection_key,
    {
        self.source_id.as_str()
    }

    /// Returns the immutable source-policy binding.
    pub fn connection_policy_binding(&self) -> (s: &str)
        ensures
            s@ == self.lineage().connection_policy_binding,
    {
        self.connection_policy_binding.as_str()
    }

    /// Returns the owner-computed catalog-family shape successor digest.
    pub fn source_digest(&self) -> (s: &str)
        ensures
            s@ == self.lineage().snapshot_digest,
    {
        self.source_digest.as_str()
    }

    /// Returns the exact extractor revision inherited from the exclusion-constraint predecessor.
    pub fn extractor_revision(&self) -> (s: &str)
        ensures
            s@ == self.lineage().extractor_revision,
    {
        self.extractor_revision.as_str()
    }

    /// Returns the exact canonical UTC observation time inherited from the predecessor.
    pub fn observed_at_utc(&self) -> (s: &str)
        ensures
            s@ == self.lineage().observed_at_utc,
    {
        self.observed_at_utc.as_str()
    }

    /// Returns the exact catalog-family shape observation.
    pub fn location(&self) -> (o: &IndexExclusionConstraintCatalogShapeObservation)
        ensures
            o@ == self.location_view(),
    {
        &self.location
    }
}

/// Complete catalog-family shape evidence over one exact exclusion-constraint snapshot.
///
/// Every predecessor constraint has exactly one explicit shape observation.
#[derive(Debug, PartialEq, Eq)]
pub struct IndexExclusionConstraintCatalogShapeSnapshot {
    source_connection_key: String,
    connection_policy_binding: String,
    snapshot_digest: String,
    extractor_revision: String,
    observed_at_utc: String,
    observations: Vec<IndexExclusionConstraintCatalogShapeObservation>,
}

impl IndexExclusionConstraintCatalogShapeSnapshot {
    /// The provenance of this snapshot, with its own digest.
    pub closed spec fn lineage(&self) -> LineageView {
        LineageView {
            source_connection_key: self.source_connection_key@,
            connection_policy_binding: self.connection_policy_binding@,
            snapshot_digest: self.snapshot_digest@,
            extractor_revision: self.extractor_revision@,
            observed_at_utc: self.observed_at_utc@,
        }
    }

    /// The observations held, in coordinate order.
    pub closed spec fn entries(&self) -> Seq<IndexExclusionConstraintCatalogShapeObservation> {
        self.observations@
    }

    /// Creates complete catalog-family shape evidence over one exact exclusion-constraint
    /// snapshot: exactly one observation for each of its constraints.
    pub fn new(
        constraint_snapshot: &IndexExclusionConstraintSnapshot,
        observations: Vec<IndexExclusionConstraintCatalogShapeObservation>,
    ) -> (r: Result<Self, ObservationError>)
        ensures
            ({
                let code = coordinate_refusal_code(coordinates_of(constraint_snapshot.entries()), observations@);
                &&& r is Ok <==> code == 0
                &&& code == 1 ==> fails_with_text(r, "index_exclusion_constraint_catalog_shape_coordinate"@)
                &&& code == 2 ==> fails_with_text(r, "index_exclusion_constraint_catalog_shape_completeness"@)
            }),
            r matches Ok(s) ==> {
                &&& s.entries() == sorted_by_key(observations@)
                &&& s.lineage() == (LineageView {
                    snapshot_digest: digest_text(
                        constraint_property_preimage(CATALOG_SHAPE_DIGEST_DOMAIN@, constraint_snapshot.lineage().snapshot_digest, s.entries()),
                    ),
                    ..constraint_snapshot.lineage()
                })
            },
    {
        proof {
            assert(sorted_by_constraint::<IndexExclusionConstraintCatalogShapeObservation>());
        }
        let observations = canonicalize_constraint_properties(
            constraint_snapshot.observations(),
            observations,
            "index_exclusion_constraint_catalog_shape_coordinate",
            "index_exclusion_constraint_catalog_shape_completeness",
        )?;
        let snapshot_digest = compute_constraint_property_digest(
            CATALOG_SHAPE_DIGEST_DOMAIN,
            constraint_snapshot.snapshot_digest(),
            observations.as_slice(),
        );
        Ok(IndexExclusionConstraintCatalogShapeSnapshot {
            source_connection_key: constraint_snapshot.source_connection_key().to_owned(),
            connection_policy_binding: constraint_snapshot.connection_policy_binding().to_owned(),
            snapshot_digest,
            extractor_revision: constraint_snapshot.extractor_revision().to_owned(),
            observed_at_utc: constraint_snapshot.observed_at_utc().to_owned(),
            observations,
        })
    }

    /// Returns the stable source registry key.
    pub fn source_connection_key(&self) -> (s: &str)
        ensures
            s@ == self.lineage().source_connection_key,
    {
        self.source_connection_key.as_str()
    }

    /// Returns the immutable source-policy binding.
    pub fn connection_policy_binding(&self) -> (s: &str)
        ensures
            s@ == self.lineage().connection_policy_binding,
    {
        self.connection_policy_binding.as_str()
    }

    /// Returns the owner-computed domain-separated catalog-family shape successor digest.
    pub fn snapshot_digest(&self) -> (s: &str)
        ensures
            s@ == self.lineage().snapshot_digest,
    {
        self.snapshot_digest.as_str()
    }

    /// Returns the exact extractor revision inherited from the exclusion-constraint predecessor.
    pub fn extractor_revision(&self) -> (s: &str)
        ensures
            s@ == self.lineage().extractor_revision,
    {
        self.extractor_revision.as_str()
    }

    /// Returns the exact canonical UTC observation time inherited from the predecessor.
    pub fn observed_at_utc(&self) -> (s: &str)
        ensures
            s@ == self.lineage().observed_at_utc,
    {
        self.observed_at_utc.as_str()
    }

    /// Returns complete catalog-family shape observations in coordinate order.
    pub fn observations(&self) -> (o: &[IndexExclusionConstraintCatalogShapeObservation])
        ensures
            o@ == self.entries(),
    {
        self.observations.as_slice()
    }

    /// Issues exact provenance for one observed exclusion constraint.
    pub fn source_receipt(&self, coordinate: IndexExclusionConstraintCoordinate) -> (r: Result<
        IndexExclusionConstraintCatalogShapeSourceReceipt,
        ObservationError,
    >)
        ensures
            r is Ok <==> observation_of_constraint(self.entries(), coordinate@) is Some,
            r matches Ok(receipt) ==> receipt.lineage() == self.lineage() && receipt.location_view()
                == observation_of_constraint(self.entries(), coordinate@)->0@,
            r matches Err(e) ==> e matches ObservationError::UnknownObservationLocation { location: l } && l@
                == constraint_property_location(coordinate@, "catalog-family-shape"@),
    {
        let observation = match find_constraint_observation(self.observations.as_slice(), &coordinate) {
            Some(o) => o,
            None => {
                proof {
                    reveal_strlit("catalog-family-shape");
                }
                return Err(
                    ObservationError::UnknownObservationLocation {
                        location: render_constraint_property_location(&coordinate, "catalog-family-shape"),
                    },
                );
            },
        };
        Ok(IndexExclusionConstraintCatalogShapeSourceReceipt {
            source_id: self.source_connection_key.clone(),
            connection_policy_binding: self.connection_policy_binding.clone(),
            source_digest: self.snapshot_digest.clone(),
            extractor_revision: self.extractor_revision.clone(),
            observed_at_utc: self.observed_at_utc.clone(),
            location: observation.clone(),
        })
    }
}

} // verus!
