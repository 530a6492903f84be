//! Exclusion-constraint operator procedure security-context evidence.
//!
//! `pg_proc.prosecdef` is independent from routine identity and the other retained `pg_proc`
//! properties. PostgreSQL runs a SECURITY INVOKER function with the caller's privileges and a
//! SECURITY DEFINER function with its owner's privileges, and the attribute can change without
//! changing the signature. This layer keeps the exact raw Boolean and imposes no rule on it; the
//! two states never collapse to one digest.

use vstd::prelude::*;

use crate::catalog::{lemma_coordinate_lt_irreflexive, LineageView};
use crate::digest::{digest_text, frame_bool, put_bool};
use crate::error::ObservationError;
use crate::exclusion_constraint::{constraint_key, IndexExclusionConstraintCoordinate};
use crate::order::{compare_u32, sorted_by_key, KeyOrder, SortKey};
use crate::procedure_binding::{
    binding_lt, binding_refusal_code, bindings_of, bound_at, bound_preimage, canonicalize_bindings, compute_bound_digest,
    find_bound, sorted_by_binding, BindingView, ProcedureBound, ProcedurePropertyView,
};
use crate::procedure_kind::IndexExclusionConstraintOperatorProcedureKindSnapshot;
use crate::procedure_parallel_safety::{procedure_property_location, render_procedure_property_location};
use crate::error::fails_with_text;
use crate::signatures::{QualifiedOperatorSignature, QualifiedProcedureSignature};

verus! {

/// Raw `pg_proc.prosecdef` evidence for one exact exclusion-constraint implementation function.
#[derive(Debug, PartialEq, Eq)]
pub struct IndexExclusionConstraintOperatorProcedureSecurityDefinerObservation {
    coordinate: IndexExclusionConstraintCoordinate,
    key_position: u32,
    operator: QualifiedOperatorSignature,
    procedure: QualifiedProcedureSignature,
    security_definer: bool,
}


impl View for IndexExclusionConstraintOperatorProcedureSecurityDefinerObservation {
    type V = ProcedurePropertyView<bool>;

    closed spec fn view(&self) -> ProcedurePropertyView<bool> {
        ProcedurePropertyView {
            binding: BindingView {
                coordinate: self.coordinate@,
                key_position: self.key_position,
                operator: self.operator@,
                procedure: self.procedure@,
            },
            property: self.security_definer,
        }
    }
}

impl Clone for IndexExclusionConstraintOperatorProcedureSecurityDefinerObservation {
    fn clone(&self) -> (c: Self)
        ensures
            c@ == self@,
    {
        IndexExclusionConstraintOperatorProcedureSecurityDefinerObservation {
            coordinate: self.coordinate.clone(),
            key_position: self.key_position,
            operator: self.operator.clone(),
            procedure: self.procedure.clone(),
            security_definer: self.security_definer,
        }
    }
}

impl IndexExclusionConstraintOperatorProcedureSecurityDefinerObservation {
    /// Records one exact governed operator/function binding and its raw `pg_proc.prosecdef`
    /// state; the key position is one-based.
    pub fn new(
        coordinate: IndexExclusionConstraintCoordinate,
        key_position: u32,
        operator: QualifiedOperatorSignature,
        procedure: QualifiedProcedureSignature,
        security_definer: bool,
    ) -> (r: Result<Self, ObservationError>)
        ensures
            r is Ok <==> key_position != 0,
            key_position == 0 ==> r matches Err(ObservationError::InvalidOrdinalPosition),
            r matches Ok(o) ==> o@ == (ProcedurePropertyView {
                binding: BindingView {
                    coordinate: coordinate@,
                    key_position,
                    operator: operator@,
                    procedure: procedure@,
                },
                property: security_definer,
            }),
    {
        if key_position == 0 {
            return Err(ObservationError::InvalidOrdinalPosition);
        }
        Ok(IndexExclusionConstraintOperatorProcedureSecurityDefinerObservation {
            coordinate,
            key_position,
            operator,
            procedure,
            security_definer,
        })
    }

    /// Returns the exact exclusion-constraint coordinate.
    pub fn coordinate(&self) -> (c: &IndexExclusionConstraintCoordinate)
        ensures
            c@ == self@.binding.coordinate,
    {
        &self.coordinate
    }

    /// Returns the one-based exclusion-key position.
    pub fn key_position(&self) -> (p: u32)
        ensures
            p == self@.binding.key_position,
    {
        self.key_position
    }

    /// Returns the exact governed exclusion operator repeated for predecessor binding.
    pub fn operator(&self) -> (o: &QualifiedOperatorSignature)
        ensures
            o@ == self@.binding.operator,
    {
        &self.operator
    }

    /// Returns the exact `pg_operator.oprcode` procedure repeated for predecessor binding.
    pub fn procedure(&self) -> (p: &QualifiedProcedureSignature)
        ensures
            p@ == self@.binding.procedure,
    {
        &self.procedure
    }

    /// Returns raw `pg_proc.prosecdef`: `true` for SECURITY DEFINER, `false` for SECURITY INVOKER.
    pub fn security_definer(&self) -> (c: bool)
        ensures
            c == self@.property,
    {
        self.security_definer
    }

    /// Returns the collision-safe evidence location for this security-context fact.
    pub fn canonical_location(&self) -> (s: String)
        ensures
            s@ == procedure_property_location(self@.binding.coordinate, self@.binding.key_position, "procedure-security-definer"@),
    {
        proof {
            reveal_strlit("procedure-security-definer");
        }
        render_procedure_property_location(&self.coordinate, self.key_position, "procedure-security-definer")
    }
}

impl ProcedureBound for IndexExclusionConstraintOperatorProcedureSecurityDefinerObservation {
    open spec fn binding(&self) -> BindingView {
        self@.binding
    }

    open spec fn property_frame(&self) -> Seq<u8> {
        frame_bool(self@.property)
    }

    fn binding_coordinate(&self) -> (c: &IndexExclusionConstraintCoordinate) {
        &self.coordinate
    }

    fn binding_key_position(&self) -> (p: u32) {
        self.key_position
    }

    fn binding_operator(&self) -> (o: &QualifiedOperatorSignature) {
        &self.operator
    }

    fn binding_procedure(&self) -> (p: &QualifiedProcedureSignature) {
        &self.procedure
    }

    fn put_property(&self, out: &mut Vec<u8>) {
        put_bool(out, self.security_definer);
    }
}

impl SortKey for IndexExclusionConstraintOperatorProcedureSecurityDefinerObservation {
    open spec fn key_lt(self, other: Self) -> bool {
        binding_lt(self@.binding, other@.binding)
    }

    proof fn lemma_key_lt_transitive(a: Self, b: Self, c: Self) {
        crate::procedure_binding::lemma_binding_lt_transitive(a@.binding, b@.binding, c@.binding);
    }

    proof fn lemma_key_lt_irreflexive(a: Self) {
        lemma_coordinate_lt_irreflexive(constraint_key(a@.binding.coordinate));
    }

    fn compare_key(&self, other: &Self) -> (o: KeyOrder) {
        proof {
            lemma_coordinate_lt_irreflexive(constraint_key(self@.binding.coordinate));
            lemma_coordinate_lt_irreflexive(constraint_key(other@.binding.coordinate));
        }
        let by_coordinate = self.coordinate.compare(&other.coordinate);
        if by_coordinate != KeyOrder::Equal {
            return by_coordinate;
        }
        compare_u32(self.key_position, other.key_position)
    }
}

} // verus!

verus! {

/// Domain separator of the procedure security-context digest.
pub const SECURITY_DEFINER_DIGEST_DOMAIN: &'static str =
    "conceptweave.postgres_schema_snapshot.v3.relation_partition.index_partition.exclusion_constraint.operator.procedure.security_definer.v1";

/// Hashes security-context observations, in the order given, after the predecessor digest: each
/// entry is the framed binding followed by one byte, 1 for SECURITY DEFINER.
fn compute_procedure_security_definer_digest(
    predecessor_digest: &str,
    observations: &[IndexExclusionConstraintOperatorProcedureSecurityDefinerObservation],
) -> (d: String)
    ensures
        d@ == digest_text(bound_preimage(SECURITY_DEFINER_DIGEST_DOMAIN@, predecessor_digest@, observations@)),
{
    compute_bound_digest(SECURITY_DEFINER_DIGEST_DOMAIN, predecessor_digest, observations)
}

/// Immutable provenance receipt for one exact procedure security-context observation.
#[derive(Debug, PartialEq, Eq)]
pub struct IndexExclusionConstraintOperatorProcedureSecurityDefinerSourceReceipt {
    source_id: String,
    connection_policy_binding: String,
    source_digest: String,
    extractor_revision: String,
    observed_at_utc: String,
    location: IndexExclusionConstraintOperatorProcedureSecurityDefinerObservation,
}

impl IndexExclusionConstraintOperatorProcedureSecurityDefinerSourceReceipt {
    /// The provenance carried by this receipt.
    pub closed spec fn lineage(&self) -> LineageView {
        LineageView {
            source_connection_key: self.source_id@,
            connection_policy_binding: self.connection_policy_binding@,
            snapshot_digest: self.source_digest@,
            extractor_revision: self.extractor_revision@,
            observed_at_utc: self.observed_at_utc@,
        }
    }

    /// The observation covered by this receipt.
    pub closed spec fn location_view(&self) -> ProcedurePropertyView<bool> {
        self.location@
    }

    /// Returns the stable source registry key, never credential material.
    pub fn source_id(&self) -> (s: &str)
        ensures
            s@ == self.lineage().source_connection_key,
    {
        self.source_id.as_str()
    }

    /// Returns the immutable source-policy binding.
    pub fn connection_policy_binding(&self) -> (s: &str)
        ensures
            s@ == self.lineage().connection_policy_binding,
    {
        self.connection_policy_binding.as_str()
    }

    /// Returns the owner-computed procedure security-context successor digest.
    pub fn source_digest(&self) -> (s: &str)
        ensures
            s@ == self.lineage().snapshot_digest,
    {
        self.source_digest.as_str()
    }

    /// Returns the exact extractor revision inherited from the predecessor chain.
    pub fn extractor_revision(&self) -> (s: &str)
        ensures
            s@ == self.lineage().extractor_revision,
    {
        self.extractor_revision.as_str()
    }

    /// Returns the exact canonical UTC observation time inherited from the predecessor chain.
    pub fn observed_at_utc(&self) -> (s: &str)
        ensures
            s@ == self.lineage().observed_at_utc,
    {
        self.observed_at_utc.as_str()
    }

    /// Returns the exact validated procedure security-context observation.
    pub fn location(&self) -> (o: &IndexExclusionConstraintOperatorProcedureSecurityDefinerObservation)
        ensures
            o@ == self.location_view(),
    {
        &self.location
    }
}

/// Complete raw `pg_proc.prosecdef` evidence over exact procedure function-kind evidence.
///
/// Both states are representable, neither is required, and they never share a digest.
#[derive(Debug, PartialEq, Eq)]
pub struct IndexExclusionConstraintOperatorProcedureSecurityDefinerSnapshot {
    source_connection_key: String,
    connection_policy_binding: String,
    snapshot_digest: String,
    extractor_revision: String,
    observed_at_utc: String,
    observations: Vec<IndexExclusionConstraintOperatorProcedureSecurityDefinerObservation>,
}

impl IndexExclusionConstraintOperatorProcedureSecurityDefinerSnapshot {
    /// The provenance of this snapshot, with its own digest.
    pub closed spec fn lineage(&self) -> LineageView {
        LineageView {
            source_connection_key: self.source_connection_key@,
            connection_policy_binding: self.connection_policy_binding@,
            snapshot_digest: self.snapshot_digest@,
            extractor_revision: self.extractor_revision@,
            observed_at_utc: self.observed_at_utc@,
        }
    }

    /// The observations held, in (constraint, key) order.
    pub closed spec fn entries(&self) -> Seq<IndexExclusionConstraintOperatorProcedureSecurityDefinerObservation> {
        self.observations@
    }

    /// Creates complete procedure security-context evidence over exact function-kind evidence:
    /// exactly its (constraint, key) positions, each repeating its operator and procedure.
    pub fn new(
        kind_snapshot: &IndexExclusionConstraintOperatorProcedureKindSnapshot,
        observations: Vec<IndexExclusionConstraintOperatorProcedureSecurityDefinerObservation>,
    ) -> (r: Result<Self, ObservationError>)
        ensures
            ({
                let code = binding_refusal_code(bindings_of(kind_snapshot.entries()), observations@);
                &&& r is Ok <==> code == 0
                &&& code == 1 ==> fails_with_text(r, "index_exclusion_constraint_operator_procedure_security_definer_coordinate"@)
                &&& code == 2 ==> fails_with_text(r, "index_exclusion_constraint_operator_procedure_security_definer_completeness"@)
                &&& code == 3 ==> fails_with_text(r, "index_exclusion_constraint_operator_procedure_security_definer_binding"@)
            }),
            r matches Ok(s) ==> {
                &&& s.entries() == sorted_by_key(observations@)
                &&& s.lineage() == (LineageView {
                    snapshot_digest: digest_text(
                        bound_preimage(SECURITY_DEFINER_DIGEST_DOMAIN@, kind_snapshot.lineage().snapshot_digest, s.entries()),
                    ),
                    ..kind_snapshot.lineage()
                })
            },
    {
        proof {
            reveal_strlit("index_exclusion_constraint_operator_procedure_security_definer_coordinate");
            reveal_strlit("index_exclusion_constraint_operator_procedure_security_definer_completeness");
            reveal_strlit("index_exclusion_constraint_operator_procedure_security_definer_binding");
            assert(sorted_by_binding::<IndexExclusionConstraintOperatorProcedureSecurityDefinerObservation>());
        }
        let observations = canonicalize_bindings(
            kind_snapshot.observations(),
            observations,
            "index_exclusion_constraint_operator_procedure_security_definer_coordinate",
            "index_exclusion_constraint_operator_procedure_security_definer_completeness",
            "index_exclusion_constraint_operator_procedure_security_definer_binding",
        )?;
        let snapshot_digest = compute_procedure_security_definer_digest(
            kind_snapshot.snapshot_digest(),
            observations.as_slice(),
        );
        Ok(IndexExclusionConstraintOperatorProcedureSecurityDefinerSnapshot {
            source_connection_key: kind_snapshot.source_connection_key().to_owned(),
            connection_policy_binding: kind_snapshot.connection_policy_binding().to_owned(),
            snapshot_digest,
            extractor_revision: kind_snapshot.extractor_revision().to_owned(),
            observed_at_utc: kind_snapshot.observed_at_utc().to_owned(),
            observations,
        })
    }

    /// Returns the stable source-connection registry key.
    pub fn source_connection_key(&self) -> (s: &str)
        ensures
            s@ == self.lineage().source_connection_key,
    {
        self.source_connection_key.as_str()
    }

    /// Returns the immutable source-policy binding.
    pub fn connection_policy_binding(&self) -> (s: &str)
        ensures
            s@ == self.lineage().connection_policy_binding,
    {
        self.connection_policy_binding.as_str()
    }

    /// Returns the domain-separated procedure security-context successor digest.
    pub fn snapshot_digest(&self) -> (s: &str)
        ensures
            s@ == self.lineage().snapshot_digest,
    {
        self.snapshot_digest.as_str()
    }

    /// Returns the exact extractor revision inherited from the predecessor chain.
    pub fn extractor_revision(&self) -> (s: &str)
        ensures
            s@ == self.lineage().extractor_revision,
    {
        self.extractor_revision.as_str()
    }

    /// Returns the exact canonical UTC observation time inherited from the predecessor chain.
    pub fn observed_at_utc(&self) -> (s: &str)
        ensures
            s@ == self.lineage().observed_at_utc,
    {
        self.observed_at_utc.as_str()
    }

    /// Returns complete security-context observations in (constraint, key) order.
    pub fn observations(&self) -> (o: &[IndexExclusionConstraintOperatorProcedureSecurityDefinerObservation])
        ensures
            o@ == self.entries(),
    {
        self.observations.as_slice()
    }

    /// Issues exact provenance for one observed exclusion-constraint procedure position.
    pub fn source_receipt(&self, coordinate: IndexExclusionConstraintCoordinate, key_position: u32) -> (r: Result<
        IndexExclusionConstraintOperatorProcedureSecurityDefinerSourceReceipt,
        ObservationError,
    >)
        ensures
            r is Ok <==> bound_at(self.entries(), coordinate@, key_position) is Some,
            r matches Ok(receipt) ==> receipt.lineage() == self.lineage() && receipt.location_view() == bound_at(
                self.entries(),
                coordinate@,
                key_position,
            )->0@,
            r matches Err(e) ==> e matches ObservationError::UnknownObservationLocation { location: l } && l@
                == procedure_property_location(coordinate@, key_position, "procedure-security-definer"@),
    {
        let observation = match find_bound(self.observations.as_slice(), &coordinate, key_position) {
            Some(o) => o,
            None => {
                proof {
                    reveal_strlit("procedure-security-definer");
                }
                return Err(
                    ObservationError::UnknownObservationLocation {
                        location: render_procedure_property_location(&coordinate, key_position, "procedure-security-definer"),
                    },
                );
            },
        };
        Ok(IndexExclusionConstraintOperatorProcedureSecurityDefinerSourceReceipt {
            source_id: self.source_connection_key.clone(),
            connection_policy_binding: self.connection_policy_binding.clone(),
            source_digest: self.snapshot_digest.clone(),
            extractor_revision: self.extractor_revision.clone(),
            observed_at_utc: self.observed_at_utc.clone(),
            location: observation.clone(),
        })
    }
}

} // verus!

verus! {

/// SECURITY DEFINER and SECURITY INVOKER never share a digest preimage: under one predecessor
/// digest, two single observations with the same binding and different states have different
/// preimages.
pub proof fn lemma_security_states_separate(
    predecessor_digest: Seq<char>,
    a: IndexExclusionConstraintOperatorProcedureSecurityDefinerObservation,
    b: IndexExclusionConstraintOperatorProcedureSecurityDefinerObservation,
)
    requires
        a@.binding == b@.binding,
        a@.property != b@.property,
    ensures
        bound_preimage(SECURITY_DEFINER_DIGEST_DOMAIN@, predecessor_digest, seq![a]) != bound_preimage(
            SECURITY_DEFINER_DIGEST_DOMAIN@,
            predecessor_digest,
            seq![b],
        ),
{
    assert(a.property_frame()[0] != b.property_frame()[0]);
    crate::procedure_binding::lemma_bound_properties_separate(SECURITY_DEFINER_DIGEST_DOMAIN@, predecessor_digest, a, b);
}

} // verus!
