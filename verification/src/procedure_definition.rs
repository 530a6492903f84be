//! Exclusion-constraint operator implementation-function definition evidence.
//!
//! The implementation language and the `prosrc`, `probin` and `prosqlbody` of the
//! `pg_operator.oprcode` function can change without changing its signature. This layer keeps the
//! language name and a privacy-preserving digest of the definition for every exclusion key; the
//! plaintext definition is never retained.

use vstd::prelude::*;

use crate::catalog::{lemma_coordinate_lt_irreflexive, LineageView};
use crate::digest::digest_text;
use crate::error::{fails_with_text, ObservationError};
use crate::exclusion_constraint::{constraint_key, IndexExclusionConstraintCoordinate};
use crate::order::{compare_u32, sorted_by_key, KeyOrder, SortKey};
use crate::procedure_binding::{
    binding_lt, binding_refusal_code, bound_at, bound_preimage, canonicalize_bindings, compute_bound_digest,
    find_bound, sorted_by_binding, BindingView, ProcedureBound, ProcedurePropertyView,
};
use crate::procedure_parallel_safety::{procedure_property_location, render_procedure_property_location};
use crate::signatures::{QualifiedOperatorSignature, QualifiedProcedureSignature};
use crate::digest::{frame_str, put_str};
use crate::procedure_material::{DefinitionMaterialView, IndexExclusionConstraintOperatorProcedureDefinitionMaterial};
use crate::procedure_parallel_safety::IssuedProcedureBindings;

verus! {

/// Implementation-definition identity for one exact exclusion-constraint implementation function.
#[derive(Debug, PartialEq, Eq)]
pub struct IndexExclusionConstraintOperatorProcedureDefinitionObservation {
    coordinate: IndexExclusionConstraintCoordinate,
    key_position: u32,
    operator: QualifiedOperatorSignature,
    procedure: QualifiedProcedureSignature,
    material: IndexExclusionConstraintOperatorProcedureDefinitionMaterial,
}

impl View for IndexExclusionConstraintOperatorProcedureDefinitionObservation {
    type V = ProcedurePropertyView<DefinitionMaterialView>;

    closed spec fn view(&self) -> ProcedurePropertyView<DefinitionMaterialView> {
        ProcedurePropertyView {
            binding: BindingView {
                coordinate: self.coordinate@,
                key_position: self.key_position,
                operator: self.operator@,
                procedure: self.procedure@,
            },
            property: self.material@,
        }
    }
}

impl Clone for IndexExclusionConstraintOperatorProcedureDefinitionObservation {
    fn clone(&self) -> (c: Self)
        ensures
            c@ == self@,
    {
        IndexExclusionConstraintOperatorProcedureDefinitionObservation {
            coordinate: self.coordinate.clone(),
            key_position: self.key_position,
            operator: self.operator.clone(),
            procedure: self.procedure.clone(),
            material: self.material.clone(),
        }
    }
}

impl IndexExclusionConstraintOperatorProcedureDefinitionObservation {
    /// Records one exact operator/function binding and its definition material; the key
    /// position is one-based.
    pub fn new(
        coordinate: IndexExclusionConstraintCoordinate,
        key_position: u32,
        operator: QualifiedOperatorSignature,
        procedure: QualifiedProcedureSignature,
        material: IndexExclusionConstraintOperatorProcedureDefinitionMaterial,
    ) -> (r: Result<Self, ObservationError>)
        ensures
            r is Ok <==> key_position != 0,
            key_position == 0 ==> r matches Err(ObservationError::InvalidOrdinalPosition),
            r matches Ok(o) ==> o@ == (ProcedurePropertyView {
                binding: BindingView {
                    coordinate: coordinate@,
                    key_position,
                    operator: operator@,
                    procedure: procedure@,
                },
                property: material@,
            }),
    {
        if key_position == 0 {
            return Err(ObservationError::InvalidOrdinalPosition);
        }

        Ok(IndexExclusionConstraintOperatorProcedureDefinitionObservation { coordinate, key_position, operator, procedure, material })
    }

    /// Returns the exact exclusion-constraint coordinate.
    pub fn coordinate(&self) -> (c: &IndexExclusionConstraintCoordinate)
        ensures
            c@ == self@.binding.coordinate,
    {
        &self.coordinate
    }

    /// Returns the one-based exclusion-key position.
    pub fn key_position(&self) -> (p: u32)
        ensures
            p == self@.binding.key_position,
    {
        self.key_position
    }

    /// Returns the exact governed exclusion operator repeated for predecessor binding.
    pub fn operator(&self) -> (o: &QualifiedOperatorSignature)
        ensures
            o@ == self@.binding.operator,
    {
        &self.operator
    }

    /// Returns the exact `pg_operator.oprcode` function repeated for predecessor binding.
    pub fn procedure(&self) -> (p: &QualifiedProcedureSignature)
        ensures
            p@ == self@.binding.procedure,
    {
        &self.procedure
    }

    /// Returns the independently resolved implementation language name.
    pub fn language_name(&self) -> (s: &str)
        ensures
            s@ == self@.property.language_name,
    {
        self.material.language_name()
    }

    /// Returns the domain-separated implementation-definition digest.
    pub fn definition_digest(&self) -> (s: &str)
        ensures
            s@ == self@.property.definition_digest,
    {
        self.material.definition_digest()
    }

    /// Returns the collision-safe evidence location for this definition fact.
    pub fn canonical_location(&self) -> (s: String)
        ensures
            s@ == procedure_property_location(self@.binding.coordinate, self@.binding.key_position, "procedure-definition"@),
    {
        proof {
            reveal_strlit("procedure-definition");
        }
        render_procedure_property_location(&self.coordinate, self.key_position, "procedure-definition")
    }
}

impl ProcedureBound for IndexExclusionConstraintOperatorProcedureDefinitionObservation {
    open spec fn binding(&self) -> BindingView {
        self@.binding
    }

    open spec fn property_frame(&self) -> Seq<u8> {
        frame_str(self@.property.language_name) + frame_str(self@.property.definition_digest)
    }

    fn binding_coordinate(&self) -> (c: &IndexExclusionConstraintCoordinate) {
        &self.coordinate
    }

    fn binding_key_position(&self) -> (p: u32) {
        self.key_position
    }

    fn binding_operator(&self) -> (o: &QualifiedOperatorSignature) {
        &self.operator
    }

    fn binding_procedure(&self) -> (p: &QualifiedProcedureSignature) {
        &self.procedure
    }

    fn put_property(&self, out: &mut Vec<u8>) {
        let ghost s0 = out@;
        put_str(out, self.material.language_name());
        put_str(out, self.material.definition_digest());
        proof {
            vstd::seq_lib::lemma_concat_associative(s0, frame_str(self@.property.language_name), frame_str(self@.property.definition_digest));
        }
    }
}

impl SortKey for IndexExclusionConstraintOperatorProcedureDefinitionObservation {
    open spec fn key_lt(self, other: Self) -> bool {
        binding_lt(self@.binding, other@.binding)
    }

    proof fn lemma_key_lt_transitive(a: Self, b: Self, c: Self) {
        crate::procedure_binding::lemma_binding_lt_transitive(a@.binding, b@.binding, c@.binding);
    }

    proof fn lemma_key_lt_irreflexive(a: Self) {
        lemma_coordinate_lt_irreflexive(constraint_key(a@.binding.coordinate));
    }

    fn compare_key(&self, other: &Self) -> (o: KeyOrder) {
        proof {
            lemma_coordinate_lt_irreflexive(constraint_key(self@.binding.coordinate));
            lemma_coordinate_lt_irreflexive(constraint_key(other@.binding.coordinate));
        }
        let by_coordinate = self.coordinate.compare(&other.coordinate);
        if by_coordinate != KeyOrder::Equal {
            return by_coordinate;
        }
        compare_u32(self.key_position, other.key_position)
    }
}

/// Domain separator of the procedure definition digest.
pub const DEFINITION_DIGEST_DOMAIN: &'static str =
    "conceptweave.postgres_schema_snapshot.v3.relation_partition.index_partition.exclusion_constraint.operator.procedure.definition.v1";

/// Hashes definition observations, in the order given, after the predecessor digest: each entry
/// is the framed binding followed by the framed language name and definition digest.
fn compute_procedure_definition_digest(predecessor_digest: &str, observations: &[IndexExclusionConstraintOperatorProcedureDefinitionObservation]) -> (d: String)
    ensures
        d@ == digest_text(bound_preimage(DEFINITION_DIGEST_DOMAIN@, predecessor_digest@, observations@)),
{
    compute_bound_digest(DEFINITION_DIGEST_DOMAIN, predecessor_digest, observations)
}

/// Immutable provenance receipt for one exact procedure definition observation.
#[derive(Debug, PartialEq, Eq)]
pub struct IndexExclusionConstraintOperatorProcedureDefinitionSourceReceipt {
    source_id: String,
    connection_policy_binding: String,
    source_digest: String,
    extractor_revision: String,
    observed_at_utc: String,
    location: IndexExclusionConstraintOperatorProcedureDefinitionObservation,
}

impl IndexExclusionConstraintOperatorProcedureDefinitionSourceReceipt {
    /// The provenance carried by this receipt.
    pub closed spec fn lineage(&self) -> LineageView {
        LineageView {
            source_connection_key: self.source_id@,
            connection_policy_binding: self.connection_policy_binding@,
            snapshot_digest: self.source_digest@,
            extractor_revision: self.extractor_revision@,
            observed_at_utc: self.observed_at_utc@,
        }
    }

    /// The observation covered by this receipt.
    pub closed spec fn location_view(&self) -> ProcedurePropertyView<DefinitionMaterialView> {
        self.location@
    }

    /// Returns the stable source registry key, never credential material.
    pub fn source_id(&self) -> (s: &str)
        ensures
            s@ == self.lineage().source_connection_key,
    {
        self.source_id.as_str()
    }

    /// Returns the immutable source-policy binding.
    pub fn connection_policy_binding(&self) -> (s: &str)
        ensures
            s@ == self.lineage().connection_policy_binding,
    {
        self.connection_policy_binding.as_str()
    }

    /// Returns the owner-computed procedure definition successor digest.
    pub fn source_digest(&self) -> (s: &str)
        ensures
            s@ == self.lineage().snapshot_digest,
    {
        self.source_digest.as_str()
    }

    /// Returns the exact extractor revision inherited from the predecessor chain.
    pub fn extractor_revision(&self) -> (s: &str)
        ensures
            s@ == self.lineage().extractor_revision,
    {
        self.extractor_revision.as_str()
    }

    /// Returns the exact canonical UTC observation time inherited from the predecessor chain.
    pub fn observed_at_utc(&self) -> (s: &str)
        ensures
            s@ == self.lineage().observed_at_utc,
    {
        self.observed_at_utc.as_str()
    }

    /// Returns the exact validated procedure definition observation.
    pub fn location(&self) -> (o: &IndexExclusionConstraintOperatorProcedureDefinitionObservation)
        ensures
            o@ == self.location_view(),
    {
        &self.location
    }
}

/// Complete implementation-definition evidence over one issued operator-procedure layer: exactly
/// its (constraint, key) positions, each repeating its operator and procedure.
#[derive(Debug, PartialEq, Eq)]
pub struct IndexExclusionConstraintOperatorProcedureDefinitionSnapshot {
    source_connection_key: String,
    connection_policy_binding: String,
    snapshot_digest: String,
    extractor_revision: String,
    observed_at_utc: String,
    observations: Vec<IndexExclusionConstraintOperatorProcedureDefinitionObservation>,
}

impl IndexExclusionConstraintOperatorProcedureDefinitionSnapshot {
    /// The provenance of this snapshot, with its own digest.
    pub closed spec fn lineage(&self) -> LineageView {
        LineageView {
            source_connection_key: self.source_connection_key@,
            connection_policy_binding: self.connection_policy_binding@,
            snapshot_digest: self.snapshot_digest@,
            extractor_revision: self.extractor_revision@,
            observed_at_utc: self.observed_at_utc@,
        }
    }

    /// The observations held, in (constraint, key) order.
    pub closed spec fn entries(&self) -> Seq<IndexExclusionConstraintOperatorProcedureDefinitionObservation> {
        self.observations@
    }

    /// Creates complete implementation-definition evidence over one issued operator-procedure layer.
    pub fn new(
        leakproof_snapshot: &IssuedProcedureBindings,
        observations: Vec<IndexExclusionConstraintOperatorProcedureDefinitionObservation>,
    ) -> (r: Result<Self, ObservationError>)
        ensures
            ({
                let code = binding_refusal_code(leakproof_snapshot.binding_views(), observations@);
                &&& r is Ok <==> code == 0
                &&& code == 1 ==> fails_with_text(r, "index_exclusion_constraint_operator_procedure_definition_coordinate"@)
                &&& code == 2 ==> fails_with_text(r, "index_exclusion_constraint_operator_procedure_definition_completeness"@)
                &&& code == 3 ==> fails_with_text(r, "index_exclusion_constraint_operator_procedure_definition_binding"@)
            }),
            r matches Ok(s) ==> {
                &&& s.entries() == sorted_by_key(observations@)
                &&& s.lineage() == (LineageView {
                    snapshot_digest: digest_text(
                        bound_preimage(DEFINITION_DIGEST_DOMAIN@, leakproof_snapshot.lineage().snapshot_digest, s.entries()),
                    ),
                    ..leakproof_snapshot.lineage()
                })
            },
    {
        proof {
            assert(sorted_by_binding::<IndexExclusionConstraintOperatorProcedureDefinitionObservation>());
        }
        let observations = canonicalize_bindings(
            leakproof_snapshot.bindings(),
            observations,
            "index_exclusion_constraint_operator_procedure_definition_coordinate",
            "index_exclusion_constraint_operator_procedure_definition_completeness",
            "index_exclusion_constraint_operator_procedure_definition_binding",
        )?;
        let snapshot_digest = compute_procedure_definition_digest(leakproof_snapshot.snapshot_digest(), observations.as_slice());
        Ok(IndexExclusionConstraintOperatorProcedureDefinitionSnapshot {
            source_connection_key: leakproof_snapshot.source_connection_key().to_owned(),
            connection_policy_binding: leakproof_snapshot.connection_policy_binding().to_owned(),
            snapshot_digest,
            extractor_revision: leakproof_snapshot.extractor_revision().to_owned(),
            observed_at_utc: leakproof_snapshot.observed_at_utc().to_owned(),
            observations,
        })
    }

    /// Returns the stable source-connection registry key.
    pub fn source_connection_key(&self) -> (s: &str)
        ensures
            s@ == self.lineage().source_connection_key,
    {
        self.source_connection_key.as_str()
    }

    /// Returns the immutable source-policy binding.
    pub fn connection_policy_binding(&self) -> (s: &str)
        ensures
            s@ == self.lineage().connection_policy_binding,
    {
        self.connection_policy_binding.as_str()
    }

    /// Returns the domain-separated procedure definition successor digest.
    pub fn snapshot_digest(&self) -> (s: &str)
        ensures
            s@ == self.lineage().snapshot_digest,
    {
        self.snapshot_digest.as_str()
    }

    /// Returns the exact extractor revision inherited from the predecessor chain.
    pub fn extractor_revision(&self) -> (s: &str)
        ensures
            s@ == self.lineage().extractor_revision,
    {
        self.extractor_revision.as_str()
    }

    /// Returns the exact canonical UTC observation time inherited from the predecessor chain.
    pub fn observed_at_utc(&self) -> (s: &str)
        ensures
            s@ == self.lineage().observed_at_utc,
    {
        self.observed_at_utc.as_str()
    }

    /// Returns complete definition observations in (constraint, key) order.
    pub fn observations(&self) -> (o: &[IndexExclusionConstraintOperatorProcedureDefinitionObservation])
        ensures
            o@ == self.entries(),
    {
        self.observations.as_slice()
    }

    /// Issues exact provenance for one observed exclusion-constraint procedure position.
    pub fn source_receipt(&self, coordinate: IndexExclusionConstraintCoordinate, key_position: u32) -> (r: Result<
        IndexExclusionConstraintOperatorProcedureDefinitionSourceReceipt,
        ObservationError,
    >)
        ensures
            r is Ok <==> bound_at(self.entries(), coordinate@, key_position) is Some,
            r matches Ok(receipt) ==> receipt.lineage() == self.lineage() && receipt.location_view() == bound_at(
                self.entries(),
                coordinate@,
                key_position,
            )->0@,
            r matches Err(e) ==> e matches ObservationError::UnknownObservationLocation { location: l } && l@
                == procedure_property_location(coordinate@, key_position, "procedure-definition"@),
    {
        let observation = match find_bound(self.observations.as_slice(), &coordinate, key_position) {
            Some(o) => o,
            None => {
                proof {
                    reveal_strlit("procedure-definition");
                }
                return Err(
                    ObservationError::UnknownObservationLocation {
                        location: render_procedure_property_location(&coordinate, key_position, "procedure-definition"),
                    },
                );
            },
        };
        Ok(IndexExclusionConstraintOperatorProcedureDefinitionSourceReceipt {
            source_id: self.source_connection_key.clone(),
            connection_policy_binding: self.connection_policy_binding.clone(),
            source_digest: self.snapshot_digest.clone(),
            extractor_revision: self.extractor_revision.clone(),
            observed_at_utc: self.observed_at_utc.clone(),
            location: observation.clone(),
        })
    }
}

} // verus!
