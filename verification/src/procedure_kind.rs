//! Exclusion-constraint operator implementation-routine kind evidence.
//!
//! `pg_proc.prokind` is independent from routine identity and auxiliary function properties.
//! PostgreSQL records `f` for a normal function, `p` for a procedure, `a` for an aggregate and `w`
//! for a window function. `CREATE OPERATOR` requires its implementation routine to be a function,
//! so this layer requires the exact `pg_operator.oprcode` row to resolve to raw `prokind = 'f'`
//! rather than inferring the kind from the procedure signature or other `pg_proc` fields.

use vstd::prelude::*;

use crate::catalog::{lemma_coordinate_lt_irreflexive, LineageView};
use crate::digest::digest_text;
use crate::error::{fails_with_text, invalid, ObservationError};
use crate::exclusion_constraint::{constraint_key, IndexExclusionConstraintCoordinate};
use crate::order::{compare_u32, sorted_by_key, KeyOrder, SortKey};
use crate::procedure_binding::{
    binding_lt, binding_refusal_code, bindings_of, bound_at, bound_preimage, canonicalize_bindings, compute_bound_digest,
    find_bound, sorted_by_binding, BindingView, ProcedureBound, ProcedurePropertyView,
};
use crate::procedure_parallel_safety::{
    procedure_property_location, render_procedure_property_location,
    IndexExclusionConstraintOperatorProcedureParallelSafetySnapshot,
};
use crate::signatures::{QualifiedOperatorSignature, QualifiedProcedureSignature};

verus! {

/// Raw `pg_proc.prokind` evidence for one exact exclusion-constraint implementation function.
#[derive(Debug, PartialEq, Eq)]
pub struct IndexExclusionConstraintOperatorProcedureKindObservation {
    coordinate: IndexExclusionConstraintCoordinate,
    key_position: u32,
    operator: QualifiedOperatorSignature,
    procedure: QualifiedProcedureSignature,
    procedure_kind: char,
}


impl View for IndexExclusionConstraintOperatorProcedureKindObservation {
    type V = ProcedurePropertyView<char>;

    closed spec fn view(&self) -> ProcedurePropertyView<char> {
        ProcedurePropertyView {
            binding: BindingView {
                coordinate: self.coordinate@,
                key_position: self.key_position,
                operator: self.operator@,
                procedure: self.procedure@,
            },
            property: self.procedure_kind,
        }
    }
}

impl Clone for IndexExclusionConstraintOperatorProcedureKindObservation {
    fn clone(&self) -> (c: Self)
        ensures
            c@ == self@,
    {
        IndexExclusionConstraintOperatorProcedureKindObservation {
            coordinate: self.coordinate.clone(),
            key_position: self.key_position,
            operator: self.operator.clone(),
            procedure: self.procedure.clone(),
            procedure_kind: self.procedure_kind,
        }
    }
}

impl IndexExclusionConstraintOperatorProcedureKindObservation {
    /// Records one exact operator/procedure binding and requires the raw PostgreSQL normal-function
    /// kind `f`; the key position is one-based.
    pub fn new(
        coordinate: IndexExclusionConstraintCoordinate,
        key_position: u32,
        operator: QualifiedOperatorSignature,
        procedure: QualifiedProcedureSignature,
        procedure_kind: char,
    ) -> (r: Result<Self, ObservationError>)
        ensures
            r is Ok <==> key_position != 0 && procedure_kind == 'f',
            key_position == 0 ==> r matches Err(ObservationError::InvalidOrdinalPosition),
            key_position != 0 && procedure_kind != 'f' ==> fails_with_text(
                r,
                "index_exclusion_constraint_operator_procedure_kind"@,
            ),
            r matches Ok(o) ==> o@ == (ProcedurePropertyView {
                binding: BindingView {
                    coordinate: coordinate@,
                    key_position,
                    operator: operator@,
                    procedure: procedure@,
                },
                property: procedure_kind,
            }),
    {
        if key_position == 0 {
            return Err(ObservationError::InvalidOrdinalPosition);
        }
        if procedure_kind != 'f' {
            proof {
                reveal_strlit("index_exclusion_constraint_operator_procedure_kind");
            }
            return Err(invalid("index_exclusion_constraint_operator_procedure_kind"));
        }
        Ok(IndexExclusionConstraintOperatorProcedureKindObservation {
            coordinate,
            key_position,
            operator,
            procedure,
            procedure_kind,
        })
    }

    /// Returns the exact exclusion-constraint coordinate.
    pub fn coordinate(&self) -> (c: &IndexExclusionConstraintCoordinate)
        ensures
            c@ == self@.binding.coordinate,
    {
        &self.coordinate
    }

    /// Returns the one-based exclusion-key position.
    pub fn key_position(&self) -> (p: u32)
        ensures
            p == self@.binding.key_position,
    {
        self.key_position
    }

    /// Returns the exact governed exclusion operator repeated for predecessor binding.
    pub fn operator(&self) -> (o: &QualifiedOperatorSignature)
        ensures
            o@ == self@.binding.operator,
    {
        &self.operator
    }

    /// Returns the exact `pg_operator.oprcode` procedure repeated for predecessor binding.
    pub fn procedure(&self) -> (p: &QualifiedProcedureSignature)
        ensures
            p@ == self@.binding.procedure,
    {
        &self.procedure
    }

    /// Returns raw `pg_proc.prokind`, which is always `f`.
    pub fn procedure_kind(&self) -> (c: char)
        ensures
            c == self@.property,
    {
        self.procedure_kind
    }

    /// Returns the collision-safe evidence location for this function-kind fact.
    pub fn canonical_location(&self) -> (s: String)
        ensures
            s@ == procedure_property_location(self@.binding.coordinate, self@.binding.key_position, "procedure-kind"@),
    {
        proof {
            reveal_strlit("procedure-kind");
        }
        render_procedure_property_location(&self.coordinate, self.key_position, "procedure-kind")
    }
}

impl ProcedureBound for IndexExclusionConstraintOperatorProcedureKindObservation {
    open spec fn binding(&self) -> BindingView {
        self@.binding
    }

    open spec fn property_frame(&self) -> Seq<u8> {
        seq![(self@.property as u32) as u8]
    }

    fn binding_coordinate(&self) -> (c: &IndexExclusionConstraintCoordinate) {
        &self.coordinate
    }

    fn binding_key_position(&self) -> (p: u32) {
        self.key_position
    }

    fn binding_operator(&self) -> (o: &QualifiedOperatorSignature) {
        &self.operator
    }

    fn binding_procedure(&self) -> (p: &QualifiedProcedureSignature) {
        &self.procedure
    }

    fn put_property(&self, out: &mut Vec<u8>) {
        let code: u32 = self.procedure_kind as u32;
        out.push(code as u8);
        assert(final(out)@ =~= old(out)@ + seq![(self@.property as u32) as u8]);
    }
}

impl SortKey for IndexExclusionConstraintOperatorProcedureKindObservation {
    open spec fn key_lt(self, other: Self) -> bool {
        binding_lt(self@.binding, other@.binding)
    }

    proof fn lemma_key_lt_transitive(a: Self, b: Self, c: Self) {
        crate::procedure_binding::lemma_binding_lt_transitive(a@.binding, b@.binding, c@.binding);
    }

    proof fn lemma_key_lt_irreflexive(a: Self) {
        lemma_coordinate_lt_irreflexive(constraint_key(a@.binding.coordinate));
    }

    fn compare_key(&self, other: &Self) -> (o: KeyOrder) {
        proof {
            lemma_coordinate_lt_irreflexive(constraint_key(self@.binding.coordinate));
            lemma_coordinate_lt_irreflexive(constraint_key(other@.binding.coordinate));
        }
        let by_coordinate = self.coordinate.compare(&other.coordinate);
        if by_coordinate != KeyOrder::Equal {
            return by_coordinate;
        }
        compare_u32(self.key_position, other.key_position)
    }
}

} // verus!

verus! {

/// Domain separator of the procedure function-kind digest.
pub const PROCEDURE_KIND_DIGEST_DOMAIN: &'static str =
    "conceptweave.postgres_schema_snapshot.v3.relation_partition.index_partition.exclusion_constraint.operator.procedure.kind.v1";

/// Hashes function-kind observations, in the order given, after the predecessor digest: each
/// entry is the framed binding followed by the raw kind byte.
fn compute_procedure_kind_digest(
    predecessor_digest: &str,
    observations: &[IndexExclusionConstraintOperatorProcedureKindObservation],
) -> (d: String)
    ensures
        d@ == digest_text(bound_preimage(PROCEDURE_KIND_DIGEST_DOMAIN@, predecessor_digest@, observations@)),
{
    compute_bound_digest(PROCEDURE_KIND_DIGEST_DOMAIN, predecessor_digest, observations)
}

/// Immutable provenance receipt for one exact operator implementation-function kind observation.
#[derive(Debug, PartialEq, Eq)]
pub struct IndexExclusionConstraintOperatorProcedureKindSourceReceipt {
    source_id: String,
    connection_policy_binding: String,
    source_digest: String,
    extractor_revision: String,
    observed_at_utc: String,
    location: IndexExclusionConstraintOperatorProcedureKindObservation,
}

impl IndexExclusionConstraintOperatorProcedureKindSourceReceipt {
    /// The provenance carried by this receipt.
    pub closed spec fn lineage(&self) -> LineageView {
        LineageView {
            source_connection_key: self.source_id@,
            connection_policy_binding: self.connection_policy_binding@,
            snapshot_digest: self.source_digest@,
            extractor_revision: self.extractor_revision@,
            observed_at_utc: self.observed_at_utc@,
        }
    }

    /// The observation covered by this receipt.
    pub closed spec fn location_view(&self) -> ProcedurePropertyView<char> {
        self.location@
    }

    /// Returns the stable source registry key, never credential material.
    pub fn source_id(&self) -> (s: &str)
        ensures
            s@ == self.lineage().source_connection_key,
    {
        self.source_id.as_str()
    }

    /// Returns the immutable source-policy binding.
    pub fn connection_policy_binding(&self) -> (s: &str)
        ensures
            s@ == self.lineage().connection_policy_binding,
    {
        self.connection_policy_binding.as_str()
    }

    /// Returns the owner-computed procedure function-kind successor digest.
    pub fn source_digest(&self) -> (s: &str)
        ensures
            s@ == self.lineage().snapshot_digest,
    {
        self.source_digest.as_str()
    }

    /// Returns the exact extractor revision inherited from the predecessor chain.
    pub fn extractor_revision(&self) -> (s: &str)
        ensures
            s@ == self.lineage().extractor_revision,
    {
        self.extractor_revision.as_str()
    }

    /// Returns the exact canonical UTC observation time inherited from the predecessor chain.
    pub fn observed_at_utc(&self) -> (s: &str)
        ensures
            s@ == self.lineage().observed_at_utc,
    {
        self.observed_at_utc.as_str()
    }

    /// Returns the exact validated procedure function-kind observation.
    pub fn location(&self) -> (o: &IndexExclusionConstraintOperatorProcedureKindObservation)
        ensures
            o@ == self.location_view(),
    {
        &self.location
    }
}

/// Complete raw `pg_proc.prokind` evidence over exact procedure parallel-safety evidence: every
/// governed implementation routine is a normal function.
#[derive(Debug, PartialEq, Eq)]
pub struct IndexExclusionConstraintOperatorProcedureKindSnapshot {
    source_connection_key: String,
    connection_policy_binding: String,
    snapshot_digest: String,
    extractor_revision: String,
    observed_at_utc: String,
    observations: Vec<IndexExclusionConstraintOperatorProcedureKindObservation>,
}

impl IndexExclusionConstraintOperatorProcedureKindSnapshot {
    /// The provenance of this snapshot, with its own digest.
    pub closed spec fn lineage(&self) -> LineageView {
        LineageView {
            source_connection_key: self.source_connection_key@,
            connection_policy_binding: self.connection_policy_binding@,
            snapshot_digest: self.snapshot_digest@,
            extractor_revision: self.extractor_revision@,
            observed_at_utc: self.observed_at_utc@,
        }
    }

    /// The observations held, in (constraint, key) order.
    pub closed spec fn entries(&self) -> Seq<IndexExclusionConstraintOperatorProcedureKindObservation> {
        self.observations@
    }

    /// Creates complete procedure function-kind evidence over exact parallel-safety evidence:
    /// exactly its (constraint, key) positions, each repeating its operator and procedure.
    pub fn new(
        parallel_safety_snapshot: &IndexExclusionConstraintOperatorProcedureParallelSafetySnapshot,
        observations: Vec<IndexExclusionConstraintOperatorProcedureKindObservation>,
    ) -> (r: Result<Self, ObservationError>)
        ensures
            ({
                let code = binding_refusal_code(bindings_of(parallel_safety_snapshot.entries()), observations@);
                &&& r is Ok <==> code == 0
                &&& code == 1 ==> fails_with_text(r, "index_exclusion_constraint_operator_procedure_kind_coordinate"@)
                &&& code == 2 ==> fails_with_text(r, "index_exclusion_constraint_operator_procedure_kind_completeness"@)
                &&& code == 3 ==> fails_with_text(r, "index_exclusion_constraint_operator_procedure_kind_binding"@)
            }),
            r matches Ok(s) ==> {
                &&& s.entries() == sorted_by_key(observations@)
                &&& s.lineage() == (LineageView {
                    snapshot_digest: digest_text(
                        bound_preimage(PROCEDURE_KIND_DIGEST_DOMAIN@, parallel_safety_snapshot.lineage().snapshot_digest, s.entries()),
                    ),
                    ..parallel_safety_snapshot.lineage()
                })
            },
    {
        proof {
            reveal_strlit("index_exclusion_constraint_operator_procedure_kind_coordinate");
            reveal_strlit("index_exclusion_constraint_operator_procedure_kind_completeness");
            reveal_strlit("index_exclusion_constraint_operator_procedure_kind_binding");
            assert(sorted_by_binding::<IndexExclusionConstraintOperatorProcedureKindObservation>());
        }
        let observations = canonicalize_bindings(
            parallel_safety_snapshot.observations(),
            observations,
            "index_exclusion_constraint_operator_procedure_kind_coordinate",
            "index_exclusion_constraint_operator_procedure_kind_completeness",
            "index_exclusion_constraint_operator_procedure_kind_binding",
        )?;
        let snapshot_digest = compute_procedure_kind_digest(
            parallel_safety_snapshot.snapshot_digest(),
            observations.as_slice(),
        );
        Ok(IndexExclusionConstraintOperatorProcedureKindSnapshot {
            source_connection_key: parallel_safety_snapshot.source_connection_key().to_owned(),
            connection_policy_binding: parallel_safety_snapshot.connection_policy_binding().to_owned(),
            snapshot_digest,
            extractor_revision: parallel_safety_snapshot.extractor_revision().to_owned(),
            observed_at_utc: parallel_safety_snapshot.observed_at_utc().to_owned(),
            observations,
        })
    }

    /// Returns the stable source-connection registry key.
    pub fn source_connection_key(&self) -> (s: &str)
        ensures
            s@ == self.lineage().source_connection_key,
    {
        self.source_connection_key.as_str()
    }

    /// Returns the immutable source-policy binding.
    pub fn connection_policy_binding(&self) -> (s: &str)
        ensures
            s@ == self.lineage().connection_policy_binding,
    {
        self.connection_policy_binding.as_str()
    }

    /// Returns the domain-separated procedure function-kind successor digest.
    pub fn snapshot_digest(&self) -> (s: &str)
        ensures
            s@ == self.lineage().snapshot_digest,
    {
        self.snapshot_digest.as_str()
    }

    /// Returns the exact extractor revision inherited from the predecessor chain.
    pub fn extractor_revision(&self) -> (s: &str)
        ensures
            s@ == self.lineage().extractor_revision,
    {
        self.extractor_revision.as_str()
    }

    /// Returns the exact canonical UTC observation time inherited from the predecessor chain.
    pub fn observed_at_utc(&self) -> (s: &str)
        ensures
            s@ == self.lineage().observed_at_utc,
    {
        self.observed_at_utc.as_str()
    }

    /// Returns complete function-kind observations in (constraint, key) order.
    pub fn observations(&self) -> (o: &[IndexExclusionConstraintOperatorProcedureKindObservation])
        ensures
            o@ == self.entries(),
    {
        self.observations.as_slice()
    }

    /// Issues exact provenance for one observed exclusion-constraint procedure position.
    pub fn source_receipt(&self, coordinate: IndexExclusionConstraintCoordinate, key_position: u32) -> (r: Result<
        IndexExclusionConstraintOperatorProcedureKindSourceReceipt,
        ObservationError,
    >)
        ensures
            r is Ok <==> bound_at(self.entries(), coordinate@, key_position) is Some,
            r matches Ok(receipt) ==> receipt.lineage() == self.lineage() && receipt.location_view() == bound_at(
                self.entries(),
                coordinate@,
                key_position,
            )->0@,
            r matches Err(e) ==> e matches ObservationError::UnknownObservationLocation { location: l } && l@
                == procedure_property_location(coordinate@, key_position, "procedure-kind"@),
    {
        let observation = match find_bound(self.observations.as_slice(), &coordinate, key_position) {
            Some(o) => o,
            None => {
                proof {
                    reveal_strlit("procedure-kind");
                }
                return Err(
                    ObservationError::UnknownObservationLocation {
                        location: render_procedure_property_location(&coordinate, key_position, "procedure-kind"),
                    },
                );
            },
        };
        Ok(IndexExclusionConstraintOperatorProcedureKindSourceReceipt {
            source_id: self.source_connection_key.clone(),
            connection_policy_binding: self.connection_policy_binding.clone(),
            source_digest: self.snapshot_digest.clone(),
            extractor_revision: self.extractor_revision.clone(),
            observed_at_utc: self.observed_at_utc.clone(),
            location: observation.clone(),
        })
    }
}

} // verus!
