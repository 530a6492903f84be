//! Exclusion-constraint operator scalar-procedure evidence.
//!
//! Exclusion enforcement calls each implementation procedure as a scalar two-argument function and
//! consumes one Boolean datum. `pg_proc.proretset` is independent catalog state, so a signature
//! returning `bool` does not show scalar cardinality. This layer binds the raw bit to every
//! governed (constraint, key) procedure and refuses a set-returning one.

use vstd::prelude::*;

use crate::catalog::{lemma_coordinate_lt_irreflexive, LineageView};
use crate::digest::{digest_text, frame_bool, put_bool};
use crate::error::ObservationError;
use crate::exclusion_constraint::{constraint_key, IndexExclusionConstraintCoordinate};
use crate::order::{compare_u32, sorted_by_key, text_eq, KeyOrder, SortKey};
use crate::procedure_binding::{
    binding_lt, binding_refusal_code, bound_at, bound_preimage, canonicalize_bindings, compute_bound_digest,
    find_bound, sorted_by_binding, BindingView, ProcedureBound, ProcedurePropertyView,
};
use crate::constraint_operator_kind::{
    operator_kind_preimage, operator_kind_refusal, operator_kind_views, IndexExclusionConstraintOperatorKindObservation,
    IndexExclusionConstraintOperatorKindSnapshot,
};
use crate::procedure_parallel_safety::IssuedProcedureBindings;
use crate::procedure_parallel_safety::{procedure_property_location, render_procedure_property_location};
use crate::error::fails_with_text;
use crate::signatures::{QualifiedOperatorSignature, QualifiedProcedureSignature};

verus! {

/// Raw `pg_proc.proretset` evidence for one exact exclusion-constraint implementation procedure.
#[derive(Debug, PartialEq, Eq)]
pub struct IndexExclusionConstraintOperatorProcedureScalarObservation {
    coordinate: IndexExclusionConstraintCoordinate,
    key_position: u32,
    operator: QualifiedOperatorSignature,
    procedure: QualifiedProcedureSignature,
    returns_set: bool,
}


impl View for IndexExclusionConstraintOperatorProcedureScalarObservation {
    type V = ProcedurePropertyView<bool>;

    closed spec fn view(&self) -> ProcedurePropertyView<bool> {
        ProcedurePropertyView {
            binding: BindingView {
                coordinate: self.coordinate@,
                key_position: self.key_position,
                operator: self.operator@,
                procedure: self.procedure@,
            },
            property: self.returns_set,
        }
    }
}

impl Clone for IndexExclusionConstraintOperatorProcedureScalarObservation {
    fn clone(&self) -> (c: Self)
        ensures
            c@ == self@,
    {
        IndexExclusionConstraintOperatorProcedureScalarObservation {
            coordinate: self.coordinate.clone(),
            key_position: self.key_position,
            operator: self.operator.clone(),
            procedure: self.procedure.clone(),
            returns_set: self.returns_set,
        }
    }
}

impl IndexExclusionConstraintOperatorProcedureScalarObservation {
    /// Records one exact governed operator/procedure binding and its raw `pg_proc.proretset`
    /// state; the key position is one-based.
    pub fn new(
        coordinate: IndexExclusionConstraintCoordinate,
        key_position: u32,
        operator: QualifiedOperatorSignature,
        procedure: QualifiedProcedureSignature,
        returns_set: bool,
    ) -> (r: Result<Self, ObservationError>)
        ensures
            r is Ok <==> key_position != 0,
            key_position == 0 ==> r matches Err(ObservationError::InvalidOrdinalPosition),
            r matches Ok(o) ==> o@ == (ProcedurePropertyView {
                binding: BindingView {
                    coordinate: coordinate@,
                    key_position,
                    operator: operator@,
                    procedure: procedure@,
                },
                property: returns_set,
            }),
    {
        if key_position == 0 {
            return Err(ObservationError::InvalidOrdinalPosition);
        }
        Ok(IndexExclusionConstraintOperatorProcedureScalarObservation {
            coordinate,
            key_position,
            operator,
            procedure,
            returns_set,
        })
    }

    /// Returns the exact exclusion-constraint coordinate.
    pub fn coordinate(&self) -> (c: &IndexExclusionConstraintCoordinate)
        ensures
            c@ == self@.binding.coordinate,
    {
        &self.coordinate
    }

    /// Returns the one-based exclusion-key position.
    pub fn key_position(&self) -> (p: u32)
        ensures
            p == self@.binding.key_position,
    {
        self.key_position
    }

    /// Returns the exact governed exclusion operator repeated for predecessor binding.
    pub fn operator(&self) -> (o: &QualifiedOperatorSignature)
        ensures
            o@ == self@.binding.operator,
    {
        &self.operator
    }

    /// Returns the exact `pg_operator.oprcode` procedure repeated for predecessor binding.
    pub fn procedure(&self) -> (p: &QualifiedProcedureSignature)
        ensures
            p@ == self@.binding.procedure,
    {
        &self.procedure
    }

    /// Returns raw `pg_proc.proretset`: `true` for a set-returning procedure.
    pub fn returns_set(&self) -> (c: bool)
        ensures
            c == self@.property,
    {
        self.returns_set
    }

    /// Returns the collision-safe evidence location for this scalar-procedure fact.
    pub fn canonical_location(&self) -> (s: String)
        ensures
            s@ == procedure_property_location(self@.binding.coordinate, self@.binding.key_position, "procedure-scalar"@),
    {
        proof {
            reveal_strlit("procedure-scalar");
        }
        render_procedure_property_location(&self.coordinate, self.key_position, "procedure-scalar")
    }
}

impl ProcedureBound for IndexExclusionConstraintOperatorProcedureScalarObservation {
    open spec fn binding(&self) -> BindingView {
        self@.binding
    }

    open spec fn property_frame(&self) -> Seq<u8> {
        frame_bool(self@.property)
    }

    fn binding_coordinate(&self) -> (c: &IndexExclusionConstraintCoordinate) {
        &self.coordinate
    }

    fn binding_key_position(&self) -> (p: u32) {
        self.key_position
    }

    fn binding_operator(&self) -> (o: &QualifiedOperatorSignature) {
        &self.operator
    }

    fn binding_procedure(&self) -> (p: &QualifiedProcedureSignature) {
        &self.procedure
    }

    fn put_property(&self, out: &mut Vec<u8>) {
        put_bool(out, self.returns_set);
    }
}

impl SortKey for IndexExclusionConstraintOperatorProcedureScalarObservation {
    open spec fn key_lt(self, other: Self) -> bool {
        binding_lt(self@.binding, other@.binding)
    }

    proof fn lemma_key_lt_transitive(a: Self, b: Self, c: Self) {
        crate::procedure_binding::lemma_binding_lt_transitive(a@.binding, b@.binding, c@.binding);
    }

    proof fn lemma_key_lt_irreflexive(a: Self) {
        lemma_coordinate_lt_irreflexive(constraint_key(a@.binding.coordinate));
    }

    fn compare_key(&self, other: &Self) -> (o: KeyOrder) {
        proof {
            lemma_coordinate_lt_irreflexive(constraint_key(self@.binding.coordinate));
            lemma_coordinate_lt_irreflexive(constraint_key(other@.binding.coordinate));
        }
        let by_coordinate = self.coordinate.compare(&other.coordinate);
        if by_coordinate != KeyOrder::Equal {
            return by_coordinate;
        }
        compare_u32(self.key_position, other.key_position)
    }
}

} // verus!

verus! {

/// Domain separator of the scalar-procedure digest.
pub const SCALAR_DIGEST_DOMAIN: &'static str =
    "conceptweave.postgres_schema_snapshot.v3.relation_partition.index_partition.exclusion_constraint.operator.procedure.scalar.v1";

/// Hashes scalar-procedure observations, in the order given, after the predecessor digest: each
/// entry is the framed binding followed by one byte, 1 for a set-returning procedure.
fn compute_procedure_scalar_digest(
    predecessor_digest: &str,
    observations: &[IndexExclusionConstraintOperatorProcedureScalarObservation],
) -> (d: String)
    ensures
        d@ == digest_text(bound_preimage(SCALAR_DIGEST_DOMAIN@, predecessor_digest@, observations@)),
{
    compute_bound_digest(SCALAR_DIGEST_DOMAIN, predecessor_digest, observations)
}

/// Why scalar-procedure evidence is refused, or `None` when it is issued: the operator-kind
/// evidence must be rebuilt over the operator-result bindings (its own refusal) to its issued
/// digest; then the observations must hold exactly the bindings' positions, each repeating its
/// operator and procedure; then none may return a set.
pub open spec fn scalar_refusal(
    pred: Seq<BindingView>,
    pred_digest: Seq<char>,
    kinds: Seq<IndexExclusionConstraintOperatorKindObservation>,
    kind_digest: Seq<char>,
    obs: Seq<IndexExclusionConstraintOperatorProcedureScalarObservation>,
) -> Option<Seq<char>> {
    let code = binding_refusal_code(pred, obs);
    if operator_kind_refusal(pred, kinds) is Some {
        operator_kind_refusal(pred, kinds)
    } else if digest_text(operator_kind_preimage(pred_digest, operator_kind_views(sorted_by_key(kinds)))) != kind_digest {
        Some("index_exclusion_constraint_operator_procedure_scalar_predecessor_binding"@)
    } else if code == 1 {
        Some("index_exclusion_constraint_operator_procedure_scalar_coordinate"@)
    } else if code == 2 {
        Some("index_exclusion_constraint_operator_procedure_scalar_completeness"@)
    } else if code == 3 {
        Some("index_exclusion_constraint_operator_procedure_scalar_binding"@)
    } else if exists|i: int| 0 <= i < obs.len() && (#[trigger] obs[i])@.property {
        Some("index_exclusion_constraint_operator_procedure_scalar_state"@)
    } else {
        None
    }
}

fn clone_kinds(s: &[IndexExclusionConstraintOperatorKindObservation]) -> (v: Vec<IndexExclusionConstraintOperatorKindObservation>)
    ensures
        v@ == s@,
{
    let mut v: Vec<IndexExclusionConstraintOperatorKindObservation> = Vec::new();
    let mut i: usize = 0;
    while i < s.len()
        invariant
            i <= s@.len(),
            v@ == s@.subrange(0, i as int),
        decreases s@.len() - i,
    {
        v.push(s[i].clone());
        proof {
            assert(v@ =~= s@.subrange(0, i + 1));
        }
        i = i + 1;
    }
    proof {
        assert(s@.subrange(0, s@.len() as int) =~= s@);
    }
    v
}

fn returns_any_set(obs: &[IndexExclusionConstraintOperatorProcedureScalarObservation]) -> (b: bool)
    ensures
        b == exists|i: int| 0 <= i < obs@.len() && (#[trigger] obs@[i])@.property,
{
    let mut i: usize = 0;
    while i < obs.len()
        invariant
            i <= obs@.len(),
            forall|k: int| 0 <= k < i ==> !(#[trigger] obs@[k])@.property,
        decreases obs@.len() - i,
    {
        if obs[i].returns_set() {
            return true;
        }
        i = i + 1;
    }
    false
}

/// Immutable provenance receipt for one exact procedure scalar-procedure observation.
#[derive(Debug, PartialEq, Eq)]
pub struct IndexExclusionConstraintOperatorProcedureScalarSourceReceipt {
    source_id: String,
    connection_policy_binding: String,
    source_digest: String,
    extractor_revision: String,
    observed_at_utc: String,
    location: IndexExclusionConstraintOperatorProcedureScalarObservation,
}

impl IndexExclusionConstraintOperatorProcedureScalarSourceReceipt {
    /// The provenance carried by this receipt.
    pub closed spec fn lineage(&self) -> LineageView {
        LineageView {
            source_connection_key: self.source_id@,
            connection_policy_binding: self.connection_policy_binding@,
            snapshot_digest: self.source_digest@,
            extractor_revision: self.extractor_revision@,
            observed_at_utc: self.observed_at_utc@,
        }
    }

    /// The observation covered by this receipt.
    pub closed spec fn location_view(&self) -> ProcedurePropertyView<bool> {
        self.location@
    }

    /// Returns the stable source registry key, never credential material.
    pub fn source_id(&self) -> (s: &str)
        ensures
            s@ == self.lineage().source_connection_key,
    {
        self.source_id.as_str()
    }

    /// Returns the immutable source-policy binding.
    pub fn connection_policy_binding(&self) -> (s: &str)
        ensures
            s@ == self.lineage().connection_policy_binding,
    {
        self.connection_policy_binding.as_str()
    }

    /// Returns the owner-computed procedure scalar-procedure successor digest.
    pub fn source_digest(&self) -> (s: &str)
        ensures
            s@ == self.lineage().snapshot_digest,
    {
        self.source_digest.as_str()
    }

    /// Returns the exact extractor revision inherited from the predecessor chain.
    pub fn extractor_revision(&self) -> (s: &str)
        ensures
            s@ == self.lineage().extractor_revision,
    {
        self.extractor_revision.as_str()
    }

    /// Returns the exact canonical UTC observation time inherited from the predecessor chain.
    pub fn observed_at_utc(&self) -> (s: &str)
        ensures
            s@ == self.lineage().observed_at_utc,
    {
        self.observed_at_utc.as_str()
    }

    /// Returns the exact validated procedure scalar-procedure observation.
    pub fn location(&self) -> (o: &IndexExclusionConstraintOperatorProcedureScalarObservation)
        ensures
            o@ == self.location_view(),
    {
        &self.location
    }
}

/// Complete raw `pg_proc.proretset` evidence over the operator-result bindings: every
/// (constraint, key) procedure has its bit recorded, and none returns a set.
#[derive(Debug, PartialEq, Eq)]
pub struct IndexExclusionConstraintOperatorProcedureScalarSnapshot {
    source_connection_key: String,
    connection_policy_binding: String,
    snapshot_digest: String,
    extractor_revision: String,
    observed_at_utc: String,
    observations: Vec<IndexExclusionConstraintOperatorProcedureScalarObservation>,
}

impl IndexExclusionConstraintOperatorProcedureScalarSnapshot {
    /// The provenance of this snapshot, with its own digest.
    pub closed spec fn lineage(&self) -> LineageView {
        LineageView {
            source_connection_key: self.source_connection_key@,
            connection_policy_binding: self.connection_policy_binding@,
            snapshot_digest: self.snapshot_digest@,
            extractor_revision: self.extractor_revision@,
            observed_at_utc: self.observed_at_utc@,
        }
    }

    /// The observations held, in (constraint, key) order.
    pub closed spec fn entries(&self) -> Seq<IndexExclusionConstraintOperatorProcedureScalarObservation> {
        self.observations@
    }

    /// Rebuilds the operator-kind evidence over the operator-result bindings to its issued digest
    /// and creates complete scalar-procedure evidence over those bindings: exactly their
    /// (constraint, key) positions, each repeating its operator and procedure and none returning
    /// a set.
    pub fn new(
        result_snapshot: &IssuedProcedureBindings,
        kind_snapshot: &IndexExclusionConstraintOperatorKindSnapshot,
        observations: Vec<IndexExclusionConstraintOperatorProcedureScalarObservation>,
    ) -> (r: Result<Self, ObservationError>)
        ensures
            ({
                let refusal = scalar_refusal(
                    result_snapshot.binding_views(),
                    result_snapshot.lineage().snapshot_digest,
                    kind_snapshot.entries(),
                    kind_snapshot.lineage().snapshot_digest,
                    observations@,
                );
                &&& r is Ok <==> refusal is None
                &&& refusal is Some ==> fails_with_text(r, refusal->0)
            }),
            r matches Ok(s) ==> {
                &&& s.entries() == sorted_by_key(observations@)
                &&& s.lineage() == (LineageView {
                    snapshot_digest: digest_text(
                        bound_preimage(SCALAR_DIGEST_DOMAIN@, kind_snapshot.lineage().snapshot_digest, s.entries()),
                    ),
                    ..kind_snapshot.lineage()
                })
            },
    {
        let kinds = clone_kinds(kind_snapshot.observations());
        let rebound = IndexExclusionConstraintOperatorKindSnapshot::new(result_snapshot, kinds)?;
        if !text_eq(rebound.snapshot_digest(), kind_snapshot.snapshot_digest()) {
            return Err(crate::error::invalid("index_exclusion_constraint_operator_procedure_scalar_predecessor_binding"));
        }
        proof {
            reveal_strlit("index_exclusion_constraint_operator_procedure_scalar_coordinate");
            reveal_strlit("index_exclusion_constraint_operator_procedure_scalar_completeness");
            reveal_strlit("index_exclusion_constraint_operator_procedure_scalar_binding");
            assert(sorted_by_binding::<IndexExclusionConstraintOperatorProcedureScalarObservation>());
        }
        let observations = canonicalize_bindings(
            result_snapshot.bindings(),
            observations,
            "index_exclusion_constraint_operator_procedure_scalar_coordinate",
            "index_exclusion_constraint_operator_procedure_scalar_completeness",
            "index_exclusion_constraint_operator_procedure_scalar_binding",
        )?;
        if returns_any_set(observations.as_slice()) {
            return Err(crate::error::invalid("index_exclusion_constraint_operator_procedure_scalar_state"));
        }
        let snapshot_digest = compute_procedure_scalar_digest(kind_snapshot.snapshot_digest(), observations.as_slice());
        Ok(IndexExclusionConstraintOperatorProcedureScalarSnapshot {
            source_connection_key: kind_snapshot.source_connection_key().to_owned(),
            connection_policy_binding: kind_snapshot.connection_policy_binding().to_owned(),
            snapshot_digest,
            extractor_revision: kind_snapshot.extractor_revision().to_owned(),
            observed_at_utc: kind_snapshot.observed_at_utc().to_owned(),
            observations,
        })
    }

    /// Returns the stable source-connection registry key.
    pub fn source_connection_key(&self) -> (s: &str)
        ensures
            s@ == self.lineage().source_connection_key,
    {
        self.source_connection_key.as_str()
    }

    /// Returns the immutable source-policy binding.
    pub fn connection_policy_binding(&self) -> (s: &str)
        ensures
            s@ == self.lineage().connection_policy_binding,
    {
        self.connection_policy_binding.as_str()
    }

    /// Returns the domain-separated procedure scalar-procedure successor digest.
    pub fn snapshot_digest(&self) -> (s: &str)
        ensures
            s@ == self.lineage().snapshot_digest,
    {
        self.snapshot_digest.as_str()
    }

    /// Returns the exact extractor revision inherited from the predecessor chain.
    pub fn extractor_revision(&self) -> (s: &str)
        ensures
            s@ == self.lineage().extractor_revision,
    {
        self.extractor_revision.as_str()
    }

    /// Returns the exact canonical UTC observation time inherited from the predecessor chain.
    pub fn observed_at_utc(&self) -> (s: &str)
        ensures
            s@ == self.lineage().observed_at_utc,
    {
        self.observed_at_utc.as_str()
    }

    /// Returns complete scalar-procedure observations in (constraint, key) order.
    pub fn observations(&self) -> (o: &[IndexExclusionConstraintOperatorProcedureScalarObservation])
        ensures
            o@ == self.entries(),
    {
        self.observations.as_slice()
    }

    /// Issues exact provenance for one observed exclusion-constraint procedure position.
    pub fn source_receipt(&self, coordinate: IndexExclusionConstraintCoordinate, key_position: u32) -> (r: Result<
        IndexExclusionConstraintOperatorProcedureScalarSourceReceipt,
        ObservationError,
    >)
        ensures
            r is Ok <==> bound_at(self.entries(), coordinate@, key_position) is Some,
            r matches Ok(receipt) ==> receipt.lineage() == self.lineage() && receipt.location_view() == bound_at(
                self.entries(),
                coordinate@,
                key_position,
            )->0@,
            r matches Err(e) ==> e matches ObservationError::UnknownObservationLocation { location: l } && l@
                == procedure_property_location(coordinate@, key_position, "procedure-scalar"@),
    {
        let observation = match find_bound(self.observations.as_slice(), &coordinate, key_position) {
            Some(o) => o,
            None => {
                proof {
                    reveal_strlit("procedure-scalar");
                }
                return Err(
                    ObservationError::UnknownObservationLocation {
                        location: render_procedure_property_location(&coordinate, key_position, "procedure-scalar"),
                    },
                );
            },
        };
        Ok(IndexExclusionConstraintOperatorProcedureScalarSourceReceipt {
            source_id: self.source_connection_key.clone(),
            connection_policy_binding: self.connection_policy_binding.clone(),
            source_digest: self.snapshot_digest.clone(),
            extractor_revision: self.extractor_revision.clone(),
            observed_at_utc: self.observed_at_utc.clone(),
            location: observation.clone(),
        })
    }
}

} // verus!
