//! Exclusion-constraint operator procedure parallel-safety evidence.
//!
//! `pg_proc.proparallel` is independent from procedure identity, return type, set-returning state,
//! strictness and volatility. PostgreSQL records `s`, `r` and `u` for parallel safe, restricted
//! and unsafe routines. This layer keeps that raw catalog discriminator for the exact
//! `pg_operator.oprcode` implementation procedure and imposes no parallel-safety rule of its own.

use vstd::prelude::*;

use crate::catalog::{ConstraintCoordinateView, LineageView};
use crate::digest::digest_text;
use crate::error::{fails_with_text, invalid, ObservationError};
use crate::exclusion_constraint::{constraint_key, constraint_location, IndexExclusionConstraintCoordinate};
use crate::catalog::{lemma_coordinate_lt_irreflexive};
use crate::order::{compare_u32, sorted_by_key, KeyOrder, SortKey};
use crate::procedure_binding::{ProcedurePropertyView,
    binding_lt, binding_refusal_code, bindings_of, bound_at, bound_preimage, canonicalize_bindings, compute_bound_digest,
    find_bound, sorted_by_binding, BindingView, ProcedureBound,
};
use crate::signatures::{QualifiedOperatorSignature, QualifiedProcedureSignature};
use crate::text::{decimal, push_decimal, push_text};

verus! {

/// `{constraint}/exclusion-operators/{key}/{suffix}`: the location of one procedure property.
pub open spec fn procedure_property_location(c: ConstraintCoordinateView, key_position: u32, suffix: Seq<char>) -> Seq<char> {
    constraint_location(c) + "/exclusion-operators/"@ + decimal(key_position as nat) + "/"@ + suffix
}

/// Renders the location of one procedure property.
pub fn render_procedure_property_location(c: &IndexExclusionConstraintCoordinate, key_position: u32, suffix: &str) -> (s:
    String)
    ensures
        s@ == procedure_property_location(c@, key_position, suffix@),
{
    let mut out = c.canonical_location();
    proof {
        reveal_strlit("/exclusion-operators/");
        reveal_strlit("/");
    }
    push_text(&mut out, "/exclusion-operators/");
    push_decimal(&mut out, key_position as u64);
    push_text(&mut out, "/");
    push_text(&mut out, suffix);
    out
}

/// One operator-procedure binding of the issued predecessor layer.
#[derive(Debug, PartialEq, Eq)]
pub struct OperatorProcedureBinding {
    coordinate: IndexExclusionConstraintCoordinate,
    key_position: u32,
    operator: QualifiedOperatorSignature,
    procedure: QualifiedProcedureSignature,
}

impl OperatorProcedureBinding {
    /// Records one binding of an exclusion-constraint key to its operator and procedure.
    pub fn new(
        coordinate: IndexExclusionConstraintCoordinate,
        key_position: u32,
        operator: QualifiedOperatorSignature,
        procedure: QualifiedProcedureSignature,
    ) -> (b: Self)
        ensures
            b.binding() == (BindingView {
                coordinate: coordinate@,
                key_position,
                operator: operator@,
                procedure: procedure@,
            }),
    {
        OperatorProcedureBinding { coordinate, key_position, operator, procedure }
    }
}

impl View for OperatorProcedureBinding {
    type V = BindingView;

    closed spec fn view(&self) -> BindingView {
        BindingView {
            coordinate: self.coordinate@,
            key_position: self.key_position,
            operator: self.operator@,
            procedure: self.procedure@,
        }
    }
}

impl ProcedureBound for OperatorProcedureBinding {
    open spec fn binding(&self) -> BindingView {
        self@
    }

    open spec fn property_frame(&self) -> Seq<u8> {
        Seq::empty()
    }

    fn binding_coordinate(&self) -> (c: &IndexExclusionConstraintCoordinate) {
        &self.coordinate
    }

    fn binding_key_position(&self) -> (p: u32) {
        self.key_position
    }

    fn binding_operator(&self) -> (o: &QualifiedOperatorSignature) {
        &self.operator
    }

    fn binding_procedure(&self) -> (p: &QualifiedProcedureSignature) {
        &self.procedure
    }

    fn put_property(&self, out: &mut Vec<u8>) {
        assert(old(out)@ + Seq::<u8>::empty() =~= old(out)@);
    }
}

/// An issued operator-procedure layer: its provenance, its digest and its bindings.
#[derive(Debug, PartialEq, Eq)]
pub struct IssuedProcedureBindings {
    source_connection_key: String,
    connection_policy_binding: String,
    snapshot_digest: String,
    extractor_revision: String,
    observed_at_utc: String,
    bindings: Vec<OperatorProcedureBinding>,
}

impl IssuedProcedureBindings {
    /// The provenance and digest of this layer.
    pub closed spec fn lineage(&self) -> LineageView {
        LineageView {
            source_connection_key: self.source_connection_key@,
            connection_policy_binding: self.connection_policy_binding@,
            snapshot_digest: self.snapshot_digest@,
            extractor_revision: self.extractor_revision@,
            observed_at_utc: self.observed_at_utc@,
        }
    }

    /// The bindings of this layer, in the order given.
    pub closed spec fn binding_views(&self) -> Seq<BindingView> {
        bindings_of(self.bindings@)
    }

    /// Records an issued operator-procedure layer.
    pub fn new(
        source_connection_key: &str,
        connection_policy_binding: &str,
        snapshot_digest: &str,
        extractor_revision: &str,
        observed_at_utc: &str,
        bindings: Vec<OperatorProcedureBinding>,
    ) -> (s: Self)
        ensures
            s.lineage() == (LineageView {
                source_connection_key: source_connection_key@,
                connection_policy_binding: connection_policy_binding@,
                snapshot_digest: snapshot_digest@,
                extractor_revision: extractor_revision@,
                observed_at_utc: observed_at_utc@,
            }),
            s.binding_views() == bindings_of(bindings@),
    {
        IssuedProcedureBindings {
            source_connection_key: source_connection_key.to_owned(),
            connection_policy_binding: connection_policy_binding.to_owned(),
            snapshot_digest: snapshot_digest.to_owned(),
            extractor_revision: extractor_revision.to_owned(),
            observed_at_utc: observed_at_utc.to_owned(),
            bindings,
        }
    }

    /// Returns the stable source registry key.
    pub fn source_connection_key(&self) -> (s: &str)
        ensures
            s@ == self.lineage().source_connection_key,
    {
        self.source_connection_key.as_str()
    }

    /// Returns the immutable connection-policy binding.
    pub fn connection_policy_binding(&self) -> (s: &str)
        ensures
            s@ == self.lineage().connection_policy_binding,
    {
        self.connection_policy_binding.as_str()
    }

    /// Returns the issued digest.
    pub fn snapshot_digest(&self) -> (s: &str)
        ensures
            s@ == self.lineage().snapshot_digest,
    {
        self.snapshot_digest.as_str()
    }

    /// Returns the exact extractor revision.
    pub fn extractor_revision(&self) -> (s: &str)
        ensures
            s@ == self.lineage().extractor_revision,
    {
        self.extractor_revision.as_str()
    }

    /// Returns the exact canonical observation time.
    pub fn observed_at_utc(&self) -> (s: &str)
        ensures
            s@ == self.lineage().observed_at_utc,
    {
        self.observed_at_utc.as_str()
    }

    /// Returns the bindings in the order given.
    pub fn bindings(&self) -> (b: &[OperatorProcedureBinding])
        ensures
            bindings_of(b@) == self.binding_views(),
    {
        self.bindings.as_slice()
    }
}

} // verus!

verus! {

/// The raw `pg_proc.proparallel` states: safe, restricted and unsafe.
pub open spec fn is_parallel_safety_state(c: char) -> bool {
    c == 's' || c == 'r' || c == 'u'
}

/// Raw `pg_proc.proparallel` evidence for one exact exclusion-constraint implementation procedure.
#[derive(Debug, PartialEq, Eq)]
pub struct IndexExclusionConstraintOperatorProcedureParallelSafetyObservation {
    coordinate: IndexExclusionConstraintCoordinate,
    key_position: u32,
    operator: QualifiedOperatorSignature,
    procedure: QualifiedProcedureSignature,
    parallel_safety: char,
}


impl View for IndexExclusionConstraintOperatorProcedureParallelSafetyObservation {
    type V = ProcedurePropertyView<char>;

    closed spec fn view(&self) -> ProcedurePropertyView<char> {
        ProcedurePropertyView {
            binding: BindingView {
                coordinate: self.coordinate@,
                key_position: self.key_position,
                operator: self.operator@,
                procedure: self.procedure@,
            },
            property: self.parallel_safety,
        }
    }
}

impl Clone for IndexExclusionConstraintOperatorProcedureParallelSafetyObservation {
    fn clone(&self) -> (c: Self)
        ensures
            c@ == self@,
    {
        IndexExclusionConstraintOperatorProcedureParallelSafetyObservation {
            coordinate: self.coordinate.clone(),
            key_position: self.key_position,
            operator: self.operator.clone(),
            procedure: self.procedure.clone(),
            parallel_safety: self.parallel_safety,
        }
    }
}

impl IndexExclusionConstraintOperatorProcedureParallelSafetyObservation {
    /// Records one exact governed operator/procedure binding and its raw PostgreSQL parallel-safety
    /// state; the key position is one-based and the state is `s`, `r` or `u`.
    pub fn new(
        coordinate: IndexExclusionConstraintCoordinate,
        key_position: u32,
        operator: QualifiedOperatorSignature,
        procedure: QualifiedProcedureSignature,
        parallel_safety: char,
    ) -> (r: Result<Self, ObservationError>)
        ensures
            r is Ok <==> key_position != 0 && is_parallel_safety_state(parallel_safety),
            key_position == 0 ==> r matches Err(ObservationError::InvalidOrdinalPosition),
            key_position != 0 && !is_parallel_safety_state(parallel_safety) ==> fails_with_text(
                r,
                "index_exclusion_constraint_operator_procedure_parallel_safety"@,
            ),
            r matches Ok(o) ==> o@ == (ProcedurePropertyView {
                binding: BindingView {
                    coordinate: coordinate@,
                    key_position,
                    operator: operator@,
                    procedure: procedure@,
                },
                property: parallel_safety,
            }),
    {
        if key_position == 0 {
            return Err(ObservationError::InvalidOrdinalPosition);
        }
        if !(parallel_safety == 's' || parallel_safety == 'r' || parallel_safety == 'u') {
            proof {
                reveal_strlit("index_exclusion_constraint_operator_procedure_parallel_safety");
            }
            return Err(invalid("index_exclusion_constraint_operator_procedure_parallel_safety"));
        }
        Ok(IndexExclusionConstraintOperatorProcedureParallelSafetyObservation {
            coordinate,
            key_position,
            operator,
            procedure,
            parallel_safety,
        })
    }

    /// Returns the exact exclusion-constraint coordinate.
    pub fn coordinate(&self) -> (c: &IndexExclusionConstraintCoordinate)
        ensures
            c@ == self@.binding.coordinate,
    {
        &self.coordinate
    }

    /// Returns the one-based exclusion-key position.
    pub fn key_position(&self) -> (p: u32)
        ensures
            p == self@.binding.key_position,
    {
        self.key_position
    }

    /// Returns the exact governed exclusion operator repeated for predecessor binding.
    pub fn operator(&self) -> (o: &QualifiedOperatorSignature)
        ensures
            o@ == self@.binding.operator,
    {
        &self.operator
    }

    /// Returns the exact `pg_operator.oprcode` procedure repeated for predecessor binding.
    pub fn procedure(&self) -> (p: &QualifiedProcedureSignature)
        ensures
            p@ == self@.binding.procedure,
    {
        &self.procedure
    }

    /// Returns raw `pg_proc.proparallel`: `s` safe, `r` restricted or `u` unsafe.
    pub fn parallel_safety(&self) -> (c: char)
        ensures
            c == self@.property,
    {
        self.parallel_safety
    }

    /// Returns the collision-safe evidence location for this parallel-safety fact.
    pub fn canonical_location(&self) -> (s: String)
        ensures
            s@ == procedure_property_location(self@.binding.coordinate, self@.binding.key_position, "procedure-parallel-safety"@),
    {
        proof {
            reveal_strlit("procedure-parallel-safety");
        }
        render_procedure_property_location(&self.coordinate, self.key_position, "procedure-parallel-safety")
    }
}

impl ProcedureBound for IndexExclusionConstraintOperatorProcedureParallelSafetyObservation {
    open spec fn binding(&self) -> BindingView {
        self@.binding
    }

    open spec fn property_frame(&self) -> Seq<u8> {
        seq![(self@.property as u32) as u8]
    }

    fn binding_coordinate(&self) -> (c: &IndexExclusionConstraintCoordinate) {
        &self.coordinate
    }

    fn binding_key_position(&self) -> (p: u32) {
        self.key_position
    }

    fn binding_operator(&self) -> (o: &QualifiedOperatorSignature) {
        &self.operator
    }

    fn binding_procedure(&self) -> (p: &QualifiedProcedureSignature) {
        &self.procedure
    }

    fn put_property(&self, out: &mut Vec<u8>) {
        let code: u32 = self.parallel_safety as u32;
        out.push(code as u8);
        assert(final(out)@ =~= old(out)@ + seq![(self@.property as u32) as u8]);
    }
}

impl SortKey for IndexExclusionConstraintOperatorProcedureParallelSafetyObservation {
    open spec fn key_lt(self, other: Self) -> bool {
        binding_lt(self@.binding, other@.binding)
    }

    proof fn lemma_key_lt_transitive(a: Self, b: Self, c: Self) {
        crate::procedure_binding::lemma_binding_lt_transitive(a@.binding, b@.binding, c@.binding);
    }

    proof fn lemma_key_lt_irreflexive(a: Self) {
        lemma_coordinate_lt_irreflexive(constraint_key(a@.binding.coordinate));
    }

    fn compare_key(&self, other: &Self) -> (o: KeyOrder) {
        proof {
            lemma_coordinate_lt_irreflexive(constraint_key(self@.binding.coordinate));
            lemma_coordinate_lt_irreflexive(constraint_key(other@.binding.coordinate));
        }
        let by_coordinate = self.coordinate.compare(&other.coordinate);
        if by_coordinate != KeyOrder::Equal {
            return by_coordinate;
        }
        compare_u32(self.key_position, other.key_position)
    }
}

} // verus!

verus! {

/// Domain separator of the procedure parallel-safety digest.
pub const PARALLEL_SAFETY_DIGEST_DOMAIN: &'static str =
    "conceptweave.postgres_schema_snapshot.v3.relation_partition.index_partition.exclusion_constraint.operator.procedure.parallel_safety.v1";

/// Hashes parallel-safety observations, in the order given, after the predecessor digest: each
/// entry is the framed binding followed by the raw state byte.
pub fn compute_procedure_parallel_safety_digest(
    predecessor_digest: &str,
    observations: &[IndexExclusionConstraintOperatorProcedureParallelSafetyObservation],
) -> (d: String)
    ensures
        d@ == digest_text(bound_preimage(PARALLEL_SAFETY_DIGEST_DOMAIN@, predecessor_digest@, observations@)),
{
    compute_bound_digest(PARALLEL_SAFETY_DIGEST_DOMAIN, predecessor_digest, observations)
}

/// Immutable provenance receipt for one exact procedure parallel-safety observation.
#[derive(Debug, PartialEq, Eq)]
pub struct IndexExclusionConstraintOperatorProcedureParallelSafetySourceReceipt {
    source_id: String,
    connection_policy_binding: String,
    source_digest: String,
    extractor_revision: String,
    observed_at_utc: String,
    location: IndexExclusionConstraintOperatorProcedureParallelSafetyObservation,
}

impl IndexExclusionConstraintOperatorProcedureParallelSafetySourceReceipt {
    /// The provenance carried by this receipt.
    pub closed spec fn lineage(&self) -> LineageView {
        LineageView {
            source_connection_key: self.source_id@,
            connection_policy_binding: self.connection_policy_binding@,
            snapshot_digest: self.source_digest@,
            extractor_revision: self.extractor_revision@,
            observed_at_utc: self.observed_at_utc@,
        }
    }

    /// The observation covered by this receipt.
    pub closed spec fn location_view(&self) -> ProcedurePropertyView<char> {
        self.location@
    }

    /// Returns the stable source registry key, never credential material.
    pub fn source_id(&self) -> (s: &str)
        ensures
            s@ == self.lineage().source_connection_key,
    {
        self.source_id.as_str()
    }

    /// Returns the immutable source-policy binding.
    pub fn connection_policy_binding(&self) -> (s: &str)
        ensures
            s@ == self.lineage().connection_policy_binding,
    {
        self.connection_policy_binding.as_str()
    }

    /// Returns the owner-computed procedure parallel-safety successor digest.
    pub fn source_digest(&self) -> (s: &str)
        ensures
            s@ == self.lineage().snapshot_digest,
    {
        self.source_digest.as_str()
    }

    /// Returns the exact extractor revision inherited from the predecessor chain.
    pub fn extractor_revision(&self) -> (s: &str)
        ensures
            s@ == self.lineage().extractor_revision,
    {
        self.extractor_revision.as_str()
    }

    /// Returns the exact canonical UTC observation time inherited from the predecessor chain.
    pub fn observed_at_utc(&self) -> (s: &str)
        ensures
            s@ == self.lineage().observed_at_utc,
    {
        self.observed_at_utc.as_str()
    }

    /// Returns the exact validated procedure parallel-safety observation.
    pub fn location(&self) -> (o: &IndexExclusionConstraintOperatorProcedureParallelSafetyObservation)
        ensures
            o@ == self.location_view(),
    {
        &self.location
    }
}

/// Complete raw `pg_proc.proparallel` evidence over one issued operator-procedure layer.
///
/// This layer is observational: it keeps all three PostgreSQL states, because parallel safety
/// changes planner and execution behavior, and requires no particular state.
#[derive(Debug, PartialEq, Eq)]
pub struct IndexExclusionConstraintOperatorProcedureParallelSafetySnapshot {
    source_connection_key: String,
    connection_policy_binding: String,
    snapshot_digest: String,
    extractor_revision: String,
    observed_at_utc: String,
    observations: Vec<IndexExclusionConstraintOperatorProcedureParallelSafetyObservation>,
}

impl IndexExclusionConstraintOperatorProcedureParallelSafetySnapshot {
    /// The provenance of this snapshot, with its own digest.
    pub closed spec fn lineage(&self) -> LineageView {
        LineageView {
            source_connection_key: self.source_connection_key@,
            connection_policy_binding: self.connection_policy_binding@,
            snapshot_digest: self.snapshot_digest@,
            extractor_revision: self.extractor_revision@,
            observed_at_utc: self.observed_at_utc@,
        }
    }

    /// The observations held, in (constraint, key) order.
    pub closed spec fn entries(&self) -> Seq<IndexExclusionConstraintOperatorProcedureParallelSafetyObservation> {
        self.observations@
    }

    /// Creates complete procedure parallel-safety evidence over one issued operator-procedure
    /// layer: exactly its (constraint, key) positions, each repeating its operator and procedure.
    pub fn new(
        volatility_snapshot: &IssuedProcedureBindings,
        observations: Vec<IndexExclusionConstraintOperatorProcedureParallelSafetyObservation>,
    ) -> (r: Result<Self, ObservationError>)
        ensures
            ({
                let code = binding_refusal_code(volatility_snapshot.binding_views(), observations@);
                &&& r is Ok <==> code == 0
                &&& code == 1 ==> fails_with_text(r, "index_exclusion_constraint_operator_procedure_parallel_safety_coordinate"@)
                &&& code == 2 ==> fails_with_text(r, "index_exclusion_constraint_operator_procedure_parallel_safety_completeness"@)
                &&& code == 3 ==> fails_with_text(r, "index_exclusion_constraint_operator_procedure_parallel_safety_binding"@)
            }),
            r matches Ok(s) ==> {
                &&& s.entries() == sorted_by_key(observations@)
                &&& s.lineage() == (LineageView {
                    snapshot_digest: digest_text(
                        bound_preimage(PARALLEL_SAFETY_DIGEST_DOMAIN@, volatility_snapshot.lineage().snapshot_digest, s.entries()),
                    ),
                    ..volatility_snapshot.lineage()
                })
            },
    {
        proof {
            reveal_strlit("index_exclusion_constraint_operator_procedure_parallel_safety_coordinate");
            reveal_strlit("index_exclusion_constraint_operator_procedure_parallel_safety_completeness");
            reveal_strlit("index_exclusion_constraint_operator_procedure_parallel_safety_binding");
            assert(sorted_by_binding::<IndexExclusionConstraintOperatorProcedureParallelSafetyObservation>());
        }
        let observations = canonicalize_bindings(
            volatility_snapshot.bindings(),
            observations,
            "index_exclusion_constraint_operator_procedure_parallel_safety_coordinate",
            "index_exclusion_constraint_operator_procedure_parallel_safety_completeness",
            "index_exclusion_constraint_operator_procedure_parallel_safety_binding",
        )?;
        let snapshot_digest = compute_procedure_parallel_safety_digest(
            volatility_snapshot.snapshot_digest(),
            observations.as_slice(),
        );
        Ok(IndexExclusionConstraintOperatorProcedureParallelSafetySnapshot {
            source_connection_key: volatility_snapshot.source_connection_key().to_owned(),
            connection_policy_binding: volatility_snapshot.connection_policy_binding().to_owned(),
            snapshot_digest,
            extractor_revision: volatility_snapshot.extractor_revision().to_owned(),
            observed_at_utc: volatility_snapshot.observed_at_utc().to_owned(),
            observations,
        })
    }

    /// Returns the stable source-connection registry key.
    pub fn source_connection_key(&self) -> (s: &str)
        ensures
            s@ == self.lineage().source_connection_key,
    {
        self.source_connection_key.as_str()
    }

    /// Returns the immutable source-policy binding.
    pub fn connection_policy_binding(&self) -> (s: &str)
        ensures
            s@ == self.lineage().connection_policy_binding,
    {
        self.connection_policy_binding.as_str()
    }

    /// Returns the domain-separated procedure parallel-safety successor digest.
    pub fn snapshot_digest(&self) -> (s: &str)
        ensures
            s@ == self.lineage().snapshot_digest,
    {
        self.snapshot_digest.as_str()
    }

    /// Returns the exact extractor revision inherited from the predecessor chain.
    pub fn extractor_revision(&self) -> (s: &str)
        ensures
            s@ == self.lineage().extractor_revision,
    {
        self.extractor_revision.as_str()
    }

    /// Returns the exact canonical UTC observation time inherited from the predecessor chain.
    pub fn observed_at_utc(&self) -> (s: &str)
        ensures
            s@ == self.lineage().observed_at_utc,
    {
        self.observed_at_utc.as_str()
    }

    /// Returns complete parallel-safety observations in (constraint, key) order.
    pub fn observations(&self) -> (o: &[IndexExclusionConstraintOperatorProcedureParallelSafetyObservation])
        ensures
            o@ == self.entries(),
    {
        self.observations.as_slice()
    }

    /// Issues exact provenance for one observed exclusion-constraint procedure position.
    pub fn source_receipt(&self, coordinate: IndexExclusionConstraintCoordinate, key_position: u32) -> (r: Result<
        IndexExclusionConstraintOperatorProcedureParallelSafetySourceReceipt,
        ObservationError,
    >)
        ensures
            r is Ok <==> bound_at(self.entries(), coordinate@, key_position) is Some,
            r matches Ok(receipt) ==> receipt.lineage() == self.lineage() && receipt.location_view() == bound_at(
                self.entries(),
                coordinate@,
                key_position,
            )->0@,
            r matches Err(e) ==> e matches ObservationError::UnknownObservationLocation { location: l } && l@
                == procedure_property_location(coordinate@, key_position, "procedure-parallel-safety"@),
    {
        let observation = match find_bound(self.observations.as_slice(), &coordinate, key_position) {
            Some(o) => o,
            None => {
                proof {
                    reveal_strlit("procedure-parallel-safety");
                }
                return Err(
                    ObservationError::UnknownObservationLocation {
                        location: render_procedure_property_location(&coordinate, key_position, "procedure-parallel-safety"),
                    },
                );
            },
        };
        Ok(IndexExclusionConstraintOperatorProcedureParallelSafetySourceReceipt {
            source_id: self.source_connection_key.clone(),
            connection_policy_binding: self.connection_policy_binding.clone(),
            source_digest: self.snapshot_digest.clone(),
            extractor_revision: self.extractor_revision.clone(),
            observed_at_utc: self.observed_at_utc.clone(),
            location: observation.clone(),
        })
    }
}

} // verus!

verus! {

/// The three PostgreSQL parallel-safety states never share a digest preimage: under one
/// predecessor digest, two single observations with the same binding and different states have
/// different preimages.
pub proof fn lemma_parallel_safety_states_separate(
    predecessor_digest: Seq<char>,
    a: IndexExclusionConstraintOperatorProcedureParallelSafetyObservation,
    b: IndexExclusionConstraintOperatorProcedureParallelSafetyObservation,
)
    requires
        a@.binding == b@.binding,
        is_parallel_safety_state(a@.property),
        is_parallel_safety_state(b@.property),
        a@.property != b@.property,
    ensures
        bound_preimage(PARALLEL_SAFETY_DIGEST_DOMAIN@, predecessor_digest, seq![a]) != bound_preimage(
            PARALLEL_SAFETY_DIGEST_DOMAIN@,
            predecessor_digest,
            seq![b],
        ),
{
    assert(a.property_frame()[0] != b.property_frame()[0]);
    crate::procedure_binding::lemma_bound_properties_separate(PARALLEL_SAFETY_DIGEST_DOMAIN@, predecessor_digest, a, b);
}

} // verus!
