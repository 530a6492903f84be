//! Exclusion-constraint operator implementation-function planner-support evidence.
//!
//! `pg_proc.prosupport` names a planner-support function that can change how the planner treats
//! calls of the implementation function without changing its signature. This layer keeps, for the
//! `pg_operator.oprcode` function of every exclusion key, either the absence of support or the
//! exact independently resolved support function, which takes a single `pg_catalog.internal`
//! argument as PostgreSQL requires.

use vstd::prelude::*;

use crate::catalog::{lemma_coordinate_lt_irreflexive, LineageView};
use crate::digest::digest_text;
use crate::error::{fails_with_text, ObservationError};
use crate::exclusion_constraint::{constraint_key, IndexExclusionConstraintCoordinate};
use crate::order::{compare_u32, sorted_by_key, KeyOrder, SortKey};
use crate::procedure_binding::{
    binding_lt, binding_refusal_code, bindings_of, bound_at, bound_preimage, canonicalize_bindings, compute_bound_digest,
    find_bound, sorted_by_binding, BindingView, ProcedureBound, ProcedurePropertyView,
};
use crate::procedure_parallel_safety::{procedure_property_location, render_procedure_property_location};
use crate::signatures::{QualifiedOperatorSignature, QualifiedProcedureSignature};
use crate::digest::put_tag;
use crate::error::{fails_with, invalid};
use crate::exclusion::{frame_procedure, put_procedure};
use crate::procedure_access_control::IndexExclusionConstraintOperatorProcedureAccessControlSnapshot;
use crate::signatures::ProcedureView;
use crate::catalog::QualifiedNameView;
use crate::order::text_eq;

verus! {

/// The view of an optional procedure signature.
pub open spec fn optional_procedure_view(p: Option<QualifiedProcedureSignature>) -> Option<ProcedureView> {
    match p {
        Some(s) => Some(s@),
        None => None,
    }
}

/// No support function, or one that takes exactly one `pg_catalog.internal` argument.
pub open spec fn planner_support_signature_admitted(p: Option<ProcedureView>) -> bool {
    match p {
        None => true,
        Some(s) => s.argument_types.len() == 1 && s.argument_types[0] == (QualifiedNameView {
            schema_name: "pg_catalog"@,
            name: "internal"@,
        }),
    }
}

/// An absent support function is the byte 0; a present one is the byte 1 and its framing.
pub open spec fn frame_planner_support(p: Option<ProcedureView>) -> Seq<u8> {
    match p {
        None => seq![0u8],
        Some(s) => seq![1u8] + frame_procedure(s),
    }
}

fn takes_only_internal(support: &QualifiedProcedureSignature) -> (b: bool)
    ensures
        b == planner_support_signature_admitted(Some(support@)),
{
    let arguments = support.argument_types();
    proof {
        assert(crate::signatures::type_views(arguments@).len() == arguments@.len());
    }
    if arguments.len() != 1 {
        return false;
    }
    let argument = &arguments[0];
    proof {
        assert(crate::signatures::type_views(arguments@)[0] == argument@);
    }
    text_eq(argument.schema_name(), "pg_catalog") && text_eq(argument.name(), "internal")
}

fn clone_optional_procedure(p: &Option<QualifiedProcedureSignature>) -> (c: Option<QualifiedProcedureSignature>)
    ensures
        optional_procedure_view(c) == optional_procedure_view(*p),
{
    match p {
        Some(s) => Some(s.clone()),
        None => None,
    }
}

} // verus!

verus! {

/// Exact `pg_proc.prosupport` state for one exclusion-constraint implementation function.
#[derive(Debug, PartialEq, Eq)]
pub struct IndexExclusionConstraintOperatorProcedurePlannerSupportObservation {
    coordinate: IndexExclusionConstraintCoordinate,
    key_position: u32,
    operator: QualifiedOperatorSignature,
    procedure: QualifiedProcedureSignature,
    planner_support: Option<QualifiedProcedureSignature>,
}

impl View for IndexExclusionConstraintOperatorProcedurePlannerSupportObservation {
    type V = ProcedurePropertyView<Option<ProcedureView>>;

    closed spec fn view(&self) -> ProcedurePropertyView<Option<ProcedureView>> {
        ProcedurePropertyView {
            binding: BindingView {
                coordinate: self.coordinate@,
                key_position: self.key_position,
                operator: self.operator@,
                procedure: self.procedure@,
            },
            property: optional_procedure_view(self.planner_support),
        }
    }
}

impl Clone for IndexExclusionConstraintOperatorProcedurePlannerSupportObservation {
    fn clone(&self) -> (c: Self)
        ensures
            c@ == self@,
    {
        IndexExclusionConstraintOperatorProcedurePlannerSupportObservation {
            coordinate: self.coordinate.clone(),
            key_position: self.key_position,
            operator: self.operator.clone(),
            procedure: self.procedure.clone(),
            planner_support: clone_optional_procedure(&self.planner_support),
        }
    }
}

impl IndexExclusionConstraintOperatorProcedurePlannerSupportObservation {
    /// Records the absence of planner support or the exactly resolved support function; the key
    /// position is one-based and a support function takes a single `pg_catalog.internal`.
    pub fn new(
        coordinate: IndexExclusionConstraintCoordinate,
        key_position: u32,
        operator: QualifiedOperatorSignature,
        procedure: QualifiedProcedureSignature,
        planner_support: Option<QualifiedProcedureSignature>,
    ) -> (r: Result<Self, ObservationError>)
        ensures
            r is Ok <==> key_position != 0 && planner_support_signature_admitted(optional_procedure_view(planner_support)),
            key_position == 0 ==> r matches Err(ObservationError::InvalidOrdinalPosition),
            key_position != 0 && !planner_support_signature_admitted(optional_procedure_view(planner_support))
                ==> fails_with(r, "exclusion_planner_support_signature"),
            r matches Ok(o) ==> o@ == (ProcedurePropertyView {
                binding: BindingView {
                    coordinate: coordinate@,
                    key_position,
                    operator: operator@,
                    procedure: procedure@,
                },
                property: optional_procedure_view(planner_support),
            }),
    {
        if key_position == 0 {
            return Err(ObservationError::InvalidOrdinalPosition);
        }
        let admitted = match &planner_support {
            None => true,
            Some(support) => takes_only_internal(support),
        };
        if !admitted {
            return Err(invalid("exclusion_planner_support_signature"));
        }
        Ok(IndexExclusionConstraintOperatorProcedurePlannerSupportObservation { coordinate, key_position, operator, procedure, planner_support })
    }

    /// Returns the exact exclusion-constraint coordinate.
    pub fn coordinate(&self) -> (c: &IndexExclusionConstraintCoordinate)
        ensures
            c@ == self@.binding.coordinate,
    {
        &self.coordinate
    }

    /// Returns the one-based exclusion-key position.
    pub fn key_position(&self) -> (p: u32)
        ensures
            p == self@.binding.key_position,
    {
        self.key_position
    }

    /// Returns the exact governed exclusion operator repeated for predecessor binding.
    pub fn operator(&self) -> (o: &QualifiedOperatorSignature)
        ensures
            o@ == self@.binding.operator,
    {
        &self.operator
    }

    /// Returns the exact `pg_operator.oprcode` function repeated for predecessor binding.
    pub fn procedure(&self) -> (p: &QualifiedProcedureSignature)
        ensures
            p@ == self@.binding.procedure,
    {
        &self.procedure
    }

    /// Returns the exact planner-support function, or `None` for `prosupport = 0`.
    pub fn planner_support(&self) -> (p: Option<&QualifiedProcedureSignature>)
        ensures
            match p {
                Some(s) => self@.property == Some(s@),
                None => self@.property is None,
            },
    {
        match &self.planner_support {
            Some(s) => Some(s),
            None => None,
        }
    }

    /// Returns the collision-safe evidence location for this planner-support fact.
    pub fn canonical_location(&self) -> (s: String)
        ensures
            s@ == procedure_property_location(self@.binding.coordinate, self@.binding.key_position, "procedure-planner-support"@),
    {
        proof {
            reveal_strlit("procedure-planner-support");
        }
        render_procedure_property_location(&self.coordinate, self.key_position, "procedure-planner-support")
    }
}

impl ProcedureBound for IndexExclusionConstraintOperatorProcedurePlannerSupportObservation {
    open spec fn binding(&self) -> BindingView {
        self@.binding
    }

    open spec fn property_frame(&self) -> Seq<u8> {
        frame_planner_support(self@.property)
    }

    fn binding_coordinate(&self) -> (c: &IndexExclusionConstraintCoordinate) {
        &self.coordinate
    }

    fn binding_key_position(&self) -> (p: u32) {
        self.key_position
    }

    fn binding_operator(&self) -> (o: &QualifiedOperatorSignature) {
        &self.operator
    }

    fn binding_procedure(&self) -> (p: &QualifiedProcedureSignature) {
        &self.procedure
    }

    fn put_property(&self, out: &mut Vec<u8>) {
        let ghost s0 = out@;
        match &self.planner_support {
            None => {
                put_tag(out, 0);
                assert(out@ =~= s0 + seq![0u8]);
            },
            Some(p) => {
                put_tag(out, 1);
                put_procedure(out, p);
                assert(out@ =~= s0 + (seq![1u8] + frame_procedure(p@)));
            },
        }
    }
}

impl SortKey for IndexExclusionConstraintOperatorProcedurePlannerSupportObservation {
    open spec fn key_lt(self, other: Self) -> bool {
        binding_lt(self@.binding, other@.binding)
    }

    proof fn lemma_key_lt_transitive(a: Self, b: Self, c: Self) {
        crate::procedure_binding::lemma_binding_lt_transitive(a@.binding, b@.binding, c@.binding);
    }

    proof fn lemma_key_lt_irreflexive(a: Self) {
        lemma_coordinate_lt_irreflexive(constraint_key(a@.binding.coordinate));
    }

    fn compare_key(&self, other: &Self) -> (o: KeyOrder) {
        proof {
            lemma_coordinate_lt_irreflexive(constraint_key(self@.binding.coordinate));
            lemma_coordinate_lt_irreflexive(constraint_key(other@.binding.coordinate));
        }
        let by_coordinate = self.coordinate.compare(&other.coordinate);
        if by_coordinate != KeyOrder::Equal {
            return by_coordinate;
        }
        compare_u32(self.key_position, other.key_position)
    }
}

/// Domain separator of the procedure planner-support digest.
pub const PLANNER_SUPPORT_DIGEST_DOMAIN: &'static str =
    "conceptweave.postgres_schema_snapshot.v3.relation_partition.index_partition.exclusion_constraint.operator.procedure.planner_support.v1";

/// Hashes planner-support observations, in the order given, after the predecessor digest: each
/// entry is the framed binding followed by 0, or 1 and the framed support function.
fn compute_procedure_planner_support_digest(predecessor_digest: &str, observations: &[IndexExclusionConstraintOperatorProcedurePlannerSupportObservation]) -> (d: String)
    ensures
        d@ == digest_text(bound_preimage(PLANNER_SUPPORT_DIGEST_DOMAIN@, predecessor_digest@, observations@)),
{
    compute_bound_digest(PLANNER_SUPPORT_DIGEST_DOMAIN, predecessor_digest, observations)
}

/// Immutable provenance receipt for one exact procedure planner-support observation.
#[derive(Debug, PartialEq, Eq)]
pub struct IndexExclusionConstraintOperatorProcedurePlannerSupportSourceReceipt {
    source_id: String,
    connection_policy_binding: String,
    source_digest: String,
    extractor_revision: String,
    observed_at_utc: String,
    location: IndexExclusionConstraintOperatorProcedurePlannerSupportObservation,
}

impl IndexExclusionConstraintOperatorProcedurePlannerSupportSourceReceipt {
    /// The provenance carried by this receipt.
    pub closed spec fn lineage(&self) -> LineageView {
        LineageView {
            source_connection_key: self.source_id@,
            connection_policy_binding: self.connection_policy_binding@,
            snapshot_digest: self.source_digest@,
            extractor_revision: self.extractor_revision@,
            observed_at_utc: self.observed_at_utc@,
        }
    }

    /// The observation covered by this receipt.
    pub closed spec fn location_view(&self) -> ProcedurePropertyView<Option<ProcedureView>> {
        self.location@
    }

    /// Returns the stable source registry key, never credential material.
    pub fn source_id(&self) -> (s: &str)
        ensures
            s@ == self.lineage().source_connection_key,
    {
        self.source_id.as_str()
    }

    /// Returns the immutable source-policy binding.
    pub fn connection_policy_binding(&self) -> (s: &str)
        ensures
            s@ == self.lineage().connection_policy_binding,
    {
        self.connection_policy_binding.as_str()
    }

    /// Returns the owner-computed procedure planner-support successor digest.
    pub fn source_digest(&self) -> (s: &str)
        ensures
            s@ == self.lineage().snapshot_digest,
    {
        self.source_digest.as_str()
    }

    /// Returns the exact extractor revision inherited from the predecessor chain.
    pub fn extractor_revision(&self) -> (s: &str)
        ensures
            s@ == self.lineage().extractor_revision,
    {
        self.extractor_revision.as_str()
    }

    /// Returns the exact canonical UTC observation time inherited from the predecessor chain.
    pub fn observed_at_utc(&self) -> (s: &str)
        ensures
            s@ == self.lineage().observed_at_utc,
    {
        self.observed_at_utc.as_str()
    }

    /// Returns the exact validated procedure planner-support observation.
    pub fn location(&self) -> (o: &IndexExclusionConstraintOperatorProcedurePlannerSupportObservation)
        ensures
            o@ == self.location_view(),
    {
        &self.location
    }
}

/// Complete implementation-function planner-support evidence over exact access-control evidence:
/// exactly its (constraint, key) positions, each repeating its operator and procedure.
#[derive(Debug, PartialEq, Eq)]
pub struct IndexExclusionConstraintOperatorProcedurePlannerSupportSnapshot {
    source_connection_key: String,
    connection_policy_binding: String,
    snapshot_digest: String,
    extractor_revision: String,
    observed_at_utc: String,
    observations: Vec<IndexExclusionConstraintOperatorProcedurePlannerSupportObservation>,
}

impl IndexExclusionConstraintOperatorProcedurePlannerSupportSnapshot {
    /// The provenance of this snapshot, with its own digest.
    pub closed spec fn lineage(&self) -> LineageView {
        LineageView {
            source_connection_key: self.source_connection_key@,
            connection_policy_binding: self.connection_policy_binding@,
            snapshot_digest: self.snapshot_digest@,
            extractor_revision: self.extractor_revision@,
            observed_at_utc: self.observed_at_utc@,
        }
    }

    /// The observations held, in (constraint, key) order.
    pub closed spec fn entries(&self) -> Seq<IndexExclusionConstraintOperatorProcedurePlannerSupportObservation> {
        self.observations@
    }

    /// Creates complete planner-support evidence over exact access-control evidence.
    pub fn new(
        access_control_snapshot: &IndexExclusionConstraintOperatorProcedureAccessControlSnapshot,
        observations: Vec<IndexExclusionConstraintOperatorProcedurePlannerSupportObservation>,
    ) -> (r: Result<Self, ObservationError>)
        ensures
            ({
                let code = binding_refusal_code(bindings_of(access_control_snapshot.entries()), observations@);
                &&& r is Ok <==> code == 0
                &&& code == 1 ==> fails_with_text(r, "index_exclusion_constraint_operator_procedure_planner_support_coordinate"@)
                &&& code == 2 ==> fails_with_text(r, "index_exclusion_constraint_operator_procedure_planner_support_completeness"@)
                &&& code == 3 ==> fails_with_text(r, "index_exclusion_constraint_operator_procedure_planner_support_binding"@)
            }),
            r matches Ok(s) ==> {
                &&& s.entries() == sorted_by_key(observations@)
                &&& s.lineage() == (LineageView {
                    snapshot_digest: digest_text(
                        bound_preimage(PLANNER_SUPPORT_DIGEST_DOMAIN@, access_control_snapshot.lineage().snapshot_digest, s.entries()),
                    ),
                    ..access_control_snapshot.lineage()
                })
            },
    {
        proof {
            assert(sorted_by_binding::<IndexExclusionConstraintOperatorProcedurePlannerSupportObservation>());
        }
        let observations = canonicalize_bindings(
            access_control_snapshot.observations(),
            observations,
            "index_exclusion_constraint_operator_procedure_planner_support_coordinate",
            "index_exclusion_constraint_operator_procedure_planner_support_completeness",
            "index_exclusion_constraint_operator_procedure_planner_support_binding",
        )?;
        let snapshot_digest = compute_procedure_planner_support_digest(access_control_snapshot.snapshot_digest(), observations.as_slice());
        Ok(IndexExclusionConstraintOperatorProcedurePlannerSupportSnapshot {
            source_connection_key: access_control_snapshot.source_connection_key().to_owned(),
            connection_policy_binding: access_control_snapshot.connection_policy_binding().to_owned(),
            snapshot_digest,
            extractor_revision: access_control_snapshot.extractor_revision().to_owned(),
            observed_at_utc: access_control_snapshot.observed_at_utc().to_owned(),
            observations,
        })
    }

    /// Returns the stable source-connection registry key.
    pub fn source_connection_key(&self) -> (s: &str)
        ensures
            s@ == self.lineage().source_connection_key,
    {
        self.source_connection_key.as_str()
    }

    /// Returns the immutable source-policy binding.
    pub fn connection_policy_binding(&self) -> (s: &str)
        ensures
            s@ == self.lineage().connection_policy_binding,
    {
        self.connection_policy_binding.as_str()
    }

    /// Returns the domain-separated procedure planner-support successor digest.
    pub fn snapshot_digest(&self) -> (s: &str)
        ensures
            s@ == self.lineage().snapshot_digest,
    {
        self.snapshot_digest.as_str()
    }

    /// Returns the exact extractor revision inherited from the predecessor chain.
    pub fn extractor_revision(&self) -> (s: &str)
        ensures
            s@ == self.lineage().extractor_revision,
    {
        self.extractor_revision.as_str()
    }

    /// Returns the exact canonical UTC observation time inherited from the predecessor chain.
    pub fn observed_at_utc(&self) -> (s: &str)
        ensures
            s@ == self.lineage().observed_at_utc,
    {
        self.observed_at_utc.as_str()
    }

    /// Returns complete planner-support observations in (constraint, key) order.
    pub fn observations(&self) -> (o: &[IndexExclusionConstraintOperatorProcedurePlannerSupportObservation])
        ensures
            o@ == self.entries(),
    {
        self.observations.as_slice()
    }

    /// Issues exact provenance for one observed exclusion-constraint procedure position.
    pub fn source_receipt(&self, coordinate: IndexExclusionConstraintCoordinate, key_position: u32) -> (r: Result<
        IndexExclusionConstraintOperatorProcedurePlannerSupportSourceReceipt,
        ObservationError,
    >)
        ensures
            r is Ok <==> bound_at(self.entries(), coordinate@, key_position) is Some,
            r matches Ok(receipt) ==> receipt.lineage() == self.lineage() && receipt.location_view() == bound_at(
                self.entries(),
                coordinate@,
                key_position,
            )->0@,
            r matches Err(e) ==> e matches ObservationError::UnknownObservationLocation { location: l } && l@
                == procedure_property_location(coordinate@, key_position, "procedure-planner-support"@),
    {
        let observation = match find_bound(self.observations.as_slice(), &coordinate, key_position) {
            Some(o) => o,
            None => {
                proof {
                    reveal_strlit("procedure-planner-support");
                }
                return Err(
                    ObservationError::UnknownObservationLocation {
                        location: render_procedure_property_location(&coordinate, key_position, "procedure-planner-support"),
                    },
                );
            },
        };
        Ok(IndexExclusionConstraintOperatorProcedurePlannerSupportSourceReceipt {
            source_id: self.source_connection_key.clone(),
            connection_policy_binding: self.connection_policy_binding.clone(),
            source_digest: self.snapshot_digest.clone(),
            extractor_revision: self.extractor_revision.clone(),
            observed_at_utc: self.observed_at_utc.clone(),
            location: observation.clone(),
        })
    }
}

} // verus!
