//! Composed PostgreSQL 18 equality proof for trees that hold relation `Var` leaves.
//!
//! Schema v1 proves the modeled non-`Var` node fields but admits incomplete `Var` leaves; the
//! relation-`Var` evidence proves those leaves. This successor binds both exact proofs under one
//! domain-separated digest without redefining either.

use vstd::prelude::*;

use crate::catalog::{
    BaseColumnCollation, BaseRelation, BaseRelationView, ColumnFactView, IndexPartitionEvidence, IssuedSnapshot,
    IssuedTypeModifiers, LineageView, MembershipView, QualifiedNameView,
};
use crate::exclusion::{IndexExclusionSemanticsSnapshot, IndexKeyExclusionSemanticsObservation};
use crate::expression_var::IndexExpressionRelationVarObservation;
use crate::relation_var_snapshot::{
    collation_views, relation_var_preimage, relation_var_refusal, relation_var_refused_as, var_views,
    IndexExpressionRelationVarSnapshot, RelationVarRefusal,
};
use crate::digest::{digest_text, finish_digest, frame_str, put_raw, put_str};
use crate::error::{invalid, ObservationError};
use crate::expression_schema::{
    node_schema_preimage, trees_schema_v1, IndexExpressionNodeSchemaSnapshot, NODE_SCHEMA_DIGEST_DOMAIN_V1,
    NODE_SCHEMA_FIELD, NODE_SCHEMA_REVISION_V1,
};
use crate::expression_semantics_snapshot::{
    expression_rebinding_refusal, IndexExpressionSemanticsSnapshot, RELATION_VAR_EXPRESSION_FIELD,
};
use crate::order::text_eq;
use vstd::utf8::encode_utf8;

verus! {

/// Domain separator of the composed node-schema and relation-`Var` digest.
pub const COMPOSED_SCHEMA_DIGEST_DOMAIN: &'static str =
    "conceptweave.postgres_schema_snapshot.v3.relation_partition.index_partition.operator_family.exclusion.expression_semantics.relation_var.node_schema.v1";

/// Revision of the composed proof family.
pub const COMPOSED_SCHEMA_REVISION: &'static str = "postgresql-18-equal-node-schema-plus-relation-var-v1";

/// Field reported when the node-schema predecessor does not rebind.
pub const COMPOSED_NODE_SCHEMA_FIELD: &'static str = "index_expression_relation_var_node_schema_predecessor";

/// Field reported when the two predecessors disagree in provenance.
pub const COMPOSED_PROVENANCE_FIELD: &'static str = "index_expression_relation_var_node_schema_provenance";

/// The preimage of the composed digest.
pub open spec fn composed_schema_preimage(node_schema_digest: Seq<char>, relation_var_digest: Seq<char>) -> Seq<u8> {
    encode_utf8(COMPOSED_SCHEMA_DIGEST_DOMAIN@) + frame_str(COMPOSED_SCHEMA_REVISION@) + frame_str(node_schema_digest)
        + frame_str(relation_var_digest)
}

/// Two lineages agree on source, policy, extractor and observation time.
pub open spec fn same_provenance(a: LineageView, b: LineageView) -> bool {
    &&& a.source_connection_key == b.source_connection_key
    &&& a.connection_policy_binding == b.connection_policy_binding
    &&& a.extractor_revision == b.extractor_revision
    &&& a.observed_at_utc == b.observed_at_utc
}

/// Field reported when the relation-`Var` predecessor does not rebind.
pub const RELATION_VAR_PREDECESSOR_FIELD: &'static str = "index_expression_relation_var_predecessor";

/// Why the issued relation-`Var` evidence cannot be rebound, or `None` when it can: rebuilt from
/// its own observations over the expression evidence and its predecessors (their own refusals),
/// it must reach its issued digest. Issued relation-`Var` evidence holds its entries in sorted
/// order.
pub open spec fn relation_var_rebinding_refusal(
    rels: Seq<BaseRelationView>,
    colls: Option<Seq<ColumnFactView<Option<QualifiedNameView>>>>,
    ms: Seq<MembershipView>,
    family_digest: Seq<char>,
    exclusion: Seq<IndexKeyExclusionSemanticsObservation>,
    exclusion_digest: Seq<char>,
    expression: IndexExpressionSemanticsSnapshot,
    type_modifiers: IssuedTypeModifiers,
    relation_var: IndexExpressionRelationVarSnapshot,
) -> Option<RelationVarRefusal> {
    let rebinding = expression_rebinding_refusal(
        rels,
        ms,
        family_digest,
        exclusion,
        exclusion_digest,
        expression.expression_entries(),
        expression.predicate_entries(),
        expression.lineage().snapshot_digest,
        RELATION_VAR_EXPRESSION_FIELD@,
    );
    let refusal = relation_var_refusal(
        rels,
        colls,
        ms,
        expression.expression_views(),
        expression.predicate_views(),
        expression.lineage(),
        type_modifiers.lineage(),
        type_modifiers.modifier_views(),
        relation_var.entries(),
    );
    if rebinding is Some {
        Some(RelationVarRefusal::Field(rebinding->0))
    } else if refusal is Some {
        refusal
    } else if digest_text(
        relation_var_preimage(
            expression.lineage().snapshot_digest,
            type_modifiers.lineage().snapshot_digest,
            var_views(relation_var.entries()),
        ),
    ) != relation_var.lineage().snapshot_digest {
        Some(RelationVarRefusal::Field(RELATION_VAR_PREDECESSOR_FIELD@))
    } else {
        None
    }
}

/// Why the composed proof is refused, or `None` when it is issued: v1 over the expression
/// snapshot, then its digest and predecessor; then the relation-`Var` evidence must be rebound;
/// then the shared provenance.
pub open spec fn composed_schema_error(
    rels: Seq<BaseRelationView>,
    colls: Option<Seq<ColumnFactView<Option<QualifiedNameView>>>>,
    ms: Seq<MembershipView>,
    family_digest: Seq<char>,
    exclusion: Seq<IndexKeyExclusionSemanticsObservation>,
    exclusion_digest: Seq<char>,
    expression: IndexExpressionSemanticsSnapshot,
    type_modifiers: IssuedTypeModifiers,
    node_schema: IndexExpressionNodeSchemaSnapshot,
    relation_var: IndexExpressionRelationVarSnapshot,
) -> Option<RelationVarRefusal> {
    let rebinding = relation_var_rebinding_refusal(
        rels,
        colls,
        ms,
        family_digest,
        exclusion,
        exclusion_digest,
        expression,
        type_modifiers,
        relation_var,
    );
    if !trees_schema_v1(expression.expression_views(), expression.predicate_views()) {
        Some(RelationVarRefusal::Field(NODE_SCHEMA_FIELD@))
    } else if digest_text(
        node_schema_preimage(NODE_SCHEMA_DIGEST_DOMAIN_V1@, NODE_SCHEMA_REVISION_V1@, expression.lineage().snapshot_digest),
    ) != node_schema.lineage().snapshot_digest || expression.lineage().snapshot_digest != node_schema.predecessor() {
        Some(RelationVarRefusal::Field(COMPOSED_NODE_SCHEMA_FIELD@))
    } else if rebinding is Some {
        rebinding
    } else if !same_provenance(node_schema.lineage(), relation_var.lineage()) {
        Some(RelationVarRefusal::Field(COMPOSED_PROVENANCE_FIELD@))
    } else {
        None
    }
}

/// Proof that one exact `Var`-bearing expression snapshot satisfies both schema v1 and complete
/// relation-`Var` equality semantics.
#[derive(Debug, PartialEq, Eq)]
pub struct IndexExpressionRelationVarNodeSchemaSnapshot {
    source_connection_key: String,
    connection_policy_binding: String,
    node_schema_predecessor_digest: String,
    relation_var_predecessor_digest: String,
    snapshot_digest: String,
    extractor_revision: String,
    observed_at_utc: String,
}

fn compute_composed_digest(node_schema_digest: &str, relation_var_digest: &str) -> (d: String)
    ensures
        d@ == digest_text(composed_schema_preimage(node_schema_digest@, relation_var_digest@)),
{
    let mut out: Vec<u8> = Vec::new();
    put_raw(&mut out, COMPOSED_SCHEMA_DIGEST_DOMAIN.as_bytes());
    put_str(&mut out, COMPOSED_SCHEMA_REVISION);
    put_str(&mut out, node_schema_digest);
    put_str(&mut out, relation_var_digest);
    finish_digest(&out)
}

impl IndexExpressionRelationVarNodeSchemaSnapshot {
    /// The provenance of this snapshot, with its own digest.
    pub closed spec fn lineage(&self) -> LineageView {
        LineageView {
            source_connection_key: self.source_connection_key@,
            connection_policy_binding: self.connection_policy_binding@,
            snapshot_digest: self.snapshot_digest@,
            extractor_revision: self.extractor_revision@,
            observed_at_utc: self.observed_at_utc@,
        }
    }

    /// The node-schema-v1 digest this proof consumed.
    pub closed spec fn node_schema_predecessor(&self) -> Seq<char> {
        self.node_schema_predecessor_digest@
    }

    /// The relation-`Var` digest this proof consumed.
    pub closed spec fn relation_var_predecessor(&self) -> Seq<char> {
        self.relation_var_predecessor_digest@
    }

    /// Builds the composed proof as `new` does and also hands back the rebound expression evidence
    /// and the relation-`Var` observations.
    pub(crate) fn build(
        relations: &[BaseRelation],
        column_collations: Option<&[BaseColumnCollation]>,
        partition: &IndexPartitionEvidence,
        operator_family: &IssuedSnapshot,
        exclusion_snapshot: &IndexExclusionSemanticsSnapshot,
        expression: IndexExpressionSemanticsSnapshot,
        type_modifier_snapshot: &IssuedTypeModifiers,
        node_schema_predecessor: &IndexExpressionNodeSchemaSnapshot,
        relation_var_predecessor: IndexExpressionRelationVarSnapshot,
    ) -> (r: Result<(Self, IndexExpressionSemanticsSnapshot, Vec<IndexExpressionRelationVarObservation>), ObservationError>)
        ensures
            ({
                let error = composed_schema_error(
                    relations@.map_values(|b: BaseRelation| b@),
                    collation_views(column_collations),
                    partition.membership_views(),
                    operator_family.lineage().snapshot_digest,
                    exclusion_snapshot.entries(),
                    exclusion_snapshot.lineage().snapshot_digest,
                    expression,
                    *type_modifier_snapshot,
                    *node_schema_predecessor,
                    relation_var_predecessor,
                );
                &&& r is Ok <==> error is None
                &&& error matches Some(f) ==> relation_var_refused_as(r, f)
            }),
            r matches Ok((s, e, v)) ==> {
                &&& e.expression_views() == expression.expression_views()
                &&& e.predicate_views() == expression.predicate_views()
                &&& v@ == relation_var_predecessor.entries()
                &&& s.node_schema_predecessor() == node_schema_predecessor.lineage().snapshot_digest
                &&& s.relation_var_predecessor() == relation_var_predecessor.lineage().snapshot_digest
                &&& s.lineage() == (LineageView {
                    snapshot_digest: digest_text(
                        composed_schema_preimage(
                            node_schema_predecessor.lineage().snapshot_digest,
                            relation_var_predecessor.lineage().snapshot_digest,
                        ),
                    ),
                    ..relation_var_predecessor.lineage()
                })
            },
    {
        let rebound = IndexExpressionNodeSchemaSnapshot::new(&expression)?;
        if !text_eq(rebound.snapshot_digest(), node_schema_predecessor.snapshot_digest()) || !text_eq(
            rebound.predecessor_digest(),
            node_schema_predecessor.predecessor_digest(),
        ) {
            return Err(invalid(COMPOSED_NODE_SCHEMA_FIELD));
        }
        let source_connection_key = relation_var_predecessor.source_connection_key().to_owned();
        let connection_policy_binding = relation_var_predecessor.connection_policy_binding().to_owned();
        let relation_var_predecessor_digest = relation_var_predecessor.snapshot_digest().to_owned();
        let extractor_revision = relation_var_predecessor.extractor_revision().to_owned();
        let observed_at_utc = relation_var_predecessor.observed_at_utc().to_owned();
        proof {
            relation_var_predecessor.lemma_entry_views();
        }
        let relation_vars = relation_var_predecessor.into_observations();
        proof {
            crate::order::lemma_sorted_by_key_is(relation_vars@, relation_vars@);
        }
        let (rebuilt, expression) = IndexExpressionRelationVarSnapshot::build(
            relations,
            column_collations,
            partition,
            operator_family,
            exclusion_snapshot,
            expression,
            type_modifier_snapshot,
            relation_vars,
        )?;
        if !text_eq(rebuilt.snapshot_digest(), relation_var_predecessor_digest.as_str()) {
            return Err(invalid(RELATION_VAR_PREDECESSOR_FIELD));
        }
        if !text_eq(node_schema_predecessor.source_connection_key(), source_connection_key.as_str()) || !text_eq(
            node_schema_predecessor.connection_policy_binding(),
            connection_policy_binding.as_str(),
        ) || !text_eq(node_schema_predecessor.extractor_revision(), extractor_revision.as_str()) || !text_eq(
            node_schema_predecessor.observed_at_utc(),
            observed_at_utc.as_str(),
        ) {
            return Err(invalid(COMPOSED_PROVENANCE_FIELD));
        }
        let node_schema_predecessor_digest = node_schema_predecessor.snapshot_digest().to_owned();
        let snapshot_digest = compute_composed_digest(
            node_schema_predecessor_digest.as_str(),
            relation_var_predecessor_digest.as_str(),
        );
        proof {
            rebuilt.lemma_entry_views();
        }
        let relation_vars = rebuilt.into_observations();
        Ok((
            IndexExpressionRelationVarNodeSchemaSnapshot {
                source_connection_key,
                connection_policy_binding,
                node_schema_predecessor_digest,
                relation_var_predecessor_digest,
                snapshot_digest,
                extractor_revision,
                observed_at_utc,
            },
            expression,
            relation_vars,
        ))
    }

    /// Rebinds schema v1 to the expression snapshot, rebinds the relation-`Var` evidence (from its
    /// own observations) over the expression evidence and its predecessors, and frames both under
    /// a new digest.
    pub fn new(
        relations: &[BaseRelation],
        column_collations: Option<&[BaseColumnCollation]>,
        partition: &IndexPartitionEvidence,
        operator_family: &IssuedSnapshot,
        exclusion_snapshot: &IndexExclusionSemanticsSnapshot,
        expression: IndexExpressionSemanticsSnapshot,
        type_modifier_snapshot: &IssuedTypeModifiers,
        node_schema_predecessor: &IndexExpressionNodeSchemaSnapshot,
        relation_var_predecessor: IndexExpressionRelationVarSnapshot,
    ) -> (r: Result<Self, ObservationError>)
        ensures
            ({
                let error = composed_schema_error(
                    relations@.map_values(|b: BaseRelation| b@),
                    collation_views(column_collations),
                    partition.membership_views(),
                    operator_family.lineage().snapshot_digest,
                    exclusion_snapshot.entries(),
                    exclusion_snapshot.lineage().snapshot_digest,
                    expression,
                    *type_modifier_snapshot,
                    *node_schema_predecessor,
                    relation_var_predecessor,
                );
                &&& r is Ok <==> error is None
                &&& error matches Some(f) ==> relation_var_refused_as(r, f)
            }),
            r matches Ok(s) ==> {
                &&& s.node_schema_predecessor() == node_schema_predecessor.lineage().snapshot_digest
                &&& s.relation_var_predecessor() == relation_var_predecessor.lineage().snapshot_digest
                &&& s.lineage() == (LineageView {
                    snapshot_digest: digest_text(
                        composed_schema_preimage(
                            node_schema_predecessor.lineage().snapshot_digest,
                            relation_var_predecessor.lineage().snapshot_digest,
                        ),
                    ),
                    ..relation_var_predecessor.lineage()
                })
            },
    {
        match Self::build(
            relations,
            column_collations,
            partition,
            operator_family,
            exclusion_snapshot,
            expression,
            type_modifier_snapshot,
            node_schema_predecessor,
            relation_var_predecessor,
        ) {
            Ok((s, _, _)) => Ok(s),
            Err(e) => Err(e),
        }
    }

    /// Returns the stable source registry key inherited from the predecessor stack.
    pub fn source_connection_key(&self) -> (s: &str)
        ensures
            s@ == self.lineage().source_connection_key,
    {
        self.source_connection_key.as_str()
    }

    /// Returns the immutable connection-policy binding inherited from the predecessor stack.
    pub fn connection_policy_binding(&self) -> (s: &str)
        ensures
            s@ == self.lineage().connection_policy_binding,
    {
        self.connection_policy_binding.as_str()
    }

    /// Returns the node-schema-v1 digest used by this composed proof.
    pub fn node_schema_predecessor_digest(&self) -> (s: &str)
        ensures
            s@ == self.node_schema_predecessor(),
    {
        self.node_schema_predecessor_digest.as_str()
    }

    /// Returns the relation-`Var` digest used by this composed proof.
    pub fn relation_var_predecessor_digest(&self) -> (s: &str)
        ensures
            s@ == self.relation_var_predecessor(),
    {
        self.relation_var_predecessor_digest.as_str()
    }

    /// Returns the domain-separated digest of the conjunction of both predecessors.
    pub fn snapshot_digest(&self) -> (s: &str)
        ensures
            s@ == self.lineage().snapshot_digest,
    {
        self.snapshot_digest.as_str()
    }

    /// Returns the exact extractor revision inherited from the predecessor stack.
    pub fn extractor_revision(&self) -> (s: &str)
        ensures
            s@ == self.lineage().extractor_revision,
    {
        self.extractor_revision.as_str()
    }

    /// Returns the exact canonical observation time inherited from the predecessor stack.
    pub fn observed_at_utc(&self) -> (s: &str)
        ensures
            s@ == self.lineage().observed_at_utc,
    {
        self.observed_at_utc.as_str()
    }

    /// Returns the semantic revision of this composed proof family.
    pub fn schema_revision() -> (s: &'static str)
        ensures
            s@ == COMPOSED_SCHEMA_REVISION@,
    {
        COMPOSED_SCHEMA_REVISION
    }
}

} // verus!
