//! PostgreSQL 18 equality-schema proofs over issued expression semantics.
//!
//! Schema v1 requires the complete modeled field sets of `FuncExpr` and `OpExpr` and refuses every
//! other node kind, but admits relation `Var` leaves (columns and whole-row references) that do not
//! carry the complete PostgreSQL `Var` equality state. Schema v2 is v1 without any such leaf.

use vstd::prelude::*;

use crate::catalog::LineageView;
use crate::digest::{digest_text, finish_digest, frame_str, put_raw, put_str};
use crate::error::{fails_with_text, invalid, ObservationError};
use crate::expression_semantics::{admits_schema_v1, contains_var_leaf, expr_has_var_leaf, expr_schema_v1, CanonicalExpression};
use crate::expression_semantics_snapshot::{
    expression_views, predicate_views, ExpressionObservationView, IndexExpressionSemanticsSnapshot,
    PredicateObservationView,
};
use crate::order::text_eq;
use vstd::utf8::encode_utf8;

verus! {

/// Field reported when a tree is outside schema v1.
pub const NODE_SCHEMA_FIELD: &'static str = "canonical_expression_node_schema";

/// Field reported when a tree is outside schema v2 or its v1 predecessor does not rebind.
pub const NODE_SCHEMA_V2_FIELD: &'static str = "canonical_expression_node_schema_v2";

/// Domain separator of the schema-v1 digest.
pub const NODE_SCHEMA_DIGEST_DOMAIN_V1: &'static str =
    "conceptweave.postgres_schema_snapshot.v3.relation_partition.index_partition.operator_family.exclusion.expression_semantics.node_schema.v1";

/// Revision of schema v1.
pub const NODE_SCHEMA_REVISION_V1: &'static str = "postgresql-18-equal-supported-v1";

/// Domain separator of the schema-v2 digest.
pub const NODE_SCHEMA_DIGEST_DOMAIN_V2: &'static str =
    "conceptweave.postgres_schema_snapshot.v3.relation_partition.index_partition.operator_family.exclusion.expression_semantics.node_schema.v2";

/// Revision of schema v2.
pub const NODE_SCHEMA_REVISION_V2: &'static str = "postgresql-18-equal-supported-v2-var-safe";

/// Validates the historical PostgreSQL 18 equality-schema v1 contract.
pub fn validate_postgres18_equal_schema(expression: &CanonicalExpression) -> (r: Result<(), ObservationError>)
    ensures
        r is Ok <==> expr_schema_v1(*expression),
        r is Err ==> fails_with_text(r, NODE_SCHEMA_FIELD@),
{
    if !admits_schema_v1(expression) {
        return Err(invalid(NODE_SCHEMA_FIELD));
    }
    Ok(())
}

/// Validates the PostgreSQL 18 equality-schema v2 contract: v1, and no relation `Var` leaf.
pub fn validate_postgres18_equal_schema_v2(expression: &CanonicalExpression) -> (r: Result<(), ObservationError>)
    ensures
        r is Ok <==> expr_schema_v1(*expression) && !expr_has_var_leaf(*expression),
        !expr_schema_v1(*expression) ==> fails_with_text(r, NODE_SCHEMA_FIELD@),
        expr_schema_v1(*expression) && expr_has_var_leaf(*expression) ==> fails_with_text(r, NODE_SCHEMA_V2_FIELD@),
{
    validate_postgres18_equal_schema(expression)?;
    if contains_var_leaf(expression) {
        return Err(invalid(NODE_SCHEMA_V2_FIELD));
    }
    Ok(())
}

/// Every expression and predicate tree is inside schema v1.
pub open spec fn trees_schema_v1(es: Seq<ExpressionObservationView>, ps: Seq<PredicateObservationView>) -> bool {
    &&& forall|i: int| 0 <= i < es.len() ==> expr_schema_v1(#[trigger] es[i].expression)
    &&& forall|i: int| 0 <= i < ps.len() ==> expr_schema_v1(#[trigger] ps[i].predicate)
}

/// Some expression or predicate tree holds a relation `Var` leaf.
pub open spec fn trees_have_var_leaf(es: Seq<ExpressionObservationView>, ps: Seq<PredicateObservationView>) -> bool {
    ||| exists|i: int| 0 <= i < es.len() && expr_has_var_leaf(#[trigger] es[i].expression)
    ||| exists|i: int| 0 <= i < ps.len() && expr_has_var_leaf(#[trigger] ps[i].predicate)
}

fn validate_all_schema_v1(predecessor: &IndexExpressionSemanticsSnapshot) -> (r: Result<(), ObservationError>)
    ensures
        r is Ok <==> trees_schema_v1(predecessor.expression_views(), predecessor.predicate_views()),
        r is Err ==> fails_with_text(r, NODE_SCHEMA_FIELD@),
{
    let expressions = predecessor.expression_observations();
    let ghost es = predecessor.expression_views();
    let mut i: usize = 0;
    while i < expressions.len()
        invariant
            i <= expressions@.len(),
            es == expression_views(expressions@),
            es == predecessor.expression_views(),
            forall|k: int| 0 <= k < i ==> expr_schema_v1(#[trigger] es[k].expression),
        decreases expressions@.len() - i,
    {
        assert(es[i as int] == expressions@[i as int]@);
        validate_postgres18_equal_schema(expressions[i].expression())?;
        i = i + 1;
    }
    let predicates = predecessor.predicate_observations();
    let ghost ps = predecessor.predicate_views();
    let mut j: usize = 0;
    while j < predicates.len()
        invariant
            j <= predicates@.len(),
            ps == predicate_views(predicates@),
            ps == predecessor.predicate_views(),
            es == predecessor.expression_views(),
            forall|k: int| 0 <= k < es.len() ==> expr_schema_v1(#[trigger] es[k].expression),
            forall|k: int| 0 <= k < j ==> expr_schema_v1(#[trigger] ps[k].predicate),
        decreases predicates@.len() - j,
    {
        assert(ps[j as int] == predicates@[j as int]@);
        validate_postgres18_equal_schema(predicates[j].predicate())?;
        j = j + 1;
    }
    Ok(())
}

fn reject_var_leaves(predecessor: &IndexExpressionSemanticsSnapshot) -> (r: Result<(), ObservationError>)
    ensures
        r is Ok <==> !trees_have_var_leaf(predecessor.expression_views(), predecessor.predicate_views()),
        r is Err ==> fails_with_text(r, NODE_SCHEMA_V2_FIELD@),
{
    let expressions = predecessor.expression_observations();
    let ghost es = predecessor.expression_views();
    let mut i: usize = 0;
    while i < expressions.len()
        invariant
            i <= expressions@.len(),
            es == expression_views(expressions@),
            es == predecessor.expression_views(),
            forall|k: int| 0 <= k < i ==> !expr_has_var_leaf(#[trigger] es[k].expression),
        decreases expressions@.len() - i,
    {
        assert(es[i as int] == expressions@[i as int]@);
        if contains_var_leaf(expressions[i].expression()) {
            return Err(invalid(NODE_SCHEMA_V2_FIELD));
        }
        i = i + 1;
    }
    let predicates = predecessor.predicate_observations();
    let ghost ps = predecessor.predicate_views();
    let mut j: usize = 0;
    while j < predicates.len()
        invariant
            j <= predicates@.len(),
            ps == predicate_views(predicates@),
            ps == predecessor.predicate_views(),
            es == predecessor.expression_views(),
            forall|k: int| 0 <= k < es.len() ==> !expr_has_var_leaf(#[trigger] es[k].expression),
            forall|k: int| 0 <= k < j ==> !expr_has_var_leaf(#[trigger] ps[k].predicate),
        decreases predicates@.len() - j,
    {
        assert(ps[j as int] == predicates@[j as int]@);
        if contains_var_leaf(predicates[j].predicate()) {
            return Err(invalid(NODE_SCHEMA_V2_FIELD));
        }
        j = j + 1;
    }
    Ok(())
}

/// The preimage of a node-schema digest: domain, revision and predecessor digest.
pub open spec fn node_schema_preimage(domain: Seq<char>, revision: Seq<char>, predecessor_digest: Seq<char>) -> Seq<u8> {
    encode_utf8(domain) + frame_str(revision) + frame_str(predecessor_digest)
}

fn compute_node_schema_digest(domain: &str, revision: &str, predecessor_digest: &str) -> (d: String)
    ensures
        d@ == digest_text(node_schema_preimage(domain@, revision@, predecessor_digest@)),
{
    let mut out: Vec<u8> = Vec::new();
    put_raw(&mut out, domain.as_bytes());
    put_str(&mut out, revision);
    put_str(&mut out, predecessor_digest);
    finish_digest(&out)
}

/// Historical schema-v1 proof over one exact expression-semantics snapshot.
#[derive(Debug, PartialEq, Eq)]
pub struct IndexExpressionNodeSchemaSnapshot {
    source_connection_key: String,
    connection_policy_binding: String,
    predecessor_digest: String,
    snapshot_digest: String,
    extractor_revision: String,
    observed_at_utc: String,
}

impl IndexExpressionNodeSchemaSnapshot {
    /// The provenance of this snapshot, with its own digest.
    pub closed spec fn lineage(&self) -> LineageView {
        LineageView {
            source_connection_key: self.source_connection_key@,
            connection_policy_binding: self.connection_policy_binding@,
            snapshot_digest: self.snapshot_digest@,
            extractor_revision: self.extractor_revision@,
            observed_at_utc: self.observed_at_utc@,
        }
    }

    /// The digest of the expression-semantics snapshot this proof validated.
    pub closed spec fn predecessor(&self) -> Seq<char> {
        self.predecessor_digest@
    }

    /// Validates every expression and predicate tree of the predecessor under schema v1.
    pub fn new(predecessor: &IndexExpressionSemanticsSnapshot) -> (r: Result<Self, ObservationError>)
        ensures
            r is Ok <==> trees_schema_v1(predecessor.expression_views(), predecessor.predicate_views()),
            r is Err ==> fails_with_text(r, NODE_SCHEMA_FIELD@),
            r matches Ok(s) ==> s.predecessor() == predecessor.lineage().snapshot_digest && s.lineage() == (
            LineageView {
                snapshot_digest: digest_text(
                    node_schema_preimage(
                        NODE_SCHEMA_DIGEST_DOMAIN_V1@,
                        NODE_SCHEMA_REVISION_V1@,
                        predecessor.lineage().snapshot_digest,
                    ),
                ),
                ..predecessor.lineage()
            }),
    {
        validate_all_schema_v1(predecessor)?;
        let predecessor_digest = predecessor.snapshot_digest().to_owned();
        let snapshot_digest = compute_node_schema_digest(
            NODE_SCHEMA_DIGEST_DOMAIN_V1,
            NODE_SCHEMA_REVISION_V1,
            predecessor_digest.as_str(),
        );
        Ok(IndexExpressionNodeSchemaSnapshot {
            source_connection_key: predecessor.source_connection_key().to_owned(),
            connection_policy_binding: predecessor.connection_policy_binding().to_owned(),
            predecessor_digest,
            snapshot_digest,
            extractor_revision: predecessor.extractor_revision().to_owned(),
            observed_at_utc: predecessor.observed_at_utc().to_owned(),
        })
    }

    /// Returns the stable source registry key inherited from the predecessor.
    pub fn source_connection_key(&self) -> (s: &str)
        ensures
            s@ == self.lineage().source_connection_key,
    {
        self.source_connection_key.as_str()
    }

    /// Returns the immutable connection-policy binding inherited from the predecessor.
    pub fn connection_policy_binding(&self) -> (s: &str)
        ensures
            s@ == self.lineage().connection_policy_binding,
    {
        self.connection_policy_binding.as_str()
    }

    /// Returns the expression-semantics digest that v1 validated.
    pub fn predecessor_digest(&self) -> (s: &str)
        ensures
            s@ == self.predecessor(),
    {
        self.predecessor_digest.as_str()
    }

    /// Returns the domain-separated schema-v1 digest.
    pub fn snapshot_digest(&self) -> (s: &str)
        ensures
            s@ == self.lineage().snapshot_digest,
    {
        self.snapshot_digest.as_str()
    }

    /// Returns the exact extractor revision inherited from the predecessor.
    pub fn extractor_revision(&self) -> (s: &str)
        ensures
            s@ == self.lineage().extractor_revision,
    {
        self.extractor_revision.as_str()
    }

    /// Returns the exact canonical observation time inherited from the predecessor.
    pub fn observed_at_utc(&self) -> (s: &str)
        ensures
            s@ == self.lineage().observed_at_utc,
    {
        self.observed_at_utc.as_str()
    }
}

/// The v1 proof belongs to the expression snapshot: same provenance, and it validated that
/// snapshot's digest.
pub open spec fn v1_bound_to(expression: LineageView, v1: IndexExpressionNodeSchemaSnapshot) -> bool {
    &&& expression.source_connection_key == v1.lineage().source_connection_key
    &&& expression.connection_policy_binding == v1.lineage().connection_policy_binding
    &&& expression.extractor_revision == v1.lineage().extractor_revision
    &&& expression.observed_at_utc == v1.lineage().observed_at_utc
    &&& expression.snapshot_digest == v1.predecessor()
}

/// The field reported when schema v2 is refused, or `None` when it is issued: the v1 binding, then
/// v1 itself, then the v1 digest, then the relation `Var` leaves.
pub open spec fn node_schema_v2_error(
    expression: IndexExpressionSemanticsSnapshot,
    v1: IndexExpressionNodeSchemaSnapshot,
) -> Option<Seq<char>> {
    if !v1_bound_to(expression.lineage(), v1) {
        Some(NODE_SCHEMA_V2_FIELD@)
    } else if !trees_schema_v1(expression.expression_views(), expression.predicate_views()) {
        Some(NODE_SCHEMA_FIELD@)
    } else if digest_text(
        node_schema_preimage(NODE_SCHEMA_DIGEST_DOMAIN_V1@, NODE_SCHEMA_REVISION_V1@, expression.lineage().snapshot_digest),
    ) != v1.lineage().snapshot_digest {
        Some(NODE_SCHEMA_V2_FIELD@)
    } else if trees_have_var_leaf(expression.expression_views(), expression.predicate_views()) {
        Some(NODE_SCHEMA_V2_FIELD@)
    } else {
        None
    }
}

/// Schema-v2 proof: an exact v1 predecessor whose trees hold no relation `Var` leaf.
#[derive(Debug, PartialEq, Eq)]
pub struct IndexExpressionNodeSchemaSnapshotV2 {
    source_connection_key: String,
    connection_policy_binding: String,
    predecessor_digest: String,
    snapshot_digest: String,
    extractor_revision: String,
    observed_at_utc: String,
}

impl IndexExpressionNodeSchemaSnapshotV2 {
    /// The provenance of this snapshot, with its own digest.
    pub closed spec fn lineage(&self) -> LineageView {
        LineageView {
            source_connection_key: self.source_connection_key@,
            connection_policy_binding: self.connection_policy_binding@,
            snapshot_digest: self.snapshot_digest@,
            extractor_revision: self.extractor_revision@,
            observed_at_utc: self.observed_at_utc@,
        }
    }

    /// The schema-v1 digest this proof rebound.
    pub closed spec fn predecessor(&self) -> Seq<char> {
        self.predecessor_digest@
    }

    /// Rebinds the v1 proof to the expression snapshot and refuses every relation `Var` leaf.
    pub fn new(expression_predecessor: &IndexExpressionSemanticsSnapshot, v1_predecessor: &IndexExpressionNodeSchemaSnapshot) -> (r:
        Result<Self, ObservationError>)
        ensures
            r is Ok <==> node_schema_v2_error(*expression_predecessor, *v1_predecessor) is None,
            r is Err ==> fails_with_text(r, node_schema_v2_error(*expression_predecessor, *v1_predecessor)->0),
            r matches Ok(s) ==> s.predecessor() == v1_predecessor.lineage().snapshot_digest && s.lineage() == (
            LineageView {
                snapshot_digest: digest_text(
                    node_schema_preimage(
                        NODE_SCHEMA_DIGEST_DOMAIN_V2@,
                        NODE_SCHEMA_REVISION_V2@,
                        v1_predecessor.lineage().snapshot_digest,
                    ),
                ),
                ..v1_predecessor.lineage()
            }),
    {
        if !text_eq(expression_predecessor.source_connection_key(), v1_predecessor.source_connection_key())
            || !text_eq(expression_predecessor.connection_policy_binding(), v1_predecessor.connection_policy_binding())
            || !text_eq(expression_predecessor.extractor_revision(), v1_predecessor.extractor_revision())
            || !text_eq(expression_predecessor.observed_at_utc(), v1_predecessor.observed_at_utc())
            || !text_eq(expression_predecessor.snapshot_digest(), v1_predecessor.predecessor_digest()) {
            return Err(invalid(NODE_SCHEMA_V2_FIELD));
        }
        let rebound = IndexExpressionNodeSchemaSnapshot::new(expression_predecessor)?;
        if !text_eq(rebound.snapshot_digest(), v1_predecessor.snapshot_digest()) {
            return Err(invalid(NODE_SCHEMA_V2_FIELD));
        }
        reject_var_leaves(expression_predecessor)?;
        let predecessor_digest = v1_predecessor.snapshot_digest().to_owned();
        let snapshot_digest = compute_node_schema_digest(
            NODE_SCHEMA_DIGEST_DOMAIN_V2,
            NODE_SCHEMA_REVISION_V2,
            predecessor_digest.as_str(),
        );
        Ok(IndexExpressionNodeSchemaSnapshotV2 {
            source_connection_key: v1_predecessor.source_connection_key().to_owned(),
            connection_policy_binding: v1_predecessor.connection_policy_binding().to_owned(),
            predecessor_digest,
            snapshot_digest,
            extractor_revision: v1_predecessor.extractor_revision().to_owned(),
            observed_at_utc: v1_predecessor.observed_at_utc().to_owned(),
        })
    }

    /// Returns the stable source registry key inherited from the v1 predecessor.
    pub fn source_connection_key(&self) -> (s: &str)
        ensures
            s@ == self.lineage().source_connection_key,
    {
        self.source_connection_key.as_str()
    }

    /// Returns the immutable connection-policy binding inherited from the v1 predecessor.
    pub fn connection_policy_binding(&self) -> (s: &str)
        ensures
            s@ == self.lineage().connection_policy_binding,
    {
        self.connection_policy_binding.as_str()
    }

    /// Returns the schema-v1 digest this proof rebound.
    pub fn predecessor_digest(&self) -> (s: &str)
        ensures
            s@ == self.predecessor(),
    {
        self.predecessor_digest.as_str()
    }

    /// Returns the domain-separated schema-v2 digest.
    pub fn snapshot_digest(&self) -> (s: &str)
        ensures
            s@ == self.lineage().snapshot_digest,
    {
        self.snapshot_digest.as_str()
    }

    /// Returns the exact extractor revision inherited from the predecessor stack.
    pub fn extractor_revision(&self) -> (s: &str)
        ensures
            s@ == self.lineage().extractor_revision,
    {
        self.extractor_revision.as_str()
    }

    /// Returns the exact canonical observation time inherited from the predecessor stack.
    pub fn observed_at_utc(&self) -> (s: &str)
        ensures
            s@ == self.lineage().observed_at_utc,
    {
        self.observed_at_utc.as_str()
    }
}

} // verus!
