//! Database-encoding binding of catalog-exact index collation evidence.
//!
//! PostgreSQL 18 resolves database objects against backend encodings only: a usable collation row
//! has `collencoding = -1` (encoding-independent) or exactly the source database's
//! `pg_database.encoding`. This successor binds that invariant over every key, expression,
//! predicate and relation-`Var` collation identity without changing any issued digest.

use vstd::prelude::*;

use crate::catalog::LineageView;
use crate::collation_identity::{
    CollationCatalogIdentity, CollationIdentityView, IndexPartitionCollationIdentitySnapshot, KeyCollationView,
};
use crate::digest::{digest_text, finish_digest, frame_i32, frame_str, put_i32, put_raw, put_str};
use crate::error::{fails_with_text, invalid, is_invalid_field, ObservationError};
use crate::expression_collation_identity::{
    ExpressionCollationView, IndexExpressionCollationIdentitySnapshot, RelationVarCollationView,
};
use crate::expression_relation_var_schema::same_provenance;
use crate::order::text_eq;
use vstd::utf8::encode_utf8;

verus! {

/// PostgreSQL 18 `PG_ENCODING_BE_LAST` (`PG_KOI8U`): the largest backend encoding identifier.
pub const POSTGRES18_BACKEND_ENCODING_MAX: i32 = 34;

/// Field reported for an encoding outside the backend encodings.
pub const DATABASE_ENCODING_FIELD: &'static str = "postgres_database_encoding";

/// Field reported for a collation that is unusable in the source database.
pub const ENCODING_BINDING_FIELD: &'static str = "index_collation_database_encoding_binding";

/// Exact PostgreSQL 18 source-database encoding observed from `pg_database.encoding`.
#[derive(Clone, Copy, Debug, PartialEq, Eq, Structural)]
pub struct PostgresDatabaseEncodingObservation {
    encoding: i32,
}

impl View for PostgresDatabaseEncodingObservation {
    type V = i32;

    closed spec fn view(&self) -> i32 {
        self.encoding
    }
}

/// A collation identity is usable in a database of `encoding`.
pub open spec fn usable_in(encoding: i32, c: CollationIdentityView) -> bool {
    c.encoding == -1 || c.encoding == encoding
}

impl PostgresDatabaseEncodingObservation {
    /// Every observation holds a PostgreSQL 18 backend encoding.
    #[verifier::type_invariant]
    closed spec fn holds_backend_encoding(self) -> bool {
        0 <= self.encoding <= POSTGRES18_BACKEND_ENCODING_MAX
    }

    /// An observation is determined by its encoding: two observations of one encoding are equal.
    pub proof fn lemma_determined_by_encoding(a: Self, b: Self)
        requires
            a@ == b@,
        ensures
            a == b,
    {
    }

    /// Creates one PostgreSQL 18 backend/database encoding observation.
    pub fn new(encoding: i32) -> (r: Result<Self, ObservationError>)
        ensures
            r is Ok <==> 0 <= encoding <= POSTGRES18_BACKEND_ENCODING_MAX,
            r matches Ok(o) ==> o@ == encoding,
            r matches Err(e) ==> is_invalid_field(e, DATABASE_ENCODING_FIELD),
    {
        if encoding < 0 || encoding > POSTGRES18_BACKEND_ENCODING_MAX {
            return Err(invalid(DATABASE_ENCODING_FIELD));
        }
        Ok(PostgresDatabaseEncodingObservation { encoding })
    }

    /// Returns the raw PostgreSQL backend encoding identifier.
    pub fn encoding(self) -> (e: i32)
        ensures
            e == self@,
            0 <= e <= POSTGRES18_BACKEND_ENCODING_MAX,
    {
        proof {
            use_type_invariant(&self);
        }
        self.encoding
    }

    /// Validates that a resolved catalog collation is usable in this source database.
    pub fn validate_collation_identity(self, collation: &CollationCatalogIdentity) -> (r: Result<(), ObservationError>)
        ensures
            r is Ok <==> usable_in(self@, collation@),
            r matches Err(e) ==> is_invalid_field(e, ENCODING_BINDING_FIELD),
            collation@.encoding == -1 ==> r is Ok,
            collation@.encoding == self@ ==> r is Ok,
            collation@.encoding != -1 && collation@.encoding != self@ ==> r is Err,
    {
        if collation.encoding() != -1 && collation.encoding() != self.encoding {
            return Err(invalid(ENCODING_BINDING_FIELD));
        }
        Ok(())
    }
}

/// Every non-null identity in the key, expression and relation-`Var` evidence is usable.
pub open spec fn all_collations_usable(
    encoding: i32,
    keys: Seq<KeyCollationView>,
    expressions: Seq<ExpressionCollationView>,
    relation_vars: Seq<RelationVarCollationView>,
) -> bool {
    &&& forall|i: int| 0 <= i < keys.len() && (#[trigger] keys[i]).collation is Some ==> usable_in(encoding, keys[i].collation->0)
    &&& forall|i: int| 0 <= i < expressions.len() ==> usable_in(encoding, (#[trigger] expressions[i]).collation)
    &&& forall|i: int|
        0 <= i < relation_vars.len() && (#[trigger] relation_vars[i]).collation is Some ==> usable_in(
            encoding,
            relation_vars[i].collation->0,
        )
}

/// Domain separator of the database-encoding digest.
pub const COLLATION_DATABASE_ENCODING_DIGEST_DOMAIN: &'static str =
    "conceptweave.postgres_schema_snapshot.v3.relation_partition.index_partition.expression_collation_catalog_identity.database_encoding.v1";

/// Field reported when the expression evidence was not built over the key evidence.
pub const ENCODING_PREDECESSOR_FIELD: &'static str = "index_collation_database_encoding_predecessor";

/// Field reported when the two predecessors disagree in provenance.
pub const ENCODING_PROVENANCE_FIELD: &'static str = "index_collation_database_encoding_provenance";

/// The preimage of the database-encoding digest.
pub open spec fn database_encoding_preimage(key_digest: Seq<char>, expression_digest: Seq<char>, encoding: i32) -> Seq<u8> {
    encode_utf8(COLLATION_DATABASE_ENCODING_DIGEST_DOMAIN@) + frame_str(key_digest) + frame_str(expression_digest)
        + frame_i32(encoding)
}

/// The field reported when the binding is refused, or `None` when it is issued.
pub open spec fn database_encoding_error(
    encoding: i32,
    key: IndexPartitionCollationIdentitySnapshot,
    expression: IndexExpressionCollationIdentitySnapshot,
) -> Option<Seq<char>> {
    if expression.key_collation_predecessor() != key.lineage().snapshot_digest {
        Some(ENCODING_PREDECESSOR_FIELD@)
    } else if !same_provenance(key.lineage(), expression.lineage()) {
        Some(ENCODING_PROVENANCE_FIELD@)
    } else if !all_collations_usable(encoding, key.observation_views(), expression.expression_views(), expression.relation_var_views()) {
        Some(ENCODING_BINDING_FIELD@)
    } else {
        None
    }
}

#[verifier::loop_isolation(false)]
fn validate_all_usable(
    encoding: PostgresDatabaseEncodingObservation,
    key: &IndexPartitionCollationIdentitySnapshot,
    expression: &IndexExpressionCollationIdentitySnapshot,
) -> (r: Result<(), ObservationError>)
    ensures
        r is Ok <==> all_collations_usable(encoding@, key.observation_views(), expression.expression_views(), expression.relation_var_views()),
        r matches Err(e) ==> is_invalid_field(e, ENCODING_BINDING_FIELD),
{
    let ghost kv = key.observation_views();
    let ghost ev = expression.expression_views();
    let ghost rv = expression.relation_var_views();
    let keys = key.observations();
    let mut i: usize = 0;
    while i < keys.len()
        invariant
            i <= keys@.len(),
            kv == crate::collation_identity::key_collation_views(keys@),
            forall|k: int| 0 <= k < i && (#[trigger] kv[k]).collation is Some ==> usable_in(encoding@, kv[k].collation->0),
        decreases keys@.len() - i,
    {
        assert(kv[i as int] == keys@[i as int]@);
        match keys[i].collation() {
            Some(c) => {
                encoding.validate_collation_identity(c)?;
            },
            None => {},
        }
        i = i + 1;
    }
    let expressions = expression.expression_observations();
    let mut j: usize = 0;
    while j < expressions.len()
        invariant
            j <= expressions@.len(),
            kv == key.observation_views(),
            ev == crate::expression_collation_identity::expression_collation_views(expressions@),
            forall|k: int| 0 <= k < kv.len() && (#[trigger] kv[k]).collation is Some ==> usable_in(encoding@, kv[k].collation->0),
            forall|k: int| 0 <= k < j ==> usable_in(encoding@, (#[trigger] ev[k]).collation),
        decreases expressions@.len() - j,
    {
        assert(ev[j as int] == expressions@[j as int]@);
        encoding.validate_collation_identity(expressions[j].collation())?;
        j = j + 1;
    }
    let relation_vars = expression.relation_var_observations();
    let mut m: usize = 0;
    while m < relation_vars.len()
        invariant
            m <= relation_vars@.len(),
            kv == key.observation_views(),
            ev == expression.expression_views(),
            rv == crate::expression_collation_identity::relation_var_collation_views(relation_vars@),
            forall|k: int| 0 <= k < kv.len() && (#[trigger] kv[k]).collation is Some ==> usable_in(encoding@, kv[k].collation->0),
            forall|k: int| 0 <= k < ev.len() ==> usable_in(encoding@, (#[trigger] ev[k]).collation),
            forall|k: int| 0 <= k < m && (#[trigger] rv[k]).collation is Some ==> usable_in(encoding@, rv[k].collation->0),
        decreases relation_vars@.len() - m,
    {
        assert(rv[m as int] == relation_vars@[m as int]@);
        match relation_vars[m].collation() {
            Some(c) => {
                encoding.validate_collation_identity(c)?;
            },
            None => {},
        }
        m = m + 1;
    }
    Ok(())
}

fn compute_database_encoding_digest(key_digest: &str, expression_digest: &str, encoding: i32) -> (d: String)
    ensures
        d@ == digest_text(database_encoding_preimage(key_digest@, expression_digest@, encoding)),
        crate::digest::issued_digest_form(d@),
{
    let mut out: Vec<u8> = Vec::new();
    put_raw(&mut out, COLLATION_DATABASE_ENCODING_DIGEST_DOMAIN.as_bytes());
    put_str(&mut out, key_digest);
    put_str(&mut out, expression_digest);
    put_i32(&mut out, encoding);
    finish_digest(&out)
}

/// Complete database-encoding binding over all modeled index collation identities.
#[derive(Debug, PartialEq, Eq)]
pub struct IndexCollationDatabaseEncodingSnapshot {
    source_connection_key: String,
    connection_policy_binding: String,
    key_collation_predecessor_digest: String,
    expression_collation_predecessor_digest: String,
    snapshot_digest: String,
    extractor_revision: String,
    observed_at_utc: String,
    database_encoding: PostgresDatabaseEncodingObservation,
}

impl IndexCollationDatabaseEncodingSnapshot {
    /// The provenance of this snapshot, with its own digest.
    pub closed spec fn lineage(&self) -> LineageView {
        LineageView {
            source_connection_key: self.source_connection_key@,
            connection_policy_binding: self.connection_policy_binding@,
            snapshot_digest: self.snapshot_digest@,
            extractor_revision: self.extractor_revision@,
            observed_at_utc: self.observed_at_utc@,
        }
    }

    /// The key-collation digest this binding consumed.
    pub closed spec fn key_collation_predecessor(&self) -> Seq<char> {
        self.key_collation_predecessor_digest@
    }

    /// The expression-collation digest this binding consumed.
    pub closed spec fn expression_collation_predecessor(&self) -> Seq<char> {
        self.expression_collation_predecessor_digest@
    }

    /// The source-database encoding of this binding.
    pub closed spec fn encoding_view(&self) -> i32 {
        self.database_encoding@
    }

    /// Binds every modeled collation identity to the source database encoding.
    pub fn new(
        database_encoding: PostgresDatabaseEncodingObservation,
        key_collation_predecessor: &IndexPartitionCollationIdentitySnapshot,
        expression_collation_predecessor: &IndexExpressionCollationIdentitySnapshot,
    ) -> (r: Result<Self, ObservationError>)
        ensures
            r is Ok <==> database_encoding_error(database_encoding@, *key_collation_predecessor, *expression_collation_predecessor)
                is None,
            r is Err ==> fails_with_text(
                r,
                database_encoding_error(database_encoding@, *key_collation_predecessor, *expression_collation_predecessor)->0,
            ),
            r matches Ok(s) ==> {
                &&& s.key_collation_predecessor() == key_collation_predecessor.lineage().snapshot_digest
                &&& s.expression_collation_predecessor() == expression_collation_predecessor.lineage().snapshot_digest
                &&& s.encoding_view() == database_encoding@
                &&& crate::digest::issued_digest_form(s.lineage().snapshot_digest)
                &&& s.lineage() == (LineageView {
                    snapshot_digest: digest_text(
                        database_encoding_preimage(
                            key_collation_predecessor.lineage().snapshot_digest,
                            expression_collation_predecessor.lineage().snapshot_digest,
                            database_encoding@,
                        ),
                    ),
                    ..expression_collation_predecessor.lineage()
                })
            },
    {
        if !text_eq(
            expression_collation_predecessor.key_collation_predecessor_digest(),
            key_collation_predecessor.snapshot_digest(),
        ) {
            return Err(invalid(ENCODING_PREDECESSOR_FIELD));
        }
        if !text_eq(key_collation_predecessor.source_connection_key(), expression_collation_predecessor.source_connection_key())
            || !text_eq(
            key_collation_predecessor.connection_policy_binding(),
            expression_collation_predecessor.connection_policy_binding(),
        ) || !text_eq(key_collation_predecessor.extractor_revision(), expression_collation_predecessor.extractor_revision())
            || !text_eq(key_collation_predecessor.observed_at_utc(), expression_collation_predecessor.observed_at_utc()) {
            return Err(invalid(ENCODING_PROVENANCE_FIELD));
        }
        validate_all_usable(database_encoding, key_collation_predecessor, expression_collation_predecessor)?;
        let key_collation_predecessor_digest = key_collation_predecessor.snapshot_digest().to_owned();
        let expression_collation_predecessor_digest = expression_collation_predecessor.snapshot_digest().to_owned();
        let snapshot_digest = compute_database_encoding_digest(
            key_collation_predecessor_digest.as_str(),
            expression_collation_predecessor_digest.as_str(),
            database_encoding.encoding(),
        );
        Ok(IndexCollationDatabaseEncodingSnapshot {
            source_connection_key: expression_collation_predecessor.source_connection_key().to_owned(),
            connection_policy_binding: expression_collation_predecessor.connection_policy_binding().to_owned(),
            key_collation_predecessor_digest,
            expression_collation_predecessor_digest,
            snapshot_digest,
            extractor_revision: expression_collation_predecessor.extractor_revision().to_owned(),
            observed_at_utc: expression_collation_predecessor.observed_at_utc().to_owned(),
            database_encoding,
        })
    }

    /// Returns the stable source registry key inherited from the predecessor stack.
    pub fn source_connection_key(&self) -> (s: &str)
        ensures
            s@ == self.lineage().source_connection_key,
    {
        self.source_connection_key.as_str()
    }

    /// Returns the immutable connection-policy binding inherited from the predecessor stack.
    pub fn connection_policy_binding(&self) -> (s: &str)
        ensures
            s@ == self.lineage().connection_policy_binding,
    {
        self.connection_policy_binding.as_str()
    }

    /// Returns the per-key collation predecessor digest.
    pub fn key_collation_predecessor_digest(&self) -> (s: &str)
        ensures
            s@ == self.key_collation_predecessor(),
    {
        self.key_collation_predecessor_digest.as_str()
    }

    /// Returns the expression/relation-`Var` collation predecessor digest.
    pub fn expression_collation_predecessor_digest(&self) -> (s: &str)
        ensures
            s@ == self.expression_collation_predecessor(),
    {
        self.expression_collation_predecessor_digest.as_str()
    }

    /// Returns the domain-separated database-encoding digest.
    pub fn snapshot_digest(&self) -> (s: &str)
        ensures
            s@ == self.lineage().snapshot_digest,
    {
        self.snapshot_digest.as_str()
    }

    /// Returns the exact extractor revision inherited from the predecessor stack.
    pub fn extractor_revision(&self) -> (s: &str)
        ensures
            s@ == self.lineage().extractor_revision,
    {
        self.extractor_revision.as_str()
    }

    /// Returns the exact canonical observation time inherited from the predecessor stack.
    pub fn observed_at_utc(&self) -> (s: &str)
        ensures
            s@ == self.lineage().observed_at_utc,
    {
        self.observed_at_utc.as_str()
    }

    /// Returns the source-database encoding observation.
    pub fn database_encoding(&self) -> (e: PostgresDatabaseEncodingObservation)
        ensures
            e@ == self.encoding_view(),
    {
        self.database_encoding
    }

    /// Issues provenance for the database-encoding binding.
    pub fn source_receipt(&self) -> (r: IndexCollationDatabaseEncodingSourceReceipt)
        ensures
            r.lineage() == self.lineage(),
            r.encoding_view() == self.encoding_view(),
    {
        IndexCollationDatabaseEncodingSourceReceipt {
            source_id: self.source_connection_key.clone(),
            connection_policy_binding: self.connection_policy_binding.clone(),
            source_digest: self.snapshot_digest.clone(),
            extractor_revision: self.extractor_revision.clone(),
            observed_at_utc: self.observed_at_utc.clone(),
            database_encoding: self.database_encoding,
        }
    }
}

/// Immutable source receipt for the database-encoding binding.
#[derive(Debug, PartialEq, Eq)]
pub struct IndexCollationDatabaseEncodingSourceReceipt {
    source_id: String,
    connection_policy_binding: String,
    source_digest: String,
    extractor_revision: String,
    observed_at_utc: String,
    database_encoding: PostgresDatabaseEncodingObservation,
}

impl IndexCollationDatabaseEncodingSourceReceipt {
    /// The provenance carried by this receipt.
    pub closed spec fn lineage(&self) -> LineageView {
        LineageView {
            source_connection_key: self.source_id@,
            connection_policy_binding: self.connection_policy_binding@,
            snapshot_digest: self.source_digest@,
            extractor_revision: self.extractor_revision@,
            observed_at_utc: self.observed_at_utc@,
        }
    }

    /// The source-database encoding carried by this receipt.
    pub closed spec fn encoding_view(&self) -> i32 {
        self.database_encoding@
    }

    /// Returns the stable source registry key, never credentials.
    pub fn source_id(&self) -> (s: &str)
        ensures
            s@ == self.lineage().source_connection_key,
    {
        self.source_id.as_str()
    }

    /// Returns the immutable connection-policy binding.
    pub fn connection_policy_binding(&self) -> (s: &str)
        ensures
            s@ == self.lineage().connection_policy_binding,
    {
        self.connection_policy_binding.as_str()
    }

    /// Returns the domain-separated database-encoding digest.
    pub fn source_digest(&self) -> (s: &str)
        ensures
            s@ == self.lineage().snapshot_digest,
    {
        self.source_digest.as_str()
    }

    /// Returns the exact extractor revision inherited from the predecessor stack.
    pub fn extractor_revision(&self) -> (s: &str)
        ensures
            s@ == self.lineage().extractor_revision,
    {
        self.extractor_revision.as_str()
    }

    /// Returns the exact canonical observation time inherited from the predecessor stack.
    pub fn observed_at_utc(&self) -> (s: &str)
        ensures
            s@ == self.lineage().observed_at_utc,
    {
        self.observed_at_utc.as_str()
    }

    /// Returns the source-database encoding observation.
    pub fn database_encoding(&self) -> (e: PostgresDatabaseEncodingObservation)
        ensures
            e@ == self.encoding_view(),
    {
        self.database_encoding
    }
}

} // verus!

verus! {

/// Over one pair of predecessor digests, the encoding alone decides the digest preimage: equal
/// backend encodings frame identically and distinct ones frame differently.
pub proof fn lemma_encoding_preimage_injective(key_digest: Seq<char>, expression_digest: Seq<char>, a: i32, b: i32)
    requires
        0 <= a <= POSTGRES18_BACKEND_ENCODING_MAX,
        0 <= b <= POSTGRES18_BACKEND_ENCODING_MAX,
    ensures
        (database_encoding_preimage(key_digest, expression_digest, a) == database_encoding_preimage(
            key_digest,
            expression_digest,
            b,
        )) <==> a == b,
{
    if a != b {
        let fa = crate::digest::frame_i32(a);
        let fb = crate::digest::frame_i32(b);
        reveal_with_fuel(crate::digest::be_bytes, 5);
        assert(fa.len() == 4 && fb.len() == 4);
        assert(fa[3] == (a as nat % 256) as u8);
        assert(fb[3] == (b as nat % 256) as u8);
        assert(fa != fb);
        let prefix = encode_utf8(COLLATION_DATABASE_ENCODING_DIGEST_DOMAIN@) + frame_str(key_digest) + frame_str(
            expression_digest,
        );
        crate::procedure_binding::lemma_suffixes_separate(prefix, fa, fb);
    }
}

} // verus!

verus! {

/// An encoding-independent collation (`collencoding = -1`) is usable in a database of every
/// backend encoding; a collation bound to one encoding is usable exactly in a database of that
/// encoding.
pub proof fn lemma_collation_usability(encoding: i32, c: CollationIdentityView)
    ensures
        c.encoding == -1 ==> usable_in(encoding, c),
        c.encoding == encoding ==> usable_in(encoding, c),
        c.encoding != -1 && c.encoding != encoding ==> !usable_in(encoding, c),
{
}

/// When every collation the evidence uses is encoding-independent, the evidence binds to a
/// database of any backend encoding.
pub proof fn lemma_encoding_independent_evidence_binds(
    encoding: i32,
    keys: Seq<KeyCollationView>,
    expressions: Seq<ExpressionCollationView>,
    relation_vars: Seq<RelationVarCollationView>,
)
    requires
        forall|i: int| 0 <= i < keys.len() && (#[trigger] keys[i]).collation is Some ==> keys[i].collation->0.encoding == -1,
        forall|i: int| 0 <= i < expressions.len() ==> (#[trigger] expressions[i]).collation.encoding == -1,
        forall|i: int|
            0 <= i < relation_vars.len() && (#[trigger] relation_vars[i]).collation is Some
                ==> relation_vars[i].collation->0.encoding == -1,
    ensures
        all_collations_usable(encoding, keys, expressions, relation_vars),
{
}

} // verus!
