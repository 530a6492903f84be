//! PostgreSQL 18 collation-definition evidence over catalog-identity predecessors.
//!
//! A catalog identity (namespace, name, raw `collencoding`) distinguishes resolved `pg_collation`
//! rows but is not their content: provider, deterministic comparison, locale fields, ICU rules and
//! the recorded and actual provider versions are. This successor keeps both versions, so a
//! provider upgrade that precedes a catalog refresh stays visible.

use vstd::prelude::*;

use crate::catalog::LineageView;
use crate::collation_identity::{
    identity_lt, lemma_identity_lt_irreflexive, lemma_identity_lt_transitive, put_identity, frame_identity,
    CollationCatalogIdentity, CollationIdentityView, IndexPartitionCollationIdentitySnapshot, KeyCollationView,
};
use crate::collation_database_encoding::{database_encoding_error, database_encoding_preimage, IndexCollationDatabaseEncodingSnapshot};
use crate::digest::{
    digest_text, finish_digest, frame_bool, frame_len, frame_optional_str, frame_str, put_bool, put_len,
    put_optional_str, put_raw, put_str, put_tag,
};
use crate::error::{fails_with_text, invalid, is_invalid_field, ObservationError};
use crate::expression_collation_identity::{ExpressionCollationView, IndexExpressionCollationIdentitySnapshot, RelationVarCollationView};
use crate::expression_relation_var_schema::same_provenance;
use crate::order::{
    has_key_collision, lemma_sorted_by_key_order_independent, lemma_text_lt_total, same_elements, same_key, sort_by_key, sorted_by_key,
    strictly_sorted, text_eq, KeyOrder, SortKey,
};
use crate::procedure_material::optional_text;
use crate::text::{contains_nul, has_nul, push_signed_decimal, push_text, signed_decimal};
use vstd::utf8::encode_utf8;

verus! {

/// PostgreSQL 18 `pg_collation.collprovider` values.
#[derive(Clone, Copy, Debug, PartialEq, Eq, Structural)]
pub enum PostgresCollationProvider {
    /// Database-default collation provider (`d`).
    DatabaseDefault,
    /// PostgreSQL built-in collation provider (`b`).
    Builtin,
    /// Operating-system libc provider (`c`).
    Libc,
    /// ICU provider (`i`).
    Icu,
}

/// The catalog token of a collation provider.
pub open spec fn provider_token(p: PostgresCollationProvider) -> u8 {
    match p {
        PostgresCollationProvider::DatabaseDefault => 100u8,
        PostgresCollationProvider::Builtin => 98u8,
        PostgresCollationProvider::Libc => 99u8,
        PostgresCollationProvider::Icu => 105u8,
    }
}

/// Field reported for an unknown provider token.
pub const PROVIDER_FIELD: &'static str = "index_collation_definition_provider";

impl PostgresCollationProvider {
    /// Returns the exact PostgreSQL catalog token (`d`, `b`, `c` or `i`).
    pub fn token(self) -> (t: u8)
        ensures
            t == provider_token(self),
    {
        match self {
            PostgresCollationProvider::DatabaseDefault => 100u8,
            PostgresCollationProvider::Builtin => 98u8,
            PostgresCollationProvider::Libc => 99u8,
            PostgresCollationProvider::Icu => 105u8,
        }
    }

    /// Parses a catalog token.
    pub fn from_token(value: char) -> (r: Result<Self, ObservationError>)
        ensures
            r is Ok <==> (value == 'd' || value == 'b' || value == 'c' || value == 'i'),
            r == provider_from_token(value),
            r matches Err(e) ==> is_invalid_field(e, PROVIDER_FIELD),
    {
        match value {
            'd' => Ok(PostgresCollationProvider::DatabaseDefault),
            'b' => Ok(PostgresCollationProvider::Builtin),
            'c' => Ok(PostgresCollationProvider::Libc),
            'i' => Ok(PostgresCollationProvider::Icu),
            _ => Err(ObservationError::InvalidObservationField { field: PROVIDER_FIELD }),
        }
    }
}

/// The provider a catalog token names, or the provider error.
pub open spec fn provider_from_token(value: char) -> Result<PostgresCollationProvider, ObservationError> {
    if value == 'd' {
        Ok(PostgresCollationProvider::DatabaseDefault)
    } else if value == 'b' {
        Ok(PostgresCollationProvider::Builtin)
    } else if value == 'c' {
        Ok(PostgresCollationProvider::Libc)
    } else if value == 'i' {
        Ok(PostgresCollationProvider::Icu)
    } else {
        Err(ObservationError::InvalidObservationField { field: PROVIDER_FIELD })
    }
}

impl TryFrom<char> for PostgresCollationProvider {
    type Error = ObservationError;

    fn try_from(value: char) -> (r: Result<Self, Self::Error>) {
        PostgresCollationProvider::from_token(value)
    }
}

impl vstd::std_specs::convert::TryFromSpecImpl<char> for PostgresCollationProvider {
    open spec fn obeys_try_from_spec() -> bool {
        true
    }

    open spec fn try_from_spec(v: char) -> Result<Self, ObservationError> {
        provider_from_token(v)
    }
}

/// The value of one collation definition.
pub struct CollationDefinitionView {
    pub identity: CollationIdentityView,
    pub provider: PostgresCollationProvider,
    pub deterministic: bool,
    pub lc_collate: Option<Seq<char>>,
    pub lc_ctype: Option<Seq<char>>,
    pub locale: Option<Seq<char>>,
    pub icu_rules: Option<Seq<char>>,
    pub version: Option<Seq<char>>,
    pub actual_version: Option<Seq<char>>,
}

/// Exact material PostgreSQL 18 definition of one resolved collation catalog identity; optional
/// texts keep SQL `NULL` apart from a present text.
#[derive(Debug, PartialEq, Eq)]
pub struct CollationDefinitionObservation {
    identity: CollationCatalogIdentity,
    provider: PostgresCollationProvider,
    deterministic: bool,
    lc_collate: Option<String>,
    lc_ctype: Option<String>,
    locale: Option<String>,
    icu_rules: Option<String>,
    version: Option<String>,
    actual_version: Option<String>,
}

impl View for CollationDefinitionObservation {
    type V = CollationDefinitionView;

    closed spec fn view(&self) -> CollationDefinitionView {
        CollationDefinitionView {
            identity: self.identity@,
            provider: self.provider,
            deterministic: self.deterministic,
            lc_collate: optional_text(self.lc_collate),
            lc_ctype: optional_text(self.lc_ctype),
            locale: optional_text(self.locale),
            icu_rules: optional_text(self.icu_rules),
            version: optional_text(self.version),
            actual_version: optional_text(self.actual_version),
        }
    }
}

/// A present text holds NUL.
pub open spec fn optional_has_nul(t: Option<Seq<char>>) -> bool {
    t matches Some(s) && has_nul(s)
}

/// Reports whether a present text holds NUL.
pub fn optional_contains_nul(t: &Option<String>) -> (b: bool)
    ensures
        b == optional_has_nul(optional_text(*t)),
{
    match t {
        Some(s) => contains_nul(s.as_str()),
        None => false,
    }
}

/// Field reported for a text holding NUL.
pub const DEFINITION_TEXT_FIELD: &'static str = "index_collation_definition_text";

/// Both versions are present and differ.
pub open spec fn versions_differ(version: Option<Seq<char>>, actual_version: Option<Seq<char>>) -> bool {
    match (version, actual_version) {
        (Some(recorded), Some(actual)) => recorded != actual,
        _ => false,
    }
}

/// Domain separator of the single-definition digest.
pub const COLLATION_DEFINITION_ITEM_DIGEST_DOMAIN: &'static str =
    "conceptweave.postgres_schema_snapshot.v3.collation_definition.v1";

/// Framing of one collation definition.
pub open spec fn frame_definition(d: CollationDefinitionView) -> Seq<u8> {
    frame_identity(d.identity) + seq![provider_token(d.provider)] + frame_bool(d.deterministic)
        + frame_definition_texts(d)
}

fn as_optional_str(t: &Option<String>) -> (r: Option<&str>)
    ensures
        match r {
            Some(s) => optional_text(*t) == Some(s@),
            None => optional_text(*t) is None,
        },
{
    match t {
        Some(s) => Some(s.as_str()),
        None => None,
    }
}

/// Framing of the six optional texts of a definition.
pub open spec fn frame_definition_texts(d: CollationDefinitionView) -> Seq<u8> {
    frame_optional_str(d.lc_collate) + frame_optional_str(d.lc_ctype) + frame_optional_str(d.locale)
        + frame_optional_str(d.icu_rules) + frame_optional_str(d.version) + frame_optional_str(d.actual_version)
}

/// Appends the tagged framing of an optional text.
pub fn put_optional_text(out: &mut Vec<u8>, t: &Option<String>)
    ensures
        final(out)@ == old(out)@ + frame_optional_str(optional_text(*t)),
{
    put_optional_str(out, as_optional_str(t));
}

fn put_definition_texts(out: &mut Vec<u8>, d: &CollationDefinitionObservation)
    ensures
        final(out)@ == old(out)@ + frame_definition_texts(d@),
{
    let ghost s0 = out@;
    let ghost a = frame_optional_str(d@.lc_collate);
    let ghost b = frame_optional_str(d@.lc_ctype);
    let ghost c = frame_optional_str(d@.locale);
    let ghost e = frame_optional_str(d@.icu_rules);
    let ghost f = frame_optional_str(d@.version);
    let ghost g = frame_optional_str(d@.actual_version);
    put_optional_text(out, &d.lc_collate);
    put_optional_text(out, &d.lc_ctype);
    proof {
        vstd::seq_lib::lemma_concat_associative(s0, a, b);
    }
    put_optional_text(out, &d.locale);
    proof {
        vstd::seq_lib::lemma_concat_associative(s0, a + b, c);
    }
    put_optional_text(out, &d.icu_rules);
    proof {
        vstd::seq_lib::lemma_concat_associative(s0, a + b + c, e);
    }
    put_optional_text(out, &d.version);
    proof {
        vstd::seq_lib::lemma_concat_associative(s0, a + b + c + e, f);
    }
    put_optional_text(out, &d.actual_version);
    proof {
        vstd::seq_lib::lemma_concat_associative(s0, a + b + c + e + f, g);
    }
}

fn put_definition(out: &mut Vec<u8>, d: &CollationDefinitionObservation)
    ensures
        final(out)@ == old(out)@ + frame_definition(d@),
{
    let ghost s0 = out@;
    let ghost a = frame_identity(d@.identity);
    let ghost b = seq![provider_token(d@.provider)];
    let ghost c = frame_bool(d@.deterministic);
    let ghost t = frame_definition_texts(d@);
    put_identity(out, &d.identity);
    put_tag(out, d.provider.token());
    proof {
        vstd::seq_lib::lemma_concat_associative(s0, a, b);
    }
    put_bool(out, d.deterministic);
    proof {
        vstd::seq_lib::lemma_concat_associative(s0, a + b, c);
    }
    put_definition_texts(out, d);
    proof {
        vstd::seq_lib::lemma_concat_associative(s0, a + b + c, t);
    }
}

impl CollationDefinitionObservation {
    /// Creates one lossless `pg_collation` definition plus actual provider-version evidence.
    pub fn new(
        identity: CollationCatalogIdentity,
        provider: PostgresCollationProvider,
        deterministic: bool,
        lc_collate: Option<String>,
        lc_ctype: Option<String>,
        locale: Option<String>,
        icu_rules: Option<String>,
        version: Option<String>,
        actual_version: Option<String>,
    ) -> (r: Result<Self, ObservationError>)
        ensures
            r is Ok <==> !optional_has_nul(optional_text(lc_collate)) && !optional_has_nul(optional_text(lc_ctype))
                && !optional_has_nul(optional_text(locale)) && !optional_has_nul(optional_text(icu_rules))
                && !optional_has_nul(optional_text(version)) && !optional_has_nul(optional_text(actual_version)),
            r matches Err(e) ==> is_invalid_field(e, DEFINITION_TEXT_FIELD),
            r matches Ok(d) ==> d@ == (CollationDefinitionView {
                identity: identity@,
                provider,
                deterministic,
                lc_collate: optional_text(lc_collate),
                lc_ctype: optional_text(lc_ctype),
                locale: optional_text(locale),
                icu_rules: optional_text(icu_rules),
                version: optional_text(version),
                actual_version: optional_text(actual_version),
            }),
    {
        if optional_contains_nul(&lc_collate) || optional_contains_nul(&lc_ctype) || optional_contains_nul(&locale)
            || optional_contains_nul(&icu_rules) || optional_contains_nul(&version) || optional_contains_nul(
            &actual_version,
        ) {
            return Err(invalid(DEFINITION_TEXT_FIELD));
        }
        Ok(CollationDefinitionObservation {
            identity,
            provider,
            deterministic,
            lc_collate,
            lc_ctype,
            locale,
            icu_rules,
            version,
            actual_version,
        })
    }

    /// Returns the namespace/name/encoding catalog identity.
    pub fn identity(&self) -> (c: &CollationCatalogIdentity)
        ensures
            c@ == self@.identity,
    {
        &self.identity
    }

    /// Returns `pg_collation.collprovider`.
    pub fn provider(&self) -> (p: PostgresCollationProvider)
        ensures
            p == self@.provider,
    {
        self.provider
    }

    /// Returns `pg_collation.collisdeterministic`.
    pub fn deterministic(&self) -> (b: bool)
        ensures
            b == self@.deterministic,
    {
        self.deterministic
    }

    /// Returns `pg_collation.collcollate`.
    pub fn lc_collate(&self) -> (t: Option<&str>)
        ensures
            match t {
                Some(s) => self@.lc_collate == Some(s@),
                None => self@.lc_collate is None,
            },
    {
        as_optional_str(&self.lc_collate)
    }

    /// Returns `pg_collation.collctype`.
    pub fn lc_ctype(&self) -> (t: Option<&str>)
        ensures
            match t {
                Some(s) => self@.lc_ctype == Some(s@),
                None => self@.lc_ctype is None,
            },
    {
        as_optional_str(&self.lc_ctype)
    }

    /// Returns `pg_collation.colllocale`.
    pub fn locale(&self) -> (t: Option<&str>)
        ensures
            match t {
                Some(s) => self@.locale == Some(s@),
                None => self@.locale is None,
            },
    {
        as_optional_str(&self.locale)
    }

    /// Returns `pg_collation.collicurules`.
    pub fn icu_rules(&self) -> (t: Option<&str>)
        ensures
            match t {
                Some(s) => self@.icu_rules == Some(s@),
                None => self@.icu_rules is None,
            },
    {
        as_optional_str(&self.icu_rules)
    }

    /// Returns the recorded `pg_collation.collversion`.
    pub fn version(&self) -> (t: Option<&str>)
        ensures
            match t {
                Some(s) => self@.version == Some(s@),
                None => self@.version is None,
            },
    {
        as_optional_str(&self.version)
    }

    /// Returns the capture-time `pg_collation_actual_version(oid)`.
    pub fn actual_version(&self) -> (t: Option<&str>)
        ensures
            match t {
                Some(s) => self@.actual_version == Some(s@),
                None => self@.actual_version is None,
            },
    {
        as_optional_str(&self.actual_version)
    }

    /// Reports a stored-versus-actual provider-version mismatch when both are available.
    pub fn has_version_mismatch(&self) -> (b: bool)
        ensures
            b == versions_differ(self@.version, self@.actual_version),
            b <==> (self@.version is Some && self@.actual_version is Some && self@.version->0
                != self@.actual_version->0),
    {
        match (&self.version, &self.actual_version) {
            (Some(recorded), Some(actual)) => !text_eq(recorded.as_str(), actual.as_str()),
            _ => false,
        }
    }

    /// Returns a domain-separated digest of this exact material definition.
    pub fn canonical_digest(&self) -> (d: String)
        ensures
            d@ == digest_text(encode_utf8(COLLATION_DEFINITION_ITEM_DIGEST_DOMAIN@) + frame_definition(self@)),
    {
        let mut out: Vec<u8> = Vec::new();
        put_raw(&mut out, COLLATION_DEFINITION_ITEM_DIGEST_DOMAIN.as_bytes());
        put_definition(&mut out, self);
        finish_digest(&out)
    }
}

impl SortKey for CollationDefinitionObservation {
    open spec fn key_lt(self, other: Self) -> bool {
        identity_lt(self@.identity, other@.identity)
    }

    proof fn lemma_key_lt_transitive(a: Self, b: Self, c: Self) {
        lemma_identity_lt_transitive(a@.identity, b@.identity, c@.identity);
    }

    proof fn lemma_key_lt_irreflexive(a: Self) {
        lemma_identity_lt_irreflexive(a@.identity);
    }

    fn compare_key(&self, other: &Self) -> (o: KeyOrder) {
        self.identity.compare(&other.identity)
    }
}

/// Two different collation identities are ordered one way or the other.
pub proof fn lemma_identity_lt_total(a: CollationIdentityView, b: CollationIdentityView)
    requires
        a != b,
    ensures
        identity_lt(a, b) || identity_lt(b, a),
{
    if a.schema_name != b.schema_name {
        lemma_text_lt_total(a.schema_name, b.schema_name);
    } else if a.collation_name != b.collation_name {
        lemma_text_lt_total(a.collation_name, b.collation_name);
    }
}

} // verus!

verus! {

/// The values of a sequence of definitions.
pub open spec fn definition_views(s: Seq<CollationDefinitionObservation>) -> Seq<CollationDefinitionView> {
    s.map_values(|d: CollationDefinitionObservation| d@)
}

/// Some definition is for identity `c`.
pub open spec fn defined(defs: Seq<CollationDefinitionView>, c: CollationIdentityView) -> bool {
    exists|d: int| 0 <= d < defs.len() && (#[trigger] defs[d]).identity == c
}

/// `c` is a non-null identity used by the key, expression or relation-`Var` evidence.
pub open spec fn required_identity(
    keys: Seq<KeyCollationView>,
    expressions: Seq<ExpressionCollationView>,
    relation_vars: Seq<RelationVarCollationView>,
    c: CollationIdentityView,
) -> bool {
    ||| exists|i: int| 0 <= i < keys.len() && (#[trigger] keys[i]).collation == Some(c)
    ||| exists|i: int| 0 <= i < expressions.len() && (#[trigger] expressions[i]).collation == c
    ||| exists|i: int| 0 <= i < relation_vars.len() && (#[trigger] relation_vars[i]).collation == Some(c)
}

/// The definitions cover exactly the used identities.
pub open spec fn definitions_complete(
    keys: Seq<KeyCollationView>,
    expressions: Seq<ExpressionCollationView>,
    relation_vars: Seq<RelationVarCollationView>,
    defs: Seq<CollationDefinitionView>,
) -> bool {
    &&& forall|d: int| 0 <= d < defs.len() ==> required_identity(keys, expressions, relation_vars, (#[trigger] defs[d]).identity)
    &&& forall|i: int| 0 <= i < keys.len() && (#[trigger] keys[i]).collation is Some ==> defined(defs, keys[i].collation->0)
    &&& forall|i: int| 0 <= i < expressions.len() ==> defined(defs, (#[trigger] expressions[i]).collation)
    &&& forall|i: int|
        0 <= i < relation_vars.len() && (#[trigger] relation_vars[i]).collation is Some ==> defined(
            defs,
            relation_vars[i].collation->0,
        )
}

/// Two definitions are for the same identity.
pub open spec fn duplicate_definition(defs: Seq<CollationDefinitionView>) -> bool {
    exists|i: int, j: int| 0 <= i < j < defs.len() && defs[i].identity == defs[j].identity
}

/// Domain separator of the collation-definition snapshot digest.
pub const COLLATION_DEFINITION_DIGEST_DOMAIN: &'static str =
    "conceptweave.postgres_schema_snapshot.v3.relation_partition.index_partition.expression_collation_catalog_identity.database_encoding.definition.v1";

/// Field reported when the predecessors do not rebind.
pub const DEFINITION_PREDECESSOR_FIELD: &'static str = "index_collation_definition_predecessor";

/// Field reported when the predecessors disagree in provenance.
pub const DEFINITION_PROVENANCE_FIELD: &'static str = "index_collation_definition_provenance";

/// Field reported when the definitions do not cover exactly the used identities.
pub const DEFINITION_COMPLETENESS_FIELD: &'static str = "index_collation_definition_completeness";

/// Framing of a sequence of definitions, in order.
pub open spec fn frame_definitions(s: Seq<CollationDefinitionView>) -> Seq<u8>
    decreases s.len(),
{
    if s.len() == 0 {
        Seq::empty()
    } else {
        frame_definitions(s.drop_last()) + frame_definition(s.last())
    }
}

/// The preimage of the collation-definition snapshot digest.
pub open spec fn definition_snapshot_preimage(predecessor_digest: Seq<char>, defs: Seq<CollationDefinitionView>) -> Seq<u8> {
    encode_utf8(COLLATION_DEFINITION_DIGEST_DOMAIN@) + frame_str(predecessor_digest) + frame_len(defs.len())
        + frame_definitions(defs)
}

/// The predecessors bind: the database-encoding binding was issued over exactly these key and
/// expression snapshots, with their provenance.
pub open spec fn definition_predecessors_error(
    encoding: IndexCollationDatabaseEncodingSnapshot,
    key: IndexPartitionCollationIdentitySnapshot,
    expression: IndexExpressionCollationIdentitySnapshot,
) -> Option<Seq<char>> {
    if encoding.key_collation_predecessor() != key.lineage().snapshot_digest
        || encoding.expression_collation_predecessor() != expression.lineage().snapshot_digest {
        Some(DEFINITION_PREDECESSOR_FIELD@)
    } else if database_encoding_error(encoding.encoding_view(), key, expression) is Some {
        database_encoding_error(encoding.encoding_view(), key, expression)
    } else if digest_text(
        database_encoding_preimage(key.lineage().snapshot_digest, expression.lineage().snapshot_digest, encoding.encoding_view()),
    ) != encoding.lineage().snapshot_digest {
        Some(DEFINITION_PREDECESSOR_FIELD@)
    } else if !same_provenance(encoding.lineage(), key.lineage()) || !same_provenance(encoding.lineage(), expression.lineage()) {
        Some(DEFINITION_PROVENANCE_FIELD@)
    } else {
        None
    }
}

/// The field reported when the definition snapshot is refused, or `None` when it is issued.
pub open spec fn definition_snapshot_error(
    encoding: IndexCollationDatabaseEncodingSnapshot,
    key: IndexPartitionCollationIdentitySnapshot,
    expression: IndexExpressionCollationIdentitySnapshot,
    defs: Seq<CollationDefinitionObservation>,
) -> Option<Seq<char>> {
    if definition_predecessors_error(encoding, key, expression) is Some {
        definition_predecessors_error(encoding, key, expression)
    } else if duplicate_definition(definition_views(defs)) || !definitions_complete(
        key.observation_views(),
        expression.expression_views(),
        expression.relation_var_views(),
        definition_views(defs),
    ) {
        Some(DEFINITION_COMPLETENESS_FIELD@)
    } else {
        None
    }
}

fn validate_definition_predecessors(
    encoding: &IndexCollationDatabaseEncodingSnapshot,
    key: &IndexPartitionCollationIdentitySnapshot,
    expression: &IndexExpressionCollationIdentitySnapshot,
) -> (r: Result<(), ObservationError>)
    ensures
        r is Ok <==> definition_predecessors_error(*encoding, *key, *expression) is None,
        r is Err ==> fails_with_text(r, definition_predecessors_error(*encoding, *key, *expression)->0),
{
    if !text_eq(encoding.key_collation_predecessor_digest(), key.snapshot_digest()) || !text_eq(
        encoding.expression_collation_predecessor_digest(),
        expression.snapshot_digest(),
    ) {
        return Err(invalid(DEFINITION_PREDECESSOR_FIELD));
    }
    let rebound = IndexCollationDatabaseEncodingSnapshot::new(encoding.database_encoding(), key, expression)?;
    if !text_eq(rebound.snapshot_digest(), encoding.snapshot_digest()) {
        return Err(invalid(DEFINITION_PREDECESSOR_FIELD));
    }
    if !text_eq(encoding.source_connection_key(), key.source_connection_key()) || !text_eq(
        encoding.connection_policy_binding(),
        key.connection_policy_binding(),
    ) || !text_eq(encoding.extractor_revision(), key.extractor_revision()) || !text_eq(
        encoding.observed_at_utc(),
        key.observed_at_utc(),
    ) || !text_eq(encoding.source_connection_key(), expression.source_connection_key()) || !text_eq(
        encoding.connection_policy_binding(),
        expression.connection_policy_binding(),
    ) || !text_eq(encoding.extractor_revision(), expression.extractor_revision()) || !text_eq(
        encoding.observed_at_utc(),
        expression.observed_at_utc(),
    ) {
        return Err(invalid(DEFINITION_PROVENANCE_FIELD));
    }
    Ok(())
}

fn find_definition(defs: &[CollationDefinitionObservation], c: &CollationCatalogIdentity) -> (b: bool)
    ensures
        b == defined(definition_views(defs@), c@),
{
    let ghost dv = definition_views(defs@);
    let mut i: usize = 0;
    while i < defs.len()
        invariant
            i <= defs@.len(),
            dv == definition_views(defs@),
            forall|k: int| 0 <= k < i ==> (#[trigger] dv[k]).identity != c@,
        decreases defs@.len() - i,
    {
        assert(dv[i as int] == defs@[i as int]@);
        if defs[i].identity().same_as(c) {
            return true;
        }
        i = i + 1;
    }
    false
}

#[verifier::loop_isolation(false)]
fn is_required(
    key: &IndexPartitionCollationIdentitySnapshot,
    expression: &IndexExpressionCollationIdentitySnapshot,
    c: &CollationCatalogIdentity,
) -> (b: bool)
    ensures
        b == required_identity(key.observation_views(), expression.expression_views(), expression.relation_var_views(), c@),
{
    let ghost kv = key.observation_views();
    let ghost ev = expression.expression_views();
    let ghost rv = expression.relation_var_views();
    let keys = key.observations();
    let mut i: usize = 0;
    while i < keys.len()
        invariant
            i <= keys@.len(),
            kv == crate::collation_identity::key_collation_views(keys@),
            forall|k: int| 0 <= k < i ==> (#[trigger] kv[k]).collation != Some(c@),
        decreases keys@.len() - i,
    {
        assert(kv[i as int] == keys@[i as int]@);
        match keys[i].collation() {
            Some(x) => {
                if x.same_as(c) {
                    return true;
                }
            },
            None => {},
        }
        i = i + 1;
    }
    let expressions = expression.expression_observations();
    let mut j: usize = 0;
    while j < expressions.len()
        invariant
            j <= expressions@.len(),
            ev == crate::expression_collation_identity::expression_collation_views(expressions@),
            forall|k: int| 0 <= k < j ==> (#[trigger] ev[k]).collation != c@,
        decreases expressions@.len() - j,
    {
        assert(ev[j as int] == expressions@[j as int]@);
        if expressions[j].collation().same_as(c) {
            return true;
        }
        j = j + 1;
    }
    let relation_vars = expression.relation_var_observations();
    let mut m: usize = 0;
    while m < relation_vars.len()
        invariant
            m <= relation_vars@.len(),
            rv == crate::expression_collation_identity::relation_var_collation_views(relation_vars@),
            forall|k: int| 0 <= k < m ==> (#[trigger] rv[k]).collation != Some(c@),
        decreases relation_vars@.len() - m,
    {
        assert(rv[m as int] == relation_vars@[m as int]@);
        match relation_vars[m].collation() {
            Some(x) => {
                if x.same_as(c) {
                    return true;
                }
            },
            None => {},
        }
        m = m + 1;
    }
    false
}

#[verifier::loop_isolation(false)]
fn definitions_are_complete(
    key: &IndexPartitionCollationIdentitySnapshot,
    expression: &IndexExpressionCollationIdentitySnapshot,
    defs: &[CollationDefinitionObservation],
) -> (b: bool)
    ensures
        b == definitions_complete(
            key.observation_views(),
            expression.expression_views(),
            expression.relation_var_views(),
            definition_views(defs@),
        ),
{
    let ghost kv = key.observation_views();
    let ghost ev = expression.expression_views();
    let ghost rv = expression.relation_var_views();
    let ghost dv = definition_views(defs@);
    let mut d: usize = 0;
    while d < defs.len()
        invariant
            d <= defs@.len(),
            forall|k: int| 0 <= k < d ==> required_identity(kv, ev, rv, (#[trigger] dv[k]).identity),
        decreases defs@.len() - d,
    {
        assert(dv[d as int] == defs@[d as int]@);
        if !is_required(key, expression, defs[d].identity()) {
            return false;
        }
        d = d + 1;
    }
    let keys = key.observations();
    let mut i: usize = 0;
    while i < keys.len()
        invariant
            i <= keys@.len(),
            kv == crate::collation_identity::key_collation_views(keys@),
            forall|k: int| 0 <= k < dv.len() ==> required_identity(kv, ev, rv, (#[trigger] dv[k]).identity),
            forall|k: int| 0 <= k < i && (#[trigger] kv[k]).collation is Some ==> defined(dv, kv[k].collation->0),
        decreases keys@.len() - i,
    {
        assert(kv[i as int] == keys@[i as int]@);
        match keys[i].collation() {
            Some(x) => {
                if !find_definition(defs, x) {
                    return false;
                }
            },
            None => {},
        }
        i = i + 1;
    }
    let expressions = expression.expression_observations();
    let mut j: usize = 0;
    while j < expressions.len()
        invariant
            j <= expressions@.len(),
            ev == crate::expression_collation_identity::expression_collation_views(expressions@),
            forall|k: int| 0 <= k < dv.len() ==> required_identity(kv, ev, rv, (#[trigger] dv[k]).identity),
            forall|k: int| 0 <= k < kv.len() && (#[trigger] kv[k]).collation is Some ==> defined(dv, kv[k].collation->0),
            forall|k: int| 0 <= k < j ==> defined(dv, (#[trigger] ev[k]).collation),
        decreases expressions@.len() - j,
    {
        assert(ev[j as int] == expressions@[j as int]@);
        if !find_definition(defs, expressions[j].collation()) {
            return false;
        }
        j = j + 1;
    }
    let relation_vars = expression.relation_var_observations();
    let mut m: usize = 0;
    while m < relation_vars.len()
        invariant
            m <= relation_vars@.len(),
            rv == crate::expression_collation_identity::relation_var_collation_views(relation_vars@),
            forall|k: int| 0 <= k < dv.len() ==> required_identity(kv, ev, rv, (#[trigger] dv[k]).identity),
            forall|k: int| 0 <= k < kv.len() && (#[trigger] kv[k]).collation is Some ==> defined(dv, kv[k].collation->0),
            forall|k: int| 0 <= k < ev.len() ==> defined(dv, (#[trigger] ev[k]).collation),
            forall|k: int| 0 <= k < m && (#[trigger] rv[k]).collation is Some ==> defined(dv, rv[k].collation->0),
        decreases relation_vars@.len() - m,
    {
        assert(rv[m as int] == relation_vars@[m as int]@);
        match relation_vars[m].collation() {
            Some(x) => {
                if !find_definition(defs, x) {
                    return false;
                }
            },
            None => {},
        }
        m = m + 1;
    }
    true
}

} // verus!

verus! {

proof fn lemma_definition_collision(s: Seq<CollationDefinitionObservation>)
    ensures
        has_key_collision(s) <==> duplicate_definition(definition_views(s)),
{
    let v = definition_views(s);
    if has_key_collision(s) {
        let (i, j) = choose|i: int, j: int| 0 <= i < j < s.len() && same_key(#[trigger] s[i], #[trigger] s[j]);
        if v[i].identity != v[j].identity {
            lemma_identity_lt_total(v[i].identity, v[j].identity);
        }
    }
    if duplicate_definition(v) {
        let (i, j) = choose|i: int, j: int| 0 <= i < j < v.len() && v[i].identity == v[j].identity;
        lemma_identity_lt_irreflexive(v[i].identity);
        assert(same_key(s[i], s[j]));
    }
}

proof fn lemma_defined_transfer(a: Seq<CollationDefinitionObservation>, b: Seq<CollationDefinitionObservation>, c: CollationIdentityView)
    requires
        same_elements(a, b),
        defined(definition_views(a), c),
    ensures
        defined(definition_views(b), c),
{
    let va = definition_views(a);
    let d = choose|d: int| 0 <= d < va.len() && (#[trigger] va[d]).identity == c;
    assert(b.contains(a[d]));
    let k = choose|k: int| 0 <= k < b.len() && b[k] == a[d];
    assert(definition_views(b)[k] == va[d]);
}

proof fn lemma_definitions_complete_transfer(
    keys: Seq<KeyCollationView>,
    expressions: Seq<ExpressionCollationView>,
    relation_vars: Seq<RelationVarCollationView>,
    a: Seq<CollationDefinitionObservation>,
    b: Seq<CollationDefinitionObservation>,
)
    requires
        same_elements(a, b),
        definitions_complete(keys, expressions, relation_vars, definition_views(a)),
    ensures
        definitions_complete(keys, expressions, relation_vars, definition_views(b)),
{
    let va = definition_views(a);
    let vb = definition_views(b);
    assert forall|d: int| 0 <= d < vb.len() implies required_identity(keys, expressions, relation_vars, (#[trigger] vb[d]).identity) by {
        assert(a.contains(b[d]));
        let k = choose|k: int| 0 <= k < a.len() && a[k] == b[d];
        assert(va[k] == vb[d]);
    }
    assert forall|i: int| 0 <= i < keys.len() && (#[trigger] keys[i]).collation is Some implies defined(vb, keys[i].collation->0) by {
        lemma_defined_transfer(a, b, keys[i].collation->0);
    }
    assert forall|i: int| 0 <= i < expressions.len() implies defined(vb, (#[trigger] expressions[i]).collation) by {
        lemma_defined_transfer(a, b, expressions[i].collation);
    }
    assert forall|i: int| 0 <= i < relation_vars.len() && (#[trigger] relation_vars[i]).collation is Some implies defined(
        vb,
        relation_vars[i].collation->0,
    ) by {
        lemma_defined_transfer(a, b, relation_vars[i].collation->0);
    }
}

fn compute_definition_snapshot_digest(predecessor_digest: &str, defs: &[CollationDefinitionObservation]) -> (d: String)
    ensures
        d@ == digest_text(definition_snapshot_preimage(predecessor_digest@, definition_views(defs@))),
        crate::digest::issued_digest_form(d@),
{
    let ghost dv = definition_views(defs@);
    let mut out: Vec<u8> = Vec::new();
    put_raw(&mut out, COLLATION_DEFINITION_DIGEST_DOMAIN.as_bytes());
    put_str(&mut out, predecessor_digest);
    put_len(&mut out, defs.len());
    let ghost header = out@;
    let mut i: usize = 0;
    while i < defs.len()
        invariant
            i <= defs@.len(),
            dv == definition_views(defs@),
            out@ == header + frame_definitions(dv.subrange(0, i as int)),
        decreases defs@.len() - i,
    {
        put_definition(&mut out, &defs[i]);
        proof {
            let next = dv.subrange(0, i + 1);
            assert(next.drop_last() =~= dv.subrange(0, i as int));
            assert(next.last() == defs@[i as int]@);
            assert(out@ =~= header + frame_definitions(next));
        }
        i = i + 1;
    }
    proof {
        assert(dv.subrange(0, defs@.len() as int) =~= dv);
    }
    finish_digest(&out)
}

/// The location text of one collation definition: `/collations/{schema}/{name}/encoding/{e}/definition`.
pub open spec fn definition_location_text(c: CollationIdentityView) -> Seq<char> {
    "/collations/"@ + c.schema_name + "/"@ + c.collation_name + "/encoding/"@ + signed_decimal(c.encoding as int)
        + "/definition"@
}

/// Complete material collation-definition evidence for every collation the modeled indexes use.
#[derive(Debug, PartialEq, Eq)]
pub struct IndexCollationDefinitionSnapshot {
    source_connection_key: String,
    connection_policy_binding: String,
    predecessor_digest: String,
    snapshot_digest: String,
    extractor_revision: String,
    observed_at_utc: String,
    definitions: Vec<CollationDefinitionObservation>,
}

impl IndexCollationDefinitionSnapshot {
    /// The provenance of this snapshot, with its own digest.
    pub closed spec fn lineage(&self) -> LineageView {
        LineageView {
            source_connection_key: self.source_connection_key@,
            connection_policy_binding: self.connection_policy_binding@,
            snapshot_digest: self.snapshot_digest@,
            extractor_revision: self.extractor_revision@,
            observed_at_utc: self.observed_at_utc@,
        }
    }

    /// The database-encoding digest this snapshot consumed.
    pub closed spec fn predecessor(&self) -> Seq<char> {
        self.predecessor_digest@
    }

    /// The definitions, in identity order.
    pub closed spec fn definition_views(&self) -> Seq<CollationDefinitionView> {
        definition_views(self.definitions@)
    }

    /// The definitions themselves, in identity order.
    pub closed spec fn definition_items(&self) -> Seq<CollationDefinitionObservation> {
        self.definitions@
    }

    /// Issued definition evidence holds its definitions in strict identity order.
    #[verifier::type_invariant]
    closed spec fn definitions_sorted_strictly(self) -> bool {
        strictly_sorted(self.definitions@)
    }

    /// Creates complete material collation-definition evidence over the rebound predecessors:
    /// exactly one definition for every non-null identity the key, expression and relation-`Var`
    /// evidence uses.
    pub fn new(
        database_encoding_predecessor: &IndexCollationDatabaseEncodingSnapshot,
        key_collation_predecessor: &IndexPartitionCollationIdentitySnapshot,
        expression_collation_predecessor: &IndexExpressionCollationIdentitySnapshot,
        definitions: Vec<CollationDefinitionObservation>,
    ) -> (r: Result<Self, ObservationError>)
        ensures
            r is Ok <==> definition_snapshot_error(
                *database_encoding_predecessor,
                *key_collation_predecessor,
                *expression_collation_predecessor,
                definitions@,
            ) is None,
            r is Err ==> fails_with_text(
                r,
                definition_snapshot_error(
                    *database_encoding_predecessor,
                    *key_collation_predecessor,
                    *expression_collation_predecessor,
                    definitions@,
                )->0,
            ),
            r matches Ok(s) ==> {
                &&& s.predecessor() == database_encoding_predecessor.lineage().snapshot_digest
                &&& s.definition_items() == sorted_by_key(definitions@)
                &&& strictly_sorted(s.definition_items())
                &&& same_elements(s.definition_items(), definitions@)
                &&& s.definition_views() == definition_views(sorted_by_key(definitions@))
                &&& crate::digest::issued_digest_form(s.lineage().snapshot_digest)
                &&& s.lineage() == (LineageView {
                    snapshot_digest: digest_text(
                        definition_snapshot_preimage(
                            database_encoding_predecessor.lineage().snapshot_digest,
                            s.definition_views(),
                        ),
                    ),
                    ..database_encoding_predecessor.lineage()
                })
            },
    {
        let ghost input = definitions@;
        validate_definition_predecessors(
            database_encoding_predecessor,
            key_collation_predecessor,
            expression_collation_predecessor,
        )?;
        proof {
            lemma_definition_collision(input);
        }
        let sorted = match sort_by_key(definitions) {
            Some(v) => v,
            None => {
                return Err(invalid(DEFINITION_COMPLETENESS_FIELD));
            },
        };
        proof {
            crate::order::lemma_same_elements_symmetric(sorted@, input);
            let kv = key_collation_predecessor.observation_views();
            let ev = expression_collation_predecessor.expression_views();
            let rv = expression_collation_predecessor.relation_var_views();
            if definitions_complete(kv, ev, rv, definition_views(input)) {
                lemma_definitions_complete_transfer(kv, ev, rv, input, sorted@);
            }
            if definitions_complete(kv, ev, rv, definition_views(sorted@)) {
                lemma_definitions_complete_transfer(kv, ev, rv, sorted@, input);
            }
        }
        if !definitions_are_complete(key_collation_predecessor, expression_collation_predecessor, sorted.as_slice()) {
            return Err(invalid(DEFINITION_COMPLETENESS_FIELD));
        }
        let predecessor_digest = database_encoding_predecessor.snapshot_digest().to_owned();
        let snapshot_digest = compute_definition_snapshot_digest(predecessor_digest.as_str(), sorted.as_slice());
        Ok(IndexCollationDefinitionSnapshot {
            source_connection_key: database_encoding_predecessor.source_connection_key().to_owned(),
            connection_policy_binding: database_encoding_predecessor.connection_policy_binding().to_owned(),
            predecessor_digest,
            snapshot_digest,
            extractor_revision: database_encoding_predecessor.extractor_revision().to_owned(),
            observed_at_utc: database_encoding_predecessor.observed_at_utc().to_owned(),
            definitions: sorted,
        })
    }

    /// Returns the stable source registry key.
    pub fn source_connection_key(&self) -> (s: &str)
        ensures
            s@ == self.lineage().source_connection_key,
    {
        self.source_connection_key.as_str()
    }

    /// Returns the immutable connection-policy binding.
    pub fn connection_policy_binding(&self) -> (s: &str)
        ensures
            s@ == self.lineage().connection_policy_binding,
    {
        self.connection_policy_binding.as_str()
    }

    /// Returns the database-encoding predecessor digest.
    pub fn predecessor_digest(&self) -> (s: &str)
        ensures
            s@ == self.predecessor(),
    {
        self.predecessor_digest.as_str()
    }

    /// Returns the domain-separated material collation-definition digest.
    pub fn snapshot_digest(&self) -> (s: &str)
        ensures
            s@ == self.lineage().snapshot_digest,
    {
        self.snapshot_digest.as_str()
    }

    /// Returns the exact extractor revision inherited from the predecessor stack.
    pub fn extractor_revision(&self) -> (s: &str)
        ensures
            s@ == self.lineage().extractor_revision,
    {
        self.extractor_revision.as_str()
    }

    /// Returns the exact canonical observation time inherited from the predecessor stack.
    pub fn observed_at_utc(&self) -> (s: &str)
        ensures
            s@ == self.lineage().observed_at_utc,
    {
        self.observed_at_utc.as_str()
    }

    /// Returns the definitions in catalog-identity order.
    pub fn definitions(&self) -> (d: &[CollationDefinitionObservation])
        ensures
            d@ == self.definition_items(),
            definition_views(d@) == self.definition_views(),
            strictly_sorted(d@),
    {
        proof {
            use_type_invariant(self);
        }
        self.definitions.as_slice()
    }

    /// Reports whether any definition has a recorded-versus-actual provider-version mismatch.
    pub fn has_version_mismatch(&self) -> (b: bool)
        ensures
            b == exists|i: int|
                0 <= i < self.definition_views().len() && versions_differ(
                    (#[trigger] self.definition_views()[i]).version,
                    self.definition_views()[i].actual_version,
                ),
    {
        let ghost dv = self.definition_views();
        let mut i: usize = 0;
        while i < self.definitions.len()
            invariant
                i <= self.definitions@.len(),
                dv == definition_views(self.definitions@),
                forall|k: int| 0 <= k < i ==> !versions_differ((#[trigger] dv[k]).version, dv[k].actual_version),
            decreases self.definitions@.len() - i,
        {
            assert(dv[i as int] == self.definitions@[i as int]@);
            if self.definitions[i].has_version_mismatch() {
                return true;
            }
            i = i + 1;
        }
        false
    }

    /// Issues provenance for one exact collation definition of this snapshot.
    pub fn source_receipt(&self, identity: &CollationCatalogIdentity) -> (r: Result<CollationDefinitionSourceReceipt, ObservationError>)
        ensures
            r is Ok <==> defined(self.definition_views(), identity@),
            r matches Ok(receipt) ==> receipt.lineage() == self.lineage() && receipt.identity_view() == identity@,
            r matches Err(e) ==> e matches ObservationError::UnknownObservationLocation { location: l } && l@
                == definition_location_text(identity@),
    {
        if !find_definition(self.definitions.as_slice(), identity) {
            let mut location = String::new();
            push_text(&mut location, "/collations/");
            push_text(&mut location, identity.schema_name());
            push_text(&mut location, "/");
            push_text(&mut location, identity.collation_name());
            push_text(&mut location, "/encoding/");
            push_signed_decimal(&mut location, identity.encoding());
            push_text(&mut location, "/definition");
            proof {
                reveal_strlit("/collations/");
                reveal_strlit("/");
                reveal_strlit("/encoding/");
                reveal_strlit("/definition");
                assert(location@ =~= definition_location_text(identity@));
            }
            return Err(ObservationError::UnknownObservationLocation { location });
        }
        Ok(CollationDefinitionSourceReceipt {
            source_id: self.source_connection_key.clone(),
            connection_policy_binding: self.connection_policy_binding.clone(),
            source_digest: self.snapshot_digest.clone(),
            extractor_revision: self.extractor_revision.clone(),
            observed_at_utc: self.observed_at_utc.clone(),
            identity: identity.clone(),
        })
    }
}

/// Immutable receipt for one exact collation definition.
#[derive(Debug, PartialEq, Eq)]
pub struct CollationDefinitionSourceReceipt {
    source_id: String,
    connection_policy_binding: String,
    source_digest: String,
    extractor_revision: String,
    observed_at_utc: String,
    identity: CollationCatalogIdentity,
}

impl CollationDefinitionSourceReceipt {
    /// The provenance carried by this receipt.
    pub closed spec fn lineage(&self) -> LineageView {
        LineageView {
            source_connection_key: self.source_id@,
            connection_policy_binding: self.connection_policy_binding@,
            snapshot_digest: self.source_digest@,
            extractor_revision: self.extractor_revision@,
            observed_at_utc: self.observed_at_utc@,
        }
    }

    /// The identity covered by this receipt.
    pub closed spec fn identity_view(&self) -> CollationIdentityView {
        self.identity@
    }

    /// Returns the stable source registry key, never credentials.
    pub fn source_id(&self) -> (s: &str)
        ensures
            s@ == self.lineage().source_connection_key,
    {
        self.source_id.as_str()
    }

    /// Returns the immutable connection-policy binding.
    pub fn connection_policy_binding(&self) -> (s: &str)
        ensures
            s@ == self.lineage().connection_policy_binding,
    {
        self.connection_policy_binding.as_str()
    }

    /// Returns the complete definition snapshot digest.
    pub fn source_digest(&self) -> (s: &str)
        ensures
            s@ == self.lineage().snapshot_digest,
    {
        self.source_digest.as_str()
    }

    /// Returns the exact extractor revision inherited from the predecessor stack.
    pub fn extractor_revision(&self) -> (s: &str)
        ensures
            s@ == self.lineage().extractor_revision,
    {
        self.extractor_revision.as_str()
    }

    /// Returns the exact canonical observation time inherited from the predecessor stack.
    pub fn observed_at_utc(&self) -> (s: &str)
        ensures
            s@ == self.lineage().observed_at_utc,
    {
        self.observed_at_utc.as_str()
    }

    /// Returns the collation catalog identity covered by this receipt.
    pub fn identity(&self) -> (c: &CollationCatalogIdentity)
        ensures
            c@ == self.identity_view(),
    {
        &self.identity
    }
}

} // verus!

verus! {

/// Copies an optional text.
pub fn clone_optional_text(t: &Option<String>) -> (c: Option<String>)
    ensures
        optional_text(c) == optional_text(*t),
{
    match t {
        Some(s) => Some(s.clone()),
        None => None,
    }
}

impl Clone for CollationDefinitionObservation {
    fn clone(&self) -> (c: Self)
        ensures
            c@ == self@,
    {
        CollationDefinitionObservation {
            identity: self.identity.clone(),
            provider: self.provider,
            deterministic: self.deterministic,
            lc_collate: clone_optional_text(&self.lc_collate),
            lc_ctype: clone_optional_text(&self.lc_ctype),
            locale: clone_optional_text(&self.locale),
            icu_rules: clone_optional_text(&self.icu_rules),
            version: clone_optional_text(&self.version),
            actual_version: clone_optional_text(&self.actual_version),
        }
    }
}

/// Copies definitions value for value.
pub fn clone_definitions(s: &[CollationDefinitionObservation]) -> (v: Vec<CollationDefinitionObservation>)
    ensures
        definition_views(v@) == definition_views(s@),
{
    let mut v: Vec<CollationDefinitionObservation> = Vec::new();
    let mut i: usize = 0;
    while i < s.len()
        invariant
            i <= s@.len(),
            definition_views(v@) == definition_views(s@).subrange(0, i as int),
        decreases s@.len() - i,
    {
        let c = s[i].clone();
        let ghost before = v@;
        v.push(c);
        proof {
            assert(definition_views(v@) =~= definition_views(before).push(c@));
            assert(definition_views(s@).subrange(0, i + 1) =~= definition_views(s@).subrange(0, i as int).push(s@[i as int]@));
        }
        i = i + 1;
    }
    proof {
        assert(definition_views(s@).subrange(0, s@.len() as int) =~= definition_views(s@));
    }
    v
}

/// Definitions in strictly increasing identity order.
pub open spec fn definitions_sorted(v: Seq<CollationDefinitionView>) -> bool {
    forall|i: int, j: int| 0 <= i < j < v.len() ==> identity_lt((#[trigger] v[i]).identity, (#[trigger] v[j]).identity)
}

/// Two sequences of definition values hold the same values.
pub open spec fn same_definition_values(a: Seq<CollationDefinitionView>, b: Seq<CollationDefinitionView>) -> bool {
    &&& a.len() == b.len()
    &&& forall|i: int| 0 <= i < a.len() ==> b.contains(#[trigger] a[i])
    &&& forall|i: int| 0 <= i < b.len() ==> a.contains(#[trigger] b[i])
}

/// A sorted arrangement of definitions has sorted values holding the same values.
pub proof fn lemma_sorted_definition_views(sorted: Seq<CollationDefinitionObservation>, given: Seq<CollationDefinitionObservation>)
    requires
        strictly_sorted(sorted),
        same_elements(sorted, given),
    ensures
        definitions_sorted(definition_views(sorted)),
        same_definition_values(definition_views(sorted), definition_views(given)),
{
    let a = definition_views(sorted);
    let b = definition_views(given);
    assert forall|i: int, j: int| 0 <= i < j < a.len() implies identity_lt((#[trigger] a[i]).identity, (#[trigger] a[j]).identity) by {
        assert(sorted[i].key_lt(sorted[j]));
    }
    assert forall|i: int| 0 <= i < a.len() implies b.contains(#[trigger] a[i]) by {
        assert(given.contains(sorted[i]));
        let k = choose|k: int| 0 <= k < given.len() && given[k] == sorted[i];
        assert(b[k] == a[i]);
    }
    assert forall|i: int| 0 <= i < b.len() implies a.contains(#[trigger] b[i]) by {
        assert(sorted.contains(given[i]));
        let k = choose|k: int| 0 <= k < sorted.len() && sorted[k] == given[i];
        assert(a[k] == b[i]);
    }
}

} // verus!

verus! {

proof fn lemma_complete_transfers(
    keys: Seq<KeyCollationView>,
    expressions: Seq<ExpressionCollationView>,
    relation_vars: Seq<RelationVarCollationView>,
    a: Seq<CollationDefinitionView>,
    b: Seq<CollationDefinitionView>,
)
    requires
        same_definition_values(a, b),
        definitions_complete(keys, expressions, relation_vars, a),
    ensures
        definitions_complete(keys, expressions, relation_vars, b),
{
    assert forall|d: int| 0 <= d < b.len() implies required_identity(keys, expressions, relation_vars, (#[trigger] b[d]).identity) by {
        assert(a.contains(b[d]));
        let k = choose|k: int| 0 <= k < a.len() && a[k] == b[d];
        assert(required_identity(keys, expressions, relation_vars, a[k].identity));
    }
    assert forall|c: CollationIdentityView| defined(a, c) implies defined(b, c) by {
        let k = choose|k: int| 0 <= k < a.len() && (#[trigger] a[k]).identity == c;
        assert(b.contains(a[k]));
        let m = choose|m: int| 0 <= m < b.len() && b[m] == a[k];
        assert(b[m].identity == c);
    }
    assert forall|i: int| 0 <= i < keys.len() && (#[trigger] keys[i]).collation is Some implies defined(b, keys[i].collation->0) by {
        assert(defined(a, keys[i].collation->0));
    }
    assert forall|i: int| 0 <= i < expressions.len() implies defined(b, (#[trigger] expressions[i]).collation) by {
        assert(defined(a, expressions[i].collation));
    }
    assert forall|i: int| 0 <= i < relation_vars.len() && (#[trigger] relation_vars[i]).collation is Some implies defined(
        b,
        relation_vars[i].collation->0,
    ) by {
        assert(defined(a, relation_vars[i].collation->0));
    }
}

proof fn lemma_definition_values_match(first: Seq<CollationDefinitionObservation>, second: Seq<CollationDefinitionObservation>)
    requires
        same_elements(first, second),
    ensures
        same_definition_values(definition_views(first), definition_views(second)),
        same_definition_values(definition_views(second), definition_views(first)),
{
    let a = definition_views(first);
    let b = definition_views(second);
    assert forall|i: int| 0 <= i < a.len() implies b.contains(#[trigger] a[i]) by {
        assert(second.contains(first[i]));
        let k = choose|k: int| 0 <= k < second.len() && second[k] == first[i];
        assert(b[k] == a[i]);
    }
    assert forall|i: int| 0 <= i < b.len() implies a.contains(#[trigger] b[i]) by {
        assert(first.contains(second[i]));
        let k = choose|k: int| 0 <= k < first.len() && first[k] == second[i];
        assert(a[k] == b[i]);
    }
}

proof fn lemma_permutation_same_elements(first: Seq<CollationDefinitionObservation>, second: Seq<CollationDefinitionObservation>)
    requires
        first.to_multiset() == second.to_multiset(),
    ensures
        same_elements(first, second),
{
    broadcast use vstd::seq_lib::group_to_multiset_ensures;

    assert(first.len() == first.to_multiset().len() && second.len() == second.to_multiset().len());
    assert forall|i: int| 0 <= i < first.len() implies second.contains(#[trigger] first[i]) by {
        assert(first.contains(first[i]));
        assert(first.to_multiset().count(first[i]) > 0);
        assert(second.to_multiset().count(first[i]) > 0);
    }
    assert forall|i: int| 0 <= i < second.len() implies first.contains(#[trigger] second[i]) by {
        assert(second.contains(second[i]));
        assert(second.to_multiset().count(second[i]) > 0);
        assert(first.to_multiset().count(second[i]) > 0);
    }
}

proof fn lemma_permutation_duplicates(first: Seq<CollationDefinitionObservation>, second: Seq<CollationDefinitionObservation>)
    requires
        first.to_multiset() == second.to_multiset(),
        duplicate_definition(definition_views(first)),
    ensures
        duplicate_definition(definition_views(second)),
{
    broadcast use vstd::seq_lib::group_to_multiset_ensures;

    let a = definition_views(first);
    let b = definition_views(second);
    let (i, j) = choose|i: int, j: int| 0 <= i < j < a.len() && a[i].identity == a[j].identity;
    assert(a[i] == first[i]@ && a[j] == first[j]@);
    if first[i] == first[j] {
        assert(!first.no_duplicates());
        if second.no_duplicates() {
            second.lemma_multiset_has_no_duplicates();
            first.lemma_multiset_has_no_duplicates_conv();
            assert(false);
        }
        let (k, l) = choose|k: int, l: int| 0 <= k < second.len() && 0 <= l < second.len() && k != l && second[k] == second[l];
        assert(b[k] == second[k]@ && b[l] == second[l]@);
        if k < l {
            assert(b[k].identity == b[l].identity);
        } else {
            assert(b[l].identity == b[k].identity);
        }
    } else {
        lemma_permutation_same_elements(first, second);
        assert(first.contains(first[i]) && first.contains(first[j]));
        assert(second.contains(first[i]) && second.contains(first[j]));
        let k = choose|k: int| 0 <= k < second.len() && second[k] == first[i];
        let l = choose|l: int| 0 <= l < second.len() && second[l] == first[j];
        assert(k != l);
        assert(b[k] == second[k]@ && b[l] == second[l]@);
        if k < l {
            assert(b[k].identity == b[l].identity);
        } else {
            assert(b[l].identity == b[k].identity);
        }
    }
}

/// The order in which definitions are supplied is not semantic: two supplies that are
/// permutations of one another are refused with the same field, or, when one is accepted (so that
/// it has a strictly sorted arrangement), both hold the same definitions in the same order and
/// frame the same digest preimage.
pub proof fn lemma_definition_permutation(
    encoding: IndexCollationDatabaseEncodingSnapshot,
    key: IndexPartitionCollationIdentitySnapshot,
    expression: IndexExpressionCollationIdentitySnapshot,
    first: Seq<CollationDefinitionObservation>,
    second: Seq<CollationDefinitionObservation>,
)
    requires
        first.to_multiset() == second.to_multiset(),
    ensures
        definition_snapshot_error(encoding, key, expression, first) == definition_snapshot_error(
            encoding,
            key,
            expression,
            second,
        ),
        strictly_sorted(sorted_by_key(first)) && same_elements(sorted_by_key(first), first) ==> {
            &&& sorted_by_key(first) == sorted_by_key(second)
            &&& definition_snapshot_preimage(encoding.lineage().snapshot_digest, definition_views(sorted_by_key(first)))
                == definition_snapshot_preimage(encoding.lineage().snapshot_digest, definition_views(sorted_by_key(second)))
        },
{
    lemma_permutation_same_elements(first, second);
    lemma_permutation_same_elements(second, first);
    if duplicate_definition(definition_views(first)) {
        lemma_permutation_duplicates(first, second);
    }
    if duplicate_definition(definition_views(second)) {
        lemma_permutation_duplicates(second, first);
    }
    lemma_definition_values_match(first, second);
    let (a, b) = (definition_views(first), definition_views(second));
    let (ks, es, rs) = (key.observation_views(), expression.expression_views(), expression.relation_var_views());
    if definitions_complete(ks, es, rs, a) {
        lemma_complete_transfers(ks, es, rs, a, b);
    }
    if definitions_complete(ks, es, rs, b) {
        lemma_complete_transfers(ks, es, rs, b, a);
    }
    if strictly_sorted(sorted_by_key(first)) && same_elements(sorted_by_key(first), first) {
        lemma_sorted_by_key_order_independent(first, second);
    }
}

} // verus!

verus! {

/// A value-for-value copy of strictly sorted definitions is already in its sorted order.
pub proof fn lemma_sorted_definition_copy(c: Seq<CollationDefinitionObservation>, e: Seq<CollationDefinitionObservation>)
    requires
        definition_views(c) == definition_views(e),
        strictly_sorted(e),
    ensures
        sorted_by_key(c) == c,
{
    assert(c.len() == definition_views(c).len() && e.len() == definition_views(e).len());
    assert forall|i: int, j: int| 0 <= i < j < c.len() implies (#[trigger] c[i]).key_lt(#[trigger] c[j]) by {
        assert(definition_views(c)[i] == c[i]@ && definition_views(e)[i] == e[i]@);
        assert(definition_views(c)[j] == c[j]@ && definition_views(e)[j] == e[j]@);
        assert(e[i].key_lt(e[j]));
    }
    crate::order::lemma_sorted_by_key_is(c, c);
}

} // verus!

verus! {

/// A version mismatch is reported exactly when both versions are present and differ: equal
/// versions never mismatch, different present versions always do, and a missing version never
/// does.
pub proof fn lemma_version_mismatch(version: Option<Seq<char>>, actual_version: Option<Seq<char>>)
    ensures
        version is None ==> !versions_differ(version, actual_version),
        actual_version is None ==> !versions_differ(version, actual_version),
        version is Some && version == actual_version ==> !versions_differ(version, actual_version),
        version is Some && actual_version is Some && version != actual_version ==> versions_differ(
            version,
            actual_version,
        ),
{
}

} // verus!
