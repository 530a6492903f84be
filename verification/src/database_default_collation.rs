//! Effective PostgreSQL 18 database-default collation evidence.
//!
//! A `pg_collation` row with provider `d` delegates to the current database's default locale
//! definition, which PostgreSQL 18 keeps in `pg_database` (provider, locale fields, recorded
//! version) and reports through `pg_database_collation_actual_version(oid)`. This successor binds
//! that definition exactly when some used collation delegates to it.

use vstd::prelude::*;

use crate::catalog::LineageView;
use crate::collation_definition::{
    clone_definitions, definition_snapshot_error, definition_snapshot_preimage, definition_views,
    lemma_sorted_definition_copy, optional_has_nul, optional_contains_nul, put_optional_text,
    versions_differ, CollationDefinitionView, IndexCollationDefinitionSnapshot, PostgresCollationProvider,
    clone_optional_text,
};
use crate::collation_database_encoding::IndexCollationDatabaseEncodingSnapshot;
use crate::collation_identity::IndexPartitionCollationIdentitySnapshot;
use crate::digest::{digest_text, finish_digest, frame_optional_str, frame_str, put_raw, put_str, put_tag};
use crate::error::{fails_with_text, invalid, is_invalid_field, ObservationError};
use crate::expression_collation_identity::IndexExpressionCollationIdentitySnapshot;
use crate::expression_relation_var_schema::same_provenance;
use crate::order::text_eq;
use crate::procedure_material::optional_text;
use vstd::utf8::encode_utf8;

verus! {

/// PostgreSQL 18 `pg_database.datlocprovider` values: the database default always resolves to a
/// concrete provider.
#[derive(Clone, Copy, Debug, PartialEq, Eq, Structural)]
pub enum PostgresDatabaseLocaleProvider {
    /// PostgreSQL built-in locale provider (`b`).
    Builtin,
    /// Operating-system libc locale provider (`c`).
    Libc,
    /// ICU locale provider (`i`).
    Icu,
}

/// The catalog token of a database locale provider.
pub open spec fn locale_provider_token(p: PostgresDatabaseLocaleProvider) -> u8 {
    match p {
        PostgresDatabaseLocaleProvider::Builtin => 98u8,
        PostgresDatabaseLocaleProvider::Libc => 99u8,
        PostgresDatabaseLocaleProvider::Icu => 105u8,
    }
}

/// Field reported for an unknown database locale provider token.
pub const LOCALE_PROVIDER_FIELD: &'static str = "database_default_collation_provider";

/// The provider a catalog token names, or the provider error.
pub open spec fn locale_provider_from_token(value: char) -> Result<PostgresDatabaseLocaleProvider, ObservationError> {
    if value == 'b' {
        Ok(PostgresDatabaseLocaleProvider::Builtin)
    } else if value == 'c' {
        Ok(PostgresDatabaseLocaleProvider::Libc)
    } else if value == 'i' {
        Ok(PostgresDatabaseLocaleProvider::Icu)
    } else {
        Err(ObservationError::InvalidObservationField { field: LOCALE_PROVIDER_FIELD })
    }
}

impl PostgresDatabaseLocaleProvider {
    /// Returns the exact PostgreSQL catalog token (`b`, `c` or `i`).
    pub fn token(self) -> (t: u8)
        ensures
            t == locale_provider_token(self),
    {
        match self {
            PostgresDatabaseLocaleProvider::Builtin => 98u8,
            PostgresDatabaseLocaleProvider::Libc => 99u8,
            PostgresDatabaseLocaleProvider::Icu => 105u8,
        }
    }

    /// Parses a catalog token.
    pub fn from_token(value: char) -> (r: Result<Self, ObservationError>)
        ensures
            r == locale_provider_from_token(value),
            r is Ok <==> (value == 'b' || value == 'c' || value == 'i'),
            r matches Err(e) ==> is_invalid_field(e, LOCALE_PROVIDER_FIELD),
    {
        match value {
            'b' => Ok(PostgresDatabaseLocaleProvider::Builtin),
            'c' => Ok(PostgresDatabaseLocaleProvider::Libc),
            'i' => Ok(PostgresDatabaseLocaleProvider::Icu),
            _ => Err(ObservationError::InvalidObservationField { field: LOCALE_PROVIDER_FIELD }),
        }
    }
}

impl TryFrom<char> for PostgresDatabaseLocaleProvider {
    type Error = ObservationError;

    fn try_from(value: char) -> (r: Result<Self, Self::Error>) {
        PostgresDatabaseLocaleProvider::from_token(value)
    }
}

impl vstd::std_specs::convert::TryFromSpecImpl<char> for PostgresDatabaseLocaleProvider {
    open spec fn obeys_try_from_spec() -> bool {
        true
    }

    open spec fn try_from_spec(v: char) -> Result<Self, ObservationError> {
        locale_provider_from_token(v)
    }
}

/// The value of a database-default collation definition.
pub struct DatabaseDefaultView {
    pub provider: PostgresDatabaseLocaleProvider,
    pub lc_collate: Option<Seq<char>>,
    pub lc_ctype: Option<Seq<char>>,
    pub locale: Option<Seq<char>>,
    pub icu_rules: Option<Seq<char>>,
    pub recorded_version: Option<Seq<char>>,
    pub actual_version: Option<Seq<char>>,
}

/// The locales of the PostgreSQL 18 built-in provider.
pub open spec fn is_builtin_locale(l: Seq<char>) -> bool {
    l == "C"@ || l == "C.UTF-8"@ || l == "PG_UNICODE_FAST"@
}

/// The locale fields form a valid PostgreSQL 18 database locale definition for the provider:
/// collate and ctype present; libc without locale and ICU rules; built-in with a built-in locale
/// and no ICU rules; ICU with a locale.
pub open spec fn provider_shape_valid(
    provider: PostgresDatabaseLocaleProvider,
    lc_collate: Option<Seq<char>>,
    lc_ctype: Option<Seq<char>>,
    locale: Option<Seq<char>>,
    icu_rules: Option<Seq<char>>,
) -> bool {
    &&& lc_collate is Some && lc_ctype is Some
    &&& match provider {
        PostgresDatabaseLocaleProvider::Libc => locale is None && icu_rules is None,
        PostgresDatabaseLocaleProvider::Builtin => icu_rules is None && (locale matches Some(l) && is_builtin_locale(l)),
        PostgresDatabaseLocaleProvider::Icu => locale is Some,
    }
}

/// Field reported for a text holding NUL.
pub const DEFAULT_TEXT_FIELD: &'static str = "database_default_collation_text";

/// Field reported for an invalid provider/locale combination.
pub const DEFAULT_SHAPE_FIELD: &'static str = "database_default_collation_provider_shape";

fn is_builtin_locale_text(l: &str) -> (b: bool)
    ensures
        b == is_builtin_locale(l@),
{
    proof {
        reveal_strlit("C");
        reveal_strlit("C.UTF-8");
        reveal_strlit("PG_UNICODE_FAST");
    }
    text_eq(l, "C") || text_eq(l, "C.UTF-8") || text_eq(l, "PG_UNICODE_FAST")
}

fn validate_database_provider_shape(
    provider: PostgresDatabaseLocaleProvider,
    lc_collate: &Option<String>,
    lc_ctype: &Option<String>,
    locale: &Option<String>,
    icu_rules: &Option<String>,
) -> (r: Result<(), ObservationError>)
    ensures
        r is Ok <==> provider_shape_valid(
            provider,
            optional_text(*lc_collate),
            optional_text(*lc_ctype),
            optional_text(*locale),
            optional_text(*icu_rules),
        ),
        r matches Err(e) ==> is_invalid_field(e, DEFAULT_SHAPE_FIELD),
{
    let common = lc_collate.is_some() && lc_ctype.is_some();
    let provider_fields = match provider {
        PostgresDatabaseLocaleProvider::Libc => locale.is_none() && icu_rules.is_none(),
        PostgresDatabaseLocaleProvider::Builtin => icu_rules.is_none() && match locale {
            Some(l) => is_builtin_locale_text(l.as_str()),
            None => false,
        },
        PostgresDatabaseLocaleProvider::Icu => locale.is_some(),
    };
    if common && provider_fields {
        Ok(())
    } else {
        Err(invalid(DEFAULT_SHAPE_FIELD))
    }
}

/// Exact PostgreSQL 18 database-default collation definition for one bounded source observation.
#[derive(Debug, PartialEq, Eq)]
pub struct DatabaseDefaultCollationDefinitionObservation {
    provider: PostgresDatabaseLocaleProvider,
    lc_collate: Option<String>,
    lc_ctype: Option<String>,
    locale: Option<String>,
    icu_rules: Option<String>,
    recorded_version: Option<String>,
    actual_version: Option<String>,
}

impl View for DatabaseDefaultCollationDefinitionObservation {
    type V = DatabaseDefaultView;

    closed spec fn view(&self) -> DatabaseDefaultView {
        DatabaseDefaultView {
            provider: self.provider,
            lc_collate: optional_text(self.lc_collate),
            lc_ctype: optional_text(self.lc_ctype),
            locale: optional_text(self.locale),
            icu_rules: optional_text(self.icu_rules),
            recorded_version: optional_text(self.recorded_version),
            actual_version: optional_text(self.actual_version),
        }
    }
}

/// Domain separator of the single database-default definition digest.
pub const DATABASE_DEFAULT_ITEM_DIGEST_DOMAIN: &'static str =
    "conceptweave.postgres_schema_snapshot.v3.database_default_collation_definition.v1";

/// Framing of a database-default definition: provider token and the six tagged optional texts.
pub open spec fn frame_database_default(d: DatabaseDefaultView) -> Seq<u8> {
    seq![locale_provider_token(d.provider)] + frame_optional_str(d.lc_collate) + frame_optional_str(d.lc_ctype)
        + frame_optional_str(d.locale) + frame_optional_str(d.icu_rules) + frame_optional_str(d.recorded_version)
        + frame_optional_str(d.actual_version)
}

fn as_optional_str(t: &Option<String>) -> (r: Option<&str>)
    ensures
        match r {
            Some(s) => optional_text(*t) == Some(s@),
            None => optional_text(*t) is None,
        },
{
    match t {
        Some(s) => Some(s.as_str()),
        None => None,
    }
}

fn put_database_default(out: &mut Vec<u8>, d: &DatabaseDefaultCollationDefinitionObservation)
    ensures
        final(out)@ == old(out)@ + frame_database_default(d@),
{
    let ghost s0 = out@;
    let ghost a = seq![locale_provider_token(d@.provider)];
    let ghost b = frame_optional_str(d@.lc_collate);
    let ghost c = frame_optional_str(d@.lc_ctype);
    let ghost e = frame_optional_str(d@.locale);
    let ghost f = frame_optional_str(d@.icu_rules);
    let ghost g = frame_optional_str(d@.recorded_version);
    let ghost h = frame_optional_str(d@.actual_version);
    put_tag(out, d.provider.token());
    put_optional_text(out, &d.lc_collate);
    proof {
        vstd::seq_lib::lemma_concat_associative(s0, a, b);
    }
    put_optional_text(out, &d.lc_ctype);
    proof {
        vstd::seq_lib::lemma_concat_associative(s0, a + b, c);
    }
    put_optional_text(out, &d.locale);
    proof {
        vstd::seq_lib::lemma_concat_associative(s0, a + b + c, e);
    }
    put_optional_text(out, &d.icu_rules);
    proof {
        vstd::seq_lib::lemma_concat_associative(s0, a + b + c + e, f);
    }
    put_optional_text(out, &d.recorded_version);
    proof {
        vstd::seq_lib::lemma_concat_associative(s0, a + b + c + e + f, g);
    }
    put_optional_text(out, &d.actual_version);
    proof {
        vstd::seq_lib::lemma_concat_associative(s0, a + b + c + e + f + g, h);
    }
}

impl DatabaseDefaultCollationDefinitionObservation {
    /// Creates exact database-level locale/provider evidence without normalizing provider fields.
    pub fn new(
        provider: PostgresDatabaseLocaleProvider,
        lc_collate: Option<String>,
        lc_ctype: Option<String>,
        locale: Option<String>,
        icu_rules: Option<String>,
        recorded_version: Option<String>,
        actual_version: Option<String>,
    ) -> (r: Result<Self, ObservationError>)
        ensures
            ({
                let nul = optional_has_nul(optional_text(lc_collate)) || optional_has_nul(optional_text(lc_ctype))
                    || optional_has_nul(optional_text(locale)) || optional_has_nul(optional_text(icu_rules))
                    || optional_has_nul(optional_text(recorded_version)) || optional_has_nul(optional_text(actual_version));
                let shape = provider_shape_valid(
                    provider,
                    optional_text(lc_collate),
                    optional_text(lc_ctype),
                    optional_text(locale),
                    optional_text(icu_rules),
                );
                &&& r is Ok <==> !nul && shape
                &&& (provider == PostgresDatabaseLocaleProvider::Builtin && lc_collate is Some && lc_ctype is Some
                    && icu_rules is None && (optional_text(locale) == Some("C"@) || optional_text(locale) == Some(
                    "C.UTF-8"@,
                ) || optional_text(locale) == Some("PG_UNICODE_FAST"@)) && !optional_has_nul(optional_text(lc_collate))
                    && !optional_has_nul(optional_text(lc_ctype)) && !optional_has_nul(optional_text(recorded_version))
                    && !optional_has_nul(optional_text(actual_version))) ==> r is Ok
                &&& nul ==> crate::error::fails_with(r, DEFAULT_TEXT_FIELD)
                &&& !nul && !shape ==> crate::error::fails_with(r, DEFAULT_SHAPE_FIELD)
            }),
            r matches Ok(d) ==> d@ == (DatabaseDefaultView {
                provider,
                lc_collate: optional_text(lc_collate),
                lc_ctype: optional_text(lc_ctype),
                locale: optional_text(locale),
                icu_rules: optional_text(icu_rules),
                recorded_version: optional_text(recorded_version),
                actual_version: optional_text(actual_version),
            }),
    {
        proof {
            lemma_builtin_locales();
        }
        if optional_contains_nul(&lc_collate) || optional_contains_nul(&lc_ctype) || optional_contains_nul(&locale)
            || optional_contains_nul(&icu_rules) || optional_contains_nul(&recorded_version) || optional_contains_nul(
            &actual_version,
        ) {
            return Err(invalid(DEFAULT_TEXT_FIELD));
        }
        validate_database_provider_shape(provider, &lc_collate, &lc_ctype, &locale, &icu_rules)?;
        Ok(DatabaseDefaultCollationDefinitionObservation {
            provider,
            lc_collate,
            lc_ctype,
            locale,
            icu_rules,
            recorded_version,
            actual_version,
        })
    }

    /// Returns `pg_database.datlocprovider`.
    pub fn provider(&self) -> (p: PostgresDatabaseLocaleProvider)
        ensures
            p == self@.provider,
    {
        self.provider
    }

    /// Returns `pg_database.datcollate`.
    pub fn lc_collate(&self) -> (t: Option<&str>)
        ensures
            match t {
                Some(s) => self@.lc_collate == Some(s@),
                None => self@.lc_collate is None,
            },
    {
        as_optional_str(&self.lc_collate)
    }

    /// Returns `pg_database.datctype`.
    pub fn lc_ctype(&self) -> (t: Option<&str>)
        ensures
            match t {
                Some(s) => self@.lc_ctype == Some(s@),
                None => self@.lc_ctype is None,
            },
    {
        as_optional_str(&self.lc_ctype)
    }

    /// Returns `pg_database.datlocale`.
    pub fn locale(&self) -> (t: Option<&str>)
        ensures
            match t {
                Some(s) => self@.locale == Some(s@),
                None => self@.locale is None,
            },
    {
        as_optional_str(&self.locale)
    }

    /// Returns `pg_database.daticurules`.
    pub fn icu_rules(&self) -> (t: Option<&str>)
        ensures
            match t {
                Some(s) => self@.icu_rules == Some(s@),
                None => self@.icu_rules is None,
            },
    {
        as_optional_str(&self.icu_rules)
    }

    /// Returns the recorded `pg_database.datcollversion`.
    pub fn recorded_version(&self) -> (t: Option<&str>)
        ensures
            match t {
                Some(s) => self@.recorded_version == Some(s@),
                None => self@.recorded_version is None,
            },
    {
        as_optional_str(&self.recorded_version)
    }

    /// Returns the capture-time `pg_database_collation_actual_version(oid)`.
    pub fn actual_version(&self) -> (t: Option<&str>)
        ensures
            match t {
                Some(s) => self@.actual_version == Some(s@),
                None => self@.actual_version is None,
            },
    {
        as_optional_str(&self.actual_version)
    }

    /// Reports a recorded-versus-current provider-version mismatch when both exist.
    pub fn has_version_mismatch(&self) -> (b: bool)
        ensures
            b == versions_differ(self@.recorded_version, self@.actual_version),
            b <==> (self@.recorded_version is Some && self@.actual_version is Some
                && self@.recorded_version->0 != self@.actual_version->0),
    {
        match (&self.recorded_version, &self.actual_version) {
            (Some(recorded), Some(actual)) => !text_eq(recorded.as_str(), actual.as_str()),
            _ => false,
        }
    }

    /// Returns a domain-separated digest of this exact database-default definition.
    pub fn canonical_digest(&self) -> (d: String)
        ensures
            d@ == digest_text(encode_utf8(DATABASE_DEFAULT_ITEM_DIGEST_DOMAIN@) + frame_database_default(self@)),
    {
        let mut out: Vec<u8> = Vec::new();
        put_raw(&mut out, DATABASE_DEFAULT_ITEM_DIGEST_DOMAIN.as_bytes());
        put_database_default(&mut out, self);
        finish_digest(&out)
    }
}

impl Clone for DatabaseDefaultCollationDefinitionObservation {
    fn clone(&self) -> (c: Self)
        ensures
            c@ == self@,
    {
        DatabaseDefaultCollationDefinitionObservation {
            provider: self.provider,
            lc_collate: clone_optional_text(&self.lc_collate),
            lc_ctype: clone_optional_text(&self.lc_ctype),
            locale: clone_optional_text(&self.locale),
            icu_rules: clone_optional_text(&self.icu_rules),
            recorded_version: clone_optional_text(&self.recorded_version),
            actual_version: clone_optional_text(&self.actual_version),
        }
    }
}

} // verus!

verus! {

/// Domain separator of the effective collation-definition digest.
pub const EFFECTIVE_COLLATION_DEFINITION_DIGEST_DOMAIN: &'static str =
    "conceptweave.postgres_schema_snapshot.v3.relation_partition.index_partition.expression_collation_catalog_identity.database_encoding.definition.effective_database_default.v1";

/// Field reported when the material-definition predecessor does not rebind.
pub const EFFECTIVE_PREDECESSOR_FIELD: &'static str = "effective_collation_definition_predecessor";

/// Field reported when the predecessors disagree in provenance.
pub const EFFECTIVE_PROVENANCE_FIELD: &'static str = "effective_collation_definition_provenance";

/// Field reported when database-default evidence is missing although required, or supplied although
/// no used collation delegates to the database default.
pub const DEFAULT_PRESENCE_FIELD: &'static str = "database_default_collation_definition_presence";

/// Location of the database-default definition.
pub const DEFAULT_DEFINITION_LOCATION: &'static str = "/database/default-collation-definition";

/// Some used collation delegates to the database default (provider `d`).
pub open spec fn uses_database_default(defs: Seq<CollationDefinitionView>) -> bool {
    exists|i: int| 0 <= i < defs.len() && (#[trigger] defs[i]).provider == PostgresCollationProvider::DatabaseDefault
}

/// The material definitions, rebuilt over the encoding evidence, reproduce their issued digest.
pub open spec fn definition_digest_rebinds(encoding_digest: Seq<char>, material: IndexCollationDefinitionSnapshot) -> bool {
    digest_text(definition_snapshot_preimage(encoding_digest, material.definition_views())) == material.lineage().snapshot_digest
}

/// The field reported after the material definitions rebind, or `None`: provenance, then the
/// presence of database-default evidence.
pub open spec fn effective_tail_error(
    material: IndexCollationDefinitionSnapshot,
    encoding: IndexCollationDatabaseEncodingSnapshot,
    default_definition: Option<DatabaseDefaultView>,
) -> Option<Seq<char>> {
    if !same_provenance(material.lineage(), encoding.lineage()) {
        Some(EFFECTIVE_PROVENANCE_FIELD@)
    } else if uses_database_default(material.definition_views()) != default_definition is Some {
        Some(DEFAULT_PRESENCE_FIELD@)
    } else {
        None
    }
}

/// Framing of the optional database-default definition: tag 1 and the definition, or tag 0.
pub open spec fn frame_optional_default(d: Option<DatabaseDefaultView>) -> Seq<u8> {
    match d {
        Some(x) => seq![1u8] + frame_database_default(x),
        None => seq![0u8],
    }
}

/// The preimage of the effective collation-definition digest.
pub open spec fn effective_definition_preimage(predecessor_digest: Seq<char>, d: Option<DatabaseDefaultView>) -> Seq<u8> {
    encode_utf8(EFFECTIVE_COLLATION_DEFINITION_DIGEST_DOMAIN@) + frame_str(predecessor_digest) + frame_optional_default(d)
}

/// The value of an optional database-default definition.
pub open spec fn optional_default_view(d: Option<DatabaseDefaultCollationDefinitionObservation>) -> Option<DatabaseDefaultView> {
    match d {
        Some(x) => Some(x@),
        None => None,
    }
}

fn compute_effective_digest(predecessor_digest: &str, d: &Option<DatabaseDefaultCollationDefinitionObservation>) -> (r: String)
    ensures
        r@ == digest_text(effective_definition_preimage(predecessor_digest@, optional_default_view(*d))),
        crate::digest::issued_digest_form(r@),
{
    let mut out: Vec<u8> = Vec::new();
    put_raw(&mut out, EFFECTIVE_COLLATION_DEFINITION_DIGEST_DOMAIN.as_bytes());
    put_str(&mut out, predecessor_digest);
    let ghost header = out@;
    match d {
        Some(definition) => {
            put_tag(&mut out, 1);
            put_database_default(&mut out, definition);
            proof {
                vstd::seq_lib::lemma_concat_associative(header, seq![1u8], frame_database_default(definition@));
            }
        },
        None => {
            put_tag(&mut out, 0);
        },
    }
    proof {
        assert(out@ =~= effective_definition_preimage(predecessor_digest@, optional_default_view(*d)));
    }
    finish_digest(&out)
}

fn uses_default_provider(defs: &[crate::collation_definition::CollationDefinitionObservation]) -> (b: bool)
    ensures
        b == uses_database_default(definition_views(defs@)),
{
    let ghost dv = definition_views(defs@);
    let mut i: usize = 0;
    while i < defs.len()
        invariant
            i <= defs@.len(),
            dv == definition_views(defs@),
            forall|k: int| 0 <= k < i ==> (#[trigger] dv[k]).provider != PostgresCollationProvider::DatabaseDefault,
        decreases defs@.len() - i,
    {
        assert(dv[i as int] == defs@[i as int]@);
        if defs[i].provider() == PostgresCollationProvider::DatabaseDefault {
            return true;
        }
        i = i + 1;
    }
    false
}

/// Effective collation-definition proof including database-default delegation when required.
#[derive(Debug, PartialEq, Eq)]
pub struct IndexEffectiveCollationDefinitionSnapshot {
    source_connection_key: String,
    connection_policy_binding: String,
    predecessor_digest: String,
    snapshot_digest: String,
    extractor_revision: String,
    observed_at_utc: String,
    database_default_definition: Option<DatabaseDefaultCollationDefinitionObservation>,
}

impl IndexEffectiveCollationDefinitionSnapshot {
    /// The provenance of this snapshot, with its own digest.
    pub closed spec fn lineage(&self) -> LineageView {
        LineageView {
            source_connection_key: self.source_connection_key@,
            connection_policy_binding: self.connection_policy_binding@,
            snapshot_digest: self.snapshot_digest@,
            extractor_revision: self.extractor_revision@,
            observed_at_utc: self.observed_at_utc@,
        }
    }

    /// The material-definition digest this snapshot consumed.
    pub closed spec fn predecessor(&self) -> Seq<char> {
        self.predecessor_digest@
    }

    /// The database-default definition, when one is part of this snapshot.
    pub closed spec fn default_view(&self) -> Option<DatabaseDefaultView> {
        optional_default_view(self.database_default_definition)
    }

    /// Creates the effective collation proof: rebinds the material definitions to their
    /// predecessors, then requires database-default evidence exactly when a used collation
    /// delegates to provider `d`.
    pub fn new(
        material_definition_predecessor: &IndexCollationDefinitionSnapshot,
        database_encoding_predecessor: &IndexCollationDatabaseEncodingSnapshot,
        key_collation_predecessor: &IndexPartitionCollationIdentitySnapshot,
        expression_collation_predecessor: &IndexExpressionCollationIdentitySnapshot,
        database_default_definition: Option<DatabaseDefaultCollationDefinitionObservation>,
    ) -> (r: Result<Self, ObservationError>)
        ensures
            definition_snapshot_error(
                *database_encoding_predecessor,
                *key_collation_predecessor,
                *expression_collation_predecessor,
                material_definition_predecessor.definition_items(),
            ) is Some ==> fails_with_text(
                r,
                definition_snapshot_error(
                    *database_encoding_predecessor,
                    *key_collation_predecessor,
                    *expression_collation_predecessor,
                    material_definition_predecessor.definition_items(),
                )->0,
            ),
            definition_snapshot_error(
                *database_encoding_predecessor,
                *key_collation_predecessor,
                *expression_collation_predecessor,
                material_definition_predecessor.definition_items(),
            ) is None && definition_digest_rebinds(
                database_encoding_predecessor.lineage().snapshot_digest,
                *material_definition_predecessor,
            ) ==> {
                &&& r is Ok <==> effective_tail_error(
                    *material_definition_predecessor,
                    *database_encoding_predecessor,
                    optional_default_view(database_default_definition),
                ) is None
                &&& r is Err ==> fails_with_text(
                    r,
                    effective_tail_error(
                        *material_definition_predecessor,
                        *database_encoding_predecessor,
                        optional_default_view(database_default_definition),
                    )->0,
                )
            },
            definition_snapshot_error(
                *database_encoding_predecessor,
                *key_collation_predecessor,
                *expression_collation_predecessor,
                material_definition_predecessor.definition_items(),
            ) is None && !definition_digest_rebinds(
                database_encoding_predecessor.lineage().snapshot_digest,
                *material_definition_predecessor,
            ) ==> fails_with_text(r, EFFECTIVE_PREDECESSOR_FIELD@),
            r is Ok ==> definition_digest_rebinds(
                database_encoding_predecessor.lineage().snapshot_digest,
                *material_definition_predecessor,
            ),
            r matches Ok(s) ==> {
                &&& definition_snapshot_error(
                    *database_encoding_predecessor,
                    *key_collation_predecessor,
                    *expression_collation_predecessor,
                    material_definition_predecessor.definition_items(),
                ) is None
                &&& effective_tail_error(
                    *material_definition_predecessor,
                    *database_encoding_predecessor,
                    optional_default_view(database_default_definition),
                ) is None
                &&& s.predecessor() == material_definition_predecessor.lineage().snapshot_digest
                &&& s.default_view() == optional_default_view(database_default_definition)
                &&& crate::digest::issued_digest_form(s.lineage().snapshot_digest)
                &&& s.lineage() == (LineageView {
                    snapshot_digest: digest_text(
                        effective_definition_preimage(
                            material_definition_predecessor.lineage().snapshot_digest,
                            optional_default_view(database_default_definition),
                        ),
                    ),
                    ..material_definition_predecessor.lineage()
                })
            },
            r matches Err(e) ==> e is InvalidObservationField,
    {
        let given = material_definition_predecessor.definitions();
        let copies = clone_definitions(given);
        proof {
            lemma_sorted_definition_copy(copies@, given@);
            assert(definition_views(copies@) == definition_views(material_definition_predecessor.definition_items()));
            assert(definition_snapshot_error(
                *database_encoding_predecessor,
                *key_collation_predecessor,
                *expression_collation_predecessor,
                copies@,
            ) == definition_snapshot_error(
                *database_encoding_predecessor,
                *key_collation_predecessor,
                *expression_collation_predecessor,
                material_definition_predecessor.definition_items(),
            ));
        }
        let rebound = IndexCollationDefinitionSnapshot::new(
            database_encoding_predecessor,
            key_collation_predecessor,
            expression_collation_predecessor,
            copies,
        )?;
        if !text_eq(rebound.snapshot_digest(), material_definition_predecessor.snapshot_digest()) {
            return Err(invalid(EFFECTIVE_PREDECESSOR_FIELD));
        }
        if !text_eq(material_definition_predecessor.source_connection_key(), database_encoding_predecessor.source_connection_key())
            || !text_eq(
            material_definition_predecessor.connection_policy_binding(),
            database_encoding_predecessor.connection_policy_binding(),
        ) || !text_eq(material_definition_predecessor.extractor_revision(), database_encoding_predecessor.extractor_revision())
            || !text_eq(material_definition_predecessor.observed_at_utc(), database_encoding_predecessor.observed_at_utc()) {
            return Err(invalid(EFFECTIVE_PROVENANCE_FIELD));
        }
        let requires_default = uses_default_provider(material_definition_predecessor.definitions());
        if requires_default != database_default_definition.is_some() {
            return Err(invalid(DEFAULT_PRESENCE_FIELD));
        }
        let predecessor_digest = material_definition_predecessor.snapshot_digest().to_owned();
        let snapshot_digest = compute_effective_digest(predecessor_digest.as_str(), &database_default_definition);
        Ok(IndexEffectiveCollationDefinitionSnapshot {
            source_connection_key: material_definition_predecessor.source_connection_key().to_owned(),
            connection_policy_binding: material_definition_predecessor.connection_policy_binding().to_owned(),
            predecessor_digest,
            snapshot_digest,
            extractor_revision: material_definition_predecessor.extractor_revision().to_owned(),
            observed_at_utc: material_definition_predecessor.observed_at_utc().to_owned(),
            database_default_definition,
        })
    }

    /// Returns the stable source registry key inherited from the predecessor stack.
    pub fn source_connection_key(&self) -> (s: &str)
        ensures
            s@ == self.lineage().source_connection_key,
    {
        self.source_connection_key.as_str()
    }

    /// Returns the immutable connection-policy binding inherited from the predecessor stack.
    pub fn connection_policy_binding(&self) -> (s: &str)
        ensures
            s@ == self.lineage().connection_policy_binding,
    {
        self.connection_policy_binding.as_str()
    }

    /// Returns the material-definition predecessor digest.
    pub fn predecessor_digest(&self) -> (s: &str)
        ensures
            s@ == self.predecessor(),
    {
        self.predecessor_digest.as_str()
    }

    /// Returns the domain-separated effective-definition digest.
    pub fn snapshot_digest(&self) -> (s: &str)
        ensures
            s@ == self.lineage().snapshot_digest,
    {
        self.snapshot_digest.as_str()
    }

    /// Returns the exact extractor revision inherited from the predecessor stack.
    pub fn extractor_revision(&self) -> (s: &str)
        ensures
            s@ == self.lineage().extractor_revision,
    {
        self.extractor_revision.as_str()
    }

    /// Returns the exact canonical observation time inherited from the predecessor stack.
    pub fn observed_at_utc(&self) -> (s: &str)
        ensures
            s@ == self.lineage().observed_at_utc,
    {
        self.observed_at_utc.as_str()
    }

    /// Returns the database-default definition when a used collation delegates to provider `d`.
    pub fn database_default_definition(&self) -> (d: Option<&DatabaseDefaultCollationDefinitionObservation>)
        ensures
            match d {
                Some(x) => self.default_view() == Some(x@),
                None => self.default_view() is None,
            },
    {
        match &self.database_default_definition {
            Some(x) => Some(x),
            None => None,
        }
    }

    /// Reports a recorded-versus-current provider-version mismatch in the database default.
    pub fn has_database_default_version_mismatch(&self) -> (b: bool)
        ensures
            b == (self.default_view() matches Some(d) && versions_differ(d.recorded_version, d.actual_version)),
    {
        match &self.database_default_definition {
            Some(d) => d.has_version_mismatch(),
            None => false,
        }
    }

    /// Issues provenance for the database-default evidence when it is part of this snapshot.
    pub fn database_default_source_receipt(&self) -> (r: Result<DatabaseDefaultCollationDefinitionSourceReceipt, ObservationError>)
        ensures
            r is Ok <==> self.default_view() is Some,
            r matches Ok(receipt) ==> receipt.lineage() == self.lineage(),
            r matches Err(e) ==> e matches ObservationError::UnknownObservationLocation { location: l } && l@
                == DEFAULT_DEFINITION_LOCATION@,
    {
        if self.database_default_definition.is_none() {
            return Err(ObservationError::UnknownObservationLocation { location: DEFAULT_DEFINITION_LOCATION.to_owned() });
        }
        Ok(DatabaseDefaultCollationDefinitionSourceReceipt {
            source_id: self.source_connection_key.clone(),
            connection_policy_binding: self.connection_policy_binding.clone(),
            source_digest: self.snapshot_digest.clone(),
            extractor_revision: self.extractor_revision.clone(),
            observed_at_utc: self.observed_at_utc.clone(),
        })
    }
}

/// Immutable receipt for the effective database-default collation definition.
#[derive(Debug, PartialEq, Eq)]
pub struct DatabaseDefaultCollationDefinitionSourceReceipt {
    source_id: String,
    connection_policy_binding: String,
    source_digest: String,
    extractor_revision: String,
    observed_at_utc: String,
}

impl DatabaseDefaultCollationDefinitionSourceReceipt {
    /// The provenance carried by this receipt.
    pub closed spec fn lineage(&self) -> LineageView {
        LineageView {
            source_connection_key: self.source_id@,
            connection_policy_binding: self.connection_policy_binding@,
            snapshot_digest: self.source_digest@,
            extractor_revision: self.extractor_revision@,
            observed_at_utc: self.observed_at_utc@,
        }
    }

    /// Returns the stable source registry key, never credentials.
    pub fn source_id(&self) -> (s: &str)
        ensures
            s@ == self.lineage().source_connection_key,
    {
        self.source_id.as_str()
    }

    /// Returns the immutable connection-policy binding.
    pub fn connection_policy_binding(&self) -> (s: &str)
        ensures
            s@ == self.lineage().connection_policy_binding,
    {
        self.connection_policy_binding.as_str()
    }

    /// Returns the effective-definition digest.
    pub fn source_digest(&self) -> (s: &str)
        ensures
            s@ == self.lineage().snapshot_digest,
    {
        self.source_digest.as_str()
    }

    /// Returns the exact extractor revision inherited from the predecessor stack.
    pub fn extractor_revision(&self) -> (s: &str)
        ensures
            s@ == self.lineage().extractor_revision,
    {
        self.extractor_revision.as_str()
    }

    /// Returns the exact canonical observation time inherited from the predecessor stack.
    pub fn observed_at_utc(&self) -> (s: &str)
        ensures
            s@ == self.lineage().observed_at_utc,
    {
        self.observed_at_utc.as_str()
    }
}

} // verus!

verus! {

/// The PostgreSQL 18 built-in locales are exactly `C`, `C.UTF-8` and `PG_UNICODE_FAST`: each is
/// accepted as a built-in locale, none of them holds NUL, and a built-in database definition with
/// collate and ctype present and no ICU rules is valid with any of them.
pub proof fn lemma_builtin_locales()
    ensures
        is_builtin_locale("C"@),
        is_builtin_locale("C.UTF-8"@),
        is_builtin_locale("PG_UNICODE_FAST"@),
        !crate::text::has_nul("C"@),
        !crate::text::has_nul("C.UTF-8"@),
        !crate::text::has_nul("PG_UNICODE_FAST"@),
        forall|lc_collate: Option<Seq<char>>, lc_ctype: Option<Seq<char>>, l: Seq<char>|
            lc_collate is Some && lc_ctype is Some && (l == "C"@ || l == "C.UTF-8"@ || l == "PG_UNICODE_FAST"@)
                ==> #[trigger] provider_shape_valid(PostgresDatabaseLocaleProvider::Builtin, lc_collate, lc_ctype, Some(l), None),
{
    reveal_strlit("C");
    reveal_strlit("C.UTF-8");
    reveal_strlit("PG_UNICODE_FAST");
}

} // verus!
