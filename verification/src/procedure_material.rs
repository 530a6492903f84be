//! Privacy-preserving material digests of an exclusion operator's implementation function: its
//! `EXECUTE` grant set, its local configuration, its definition and its transform converters.
//!
//! Each value keeps only what downstream evidence needs in plaintext and reduces the rest to a
//! domain-separated `sha256:` digest over length-prefixed framing.

use vstd::prelude::*;

use crate::catalog::validate_nonblank;
use crate::digest::{
    digest_text, finish_digest, frame_bool, frame_len, frame_optional_str, frame_str, put_bool,
    put_len, put_optional_str, put_raw, put_str, put_tag,
};
use crate::error::{invalid, is_invalid_field, ObservationError};
use crate::order::{
    compare_text, lemma_sorted_by_key_order_independent, sorted_by_key, lemma_text_lt_irreflexive, lemma_text_lt_total,
    lemma_text_lt_transitive, same_elements, same_key, sort_by_key, strictly_sorted, text_lt,
    has_key_collision, KeyOrder, SortKey,
};
use crate::text::is_blank;
use vstd::utf8::encode_utf8;

verus! {

/// The value of one `EXECUTE` grant: grantee (`None` for `PUBLIC`), grantor and grant option.
pub struct GrantView {
    pub grantee: Option<Seq<char>>,
    pub grantor_role_name: Seq<char>,
    pub grant_option: bool,
}

/// One effective PostgreSQL function `EXECUTE` grant resolved in the same source generation.
///
/// Role OIDs are resolved to role names before this boundary; grantee OID zero is `PUBLIC`.
#[derive(Debug, PartialEq, Eq)]
pub struct IndexExclusionConstraintOperatorProcedureExecuteGrant {
    grantee: Option<String>,
    grantor_role_name: String,
    grant_option: bool,
}

impl View for IndexExclusionConstraintOperatorProcedureExecuteGrant {
    type V = GrantView;

    closed spec fn view(&self) -> GrantView {
        GrantView {
            grantee: match self.grantee {
                Some(role) => Some(role@),
                None => None,
            },
            grantor_role_name: self.grantor_role_name@,
            grant_option: self.grant_option,
        }
    }
}

/// Field name reported for a blank grantor role.
pub const GRANTOR_ROLE_FIELD: &'static str =
    "index_exclusion_constraint_operator_procedure_access_control_grantor_role_name";

/// Field name reported for a blank grantee role.
pub const GRANTEE_ROLE_FIELD: &'static str =
    "index_exclusion_constraint_operator_procedure_access_control_grantee_role_name";

impl IndexExclusionConstraintOperatorProcedureExecuteGrant {
    /// Records an `EXECUTE` grant to `PUBLIC` with the exact resolved grantor role.
    pub fn public(grantor_role_name: &str, grant_option: bool) -> (r: Result<Self, ObservationError>)
        ensures
            r is Ok <==> !is_blank(grantor_role_name@),
            r matches Ok(g) ==> g@ == (GrantView {
                grantee: None,
                grantor_role_name: grantor_role_name@,
                grant_option,
            }),
            r matches Err(e) ==> is_invalid_field(e, GRANTOR_ROLE_FIELD),
    {
        validate_nonblank(grantor_role_name, GRANTOR_ROLE_FIELD)?;
        Ok(IndexExclusionConstraintOperatorProcedureExecuteGrant {
            grantee: None,
            grantor_role_name: grantor_role_name.to_owned(),
            grant_option,
        })
    }

    /// Records an `EXECUTE` grant to one exact resolved role with the exact resolved grantor role.
    /// A blank grantee is reported before a blank grantor.
    pub fn role(grantee_role_name: &str, grantor_role_name: &str, grant_option: bool) -> (r: Result<
        Self,
        ObservationError,
    >)
        ensures
            r is Ok <==> !is_blank(grantee_role_name@) && !is_blank(grantor_role_name@),
            r matches Ok(g) ==> g@ == (GrantView {
                grantee: Some(grantee_role_name@),
                grantor_role_name: grantor_role_name@,
                grant_option,
            }),
            r matches Err(e) ==> if is_blank(grantee_role_name@) {
                is_invalid_field(e, GRANTEE_ROLE_FIELD)
            } else {
                is_invalid_field(e, GRANTOR_ROLE_FIELD)
            },
    {
        validate_nonblank(grantee_role_name, GRANTEE_ROLE_FIELD)?;
        validate_nonblank(grantor_role_name, GRANTOR_ROLE_FIELD)?;
        Ok(IndexExclusionConstraintOperatorProcedureExecuteGrant {
            grantee: Some(grantee_role_name.to_owned()),
            grantor_role_name: grantor_role_name.to_owned(),
            grant_option,
        })
    }
}

/// Grant order: `PUBLIC` before roles, roles by name, then grantor name, then grant option
/// (`false` first).
pub open spec fn grant_lt(a: GrantView, b: GrantView) -> bool {
    if a.grantee != b.grantee {
        match (a.grantee, b.grantee) {
            (None, _) => true,
            (Some(_), None) => false,
            (Some(x), Some(y)) => text_lt(x, y),
        }
    } else if a.grantor_role_name != b.grantor_role_name {
        text_lt(a.grantor_role_name, b.grantor_role_name)
    } else {
        !a.grant_option && b.grant_option
    }
}

/// Two grants share a key exactly when they are the same grant.
pub proof fn lemma_grant_same_key(a: GrantView, b: GrantView)
    ensures
        (!grant_lt(a, b) && !grant_lt(b, a)) <==> a == b,
{
    if a.grantee != b.grantee {
        if let (Some(x), Some(y)) = (a.grantee, b.grantee) {
            lemma_text_lt_total(x, y);
        }
    } else if a.grantor_role_name != b.grantor_role_name {
        lemma_text_lt_total(a.grantor_role_name, b.grantor_role_name);
    } else if a != b {
        assert(a.grant_option != b.grant_option);
    }
}

impl SortKey for IndexExclusionConstraintOperatorProcedureExecuteGrant {
    open spec fn key_lt(self, other: Self) -> bool {
        grant_lt(self@, other@)
    }

    proof fn lemma_key_lt_transitive(a: Self, b: Self, c: Self) {
        let (x, y, z) = (a@, b@, c@);
        if let (Some(p), Some(q), Some(r)) = (x.grantee, y.grantee, z.grantee) {
            lemma_text_lt_irreflexive(p);
            if text_lt(p, q) && text_lt(q, r) {
                lemma_text_lt_transitive(p, q, r);
            }
        }
        let (p, q, r) = (x.grantor_role_name, y.grantor_role_name, z.grantor_role_name);
        lemma_text_lt_irreflexive(p);
        if text_lt(p, q) && text_lt(q, r) {
            lemma_text_lt_transitive(p, q, r);
        }
    }

    proof fn lemma_key_lt_irreflexive(a: Self) {
        lemma_text_lt_irreflexive(a@.grantor_role_name);
    }

    fn compare_key(&self, other: &Self) -> (o: KeyOrder) {
        proof {
            lemma_text_lt_irreflexive(self@.grantor_role_name);
            lemma_text_lt_irreflexive(other@.grantor_role_name);
        }
        match (&self.grantee, &other.grantee) {
            (None, Some(_)) => {
                return KeyOrder::Less;
            },
            (Some(_), None) => {
                return KeyOrder::Greater;
            },
            (Some(x), Some(y)) => {
                let by_grantee = compare_text(x.as_str(), y.as_str());
                if by_grantee != KeyOrder::Equal {
                    return by_grantee;
                }
            },
            (None, None) => {},
        }
        let by_grantor = compare_text(self.grantor_role_name.as_str(), other.grantor_role_name.as_str());
        if by_grantor != KeyOrder::Equal {
            return by_grantor;
        }
        if self.grant_option == other.grant_option {
            KeyOrder::Equal
        } else if other.grant_option {
            KeyOrder::Less
        } else {
            KeyOrder::Greater
        }
    }
}

} // verus!

verus! {

/// Domain separator of the access-control material digest.
pub const ACCESS_CONTROL_MATERIAL_DIGEST_DOMAIN: &'static str =
    "conceptweave.postgres_schema_snapshot.v3.relation_partition.index_partition.exclusion_constraint.operator.procedure.access_control.material.v1";

/// Field name reported when the same effective grant is supplied twice.
pub const ACCESS_CONTROL_GRANT_FIELD: &'static str =
    "index_exclusion_constraint_operator_procedure_access_control_grant";

/// Framing of one grant: grantee tag (0 for `PUBLIC`, 1 and the role), grantor and grant option.
pub open spec fn frame_grant(g: GrantView) -> Seq<u8> {
    (match g.grantee {
        None => seq![0u8],
        Some(role) => seq![1u8] + frame_str(role),
    }) + frame_str(g.grantor_role_name) + frame_bool(g.grant_option)
}

/// Framing of a sequence of grants, in order.
pub open spec fn frame_grants(s: Seq<GrantView>) -> Seq<u8>
    decreases s.len(),
{
    if s.len() == 0 {
        Seq::empty()
    } else {
        frame_grants(s.drop_last()) + frame_grant(s.last())
    }
}

/// The values of a sequence of grants.
pub open spec fn grant_views(s: Seq<IndexExclusionConstraintOperatorProcedureExecuteGrant>) -> Seq<
    GrantView,
> {
    s.map_values(|g: IndexExclusionConstraintOperatorProcedureExecuteGrant| g@)
}

/// The preimage of the access-control material digest over grants in canonical order.
pub open spec fn access_control_preimage(proacl_was_null: bool, grants: Seq<GrantView>) -> Seq<u8> {
    encode_utf8(ACCESS_CONTROL_MATERIAL_DIGEST_DOMAIN@) + frame_bool(proacl_was_null) + frame_len(
        grants.len(),
    ) + frame_grants(grants)
}

/// Two different positions of `grants` hold the same grant.
pub open spec fn has_duplicate_grant(grants: Seq<GrantView>) -> bool {
    exists|i: int, j: int| 0 <= i < j < grants.len() && grants[i] == grants[j]
}

/// `sorted` holds the grants of `given` in canonical order.
pub open spec fn canonical_grants(
    sorted: Seq<IndexExclusionConstraintOperatorProcedureExecuteGrant>,
    given: Seq<IndexExclusionConstraintOperatorProcedureExecuteGrant>,
) -> bool {
    strictly_sorted(sorted) && same_elements(sorted, given)
}

/// The value of an access-control material.
pub struct AccessControlMaterialView {
    pub proacl_was_null: bool,
    pub grant_count: nat,
    pub digest: Seq<char>,
}

/// Privacy-preserving identity for one exact `pg_proc.proacl` state and effective `EXECUTE` grant
/// set. A null ACL is kept apart from an explicit one with the same grants; grant order is ignored.
#[derive(Debug, PartialEq, Eq)]
pub struct IndexExclusionConstraintOperatorProcedureAccessControlMaterial {
    proacl_was_null: bool,
    grant_count: usize,
    digest: String,
}

impl View for IndexExclusionConstraintOperatorProcedureAccessControlMaterial {
    type V = AccessControlMaterialView;

    closed spec fn view(&self) -> AccessControlMaterialView {
        AccessControlMaterialView {
            proacl_was_null: self.proacl_was_null,
            grant_count: self.grant_count as nat,
            digest: self.digest@,
        }
    }
}

proof fn lemma_collision_is_duplicate(s: Seq<IndexExclusionConstraintOperatorProcedureExecuteGrant>)
    ensures
        has_key_collision(s) <==> has_duplicate_grant(grant_views(s)),
{
    let v = grant_views(s);
    if has_key_collision(s) {
        let (i, j) = choose|i: int, j: int| 0 <= i < j < s.len() && same_key(s[i], s[j]);
        lemma_grant_same_key(s[i]@, s[j]@);
        assert(v[i] == v[j]);
    }
    if has_duplicate_grant(v) {
        let (i, j) = choose|i: int, j: int| 0 <= i < j < v.len() && v[i] == v[j];
        lemma_grant_same_key(s[i]@, s[j]@);
        assert(same_key(s[i], s[j]));
    }
}

fn compute_access_control_digest(
    proacl_was_null: bool,
    grants: &Vec<IndexExclusionConstraintOperatorProcedureExecuteGrant>,
) -> (d: String)
    ensures
        d@ == digest_text(access_control_preimage(proacl_was_null, grant_views(grants@))),
{
    let ghost views = grant_views(grants@);
    let mut out: Vec<u8> = Vec::new();
    put_raw(&mut out, ACCESS_CONTROL_MATERIAL_DIGEST_DOMAIN.as_bytes());
    put_bool(&mut out, proacl_was_null);
    put_len(&mut out, grants.len());
    let ghost header = out@;
    let mut i: usize = 0;
    while i < grants.len()
        invariant
            i <= grants@.len(),
            views == grant_views(grants@),
            out@ == header + frame_grants(views.subrange(0, i as int)),
        decreases grants@.len() - i,
    {
        let grant = &grants[i];
        let ghost before = out@;
        match &grant.grantee {
            None => {
                put_tag(&mut out, 0);
                proof {
                    assert(out@ =~= before + seq![0u8]);
                }
            },
            Some(role) => {
                put_tag(&mut out, 1);
                put_str(&mut out, role.as_str());
                proof {
                    assert(out@ =~= before + (seq![1u8] + frame_str(role@)));
                }
            },
        }
        put_str(&mut out, grant.grantor_role_name.as_str());
        put_bool(&mut out, grant.grant_option);
        proof {
            let next = views.subrange(0, i + 1);
            assert(next.drop_last() =~= views.subrange(0, i as int));
            assert(next.last() == grant@);
            assert(out@ =~= header + frame_grants(next));
        }
        i = i + 1;
    }
    proof {
        assert(views.subrange(0, grants@.len() as int) =~= views);
    }
    finish_digest(&out)
}

impl Clone for IndexExclusionConstraintOperatorProcedureAccessControlMaterial {
    fn clone(&self) -> (c: Self)
        ensures
            c@ == self@,
    {
        IndexExclusionConstraintOperatorProcedureAccessControlMaterial {
            proacl_was_null: self.proacl_was_null,
            grant_count: self.grant_count,
            digest: self.digest.clone(),
        }
    }
}

impl IndexExclusionConstraintOperatorProcedureAccessControlMaterial {
    /// Reduces exact same-generation ACL state and effective `EXECUTE` grants to a stable digest.
    /// Grants are put in canonical order first; a grant supplied twice fails.
    pub fn new(proacl_was_null: bool, grants: Vec<IndexExclusionConstraintOperatorProcedureExecuteGrant>) -> (r:
        Result<Self, ObservationError>)
        ensures
            r is Err <==> has_duplicate_grant(grant_views(grants@)),
            r matches Err(e) ==> is_invalid_field(e, ACCESS_CONTROL_GRANT_FIELD),
            r matches Ok(m) ==> canonical_grants(sorted_by_key(grants@), grants@) && m@ == (
            AccessControlMaterialView {
                proacl_was_null,
                grant_count: grants@.len(),
                digest: digest_text(
                    access_control_preimage(proacl_was_null, grant_views(sorted_by_key(grants@))),
                ),
            }),
    {
        proof {
            lemma_collision_is_duplicate(grants@);
        }
        let ghost given = grants@;
        let sorted = match sort_by_key(grants) {
            Some(sorted) => sorted,
            None => {
                return Err(invalid(ACCESS_CONTROL_GRANT_FIELD));
            },
        };
        let digest = compute_access_control_digest(proacl_was_null, &sorted);
        let m = IndexExclusionConstraintOperatorProcedureAccessControlMaterial {
            proacl_was_null,
            grant_count: sorted.len(),
            digest,
        };
        Ok(m)
    }

    /// Returns whether the exact `pg_proc.proacl` catalog value was null.
    pub fn proacl_was_null(&self) -> (b: bool)
        ensures
            b == self@.proacl_was_null,
    {
        self.proacl_was_null
    }

    /// Returns the number of canonical effective `EXECUTE` grants consumed into the digest.
    pub fn grant_count(&self) -> (n: usize)
        ensures
            n == self@.grant_count,
    {
        self.grant_count
    }

    /// Returns the privacy-preserving digest of the ACL state and effective grant set.
    pub fn digest(&self) -> (d: &str)
        ensures
            d@ == self@.digest,
    {
        self.digest.as_str()
    }
}

/// Grant order is not semantic: two grant lists holding the same grants, one of which the
/// material accepts, give the same digest preimage.
pub proof fn lemma_access_control_order_independent(
    proacl_was_null: bool,
    first: Seq<IndexExclusionConstraintOperatorProcedureExecuteGrant>,
    second: Seq<IndexExclusionConstraintOperatorProcedureExecuteGrant>,
)
    requires
        same_elements(first, second),
        canonical_grants(sorted_by_key(first), first),
    ensures
        access_control_preimage(proacl_was_null, grant_views(sorted_by_key(first)))
            == access_control_preimage(proacl_was_null, grant_views(sorted_by_key(second))),
{
    lemma_sorted_by_key_order_independent(first, second);
}

} // verus!

verus! {

/// Domain separator of the local-configuration material digest.
pub const CONFIGURATION_MATERIAL_DIGEST_DOMAIN: &'static str =
    "conceptweave.postgres_schema_snapshot.v3.relation_partition.index_partition.exclusion_constraint.operator.procedure.configuration.material.v1";

/// Framing of a sequence of texts, each length-prefixed, in order.
pub open spec fn frame_strs(s: Seq<Seq<char>>) -> Seq<u8>
    decreases s.len(),
{
    if s.len() == 0 {
        Seq::empty()
    } else {
        frame_strs(s.drop_last()) + frame_str(s.last())
    }
}

/// The texts of a sequence of strings.
pub open spec fn string_views(s: Seq<String>) -> Seq<Seq<char>> {
    s.map_values(|t: String| t@)
}

/// The preimage of the configuration digest: tag 0 for a null `proconfig`, else tag 1, the entry
/// count and every entry in catalog order.
pub open spec fn configuration_preimage(proconfig: Option<Seq<Seq<char>>>) -> Seq<u8> {
    encode_utf8(CONFIGURATION_MATERIAL_DIGEST_DOMAIN@) + match proconfig {
        None => seq![0u8],
        Some(entries) => seq![1u8] + frame_len(entries.len()) + frame_strs(entries),
    }
}

/// The value of a configuration material.
pub struct ConfigurationMaterialView {
    pub configured: bool,
    pub entry_count: nat,
    pub digest: Seq<char>,
}

/// Privacy-preserving identity of one exact raw `pg_proc.proconfig` value.
#[derive(Debug, PartialEq, Eq)]
pub struct IndexExclusionConstraintOperatorProcedureConfigurationMaterial {
    configured: bool,
    entry_count: usize,
    digest: String,
}

impl View for IndexExclusionConstraintOperatorProcedureConfigurationMaterial {
    type V = ConfigurationMaterialView;

    closed spec fn view(&self) -> ConfigurationMaterialView {
        ConfigurationMaterialView {
            configured: self.configured,
            entry_count: self.entry_count as nat,
            digest: self.digest@,
        }
    }
}

fn put_strs(out: &mut Vec<u8>, entries: &Vec<String>)
    ensures
        final(out)@ == old(out)@ + frame_strs(string_views(entries@)),
{
    let ghost views = string_views(entries@);
    let ghost start = out@;
    let mut i: usize = 0;
    while i < entries.len()
        invariant
            i <= entries@.len(),
            views == string_views(entries@),
            out@ == start + frame_strs(views.subrange(0, i as int)),
        decreases entries@.len() - i,
    {
        put_str(out, entries[i].as_str());
        proof {
            let next = views.subrange(0, i + 1);
            assert(next.drop_last() =~= views.subrange(0, i as int));
            assert(out@ =~= start + frame_strs(next));
        }
        i = i + 1;
    }
    proof {
        assert(views.subrange(0, entries@.len() as int) =~= views);
    }
}

impl Clone for IndexExclusionConstraintOperatorProcedureConfigurationMaterial {
    fn clone(&self) -> (c: Self)
        ensures
            c@ == self@,
    {
        IndexExclusionConstraintOperatorProcedureConfigurationMaterial {
            configured: self.configured,
            entry_count: self.entry_count,
            digest: self.digest.clone(),
        }
    }
}

impl IndexExclusionConstraintOperatorProcedureConfigurationMaterial {
    /// Reduces the exact raw same-row `pg_proc.proconfig` value to a domain-separated digest.
    pub fn from_proconfig(proconfig: Option<Vec<String>>) -> (m: Self)
        ensures
            m@ == (ConfigurationMaterialView {
                configured: proconfig is Some,
                entry_count: match proconfig {
                    Some(entries) => entries@.len(),
                    None => 0,
                },
                digest: digest_text(
                    configuration_preimage(
                        match proconfig {
                            Some(entries) => Some(string_views(entries@)),
                            None => None,
                        },
                    ),
                ),
            }),
    {
        let mut out: Vec<u8> = Vec::new();
        put_raw(&mut out, CONFIGURATION_MATERIAL_DIGEST_DOMAIN.as_bytes());
        let ghost header = out@;
        let configured = proconfig.is_some();
        let entry_count: usize;
        match &proconfig {
            None => {
                entry_count = 0;
                put_tag(&mut out, 0);
                proof {
                    assert(out@ =~= configuration_preimage(None));
                }
            },
            Some(entries) => {
                entry_count = entries.len();
                put_tag(&mut out, 1);
                put_len(&mut out, entries.len());
                put_strs(&mut out, entries);
                proof {
                    assert(out@ =~= configuration_preimage(Some(string_views(entries@))));
                }
            },
        }
        IndexExclusionConstraintOperatorProcedureConfigurationMaterial {
            configured,
            entry_count,
            digest: finish_digest(&out),
        }
    }

    /// Returns whether the source catalog value was non-null.
    pub fn is_configured(&self) -> (b: bool)
        ensures
            b == self@.configured,
    {
        self.configured
    }

    /// Returns the exact number of raw catalog-array entries consumed into the digest.
    pub fn entry_count(&self) -> (n: usize)
        ensures
            n == self@.entry_count,
    {
        self.entry_count
    }

    /// Returns the privacy-preserving digest of the exact raw catalog-array value.
    pub fn digest(&self) -> (d: &str)
        ensures
            d@ == self@.digest,
    {
        self.digest.as_str()
    }
}

} // verus!

verus! {

/// Domain separator of an implementation-function definition material digest.
pub const DEFINITION_MATERIAL_DIGEST_DOMAIN: &'static str =
    "conceptweave.postgres_schema_snapshot.v3.relation_partition.index_partition.exclusion_constraint.operator.procedure.definition.material.v1";

/// Domain separator of a transform-converter function definition digest.
pub const CONVERTER_FUNCTION_DIGEST_DOMAIN: &'static str =
    "conceptweave.postgres_schema_snapshot.v3.relation_partition.index_partition.exclusion_constraint.operator.procedure.transform_converter.function.v1";

/// Field name reported for a blank implementation language.
pub const DEFINITION_LANGUAGE_FIELD: &'static str =
    "index_exclusion_constraint_operator_procedure_definition_language";

/// Field name reported for a blank converter implementation language.
pub const CONVERTER_LANGUAGE_FIELD: &'static str =
    "index_exclusion_constraint_operator_procedure_transform_converter_function_language";

/// The option of a text, by value.
pub open spec fn optional_text(t: Option<String>) -> Option<Seq<char>> {
    match t {
        Some(s) => Some(s@),
        None => None,
    }
}

/// The preimage of a definition digest under `domain`: language, `prosrc`, then the tagged
/// optional `probin` and `prosqlbody`.
pub open spec fn definition_preimage(
    domain: Seq<char>,
    language: Seq<char>,
    prosrc: Seq<char>,
    probin: Option<Seq<char>>,
    prosqlbody: Option<Seq<char>>,
) -> Seq<u8> {
    encode_utf8(domain) + frame_str(language) + frame_str(prosrc) + frame_optional_str(probin)
        + frame_optional_str(prosqlbody)
}

fn compute_definition_digest(
    domain: &str,
    language: &str,
    prosrc: &str,
    probin: &Option<String>,
    prosqlbody: &Option<String>,
) -> (d: String)
    ensures
        d@ == digest_text(
            definition_preimage(domain@, language@, prosrc@, optional_text(*probin), optional_text(*prosqlbody)),
        ),
{
    let mut out: Vec<u8> = Vec::new();
    put_raw(&mut out, domain.as_bytes());
    put_str(&mut out, language);
    put_str(&mut out, prosrc);
    let bin: Option<&str> = match probin {
        Some(b) => Some(b.as_str()),
        None => None,
    };
    put_optional_str(&mut out, bin);
    let body: Option<&str> = match prosqlbody {
        Some(b) => Some(b.as_str()),
        None => None,
    };
    put_optional_str(&mut out, body);
    proof {
        assert(out@ =~= definition_preimage(
            domain@,
            language@,
            prosrc@,
            optional_text(*probin),
            optional_text(*prosqlbody),
        ));
    }
    finish_digest(&out)
}

/// The value of a definition material: language name and definition digest.
pub struct DefinitionMaterialView {
    pub language_name: Seq<char>,
    pub definition_digest: Seq<char>,
}

/// Privacy-preserving content identity of one exact `pg_proc` implementation definition: the
/// plaintext `prosrc`, `probin` and `prosqlbody` are reduced to a digest and not retained.
#[derive(Debug, PartialEq, Eq)]
pub struct IndexExclusionConstraintOperatorProcedureDefinitionMaterial {
    language_name: String,
    definition_digest: String,
}

impl View for IndexExclusionConstraintOperatorProcedureDefinitionMaterial {
    type V = DefinitionMaterialView;

    closed spec fn view(&self) -> DefinitionMaterialView {
        DefinitionMaterialView {
            language_name: self.language_name@,
            definition_digest: self.definition_digest@,
        }
    }
}

impl Clone for IndexExclusionConstraintOperatorProcedureDefinitionMaterial {
    fn clone(&self) -> (c: Self)
        ensures
            c@ == self@,
    {
        IndexExclusionConstraintOperatorProcedureDefinitionMaterial {
            language_name: self.language_name.clone(),
            definition_digest: self.definition_digest.clone(),
        }
    }
}

impl IndexExclusionConstraintOperatorProcedureDefinitionMaterial {
    /// Derives implementation identity from one exact `pg_proc` row and its resolved language.
    pub fn new(language_name: &str, prosrc: &str, probin: Option<String>, prosqlbody: Option<String>) -> (r:
        Result<Self, ObservationError>)
        ensures
            r is Ok <==> !is_blank(language_name@),
            r matches Err(e) ==> is_invalid_field(e, DEFINITION_LANGUAGE_FIELD),
            r matches Ok(m) ==> m@ == (DefinitionMaterialView {
                language_name: language_name@,
                definition_digest: digest_text(
                    definition_preimage(
                        DEFINITION_MATERIAL_DIGEST_DOMAIN@,
                        language_name@,
                        prosrc@,
                        optional_text(probin),
                        optional_text(prosqlbody),
                    ),
                ),
            }),
    {
        validate_nonblank(language_name, DEFINITION_LANGUAGE_FIELD)?;
        let definition_digest = compute_definition_digest(
            DEFINITION_MATERIAL_DIGEST_DOMAIN,
            language_name,
            prosrc,
            &probin,
            &prosqlbody,
        );
        Ok(IndexExclusionConstraintOperatorProcedureDefinitionMaterial {
            language_name: language_name.to_owned(),
            definition_digest,
        })
    }

    /// Returns the independently resolved implementation language name.
    pub fn language_name(&self) -> (s: &str)
        ensures
            s@ == self@.language_name,
    {
        self.language_name.as_str()
    }

    /// Returns the digest of language plus exact `prosrc`/`probin`/`prosqlbody` material.
    pub fn definition_digest(&self) -> (s: &str)
        ensures
            s@ == self@.definition_digest,
    {
        self.definition_digest.as_str()
    }
}

/// Privacy-preserving implementation material of one exact transform converter function.
#[derive(Debug, PartialEq, Eq)]
pub struct IndexExclusionConstraintOperatorProcedureTransformConverterFunctionDefinition {
    implementation_language_name: String,
    definition_digest: String,
}

impl View for IndexExclusionConstraintOperatorProcedureTransformConverterFunctionDefinition {
    type V = DefinitionMaterialView;

    closed spec fn view(&self) -> DefinitionMaterialView {
        DefinitionMaterialView {
            language_name: self.implementation_language_name@,
            definition_digest: self.definition_digest@,
        }
    }
}

impl Clone for IndexExclusionConstraintOperatorProcedureTransformConverterFunctionDefinition {
    fn clone(&self) -> (c: Self)
        ensures
            c@ == self@,
    {
        IndexExclusionConstraintOperatorProcedureTransformConverterFunctionDefinition {
            implementation_language_name: self.implementation_language_name.clone(),
            definition_digest: self.definition_digest.clone(),
        }
    }
}

impl IndexExclusionConstraintOperatorProcedureTransformConverterFunctionDefinition {
    /// Reduces exact converter implementation material to a domain-separated digest.
    pub fn new(
        implementation_language_name: &str,
        prosrc: &str,
        probin: Option<String>,
        prosqlbody: Option<String>,
    ) -> (r: Result<Self, ObservationError>)
        ensures
            r is Ok <==> !is_blank(implementation_language_name@),
            r matches Err(e) ==> is_invalid_field(e, CONVERTER_LANGUAGE_FIELD),
            r matches Ok(m) ==> m@ == (DefinitionMaterialView {
                language_name: implementation_language_name@,
                definition_digest: digest_text(
                    definition_preimage(
                        CONVERTER_FUNCTION_DIGEST_DOMAIN@,
                        implementation_language_name@,
                        prosrc@,
                        optional_text(probin),
                        optional_text(prosqlbody),
                    ),
                ),
            }),
    {
        validate_nonblank(implementation_language_name, CONVERTER_LANGUAGE_FIELD)?;
        let definition_digest = compute_definition_digest(
            CONVERTER_FUNCTION_DIGEST_DOMAIN,
            implementation_language_name,
            prosrc,
            &probin,
            &prosqlbody,
        );
        Ok(IndexExclusionConstraintOperatorProcedureTransformConverterFunctionDefinition {
            implementation_language_name: implementation_language_name.to_owned(),
            definition_digest,
        })
    }

    /// Returns the implementation language of the converter function itself.
    pub fn implementation_language_name(&self) -> (s: &str)
        ensures
            s@ == self@.language_name,
    {
        self.implementation_language_name.as_str()
    }

    /// Returns the content digest of exact converter implementation material.
    pub fn definition_digest(&self) -> (s: &str)
        ensures
            s@ == self@.definition_digest,
    {
        self.definition_digest.as_str()
    }
}

} // verus!
