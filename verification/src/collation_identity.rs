//! Catalog-exact PostgreSQL collation identity for attached-index key equivalence.
//!
//! A `pg_collation` row is identified by namespace, name and raw `collencoding`; this family keeps
//! that full coordinate for every index key so that two rows sharing a schema-qualified name cannot
//! be confused.

use vstd::prelude::*;

use crate::catalog::{
    IndexPartitionEvidence, LineageView, MembershipView, QualifiedCollationName, QualifiedNameView, IndexPartitionMembership,
    coordinate_lt, index_location, lemma_coordinate_lt_irreflexive,
    lemma_coordinate_lt_transitive, validate_nonblank, IndexCoordinateView,
    IndexPartitionCoordinate,
};
use crate::error::{fails_with, invalid, is_invalid_field, ObservationError};
use crate::order::{
    compare_i32, compare_text, compare_u32, text_eq, lemma_text_lt_irreflexive, lemma_text_lt_transitive,
    text_lt, KeyOrder, SortKey,
};
use crate::text::{decimal, is_blank, push_decimal, push_text};
use crate::catalog::{frame_index, put_index};
use crate::digest::{
    digest_text, finish_digest, frame_i32, frame_len, frame_str, frame_u32, put_i32, put_len,
    put_raw, put_str, put_tag, put_u32,
};
use vstd::utf8::encode_utf8;

verus! {

/// The value of a collation catalog identity.
pub struct CollationIdentityView {
    pub schema_name: Seq<char>,
    pub collation_name: Seq<char>,
    pub encoding: i32,
}

/// Stable identity of one resolved PostgreSQL `pg_collation` catalog row: namespace name,
/// collation name and raw signed `collencoding` (`-1` means every encoding).
#[derive(Debug, PartialEq, Eq)]
pub struct CollationCatalogIdentity {
    schema_name: String,
    collation_name: String,
    encoding: i32,
}

impl View for CollationCatalogIdentity {
    type V = CollationIdentityView;

    closed spec fn view(&self) -> CollationIdentityView {
        CollationIdentityView {
            schema_name: self.schema_name@,
            collation_name: self.collation_name@,
            encoding: self.encoding,
        }
    }
}

impl Clone for CollationCatalogIdentity {
    fn clone(&self) -> (c: Self)
        ensures
            c@ == self@,
    {
        CollationCatalogIdentity {
            schema_name: self.schema_name.clone(),
            collation_name: self.collation_name.clone(),
            encoding: self.encoding,
        }
    }
}

/// Order of collation identities: schema name, collation name, then encoding.
pub open spec fn identity_lt(a: CollationIdentityView, b: CollationIdentityView) -> bool {
    if a.schema_name != b.schema_name {
        text_lt(a.schema_name, b.schema_name)
    } else if a.collation_name != b.collation_name {
        text_lt(a.collation_name, b.collation_name)
    } else {
        a.encoding < b.encoding
    }
}

/// Identity order is transitive.
pub proof fn lemma_identity_lt_transitive(
    a: CollationIdentityView,
    b: CollationIdentityView,
    c: CollationIdentityView,
)
    requires
        identity_lt(a, b),
        identity_lt(b, c),
    ensures
        identity_lt(a, c),
{
    lemma_text_lt_irreflexive(a.schema_name);
    lemma_text_lt_irreflexive(a.collation_name);
    lemma_text_lt_irreflexive(b.schema_name);
    lemma_text_lt_irreflexive(b.collation_name);
    if a.schema_name != b.schema_name && b.schema_name != c.schema_name {
        lemma_text_lt_transitive(a.schema_name, b.schema_name, c.schema_name);
    } else if a.schema_name == b.schema_name && b.schema_name == c.schema_name {
        if a.collation_name != b.collation_name && b.collation_name != c.collation_name {
            lemma_text_lt_transitive(a.collation_name, b.collation_name, c.collation_name);
        }
    }
}

/// No identity precedes itself.
pub proof fn lemma_identity_lt_irreflexive(a: CollationIdentityView)
    ensures
        !identity_lt(a, a),
{
}

impl CollationCatalogIdentity {
    /// Creates one exact resolved `pg_collation` catalog identity.
    pub fn new(schema_name: &str, collation_name: &str, encoding: i32) -> (r: Result<
        Self,
        ObservationError,
    >)
        ensures
            r is Ok <==> !is_blank(schema_name@) && !is_blank(collation_name@),
            r matches Ok(c) ==> c@ == (CollationIdentityView {
                schema_name: schema_name@,
                collation_name: collation_name@,
                encoding,
            }),
            is_blank(schema_name@) ==> fails_with(r, "index_collation_catalog_schema_name"),
            !is_blank(schema_name@) && is_blank(collation_name@) ==> fails_with(
                r,
                "index_collation_catalog_name",
            ),
    {
        validate_nonblank(schema_name, "index_collation_catalog_schema_name")?;
        validate_nonblank(collation_name, "index_collation_catalog_name")?;
        Ok(CollationCatalogIdentity {
            schema_name: schema_name.to_owned(),
            collation_name: collation_name.to_owned(),
            encoding,
        })
    }

    /// Returns the exact collation namespace name.
    pub fn schema_name(&self) -> (s: &str)
        ensures
            s@ == self@.schema_name,
    {
        self.schema_name.as_str()
    }

    /// Returns the exact collation name.
    pub fn collation_name(&self) -> (s: &str)
        ensures
            s@ == self@.collation_name,
    {
        self.collation_name.as_str()
    }

    /// Returns raw signed PostgreSQL `pg_collation.collencoding`.
    pub fn encoding(&self) -> (e: i32)
        ensures
            e == self@.encoding,
    {
        self.encoding
    }

    /// Reports whether two identities are equal.
    pub fn same_as(&self, other: &Self) -> (b: bool)
        ensures
            b == (self@ == other@),
    {
        self.schema_name == other.schema_name && self.collation_name == other.collation_name
            && self.encoding == other.encoding
    }

    /// Compares two identities in identity order.
    pub fn compare(&self, other: &Self) -> (o: KeyOrder)
        ensures
            (o == KeyOrder::Less) == identity_lt(self@, other@),
            (o == KeyOrder::Greater) == identity_lt(other@, self@),
            (o == KeyOrder::Equal) == (self@ == other@),
    {
        let schema = compare_text(self.schema_name.as_str(), other.schema_name.as_str());
        if schema != KeyOrder::Equal {
            return schema;
        }
        let name = compare_text(self.collation_name.as_str(), other.collation_name.as_str());
        if name != KeyOrder::Equal {
            return name;
        }
        compare_i32(self.encoding, other.encoding)
    }
}

/// Equality of optional identities by value.
pub open spec fn optional_identity_view(c: Option<CollationCatalogIdentity>) -> Option<
    CollationIdentityView,
> {
    match c {
        Some(identity) => Some(identity@),
        None => None,
    }
}

/// Reports whether two optional identities are equal.
pub fn same_optional_identity(
    a: Option<&CollationCatalogIdentity>,
    b: Option<&CollationCatalogIdentity>,
) -> (r: bool)
    ensures
        r == (match (a, b) {
            (Some(x), Some(y)) => x@ == y@,
            (None, None) => true,
            _ => false,
        }),
{
    match (a, b) {
        (Some(x), Some(y)) => x.same_as(y),
        (None, None) => true,
        _ => false,
    }
}

/// The value of one key-collation observation.
pub struct KeyCollationView {
    pub index: IndexCoordinateView,
    pub key_position: u32,
    pub collation: Option<CollationIdentityView>,
}

/// Catalog-exact collation identity for one index key position.
#[derive(Debug, PartialEq, Eq)]
pub struct IndexKeyCollationIdentityObservation {
    index: IndexPartitionCoordinate,
    key_position: u32,
    collation: Option<CollationCatalogIdentity>,
}

impl View for IndexKeyCollationIdentityObservation {
    type V = KeyCollationView;

    closed spec fn view(&self) -> KeyCollationView {
        KeyCollationView {
            index: self.index@,
            key_position: self.key_position,
            collation: optional_identity_view(self.collation),
        }
    }
}

impl Clone for IndexKeyCollationIdentityObservation {
    fn clone(&self) -> (c: Self)
        ensures
            c@ == self@,
    {
        IndexKeyCollationIdentityObservation {
            index: self.index.clone(),
            key_position: self.key_position,
            collation: match &self.collation {
                Some(c) => Some(c.clone()),
                None => None,
            },
        }
    }
}

/// Location of one key-collation identity: `{index}/keys/{position}/collation-catalog-identity`.
pub open spec fn key_collation_location(index: IndexCoordinateView, key_position: u32) -> Seq<
    char,
> {
    index_location(index) + seq!['/', 'k', 'e', 'y', 's', '/'] + decimal(key_position as nat)
        + seq![
        '/', 'c', 'o', 'l', 'l', 'a', 't', 'i', 'o', 'n', '-', 'c', 'a', 't', 'a', 'l', 'o', 'g',
        '-', 'i', 'd', 'e', 'n', 't', 'i', 't', 'y'
    ]
}

/// Renders `{index}/keys/{position}/collation-catalog-identity`.
fn render_key_collation_location(index: &IndexPartitionCoordinate, key_position: u32) -> (s:
    String)
    ensures
        s@ == key_collation_location(index@, key_position),
{
    let mut out = index.canonical_location();
    proof {
        reveal_strlit("/keys/");
        reveal_strlit("/collation-catalog-identity");
    }
    push_text(&mut out, "/keys/");
    push_decimal(&mut out, key_position as u64);
    push_text(&mut out, "/collation-catalog-identity");
    out
}

/// Order of key observations: index coordinate, then key position.
pub open spec fn key_position_lt(a: KeyCollationView, b: KeyCollationView) -> bool {
    coordinate_lt(a.index, b.index) || (a.index == b.index && a.key_position < b.key_position)
}

impl IndexKeyCollationIdentityObservation {
    /// Creates one key-position identity observation; `None` means PostgreSQL reported no
    /// collation.
    pub fn new(
        index: IndexPartitionCoordinate,
        key_position: u32,
        collation: Option<CollationCatalogIdentity>,
    ) -> (r: Result<Self, ObservationError>)
        ensures
            r is Ok <==> key_position != 0,
            r matches Ok(o) ==> o@ == (KeyCollationView {
                index: index@,
                key_position,
                collation: optional_identity_view(collation),
            }),
            r matches Err(e) ==> e == ObservationError::InvalidOrdinalPosition,
    {
        if key_position == 0 {
            return Err(ObservationError::InvalidOrdinalPosition);
        }
        Ok(IndexKeyCollationIdentityObservation { index, key_position, collation })
    }

    /// Returns the exact relation-scoped index coordinate.
    pub fn index(&self) -> (i: &IndexPartitionCoordinate)
        ensures
            i@ == self@.index,
    {
        &self.index
    }

    /// Returns the one-based index key position.
    pub fn key_position(&self) -> (p: u32)
        ensures
            p == self@.key_position,
    {
        self.key_position
    }

    /// Returns the resolved catalog row identity, or `None` for an uncollated key.
    pub fn collation(&self) -> (c: Option<&CollationCatalogIdentity>)
        ensures
            match c {
                Some(x) => self@.collation == Some(x@),
                None => self@.collation is None,
            },
    {
        match &self.collation {
            Some(c) => Some(c),
            None => None,
        }
    }

    /// Returns the collision-safe governed evidence coordinate.
    pub fn canonical_location(&self) -> (s: String)
        ensures
            s@ == key_collation_location(self@.index, self@.key_position),
    {
        render_key_collation_location(&self.index, self.key_position)
    }
}

impl SortKey for IndexKeyCollationIdentityObservation {
    open spec fn key_lt(self, other: Self) -> bool {
        key_position_lt(self@, other@)
    }

    proof fn lemma_key_lt_transitive(a: Self, b: Self, c: Self) {
        lemma_coordinate_lt_irreflexive(a@.index);
        lemma_coordinate_lt_irreflexive(b@.index);
        if coordinate_lt(a@.index, b@.index) && coordinate_lt(b@.index, c@.index) {
            lemma_coordinate_lt_transitive(a@.index, b@.index, c@.index);
        }
    }

    proof fn lemma_key_lt_irreflexive(a: Self) {
        lemma_coordinate_lt_irreflexive(a@.index);
    }

    fn compare_key(&self, other: &Self) -> (o: KeyOrder) {
        proof {
            lemma_coordinate_lt_irreflexive(self@.index);
            lemma_coordinate_lt_irreflexive(other@.index);
        }
        let by_index = self.index.compare(&other.index);
        if by_index != KeyOrder::Equal {
            return by_index;
        }
        compare_u32(self.key_position, other.key_position)
    }
}

} // verus!

verus! {

/// Domain separator of the key-collation catalog-identity digest.
pub const COLLATION_IDENTITY_DIGEST_DOMAIN: &'static str =
    "conceptweave.postgres_schema_snapshot.v3.relation_partition.index_partition.collation_catalog_identity.v1";

/// Framing of one collation catalog identity.
pub open spec fn frame_identity(c: CollationIdentityView) -> Seq<u8> {
    frame_str(c.schema_name) + frame_str(c.collation_name) + frame_i32(c.encoding)
}

/// Appends the framing of one collation catalog identity.
pub fn put_identity(out: &mut Vec<u8>, c: &CollationCatalogIdentity)
    ensures
        final(out)@ == old(out)@ + frame_identity(c@),
{
    put_str(out, c.schema_name());
    put_str(out, c.collation_name());
    put_i32(out, c.encoding());
    proof {
        assert(final(out)@ =~= old(out)@ + frame_identity(c@));
    }
}

/// Framing of one optional collation identity: tag 1 and the identity, or tag 0.
pub open spec fn frame_optional_identity(c: Option<CollationIdentityView>) -> Seq<u8> {
    match c {
        Some(identity) => seq![1u8] + frame_identity(identity),
        None => seq![0u8],
    }
}

/// Appends the framing of one optional collation identity.
pub fn put_optional_identity(out: &mut Vec<u8>, c: Option<&CollationCatalogIdentity>)
    ensures
        final(out)@ == old(out)@ + frame_optional_identity(
            match c {
                Some(x) => Some(x@),
                None => None,
            },
        ),
{
    match c {
        Some(identity) => {
            put_tag(out, 1);
            put_identity(out, identity);
            proof {
                assert(final(out)@ =~= old(out)@ + (seq![1u8] + frame_identity(identity@)));
            }
        },
        None => {
            put_tag(out, 0);
            proof {
                assert(final(out)@ =~= old(out)@ + seq![0u8]);
            }
        },
    }
}

/// Framing of one key-collation observation.
pub open spec fn frame_key_collation(o: KeyCollationView) -> Seq<u8> {
    frame_index(o.index) + frame_u32(o.key_position) + frame_optional_identity(o.collation)
}

/// Framing of a sequence of key-collation observations, in order.
pub open spec fn frame_key_collations(s: Seq<KeyCollationView>) -> Seq<u8>
    decreases s.len(),
{
    if s.len() == 0 {
        Seq::empty()
    } else {
        frame_key_collations(s.drop_last()) + frame_key_collation(s.last())
    }
}

/// The preimage of the key-collation catalog-identity digest.
pub open spec fn key_collation_preimage(predecessor_digest: Seq<char>, s: Seq<KeyCollationView>) -> Seq<u8> {
    encode_utf8(COLLATION_IDENTITY_DIGEST_DOMAIN@) + frame_str(predecessor_digest) + frame_len(s.len())
        + frame_key_collations(s)
}

/// The values of a sequence of key-collation observations.
pub open spec fn key_collation_views(s: Seq<IndexKeyCollationIdentityObservation>) -> Seq<KeyCollationView> {
    s.map_values(|o: IndexKeyCollationIdentityObservation| o@)
}

/// Computes the key-collation catalog-identity digest.
pub fn compute_key_collation_digest(
    predecessor_digest: &str,
    observations: &[IndexKeyCollationIdentityObservation],
) -> (d: String)
    ensures
        d@ == digest_text(key_collation_preimage(predecessor_digest@, key_collation_views(observations@))),
{
    let ghost views = key_collation_views(observations@);
    let mut out: Vec<u8> = Vec::new();
    put_raw(&mut out, COLLATION_IDENTITY_DIGEST_DOMAIN.as_bytes());
    put_str(&mut out, predecessor_digest);
    put_len(&mut out, observations.len());
    let ghost header = out@;
    let mut i: usize = 0;
    while i < observations.len()
        invariant
            i <= observations@.len(),
            views == key_collation_views(observations@),
            out@ == header + frame_key_collations(views.subrange(0, i as int)),
        decreases observations@.len() - i,
    {
        let observation = &observations[i];
        put_index(&mut out, observation.index());
        put_u32(&mut out, observation.key_position());
        put_optional_identity(&mut out, observation.collation());
        proof {
            let next = views.subrange(0, i + 1);
            assert(next.drop_last() =~= views.subrange(0, i as int));
            assert(next.last() == observation@);
            assert(out@ =~= header + frame_key_collations(next));
        }
        i = i + 1;
    }
    proof {
        assert(views.subrange(0, observations@.len() as int) =~= views);
    }
    finish_digest(&out)
}

} // verus!

verus! {

/// The value of one base-snapshot key expectation.
pub struct KeyExpectationView {
    pub index: IndexCoordinateView,
    pub key_position: u32,
    pub collation: Option<QualifiedNameView>,
}

/// What the issued base snapshot records for one index key: the index coordinate, the one-based
/// key position and the schema-qualified collation name (`None` for an uncollated key).
#[derive(Debug, PartialEq, Eq)]
pub struct IndexKeyCollationExpectation {
    index: IndexPartitionCoordinate,
    key_position: u32,
    collation: Option<QualifiedCollationName>,
}

impl View for IndexKeyCollationExpectation {
    type V = KeyExpectationView;

    closed spec fn view(&self) -> KeyExpectationView {
        KeyExpectationView {
            index: self.index@,
            key_position: self.key_position,
            collation: match self.collation {
                Some(c) => Some(c@),
                None => None,
            },
        }
    }
}

impl IndexKeyCollationExpectation {
    /// Records one base-snapshot key.
    pub fn new(
        index: IndexPartitionCoordinate,
        key_position: u32,
        collation: Option<QualifiedCollationName>,
    ) -> (e: Self)
        ensures
            e@ == (KeyExpectationView {
                index: index@,
                key_position,
                collation: match collation {
                    Some(c) => Some(c@),
                    None => None,
                },
            }),
    {
        IndexKeyCollationExpectation { index, key_position, collation }
    }
}

/// The values of a sequence of expectations.
pub open spec fn expectation_views(s: Seq<IndexKeyCollationExpectation>) -> Seq<KeyExpectationView> {
    s.map_values(|e: IndexKeyCollationExpectation| e@)
}

/// The qualified name recorded for one key: the last expectation with that key wins.
pub open spec fn expected_key_name(
    exps: Seq<KeyExpectationView>,
    index: IndexCoordinateView,
    key_position: u32,
) -> Option<Option<QualifiedNameView>>
    decreases exps.len(),
{
    if exps.len() == 0 {
        None
    } else if exps.last().index == index && exps.last().key_position == key_position {
        Some(exps.last().collation)
    } else {
        expected_key_name(exps.drop_last(), index, key_position)
    }
}

/// The schema-qualified name of an optional catalog identity.
pub open spec fn identity_name(c: Option<CollationIdentityView>) -> Option<QualifiedNameView> {
    match c {
        Some(identity) => Some(
            QualifiedNameView { schema_name: identity.schema_name, name: identity.collation_name },
        ),
        None => None,
    }
}

/// Every observation has an expected key, and every expected key is observed.
pub open spec fn key_collations_complete(exps: Seq<KeyExpectationView>, obs: Seq<KeyCollationView>) -> bool {
    &&& forall|i: int|
        0 <= i < obs.len() ==> expected_key_name(exps, (#[trigger] obs[i]).index, obs[i].key_position)
            is Some
    &&& forall|j: int|
        0 <= j < exps.len() ==> exists|i: int|
            0 <= i < obs.len() && (#[trigger] obs[i]).index == (#[trigger] exps[j]).index
                && obs[i].key_position == exps[j].key_position
}

/// Every observation agrees with the qualified name recorded for its key.
pub open spec fn key_collations_bound(exps: Seq<KeyExpectationView>, obs: Seq<KeyCollationView>) -> bool {
    forall|i: int|
        0 <= i < obs.len() ==> expected_key_name(exps, (#[trigger] obs[i]).index, obs[i].key_position)
            == Some(identity_name(obs[i].collation))
}

/// Two different observations share index and key position.
pub open spec fn duplicate_key_position(obs: Seq<KeyCollationView>) -> bool {
    exists|i: int, j: int|
        0 <= i < j < obs.len() && (#[trigger] obs[i]).index == (#[trigger] obs[j]).index
            && obs[i].key_position == obs[j].key_position
}

/// The parent index holds a key at the position of observation `i`.
pub open spec fn key_has_parent(obs: Seq<KeyCollationView>, i: int, parent: IndexCoordinateView) -> bool {
    exists|k: int|
        0 <= k < obs.len() && (#[trigger] obs[k]).index == parent && obs[k].key_position
            == obs[i].key_position
}

/// Every parent-index key at the position of observation `i` has its catalog identity.
pub open spec fn key_matches_parent(obs: Seq<KeyCollationView>, i: int, parent: IndexCoordinateView) -> bool {
    forall|k: int|
        0 <= k < obs.len() && (#[trigger] obs[k]).index == parent && obs[k].key_position
            == obs[i].key_position ==> obs[k].collation == obs[i].collation
}

/// Every key of the child index has a parent-index key at the same position.
pub open spec fn child_keys_have_parent(
    child: IndexCoordinateView,
    parent: IndexCoordinateView,
    obs: Seq<KeyCollationView>,
) -> bool {
    forall|i: int| 0 <= i < obs.len() && obs[i].index == child ==> #[trigger] key_has_parent(obs, i, parent)
}

/// Every key of the child index has the catalog identity of the parent key at its position.
pub open spec fn child_keys_match_parent(
    child: IndexCoordinateView,
    parent: IndexCoordinateView,
    obs: Seq<KeyCollationView>,
) -> bool {
    forall|i: int| 0 <= i < obs.len() && obs[i].index == child ==> #[trigger] key_matches_parent(obs, i, parent)
}

/// A membership that is a partition attached directly to a parent index.
pub open spec fn is_direct_attachment(m: MembershipView) -> bool {
    m.is_partition && m.parent_index is Some
}

/// Some child key of a direct attachment has no parent observation at the same position.
pub open spec fn attached_key_parent_missing(ms: Seq<MembershipView>, obs: Seq<KeyCollationView>) -> bool {
    exists|m: int|
        0 <= m < ms.len() && is_direct_attachment(#[trigger] ms[m]) && !child_keys_have_parent(
            ms[m].coordinate,
            ms[m].parent_index->0,
            obs,
        )
}

/// Some child key of a direct attachment differs in catalog identity from its parent key.
pub open spec fn attached_key_identity_differs(ms: Seq<MembershipView>, obs: Seq<KeyCollationView>) -> bool {
    exists|m: int|
        0 <= m < ms.len() && is_direct_attachment(#[trigger] ms[m]) && !child_keys_match_parent(
            ms[m].coordinate,
            ms[m].parent_index->0,
            obs,
        )
}

fn lookup_expected<'a>(
    exps: &'a [IndexKeyCollationExpectation],
    index: &IndexPartitionCoordinate,
    key_position: u32,
) -> (r: Option<Option<&'a QualifiedCollationName>>)
    ensures
        match r {
            None => expected_key_name(expectation_views(exps@), index@, key_position) is None,
            Some(None) => expected_key_name(expectation_views(exps@), index@, key_position) == Some(
                None::<QualifiedNameView>,
            ),
            Some(Some(c)) => expected_key_name(expectation_views(exps@), index@, key_position)
                == Some(Some(c@)),
        },
{
    let ghost views = expectation_views(exps@);
    let mut i = exps.len();
    assert(views.subrange(0, i as int) =~= views);
    while i > 0
        invariant
            i <= exps@.len(),
            views == expectation_views(exps@),
            expected_key_name(views, index@, key_position) == expected_key_name(
                views.subrange(0, i as int),
                index@,
                key_position,
            ),
        decreases i,
    {
        let candidate = &exps[i - 1];
        proof {
            let prefix = views.subrange(0, i as int);
            assert(prefix.last() == candidate@);
            assert(prefix.drop_last() =~= views.subrange(0, i - 1));
        }
        if candidate.index.same_as(index) && candidate.key_position == key_position {
            return match &candidate.collation {
                Some(c) => Some(Some(c)),
                None => Some(None),
            };
        }
        i = i - 1;
    }
    None
}

fn same_name(a: Option<&QualifiedCollationName>, b: Option<&CollationCatalogIdentity>) -> (r: bool)
    ensures
        r == ((match a {
            Some(x) => Some(x@),
            None => None,
        }) == identity_name(
            match b {
                Some(y) => Some(y@),
                None => None,
            },
        )),
{
    match (a, b) {
        (Some(x), Some(y)) => text_eq(x.schema_name(), y.schema_name()) && text_eq(
            x.collation_name(),
            y.collation_name(),
        ),
        (None, None) => true,
        _ => false,
    }
}

/// Requires that the observed keys and the base snapshot's keys coincide.
fn validate_key_completeness(
    exps: &[IndexKeyCollationExpectation],
    observations: &[IndexKeyCollationIdentityObservation],
) -> (r: Result<(), ObservationError>)
    ensures
        r is Ok <==> key_collations_complete(expectation_views(exps@), key_collation_views(observations@)),
        r matches Err(e) ==> is_invalid_field(e, "index_partition_collation_catalog_completeness"),
{
    let ghost ev = expectation_views(exps@);
    let ghost ov = key_collation_views(observations@);
    let mut i: usize = 0;
    while i < observations.len()
        invariant
            i <= observations@.len(),
            ev == expectation_views(exps@),
            ov == key_collation_views(observations@),
            forall|k: int| 0 <= k < i ==> expected_key_name(ev, (#[trigger] ov[k]).index, ov[k].key_position) is Some,
        decreases observations@.len() - i,
    {
        let o = &observations[i];
        assert(ov[i as int] == o@);
        if lookup_expected(exps, o.index(), o.key_position()).is_none() {
            return Err(invalid("index_partition_collation_catalog_completeness"));
        }
        i = i + 1;
    }
    let mut j: usize = 0;
    while j < exps.len()
        invariant
            j <= exps@.len(),
            ev == expectation_views(exps@),
            ov == key_collation_views(observations@),
            forall|k: int| 0 <= k < observations@.len() ==> expected_key_name(ev, (#[trigger] ov[k]).index, ov[k].key_position) is Some,
            forall|q: int| 0 <= q < j ==> exists|k: int|
                0 <= k < ov.len() && (#[trigger] ov[k]).index == (#[trigger] ev[q]).index
                    && ov[k].key_position == ev[q].key_position,
        decreases exps@.len() - j,
    {
        let e = &exps[j];
        let mut found = false;
        let mut k: usize = 0;
        while k < observations.len() && !found
            invariant
                k <= observations@.len(),
                ov == key_collation_views(observations@),
                found ==> exists|x: int| 0 <= x < ov.len() && (#[trigger] ov[x]).index == e@.index && ov[x].key_position == e@.key_position,
                !found ==> forall|x: int| 0 <= x < k ==> !((#[trigger] ov[x]).index == e@.index && ov[x].key_position == e@.key_position),
            decreases observations@.len() - k + (if found { 0int } else { 1int }),
        {
            if observations[k].index().same_as(&e.index) && observations[k].key_position() == e.key_position {
                found = true;
                proof {
                    assert(ov[k as int] == observations@[k as int]@);
                }
            } else {
                k = k + 1;
            }
        }
        if !found {
            proof {
                assert(ev[j as int] == e@);
                assert(!key_collations_complete(ev, ov));
            }
            return Err(invalid("index_partition_collation_catalog_completeness"));
        }
        proof {
            assert(ev[j as int] == e@);
        }
        j = j + 1;
    }
    Ok(())
}

} // verus!

verus! {

fn validate_key_binding(
    exps: &[IndexKeyCollationExpectation],
    observations: &[IndexKeyCollationIdentityObservation],
) -> (r: Result<(), ObservationError>)
    requires
        key_collations_complete(expectation_views(exps@), key_collation_views(observations@)),
    ensures
        r is Ok <==> key_collations_bound(expectation_views(exps@), key_collation_views(observations@)),
        r matches Err(e) ==> is_invalid_field(e, "index_partition_collation_catalog_binding"),
{
    let ghost ev = expectation_views(exps@);
    let ghost ov = key_collation_views(observations@);
    let mut i: usize = 0;
    while i < observations.len()
        invariant
            i <= observations@.len(),
            ev == expectation_views(exps@),
            ov == key_collation_views(observations@),
            key_collations_complete(ev, ov),
            forall|k: int| 0 <= k < i ==> expected_key_name(ev, (#[trigger] ov[k]).index, ov[k].key_position)
                == Some(identity_name(ov[k].collation)),
        decreases observations@.len() - i,
    {
        let o = &observations[i];
        assert(ov[i as int] == o@);
        match lookup_expected(exps, o.index(), o.key_position()) {
            None => {
                return Err(invalid("index_partition_collation_catalog_binding"));
            },
            Some(expected) => {
                if !same_name(expected, o.collation()) {
                    return Err(invalid("index_partition_collation_catalog_binding"));
                }
            },
        }
        i = i + 1;
    }
    Ok(())
}

fn find_key_observation<'a>(
    observations: &'a [IndexKeyCollationIdentityObservation],
    index: &IndexPartitionCoordinate,
    key_position: u32,
) -> (r: Option<&'a IndexKeyCollationIdentityObservation>)
    ensures
        match r {
            Some(o) => exists|k: int| 0 <= k < observations@.len() && observations@[k] == *o
                && o@.index == index@ && o@.key_position == key_position,
            None => forall|k: int| 0 <= k < observations@.len() ==> !((#[trigger] observations@[k])@.index == index@
                && observations@[k]@.key_position == key_position),
        },
{
    let mut k: usize = 0;
    while k < observations.len()
        invariant
            k <= observations@.len(),
            forall|x: int| 0 <= x < k ==> !((#[trigger] observations@[x])@.index == index@
                && observations@[x]@.key_position == key_position),
        decreases observations@.len() - k,
    {
        if observations[k].index().same_as(index) && observations[k].key_position() == key_position {
            return Some(&observations[k]);
        }
        k = k + 1;
    }
    None
}

fn validate_child_keys(
    child_index: &IndexPartitionCoordinate,
    parent_index: &IndexPartitionCoordinate,
    observations: &[IndexKeyCollationIdentityObservation],
) -> (r: Result<(), ObservationError>)
    requires
        !duplicate_key_position(key_collation_views(observations@)),
    ensures
        r is Ok <==> child_keys_have_parent(child_index@, parent_index@, key_collation_views(observations@))
            && child_keys_match_parent(child_index@, parent_index@, key_collation_views(observations@)),
        r matches Err(e) ==> (is_invalid_field(e, "index_partition_collation_catalog_completeness")
            && !child_keys_have_parent(child_index@, parent_index@, key_collation_views(observations@)))
            || (is_invalid_field(e, "index_partition_collation_catalog_identity")
            && !child_keys_match_parent(child_index@, parent_index@, key_collation_views(observations@))),
{
    let ghost ov = key_collation_views(observations@);
    let mut i: usize = 0;
    while i < observations.len()
        invariant
            i <= observations@.len(),
            ov == key_collation_views(observations@),
            !duplicate_key_position(ov),
            forall|ii: int| 0 <= ii < i && ov[ii].index == child_index@ ==> #[trigger] key_has_parent(ov, ii, parent_index@),
            forall|ii: int| 0 <= ii < i && ov[ii].index == child_index@ ==> #[trigger] key_matches_parent(ov, ii, parent_index@),
        decreases observations@.len() - i,
    {
        let child = &observations[i];
        assert(ov[i as int] == child@);
        if child.index().same_as(child_index) {
            match find_key_observation(observations, parent_index, child.key_position()) {
                None => {
                    proof {
                        if key_has_parent(ov, i as int, parent_index@) {
                            let k = choose|k: int| 0 <= k < ov.len() && (#[trigger] ov[k]).index == parent_index@
                                && ov[k].key_position == ov[i as int].key_position;
                            assert(ov[k] == observations@[k]@);
                        }
                        assert(!child_keys_have_parent(child_index@, parent_index@, ov));
                    }
                    return Err(invalid("index_partition_collation_catalog_completeness"));
                },
                Some(parent) => {
                    let ghost kp = choose|k: int| 0 <= k < observations@.len() && observations@[k] == *parent
                        && parent@.index == parent_index@ && parent@.key_position == child@.key_position;
                    assert(ov[kp] == parent@);
                    assert(key_has_parent(ov, i as int, parent_index@));
                    if !same_optional_identity(parent.collation(), child.collation()) {
                        proof {
                            assert(!key_matches_parent(ov, i as int, parent_index@));
                            assert(!child_keys_match_parent(child_index@, parent_index@, ov));
                        }
                        return Err(invalid("index_partition_collation_catalog_identity"));
                    }
                    proof {
                        assert forall|k: int| 0 <= k < ov.len() && (#[trigger] ov[k]).index == parent_index@
                            && ov[k].key_position == ov[i as int].key_position implies ov[k].collation == ov[i as int].collation by {
                            if k != kp {
                                if k < kp {
                                    assert(!(ov[k].index == ov[kp].index && ov[k].key_position == ov[kp].key_position));
                                } else {
                                    assert(!(ov[kp].index == ov[k].index && ov[kp].key_position == ov[k].key_position));
                                }
                            }
                        }
                        assert(key_matches_parent(ov, i as int, parent_index@));
                    }
                },
            }
        }
        i = i + 1;
    }
    Ok(())
}

/// Compares full catalog identity across every direct attached parent/child index key.
///
/// The input must not hold two observations for one index key.
fn validate_attached_collation_identity(
    partition: &IndexPartitionEvidence,
    observations: &[IndexKeyCollationIdentityObservation],
) -> (r: Result<(), ObservationError>)
    requires
        !duplicate_key_position(key_collation_views(observations@)),
    ensures
        r is Ok <==> !attached_key_parent_missing(partition.membership_views(), key_collation_views(observations@))
            && !attached_key_identity_differs(partition.membership_views(), key_collation_views(observations@)),
        r matches Err(e) ==> (is_invalid_field(e, "index_partition_collation_catalog_completeness")
            && attached_key_parent_missing(partition.membership_views(), key_collation_views(observations@)))
            || (is_invalid_field(e, "index_partition_collation_catalog_identity")
            && attached_key_identity_differs(partition.membership_views(), key_collation_views(observations@))),
{
    let ghost ms = partition.membership_views();
    let ghost ov = key_collation_views(observations@);
    let memberships = partition.memberships();
    let mut m: usize = 0;
    while m < memberships.len()
        invariant
            m <= memberships@.len(),
            ms == partition.membership_views(),
            ms == memberships@.map_values(|x: IndexPartitionMembership| x@),
            ov == key_collation_views(observations@),
            !duplicate_key_position(ov),
            forall|mm: int| 0 <= mm < m && is_direct_attachment(#[trigger] ms[mm]) ==>
                child_keys_have_parent(ms[mm].coordinate, ms[mm].parent_index->0, ov)
                && child_keys_match_parent(ms[mm].coordinate, ms[mm].parent_index->0, ov),
        decreases memberships@.len() - m,
    {
        let membership = &memberships[m];
        assert(ms[m as int] == membership@);
        if membership.is_partition() {
            match membership.parent_index() {
                None => {},
                Some(parent_index) => {
                    let checked = validate_child_keys(membership.coordinate(), parent_index, observations);
                    if checked.is_err() {
                        proof {
                            assert(is_direct_attachment(ms[m as int]));
                        }
                        return checked;
                    }
                },
            }
        }
        m = m + 1;
    }
    Ok(())
}

} // verus!

verus! {

/// Two sequences hold the same values (each contains every element of the other).
pub open spec fn same_values<T>(a: Seq<T>, b: Seq<T>) -> bool {
    &&& forall|i: int| 0 <= i < a.len() ==> b.contains(#[trigger] a[i])
    &&& forall|i: int| 0 <= i < b.len() ==> a.contains(#[trigger] b[i])
}

proof fn lemma_views_same_values(
    a: Seq<IndexKeyCollationIdentityObservation>,
    b: Seq<IndexKeyCollationIdentityObservation>,
)
    requires
        crate::order::same_elements(a, b),
    ensures
        same_values(key_collation_views(a), key_collation_views(b)),
        key_collation_views(a).len() == key_collation_views(b).len(),
{
    let va = key_collation_views(a);
    let vb = key_collation_views(b);
    assert forall|i: int| 0 <= i < va.len() implies vb.contains(#[trigger] va[i]) by {
        assert(b.contains(a[i]));
        let k = choose|k: int| 0 <= k < b.len() && b[k] == a[i];
        assert(vb[k] == va[i]);
    }
    assert forall|i: int| 0 <= i < vb.len() implies va.contains(#[trigger] vb[i]) by {
        assert(a.contains(b[i]));
        let k = choose|k: int| 0 <= k < a.len() && a[k] == b[i];
        assert(va[k] == vb[i]);
    }
}

proof fn lemma_transfer_key_predicates(
    exps: Seq<KeyExpectationView>,
    a: Seq<KeyCollationView>,
    b: Seq<KeyCollationView>,
    ms: Seq<MembershipView>,
)
    requires
        same_values(a, b),
    ensures
        key_collations_complete(exps, a) ==> key_collations_complete(exps, b),
        key_collations_bound(exps, a) ==> key_collations_bound(exps, b),
        attached_key_parent_missing(ms, b) ==> attached_key_parent_missing(ms, a),
        attached_key_identity_differs(ms, b) ==> attached_key_identity_differs(ms, a),
{
    if key_collations_complete(exps, a) {
        assert forall|i: int| 0 <= i < b.len() implies expected_key_name(exps, (#[trigger] b[i]).index, b[i].key_position) is Some by {
            assert(a.contains(b[i]));
            let k = choose|k: int| 0 <= k < a.len() && a[k] == b[i];
            assert(expected_key_name(exps, a[k].index, a[k].key_position) is Some);
        }
        assert forall|j: int| 0 <= j < exps.len() implies exists|i: int|
            0 <= i < b.len() && (#[trigger] b[i]).index == (#[trigger] exps[j]).index
                && b[i].key_position == exps[j].key_position by {
            let i = choose|i: int| 0 <= i < a.len() && (#[trigger] a[i]).index == exps[j].index
                && a[i].key_position == exps[j].key_position;
            assert(b.contains(a[i]));
            let k = choose|k: int| 0 <= k < b.len() && b[k] == a[i];
            assert(b[k].index == exps[j].index);
        }
    }
    if key_collations_bound(exps, a) {
        assert forall|i: int| 0 <= i < b.len() implies expected_key_name(exps, (#[trigger] b[i]).index, b[i].key_position)
            == Some(identity_name(b[i].collation)) by {
            assert(a.contains(b[i]));
            let k = choose|k: int| 0 <= k < a.len() && a[k] == b[i];
            assert(expected_key_name(exps, a[k].index, a[k].key_position) == Some(identity_name(a[k].collation)));
        }
    }
    if attached_key_parent_missing(ms, b) {
        let m = choose|m: int| 0 <= m < ms.len() && is_direct_attachment(#[trigger] ms[m])
            && !child_keys_have_parent(ms[m].coordinate, ms[m].parent_index->0, b);
        let parent = ms[m].parent_index->0;
        let i = choose|i: int| 0 <= i < b.len() && b[i].index == ms[m].coordinate && !#[trigger] key_has_parent(b, i, parent);
        assert(a.contains(b[i]));
        let ia = choose|k: int| 0 <= k < a.len() && a[k] == b[i];
        assert(!key_has_parent(a, ia, parent)) by {
            if key_has_parent(a, ia, parent) {
                let k = choose|k: int| 0 <= k < a.len() && (#[trigger] a[k]).index == parent && a[k].key_position == a[ia].key_position;
                assert(b.contains(a[k]));
                let kb = choose|x: int| 0 <= x < b.len() && b[x] == a[k];
                assert(b[kb].index == parent);
            }
        }
        assert(!child_keys_have_parent(ms[m].coordinate, parent, a));
    }
    if attached_key_identity_differs(ms, b) {
        let m = choose|m: int| 0 <= m < ms.len() && is_direct_attachment(#[trigger] ms[m])
            && !child_keys_match_parent(ms[m].coordinate, ms[m].parent_index->0, b);
        let parent = ms[m].parent_index->0;
        let i = choose|i: int| 0 <= i < b.len() && b[i].index == ms[m].coordinate && !#[trigger] key_matches_parent(b, i, parent);
        let k = choose|k: int| 0 <= k < b.len() && (#[trigger] b[k]).index == parent && b[k].key_position == b[i].key_position
            && b[k].collation != b[i].collation;
        assert(a.contains(b[i]));
        assert(a.contains(b[k]));
        let ia = choose|x: int| 0 <= x < a.len() && a[x] == b[i];
        let ka = choose|x: int| 0 <= x < a.len() && a[x] == b[k];
        assert(a[ka].index == parent);
        assert(!key_matches_parent(a, ia, parent));
        assert(!child_keys_match_parent(ms[m].coordinate, parent, a));
    }
}

proof fn lemma_collision_is_duplicate(s: Seq<IndexKeyCollationIdentityObservation>)
    ensures
        crate::order::has_key_collision(s) <==> duplicate_key_position(key_collation_views(s)),
{
    let v = key_collation_views(s);
    if crate::order::has_key_collision(s) {
        let (i, j) = choose|i: int, j: int| 0 <= i < j < s.len() && crate::order::same_key(#[trigger] s[i], #[trigger] s[j]);
        assert(v[i] == s[i]@ && v[j] == s[j]@);
        if v[i].index != v[j].index {
            crate::catalog::lemma_coordinate_lt_total(v[i].index, v[j].index);
        }
        assert(v[i].index == v[j].index && v[i].key_position == v[j].key_position);
    }
    if duplicate_key_position(v) {
        let (i, j) = choose|i: int, j: int| 0 <= i < j < v.len() && (#[trigger] v[i]).index == (#[trigger] v[j]).index
            && v[i].key_position == v[j].key_position;
        lemma_coordinate_lt_irreflexive(v[i].index);
        assert(crate::order::same_key(s[i], s[j]));
    }
}

/// Sorts key observations by index and position and binds them to the base snapshot's keys.
pub fn canonicalize_and_validate(
    exps: &[IndexKeyCollationExpectation],
    observations: Vec<IndexKeyCollationIdentityObservation>,
) -> (r: Result<Vec<IndexKeyCollationIdentityObservation>, ObservationError>)
    ensures
        r is Ok <==> !duplicate_key_position(key_collation_views(observations@))
            && key_collations_complete(expectation_views(exps@), key_collation_views(observations@))
            && key_collations_bound(expectation_views(exps@), key_collation_views(observations@)),
        r matches Ok(v) ==> crate::order::strictly_sorted(v@) && crate::order::same_elements(v@, observations@)
            && v@ == crate::order::sorted_by_key(observations@),
        duplicate_key_position(key_collation_views(observations@)) || !key_collations_complete(
            expectation_views(exps@),
            key_collation_views(observations@),
        ) ==> fails_with(r, "index_partition_collation_catalog_completeness"),
        !duplicate_key_position(key_collation_views(observations@)) && key_collations_complete(
            expectation_views(exps@),
            key_collation_views(observations@),
        ) && !key_collations_bound(expectation_views(exps@), key_collation_views(observations@))
            ==> fails_with(r, "index_partition_collation_catalog_binding"),
{
    let ghost input = observations@;
    proof {
        lemma_collision_is_duplicate(input);
    }
    let sorted = match crate::order::sort_by_key(observations) {
        Some(v) => v,
        None => {
            return Err(invalid("index_partition_collation_catalog_completeness"));
        },
    };
    proof {
        lemma_views_same_values(sorted@, input);
        lemma_views_same_values(input, sorted@);
        assert(crate::order::same_elements(input, sorted@));
        lemma_transfer_key_predicates(expectation_views(exps@), key_collation_views(sorted@), key_collation_views(input), Seq::empty());
        lemma_transfer_key_predicates(expectation_views(exps@), key_collation_views(input), key_collation_views(sorted@), Seq::empty());
    }
    validate_key_completeness(exps, sorted.as_slice())?;
    validate_key_binding(exps, sorted.as_slice())?;
    Ok(sorted)
}

} // verus!

verus! {

/// Immutable receipt for one exact index-key collation catalog identity.
#[derive(Debug, PartialEq, Eq)]
pub struct IndexKeyCollationIdentitySourceReceipt {
    source_id: String,
    connection_policy_binding: String,
    source_digest: String,
    extractor_revision: String,
    observed_at_utc: String,
    index: IndexPartitionCoordinate,
    key_position: u32,
}

impl IndexKeyCollationIdentitySourceReceipt {
    /// The provenance carried by this receipt.
    pub closed spec fn lineage(&self) -> LineageView {
        LineageView {
            source_connection_key: self.source_id@,
            connection_policy_binding: self.connection_policy_binding@,
            snapshot_digest: self.source_digest@,
            extractor_revision: self.extractor_revision@,
            observed_at_utc: self.observed_at_utc@,
        }
    }

    /// The index coordinate covered by this receipt.
    pub closed spec fn index_view(&self) -> IndexCoordinateView {
        self.index@
    }

    /// The key position covered by this receipt.
    pub closed spec fn key_position_view(&self) -> u32 {
        self.key_position
    }

    /// Returns the stable source registry key, never credentials.
    pub fn source_id(&self) -> (s: &str)
        ensures
            s@ == self.lineage().source_connection_key,
    {
        self.source_id.as_str()
    }

    /// Returns the immutable connection-policy binding.
    pub fn connection_policy_binding(&self) -> (s: &str)
        ensures
            s@ == self.lineage().connection_policy_binding,
    {
        self.connection_policy_binding.as_str()
    }

    /// Returns the owner-computed successor digest.
    pub fn source_digest(&self) -> (s: &str)
        ensures
            s@ == self.lineage().snapshot_digest,
    {
        self.source_digest.as_str()
    }

    /// Returns the exact extractor revision inherited from the predecessor.
    pub fn extractor_revision(&self) -> (s: &str)
        ensures
            s@ == self.lineage().extractor_revision,
    {
        self.extractor_revision.as_str()
    }

    /// Returns the exact canonical UTC observation time inherited from the predecessor.
    pub fn observed_at_utc(&self) -> (s: &str)
        ensures
            s@ == self.lineage().observed_at_utc,
    {
        self.observed_at_utc.as_str()
    }

    /// Returns the exact relation-scoped index coordinate.
    pub fn index(&self) -> (i: &IndexPartitionCoordinate)
        ensures
            i@ == self.index_view(),
    {
        &self.index
    }

    /// Returns the one-based key position.
    pub fn key_position(&self) -> (p: u32)
        ensures
            p == self.key_position_view(),
    {
        self.key_position
    }
}

/// Complete catalog-exact key-collation evidence over one issued index-partition snapshot.
#[derive(Debug, PartialEq, Eq)]
pub struct IndexPartitionCollationIdentitySnapshot {
    source_connection_key: String,
    connection_policy_binding: String,
    predecessor_digest: String,
    snapshot_digest: String,
    extractor_revision: String,
    observed_at_utc: String,
    observations: Vec<IndexKeyCollationIdentityObservation>,
}

/// Strictly increasing (index, key position) order.
pub open spec fn key_positions_sorted(s: Seq<KeyCollationView>) -> bool {
    forall|i: int, j: int| 0 <= i < j < s.len() ==> key_position_lt(#[trigger] s[i], #[trigger] s[j])
}

proof fn lemma_sorted_views(v: Seq<IndexKeyCollationIdentityObservation>)
    requires
        crate::order::strictly_sorted(v),
    ensures
        key_positions_sorted(key_collation_views(v)),
        !duplicate_key_position(key_collation_views(v)),
{
    let w = key_collation_views(v);
    assert forall|i: int, j: int| 0 <= i < j < w.len() implies key_position_lt(#[trigger] w[i], #[trigger] w[j]) by {
        assert(v[i].key_lt(v[j]));
    }
    if duplicate_key_position(w) {
        let (i, j) = choose|i: int, j: int| 0 <= i < j < w.len() && (#[trigger] w[i]).index == (#[trigger] w[j]).index
            && w[i].key_position == w[j].key_position;
        assert(key_position_lt(w[i], w[j]));
        lemma_coordinate_lt_irreflexive(w[i].index);
    }
}

impl IndexPartitionCollationIdentitySnapshot {
    /// The provenance of this snapshot, with its own digest.
    pub closed spec fn lineage(&self) -> LineageView {
        LineageView {
            source_connection_key: self.source_connection_key@,
            connection_policy_binding: self.connection_policy_binding@,
            snapshot_digest: self.snapshot_digest@,
            extractor_revision: self.extractor_revision@,
            observed_at_utc: self.observed_at_utc@,
        }
    }

    /// The index-partition digest this snapshot was built over.
    pub closed spec fn predecessor(&self) -> Seq<char> {
        self.predecessor_digest@
    }

    /// The observations of this snapshot, in index and key order.
    pub closed spec fn observation_views(&self) -> Seq<KeyCollationView> {
        key_collation_views(self.observations@)
    }

    /// Issued key-collation evidence holds its observations in strict index and key order.
    #[verifier::type_invariant]
    closed spec fn entries_sorted(self) -> bool {
        crate::order::strictly_sorted(self.observations@)
    }

    /// Creates complete catalog-exact collation evidence over issued index-partition evidence and
    /// the base snapshot's key collations.
    pub fn new(
        partition: &IndexPartitionEvidence,
        expectations: &[IndexKeyCollationExpectation],
        observations: Vec<IndexKeyCollationIdentityObservation>,
    ) -> (r: Result<Self, ObservationError>)
        ensures
            r is Ok <==> !duplicate_key_position(key_collation_views(observations@))
                && key_collations_complete(expectation_views(expectations@), key_collation_views(observations@))
                && key_collations_bound(expectation_views(expectations@), key_collation_views(observations@))
                && !attached_key_parent_missing(partition.membership_views(), key_collation_views(observations@))
                && !attached_key_identity_differs(partition.membership_views(), key_collation_views(observations@)),
            r matches Ok(s) ==> {
                &&& s.predecessor() == partition.lineage().snapshot_digest
                &&& s.lineage() == (LineageView {
                    snapshot_digest: digest_text(key_collation_preimage(partition.lineage().snapshot_digest, s.observation_views())),
                    ..partition.lineage()
                })
                &&& s.observation_views() == key_collation_views(crate::order::sorted_by_key(observations@))
                &&& key_positions_sorted(s.observation_views())
                &&& same_values(s.observation_views(), key_collation_views(observations@))
                &&& s.observation_views().len() == observations@.len()
            },
            duplicate_key_position(key_collation_views(observations@)) || !key_collations_complete(
                expectation_views(expectations@),
                key_collation_views(observations@),
            ) ==> fails_with(r, "index_partition_collation_catalog_completeness"),
            !duplicate_key_position(key_collation_views(observations@)) && key_collations_complete(
                expectation_views(expectations@),
                key_collation_views(observations@),
            ) && !key_collations_bound(expectation_views(expectations@), key_collation_views(observations@))
                ==> fails_with(r, "index_partition_collation_catalog_binding"),
            r matches Err(e) ==> is_invalid_field(e, "index_partition_collation_catalog_completeness")
                || is_invalid_field(e, "index_partition_collation_catalog_binding")
                || (is_invalid_field(e, "index_partition_collation_catalog_identity")
                && attached_key_identity_differs(partition.membership_views(), key_collation_views(observations@))),
            !duplicate_key_position(key_collation_views(observations@)) && key_collations_complete(
                expectation_views(expectations@),
                key_collation_views(observations@),
            ) && key_collations_bound(expectation_views(expectations@), key_collation_views(observations@))
                && attached_key_parent_missing(partition.membership_views(), key_collation_views(observations@))
                && !attached_key_identity_differs(partition.membership_views(), key_collation_views(observations@))
                ==> fails_with(r, "index_partition_collation_catalog_completeness"),
            !duplicate_key_position(key_collation_views(observations@)) && key_collations_complete(
                expectation_views(expectations@),
                key_collation_views(observations@),
            ) && key_collations_bound(expectation_views(expectations@), key_collation_views(observations@))
                && !attached_key_parent_missing(partition.membership_views(), key_collation_views(observations@))
                && attached_key_identity_differs(partition.membership_views(), key_collation_views(observations@))
                ==> fails_with(r, "index_partition_collation_catalog_identity"),
    {
        let ghost input = observations@;
        let observations = canonicalize_and_validate(expectations, observations)?;
        proof {
            lemma_sorted_views(observations@);
            lemma_views_same_values(observations@, input);
            lemma_views_same_values(input, observations@);
            lemma_transfer_key_predicates(expectation_views(expectations@), key_collation_views(observations@),
                key_collation_views(input), partition.membership_views());
            lemma_transfer_key_predicates(expectation_views(expectations@), key_collation_views(input),
                key_collation_views(observations@), partition.membership_views());
        }
        validate_attached_collation_identity(partition, observations.as_slice())?;
        let predecessor_digest = partition.snapshot_digest().to_owned();
        let snapshot_digest = compute_key_collation_digest(predecessor_digest.as_str(), observations.as_slice());
        Ok(IndexPartitionCollationIdentitySnapshot {
            source_connection_key: partition.source_connection_key().to_owned(),
            connection_policy_binding: partition.connection_policy_binding().to_owned(),
            predecessor_digest,
            snapshot_digest,
            extractor_revision: partition.extractor_revision().to_owned(),
            observed_at_utc: partition.observed_at_utc().to_owned(),
            observations,
        })
    }

    /// Returns the stable source registry key.
    pub fn source_connection_key(&self) -> (s: &str)
        ensures
            s@ == self.lineage().source_connection_key,
    {
        self.source_connection_key.as_str()
    }

    /// Returns the immutable connection-policy binding.
    pub fn connection_policy_binding(&self) -> (s: &str)
        ensures
            s@ == self.lineage().connection_policy_binding,
    {
        self.connection_policy_binding.as_str()
    }

    /// Returns the exact index-partition predecessor digest.
    pub fn predecessor_digest(&self) -> (s: &str)
        ensures
            s@ == self.predecessor(),
    {
        self.predecessor_digest.as_str()
    }

    /// Returns the domain-separated catalog-identity successor digest.
    pub fn snapshot_digest(&self) -> (s: &str)
        ensures
            s@ == self.lineage().snapshot_digest,
    {
        self.snapshot_digest.as_str()
    }

    /// Returns the exact extractor revision inherited from the predecessor.
    pub fn extractor_revision(&self) -> (s: &str)
        ensures
            s@ == self.lineage().extractor_revision,
    {
        self.extractor_revision.as_str()
    }

    /// Returns the exact canonical UTC observation time inherited from the predecessor.
    pub fn observed_at_utc(&self) -> (s: &str)
        ensures
            s@ == self.lineage().observed_at_utc,
    {
        self.observed_at_utc.as_str()
    }

    /// Returns complete observations in deterministic index/key order.
    pub fn observations(&self) -> (o: &[IndexKeyCollationIdentityObservation])
        ensures
            key_collation_views(o@) == self.observation_views(),
            crate::order::strictly_sorted(o@),
    {
        proof {
            use_type_invariant(self);
        }
        self.observations.as_slice()
    }

    /// Issues provenance for one exact index/key collation identity when present.
    pub fn source_receipt(&self, index: &IndexPartitionCoordinate, key_position: u32) -> (r: Result<
        IndexKeyCollationIdentitySourceReceipt,
        ObservationError,
    >)
        ensures
            r is Ok <==> key_position != 0 && exists|i: int|
                0 <= i < self.observation_views().len() && (#[trigger] self.observation_views()[i]).index
                    == index@ && self.observation_views()[i].key_position == key_position,
            key_position == 0 ==> r == Err::<IndexKeyCollationIdentitySourceReceipt, _>(ObservationError::InvalidOrdinalPosition),
            r matches Err(ObservationError::UnknownObservationLocation { location }) ==> location@
                == key_collation_location(index@, key_position),
            key_position != 0 ==> (r is Err ==> r matches Err(ObservationError::UnknownObservationLocation { .. })),
            r matches Ok(receipt) ==> receipt.lineage() == self.lineage() && receipt.index_view()
                == index@ && receipt.key_position_view() == key_position,
    {
        if key_position == 0 {
            return Err(ObservationError::InvalidOrdinalPosition);
        }
        let ghost views = self.observation_views();
        match find_key_observation(self.observations.as_slice(), index, key_position) {
            None => {
                proof {
                    assert forall|i: int| 0 <= i < views.len() implies !((#[trigger] views[i]).index == index@
                        && views[i].key_position == key_position) by {
                        assert(views[i] == self.observations@[i]@);
                    }
                }
                return Err(ObservationError::UnknownObservationLocation {
                    location: render_key_collation_location(index, key_position),
                });
            },
            Some(found) => {
                proof {
                    let k = choose|k: int| 0 <= k < self.observations@.len() && self.observations@[k] == *found
                        && found@.index == index@ && found@.key_position == key_position;
                    assert(views[k] == found@);
                }
            },
        }
        Ok(IndexKeyCollationIdentitySourceReceipt {
            source_id: self.source_connection_key.clone(),
            connection_policy_binding: self.connection_policy_binding.clone(),
            source_digest: self.snapshot_digest.clone(),
            extractor_revision: self.extractor_revision.clone(),
            observed_at_utc: self.observed_at_utc.clone(),
            index: index.clone(),
            key_position,
        })
    }
}

} // verus!

verus! {

/// The base snapshot's keys and the issued memberships accept these key observations.
pub open spec fn key_collations_accepted(
    ms: Seq<MembershipView>,
    exps: Seq<KeyExpectationView>,
    obs: Seq<KeyCollationView>,
) -> bool {
    &&& !duplicate_key_position(obs)
    &&& key_collations_complete(exps, obs)
    &&& key_collations_bound(exps, obs)
    &&& !attached_key_parent_missing(ms, obs)
    &&& !attached_key_identity_differs(ms, obs)
}

/// Copies key observations value for value.
pub fn clone_key_observations(s: &[IndexKeyCollationIdentityObservation]) -> (v: Vec<IndexKeyCollationIdentityObservation>)
    ensures
        key_collation_views(v@) == key_collation_views(s@),
{
    let mut v: Vec<IndexKeyCollationIdentityObservation> = Vec::new();
    let mut i: usize = 0;
    while i < s.len()
        invariant
            i <= s@.len(),
            key_collation_views(v@) == key_collation_views(s@).subrange(0, i as int),
        decreases s@.len() - i,
    {
        let c = s[i].clone();
        let ghost before = v@;
        v.push(c);
        proof {
            assert(key_collation_views(v@) =~= key_collation_views(before).push(c@));
            assert(key_collation_views(s@).subrange(0, i + 1) =~= key_collation_views(s@).subrange(0, i as int).push(
                s@[i as int]@,
            ));
        }
        i = i + 1;
    }
    proof {
        assert(key_collation_views(s@).subrange(0, s@.len() as int) =~= key_collation_views(s@));
    }
    v
}

} // verus!

verus! {

/// A value-for-value copy of strictly sorted key observations is already in its sorted order.
pub proof fn lemma_sorted_key_copy(c: Seq<IndexKeyCollationIdentityObservation>, e: Seq<IndexKeyCollationIdentityObservation>)
    requires
        key_collation_views(c) == key_collation_views(e),
        crate::order::strictly_sorted(e),
    ensures
        crate::order::sorted_by_key(c) == c,
{
    assert(c.len() == key_collation_views(c).len() && e.len() == key_collation_views(e).len());
    assert forall|i: int, j: int| 0 <= i < j < c.len() implies (#[trigger] c[i]).key_lt(#[trigger] c[j]) by {
        assert(key_collation_views(c)[i] == c[i]@ && key_collation_views(e)[i] == e[i]@);
        assert(key_collation_views(c)[j] == c[j]@ && key_collation_views(e)[j] == e[j]@);
        assert(e[i].key_lt(e[j]));
    }
    crate::order::lemma_sorted_by_key_is(c, c);
}

} // verus!
