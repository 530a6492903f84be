//! Catalog-exact collation identity for modeled index-expression equality.
//!
//! Expression and relation-`Var` evidence names collations by schema and name, but PostgreSQL 18
//! admits distinct `pg_collation` rows with one name when `collencoding` differs, and attached-index
//! equality compares resolved rows. This successor binds every collation occurrence of every
//! expression and predicate tree, and every relation-`Var` collation, to a full catalog identity.

use vstd::prelude::*;

use crate::catalog::{
    index_location, BaseColumnCollation, BaseRelation, IssuedTypeModifiers, IndexCoordinateView, IndexPartitionCoordinate, IndexPartitionEvidence,
    IndexPartitionMembership, IssuedSnapshot, LineageView, MembershipView, QualifiedCollationName,
    QualifiedNameView,
};
use crate::collation_identity::{
    clone_key_observations, frame_identity, frame_optional_identity, identity_name, put_identity, put_optional_identity,
    same_optional_identity, CollationCatalogIdentity, CollationIdentityView,
    IndexKeyCollationExpectation, IndexPartitionCollationIdentitySnapshot,
};
use crate::digest::{digest_text, finish_digest, frame_len, frame_str, put_len, put_raw, put_str};
use crate::error::{fails_with_text, invalid, ObservationError};
use crate::exclusion::IndexExclusionSemanticsSnapshot;
use crate::expression_relation_var_schema::IndexExpressionRelationVarNodeSchemaSnapshot;
use crate::relation_var_snapshot::{collation_views, relation_var_refused_as, IndexExpressionRelationVarSnapshot};
use crate::expression_schema::IndexExpressionNodeSchemaSnapshot;
use crate::expression_semantics::{collation_name_views, collect_expression_collations, expr_collations};
use crate::expression_semantics_snapshot::{
    expression_views, predicate_views, ExpressionObservationView, IndexExpressionSemanticsSnapshot,
    PredicateObservationView,
};
use crate::expression_var::{
    relation_var_location_text, IndexExpressionRelationVarLocation, IndexExpressionRelationVarObservation,
    RelationVarLocationView, RelationVarView,
};
use crate::order::{
    compare_text, has_key_collision, lemma_text_lt_irreflexive, lemma_text_lt_total, lemma_text_lt_transitive,
    same_elements, same_key, sort_by_key, sorted_by_key, strictly_sorted, text_eq, text_lt, KeyOrder, SortKey,
};
use crate::text::{decimal, push_decimal, push_text};
use vstd::utf8::encode_utf8;

verus! {

/// Stable location of one collation-bearing field in canonical expression or predicate evidence;
/// the occurrence position is one-based preorder among the collation values of the tree.
#[derive(Debug, PartialEq, Eq)]
pub enum IndexExpressionCollationIdentityLocation {
    /// One collation field inside an expression index key.
    Expression {
        /// Exact relation-scoped index coordinate.
        index: IndexPartitionCoordinate,
        /// One-based key position.
        key_position: u32,
        /// One-based collation occurrence inside the expression tree.
        occurrence_position: u32,
    },
    /// One collation field inside a partial-index predicate.
    Predicate {
        /// Exact relation-scoped index coordinate.
        index: IndexPartitionCoordinate,
        /// One-based collation occurrence inside the predicate tree.
        occurrence_position: u32,
    },
}

/// The value of a collation-occurrence location.
pub struct CollationLocationView {
    pub index: IndexCoordinateView,
    pub key_position: Option<u32>,
    pub occurrence_position: u32,
}

impl View for IndexExpressionCollationIdentityLocation {
    type V = CollationLocationView;

    open spec fn view(&self) -> CollationLocationView {
        match self {
            IndexExpressionCollationIdentityLocation::Expression { index, key_position, occurrence_position } => {
                CollationLocationView {
                    index: index@,
                    key_position: Some(*key_position),
                    occurrence_position: *occurrence_position,
                }
            },
            IndexExpressionCollationIdentityLocation::Predicate { index, occurrence_position } => CollationLocationView {
                index: index@,
                key_position: None,
                occurrence_position: *occurrence_position,
            },
        }
    }
}

/// `{index}/keys/{k}/expression-semantics/collations/{n}` or
/// `{index}/predicate-semantics/collations/{n}`.
pub open spec fn collation_location_text(l: CollationLocationView) -> Seq<char> {
    match l.key_position {
        Some(k) => index_location(l.index) + "/keys/"@ + decimal(k as nat) + "/expression-semantics/collations/"@
            + decimal(l.occurrence_position as nat),
        None => index_location(l.index) + "/predicate-semantics/collations/"@ + decimal(l.occurrence_position as nat),
    }
}

fn render_collation_location(index: &IndexPartitionCoordinate, key_position: Option<u32>, occurrence_position: u32) -> (s:
    String)
    ensures
        s@ == collation_location_text(CollationLocationView { index: index@, key_position, occurrence_position }),
{
    let mut out = index.canonical_location();
    match key_position {
        Some(k) => {
            push_text(&mut out, "/keys/");
            push_decimal(&mut out, k as u64);
            push_text(&mut out, "/expression-semantics/collations/");
        },
        None => {
            push_text(&mut out, "/predicate-semantics/collations/");
        },
    }
    push_decimal(&mut out, occurrence_position as u64);
    out
}

impl IndexExpressionCollationIdentityLocation {
    /// Creates one expression-key collation occurrence coordinate; positions are one-based.
    pub fn expression(index: IndexPartitionCoordinate, key_position: u32, occurrence_position: u32) -> (r: Result<
        Self,
        ObservationError,
    >)
        ensures
            r is Ok <==> key_position != 0 && occurrence_position != 0,
            r matches Ok(l) ==> l@ == (CollationLocationView {
                index: index@,
                key_position: Some(key_position),
                occurrence_position,
            }),
            r matches Err(e) ==> e == ObservationError::InvalidOrdinalPosition,
    {
        if key_position == 0 || occurrence_position == 0 {
            return Err(ObservationError::InvalidOrdinalPosition);
        }
        Ok(IndexExpressionCollationIdentityLocation::Expression { index, key_position, occurrence_position })
    }

    /// Creates one predicate collation occurrence coordinate; the position is one-based.
    pub fn predicate(index: IndexPartitionCoordinate, occurrence_position: u32) -> (r: Result<Self, ObservationError>)
        ensures
            r is Ok <==> occurrence_position != 0,
            r matches Ok(l) ==> l@ == (CollationLocationView { index: index@, key_position: None, occurrence_position }),
            r matches Err(e) ==> e == ObservationError::InvalidOrdinalPosition,
    {
        if occurrence_position == 0 {
            return Err(ObservationError::InvalidOrdinalPosition);
        }
        Ok(IndexExpressionCollationIdentityLocation::Predicate { index, occurrence_position })
    }

    /// Returns the exact relation-scoped index coordinate.
    pub fn index(&self) -> (i: &IndexPartitionCoordinate)
        ensures
            i@ == self@.index,
    {
        match self {
            IndexExpressionCollationIdentityLocation::Expression { index, .. } => index,
            IndexExpressionCollationIdentityLocation::Predicate { index, .. } => index,
        }
    }

    /// Returns the one-based key position of an expression-key location.
    pub fn key_position(&self) -> (p: Option<u32>)
        ensures
            p == self@.key_position,
    {
        match self {
            IndexExpressionCollationIdentityLocation::Expression { key_position, .. } => Some(*key_position),
            IndexExpressionCollationIdentityLocation::Predicate { .. } => None,
        }
    }

    /// Returns the one-based collation occurrence position.
    pub fn occurrence_position(&self) -> (p: u32)
        ensures
            p == self@.occurrence_position,
    {
        match self {
            IndexExpressionCollationIdentityLocation::Expression { occurrence_position, .. } => *occurrence_position,
            IndexExpressionCollationIdentityLocation::Predicate { occurrence_position, .. } => *occurrence_position,
        }
    }

    /// Returns the collision-safe governed evidence coordinate.
    pub fn canonical_location(&self) -> (s: String)
        ensures
            s@ == collation_location_text(self@),
    {
        render_collation_location(self.index(), self.key_position(), self.occurrence_position())
    }

    /// The same occurrence inside another index.
    pub fn with_index(&self, index: IndexPartitionCoordinate) -> (l: Self)
        ensures
            l@ == (CollationLocationView { index: index@, ..self@ }),
    {
        match self {
            IndexExpressionCollationIdentityLocation::Expression { key_position, occurrence_position, .. } => {
                IndexExpressionCollationIdentityLocation::Expression {
                    index,
                    key_position: *key_position,
                    occurrence_position: *occurrence_position,
                }
            },
            IndexExpressionCollationIdentityLocation::Predicate { occurrence_position, .. } => {
                IndexExpressionCollationIdentityLocation::Predicate { index, occurrence_position: *occurrence_position }
            },
        }
    }
}

/// The value of one expression/predicate collation observation.
pub struct ExpressionCollationView {
    pub location: CollationLocationView,
    pub collation: CollationIdentityView,
}

/// Catalog-row identity for one expression or predicate collation occurrence.
#[derive(Debug, PartialEq, Eq)]
pub struct IndexExpressionCollationIdentityObservation {
    location: IndexExpressionCollationIdentityLocation,
    collation: CollationCatalogIdentity,
}

impl View for IndexExpressionCollationIdentityObservation {
    type V = ExpressionCollationView;

    closed spec fn view(&self) -> ExpressionCollationView {
        ExpressionCollationView { location: self.location@, collation: self.collation@ }
    }
}

impl IndexExpressionCollationIdentityObservation {
    /// Creates one catalog-exact expression/predicate collation observation.
    pub fn new(location: IndexExpressionCollationIdentityLocation, collation: CollationCatalogIdentity) -> (r: Result<
        Self,
        ObservationError,
    >)
        ensures
            r matches Ok(o) && o@ == (ExpressionCollationView { location: location@, collation: collation@ }),
    {
        Ok(IndexExpressionCollationIdentityObservation { location, collation })
    }

    /// Returns the exact occurrence location.
    pub fn location(&self) -> (l: &IndexExpressionCollationIdentityLocation)
        ensures
            l@ == self@.location,
    {
        &self.location
    }

    /// Returns the resolved `pg_collation` catalog identity.
    pub fn collation(&self) -> (c: &CollationCatalogIdentity)
        ensures
            c@ == self@.collation,
    {
        &self.collation
    }
}

impl SortKey for IndexExpressionCollationIdentityObservation {
    open spec fn key_lt(self, other: Self) -> bool {
        text_lt(collation_location_text(self@.location), collation_location_text(other@.location))
    }

    proof fn lemma_key_lt_transitive(a: Self, b: Self, c: Self) {
        lemma_text_lt_transitive(
            collation_location_text(a@.location),
            collation_location_text(b@.location),
            collation_location_text(c@.location),
        );
    }

    proof fn lemma_key_lt_irreflexive(a: Self) {
        lemma_text_lt_irreflexive(collation_location_text(a@.location));
    }

    fn compare_key(&self, other: &Self) -> (o: KeyOrder) {
        let a = self.location.canonical_location();
        let b = other.location.canonical_location();
        compare_text(a.as_str(), b.as_str())
    }
}

/// The value of one relation-`Var` collation observation.
pub struct RelationVarCollationView {
    pub location: RelationVarLocationView,
    pub collation: Option<CollationIdentityView>,
}

/// Catalog-row identity for one relation-`Var` collation; `None` proves the `Var` is uncollated.
#[derive(Debug, PartialEq, Eq)]
pub struct IndexRelationVarCollationIdentityObservation {
    location: IndexExpressionRelationVarLocation,
    collation: Option<CollationCatalogIdentity>,
}

impl View for IndexRelationVarCollationIdentityObservation {
    type V = RelationVarCollationView;

    closed spec fn view(&self) -> RelationVarCollationView {
        RelationVarCollationView {
            location: self.location@,
            collation: match self.collation {
                Some(c) => Some(c@),
                None => None,
            },
        }
    }
}

impl IndexRelationVarCollationIdentityObservation {
    /// Creates one relation-`Var` collation observation.
    pub fn new(location: IndexExpressionRelationVarLocation, collation: Option<CollationCatalogIdentity>) -> (r: Result<
        Self,
        ObservationError,
    >)
        ensures
            r matches Ok(o) && o@ == (RelationVarCollationView {
                location: location@,
                collation: match collation {
                    Some(c) => Some(c@),
                    None => None,
                },
            }),
    {
        Ok(IndexRelationVarCollationIdentityObservation { location, collation })
    }

    /// Returns the exact relation-`Var` leaf location.
    pub fn location(&self) -> (l: &IndexExpressionRelationVarLocation)
        ensures
            l@ == self@.location,
    {
        &self.location
    }

    /// Returns the resolved catalog identity, or `None` for an uncollated `Var`.
    pub fn collation(&self) -> (c: Option<&CollationCatalogIdentity>)
        ensures
            match c {
                Some(x) => self@.collation == Some(x@),
                None => self@.collation is None,
            },
    {
        match &self.collation {
            Some(c) => Some(c),
            None => None,
        }
    }
}

impl SortKey for IndexRelationVarCollationIdentityObservation {
    open spec fn key_lt(self, other: Self) -> bool {
        text_lt(relation_var_location_text(self@.location), relation_var_location_text(other@.location))
    }

    proof fn lemma_key_lt_transitive(a: Self, b: Self, c: Self) {
        lemma_text_lt_transitive(
            relation_var_location_text(a@.location),
            relation_var_location_text(b@.location),
            relation_var_location_text(c@.location),
        );
    }

    proof fn lemma_key_lt_irreflexive(a: Self) {
        lemma_text_lt_irreflexive(relation_var_location_text(a@.location));
    }

    fn compare_key(&self, other: &Self) -> (o: KeyOrder) {
        let a = self.location.canonical_location();
        let b = other.location.canonical_location();
        compare_text(a.as_str(), b.as_str())
    }
}

} // verus!

verus! {

/// The position of the last entry whose key is `key`.
pub open spec fn last_index_of(keys: Seq<Seq<char>>, key: Seq<char>) -> Option<int>
    decreases keys.len(),
{
    if keys.len() == 0 {
        None
    } else if keys.last() == key {
        Some(keys.len() - 1)
    } else {
        last_index_of(keys.drop_last(), key)
    }
}

proof fn lemma_last_index_of(keys: Seq<Seq<char>>, key: Seq<char>)
    ensures
        match last_index_of(keys, key) {
            Some(i) => 0 <= i < keys.len() && keys[i] == key,
            None => !keys.contains(key),
        },
    decreases keys.len(),
{
    if keys.len() > 0 && keys.last() != key {
        lemma_last_index_of(keys.drop_last(), key);
        if last_index_of(keys.drop_last(), key) is None && keys.contains(key) {
            let i = choose|i: int| 0 <= i < keys.len() && keys[i] == key;
            assert(keys.drop_last()[i] == key);
        }
    }
}

/// The keys of a sequence of keyed entries.
pub open spec fn entry_keys<V>(entries: Seq<(String, V)>) -> Seq<Seq<char>> {
    entries.map_values(|e: (String, V)| e.0@)
}

fn find_last<V>(entries: &[(String, V)], key: &str) -> (r: Option<usize>)
    ensures
        match r {
            Some(i) => last_index_of(entry_keys(entries@), key@) == Some(i as int),
            None => last_index_of(entry_keys(entries@), key@) is None,
        },
{
    let ghost keys = entry_keys(entries@);
    let mut i = entries.len();
    assert(keys.subrange(0, i as int) =~= keys);
    while i > 0
        invariant
            i <= entries@.len(),
            keys == entry_keys(entries@),
            last_index_of(keys, key@) == last_index_of(keys.subrange(0, i as int), key@),
        decreases i,
    {
        proof {
            let prefix = keys.subrange(0, i as int);
            assert(prefix.last() == entries@[i - 1].0@);
            assert(prefix.drop_last() =~= keys.subrange(0, i - 1));
        }
        if text_eq(entries[i - 1].0.as_str(), key) {
            return Some(i - 1);
        }
        i = i - 1;
    }
    None
}

/// Every observed key is expected and every expected key is observed.
pub open spec fn keys_complete(expected: Seq<Seq<char>>, observed: Seq<Seq<char>>) -> bool {
    &&& forall|i: int| 0 <= i < observed.len() ==> expected.contains(#[trigger] observed[i])
    &&& forall|j: int| 0 <= j < expected.len() ==> observed.contains(#[trigger] expected[j])
}

/// Two different positions hold the same key.
pub open spec fn has_duplicate_key(observed: Seq<Seq<char>>) -> bool {
    exists|i: int, j: int| 0 <= i < j < observed.len() && observed[i] == observed[j]
}

fn contains_text(texts: &Vec<String>, key: &str) -> (b: bool)
    ensures
        b == texts@.map_values(|t: String| t@).contains(key@),
{
    let ghost views = texts@.map_values(|t: String| t@);
    let mut i: usize = 0;
    while i < texts.len()
        invariant
            i <= texts@.len(),
            views == texts@.map_values(|t: String| t@),
            forall|k: int| 0 <= k < i ==> views[k] != key@,
        decreases texts@.len() - i,
    {
        assert(views[i as int] == texts@[i as int]@);
        if text_eq(texts[i].as_str(), key) {
            return true;
        }
        i = i + 1;
    }
    false
}

fn validate_keys_complete<V>(entries: &[(String, V)], observed: &Vec<String>) -> (b: bool)
    ensures
        b == keys_complete(entry_keys(entries@), observed@.map_values(|t: String| t@)),
{
    let ghost keys = entry_keys(entries@);
    let ghost obs = observed@.map_values(|t: String| t@);
    let mut i: usize = 0;
    while i < observed.len()
        invariant
            i <= observed@.len(),
            keys == entry_keys(entries@),
            obs == observed@.map_values(|t: String| t@),
            forall|k: int| 0 <= k < i ==> keys.contains(#[trigger] obs[k]),
        decreases observed@.len() - i,
    {
        assert(obs[i as int] == observed@[i as int]@);
        let found = find_last(entries, observed[i].as_str());
        proof {
            lemma_last_index_of(keys, obs[i as int]);
        }
        if found.is_none() {
            return false;
        }
        i = i + 1;
    }
    let mut j: usize = 0;
    while j < entries.len()
        invariant
            j <= entries@.len(),
            keys == entry_keys(entries@),
            obs == observed@.map_values(|t: String| t@),
            forall|k: int| 0 <= k < obs.len() ==> keys.contains(#[trigger] obs[k]),
            forall|k: int| 0 <= k < j ==> obs.contains(#[trigger] keys[k]),
        decreases entries@.len() - j,
    {
        assert(keys[j as int] == entries@[j as int].0@);
        if !contains_text(observed, entries[j].0.as_str()) {
            return false;
        }
        j = j + 1;
    }
    true
}

} // verus!

verus! {

/// Field reported when a tree holds more collation occurrences than a `u32` position can count.
pub const OCCURRENCE_POSITION_FIELD: &'static str = "index_expression_collation_occurrence_position";

/// Location and qualified name of every collation occurrence of one tree, in preorder.
pub open spec fn tree_entries(index: IndexCoordinateView, key_position: Option<u32>, cs: Seq<QualifiedNameView>) -> Seq<
    (Seq<char>, QualifiedNameView),
> {
    Seq::new(
        cs.len(),
        |k: int|
            (
                collation_location_text(
                    CollationLocationView { index, key_position, occurrence_position: (k + 1) as u32 },
                ),
                cs[k],
            ),
    )
}

/// The expected occurrences of a sequence of expression observations, in order.
pub open spec fn expression_entries(es: Seq<ExpressionObservationView>) -> Seq<(Seq<char>, QualifiedNameView)>
    decreases es.len(),
{
    if es.len() == 0 {
        Seq::empty()
    } else {
        expression_entries(es.drop_last()) + tree_entries(
            es.last().index,
            Some(es.last().key_position),
            expr_collations(es.last().expression),
        )
    }
}

/// The expected occurrences of a sequence of predicate observations, in order.
pub open spec fn predicate_entries(ps: Seq<PredicateObservationView>) -> Seq<(Seq<char>, QualifiedNameView)>
    decreases ps.len(),
{
    if ps.len() == 0 {
        Seq::empty()
    } else {
        predicate_entries(ps.drop_last()) + tree_entries(ps.last().index, None, expr_collations(ps.last().predicate))
    }
}

/// Some tree holds more collation occurrences than a `u32` position can count.
pub open spec fn occurrence_overflow(es: Seq<ExpressionObservationView>, ps: Seq<PredicateObservationView>) -> bool {
    ||| exists|i: int| 0 <= i < es.len() && expr_collations(#[trigger] es[i].expression).len() > u32::MAX
    ||| exists|i: int| 0 <= i < ps.len() && expr_collations(#[trigger] ps[i].predicate).len() > u32::MAX
}

/// The values of keyed name entries.
pub open spec fn name_entries(v: Seq<(String, QualifiedCollationName)>) -> Seq<(Seq<char>, QualifiedNameView)> {
    v.map_values(|e: (String, QualifiedCollationName)| (e.0@, e.1@))
}

fn push_tree_entries(
    entries: &mut Vec<(String, QualifiedCollationName)>,
    index: &IndexPartitionCoordinate,
    key_position: Option<u32>,
    tree: &crate::expression_semantics::CanonicalExpression,
) -> (r: Result<(), ObservationError>)
    ensures
        r is Ok <==> expr_collations(*tree).len() <= u32::MAX,
        r is Ok ==> name_entries(final(entries)@) == name_entries(old(entries)@) + tree_entries(
            index@,
            key_position,
            expr_collations(*tree),
        ),
        r is Err ==> fails_with_text(r, OCCURRENCE_POSITION_FIELD@),
{
    let mut collations: Vec<QualifiedCollationName> = Vec::new();
    collect_expression_collations(tree, &mut collations);
    let ghost cs = expr_collations(*tree);
    assert(collation_name_views(collations@) =~= cs);
    if collations.len() > 0xFFFF_FFFFusize {
        return Err(invalid(OCCURRENCE_POSITION_FIELD));
    }
    let ghost start = name_entries(entries@);
    let mut k: usize = 0;
    while k < collations.len()
        invariant
            k <= collations@.len() <= u32::MAX,
            collation_name_views(collations@) == cs,
            name_entries(entries@) == start + tree_entries(index@, key_position, cs).subrange(0, k as int),
        decreases collations@.len() - k,
    {
        let location = render_collation_location(index, key_position, (k + 1) as u32);
        let name = collations[k].clone();
        let ghost before = entries@;
        let ghost entry = (location@, name@);
        entries.push((location, name));
        proof {
            let te = tree_entries(index@, key_position, cs);
            assert(cs[k as int] == collations@[k as int]@);
            assert(te[k as int] == entry);
            assert(te.subrange(0, k + 1) =~= te.subrange(0, k as int).push(te[k as int]));
            assert(name_entries(entries@) =~= name_entries(before).push(entry));
        }
        k = k + 1;
    }
    proof {
        assert(tree_entries(index@, key_position, cs).subrange(0, k as int) =~= tree_entries(index@, key_position, cs));
    }
    Ok(())
}

} // verus!

verus! {

fn expected_expression_entries(expression: &IndexExpressionSemanticsSnapshot) -> (r: Result<
    Vec<(String, QualifiedCollationName)>,
    ObservationError,
>)
    ensures
        r is Ok <==> !occurrence_overflow(expression.expression_views(), expression.predicate_views()),
        r is Err ==> fails_with_text(r, OCCURRENCE_POSITION_FIELD@),
        r matches Ok(v) ==> name_entries(v@) == expression_entries(expression.expression_views()) + predicate_entries(
            expression.predicate_views(),
        ),
{
    let ghost es = expression.expression_views();
    let ghost ps = expression.predicate_views();
    let mut entries: Vec<(String, QualifiedCollationName)> = Vec::new();
    let observations = expression.expression_observations();
    let mut i: usize = 0;
    assert(es.subrange(0, 0) =~= Seq::<ExpressionObservationView>::empty());
    while i < observations.len()
        invariant
            i <= observations@.len(),
            es == expression_views(observations@),
            es == expression.expression_views(),
            ps == expression.predicate_views(),
            name_entries(entries@) == expression_entries(es.subrange(0, i as int)),
            forall|k: int| 0 <= k < i ==> expr_collations(#[trigger] es[k].expression).len() <= u32::MAX,
        decreases observations@.len() - i,
    {
        let o = &observations[i];
        assert(es[i as int] == o@);
        match push_tree_entries(&mut entries, o.index(), Some(o.key_position()), o.expression()) {
            Ok(()) => {},
            Err(e) => {
                return Err(e);
            },
        }
        proof {
            let next = es.subrange(0, i + 1);
            assert(next.drop_last() =~= es.subrange(0, i as int));
            assert(next.last() == o@);
        }
        i = i + 1;
    }
    proof {
        assert(es.subrange(0, observations@.len() as int) =~= es);
    }
    let ghost head = name_entries(entries@);
    let predicates = expression.predicate_observations();
    let mut j: usize = 0;
    assert(ps.subrange(0, 0) =~= Seq::<PredicateObservationView>::empty());
    while j < predicates.len()
        invariant
            j <= predicates@.len(),
            ps == predicate_views(predicates@),
            es == expression.expression_views(),
            ps == expression.predicate_views(),
            head == expression_entries(es),
            forall|k: int| 0 <= k < es.len() ==> expr_collations(#[trigger] es[k].expression).len() <= u32::MAX,
            forall|k: int| 0 <= k < j ==> expr_collations(#[trigger] ps[k].predicate).len() <= u32::MAX,
            name_entries(entries@) == head + predicate_entries(ps.subrange(0, j as int)),
        decreases predicates@.len() - j,
    {
        let o = &predicates[j];
        assert(ps[j as int] == o@);
        match push_tree_entries(&mut entries, o.index(), None, o.predicate()) {
            Ok(()) => {},
            Err(e) => {
                return Err(e);
            },
        }
        proof {
            let next = ps.subrange(0, j + 1);
            assert(next.drop_last() =~= ps.subrange(0, j as int));
            assert(next.last() == o@);
            assert(name_entries(entries@) =~= head + predicate_entries(next));
        }
        j = j + 1;
    }
    proof {
        assert(ps.subrange(0, predicates@.len() as int) =~= ps);
    }
    Ok(entries)
}

} // verus!

verus! {

/// Field reported when observed collation occurrences and expected ones differ.
pub const EXPRESSION_COLLATION_COMPLETENESS_FIELD: &'static str = "index_expression_collation_catalog_completeness";

/// Field reported when an observed identity does not carry the recorded qualified name.
pub const EXPRESSION_COLLATION_BINDING_FIELD: &'static str = "index_expression_collation_catalog_binding";

/// The keys of spec-level keyed entries.
pub open spec fn spec_keys<V>(entries: Seq<(Seq<char>, V)>) -> Seq<Seq<char>> {
    entries.map_values(|e: (Seq<char>, V)| e.0)
}

/// The location texts of expression collation observations.
pub open spec fn expression_collation_texts(obs: Seq<IndexExpressionCollationIdentityObservation>) -> Seq<Seq<char>> {
    obs.map_values(|o: IndexExpressionCollationIdentityObservation| collation_location_text(o@.location))
}

/// The schema-qualified name of a catalog identity.
pub open spec fn name_of(c: CollationIdentityView) -> QualifiedNameView {
    QualifiedNameView { schema_name: c.schema_name, name: c.collation_name }
}

/// Every observation carries the name recorded at its location (the last entry for it).
pub open spec fn expression_collations_bound(
    entries: Seq<(Seq<char>, QualifiedNameView)>,
    obs: Seq<IndexExpressionCollationIdentityObservation>,
) -> bool {
    forall|i: int|
        0 <= i < obs.len() ==> match last_index_of(spec_keys(entries), collation_location_text((#[trigger] obs[i])@.location)) {
            Some(j) => entries[j].1 == name_of(obs[i]@.collation),
            None => false,
        }
}

/// The field reported when expression collation observations are refused, or `None`.
pub open spec fn expression_collations_error(
    es: Seq<ExpressionObservationView>,
    ps: Seq<PredicateObservationView>,
    obs: Seq<IndexExpressionCollationIdentityObservation>,
) -> Option<Seq<char>> {
    let entries = expression_entries(es) + predicate_entries(ps);
    if occurrence_overflow(es, ps) {
        Some(OCCURRENCE_POSITION_FIELD@)
    } else if has_duplicate_key(expression_collation_texts(obs)) || !keys_complete(
        spec_keys(entries),
        expression_collation_texts(obs),
    ) {
        Some(EXPRESSION_COLLATION_COMPLETENESS_FIELD@)
    } else if !expression_collations_bound(entries, obs) {
        Some(EXPRESSION_COLLATION_BINDING_FIELD@)
    } else {
        None
    }
}

proof fn lemma_expression_texts_transfer(
    a: Seq<IndexExpressionCollationIdentityObservation>,
    b: Seq<IndexExpressionCollationIdentityObservation>,
    keys: Seq<Seq<char>>,
    entries: Seq<(Seq<char>, QualifiedNameView)>,
)
    requires
        same_elements(a, b),
        keys == spec_keys(entries),
    ensures
        keys_complete(keys, expression_collation_texts(a)) ==> keys_complete(keys, expression_collation_texts(b)),
        expression_collations_bound(entries, a) ==> expression_collations_bound(entries, b),
{
    let ta = expression_collation_texts(a);
    let tb = expression_collation_texts(b);
    if keys_complete(keys, ta) {
        assert forall|i: int| 0 <= i < tb.len() implies keys.contains(#[trigger] tb[i]) by {
            assert(a.contains(b[i]));
            let k = choose|k: int| 0 <= k < a.len() && a[k] == b[i];
            assert(ta[k] == tb[i]);
        }
        assert forall|j: int| 0 <= j < keys.len() implies tb.contains(#[trigger] keys[j]) by {
            assert(ta.contains(keys[j]));
            let k = choose|k: int| 0 <= k < ta.len() && ta[k] == keys[j];
            assert(b.contains(a[k]));
            let m = choose|m: int| 0 <= m < b.len() && b[m] == a[k];
            assert(tb[m] == keys[j]);
        }
    }
    if expression_collations_bound(entries, a) {
        assert forall|i: int| 0 <= i < b.len() implies match last_index_of(
            spec_keys(entries),
            collation_location_text((#[trigger] b[i])@.location),
        ) {
            Some(j) => entries[j].1 == name_of(b[i]@.collation),
            None => false,
        } by {
            assert(a.contains(b[i]));
            let k = choose|k: int| 0 <= k < a.len() && a[k] == b[i];
            assert(a[k] == b[i]);
        }
    }
}

proof fn lemma_expression_texts_collision(s: Seq<IndexExpressionCollationIdentityObservation>)
    ensures
        has_key_collision(s) <==> has_duplicate_key(expression_collation_texts(s)),
{
    let t = expression_collation_texts(s);
    if has_key_collision(s) {
        let (i, j) = choose|i: int, j: int| 0 <= i < j < s.len() && same_key(#[trigger] s[i], #[trigger] s[j]);
        if t[i] != t[j] {
            lemma_text_lt_total(t[i], t[j]);
        }
    }
    if has_duplicate_key(t) {
        let (i, j) = choose|i: int, j: int| 0 <= i < j < t.len() && t[i] == t[j];
        lemma_text_lt_irreflexive(t[i]);
        assert(same_key(s[i], s[j]));
    }
}

fn location_texts(obs: &Vec<IndexExpressionCollationIdentityObservation>) -> (texts: Vec<String>)
    ensures
        texts@.map_values(|t: String| t@) == expression_collation_texts(obs@),
{
    let mut texts: Vec<String> = Vec::new();
    let mut i: usize = 0;
    while i < obs.len()
        invariant
            i <= obs@.len(),
            texts@.map_values(|t: String| t@) == expression_collation_texts(obs@).subrange(0, i as int),
        decreases obs@.len() - i,
    {
        let text = obs[i].location().canonical_location();
        let ghost before = texts@;
        texts.push(text);
        proof {
            assert(texts@.map_values(|t: String| t@) =~= before.map_values(|t: String| t@).push(text@));
            assert(expression_collation_texts(obs@).subrange(0, i + 1) =~= expression_collation_texts(obs@).subrange(
                0,
                i as int,
            ).push(expression_collation_texts(obs@)[i as int]));
        }
        i = i + 1;
    }
    proof {
        assert(expression_collation_texts(obs@).subrange(0, obs@.len() as int) =~= expression_collation_texts(obs@));
    }
    texts
}

/// Sorts expression and predicate collation observations by location and binds each to the
/// qualified name that the expression snapshot records at that occurrence.
pub fn canonicalize_expression_collations(
    expression: &IndexExpressionSemanticsSnapshot,
    observations: Vec<IndexExpressionCollationIdentityObservation>,
) -> (r: Result<Vec<IndexExpressionCollationIdentityObservation>, ObservationError>)
    ensures
        r is Ok <==> expression_collations_error(expression.expression_views(), expression.predicate_views(), observations@)
            is None,
        r is Err ==> fails_with_text(
            r,
            expression_collations_error(expression.expression_views(), expression.predicate_views(), observations@)->0,
        ),
        r matches Ok(v) ==> v@ == sorted_by_key(observations@) && strictly_sorted(v@) && same_elements(v@, observations@),
{
    let ghost input = observations@;
    let entries = expected_expression_entries(expression)?;
    let ghost spec_entries = name_entries(entries@);
    proof {
        assert(entry_keys(entries@) =~= spec_keys(spec_entries));
        lemma_expression_texts_collision(input);
    }
    let sorted = match sort_by_key(observations) {
        Some(v) => v,
        None => {
            return Err(invalid(EXPRESSION_COLLATION_COMPLETENESS_FIELD));
        },
    };
    proof {
        crate::order::lemma_same_elements_symmetric(sorted@, input);
        lemma_expression_texts_transfer(input, sorted@, spec_keys(spec_entries), spec_entries);
        lemma_expression_texts_transfer(sorted@, input, spec_keys(spec_entries), spec_entries);
    }
    let texts = location_texts(&sorted);
    if !validate_keys_complete(entries.as_slice(), &texts) {
        return Err(invalid(EXPRESSION_COLLATION_COMPLETENESS_FIELD));
    }
    let ghost sv = sorted@;
    assert(texts@.len() == texts@.map_values(|t: String| t@).len());
    assert(texts@.len() == sv.len());
    let mut i: usize = 0;
    #[verifier::loop_isolation(false)]
    while i < sorted.len()
        invariant
            i <= sorted@.len(),
            sv == sorted@,
            texts@.len() == sv.len(),
            texts@.map_values(|t: String| t@) == expression_collation_texts(sv),
            keys_complete(spec_keys(spec_entries), expression_collation_texts(sv)),
            spec_entries == name_entries(entries@),
            entry_keys(entries@) == spec_keys(spec_entries),
            forall|k: int|
                0 <= k < i ==> match last_index_of(spec_keys(spec_entries), collation_location_text((#[trigger] sv[k])@.location)) {
                    Some(j) => spec_entries[j].1 == name_of(sv[k]@.collation),
                    None => false,
                },
        decreases sorted@.len() - i,
    {
        let o = &sorted[i];
        assert(texts@[i as int]@ == collation_location_text(o@.location)) by {
            assert(texts@.map_values(|t: String| t@)[i as int] == texts@[i as int]@);
        }
        proof {
            lemma_last_index_of(spec_keys(spec_entries), texts@[i as int]@);
            assert(expression_collation_texts(sv)[i as int] == texts@[i as int]@);
        }
        match find_last(entries.as_slice(), texts[i].as_str()) {
            None => {
                proof {
                    assert(spec_keys(spec_entries).contains(expression_collation_texts(sv)[i as int]));
                }
                return Err(invalid(EXPRESSION_COLLATION_BINDING_FIELD));
            },
            Some(j) => {
                let name = &entries[j].1;
                assert(spec_entries[j as int] == (entries@[j as int].0@, entries@[j as int].1@));
                if !text_eq(name.schema_name(), o.collation().schema_name()) || !text_eq(
                    name.collation_name(),
                    o.collation().collation_name(),
                ) {
                    proof {
                        assert(spec_entries[j as int].1 != name_of(sv[i as int]@.collation));
                        assert(!expression_collations_bound(spec_entries, sv));
                    }
                    return Err(invalid(EXPRESSION_COLLATION_BINDING_FIELD));
                }
            },
        }
        i = i + 1;
    }
    Ok(sorted)
}

} // verus!

verus! {

/// Field reported when observed relation-`Var` collations and expected ones differ.
pub const RELATION_VAR_COLLATION_COMPLETENESS_FIELD: &'static str = "index_relation_var_collation_catalog_completeness";

/// Field reported when an observed relation-`Var` identity does not carry the recorded name.
pub const RELATION_VAR_COLLATION_BINDING_FIELD: &'static str = "index_relation_var_collation_catalog_binding";

/// The values of relation-`Var` observations.
pub open spec fn relation_var_views(s: Seq<IndexExpressionRelationVarObservation>) -> Seq<RelationVarView> {
    s.map_values(|o: IndexExpressionRelationVarObservation| o@)
}

/// Location and optional qualified collation name of every relation-`Var` leaf, in order.
pub open spec fn relation_var_entries(vars: Seq<RelationVarView>) -> Seq<(Seq<char>, Option<QualifiedNameView>)> {
    vars.map_values(|v: RelationVarView| (relation_var_location_text(v.location), v.collation))
}

/// The location texts of relation-`Var` collation observations.
pub open spec fn relation_var_collation_texts(obs: Seq<IndexRelationVarCollationIdentityObservation>) -> Seq<Seq<char>> {
    obs.map_values(|o: IndexRelationVarCollationIdentityObservation| relation_var_location_text(o@.location))
}

/// Every observation carries the optional name recorded at its location (the last entry for it).
pub open spec fn relation_var_collations_bound(
    entries: Seq<(Seq<char>, Option<QualifiedNameView>)>,
    obs: Seq<IndexRelationVarCollationIdentityObservation>,
) -> bool {
    forall|i: int|
        0 <= i < obs.len() ==> match last_index_of(spec_keys(entries), relation_var_location_text((#[trigger] obs[i])@.location)) {
            Some(j) => entries[j].1 == identity_name(obs[i]@.collation),
            None => false,
        }
}

/// The field reported when relation-`Var` collation observations are refused, or `None`.
pub open spec fn relation_var_collations_error(
    vars: Seq<RelationVarView>,
    obs: Seq<IndexRelationVarCollationIdentityObservation>,
) -> Option<Seq<char>> {
    if has_duplicate_key(relation_var_collation_texts(obs)) || !keys_complete(
        spec_keys(relation_var_entries(vars)),
        relation_var_collation_texts(obs),
    ) {
        Some(RELATION_VAR_COLLATION_COMPLETENESS_FIELD@)
    } else if !relation_var_collations_bound(relation_var_entries(vars), obs) {
        Some(RELATION_VAR_COLLATION_BINDING_FIELD@)
    } else {
        None
    }
}

proof fn lemma_relation_var_texts_transfer(
    a: Seq<IndexRelationVarCollationIdentityObservation>,
    b: Seq<IndexRelationVarCollationIdentityObservation>,
    entries: Seq<(Seq<char>, Option<QualifiedNameView>)>,
)
    requires
        same_elements(a, b),
    ensures
        keys_complete(spec_keys(entries), relation_var_collation_texts(a)) ==> keys_complete(
            spec_keys(entries),
            relation_var_collation_texts(b),
        ),
        relation_var_collations_bound(entries, a) ==> relation_var_collations_bound(entries, b),
{
    let keys = spec_keys(entries);
    let ta = relation_var_collation_texts(a);
    let tb = relation_var_collation_texts(b);
    if keys_complete(keys, ta) {
        assert forall|i: int| 0 <= i < tb.len() implies keys.contains(#[trigger] tb[i]) by {
            assert(a.contains(b[i]));
            let k = choose|k: int| 0 <= k < a.len() && a[k] == b[i];
            assert(ta[k] == tb[i]);
        }
        assert forall|j: int| 0 <= j < keys.len() implies tb.contains(#[trigger] keys[j]) by {
            assert(ta.contains(keys[j]));
            let k = choose|k: int| 0 <= k < ta.len() && ta[k] == keys[j];
            assert(b.contains(a[k]));
            let m = choose|m: int| 0 <= m < b.len() && b[m] == a[k];
            assert(tb[m] == keys[j]);
        }
    }
    if relation_var_collations_bound(entries, a) {
        assert forall|i: int| 0 <= i < b.len() implies match last_index_of(
            spec_keys(entries),
            relation_var_location_text((#[trigger] b[i])@.location),
        ) {
            Some(j) => entries[j].1 == identity_name(b[i]@.collation),
            None => false,
        } by {
            assert(a.contains(b[i]));
            let k = choose|k: int| 0 <= k < a.len() && a[k] == b[i];
            assert(a[k] == b[i]);
        }
    }
}

proof fn lemma_relation_var_texts_collision(s: Seq<IndexRelationVarCollationIdentityObservation>)
    ensures
        has_key_collision(s) <==> has_duplicate_key(relation_var_collation_texts(s)),
{
    let t = relation_var_collation_texts(s);
    if has_key_collision(s) {
        let (i, j) = choose|i: int, j: int| 0 <= i < j < s.len() && same_key(#[trigger] s[i], #[trigger] s[j]);
        if t[i] != t[j] {
            lemma_text_lt_total(t[i], t[j]);
        }
    }
    if has_duplicate_key(t) {
        let (i, j) = choose|i: int, j: int| 0 <= i < j < t.len() && t[i] == t[j];
        lemma_text_lt_irreflexive(t[i]);
        assert(same_key(s[i], s[j]));
    }
}

/// The optional qualified names of keyed entries.
pub open spec fn optional_name_entries(v: Seq<(String, Option<QualifiedCollationName>)>) -> Seq<
    (Seq<char>, Option<QualifiedNameView>),
> {
    v.map_values(
        |e: (String, Option<QualifiedCollationName>)|
            (
                e.0@,
                match e.1 {
                    Some(c) => Some(c@),
                    None => None,
                },
            ),
    )
}

fn expected_relation_var_entries(vars: &[IndexExpressionRelationVarObservation]) -> (v: Vec<
    (String, Option<QualifiedCollationName>),
>)
    ensures
        optional_name_entries(v@) == relation_var_entries(relation_var_views(vars@)),
{
    let ghost target = relation_var_entries(relation_var_views(vars@));
    let mut entries: Vec<(String, Option<QualifiedCollationName>)> = Vec::new();
    let mut i: usize = 0;
    while i < vars.len()
        invariant
            i <= vars@.len(),
            target == relation_var_entries(relation_var_views(vars@)),
            optional_name_entries(entries@) == target.subrange(0, i as int),
        decreases vars@.len() - i,
    {
        let var = &vars[i];
        let location = var.location().canonical_location();
        let name: Option<QualifiedCollationName> = match var.collation() {
            Some(c) => Some(c.clone()),
            None => None,
        };
        let ghost before = entries@;
        let ghost entry = (location@, match name {
            Some(ref c) => Some(c@),
            None => None,
        });
        entries.push((location, name));
        proof {
            assert(target[i as int] == entry);
            assert(target.subrange(0, i + 1) =~= target.subrange(0, i as int).push(entry));
            assert(optional_name_entries(entries@) =~= optional_name_entries(before).push(entry));
        }
        i = i + 1;
    }
    proof {
        assert(target.subrange(0, vars@.len() as int) =~= target);
    }
    entries
}

fn relation_var_texts(obs: &Vec<IndexRelationVarCollationIdentityObservation>) -> (texts: Vec<String>)
    ensures
        texts@.map_values(|t: String| t@) == relation_var_collation_texts(obs@),
{
    let mut texts: Vec<String> = Vec::new();
    let mut i: usize = 0;
    while i < obs.len()
        invariant
            i <= obs@.len(),
            texts@.map_values(|t: String| t@) == relation_var_collation_texts(obs@).subrange(0, i as int),
        decreases obs@.len() - i,
    {
        let text = obs[i].location().canonical_location();
        let ghost before = texts@;
        texts.push(text);
        proof {
            assert(texts@.map_values(|t: String| t@) =~= before.map_values(|t: String| t@).push(text@));
            assert(relation_var_collation_texts(obs@).subrange(0, i + 1) =~= relation_var_collation_texts(obs@).subrange(
                0,
                i as int,
            ).push(relation_var_collation_texts(obs@)[i as int]));
        }
        i = i + 1;
    }
    proof {
        assert(relation_var_collation_texts(obs@).subrange(0, obs@.len() as int) =~= relation_var_collation_texts(obs@));
    }
    texts
}

fn same_optional_name(a: Option<&QualifiedCollationName>, b: Option<&CollationCatalogIdentity>) -> (r: bool)
    ensures
        r == ((match a {
            Some(x) => Some(x@),
            None => None,
        }) == identity_name(
            match b {
                Some(y) => Some(y@),
                None => None,
            },
        )),
{
    match (a, b) {
        (Some(x), Some(y)) => text_eq(x.schema_name(), y.schema_name()) && text_eq(x.collation_name(), y.collation_name()),
        (None, None) => true,
        _ => false,
    }
}

/// Sorts relation-`Var` collation observations by location and binds each to the optional
/// qualified collation name that the relation-`Var` evidence records for that leaf.
pub fn canonicalize_relation_var_collations(
    relation_vars: &[IndexExpressionRelationVarObservation],
    observations: Vec<IndexRelationVarCollationIdentityObservation>,
) -> (r: Result<Vec<IndexRelationVarCollationIdentityObservation>, ObservationError>)
    ensures
        r is Ok <==> relation_var_collations_error(relation_var_views(relation_vars@), observations@) is None,
        r is Err ==> fails_with_text(r, relation_var_collations_error(relation_var_views(relation_vars@), observations@)->0),
        r matches Ok(v) ==> v@ == sorted_by_key(observations@) && strictly_sorted(v@) && same_elements(v@, observations@),
{
    let ghost input = observations@;
    let entries = expected_relation_var_entries(relation_vars);
    let ghost spec_entries = optional_name_entries(entries@);
    proof {
        assert(entry_keys(entries@) =~= spec_keys(spec_entries));
        lemma_relation_var_texts_collision(input);
    }
    let sorted = match sort_by_key(observations) {
        Some(v) => v,
        None => {
            return Err(invalid(RELATION_VAR_COLLATION_COMPLETENESS_FIELD));
        },
    };
    proof {
        crate::order::lemma_same_elements_symmetric(sorted@, input);
        lemma_relation_var_texts_transfer(input, sorted@, spec_entries);
        lemma_relation_var_texts_transfer(sorted@, input, spec_entries);
    }
    let texts = relation_var_texts(&sorted);
    if !validate_keys_complete(entries.as_slice(), &texts) {
        return Err(invalid(RELATION_VAR_COLLATION_COMPLETENESS_FIELD));
    }
    let ghost sv = sorted@;
    assert(texts@.len() == texts@.map_values(|t: String| t@).len());
    assert(texts@.len() == sv.len());
    let mut i: usize = 0;
    #[verifier::loop_isolation(false)]
    while i < sorted.len()
        invariant
            i <= sorted@.len(),
            sv == sorted@,
            texts@.len() == sv.len(),
            texts@.map_values(|t: String| t@) == relation_var_collation_texts(sv),
            keys_complete(spec_keys(spec_entries), relation_var_collation_texts(sv)),
            spec_entries == optional_name_entries(entries@),
            entry_keys(entries@) == spec_keys(spec_entries),
            forall|k: int|
                0 <= k < i ==> match last_index_of(spec_keys(spec_entries), relation_var_location_text((#[trigger] sv[k])@.location)) {
                    Some(j) => spec_entries[j].1 == identity_name(sv[k]@.collation),
                    None => false,
                },
        decreases sorted@.len() - i,
    {
        let o = &sorted[i];
        assert(texts@[i as int]@ == relation_var_location_text(o@.location)) by {
            assert(texts@.map_values(|t: String| t@)[i as int] == texts@[i as int]@);
        }
        proof {
            lemma_last_index_of(spec_keys(spec_entries), texts@[i as int]@);
            assert(relation_var_collation_texts(sv)[i as int] == texts@[i as int]@);
        }
        match find_last(entries.as_slice(), texts[i].as_str()) {
            None => {
                proof {
                    assert(spec_keys(spec_entries).contains(relation_var_collation_texts(sv)[i as int]));
                }
                return Err(invalid(RELATION_VAR_COLLATION_BINDING_FIELD));
            },
            Some(j) => {
                let expected = match &entries[j].1 {
                    Some(c) => Some(c),
                    None => None,
                };
                if !same_optional_name(expected, o.collation()) {
                    proof {
                        assert(!relation_var_collations_bound(spec_entries, sv));
                    }
                    return Err(invalid(RELATION_VAR_COLLATION_BINDING_FIELD));
                }
            },
        }
        i = i + 1;
    }
    Ok(sorted)
}

} // verus!

verus! {

/// Field reported when an attached child occurrence differs in catalog identity from its parent.
pub const EXPRESSION_COLLATION_IDENTITY_FIELD: &'static str = "index_expression_collation_catalog_identity";

/// Field reported when an attached child relation-`Var` differs in catalog identity from its parent.
pub const RELATION_VAR_COLLATION_IDENTITY_FIELD: &'static str = "index_relation_var_collation_catalog_identity";

/// The values of expression collation observations.
pub open spec fn expression_collation_views(s: Seq<IndexExpressionCollationIdentityObservation>) -> Seq<
    ExpressionCollationView,
> {
    s.map_values(|o: IndexExpressionCollationIdentityObservation| o@)
}

/// The values of relation-`Var` collation observations.
pub open spec fn relation_var_collation_views(s: Seq<IndexRelationVarCollationIdentityObservation>) -> Seq<
    RelationVarCollationView,
> {
    s.map_values(|o: IndexRelationVarCollationIdentityObservation| o@)
}

/// The identity observed at a location text (the first such observation).
pub open spec fn expression_collation_at(obs: Seq<ExpressionCollationView>, text: Seq<char>) -> Option<CollationIdentityView>
    decreases obs.len(),
{
    if obs.len() == 0 {
        None
    } else if collation_location_text(obs[0].location) == text {
        Some(obs[0].collation)
    } else {
        expression_collation_at(obs.drop_first(), text)
    }
}

/// 0 when the parent index holds the same occurrence with the same identity; 1 when it lacks it;
/// 2 when the identities differ.
pub open spec fn child_collation_code(obs: Seq<ExpressionCollationView>, o: ExpressionCollationView, parent: IndexCoordinateView) -> int {
    match expression_collation_at(obs, collation_location_text(CollationLocationView { index: parent, ..o.location })) {
        None => 1,
        Some(p) => if p != o.collation {
            2
        } else {
            0
        },
    }
}

/// The code of the first occurrence of `child` in `rest` that disagrees with the parent, or 0.
pub open spec fn child_collations_code(
    obs: Seq<ExpressionCollationView>,
    rest: Seq<ExpressionCollationView>,
    child: IndexCoordinateView,
    parent: IndexCoordinateView,
) -> int
    decreases rest.len(),
{
    if rest.len() == 0 {
        0
    } else if rest[0].location.index == child && child_collation_code(obs, rest[0], parent) != 0 {
        child_collation_code(obs, rest[0], parent)
    } else {
        child_collations_code(obs, rest.drop_first(), child, parent)
    }
}

/// The code of the first direct attachment whose occurrences disagree with the parent, or 0.
pub open spec fn attached_expression_collation_code(obs: Seq<ExpressionCollationView>, ms: Seq<MembershipView>) -> int
    decreases ms.len(),
{
    if ms.len() == 0 {
        0
    } else if ms[0].is_partition && ms[0].parent_index is Some && child_collations_code(
        obs,
        obs,
        ms[0].coordinate,
        ms[0].parent_index->0,
    ) != 0 {
        child_collations_code(obs, obs, ms[0].coordinate, ms[0].parent_index->0)
    } else {
        attached_expression_collation_code(obs, ms.drop_first())
    }
}

fn lookup_expression_collation<'a>(obs: &'a [IndexExpressionCollationIdentityObservation], text: &str) -> (r: Option<
    &'a CollationCatalogIdentity,
>)
    ensures
        match r {
            Some(c) => expression_collation_at(expression_collation_views(obs@), text@) == Some(c@),
            None => expression_collation_at(expression_collation_views(obs@), text@) is None,
        },
{
    let ghost ov = expression_collation_views(obs@);
    let mut i: usize = 0;
    assert(ov.skip(0) =~= ov);
    while i < obs.len()
        invariant
            i <= obs@.len(),
            ov == expression_collation_views(obs@),
            expression_collation_at(ov, text@) == expression_collation_at(ov.skip(i as int), text@),
        decreases obs@.len() - i,
    {
        assert(ov.skip(i as int)[0] == obs@[i as int]@);
        assert(ov.skip(i as int).drop_first() =~= ov.skip(i + 1));
        let location = obs[i].location().canonical_location();
        if text_eq(location.as_str(), text) {
            return Some(obs[i].collation());
        }
        i = i + 1;
    }
    None
}

fn check_child_collations(
    obs: &[IndexExpressionCollationIdentityObservation],
    child: &IndexPartitionCoordinate,
    parent: &IndexPartitionCoordinate,
) -> (r: Result<(), ObservationError>)
    ensures
        r is Ok <==> child_collations_code(expression_collation_views(obs@), expression_collation_views(obs@), child@, parent@)
            == 0,
        r is Err ==> fails_with_text(
            r,
            if child_collations_code(expression_collation_views(obs@), expression_collation_views(obs@), child@, parent@)
                == 1 {
                EXPRESSION_COLLATION_COMPLETENESS_FIELD@
            } else {
                EXPRESSION_COLLATION_IDENTITY_FIELD@
            },
        ),
{
    let ghost ov = expression_collation_views(obs@);
    let mut i: usize = 0;
    assert(ov.skip(0) =~= ov);
    while i < obs.len()
        invariant
            i <= obs@.len(),
            ov == expression_collation_views(obs@),
            child_collations_code(ov, ov, child@, parent@) == child_collations_code(ov, ov.skip(i as int), child@, parent@),
        decreases obs@.len() - i,
    {
        let o = &obs[i];
        assert(ov.skip(i as int)[0] == o@);
        assert(ov.skip(i as int).drop_first() =~= ov.skip(i + 1));
        if o.location().index().same_as(child) {
            let parent_location = o.location().with_index(parent.clone());
            let text = parent_location.canonical_location();
            match lookup_expression_collation(obs, text.as_str()) {
                None => {
                    return Err(invalid(EXPRESSION_COLLATION_COMPLETENESS_FIELD));
                },
                Some(p) => {
                    if !p.same_as(o.collation()) {
                        return Err(invalid(EXPRESSION_COLLATION_IDENTITY_FIELD));
                    }
                },
            }
        }
        i = i + 1;
    }
    Ok(())
}

/// Compares full catalog identity across every direct attached parent/child occurrence.
pub fn validate_attached_expression_collations(
    partition: &IndexPartitionEvidence,
    observations: &[IndexExpressionCollationIdentityObservation],
) -> (r: Result<(), ObservationError>)
    ensures
        r is Ok <==> attached_expression_collation_code(expression_collation_views(observations@), partition.membership_views())
            == 0,
        r is Err ==> fails_with_text(
            r,
            if attached_expression_collation_code(expression_collation_views(observations@), partition.membership_views())
                == 1 {
                EXPRESSION_COLLATION_COMPLETENESS_FIELD@
            } else {
                EXPRESSION_COLLATION_IDENTITY_FIELD@
            },
        ),
{
    let ghost ov = expression_collation_views(observations@);
    let ghost ms = partition.membership_views();
    let memberships = partition.memberships();
    let mut m: usize = 0;
    assert(ms.skip(0) =~= ms);
    while m < memberships.len()
        invariant
            m <= memberships@.len(),
            ms == partition.membership_views(),
            ms == memberships@.map_values(|x: IndexPartitionMembership| x@),
            ov == expression_collation_views(observations@),
            attached_expression_collation_code(ov, ms) == attached_expression_collation_code(ov, ms.skip(m as int)),
        decreases memberships@.len() - m,
    {
        let membership = &memberships[m];
        assert(ms.skip(m as int)[0] == membership@);
        assert(ms.skip(m as int).drop_first() =~= ms.skip(m + 1));
        if membership.is_partition() {
            match membership.parent_index() {
                None => {},
                Some(parent) => {
                    let checked = check_child_collations(observations, membership.coordinate(), parent);
                    if checked.is_err() {
                        return checked;
                    }
                },
            }
        }
        m = m + 1;
    }
    Ok(())
}

/// The optional identity observed at a relation-`Var` location text (the first such observation).
pub open spec fn relation_var_collation_at(obs: Seq<RelationVarCollationView>, text: Seq<char>) -> Option<
    Option<CollationIdentityView>,
>
    decreases obs.len(),
{
    if obs.len() == 0 {
        None
    } else if relation_var_location_text(obs[0].location) == text {
        Some(obs[0].collation)
    } else {
        relation_var_collation_at(obs.drop_first(), text)
    }
}

/// 0 when the parent index holds the same leaf with the same optional identity; 1 when it lacks
/// it; 2 when they differ.
pub open spec fn child_relation_var_code(obs: Seq<RelationVarCollationView>, o: RelationVarCollationView, parent: IndexCoordinateView) -> int {
    match relation_var_collation_at(obs, relation_var_location_text(RelationVarLocationView { index: parent, ..o.location })) {
        None => 1,
        Some(p) => if p != o.collation {
            2
        } else {
            0
        },
    }
}

/// The code of the first leaf of `child` in `rest` that disagrees with the parent, or 0.
pub open spec fn child_relation_vars_code(
    obs: Seq<RelationVarCollationView>,
    rest: Seq<RelationVarCollationView>,
    child: IndexCoordinateView,
    parent: IndexCoordinateView,
) -> int
    decreases rest.len(),
{
    if rest.len() == 0 {
        0
    } else if rest[0].location.index == child && child_relation_var_code(obs, rest[0], parent) != 0 {
        child_relation_var_code(obs, rest[0], parent)
    } else {
        child_relation_vars_code(obs, rest.drop_first(), child, parent)
    }
}

/// The code of the first direct attachment whose relation-`Var` leaves disagree with the parent.
pub open spec fn attached_relation_var_code(obs: Seq<RelationVarCollationView>, ms: Seq<MembershipView>) -> int
    decreases ms.len(),
{
    if ms.len() == 0 {
        0
    } else if ms[0].is_partition && ms[0].parent_index is Some && child_relation_vars_code(
        obs,
        obs,
        ms[0].coordinate,
        ms[0].parent_index->0,
    ) != 0 {
        child_relation_vars_code(obs, obs, ms[0].coordinate, ms[0].parent_index->0)
    } else {
        attached_relation_var_code(obs, ms.drop_first())
    }
}

fn lookup_relation_var_collation<'a>(obs: &'a [IndexRelationVarCollationIdentityObservation], text: &str) -> (r: Option<
    Option<&'a CollationCatalogIdentity>,
>)
    ensures
        match r {
            Some(Some(c)) => relation_var_collation_at(relation_var_collation_views(obs@), text@) == Some(Some(c@)),
            Some(None) => relation_var_collation_at(relation_var_collation_views(obs@), text@) == Some(
                None::<CollationIdentityView>,
            ),
            None => relation_var_collation_at(relation_var_collation_views(obs@), text@) is None,
        },
{
    let ghost ov = relation_var_collation_views(obs@);
    let mut i: usize = 0;
    assert(ov.skip(0) =~= ov);
    while i < obs.len()
        invariant
            i <= obs@.len(),
            ov == relation_var_collation_views(obs@),
            relation_var_collation_at(ov, text@) == relation_var_collation_at(ov.skip(i as int), text@),
        decreases obs@.len() - i,
    {
        assert(ov.skip(i as int)[0] == obs@[i as int]@);
        assert(ov.skip(i as int).drop_first() =~= ov.skip(i + 1));
        let location = obs[i].location().canonical_location();
        if text_eq(location.as_str(), text) {
            return Some(obs[i].collation());
        }
        i = i + 1;
    }
    None
}

fn check_child_relation_vars(
    obs: &[IndexRelationVarCollationIdentityObservation],
    child: &IndexPartitionCoordinate,
    parent: &IndexPartitionCoordinate,
) -> (r: Result<(), ObservationError>)
    ensures
        r is Ok <==> child_relation_vars_code(relation_var_collation_views(obs@), relation_var_collation_views(obs@), child@, parent@)
            == 0,
        r is Err ==> fails_with_text(
            r,
            if child_relation_vars_code(relation_var_collation_views(obs@), relation_var_collation_views(obs@), child@, parent@)
                == 1 {
                RELATION_VAR_COLLATION_COMPLETENESS_FIELD@
            } else {
                RELATION_VAR_COLLATION_IDENTITY_FIELD@
            },
        ),
{
    let ghost ov = relation_var_collation_views(obs@);
    let mut i: usize = 0;
    assert(ov.skip(0) =~= ov);
    while i < obs.len()
        invariant
            i <= obs@.len(),
            ov == relation_var_collation_views(obs@),
            child_relation_vars_code(ov, ov, child@, parent@) == child_relation_vars_code(ov, ov.skip(i as int), child@, parent@),
        decreases obs@.len() - i,
    {
        let o = &obs[i];
        assert(ov.skip(i as int)[0] == o@);
        assert(ov.skip(i as int).drop_first() =~= ov.skip(i + 1));
        if o.location().index().same_as(child) {
            let parent_location = o.location().with_index(parent.clone());
            let text = parent_location.canonical_location();
            match lookup_relation_var_collation(obs, text.as_str()) {
                None => {
                    return Err(invalid(RELATION_VAR_COLLATION_COMPLETENESS_FIELD));
                },
                Some(p) => {
                    if !same_optional_identity(p, o.collation()) {
                        return Err(invalid(RELATION_VAR_COLLATION_IDENTITY_FIELD));
                    }
                },
            }
        }
        i = i + 1;
    }
    Ok(())
}

/// Compares full optional catalog identity across every direct attached parent/child leaf.
pub fn validate_attached_relation_var_collations(
    partition: &IndexPartitionEvidence,
    observations: &[IndexRelationVarCollationIdentityObservation],
) -> (r: Result<(), ObservationError>)
    ensures
        r is Ok <==> attached_relation_var_code(relation_var_collation_views(observations@), partition.membership_views()) == 0,
        r is Err ==> fails_with_text(
            r,
            if attached_relation_var_code(relation_var_collation_views(observations@), partition.membership_views()) == 1 {
                RELATION_VAR_COLLATION_COMPLETENESS_FIELD@
            } else {
                RELATION_VAR_COLLATION_IDENTITY_FIELD@
            },
        ),
{
    let ghost ov = relation_var_collation_views(observations@);
    let ghost ms = partition.membership_views();
    let memberships = partition.memberships();
    let mut m: usize = 0;
    assert(ms.skip(0) =~= ms);
    while m < memberships.len()
        invariant
            m <= memberships@.len(),
            ms == partition.membership_views(),
            ms == memberships@.map_values(|x: IndexPartitionMembership| x@),
            ov == relation_var_collation_views(observations@),
            attached_relation_var_code(ov, ms) == attached_relation_var_code(ov, ms.skip(m as int)),
        decreases memberships@.len() - m,
    {
        let membership = &memberships[m];
        assert(ms.skip(m as int)[0] == membership@);
        assert(ms.skip(m as int).drop_first() =~= ms.skip(m + 1));
        if membership.is_partition() {
            match membership.parent_index() {
                None => {},
                Some(parent) => {
                    let checked = check_child_relation_vars(observations, membership.coordinate(), parent);
                    if checked.is_err() {
                        return checked;
                    }
                },
            }
        }
        m = m + 1;
    }
    Ok(())
}

} // verus!

verus! {

/// Domain separator of the expression collation catalog-identity digest.
pub const EXPRESSION_COLLATION_IDENTITY_DIGEST_DOMAIN: &'static str =
    "conceptweave.postgres_schema_snapshot.v3.relation_partition.index_partition.expression_collation_catalog_identity.v1";

/// Field reported when the whole-tree proof does not rebind.
pub const WHOLE_TREE_PREDECESSOR_FIELD: &'static str = "index_expression_collation_whole_tree_predecessor";

/// Field reported when the key-collation evidence does not rebind.
pub const KEY_PREDECESSOR_FIELD: &'static str = "index_expression_collation_key_predecessor";

/// Field reported when the two predecessors disagree in provenance.
pub const PREDECESSOR_PROVENANCE_FIELD: &'static str = "index_expression_collation_predecessor_provenance";

/// Framing of one expression collation observation: location text and catalog identity.
pub open spec fn frame_expression_collation(o: ExpressionCollationView) -> Seq<u8> {
    frame_str(collation_location_text(o.location)) + frame_identity(o.collation)
}

/// Framing of expression collation observations, in order.
pub open spec fn frame_expression_collations(s: Seq<ExpressionCollationView>) -> Seq<u8>
    decreases s.len(),
{
    if s.len() == 0 {
        Seq::empty()
    } else {
        frame_expression_collations(s.drop_last()) + frame_expression_collation(s.last())
    }
}

/// Framing of one relation-`Var` collation observation: location text and optional identity.
pub open spec fn frame_relation_var_collation(o: RelationVarCollationView) -> Seq<u8> {
    frame_str(relation_var_location_text(o.location)) + frame_optional_identity(o.collation)
}

/// Framing of relation-`Var` collation observations, in order.
pub open spec fn frame_relation_var_collations(s: Seq<RelationVarCollationView>) -> Seq<u8>
    decreases s.len(),
{
    if s.len() == 0 {
        Seq::empty()
    } else {
        frame_relation_var_collations(s.drop_last()) + frame_relation_var_collation(s.last())
    }
}

/// The preimage of the expression collation catalog-identity digest.
pub open spec fn expression_collation_preimage(
    whole_tree_digest: Seq<char>,
    key_collation_digest: Seq<char>,
    expressions: Seq<ExpressionCollationView>,
    relation_vars: Seq<RelationVarCollationView>,
) -> Seq<u8> {
    encode_utf8(EXPRESSION_COLLATION_IDENTITY_DIGEST_DOMAIN@) + frame_str(whole_tree_digest) + frame_str(key_collation_digest)
        + frame_len(expressions.len()) + frame_expression_collations(expressions) + frame_len(relation_vars.len())
        + frame_relation_var_collations(relation_vars)
}

fn compute_expression_collation_digest(
    whole_tree_digest: &str,
    key_collation_digest: &str,
    expressions: &[IndexExpressionCollationIdentityObservation],
    relation_vars: &[IndexRelationVarCollationIdentityObservation],
) -> (d: String)
    ensures
        d@ == digest_text(
            expression_collation_preimage(
                whole_tree_digest@,
                key_collation_digest@,
                expression_collation_views(expressions@),
                relation_var_collation_views(relation_vars@),
            ),
        ),
{
    let ghost ev = expression_collation_views(expressions@);
    let ghost rv = relation_var_collation_views(relation_vars@);
    let mut out: Vec<u8> = Vec::new();
    put_raw(&mut out, EXPRESSION_COLLATION_IDENTITY_DIGEST_DOMAIN.as_bytes());
    put_str(&mut out, whole_tree_digest);
    put_str(&mut out, key_collation_digest);
    put_len(&mut out, expressions.len());
    let ghost header = out@;
    let mut i: usize = 0;
    while i < expressions.len()
        invariant
            i <= expressions@.len(),
            ev == expression_collation_views(expressions@),
            out@ == header + frame_expression_collations(ev.subrange(0, i as int)),
        decreases expressions@.len() - i,
    {
        let o = &expressions[i];
        let text = o.location().canonical_location();
        put_str(&mut out, text.as_str());
        put_identity(&mut out, o.collation());
        proof {
            let next = ev.subrange(0, i + 1);
            assert(next.drop_last() =~= ev.subrange(0, i as int));
            assert(next.last() == o@);
            assert(out@ =~= header + frame_expression_collations(next));
        }
        i = i + 1;
    }
    proof {
        assert(ev.subrange(0, expressions@.len() as int) =~= ev);
    }
    put_len(&mut out, relation_vars.len());
    let ghost middle = out@;
    let mut j: usize = 0;
    while j < relation_vars.len()
        invariant
            j <= relation_vars@.len(),
            rv == relation_var_collation_views(relation_vars@),
            out@ == middle + frame_relation_var_collations(rv.subrange(0, j as int)),
        decreases relation_vars@.len() - j,
    {
        let o = &relation_vars[j];
        let text = o.location().canonical_location();
        put_str(&mut out, text.as_str());
        put_optional_identity(&mut out, o.collation());
        proof {
            let next = rv.subrange(0, j + 1);
            assert(next.drop_last() =~= rv.subrange(0, j as int));
            assert(next.last() == o@);
            assert(out@ =~= middle + frame_relation_var_collations(next));
        }
        j = j + 1;
    }
    proof {
        assert(rv.subrange(0, relation_vars@.len() as int) =~= rv);
        assert(out@ =~= expression_collation_preimage(whole_tree_digest@, key_collation_digest@, ev, rv));
    }
    finish_digest(&out)
}

/// The field reported when the collation composition is refused, or `None` when it is accepted:
/// predecessor provenance, then expression occurrences, then relation-`Var` leaves, then attached
/// expression occurrences, then attached relation-`Var` leaves.
pub open spec fn composition_error(
    whole_tree: LineageView,
    key_collation: LineageView,
    expression: IndexExpressionSemanticsSnapshot,
    relation_vars: Seq<RelationVarView>,
    ms: Seq<MembershipView>,
    expression_obs: Seq<IndexExpressionCollationIdentityObservation>,
    relation_var_obs: Seq<IndexRelationVarCollationIdentityObservation>,
) -> Option<Seq<char>> {
    if !crate::expression_relation_var_schema::same_provenance(whole_tree, key_collation) {
        Some(PREDECESSOR_PROVENANCE_FIELD@)
    } else if expression_collations_error(expression.expression_views(), expression.predicate_views(), expression_obs) is Some {
        expression_collations_error(expression.expression_views(), expression.predicate_views(), expression_obs)
    } else if relation_var_collations_error(relation_vars, relation_var_obs) is Some {
        relation_var_collations_error(relation_vars, relation_var_obs)
    } else if attached_expression_collation_code(expression_collation_views(sorted_by_key(expression_obs)), ms) != 0 {
        Some(
            if attached_expression_collation_code(expression_collation_views(sorted_by_key(expression_obs)), ms) == 1 {
                EXPRESSION_COLLATION_COMPLETENESS_FIELD@
            } else {
                EXPRESSION_COLLATION_IDENTITY_FIELD@
            },
        )
    } else if attached_relation_var_code(relation_var_collation_views(sorted_by_key(relation_var_obs)), ms) != 0 {
        Some(
            if attached_relation_var_code(relation_var_collation_views(sorted_by_key(relation_var_obs)), ms) == 1 {
                RELATION_VAR_COLLATION_COMPLETENESS_FIELD@
            } else {
                RELATION_VAR_COLLATION_IDENTITY_FIELD@
            },
        )
    } else {
        None
    }
}

/// Catalog-exact collation composition over the whole-tree and key-collation proofs.
#[derive(Debug, PartialEq, Eq)]
pub struct IndexExpressionCollationIdentitySnapshot {
    source_connection_key: String,
    connection_policy_binding: String,
    whole_tree_predecessor_digest: String,
    key_collation_predecessor_digest: String,
    snapshot_digest: String,
    extractor_revision: String,
    observed_at_utc: String,
    expression_observations: Vec<IndexExpressionCollationIdentityObservation>,
    relation_var_observations: Vec<IndexRelationVarCollationIdentityObservation>,
}

/// The key-collation evidence, rebuilt from the index-partition evidence over its own
/// observations, reproduces its issued digest.
pub open spec fn key_digest_rebinds(partition: LineageView, key: IndexPartitionCollationIdentitySnapshot) -> bool {
    digest_text(crate::collation_identity::key_collation_preimage(partition.snapshot_digest, key.observation_views()))
        == key.lineage().snapshot_digest
}

impl IndexExpressionCollationIdentitySnapshot {
    /// The provenance of this snapshot, with its own digest.
    pub closed spec fn lineage(&self) -> LineageView {
        LineageView {
            source_connection_key: self.source_connection_key@,
            connection_policy_binding: self.connection_policy_binding@,
            snapshot_digest: self.snapshot_digest@,
            extractor_revision: self.extractor_revision@,
            observed_at_utc: self.observed_at_utc@,
        }
    }

    /// The whole-tree digest this composition consumed.
    pub closed spec fn whole_tree_predecessor(&self) -> Seq<char> {
        self.whole_tree_predecessor_digest@
    }

    /// The key-collation digest this composition consumed.
    pub closed spec fn key_collation_predecessor(&self) -> Seq<char> {
        self.key_collation_predecessor_digest@
    }

    /// The expression collation observations, in location order.
    pub closed spec fn expression_views(&self) -> Seq<ExpressionCollationView> {
        expression_collation_views(self.expression_observations@)
    }

    /// The relation-`Var` collation observations, in location order.
    pub closed spec fn relation_var_views(&self) -> Seq<RelationVarCollationView> {
        relation_var_collation_views(self.relation_var_observations@)
    }

    /// Creates catalog-exact collation composition. The whole-tree proof is rebuilt from the
    /// expression snapshot, the node-schema proof and the relation-`Var` evidence, itself rebound
    /// over the expression evidence and its predecessors; the
    /// key-collation evidence is rebuilt from the index-partition evidence, the base snapshot's keys
    /// and its own observations; both must reproduce the supplied digests.
    pub fn new(
        relations: &[BaseRelation],
        column_collations: Option<&[BaseColumnCollation]>,
        partition: &IndexPartitionEvidence,
        operator_family: &IssuedSnapshot,
        exclusion_snapshot: &IndexExclusionSemanticsSnapshot,
        expression: IndexExpressionSemanticsSnapshot,
        type_modifier_snapshot: &IssuedTypeModifiers,
        node_schema_predecessor: &IndexExpressionNodeSchemaSnapshot,
        relation_var_predecessor: IndexExpressionRelationVarSnapshot,
        whole_tree_predecessor: &IndexExpressionRelationVarNodeSchemaSnapshot,
        key_expectations: &[IndexKeyCollationExpectation],
        key_collation_predecessor: &IndexPartitionCollationIdentitySnapshot,
        expression_observations: Vec<IndexExpressionCollationIdentityObservation>,
        relation_var_observations: Vec<IndexRelationVarCollationIdentityObservation>,
    ) -> (r: Result<Self, ObservationError>)
        ensures
            crate::expression_relation_var_schema::composed_schema_error(
                relations@.map_values(|b: BaseRelation| b@),
                collation_views(column_collations),
                partition.membership_views(),
                operator_family.lineage().snapshot_digest,
                exclusion_snapshot.entries(),
                exclusion_snapshot.lineage().snapshot_digest,
                expression,
                *type_modifier_snapshot,
                *node_schema_predecessor,
                relation_var_predecessor,
            ) matches Some(refusal) ==> relation_var_refused_as(r, refusal),
            crate::expression_relation_var_schema::composed_schema_error(
                relations@.map_values(|b: BaseRelation| b@),
                collation_views(column_collations),
                partition.membership_views(),
                operator_family.lineage().snapshot_digest,
                exclusion_snapshot.entries(),
                exclusion_snapshot.lineage().snapshot_digest,
                expression,
                *type_modifier_snapshot,
                *node_schema_predecessor,
                relation_var_predecessor,
            ) is None && digest_text(
                crate::expression_relation_var_schema::composed_schema_preimage(
                    node_schema_predecessor.lineage().snapshot_digest,
                    relation_var_predecessor.lineage().snapshot_digest,
                ),
            ) != whole_tree_predecessor.lineage().snapshot_digest ==> fails_with_text(r, WHOLE_TREE_PREDECESSOR_FIELD@),
            r is Ok ==> crate::collation_identity::key_collations_accepted(
                partition.membership_views(),
                crate::collation_identity::expectation_views(key_expectations@),
                key_collation_predecessor.observation_views(),
            ),
            r is Ok ==> key_digest_rebinds(partition.lineage(), *key_collation_predecessor),
            crate::expression_relation_var_schema::composed_schema_error(
                relations@.map_values(|b: BaseRelation| b@),
                collation_views(column_collations),
                partition.membership_views(),
                operator_family.lineage().snapshot_digest,
                exclusion_snapshot.entries(),
                exclusion_snapshot.lineage().snapshot_digest,
                expression,
                *type_modifier_snapshot,
                *node_schema_predecessor,
                relation_var_predecessor,
            ) is None && digest_text(
                crate::expression_relation_var_schema::composed_schema_preimage(
                    node_schema_predecessor.lineage().snapshot_digest,
                    relation_var_predecessor.lineage().snapshot_digest,
                ),
            ) == whole_tree_predecessor.lineage().snapshot_digest && crate::collation_identity::key_collations_accepted(
                partition.membership_views(),
                crate::collation_identity::expectation_views(key_expectations@),
                key_collation_predecessor.observation_views(),
            ) && !key_digest_rebinds(partition.lineage(), *key_collation_predecessor) ==> fails_with_text(
                r,
                KEY_PREDECESSOR_FIELD@,
            ),
            crate::expression_relation_var_schema::composed_schema_error(
                relations@.map_values(|b: BaseRelation| b@),
                collation_views(column_collations),
                partition.membership_views(),
                operator_family.lineage().snapshot_digest,
                exclusion_snapshot.entries(),
                exclusion_snapshot.lineage().snapshot_digest,
                expression,
                *type_modifier_snapshot,
                *node_schema_predecessor,
                relation_var_predecessor,
            ) is None && digest_text(
                crate::expression_relation_var_schema::composed_schema_preimage(
                    node_schema_predecessor.lineage().snapshot_digest,
                    relation_var_predecessor.lineage().snapshot_digest,
                ),
            ) == whole_tree_predecessor.lineage().snapshot_digest && crate::collation_identity::key_collations_accepted(
                partition.membership_views(),
                crate::collation_identity::expectation_views(key_expectations@),
                key_collation_predecessor.observation_views(),
            ) && key_digest_rebinds(partition.lineage(), *key_collation_predecessor) ==> {
                &&& r is Ok <==> composition_error(
                    whole_tree_predecessor.lineage(),
                    key_collation_predecessor.lineage(),
                    expression,
                    relation_var_views(relation_var_predecessor.entries()),
                    partition.membership_views(),
                    expression_observations@,
                    relation_var_observations@,
                ) is None
                &&& r is Err ==> fails_with_text(
                    r,
                    composition_error(
                        whole_tree_predecessor.lineage(),
                        key_collation_predecessor.lineage(),
                        expression,
                        relation_var_views(relation_var_predecessor.entries()),
                        partition.membership_views(),
                        expression_observations@,
                        relation_var_observations@,
                    )->0,
                )
            },
            r matches Ok(s) ==> {
                &&& composition_error(
                    whole_tree_predecessor.lineage(),
                    key_collation_predecessor.lineage(),
                    expression,
                    relation_var_views(relation_var_predecessor.entries()),
                    partition.membership_views(),
                    expression_observations@,
                    relation_var_observations@,
                ) is None
                &&& s.whole_tree_predecessor() == whole_tree_predecessor.lineage().snapshot_digest
                &&& s.key_collation_predecessor() == key_collation_predecessor.lineage().snapshot_digest
                &&& s.expression_views() == expression_collation_views(sorted_by_key(expression_observations@))
                &&& s.relation_var_views() == relation_var_collation_views(sorted_by_key(relation_var_observations@))
                &&& s.lineage() == (LineageView {
                    snapshot_digest: digest_text(
                        expression_collation_preimage(
                            whole_tree_predecessor.lineage().snapshot_digest,
                            key_collation_predecessor.lineage().snapshot_digest,
                            s.expression_views(),
                            s.relation_var_views(),
                        ),
                    ),
                    ..whole_tree_predecessor.lineage()
                })
            },
    {
        let (rebound_whole_tree, expression, relation_vars) = IndexExpressionRelationVarNodeSchemaSnapshot::build(
            relations,
            column_collations,
            partition,
            operator_family,
            exclusion_snapshot,
            expression,
            type_modifier_snapshot,
            node_schema_predecessor,
            relation_var_predecessor,
        )?;
        if !text_eq(rebound_whole_tree.snapshot_digest(), whole_tree_predecessor.snapshot_digest()) {
            return Err(invalid(WHOLE_TREE_PREDECESSOR_FIELD));
        }
        let key_given_slice = key_collation_predecessor.observations();
        let key_copy = clone_key_observations(key_given_slice);
        let ghost key_copy_view = key_copy@;
        let ghost key_given = key_given_slice@;
        let rebound_key = match IndexPartitionCollationIdentitySnapshot::new(partition, key_expectations, key_copy) {
            Ok(s) => s,
            Err(e) => {
                return Err(e);
            },
        };
        proof {
            crate::collation_identity::lemma_sorted_key_copy(key_copy_view, key_given);
        }
        if !text_eq(rebound_key.snapshot_digest(), key_collation_predecessor.snapshot_digest()) {
            return Err(invalid(KEY_PREDECESSOR_FIELD));
        }
        if !text_eq(whole_tree_predecessor.source_connection_key(), key_collation_predecessor.source_connection_key())
            || !text_eq(
            whole_tree_predecessor.connection_policy_binding(),
            key_collation_predecessor.connection_policy_binding(),
        ) || !text_eq(whole_tree_predecessor.extractor_revision(), key_collation_predecessor.extractor_revision())
            || !text_eq(whole_tree_predecessor.observed_at_utc(), key_collation_predecessor.observed_at_utc()) {
            return Err(invalid(PREDECESSOR_PROVENANCE_FIELD));
        }
        let expression_observations = canonicalize_expression_collations(&expression, expression_observations)?;
        let relation_var_observations = canonicalize_relation_var_collations(relation_vars.as_slice(), relation_var_observations)?;
        validate_attached_expression_collations(partition, expression_observations.as_slice())?;
        validate_attached_relation_var_collations(partition, relation_var_observations.as_slice())?;
        let whole_tree_predecessor_digest = whole_tree_predecessor.snapshot_digest().to_owned();
        let key_collation_predecessor_digest = key_collation_predecessor.snapshot_digest().to_owned();
        let snapshot_digest = compute_expression_collation_digest(
            whole_tree_predecessor_digest.as_str(),
            key_collation_predecessor_digest.as_str(),
            expression_observations.as_slice(),
            relation_var_observations.as_slice(),
        );
        Ok(IndexExpressionCollationIdentitySnapshot {
            source_connection_key: whole_tree_predecessor.source_connection_key().to_owned(),
            connection_policy_binding: whole_tree_predecessor.connection_policy_binding().to_owned(),
            whole_tree_predecessor_digest,
            key_collation_predecessor_digest,
            snapshot_digest,
            extractor_revision: whole_tree_predecessor.extractor_revision().to_owned(),
            observed_at_utc: whole_tree_predecessor.observed_at_utc().to_owned(),
            expression_observations,
            relation_var_observations,
        })
    }

    /// Returns the stable source registry key inherited from the predecessor stack.
    pub fn source_connection_key(&self) -> (s: &str)
        ensures
            s@ == self.lineage().source_connection_key,
    {
        self.source_connection_key.as_str()
    }

    /// Returns the immutable connection-policy binding inherited from the predecessor stack.
    pub fn connection_policy_binding(&self) -> (s: &str)
        ensures
            s@ == self.lineage().connection_policy_binding,
    {
        self.connection_policy_binding.as_str()
    }

    /// Returns the whole-tree equality proof digest consumed by this composition.
    pub fn whole_tree_predecessor_digest(&self) -> (s: &str)
        ensures
            s@ == self.whole_tree_predecessor(),
    {
        self.whole_tree_predecessor_digest.as_str()
    }

    /// Returns the key-collation proof digest consumed by this composition.
    pub fn key_collation_predecessor_digest(&self) -> (s: &str)
        ensures
            s@ == self.key_collation_predecessor(),
    {
        self.key_collation_predecessor_digest.as_str()
    }

    /// Returns the domain-separated composition digest.
    pub fn snapshot_digest(&self) -> (s: &str)
        ensures
            s@ == self.lineage().snapshot_digest,
    {
        self.snapshot_digest.as_str()
    }

    /// Returns the exact extractor revision inherited from the predecessor stack.
    pub fn extractor_revision(&self) -> (s: &str)
        ensures
            s@ == self.lineage().extractor_revision,
    {
        self.extractor_revision.as_str()
    }

    /// Returns the exact canonical observation time inherited from the predecessor stack.
    pub fn observed_at_utc(&self) -> (s: &str)
        ensures
            s@ == self.lineage().observed_at_utc,
    {
        self.observed_at_utc.as_str()
    }

    /// Returns the expression/predicate collation observations in location order.
    pub fn expression_observations(&self) -> (o: &[IndexExpressionCollationIdentityObservation])
        ensures
            expression_collation_views(o@) == self.expression_views(),
    {
        self.expression_observations.as_slice()
    }

    /// Returns the relation-`Var` collation observations in location order.
    pub fn relation_var_observations(&self) -> (o: &[IndexRelationVarCollationIdentityObservation])
        ensures
            relation_var_collation_views(o@) == self.relation_var_views(),
    {
        self.relation_var_observations.as_slice()
    }
}

} // verus!
