//! Complete canonical expression/predicate evidence layered over exclusion semantics.

use vstd::prelude::*;

use crate::exclusion::{exclusion_rebinding_refusal, rebind_exclusion_semantics, IndexExclusionSemanticsSnapshot};
use crate::catalog::{
    base_index_coordinate, coordinate_lt, find_owning_relation, frame_index, index_location,
    lemma_coordinate_lt_irreflexive, lemma_coordinate_lt_total, lemma_coordinate_lt_transitive,
    owning_relation, put_index, BaseIndex, BaseIndexView, BaseRelation, BaseRelationView, IndexCoordinateView,
    IndexPartitionCoordinate, IndexPartitionEvidence, IndexPartitionMembership, IssuedSnapshot,
    LineageView, MembershipView,
};
use crate::digest::{digest_text, finish_digest, frame_len, frame_str, frame_u32, put_len, put_raw, put_str, put_u32};
use crate::error::{fails_with_text, invalid, ObservationError};
use crate::expression_semantics::{
    collect_expression_columns, expr_columns, expr_equal, expr_has_whole_row, frame_expr,
    put_expression, same_expression, string_views, CanonicalExpression,
};
use crate::order::{compare_u32, same_elements, sort_by_key, sorted_by_key, strictly_sorted, KeyOrder, SortKey};
use crate::text::{decimal, push_decimal, push_text};
use vstd::utf8::encode_utf8;

verus! {

/// The value of one expression-key observation.
pub struct ExpressionObservationView {
    pub index: IndexCoordinateView,
    pub key_position: u32,
    pub expression: CanonicalExpression,
}

/// Canonical expression semantics for one zero-`indkey` index-key position.
#[derive(Debug, PartialEq, Eq)]
pub struct IndexExpressionSemanticsObservation {
    index: IndexPartitionCoordinate,
    key_position: u32,
    expression: CanonicalExpression,
}

impl View for IndexExpressionSemanticsObservation {
    type V = ExpressionObservationView;

    closed spec fn view(&self) -> ExpressionObservationView {
        ExpressionObservationView {
            index: self.index@,
            key_position: self.key_position,
            expression: self.expression,
        }
    }
}

/// `{index}/keys/{position}/expression-semantics`.
pub open spec fn expression_semantics_location(index: IndexCoordinateView, key_position: u32) -> Seq<char> {
    index_location(index) + "/keys/"@ + decimal(key_position as nat) + "/expression-semantics"@
}

/// `{index}/predicate-semantics`.
pub open spec fn predicate_semantics_location(index: IndexCoordinateView) -> Seq<char> {
    index_location(index) + "/predicate-semantics"@
}

fn render_expression_location(index: &IndexPartitionCoordinate, key_position: u32) -> (s: String)
    ensures
        s@ == expression_semantics_location(index@, key_position),
{
    let mut out = index.canonical_location();
    push_text(&mut out, "/keys/");
    push_decimal(&mut out, key_position as u64);
    push_text(&mut out, "/expression-semantics");
    out
}

fn render_predicate_location(index: &IndexPartitionCoordinate) -> (s: String)
    ensures
        s@ == predicate_semantics_location(index@),
{
    let mut out = index.canonical_location();
    push_text(&mut out, "/predicate-semantics");
    out
}

impl IndexExpressionSemanticsObservation {
    /// Creates semantic evidence for one exact expression-key position.
    pub fn new(index: IndexPartitionCoordinate, key_position: u32, expression: CanonicalExpression) -> (r:
        Result<Self, ObservationError>)
        ensures
            r is Ok <==> key_position != 0,
            r matches Ok(o) ==> o@ == (ExpressionObservationView { index: index@, key_position, expression }),
            r matches Err(e) ==> e == ObservationError::InvalidOrdinalPosition,
    {
        if key_position == 0 {
            return Err(ObservationError::InvalidOrdinalPosition);
        }
        Ok(IndexExpressionSemanticsObservation { index, key_position, expression })
    }

    /// Returns the exact relation-scoped index coordinate.
    pub fn index(&self) -> (i: &IndexPartitionCoordinate)
        ensures
            i@ == self@.index,
    {
        &self.index
    }

    /// Returns the one-based structural key position.
    pub fn key_position(&self) -> (p: u32)
        ensures
            p == self@.key_position,
    {
        self.key_position
    }

    /// Returns the stable canonical expression tree.
    pub fn expression(&self) -> (e: &CanonicalExpression)
        ensures
            *e == self@.expression,
    {
        &self.expression
    }

    /// Returns the collision-safe evidence location.
    pub fn canonical_location(&self) -> (s: String)
        ensures
            s@ == expression_semantics_location(self@.index, self@.key_position),
    {
        render_expression_location(&self.index, self.key_position)
    }
}

impl SortKey for IndexExpressionSemanticsObservation {
    open spec fn key_lt(self, other: Self) -> bool {
        coordinate_lt(self@.index, other@.index) || (self@.index == other@.index && self@.key_position
            < other@.key_position)
    }

    proof fn lemma_key_lt_transitive(a: Self, b: Self, c: Self) {
        lemma_coordinate_lt_irreflexive(a@.index);
        lemma_coordinate_lt_irreflexive(b@.index);
        if coordinate_lt(a@.index, b@.index) && coordinate_lt(b@.index, c@.index) {
            lemma_coordinate_lt_transitive(a@.index, b@.index, c@.index);
        }
    }

    proof fn lemma_key_lt_irreflexive(a: Self) {
        lemma_coordinate_lt_irreflexive(a@.index);
    }

    fn compare_key(&self, other: &Self) -> (o: KeyOrder) {
        proof {
            lemma_coordinate_lt_irreflexive(self@.index);
            lemma_coordinate_lt_irreflexive(other@.index);
        }
        let by_index = self.index.compare(&other.index);
        if by_index != KeyOrder::Equal {
            return by_index;
        }
        compare_u32(self.key_position, other.key_position)
    }
}

/// The value of one predicate observation.
pub struct PredicateObservationView {
    pub index: IndexCoordinateView,
    pub predicate: CanonicalExpression,
}

/// Canonical partial-index predicate semantics for one relation-scoped index.
#[derive(Debug, PartialEq, Eq)]
pub struct IndexPredicateSemanticsObservation {
    index: IndexPartitionCoordinate,
    predicate: CanonicalExpression,
}

impl View for IndexPredicateSemanticsObservation {
    type V = PredicateObservationView;

    closed spec fn view(&self) -> PredicateObservationView {
        PredicateObservationView { index: self.index@, predicate: self.predicate }
    }
}

impl IndexPredicateSemanticsObservation {
    /// Creates semantic evidence for one exact partial-index predicate.
    pub fn new(index: IndexPartitionCoordinate, predicate: CanonicalExpression) -> (r: Result<
        Self,
        ObservationError,
    >)
        ensures
            r matches Ok(o) && o@ == (PredicateObservationView { index: index@, predicate }),
    {
        Ok(IndexPredicateSemanticsObservation { index, predicate })
    }

    /// Returns the exact relation-scoped index coordinate.
    pub fn index(&self) -> (i: &IndexPartitionCoordinate)
        ensures
            i@ == self@.index,
    {
        &self.index
    }

    /// Returns the stable canonical predicate tree.
    pub fn predicate(&self) -> (e: &CanonicalExpression)
        ensures
            *e == self@.predicate,
    {
        &self.predicate
    }

    /// Returns the collision-safe evidence location.
    pub fn canonical_location(&self) -> (s: String)
        ensures
            s@ == predicate_semantics_location(self@.index),
    {
        render_predicate_location(&self.index)
    }
}

impl SortKey for IndexPredicateSemanticsObservation {
    open spec fn key_lt(self, other: Self) -> bool {
        coordinate_lt(self@.index, other@.index)
    }

    proof fn lemma_key_lt_transitive(a: Self, b: Self, c: Self) {
        lemma_coordinate_lt_transitive(a@.index, b@.index, c@.index);
    }

    proof fn lemma_key_lt_irreflexive(a: Self) {
        lemma_coordinate_lt_irreflexive(a@.index);
    }

    fn compare_key(&self, other: &Self) -> (o: KeyOrder) {
        self.index.compare(&other.index)
    }
}

/// Exact location for an expression or predicate semantic receipt.
#[derive(Debug, PartialEq, Eq)]
pub enum IndexExpressionSemanticsLocation {
    /// One zero-`indkey` expression key.
    Expression {
        /// Exact relation-scoped index coordinate.
        index: IndexPartitionCoordinate,
        /// One-based expression-key position.
        key_position: u32,
    },
    /// One partial-index predicate.
    Predicate {
        /// Exact relation-scoped index coordinate.
        index: IndexPartitionCoordinate,
    },
}

/// The governed text of a semantics location.
pub open spec fn semantics_location_text(l: IndexExpressionSemanticsLocation) -> Seq<char> {
    match l {
        IndexExpressionSemanticsLocation::Expression { index, key_position } => expression_semantics_location(
            index@,
            key_position,
        ),
        IndexExpressionSemanticsLocation::Predicate { index } => predicate_semantics_location(index@),
    }
}

impl IndexExpressionSemanticsLocation {
    /// Returns the collision-safe governed location.
    pub fn canonical_location(&self) -> (s: String)
        ensures
            s@ == semantics_location_text(*self),
    {
        match self {
            IndexExpressionSemanticsLocation::Expression { index, key_position } => render_expression_location(
                index,
                *key_position,
            ),
            IndexExpressionSemanticsLocation::Predicate { index } => render_predicate_location(index),
        }
    }
}

/// Immutable provenance receipt for one exact expression/predicate semantic observation.
#[derive(Debug, PartialEq, Eq)]
pub struct IndexExpressionSemanticsSourceReceipt {
    source_id: String,
    connection_policy_binding: String,
    source_digest: String,
    extractor_revision: String,
    observed_at_utc: String,
    location: IndexExpressionSemanticsLocation,
}

impl IndexExpressionSemanticsSourceReceipt {
    /// The provenance carried by this receipt.
    pub closed spec fn lineage(&self) -> LineageView {
        LineageView {
            source_connection_key: self.source_id@,
            connection_policy_binding: self.connection_policy_binding@,
            snapshot_digest: self.source_digest@,
            extractor_revision: self.extractor_revision@,
            observed_at_utc: self.observed_at_utc@,
        }
    }

    /// The location covered by this receipt.
    pub closed spec fn location_view(&self) -> IndexExpressionSemanticsLocation {
        self.location
    }

    /// Returns the stable source registry key, never credentials.
    pub fn source_id(&self) -> (s: &str)
        ensures
            s@ == self.lineage().source_connection_key,
    {
        self.source_id.as_str()
    }

    /// Returns the immutable connection-policy revision.
    pub fn connection_policy_binding(&self) -> (s: &str)
        ensures
            s@ == self.lineage().connection_policy_binding,
    {
        self.connection_policy_binding.as_str()
    }

    /// Returns the owner-computed expression-semantics digest.
    pub fn source_digest(&self) -> (s: &str)
        ensures
            s@ == self.lineage().snapshot_digest,
    {
        self.source_digest.as_str()
    }

    /// Returns the exact extractor revision inherited from the predecessor stack.
    pub fn extractor_revision(&self) -> (s: &str)
        ensures
            s@ == self.lineage().extractor_revision,
    {
        self.extractor_revision.as_str()
    }

    /// Returns the canonical source observation time inherited from the predecessor stack.
    pub fn observed_at_utc(&self) -> (s: &str)
        ensures
            s@ == self.lineage().observed_at_utc,
    {
        self.observed_at_utc.as_str()
    }

    /// Returns the exact semantic evidence location.
    pub fn location(&self) -> (l: &IndexExpressionSemanticsLocation)
        ensures
            *l == self.location_view(),
    {
        &self.location
    }
}

} // verus!

verus! {

/// The values of a sequence of expression observations.
pub open spec fn expression_views(s: Seq<IndexExpressionSemanticsObservation>) -> Seq<ExpressionObservationView> {
    s.map_values(|o: IndexExpressionSemanticsObservation| o@)
}

/// The values of a sequence of predicate observations.
pub open spec fn predicate_views(s: Seq<IndexPredicateSemanticsObservation>) -> Seq<PredicateObservationView> {
    s.map_values(|o: IndexPredicateSemanticsObservation| o@)
}

/// The base snapshot records an expression key at `key_position` of `index`.
pub open spec fn expected_expression_key(rels: Seq<BaseRelationView>, index: IndexCoordinateView, key_position: u32) -> bool {
    exists|a: int, b: int|
        0 <= a < rels.len() && 0 <= b < rels[a].indexes.len() && base_index_coordinate(
            rels[a],
            #[trigger] rels[a].indexes[b],
        ) == index && rels[a].indexes[b].expression_key_positions.contains(key_position)
}

/// The base snapshot records a partial-index predicate on `index`.
pub open spec fn expected_predicate(rels: Seq<BaseRelationView>, index: IndexCoordinateView) -> bool {
    exists|a: int, b: int|
        0 <= a < rels.len() && 0 <= b < rels[a].indexes.len() && base_index_coordinate(
            rels[a],
            #[trigger] rels[a].indexes[b],
        ) == index && rels[a].indexes[b].has_predicate
}

/// Some expression observation sits at `key_position` of `index`.
pub open spec fn expression_key_seen(obs: Seq<ExpressionObservationView>, index: IndexCoordinateView, key_position: u32) -> bool {
    exists|k: int| 0 <= k < obs.len() && (#[trigger] obs[k]).index == index && obs[k].key_position == key_position
}

/// Every expression key of one base index is observed.
pub open spec fn index_keys_seen(obs: Seq<ExpressionObservationView>, r: BaseRelationView, i: BaseIndexView) -> bool {
    forall|z: int|
        0 <= z < i.expression_key_positions.len() ==> expression_key_seen(
            obs,
            base_index_coordinate(r, i),
            #[trigger] i.expression_key_positions[z],
        )
}

/// Every expression key of one base relation is observed.
pub open spec fn relation_keys_seen(obs: Seq<ExpressionObservationView>, r: BaseRelationView) -> bool {
    forall|y: int| 0 <= y < r.indexes.len() ==> index_keys_seen(obs, r, #[trigger] r.indexes[y])
}

/// The observed expression keys are exactly the base snapshot's expression keys.
pub open spec fn expressions_complete(rels: Seq<BaseRelationView>, obs: Seq<ExpressionObservationView>) -> bool {
    &&& forall|i: int| 0 <= i < obs.len() ==> expected_expression_key(rels, (#[trigger] obs[i]).index, obs[i].key_position)
    &&& forall|a: int| 0 <= a < rels.len() ==> relation_keys_seen(obs, #[trigger] rels[a])
}

/// Some predicate observation sits on `index`.
pub open spec fn predicate_seen(obs: Seq<PredicateObservationView>, index: IndexCoordinateView) -> bool {
    exists|k: int| 0 <= k < obs.len() && (#[trigger] obs[k]).index == index
}

/// Every partial-index predicate of one base relation is observed.
pub open spec fn relation_predicates_seen(obs: Seq<PredicateObservationView>, r: BaseRelationView) -> bool {
    forall|y: int|
        0 <= y < r.indexes.len() && (#[trigger] r.indexes[y]).has_predicate ==> predicate_seen(
            obs,
            base_index_coordinate(r, r.indexes[y]),
        )
}

/// The observed predicates are exactly the base snapshot's partial-index predicates.
pub open spec fn predicates_complete(rels: Seq<BaseRelationView>, obs: Seq<PredicateObservationView>) -> bool {
    &&& forall|i: int| 0 <= i < obs.len() ==> expected_predicate(rels, (#[trigger] obs[i]).index)
    &&& forall|a: int| 0 <= a < rels.len() ==> relation_predicates_seen(obs, #[trigger] rels[a])
}

/// Two different expression observations share index and key position.
pub open spec fn duplicate_expression_key(obs: Seq<ExpressionObservationView>) -> bool {
    exists|i: int, j: int|
        0 <= i < j < obs.len() && (#[trigger] obs[i]).index == (#[trigger] obs[j]).index
            && obs[i].key_position == obs[j].key_position
}

/// Two different predicate observations share an index.
pub open spec fn duplicate_predicate_index(obs: Seq<PredicateObservationView>) -> bool {
    exists|i: int, j: int| 0 <= i < j < obs.len() && (#[trigger] obs[i]).index == (#[trigger] obs[j]).index
}

/// The index is owned by a base relation that has an index of that name.
pub open spec fn index_bound(rels: Seq<BaseRelationView>, index: IndexCoordinateView) -> bool {
    match owning_relation(rels, index) {
        Some(r) => exists|b: int| 0 <= b < r.indexes.len() && (#[trigger] r.indexes[b]).index_name == index.index_name,
        None => false,
    }
}

/// Every column the expression references is a column of the index's owning relation.
pub open spec fn columns_bound(rels: Seq<BaseRelationView>, index: IndexCoordinateView, e: CanonicalExpression) -> bool {
    match owning_relation(rels, index) {
        Some(r) => forall|k: int| 0 <= k < expr_columns(e).len() ==> r.column_names.contains(#[trigger] expr_columns(e)[k]),
        None => false,
    }
}

/// 0 when the expression binds to its relation; 1 when its index does not; 2 when a column does not.
pub open spec fn binding_code(rels: Seq<BaseRelationView>, index: IndexCoordinateView, e: CanonicalExpression) -> int {
    if !index_bound(rels, index) {
        1
    } else if !columns_bound(rels, index, e) {
        2
    } else {
        0
    }
}

/// The binding code of the first (index, tree) pair that fails, or 0.
pub open spec fn first_binding_code(rels: Seq<BaseRelationView>, s: Seq<(IndexCoordinateView, CanonicalExpression)>) -> int
    decreases s.len(),
{
    if s.len() == 0 {
        0
    } else if binding_code(rels, s[0].0, s[0].1) != 0 {
        binding_code(rels, s[0].0, s[0].1)
    } else {
        first_binding_code(rels, s.drop_first())
    }
}

/// The (index, expression) pairs of expression observations.
pub open spec fn expression_pairs(s: Seq<IndexExpressionSemanticsObservation>) -> Seq<(IndexCoordinateView, CanonicalExpression)> {
    s.map_values(|o: IndexExpressionSemanticsObservation| (o@.index, o@.expression))
}

/// The (index, predicate) pairs of predicate observations.
pub open spec fn predicate_pairs(s: Seq<IndexPredicateSemanticsObservation>) -> Seq<(IndexCoordinateView, CanonicalExpression)> {
    s.map_values(|o: IndexPredicateSemanticsObservation| (o@.index, o@.predicate))
}

/// The field reported for a binding code.
pub open spec fn binding_field(code: int) -> Seq<char> {
    if code == 1 {
        "index_expression_semantics_index_binding"@
    } else {
        "index_expression_semantics_column_binding"@
    }
}

fn validate_expression_columns(
    relations: &[BaseRelation],
    index: &IndexPartitionCoordinate,
    expression: &CanonicalExpression,
) -> (r: Result<(), ObservationError>)
    ensures
        r is Ok <==> binding_code(relations@.map_values(|b: BaseRelation| b@), index@, *expression) == 0,
        r is Err ==> fails_with_text(r, binding_field(binding_code(relations@.map_values(|b: BaseRelation| b@), index@, *expression))),
{
    let ghost rels = relations@.map_values(|b: BaseRelation| b@);
    let relation = match find_owning_relation(relations, index) {
        Some(relation) => relation,
        None => {
            return Err(invalid("index_expression_semantics_index_binding"));
        },
    };
    if !relation.has_index(index.index_name()) {
        return Err(invalid("index_expression_semantics_index_binding"));
    }
    let mut columns: Vec<String> = Vec::new();
    collect_expression_columns(expression, &mut columns);
    let ghost cols = expr_columns(*expression);
    assert(string_views(columns@) =~= cols);
    let mut k: usize = 0;
    while k < columns.len()
        invariant
            k <= columns@.len(),
            string_views(columns@) == cols,
            cols == expr_columns(*expression),
            rels == relations@.map_values(|b: BaseRelation| b@),
            owning_relation(rels, index@) == Some(relation@),
            index_bound(rels, index@),
            forall|x: int| 0 <= x < k ==> relation@.column_names.contains(#[trigger] cols[x]),
        decreases columns@.len() - k,
    {
        assert(cols[k as int] == columns@[k as int]@);
        if !relation.has_column(columns[k].as_str()) {
            proof {
                assert(cols.len() == string_views(columns@).len());
                assert(k < cols.len());
                assert(!relation@.column_names.contains(cols[k as int]));
                assert(owning_relation(rels, index@) == Some(relation@));
                assert(!columns_bound(rels, index@, *expression));
            }
            return Err(invalid("index_expression_semantics_column_binding"));
        }
        k = k + 1;
    }
    Ok(())
}

} // verus!

verus! {

fn coordinate_matches(c: &IndexPartitionCoordinate, rel: &BaseRelation, idx: &BaseIndex) -> (b: bool)
    ensures
        b == (c@ == base_index_coordinate(rel@, idx@)),
{
    rel.owns(c) && crate::order::text_eq(c.index_name(), idx.index_name())
}

fn index_has_position(idx: &BaseIndex, key_position: u32) -> (b: bool)
    ensures
        b == idx@.expression_key_positions.contains(key_position),
{
    let positions = idx.expression_key_positions();
    let mut c: usize = 0;
    while c < positions.len()
        invariant
            c <= positions@.len(),
            positions@ == idx@.expression_key_positions,
            forall|x: int| 0 <= x < c ==> positions@[x] != key_position,
        decreases positions@.len() - c,
    {
        if positions[c] == key_position {
            return true;
        }
        c = c + 1;
    }
    false
}

fn is_expected_expression_key(relations: &[BaseRelation], index: &IndexPartitionCoordinate, key_position: u32) -> (b: bool)
    ensures
        b == expected_expression_key(relations@.map_values(|r: BaseRelation| r@), index@, key_position),
{
    let ghost rels = relations@.map_values(|r: BaseRelation| r@);
    let mut a: usize = 0;
    while a < relations.len()
        invariant
            a <= relations@.len(),
            rels == relations@.map_values(|r: BaseRelation| r@),
            forall|x: int, y: int|
                0 <= x < a && 0 <= y < rels[x].indexes.len() ==> !(base_index_coordinate(rels[x], #[trigger] rels[x].indexes[y])
                    == index@ && rels[x].indexes[y].expression_key_positions.contains(key_position)),
        decreases relations@.len() - a,
    {
        let rel = &relations[a];
        assert(rels[a as int] == rel@);
        let indexes = rel.indexes();
        let mut b: usize = 0;
        while b < indexes.len()
            invariant
                b <= indexes@.len(),
                indexes@.map_values(|x: BaseIndex| x@) == rel@.indexes,
                a < relations@.len(),
                rels == relations@.map_values(|r: BaseRelation| r@),
                rels[a as int] == rel@,
                forall|y: int|
                    0 <= y < b ==> !(base_index_coordinate(rel@, #[trigger] rel@.indexes[y]) == index@
                        && rel@.indexes[y].expression_key_positions.contains(key_position)),
            decreases indexes@.len() - b,
        {
            assert(rel@.indexes[b as int] == indexes@[b as int]@);
            if coordinate_matches(index, rel, &indexes[b]) && index_has_position(&indexes[b], key_position) {
                assert(base_index_coordinate(rels[a as int], rels[a as int].indexes[b as int]) == index@);
                return true;
            }
            b = b + 1;
        }
        a = a + 1;
    }
    false
}

fn is_expected_predicate(relations: &[BaseRelation], index: &IndexPartitionCoordinate) -> (b: bool)
    ensures
        b == expected_predicate(relations@.map_values(|r: BaseRelation| r@), index@),
{
    let ghost rels = relations@.map_values(|r: BaseRelation| r@);
    let mut a: usize = 0;
    while a < relations.len()
        invariant
            a <= relations@.len(),
            rels == relations@.map_values(|r: BaseRelation| r@),
            forall|x: int, y: int|
                0 <= x < a && 0 <= y < rels[x].indexes.len() ==> !(base_index_coordinate(rels[x], #[trigger] rels[x].indexes[y])
                    == index@ && rels[x].indexes[y].has_predicate),
        decreases relations@.len() - a,
    {
        let rel = &relations[a];
        assert(rels[a as int] == rel@);
        let indexes = rel.indexes();
        let mut b: usize = 0;
        while b < indexes.len()
            invariant
                b <= indexes@.len(),
                indexes@.map_values(|x: BaseIndex| x@) == rel@.indexes,
                a < relations@.len(),
                rels == relations@.map_values(|r: BaseRelation| r@),
                rels[a as int] == rel@,
                forall|y: int|
                    0 <= y < b ==> !(base_index_coordinate(rel@, #[trigger] rel@.indexes[y]) == index@
                        && rel@.indexes[y].has_predicate),
            decreases indexes@.len() - b,
        {
            assert(rel@.indexes[b as int] == indexes@[b as int]@);
            if coordinate_matches(index, rel, &indexes[b]) && indexes[b].has_predicate() {
                assert(base_index_coordinate(rels[a as int], rels[a as int].indexes[b as int]) == index@);
                return true;
            }
            b = b + 1;
        }
        a = a + 1;
    }
    false
}

fn expression_key_observed(
    obs: &[IndexExpressionSemanticsObservation],
    rel: &BaseRelation,
    idx: &BaseIndex,
    key_position: u32,
) -> (b: bool)
    ensures
        b == exists|i: int|
            0 <= i < obs@.len() && (#[trigger] expression_views(obs@)[i]).index == base_index_coordinate(rel@, idx@)
                && expression_views(obs@)[i].key_position == key_position,
{
    let ghost ov = expression_views(obs@);
    let mut i: usize = 0;
    while i < obs.len()
        invariant
            i <= obs@.len(),
            ov == expression_views(obs@),
            forall|x: int| 0 <= x < i ==> !((#[trigger] ov[x]).index == base_index_coordinate(rel@, idx@)
                && ov[x].key_position == key_position),
        decreases obs@.len() - i,
    {
        assert(ov[i as int] == obs@[i as int]@);
        if obs[i].key_position() == key_position && coordinate_matches(obs[i].index(), rel, idx) {
            return true;
        }
        i = i + 1;
    }
    false
}

fn predicate_observed(obs: &[IndexPredicateSemanticsObservation], rel: &BaseRelation, idx: &BaseIndex) -> (b: bool)
    ensures
        b == exists|i: int|
            0 <= i < obs@.len() && (#[trigger] predicate_views(obs@)[i]).index == base_index_coordinate(rel@, idx@),
{
    let ghost ov = predicate_views(obs@);
    let mut i: usize = 0;
    while i < obs.len()
        invariant
            i <= obs@.len(),
            ov == predicate_views(obs@),
            forall|x: int| 0 <= x < i ==> (#[trigger] ov[x]).index != base_index_coordinate(rel@, idx@),
        decreases obs@.len() - i,
    {
        assert(ov[i as int] == obs@[i as int]@);
        if coordinate_matches(obs[i].index(), rel, idx) {
            return true;
        }
        i = i + 1;
    }
    false
}

} // verus!

verus! {

fn index_keys_are_seen(obs: &[IndexExpressionSemanticsObservation], rel: &BaseRelation, idx: &BaseIndex) -> (b: bool)
    ensures
        b == index_keys_seen(expression_views(obs@), rel@, idx@),
{
    let positions = idx.expression_key_positions();
    let mut c: usize = 0;
    while c < positions.len()
        invariant
            c <= positions@.len(),
            positions@ == idx@.expression_key_positions,
            forall|z: int|
                0 <= z < c ==> expression_key_seen(
                    expression_views(obs@),
                    base_index_coordinate(rel@, idx@),
                    #[trigger] idx@.expression_key_positions[z],
                ),
        decreases positions@.len() - c,
    {
        if !expression_key_observed(obs, rel, idx, positions[c]) {
            proof {
                assert(!expression_key_seen(
                    expression_views(obs@),
                    base_index_coordinate(rel@, idx@),
                    idx@.expression_key_positions[c as int],
                ));
            }
            return false;
        }
        c = c + 1;
    }
    true
}

fn relation_keys_are_seen(obs: &[IndexExpressionSemanticsObservation], rel: &BaseRelation) -> (b: bool)
    ensures
        b == relation_keys_seen(expression_views(obs@), rel@),
{
    let indexes = rel.indexes();
    let mut b: usize = 0;
    while b < indexes.len()
        invariant
            b <= indexes@.len(),
            indexes@.map_values(|x: BaseIndex| x@) == rel@.indexes,
            forall|y: int| 0 <= y < b ==> index_keys_seen(expression_views(obs@), rel@, #[trigger] rel@.indexes[y]),
        decreases indexes@.len() - b,
    {
        assert(rel@.indexes[b as int] == indexes@[b as int]@);
        if !index_keys_are_seen(obs, rel, &indexes[b]) {
            return false;
        }
        b = b + 1;
    }
    true
}

fn expressions_are_complete(relations: &[BaseRelation], obs: &[IndexExpressionSemanticsObservation]) -> (b: bool)
    ensures
        b == expressions_complete(relations@.map_values(|r: BaseRelation| r@), expression_views(obs@)),
{
    let ghost rels = relations@.map_values(|r: BaseRelation| r@);
    let ghost ov = expression_views(obs@);
    let mut i: usize = 0;
    while i < obs.len()
        invariant
            i <= obs@.len(),
            rels == relations@.map_values(|r: BaseRelation| r@),
            ov == expression_views(obs@),
            forall|x: int| 0 <= x < i ==> expected_expression_key(rels, (#[trigger] ov[x]).index, ov[x].key_position),
        decreases obs@.len() - i,
    {
        assert(ov[i as int] == obs@[i as int]@);
        if !is_expected_expression_key(relations, obs[i].index(), obs[i].key_position()) {
            return false;
        }
        i = i + 1;
    }
    let mut a: usize = 0;
    while a < relations.len()
        invariant
            a <= relations@.len(),
            rels == relations@.map_values(|r: BaseRelation| r@),
            ov == expression_views(obs@),
            forall|x: int| 0 <= x < obs@.len() ==> expected_expression_key(rels, (#[trigger] ov[x]).index, ov[x].key_position),
            forall|x: int| 0 <= x < a ==> relation_keys_seen(ov, #[trigger] rels[x]),
        decreases relations@.len() - a,
    {
        assert(rels[a as int] == relations@[a as int]@);
        if !relation_keys_are_seen(obs, &relations[a]) {
            return false;
        }
        a = a + 1;
    }
    true
}

fn relation_predicates_are_seen(obs: &[IndexPredicateSemanticsObservation], rel: &BaseRelation) -> (b: bool)
    ensures
        b == relation_predicates_seen(predicate_views(obs@), rel@),
{
    let indexes = rel.indexes();
    let mut b: usize = 0;
    while b < indexes.len()
        invariant
            b <= indexes@.len(),
            indexes@.map_values(|x: BaseIndex| x@) == rel@.indexes,
            forall|y: int|
                0 <= y < b && (#[trigger] rel@.indexes[y]).has_predicate ==> predicate_seen(
                    predicate_views(obs@),
                    base_index_coordinate(rel@, rel@.indexes[y]),
                ),
        decreases indexes@.len() - b,
    {
        assert(rel@.indexes[b as int] == indexes@[b as int]@);
        if indexes[b].has_predicate() && !predicate_observed(obs, rel, &indexes[b]) {
            return false;
        }
        b = b + 1;
    }
    true
}

fn predicates_are_complete(relations: &[BaseRelation], obs: &[IndexPredicateSemanticsObservation]) -> (b: bool)
    ensures
        b == predicates_complete(relations@.map_values(|r: BaseRelation| r@), predicate_views(obs@)),
{
    let ghost rels = relations@.map_values(|r: BaseRelation| r@);
    let ghost ov = predicate_views(obs@);
    let mut i: usize = 0;
    while i < obs.len()
        invariant
            i <= obs@.len(),
            rels == relations@.map_values(|r: BaseRelation| r@),
            ov == predicate_views(obs@),
            forall|x: int| 0 <= x < i ==> expected_predicate(rels, (#[trigger] ov[x]).index),
        decreases obs@.len() - i,
    {
        assert(ov[i as int] == obs@[i as int]@);
        if !is_expected_predicate(relations, obs[i].index()) {
            return false;
        }
        i = i + 1;
    }
    let mut a: usize = 0;
    while a < relations.len()
        invariant
            a <= relations@.len(),
            rels == relations@.map_values(|r: BaseRelation| r@),
            ov == predicate_views(obs@),
            forall|x: int| 0 <= x < obs@.len() ==> expected_predicate(rels, (#[trigger] ov[x]).index),
            forall|x: int| 0 <= x < a ==> relation_predicates_seen(ov, #[trigger] rels[x]),
        decreases relations@.len() - a,
    {
        assert(rels[a as int] == relations@[a as int]@);
        if !relation_predicates_are_seen(obs, &relations[a]) {
            return false;
        }
        a = a + 1;
    }
    true
}

} // verus!

verus! {

fn validate_expression_bindings(relations: &[BaseRelation], obs: &[IndexExpressionSemanticsObservation]) -> (r: Result<
    (),
    ObservationError,
>)
    ensures
        r is Ok <==> first_binding_code(relations@.map_values(|b: BaseRelation| b@), expression_pairs(obs@)) == 0,
        r is Err ==> fails_with_text(
            r,
            binding_field(first_binding_code(relations@.map_values(|b: BaseRelation| b@), expression_pairs(obs@))),
        ),
{
    let ghost rels = relations@.map_values(|b: BaseRelation| b@);
    let ghost pairs = expression_pairs(obs@);
    let mut i: usize = 0;
    assert(pairs.skip(0) =~= pairs);
    while i < obs.len()
        invariant
            i <= obs@.len(),
            rels == relations@.map_values(|b: BaseRelation| b@),
            pairs == expression_pairs(obs@),
            first_binding_code(rels, pairs) == first_binding_code(rels, pairs.skip(i as int)),
        decreases obs@.len() - i,
    {
        assert(pairs.skip(i as int)[0] == (obs@[i as int]@.index, obs@[i as int]@.expression));
        assert(pairs.skip(i as int).drop_first() =~= pairs.skip(i + 1));
        let checked = validate_expression_columns(relations, obs[i].index(), obs[i].expression());
        if checked.is_err() {
            return checked;
        }
        i = i + 1;
    }
    assert(pairs.skip(i as int).len() == 0);
    Ok(())
}

fn validate_predicate_bindings(relations: &[BaseRelation], obs: &[IndexPredicateSemanticsObservation]) -> (r: Result<
    (),
    ObservationError,
>)
    ensures
        r is Ok <==> first_binding_code(relations@.map_values(|b: BaseRelation| b@), predicate_pairs(obs@)) == 0,
        r is Err ==> fails_with_text(
            r,
            binding_field(first_binding_code(relations@.map_values(|b: BaseRelation| b@), predicate_pairs(obs@))),
        ),
{
    let ghost rels = relations@.map_values(|b: BaseRelation| b@);
    let ghost pairs = predicate_pairs(obs@);
    let mut i: usize = 0;
    assert(pairs.skip(0) =~= pairs);
    while i < obs.len()
        invariant
            i <= obs@.len(),
            rels == relations@.map_values(|b: BaseRelation| b@),
            pairs == predicate_pairs(obs@),
            first_binding_code(rels, pairs) == first_binding_code(rels, pairs.skip(i as int)),
        decreases obs@.len() - i,
    {
        assert(pairs.skip(i as int)[0] == (obs@[i as int]@.index, obs@[i as int]@.predicate));
        assert(pairs.skip(i as int).drop_first() =~= pairs.skip(i + 1));
        let checked = validate_expression_columns(relations, obs[i].index(), obs[i].predicate());
        if checked.is_err() {
            return checked;
        }
        i = i + 1;
    }
    assert(pairs.skip(i as int).len() == 0);
    Ok(())
}

proof fn lemma_expression_key_seen_transfer(
    a: Seq<IndexExpressionSemanticsObservation>,
    b: Seq<IndexExpressionSemanticsObservation>,
    index: IndexCoordinateView,
    key_position: u32,
)
    requires
        same_elements(a, b),
        expression_key_seen(expression_views(a), index, key_position),
    ensures
        expression_key_seen(expression_views(b), index, key_position),
{
    let va = expression_views(a);
    let k = choose|k: int| 0 <= k < va.len() && (#[trigger] va[k]).index == index && va[k].key_position == key_position;
    assert(b.contains(a[k]));
    let j = choose|j: int| 0 <= j < b.len() && b[j] == a[k];
    assert(expression_views(b)[j] == va[k]);
}

proof fn lemma_expressions_complete_transfer(
    rels: Seq<BaseRelationView>,
    a: Seq<IndexExpressionSemanticsObservation>,
    b: Seq<IndexExpressionSemanticsObservation>,
)
    requires
        same_elements(a, b),
        expressions_complete(rels, expression_views(a)),
    ensures
        expressions_complete(rels, expression_views(b)),
{
    let va = expression_views(a);
    let vb = expression_views(b);
    assert forall|i: int| 0 <= i < vb.len() implies expected_expression_key(rels, (#[trigger] vb[i]).index, vb[i].key_position) by {
        assert(a.contains(b[i]));
        let k = choose|k: int| 0 <= k < a.len() && a[k] == b[i];
        assert(va[k] == vb[i]);
    }
    assert forall|x: int| 0 <= x < rels.len() implies relation_keys_seen(vb, #[trigger] rels[x]) by {
        assert forall|y: int| 0 <= y < rels[x].indexes.len() implies index_keys_seen(vb, rels[x], #[trigger] rels[x].indexes[y]) by {
            assert forall|z: int| 0 <= z < rels[x].indexes[y].expression_key_positions.len() implies expression_key_seen(
                vb,
                base_index_coordinate(rels[x], rels[x].indexes[y]),
                #[trigger] rels[x].indexes[y].expression_key_positions[z],
            ) by {
                assert(relation_keys_seen(va, rels[x]));
                assert(index_keys_seen(va, rels[x], rels[x].indexes[y]));
                lemma_expression_key_seen_transfer(
                    a,
                    b,
                    base_index_coordinate(rels[x], rels[x].indexes[y]),
                    rels[x].indexes[y].expression_key_positions[z],
                );
            }
        }
    }
}

proof fn lemma_predicates_complete_transfer(
    rels: Seq<BaseRelationView>,
    a: Seq<IndexPredicateSemanticsObservation>,
    b: Seq<IndexPredicateSemanticsObservation>,
)
    requires
        same_elements(a, b),
        predicates_complete(rels, predicate_views(a)),
    ensures
        predicates_complete(rels, predicate_views(b)),
{
    let va = predicate_views(a);
    let vb = predicate_views(b);
    assert forall|i: int| 0 <= i < vb.len() implies expected_predicate(rels, (#[trigger] vb[i]).index) by {
        assert(a.contains(b[i]));
        let k = choose|k: int| 0 <= k < a.len() && a[k] == b[i];
        assert(va[k] == vb[i]);
    }
    assert forall|x: int| 0 <= x < rels.len() implies relation_predicates_seen(vb, #[trigger] rels[x]) by {
        assert forall|y: int| 0 <= y < rels[x].indexes.len() && (#[trigger] rels[x].indexes[y]).has_predicate implies predicate_seen(
            vb,
            base_index_coordinate(rels[x], rels[x].indexes[y]),
        ) by {
            assert(relation_predicates_seen(va, rels[x]));
            let c = base_index_coordinate(rels[x], rels[x].indexes[y]);
            assert(predicate_seen(va, c));
            let k = choose|k: int| 0 <= k < va.len() && (#[trigger] va[k]).index == c;
            assert(b.contains(a[k]));
            let j = choose|j: int| 0 <= j < b.len() && b[j] == a[k];
            assert(vb[j] == va[k]);
        }
    }
}

proof fn lemma_expression_collision(s: Seq<IndexExpressionSemanticsObservation>)
    ensures
        crate::order::has_key_collision(s) <==> duplicate_expression_key(expression_views(s)),
{
    let v = expression_views(s);
    if crate::order::has_key_collision(s) {
        let (i, j) = choose|i: int, j: int| 0 <= i < j < s.len() && crate::order::same_key(#[trigger] s[i], #[trigger] s[j]);
        assert(v[i] == s[i]@ && v[j] == s[j]@);
        if v[i].index != v[j].index {
            lemma_coordinate_lt_total(v[i].index, v[j].index);
        }
    }
    if duplicate_expression_key(v) {
        let (i, j) = choose|i: int, j: int| 0 <= i < j < v.len() && (#[trigger] v[i]).index == (#[trigger] v[j]).index
            && v[i].key_position == v[j].key_position;
        lemma_coordinate_lt_irreflexive(v[i].index);
        assert(crate::order::same_key(s[i], s[j]));
    }
}

proof fn lemma_predicate_collision(s: Seq<IndexPredicateSemanticsObservation>)
    ensures
        crate::order::has_key_collision(s) <==> duplicate_predicate_index(predicate_views(s)),
{
    let v = predicate_views(s);
    if crate::order::has_key_collision(s) {
        let (i, j) = choose|i: int, j: int| 0 <= i < j < s.len() && crate::order::same_key(#[trigger] s[i], #[trigger] s[j]);
        assert(v[i] == s[i]@ && v[j] == s[j]@);
        if v[i].index != v[j].index {
            lemma_coordinate_lt_total(v[i].index, v[j].index);
        }
    }
    if duplicate_predicate_index(v) {
        let (i, j) = choose|i: int, j: int| 0 <= i < j < v.len() && (#[trigger] v[i]).index == (#[trigger] v[j]).index;
        lemma_coordinate_lt_irreflexive(v[i].index);
        assert(crate::order::same_key(s[i], s[j]));
    }
}

} // verus!

verus! {

/// The field reported when expression observations are refused, or `None` when they are accepted:
/// a repeated key, then incomplete coverage, then the first (in key order) tree that does not bind
/// to its relation.
pub open spec fn expression_observations_error(
    rels: Seq<BaseRelationView>,
    obs: Seq<IndexExpressionSemanticsObservation>,
) -> Option<Seq<char>> {
    if duplicate_expression_key(expression_views(obs)) {
        Some("index_expression_semantics_coordinate"@)
    } else if !expressions_complete(rels, expression_views(obs)) {
        Some("index_expression_semantics_completeness"@)
    } else if first_binding_code(rels, expression_pairs(sorted_by_key(obs))) != 0 {
        Some(binding_field(first_binding_code(rels, expression_pairs(sorted_by_key(obs)))))
    } else {
        None
    }
}

/// The field reported when predicate observations are refused, or `None` when they are accepted.
pub open spec fn predicate_observations_error(
    rels: Seq<BaseRelationView>,
    obs: Seq<IndexPredicateSemanticsObservation>,
) -> Option<Seq<char>> {
    if duplicate_predicate_index(predicate_views(obs)) {
        Some("index_predicate_semantics_coordinate"@)
    } else if !predicates_complete(rels, predicate_views(obs)) {
        Some("index_predicate_semantics_completeness"@)
    } else if first_binding_code(rels, predicate_pairs(sorted_by_key(obs))) != 0 {
        Some(binding_field(first_binding_code(rels, predicate_pairs(sorted_by_key(obs)))))
    } else {
        None
    }
}

/// Sorts expression observations by index and key position and binds them to the base snapshot.
pub fn canonicalize_expression_observations(
    relations: &[BaseRelation],
    observations: Vec<IndexExpressionSemanticsObservation>,
) -> (r: Result<Vec<IndexExpressionSemanticsObservation>, ObservationError>)
    ensures
        r is Ok <==> expression_observations_error(relations@.map_values(|b: BaseRelation| b@), observations@) is None,
        r is Err ==> fails_with_text(
            r,
            expression_observations_error(relations@.map_values(|b: BaseRelation| b@), observations@)->0,
        ),
        r matches Ok(v) ==> v@ == sorted_by_key(observations@) && strictly_sorted(v@) && same_elements(v@, observations@),
{
    let ghost rels = relations@.map_values(|b: BaseRelation| b@);
    let ghost input = observations@;
    proof {
        lemma_expression_collision(input);
    }
    let sorted = match sort_by_key(observations) {
        Some(v) => v,
        None => {
            return Err(invalid("index_expression_semantics_coordinate"));
        },
    };
    proof {
        crate::order::lemma_same_elements_symmetric(sorted@, input);
        if expressions_complete(rels, expression_views(input)) {
            lemma_expressions_complete_transfer(rels, input, sorted@);
        }
        if expressions_complete(rels, expression_views(sorted@)) {
            lemma_expressions_complete_transfer(rels, sorted@, input);
        }
    }
    if !expressions_are_complete(relations, sorted.as_slice()) {
        return Err(invalid("index_expression_semantics_completeness"));
    }
    validate_expression_bindings(relations, sorted.as_slice())?;
    Ok(sorted)
}

/// Sorts predicate observations by index and binds them to the base snapshot.
pub fn canonicalize_predicate_observations(
    relations: &[BaseRelation],
    observations: Vec<IndexPredicateSemanticsObservation>,
) -> (r: Result<Vec<IndexPredicateSemanticsObservation>, ObservationError>)
    ensures
        r is Ok <==> predicate_observations_error(relations@.map_values(|b: BaseRelation| b@), observations@) is None,
        r is Err ==> fails_with_text(
            r,
            predicate_observations_error(relations@.map_values(|b: BaseRelation| b@), observations@)->0,
        ),
        r matches Ok(v) ==> v@ == sorted_by_key(observations@) && strictly_sorted(v@) && same_elements(v@, observations@),
{
    let ghost rels = relations@.map_values(|b: BaseRelation| b@);
    let ghost input = observations@;
    proof {
        lemma_predicate_collision(input);
    }
    let sorted = match sort_by_key(observations) {
        Some(v) => v,
        None => {
            return Err(invalid("index_predicate_semantics_coordinate"));
        },
    };
    proof {
        crate::order::lemma_same_elements_symmetric(sorted@, input);
        if predicates_complete(rels, predicate_views(input)) {
            lemma_predicates_complete_transfer(rels, input, sorted@);
        }
        if predicates_complete(rels, predicate_views(sorted@)) {
            lemma_predicates_complete_transfer(rels, sorted@, input);
        }
    }
    if !predicates_are_complete(relations, sorted.as_slice()) {
        return Err(invalid("index_predicate_semantics_completeness"));
    }
    validate_predicate_bindings(relations, sorted.as_slice())?;
    Ok(sorted)
}

} // verus!

verus! {

/// The expression observed at `key_position` of `index` (the first such observation).
pub open spec fn expression_at(obs: Seq<ExpressionObservationView>, index: IndexCoordinateView, key_position: u32) -> Option<
    CanonicalExpression,
>
    decreases obs.len(),
{
    if obs.len() == 0 {
        None
    } else if obs[0].index == index && obs[0].key_position == key_position {
        Some(obs[0].expression)
    } else {
        expression_at(obs.drop_first(), index, key_position)
    }
}

/// The predicate observed on `index` (the first such observation).
pub open spec fn predicate_at(obs: Seq<PredicateObservationView>, index: IndexCoordinateView) -> Option<CanonicalExpression>
    decreases obs.len(),
{
    if obs.len() == 0 {
        None
    } else if obs[0].index == index {
        Some(obs[0].predicate)
    } else {
        predicate_at(obs.drop_first(), index)
    }
}

/// Semantic equality of two optional trees.
pub open spec fn optional_expr_equal(a: Option<CanonicalExpression>, b: Option<CanonicalExpression>) -> bool {
    match (a, b) {
        (None, None) => true,
        (Some(x), Some(y)) => expr_equal(x, y),
        _ => false,
    }
}

/// How a child expression key compares with the parent index: 0 when equal; 3 when the parent has
/// no expression at that key; 4 when the child refers to the whole row; 5 when the trees differ.
pub open spec fn child_expression_code(
    obs: Seq<ExpressionObservationView>,
    child: ExpressionObservationView,
    parent: IndexCoordinateView,
) -> int {
    match expression_at(obs, parent, child.key_position) {
        None => 3,
        Some(p) => if expr_has_whole_row(child.expression) {
            4
        } else if !expr_equal(child.expression, p) {
            5
        } else {
            0
        },
    }
}

/// The code of the first expression observation of `child_index` in `rest` that disagrees with
/// the parent index, or 0.
pub open spec fn child_expressions_code(
    obs: Seq<ExpressionObservationView>,
    rest: Seq<ExpressionObservationView>,
    child_index: IndexCoordinateView,
    parent: IndexCoordinateView,
) -> int
    decreases rest.len(),
{
    if rest.len() == 0 {
        0
    } else if rest[0].index == child_index && child_expression_code(obs, rest[0], parent) != 0 {
        child_expression_code(obs, rest[0], parent)
    } else {
        child_expressions_code(obs, rest.drop_first(), child_index, parent)
    }
}

/// How a child predicate compares with the parent's: 0 when equal (both absent counts as equal);
/// 6 when the child refers to the whole row; 7 when they differ.
pub open spec fn child_predicate_code(
    preds: Seq<PredicateObservationView>,
    child_index: IndexCoordinateView,
    parent: IndexCoordinateView,
) -> int {
    let c = predicate_at(preds, child_index);
    let p = predicate_at(preds, parent);
    if c is Some && expr_has_whole_row(c->0) {
        6
    } else if !optional_expr_equal(c, p) {
        7
    } else {
        0
    }
}

/// The code of one membership: its expression keys first, then its predicate; 0 without a parent.
pub open spec fn membership_code(
    obs: Seq<ExpressionObservationView>,
    preds: Seq<PredicateObservationView>,
    m: MembershipView,
) -> int {
    match m.parent_index {
        None => 0,
        Some(p) => if child_expressions_code(obs, obs, m.coordinate, p) != 0 {
            child_expressions_code(obs, obs, m.coordinate, p)
        } else {
            child_predicate_code(preds, m.coordinate, p)
        },
    }
}

/// The code of the first membership whose definition disagrees with its parent index, or 0.
pub open spec fn attachment_code(
    obs: Seq<ExpressionObservationView>,
    preds: Seq<PredicateObservationView>,
    ms: Seq<MembershipView>,
) -> int
    decreases ms.len(),
{
    if ms.len() == 0 {
        0
    } else if membership_code(obs, preds, ms[0]) != 0 {
        membership_code(obs, preds, ms[0])
    } else {
        attachment_code(obs, preds, ms.drop_first())
    }
}

/// The field reported for an attachment code.
pub open spec fn attachment_field(code: int) -> Seq<char> {
    if code == 3 {
        "index_expression_semantics_completeness"@
    } else if code == 4 {
        "index_partition_definition_expression_whole_row"@
    } else if code == 5 {
        "index_partition_definition_expression"@
    } else if code == 6 {
        "index_partition_definition_predicate_whole_row"@
    } else {
        "index_partition_definition_predicate"@
    }
}

fn lookup_expression<'a>(
    obs: &'a [IndexExpressionSemanticsObservation],
    index: &IndexPartitionCoordinate,
    key_position: u32,
) -> (r: Option<&'a CanonicalExpression>)
    ensures
        match r {
            Some(e) => expression_at(expression_views(obs@), index@, key_position) == Some(*e),
            None => expression_at(expression_views(obs@), index@, key_position) is None,
        },
{
    let ghost ov = expression_views(obs@);
    let mut i: usize = 0;
    assert(ov.skip(0) =~= ov);
    while i < obs.len()
        invariant
            i <= obs@.len(),
            ov == expression_views(obs@),
            expression_at(ov, index@, key_position) == expression_at(ov.skip(i as int), index@, key_position),
        decreases obs@.len() - i,
    {
        assert(ov.skip(i as int)[0] == obs@[i as int]@);
        assert(ov.skip(i as int).drop_first() =~= ov.skip(i + 1));
        if obs[i].index().same_as(index) && obs[i].key_position() == key_position {
            return Some(obs[i].expression());
        }
        i = i + 1;
    }
    None
}

fn lookup_predicate<'a>(obs: &'a [IndexPredicateSemanticsObservation], index: &IndexPartitionCoordinate) -> (r: Option<
    &'a CanonicalExpression,
>)
    ensures
        match r {
            Some(e) => predicate_at(predicate_views(obs@), index@) == Some(*e),
            None => predicate_at(predicate_views(obs@), index@) is None,
        },
{
    let ghost ov = predicate_views(obs@);
    let mut i: usize = 0;
    assert(ov.skip(0) =~= ov);
    while i < obs.len()
        invariant
            i <= obs@.len(),
            ov == predicate_views(obs@),
            predicate_at(ov, index@) == predicate_at(ov.skip(i as int), index@),
        decreases obs@.len() - i,
    {
        assert(ov.skip(i as int)[0] == obs@[i as int]@);
        assert(ov.skip(i as int).drop_first() =~= ov.skip(i + 1));
        if obs[i].index().same_as(index) {
            return Some(obs[i].predicate());
        }
        i = i + 1;
    }
    None
}

fn check_child_expressions(
    obs: &[IndexExpressionSemanticsObservation],
    child_index: &IndexPartitionCoordinate,
    parent: &IndexPartitionCoordinate,
) -> (r: Result<(), ObservationError>)
    ensures
        r is Ok <==> child_expressions_code(expression_views(obs@), expression_views(obs@), child_index@, parent@) == 0,
        r is Err ==> fails_with_text(
            r,
            attachment_field(child_expressions_code(expression_views(obs@), expression_views(obs@), child_index@, parent@)),
        ),
{
    let ghost ov = expression_views(obs@);
    let mut i: usize = 0;
    assert(ov.skip(0) =~= ov);
    while i < obs.len()
        invariant
            i <= obs@.len(),
            ov == expression_views(obs@),
            child_expressions_code(ov, ov, child_index@, parent@) == child_expressions_code(
                ov,
                ov.skip(i as int),
                child_index@,
                parent@,
            ),
        decreases obs@.len() - i,
    {
        let observation = &obs[i];
        assert(ov.skip(i as int)[0] == observation@);
        assert(ov.skip(i as int).drop_first() =~= ov.skip(i + 1));
        if observation.index().same_as(child_index) {
            let child_expression = observation.expression();
            match lookup_expression(obs, parent, observation.key_position()) {
                None => {
                    return Err(invalid("index_expression_semantics_completeness"));
                },
                Some(parent_expression) => {
                    if child_expression.contains_whole_row() {
                        return Err(invalid("index_partition_definition_expression_whole_row"));
                    }
                    if !same_expression(child_expression, parent_expression) {
                        return Err(invalid("index_partition_definition_expression"));
                    }
                },
            }
        }
        i = i + 1;
    }
    Ok(())
}

fn same_optional_expression(a: Option<&CanonicalExpression>, b: Option<&CanonicalExpression>) -> (r: bool)
    ensures
        r == optional_expr_equal(
            match a {
                Some(x) => Some(*x),
                None => None,
            },
            match b {
                Some(y) => Some(*y),
                None => None,
            },
        ),
{
    match (a, b) {
        (None, None) => true,
        (Some(x), Some(y)) => same_expression(x, y),
        _ => false,
    }
}

/// Requires every directly attached child index to repeat its parent's expression keys and
/// predicate, and refuses child trees that refer to the whole row.
pub fn validate_attached_expression_equivalence(
    partition: &IndexPartitionEvidence,
    expressions: &[IndexExpressionSemanticsObservation],
    predicates: &[IndexPredicateSemanticsObservation],
) -> (r: Result<(), ObservationError>)
    ensures
        r is Ok <==> attachment_code(expression_views(expressions@), predicate_views(predicates@), partition.membership_views()) == 0,
        r is Err ==> fails_with_text(
            r,
            attachment_field(attachment_code(expression_views(expressions@), predicate_views(predicates@), partition.membership_views())),
        ),
{
    let ghost ov = expression_views(expressions@);
    let ghost pv = predicate_views(predicates@);
    let ghost ms = partition.membership_views();
    let memberships = partition.memberships();
    let mut m: usize = 0;
    assert(ms.skip(0) =~= ms);
    while m < memberships.len()
        invariant
            m <= memberships@.len(),
            ms == partition.membership_views(),
            ms == memberships@.map_values(|x: IndexPartitionMembership| x@),
            ov == expression_views(expressions@),
            pv == predicate_views(predicates@),
            attachment_code(ov, pv, ms) == attachment_code(ov, pv, ms.skip(m as int)),
        decreases memberships@.len() - m,
    {
        let membership = &memberships[m];
        assert(ms.skip(m as int)[0] == membership@);
        assert(ms.skip(m as int).drop_first() =~= ms.skip(m + 1));
        match membership.parent_index() {
            None => {},
            Some(parent) => {
                let checked = check_child_expressions(expressions, membership.coordinate(), parent);
                if checked.is_err() {
                    return checked;
                }
                let child_predicate = lookup_predicate(predicates, membership.coordinate());
                let parent_predicate = lookup_predicate(predicates, parent);
                match child_predicate {
                    Some(p) => {
                        if p.contains_whole_row() {
                            return Err(invalid("index_partition_definition_predicate_whole_row"));
                        }
                    },
                    None => {},
                }
                if !same_optional_expression(child_predicate, parent_predicate) {
                    return Err(invalid("index_partition_definition_predicate"));
                }
            },
        }
        m = m + 1;
    }
    Ok(())
}

} // verus!

verus! {

/// Domain separator of the expression-semantics digest.
pub const EXPRESSION_SEMANTICS_DIGEST_DOMAIN: &'static str =
    "conceptweave.postgres_schema_snapshot.v3.relation_partition.index_partition.operator_family.exclusion.expression_semantics.v1";

/// Revision of the modeled PostgreSQL equality semantics.
pub const EXPRESSION_SEMANTICS_SCHEMA_REVISION: &'static str = "postgresql-18-equal-v1";

/// Framing of one expression observation: index, key position and tree.
pub open spec fn frame_expression_observation(o: ExpressionObservationView) -> Seq<u8> {
    frame_index(o.index) + frame_u32(o.key_position) + frame_expr(o.expression)
}

/// Framing of a sequence of expression observations, in order.
pub open spec fn frame_expression_observations(s: Seq<ExpressionObservationView>) -> Seq<u8>
    decreases s.len(),
{
    if s.len() == 0 {
        Seq::empty()
    } else {
        frame_expression_observations(s.drop_last()) + frame_expression_observation(s.last())
    }
}

/// Framing of one predicate observation: index and tree.
pub open spec fn frame_predicate_observation(o: PredicateObservationView) -> Seq<u8> {
    frame_index(o.index) + frame_expr(o.predicate)
}

/// Framing of a sequence of predicate observations, in order.
pub open spec fn frame_predicate_observations(s: Seq<PredicateObservationView>) -> Seq<u8>
    decreases s.len(),
{
    if s.len() == 0 {
        Seq::empty()
    } else {
        frame_predicate_observations(s.drop_last()) + frame_predicate_observation(s.last())
    }
}

/// The preimage of the expression-semantics digest.
pub open spec fn expression_semantics_preimage(
    predecessor_digest: Seq<char>,
    expressions: Seq<ExpressionObservationView>,
    predicates: Seq<PredicateObservationView>,
) -> Seq<u8> {
    encode_utf8(EXPRESSION_SEMANTICS_DIGEST_DOMAIN@) + frame_str(EXPRESSION_SEMANTICS_SCHEMA_REVISION@) + frame_str(
        predecessor_digest,
    ) + frame_len(expressions.len()) + frame_expression_observations(expressions) + frame_len(predicates.len())
        + frame_predicate_observations(predicates)
}

fn compute_expression_semantics_digest(
    predecessor_digest: &str,
    expressions: &[IndexExpressionSemanticsObservation],
    predicates: &[IndexPredicateSemanticsObservation],
) -> (d: String)
    ensures
        d@ == digest_text(
            expression_semantics_preimage(predecessor_digest@, expression_views(expressions@), predicate_views(predicates@)),
        ),
{
    let ghost ev = expression_views(expressions@);
    let ghost pv = predicate_views(predicates@);
    let mut out: Vec<u8> = Vec::new();
    put_raw(&mut out, EXPRESSION_SEMANTICS_DIGEST_DOMAIN.as_bytes());
    put_str(&mut out, EXPRESSION_SEMANTICS_SCHEMA_REVISION);
    put_str(&mut out, predecessor_digest);
    put_len(&mut out, expressions.len());
    let ghost header = out@;
    let mut i: usize = 0;
    while i < expressions.len()
        invariant
            i <= expressions@.len(),
            ev == expression_views(expressions@),
            out@ == header + frame_expression_observations(ev.subrange(0, i as int)),
        decreases expressions@.len() - i,
    {
        let o = &expressions[i];
        put_index(&mut out, o.index());
        put_u32(&mut out, o.key_position());
        put_expression(&mut out, o.expression());
        proof {
            let next = ev.subrange(0, i + 1);
            assert(next.drop_last() =~= ev.subrange(0, i as int));
            assert(next.last() == o@);
            assert(out@ =~= header + frame_expression_observations(next));
        }
        i = i + 1;
    }
    proof {
        assert(ev.subrange(0, expressions@.len() as int) =~= ev);
    }
    put_len(&mut out, predicates.len());
    let ghost middle = out@;
    let mut j: usize = 0;
    while j < predicates.len()
        invariant
            j <= predicates@.len(),
            pv == predicate_views(predicates@),
            out@ == middle + frame_predicate_observations(pv.subrange(0, j as int)),
        decreases predicates@.len() - j,
    {
        let o = &predicates[j];
        put_index(&mut out, o.index());
        put_expression(&mut out, o.predicate());
        proof {
            let next = pv.subrange(0, j + 1);
            assert(next.drop_last() =~= pv.subrange(0, j as int));
            assert(next.last() == o@);
            assert(out@ =~= middle + frame_predicate_observations(next));
        }
        j = j + 1;
    }
    proof {
        assert(pv.subrange(0, predicates@.len() as int) =~= pv);
        assert(out@ =~= expression_semantics_preimage(predecessor_digest@, ev, pv));
    }
    finish_digest(&out)
}

/// The field reported when expression semantics are refused, or `None` when they are accepted:
/// expression observations first, then predicate observations, then attached-index equivalence
/// over both in canonical order.
pub open spec fn expression_semantics_error(
    rels: Seq<BaseRelationView>,
    ms: Seq<MembershipView>,
    expressions: Seq<IndexExpressionSemanticsObservation>,
    predicates: Seq<IndexPredicateSemanticsObservation>,
) -> Option<Seq<char>> {
    if expression_observations_error(rels, expressions) is Some {
        expression_observations_error(rels, expressions)
    } else if predicate_observations_error(rels, predicates) is Some {
        predicate_observations_error(rels, predicates)
    } else if attachment_code(
        expression_views(sorted_by_key(expressions)),
        predicate_views(sorted_by_key(predicates)),
        ms,
    ) != 0 {
        Some(
            attachment_field(
                attachment_code(expression_views(sorted_by_key(expressions)), predicate_views(sorted_by_key(predicates)), ms),
            ),
        )
    } else {
        None
    }
}

/// The field reported when the exclusion semantics cannot be rebound.
pub const EXPRESSION_BINDING_FIELD: &'static str = "index_expression_semantics_predecessor_binding";

/// Complete canonical expression/predicate evidence layered over issued exclusion semantics.
///
/// Every expression key and every partial-index predicate that the base snapshot records has
/// exactly one observation; column references bind to the owning relation; each directly attached
/// child index repeats its parent's trees and never refers to the whole row. The digest frames the
/// issued exclusion-semantics digest under a new domain separator.
#[derive(Debug, PartialEq, Eq)]
pub struct IndexExpressionSemanticsSnapshot {
    source_connection_key: String,
    connection_policy_binding: String,
    snapshot_digest: String,
    extractor_revision: String,
    observed_at_utc: String,
    expression_observations: Vec<IndexExpressionSemanticsObservation>,
    predicate_observations: Vec<IndexPredicateSemanticsObservation>,
}

impl IndexExpressionSemanticsSnapshot {
    /// The provenance of this snapshot, with its own digest.
    pub closed spec fn lineage(&self) -> LineageView {
        LineageView {
            source_connection_key: self.source_connection_key@,
            connection_policy_binding: self.connection_policy_binding@,
            snapshot_digest: self.snapshot_digest@,
            extractor_revision: self.extractor_revision@,
            observed_at_utc: self.observed_at_utc@,
        }
    }

    /// The expression observations, in index and key order.
    pub closed spec fn expression_views(&self) -> Seq<ExpressionObservationView> {
        expression_views(self.expression_observations@)
    }

    /// The expression observations held, in index and key order.
    pub closed spec fn expression_entries(&self) -> Seq<IndexExpressionSemanticsObservation> {
        self.expression_observations@
    }

    /// The predicate observations held, in index order.
    pub closed spec fn predicate_entries(&self) -> Seq<IndexPredicateSemanticsObservation> {
        self.predicate_observations@
    }

    /// Issued expression evidence holds both observation lists in strict key order.
    #[verifier::type_invariant]
    closed spec fn entries_sorted(self) -> bool {
        strictly_sorted(self.expression_observations@) && strictly_sorted(self.predicate_observations@)
    }

    /// The views of the snapshot are the views of its entries.
    pub proof fn lemma_entry_views(&self)
        ensures
            self.expression_views() == expression_views(self.expression_entries()),
            self.predicate_views() == predicate_views(self.predicate_entries()),
    {
    }

    /// Gives up the snapshot for its observation lists.
    pub(crate) fn into_observations(self) -> (r: (Vec<IndexExpressionSemanticsObservation>, Vec<IndexPredicateSemanticsObservation>))
        ensures
            r.0@ == self.expression_entries(),
            r.1@ == self.predicate_entries(),
            strictly_sorted(r.0@),
            strictly_sorted(r.1@),
    {
        proof {
            use_type_invariant(&self);
        }
        let IndexExpressionSemanticsSnapshot { expression_observations, predicate_observations, .. } = self;
        (expression_observations, predicate_observations)
    }

    /// The predicate observations, in index order.
    pub closed spec fn predicate_views(&self) -> Seq<PredicateObservationView> {
        predicate_views(self.predicate_observations@)
    }

    /// Rebinds the exclusion semantics over the issued operator-family evidence, the base
    /// snapshot's relations and the index-partition evidence, and creates complete
    /// expression/predicate semantics over them.
    pub fn new(
        operator_family: &IssuedSnapshot,
        exclusion_snapshot: &IndexExclusionSemanticsSnapshot,
        relations: &[BaseRelation],
        partition: &IndexPartitionEvidence,
        expression_observations: Vec<IndexExpressionSemanticsObservation>,
        predicate_observations: Vec<IndexPredicateSemanticsObservation>,
    ) -> (r: Result<Self, ObservationError>)
        ensures
            ({
                let rels = relations@.map_values(|b: BaseRelation| b@);
                let rebinding = exclusion_rebinding_refusal(
                    rels,
                    partition.membership_views(),
                    operator_family.lineage().snapshot_digest,
                    exclusion_snapshot.entries(),
                    exclusion_snapshot.lineage().snapshot_digest,
                    EXPRESSION_BINDING_FIELD@,
                );
                let error = expression_semantics_error(
                    rels,
                    partition.membership_views(),
                    expression_observations@,
                    predicate_observations@,
                );
                &&& r is Ok <==> rebinding is None && error is None
                &&& rebinding is Some ==> fails_with_text(r, rebinding->0)
                &&& rebinding is None && error is Some ==> fails_with_text(r, error->0)
            }),
            r matches Ok(s) ==> {
                &&& s.expression_views() == expression_views(sorted_by_key(expression_observations@))
                &&& s.predicate_views() == predicate_views(sorted_by_key(predicate_observations@))
                &&& s.lineage() == (LineageView {
                    snapshot_digest: digest_text(
                        expression_semantics_preimage(
                            exclusion_snapshot.lineage().snapshot_digest,
                            s.expression_views(),
                            s.predicate_views(),
                        ),
                    ),
                    ..operator_family.lineage()
                })
            },
    {
        let exclusion = rebind_exclusion_semantics(
            operator_family,
            relations,
            partition,
            exclusion_snapshot,
            EXPRESSION_BINDING_FIELD,
        )?;
        let expressions = canonicalize_expression_observations(relations, expression_observations)?;
        let predicates = canonicalize_predicate_observations(relations, predicate_observations)?;
        validate_attached_expression_equivalence(partition, expressions.as_slice(), predicates.as_slice())?;
        let snapshot_digest = compute_expression_semantics_digest(
            exclusion.snapshot_digest(),
            expressions.as_slice(),
            predicates.as_slice(),
        );
        Ok(IndexExpressionSemanticsSnapshot {
            source_connection_key: exclusion.source_connection_key().to_owned(),
            connection_policy_binding: exclusion.connection_policy_binding().to_owned(),
            snapshot_digest,
            extractor_revision: exclusion.extractor_revision().to_owned(),
            observed_at_utc: exclusion.observed_at_utc().to_owned(),
            expression_observations: expressions,
            predicate_observations: predicates,
        })
    }

    /// Returns the stable source registry key.
    pub fn source_connection_key(&self) -> (s: &str)
        ensures
            s@ == self.lineage().source_connection_key,
    {
        self.source_connection_key.as_str()
    }

    /// Returns the immutable connection-policy binding.
    pub fn connection_policy_binding(&self) -> (s: &str)
        ensures
            s@ == self.lineage().connection_policy_binding,
    {
        self.connection_policy_binding.as_str()
    }

    /// Returns the domain-separated expression-semantics digest.
    pub fn snapshot_digest(&self) -> (s: &str)
        ensures
            s@ == self.lineage().snapshot_digest,
    {
        self.snapshot_digest.as_str()
    }

    /// Returns the exact extractor revision.
    pub fn extractor_revision(&self) -> (s: &str)
        ensures
            s@ == self.lineage().extractor_revision,
    {
        self.extractor_revision.as_str()
    }

    /// Returns the exact canonical observation time.
    pub fn observed_at_utc(&self) -> (s: &str)
        ensures
            s@ == self.lineage().observed_at_utc,
    {
        self.observed_at_utc.as_str()
    }

    /// Returns the expression observations in index and key order.
    pub fn expression_observations(&self) -> (o: &[IndexExpressionSemanticsObservation])
        ensures
            expression_views(o@) == self.expression_views(),
    {
        self.expression_observations.as_slice()
    }

    /// Returns the predicate observations in index order.
    pub fn predicate_observations(&self) -> (o: &[IndexPredicateSemanticsObservation])
        ensures
            predicate_views(o@) == self.predicate_views(),
    {
        self.predicate_observations.as_slice()
    }

    /// Issues provenance for one exact semantic evidence location of this snapshot.
    pub fn source_receipt(&self, location: IndexExpressionSemanticsLocation) -> (r: Result<
        IndexExpressionSemanticsSourceReceipt,
        ObservationError,
    >)
        ensures
            r is Ok <==> location_present(self.expression_views(), self.predicate_views(), location),
            r matches Ok(receipt) ==> receipt.lineage() == self.lineage() && receipt.location_view() == location,
            r matches Err(e) ==> e matches ObservationError::UnknownObservationLocation { location: l } && l@
                == semantics_location_text(location),
    {
        let present = match &location {
            IndexExpressionSemanticsLocation::Expression { index, key_position } => lookup_expression(
                self.expression_observations.as_slice(),
                index,
                *key_position,
            ).is_some(),
            IndexExpressionSemanticsLocation::Predicate { index } => lookup_predicate(
                self.predicate_observations.as_slice(),
                index,
            ).is_some(),
        };
        if !present {
            return Err(ObservationError::UnknownObservationLocation { location: location.canonical_location() });
        }
        Ok(IndexExpressionSemanticsSourceReceipt {
            source_id: self.source_connection_key.clone(),
            connection_policy_binding: self.connection_policy_binding.clone(),
            source_digest: self.snapshot_digest.clone(),
            extractor_revision: self.extractor_revision.clone(),
            observed_at_utc: self.observed_at_utc.clone(),
            location,
        })
    }
}

/// Whether the snapshot holds an observation at `location`.
pub open spec fn location_present(
    expressions: Seq<ExpressionObservationView>,
    predicates: Seq<PredicateObservationView>,
    location: IndexExpressionSemanticsLocation,
) -> bool {
    match location {
        IndexExpressionSemanticsLocation::Expression { index, key_position } => expression_at(
            expressions,
            index@,
            key_position,
        ) is Some,
        IndexExpressionSemanticsLocation::Predicate { index } => predicate_at(predicates, index@) is Some,
    }
}

} // verus!

verus! {

/// The field reported by the relation-`Var` layer when the expression evidence cannot be rebound.
pub const RELATION_VAR_EXPRESSION_FIELD: &'static str = "index_expression_relation_var_expression_predecessor";

/// Why issued expression evidence cannot be rebound, or `None` when it can: the exclusion
/// semantics must be rebound; the expression evidence rebuilt over them (its own refusal) must
/// reach its issued digest, else `binding_field`. Issued expression evidence holds its entries in
/// sorted order.
pub open spec fn expression_rebinding_refusal(
    rels: Seq<BaseRelationView>,
    ms: Seq<MembershipView>,
    family_digest: Seq<char>,
    exclusion: Seq<crate::exclusion::IndexKeyExclusionSemanticsObservation>,
    exclusion_digest: Seq<char>,
    expressions: Seq<IndexExpressionSemanticsObservation>,
    predicates: Seq<IndexPredicateSemanticsObservation>,
    expression_digest: Seq<char>,
    binding_field: Seq<char>,
) -> Option<Seq<char>> {
    let rebinding = exclusion_rebinding_refusal(rels, ms, family_digest, exclusion, exclusion_digest, EXPRESSION_BINDING_FIELD@);
    let error = expression_semantics_error(rels, ms, expressions, predicates);
    if rebinding is Some {
        rebinding
    } else if error is Some {
        error
    } else if digest_text(
        expression_semantics_preimage(exclusion_digest, expression_views(expressions), predicate_views(predicates)),
    ) != expression_digest {
        Some(binding_field)
    } else {
        None
    }
}

/// Rebuilds issued expression evidence from its own observations over the issued operator-family
/// evidence and exclusion semantics, and requires its issued digest.
pub(crate) fn rebind_expression_semantics(
    operator_family: &IssuedSnapshot,
    exclusion_snapshot: &IndexExclusionSemanticsSnapshot,
    relations: &[BaseRelation],
    partition: &IndexPartitionEvidence,
    expression_snapshot: IndexExpressionSemanticsSnapshot,
    binding_field: &'static str,
) -> (r: Result<IndexExpressionSemanticsSnapshot, ObservationError>)
    ensures
        ({
            let refusal = expression_rebinding_refusal(
                relations@.map_values(|b: BaseRelation| b@),
                partition.membership_views(),
                operator_family.lineage().snapshot_digest,
                exclusion_snapshot.entries(),
                exclusion_snapshot.lineage().snapshot_digest,
                expression_snapshot.expression_entries(),
                expression_snapshot.predicate_entries(),
                expression_snapshot.lineage().snapshot_digest,
                binding_field@,
            );
            &&& r is Ok <==> refusal is None
            &&& refusal is Some ==> fails_with_text(r, refusal->0)
        }),
        r matches Ok(s) ==> {
            &&& s.expression_views() == expression_snapshot.expression_views()
            &&& s.predicate_views() == expression_snapshot.predicate_views()
            &&& s.lineage().snapshot_digest == expression_snapshot.lineage().snapshot_digest
        },
{
    proof {
        expression_snapshot.lemma_entry_views();
    }
    let digest = expression_snapshot.snapshot_digest().to_owned();
    let (expressions, predicates) = expression_snapshot.into_observations();
    proof {
        crate::order::lemma_sorted_by_key_is(expressions@, expressions@);
        crate::order::lemma_sorted_by_key_is(predicates@, predicates@);
    }
    let rebuilt = IndexExpressionSemanticsSnapshot::new(operator_family, exclusion_snapshot, relations, partition, expressions, predicates)?;
    if !crate::order::text_eq(rebuilt.snapshot_digest(), digest.as_str()) {
        return Err(invalid(binding_field));
    }
    Ok(rebuilt)
}

} // verus!
