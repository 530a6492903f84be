//! Complete relation-`Var` equality evidence for index expressions and predicates.
//!
//! Every column leaf of every expression key and every partial-index predicate of the issued
//! expression-semantics evidence has exactly one relation-`Var` observation, located by its
//! one-based leaf position. Each observation repeats the leaf's column and binds it to the base
//! snapshot's column type, to the issued type modifier and to the captured column collation, and a
//! directly attached child index repeats its parent's leaves exactly.

use vstd::prelude::*;

use crate::catalog::{
    owning_relation, find_owning_relation, BaseColumn, BaseColumnCollation, BaseColumnView, BaseRelation,
    BaseRelationView, ColumnCoordinateView, ColumnFactView, ColumnTypeModifier, IndexCoordinateView,
    IndexPartitionCoordinate, IndexPartitionEvidence, IndexPartitionMembership, IssuedSnapshot, IssuedTypeModifiers, LineageView,
    MembershipView, QualifiedCollationName, QualifiedNameView,
};
use crate::digest::{
    digest_text, finish_digest, frame_bool, frame_i32, frame_len, frame_str, frame_u32, put_bool, put_i32, put_len, put_str,
    put_tag, put_u32,
};
use crate::error::{fails_with, fails_with_text, invalid, ObservationError};
use crate::expression_semantics::{collect_expression_columns, expr_columns, expr_has_whole_row, string_views};
use crate::exclusion::IndexExclusionSemanticsSnapshot;
use crate::expression_semantics_snapshot::{
    expression_rebinding_refusal, rebind_expression_semantics, RELATION_VAR_EXPRESSION_FIELD, expression_views, predicate_views, ExpressionObservationView, IndexExpressionSemanticsObservation,
    IndexExpressionSemanticsSnapshot, IndexPredicateSemanticsObservation, PredicateObservationView,
};
use crate::expression_var::{
    relation_var_location_text, IndexExpressionRelationVarLocation, IndexExpressionRelationVarObservation,
    RelationVarLocationView, RelationVarView,
};
use crate::expression_relation_var_schema::same_provenance;
use crate::order::{compare_text, same_elements, sort_by_key, sorted_by_key, strictly_sorted, text_eq, text_lt, KeyOrder, SortKey};

verus! {

/// Why relation-`Var` evidence is refused.
pub enum RelationVarRefusal {
    /// The named observation field is invalid.
    Field(Seq<char>),
    /// A one-based position was zero.
    OrdinalPosition,
}

/// Holds when `result` failed exactly as `refusal` says.
pub open spec fn relation_var_refused_as<T>(result: Result<T, ObservationError>, refusal: RelationVarRefusal) -> bool {
    match refusal {
        RelationVarRefusal::Field(name) => fails_with_text(result, name),
        RelationVarRefusal::OrdinalPosition => result matches Err(ObservationError::InvalidOrdinalPosition),
    }
}

/// The location of the leaf at zero-based `offset` of an expression key (`Some`) or predicate.
pub open spec fn leaf_location(index: IndexCoordinateView, key_position: Option<u32>, offset: int) -> RelationVarLocationView {
    RelationVarLocationView { index, key_position, leaf_position: (offset + 1) as u32 }
}

/// The expected (location text, column) entries of one expression key or predicate.
pub open spec fn leaf_entries(index: IndexCoordinateView, key_position: Option<u32>, columns: Seq<Seq<char>>) -> Seq<
    (Seq<char>, Seq<char>),
> {
    Seq::new(columns.len(), |i: int| (relation_var_location_text(leaf_location(index, key_position, i)), columns[i]))
}

/// The largest one-based leaf position.
pub open spec fn max_leaf_count() -> int {
    0xffff_ffff
}

/// 1 when the expression has a whole-row `Var`, 2 when it has column leaves but a zero key
/// position, 3 when it has more leaves than one-based `u32` positions, 0 otherwise.
pub open spec fn expression_leaf_code(o: ExpressionObservationView) -> int {
    if expr_has_whole_row(o.expression) {
        1
    } else if expr_columns(o.expression).len() > 0 && o.key_position == 0 {
        2
    } else if expr_columns(o.expression).len() > max_leaf_count() {
        3
    } else {
        0
    }
}

/// 1 when the predicate has a whole-row `Var`, 3 when it has more leaves than one-based `u32`
/// positions, 0 otherwise.
pub open spec fn predicate_leaf_code(o: PredicateObservationView) -> int {
    if expr_has_whole_row(o.predicate) {
        1
    } else if expr_columns(o.predicate).len() > max_leaf_count() {
        3
    } else {
        0
    }
}

/// The first non-zero leaf code over the expression keys, in order.
pub open spec fn first_expression_leaf_code(s: Seq<ExpressionObservationView>) -> int
    decreases s.len(),
{
    if s.len() == 0 {
        0
    } else if expression_leaf_code(s[0]) != 0 {
        expression_leaf_code(s[0])
    } else {
        first_expression_leaf_code(s.drop_first())
    }
}

/// The first non-zero leaf code over the predicates, in order.
pub open spec fn first_predicate_leaf_code(s: Seq<PredicateObservationView>) -> int
    decreases s.len(),
{
    if s.len() == 0 {
        0
    } else if predicate_leaf_code(s[0]) != 0 {
        predicate_leaf_code(s[0])
    } else {
        first_predicate_leaf_code(s.drop_first())
    }
}

/// The refusal for a non-zero leaf code.
pub open spec fn leaf_refusal(code: int) -> RelationVarRefusal {
    if code == 1 {
        RelationVarRefusal::Field("index_expression_relation_var_whole_row"@)
    } else if code == 2 {
        RelationVarRefusal::OrdinalPosition
    } else {
        RelationVarRefusal::Field("index_expression_relation_var_leaf_position"@)
    }
}

/// The expected entries of the expression keys, in order.
pub open spec fn expression_entries(s: Seq<ExpressionObservationView>) -> Seq<(Seq<char>, Seq<char>)>
    decreases s.len(),
{
    if s.len() == 0 {
        Seq::empty()
    } else {
        expression_entries(s.drop_last()) + leaf_entries(
            s.last().index,
            Some(s.last().key_position),
            expr_columns(s.last().expression),
        )
    }
}

/// The expected entries of the predicates, in order.
pub open spec fn predicate_entries(s: Seq<PredicateObservationView>) -> Seq<(Seq<char>, Seq<char>)>
    decreases s.len(),
{
    if s.len() == 0 {
        Seq::empty()
    } else {
        predicate_entries(s.drop_last()) + leaf_entries(s.last().index, None, expr_columns(s.last().predicate))
    }
}

/// The texts of (text, column) pairs of strings.
pub open spec fn entry_views(v: Seq<(String, String)>) -> Seq<(Seq<char>, Seq<char>)> {
    v.map_values(|p: (String, String)| (p.0@, p.1@))
}

fn push_leaf_entries(
    out: &mut Vec<(String, String)>,
    index: &IndexPartitionCoordinate,
    key_position: Option<u32>,
    columns: &Vec<String>,
) -> (r: Result<(), ObservationError>)
    requires
        key_position matches Some(k) ==> (k != 0 || columns@.len() == 0),
    ensures
        r is Ok <==> columns@.len() <= max_leaf_count(),
        r is Err ==> fails_with(r, "index_expression_relation_var_leaf_position"),
        r is Ok ==> entry_views(final(out)@) == entry_views(old(out)@) + leaf_entries(
            index@,
            key_position,
            string_views(columns@),
        ),
{
    let ghost start = entry_views(out@);
    let ghost cols = string_views(columns@);
    let mut offset: usize = 0;
    while offset < columns.len()
        invariant
            offset <= columns@.len(),
            cols == string_views(columns@),
            key_position matches Some(k) ==> (k != 0 || columns@.len() == 0),
            offset <= max_leaf_count(),
            entry_views(out@) == start + leaf_entries(index@, key_position, cols).subrange(0, offset as int),
        decreases columns@.len() - offset,
    {
        if offset >= 0xffff_ffffusize {
            return Err(invalid("index_expression_relation_var_leaf_position"));
        }
        let leaf: u32 = (offset + 1) as u32;
        let location = match key_position {
            Some(k) => IndexExpressionRelationVarLocation::expression(index.clone(), k, leaf),
            None => IndexExpressionRelationVarLocation::predicate(index.clone(), leaf),
        };
        let location = match location {
            Ok(l) => l,
            Err(e) => {
                return Err(e);
            },
        };
        let text = location.canonical_location();
        let column = columns[offset].clone();
        let ghost before = out@;
        out.push((text, column));
        proof {
            assert(location@ == leaf_location(index@, key_position, offset as int));
            let entries = leaf_entries(index@, key_position, cols);
            assert(entries[offset as int] == (text@, column@));
            assert(entry_views(out@) =~= entry_views(before).push((text@, column@)));
            assert(entries.subrange(0, offset + 1) =~= entries.subrange(0, offset as int).push(entries[offset as int]));
        }
        offset = offset + 1;
    }
    proof {
        assert(leaf_entries(index@, key_position, cols).subrange(0, columns@.len() as int) =~= leaf_entries(
            index@,
            key_position,
            cols,
        ));
    }
    Ok(())
}

} // verus!

verus! {

/// The refusal raised while collecting expected leaves, or `None`: expression keys first, then
/// predicates, each in order.
pub open spec fn expected_leaf_refusal(exprs: Seq<ExpressionObservationView>, preds: Seq<PredicateObservationView>) -> Option<
    RelationVarRefusal,
> {
    if first_expression_leaf_code(exprs) != 0 {
        Some(leaf_refusal(first_expression_leaf_code(exprs)))
    } else if first_predicate_leaf_code(preds) != 0 {
        Some(leaf_refusal(first_predicate_leaf_code(preds)))
    } else {
        None
    }
}

/// Every expected (location text, column) entry: expression keys in order, then predicates.
pub open spec fn expected_entries(exprs: Seq<ExpressionObservationView>, preds: Seq<PredicateObservationView>) -> Seq<
    (Seq<char>, Seq<char>),
> {
    expression_entries(exprs) + predicate_entries(preds)
}

fn collect_expression_entries(out: &mut Vec<(String, String)>, obs: &[IndexExpressionSemanticsObservation]) -> (r: Result<
    (),
    ObservationError,
>)
    ensures
        ({
            let code = first_expression_leaf_code(expression_views(obs@));
            &&& r is Ok <==> code == 0
            &&& r is Err ==> relation_var_refused_as(r, leaf_refusal(code))
            &&& r is Ok ==> entry_views(final(out)@) == entry_views(old(out)@) + expression_entries(expression_views(obs@))
        }),
{
    let ghost views = expression_views(obs@);
    let ghost start = entry_views(out@);
    let mut i: usize = 0;
    assert(views.skip(0) =~= views);
    assert(views.subrange(0, 0) =~= Seq::<ExpressionObservationView>::empty());
    while i < obs.len()
        invariant
            i <= obs@.len(),
            views == expression_views(obs@),
            first_expression_leaf_code(views) == first_expression_leaf_code(views.skip(i as int)),
            entry_views(out@) == start + expression_entries(views.subrange(0, i as int)),
        decreases obs@.len() - i,
    {
        assert(views.skip(i as int)[0] == obs@[i as int]@);
        assert(views.skip(i as int).drop_first() =~= views.skip(i + 1));
        let o = &obs[i];
        if o.expression().contains_whole_row() {
            return Err(invalid("index_expression_relation_var_whole_row"));
        }
        let mut columns: Vec<String> = Vec::new();
        collect_expression_columns(o.expression(), &mut columns);
        assert(string_views(columns@) =~= expr_columns(o@.expression));
        if columns.len() > 0 && o.key_position() == 0 {
            return Err(ObservationError::InvalidOrdinalPosition);
        }
        let ghost before = entry_views(out@);
        let pushed = push_leaf_entries(out, o.index(), Some(o.key_position()), &columns);
        if let Err(e) = pushed {
            return Err(e);
        }
        proof {
            let next = views.subrange(0, i + 1);
            assert(next.drop_last() =~= views.subrange(0, i as int));
            assert(next.last() == o@);
            vstd::seq_lib::lemma_concat_associative(
                start,
                expression_entries(views.subrange(0, i as int)),
                leaf_entries(o@.index, Some(o@.key_position), expr_columns(o@.expression)),
            );
        }
        i = i + 1;
    }
    proof {
        assert(views.subrange(0, obs@.len() as int) =~= views);
    }
    Ok(())
}

fn collect_predicate_entries(out: &mut Vec<(String, String)>, obs: &[IndexPredicateSemanticsObservation]) -> (r: Result<
    (),
    ObservationError,
>)
    ensures
        ({
            let code = first_predicate_leaf_code(predicate_views(obs@));
            &&& r is Ok <==> code == 0
            &&& r is Err ==> relation_var_refused_as(r, leaf_refusal(code))
            &&& r is Ok ==> entry_views(final(out)@) == entry_views(old(out)@) + predicate_entries(predicate_views(obs@))
        }),
{
    let ghost views = predicate_views(obs@);
    let ghost start = entry_views(out@);
    let mut i: usize = 0;
    assert(views.skip(0) =~= views);
    assert(views.subrange(0, 0) =~= Seq::<PredicateObservationView>::empty());
    while i < obs.len()
        invariant
            i <= obs@.len(),
            views == predicate_views(obs@),
            first_predicate_leaf_code(views) == first_predicate_leaf_code(views.skip(i as int)),
            entry_views(out@) == start + predicate_entries(views.subrange(0, i as int)),
        decreases obs@.len() - i,
    {
        assert(views.skip(i as int)[0] == obs@[i as int]@);
        assert(views.skip(i as int).drop_first() =~= views.skip(i + 1));
        let o = &obs[i];
        if o.predicate().contains_whole_row() {
            return Err(invalid("index_expression_relation_var_whole_row"));
        }
        let mut columns: Vec<String> = Vec::new();
        collect_expression_columns(o.predicate(), &mut columns);
        assert(string_views(columns@) =~= expr_columns(o@.predicate));
        let pushed = push_leaf_entries(out, o.index(), None, &columns);
        if let Err(e) = pushed {
            return Err(e);
        }
        proof {
            let next = views.subrange(0, i + 1);
            assert(next.drop_last() =~= views.subrange(0, i as int));
            assert(next.last() == o@);
            vstd::seq_lib::lemma_concat_associative(
                start,
                predicate_entries(views.subrange(0, i as int)),
                leaf_entries(o@.index, None, expr_columns(o@.predicate)),
            );
        }
        i = i + 1;
    }
    proof {
        assert(views.subrange(0, obs@.len() as int) =~= views);
    }
    Ok(())
}

/// Collects the expected (location text, column) entries of every expression key and predicate.
fn expected_var_leaves(expression_snapshot: &IndexExpressionSemanticsSnapshot) -> (r: Result<Vec<(String, String)>, ObservationError>)
    ensures
        ({
            let refusal = expected_leaf_refusal(expression_snapshot.expression_views(), expression_snapshot.predicate_views());
            &&& r is Ok <==> refusal is None
            &&& refusal matches Some(f) ==> relation_var_refused_as(r, f)
            &&& r matches Ok(v) ==> entry_views(v@) == expected_entries(
                expression_snapshot.expression_views(),
                expression_snapshot.predicate_views(),
            )
        }),
{
    let mut out: Vec<(String, String)> = Vec::new();
    assert(entry_views(out@) =~= Seq::<(Seq<char>, Seq<char>)>::empty());
    let exprs = expression_snapshot.expression_observations();
    collect_expression_entries(&mut out, exprs)?;
    let preds = expression_snapshot.predicate_observations();
    collect_predicate_entries(&mut out, preds)?;
    proof {
        assert(Seq::<(Seq<char>, Seq<char>)>::empty() + expression_entries(expression_snapshot.expression_views())
            =~= expression_entries(expression_snapshot.expression_views()));
    }
    Ok(out)
}

} // verus!

verus! {

/// The location text of a relation-`Var` observation.
pub open spec fn var_text(v: RelationVarView) -> Seq<char> {
    relation_var_location_text(v.location)
}

/// The values of relation-`Var` observations, in order.
pub open spec fn var_views(s: Seq<IndexExpressionRelationVarObservation>) -> Seq<RelationVarView> {
    s.map_values(|o: IndexExpressionRelationVarObservation| o@)
}

/// The location texts of relation-`Var` values, in order.
pub open spec fn var_texts(s: Seq<RelationVarView>) -> Seq<Seq<char>> {
    s.map_values(|v: RelationVarView| var_text(v))
}

/// The location texts of expected entries, in order.
pub open spec fn entry_texts(e: Seq<(Seq<char>, Seq<char>)>) -> Seq<Seq<char>> {
    e.map_values(|p: (Seq<char>, Seq<char>)| p.0)
}

impl SortKey for IndexExpressionRelationVarObservation {
    open spec fn key_lt(self, other: Self) -> bool {
        text_lt(var_text(self@), var_text(other@))
    }

    proof fn lemma_key_lt_transitive(a: Self, b: Self, c: Self) {
        crate::order::lemma_text_lt_transitive(var_text(a@), var_text(b@), var_text(c@));
    }

    proof fn lemma_key_lt_irreflexive(a: Self) {
        crate::order::lemma_text_lt_irreflexive(var_text(a@));
    }

    fn compare_key(&self, other: &Self) -> (o: KeyOrder) {
        let a = self.location().canonical_location();
        let b = other.location().canonical_location();
        compare_text(a.as_str(), b.as_str())
    }
}

/// Two different observations share a location.
pub open spec fn duplicate_location(s: Seq<RelationVarView>) -> bool {
    exists|i: int, j: int| 0 <= i < j < s.len() && var_text(#[trigger] s[i]) == var_text(#[trigger] s[j])
}

proof fn lemma_location_collision(s: Seq<IndexExpressionRelationVarObservation>)
    ensures
        crate::order::has_key_collision(s) <==> duplicate_location(var_views(s)),
{
    let v = var_views(s);
    if crate::order::has_key_collision(s) {
        let (i, j) = choose|i: int, j: int| 0 <= i < j < s.len() && crate::order::same_key(#[trigger] s[i], #[trigger] s[j]);
        assert(v[i] == s[i]@ && v[j] == s[j]@);
        if var_text(v[i]) != var_text(v[j]) {
            crate::order::lemma_text_lt_total(var_text(v[i]), var_text(v[j]));
        }
    }
    if duplicate_location(v) {
        let (i, j) = choose|i: int, j: int| 0 <= i < j < v.len() && var_text(#[trigger] v[i]) == var_text(#[trigger] v[j]);
        crate::order::lemma_text_lt_irreflexive(var_text(v[i]));
        assert(crate::order::same_key(s[i], s[j]));
    }
}

/// The observed locations are exactly the expected ones.
pub open spec fn locations_complete(exp: Seq<(Seq<char>, Seq<char>)>, obs: Seq<RelationVarView>) -> bool {
    &&& forall|i: int| 0 <= i < exp.len() ==> var_texts(obs).contains(#[trigger] exp[i].0)
    &&& forall|j: int| 0 <= j < obs.len() ==> entry_texts(exp).contains(var_text(#[trigger] obs[j]))
}

fn texts_contain(v: &Vec<String>, t: &str) -> (b: bool)
    ensures
        b == string_views(v@).contains(t@),
{
    let ghost views = string_views(v@);
    let mut i: usize = 0;
    while i < v.len()
        invariant
            i <= v@.len(),
            views == string_views(v@),
            forall|k: int| 0 <= k < i ==> views[k] != t@,
        decreases v@.len() - i,
    {
        if text_eq(v[i].as_str(), t) {
            assert(views[i as int] == t@);
            return true;
        }
        i = i + 1;
    }
    false
}

fn observation_texts(obs: &[IndexExpressionRelationVarObservation]) -> (v: Vec<String>)
    ensures
        string_views(v@) == var_texts(var_views(obs@)),
{
    let mut v: Vec<String> = Vec::new();
    let mut i: usize = 0;
    while i < obs.len()
        invariant
            i <= obs@.len(),
            string_views(v@) == var_texts(var_views(obs@)).subrange(0, i as int),
        decreases obs@.len() - i,
    {
        let ghost before = v@;
        let text = obs[i].location().canonical_location();
        assert(text@ == var_texts(var_views(obs@))[i as int]);
        v.push(text);
        proof {
            assert(string_views(v@) =~= string_views(before).push(text@));
            assert(string_views(v@) =~= var_texts(var_views(obs@)).subrange(0, i + 1));
        }
        i = i + 1;
    }
    proof {
        assert(var_texts(var_views(obs@)).subrange(0, obs@.len() as int) =~= var_texts(var_views(obs@)));
    }
    v
}

fn expected_texts(expected: &Vec<(String, String)>) -> (v: Vec<String>)
    ensures
        string_views(v@) == entry_texts(entry_views(expected@)),
{
    let mut v: Vec<String> = Vec::new();
    let mut i: usize = 0;
    while i < expected.len()
        invariant
            i <= expected@.len(),
            string_views(v@) == entry_texts(entry_views(expected@)).subrange(0, i as int),
        decreases expected@.len() - i,
    {
        let ghost before = v@;
        let text = expected[i].0.clone();
        assert(text@ == entry_texts(entry_views(expected@))[i as int]);
        v.push(text);
        proof {
            assert(string_views(v@) =~= string_views(before).push(text@));
            assert(string_views(v@) =~= entry_texts(entry_views(expected@)).subrange(0, i + 1));
        }
        i = i + 1;
    }
    proof {
        assert(entry_texts(entry_views(expected@)).subrange(0, expected@.len() as int) =~= entry_texts(
            entry_views(expected@),
        ));
    }
    v
}

fn locations_are_complete(expected: &Vec<(String, String)>, obs: &[IndexExpressionRelationVarObservation]) -> (b: bool)
    ensures
        b == locations_complete(entry_views(expected@), var_views(obs@)),
{
    let ghost exp = entry_views(expected@);
    let ghost views = var_views(obs@);
    let observed = observation_texts(obs);
    let wanted = expected_texts(expected);
    let mut i: usize = 0;
    while i < expected.len()
        invariant
            i <= expected@.len(),
            exp == entry_views(expected@),
            views == var_views(obs@),
            string_views(observed@) == var_texts(views),
            forall|k: int| 0 <= k < i ==> var_texts(views).contains(#[trigger] exp[k].0),
        decreases expected@.len() - i,
    {
        assert(exp[i as int].0 == expected@[i as int].0@);
        if !texts_contain(&observed, expected[i].0.as_str()) {
            return false;
        }
        i = i + 1;
    }
    let mut j: usize = 0;
    while j < obs.len()
        invariant
            j <= obs@.len(),
            exp == entry_views(expected@),
            views == var_views(obs@),
            string_views(wanted@) == entry_texts(exp),
            forall|k: int| 0 <= k < expected@.len() ==> var_texts(views).contains(#[trigger] exp[k].0),
            forall|k: int| 0 <= k < j ==> entry_texts(exp).contains(var_text(#[trigger] views[k])),
        decreases obs@.len() - j,
    {
        let text = obs[j].location().canonical_location();
        assert(text@ == var_text(views[j as int]));
        if !texts_contain(&wanted, text.as_str()) {
            return false;
        }
        j = j + 1;
    }
    true
}

} // verus!

verus! {

/// The column expected at location text `t`: the last expected entry at that text.
pub open spec fn expected_column(exp: Seq<(Seq<char>, Seq<char>)>, t: Seq<char>) -> Option<Seq<char>>
    decreases exp.len(),
{
    if exp.len() == 0 {
        None
    } else if exp.last().0 == t {
        Some(exp.last().1)
    } else {
        expected_column(exp.drop_last(), t)
    }
}

/// The first typed column called `name`.
pub open spec fn column_named(cols: Seq<BaseColumnView>, name: Seq<char>) -> Option<BaseColumnView>
    decreases cols.len(),
{
    if cols.len() == 0 {
        None
    } else if cols[0].column_name == name {
        Some(cols[0])
    } else {
        column_named(cols.drop_first(), name)
    }
}

/// The first recorded fact about column `c`.
pub open spec fn fact_about<F>(facts: Seq<ColumnFactView<F>>, c: ColumnCoordinateView) -> Option<F>
    decreases facts.len(),
{
    if facts.len() == 0 {
        None
    } else if facts[0].column == c {
        Some(facts[0].fact)
    } else {
        fact_about(facts.drop_first(), c)
    }
}

/// The column `name` of the relation that owns `index`.
pub open spec fn var_column(index: IndexCoordinateView, name: Seq<char>) -> ColumnCoordinateView {
    ColumnCoordinateView {
        schema_name: index.schema_name,
        relation_name: index.relation_name,
        relation_kind: index.relation_kind,
        column_name: name,
    }
}

/// How one relation-`Var` observation fails to bind, or 0: 1 no expected leaf at its location,
/// 2 another column than expected or than the owning relation has, 3 no owning relation, 4
/// another type, 5 no issued type modifier, 6 another type modifier, 7 no captured column
/// collation, 8 another collation.
pub open spec fn binding_code(
    exp: Seq<(Seq<char>, Seq<char>)>,
    rels: Seq<BaseRelationView>,
    tms: Seq<ColumnFactView<i32>>,
    colls: Seq<ColumnFactView<Option<QualifiedNameView>>>,
    o: RelationVarView,
) -> int {
    let column = var_column(o.location.index, o.column_name);
    match expected_column(exp, var_text(o)) {
        None => 1,
        Some(c) => if c != o.column_name {
            2
        } else {
            match owning_relation(rels, o.location.index) {
                None => 3,
                Some(r) => match column_named(r.columns, o.column_name) {
                    None => 2,
                    Some(col) => if col.type_binding != o.value_type {
                        4
                    } else {
                        match fact_about(tms, column) {
                            None => 5,
                            Some(m) => if m != o.type_modifier {
                                6
                            } else {
                                match fact_about(colls, column) {
                                    None => 7,
                                    Some(cl) => if cl != o.collation {
                                        8
                                    } else {
                                        0
                                    },
                                }
                            },
                        }
                    },
                },
            }
        },
    }
}

/// The first non-zero binding code over the observations, in order.
pub open spec fn first_binding_code(
    exp: Seq<(Seq<char>, Seq<char>)>,
    rels: Seq<BaseRelationView>,
    tms: Seq<ColumnFactView<i32>>,
    colls: Seq<ColumnFactView<Option<QualifiedNameView>>>,
    s: Seq<RelationVarView>,
) -> int
    decreases s.len(),
{
    if s.len() == 0 {
        0
    } else if binding_code(exp, rels, tms, colls, s[0]) != 0 {
        binding_code(exp, rels, tms, colls, s[0])
    } else {
        first_binding_code(exp, rels, tms, colls, s.drop_first())
    }
}

/// The field reported for a non-zero binding code.
pub open spec fn binding_field(code: int) -> Seq<char> {
    if code == 1 {
        "index_expression_relation_var_coordinate"@
    } else if code == 2 {
        "index_expression_relation_var_column"@
    } else if code == 3 {
        "index_expression_relation_var_owner"@
    } else if code == 4 {
        "index_expression_relation_var_value_type"@
    } else if code == 5 {
        "index_expression_relation_var_type_modifier_evidence"@
    } else if code == 6 {
        "index_expression_relation_var_type_modifier"@
    } else if code == 7 {
        "index_expression_relation_var_column_collation_evidence"@
    } else {
        "index_expression_relation_var_collation"@
    }
}

fn find_expected_column<'a>(expected: &'a Vec<(String, String)>, t: &str) -> (r: Option<&'a String>)
    ensures
        match r {
            Some(c) => expected_column(entry_views(expected@), t@) == Some(c@),
            None => expected_column(entry_views(expected@), t@) is None,
        },
{
    let ghost exp = entry_views(expected@);
    let mut found: Option<&String> = None;
    let mut i: usize = 0;
    assert(exp.subrange(0, 0) =~= Seq::<(Seq<char>, Seq<char>)>::empty());
    while i < expected.len()
        invariant
            i <= expected@.len(),
            exp == entry_views(expected@),
            match found {
                Some(c) => expected_column(exp.subrange(0, i as int), t@) == Some(c@),
                None => expected_column(exp.subrange(0, i as int), t@) is None,
            },
        decreases expected@.len() - i,
    {
        let ghost next = exp.subrange(0, i + 1);
        assert(next.drop_last() =~= exp.subrange(0, i as int));
        assert(next.last() == (expected@[i as int].0@, expected@[i as int].1@));
        if text_eq(expected[i].0.as_str(), t) {
            found = Some(&expected[i].1);
        }
        i = i + 1;
    }
    assert(exp.subrange(0, expected@.len() as int) =~= exp);
    found
}

pub(crate) fn find_column<'a>(cols: &'a [BaseColumn], name: &str) -> (r: Option<&'a BaseColumn>)
    ensures
        match r {
            Some(c) => column_named(cols@.map_values(|x: BaseColumn| x@), name@) == Some(c@),
            None => column_named(cols@.map_values(|x: BaseColumn| x@), name@) is None,
        },
{
    let ghost views = cols@.map_values(|x: BaseColumn| x@);
    let mut i: usize = 0;
    assert(views.skip(0) =~= views);
    while i < cols.len()
        invariant
            i <= cols@.len(),
            views == cols@.map_values(|x: BaseColumn| x@),
            column_named(views, name@) == column_named(views.skip(i as int), name@),
        decreases cols@.len() - i,
    {
        assert(views.skip(i as int)[0] == cols@[i as int]@);
        assert(views.skip(i as int).drop_first() =~= views.skip(i + 1));
        if text_eq(cols[i].column_name(), name) {
            return Some(&cols[i]);
        }
        i = i + 1;
    }
    None
}

fn find_type_modifier<'a>(mods: &'a [ColumnTypeModifier], index: &IndexPartitionCoordinate, name: &str) -> (r: Option<
    &'a ColumnTypeModifier,
>)
    ensures
        match r {
            Some(m) => fact_about(mods@.map_values(|x: ColumnTypeModifier| x@), var_column(index@, name@)) == Some(
                m@.fact,
            ),
            None => fact_about(mods@.map_values(|x: ColumnTypeModifier| x@), var_column(index@, name@)) is None,
        },
{
    let ghost views = mods@.map_values(|x: ColumnTypeModifier| x@);
    let ghost c = var_column(index@, name@);
    let mut i: usize = 0;
    assert(views.skip(0) =~= views);
    while i < mods.len()
        invariant
            i <= mods@.len(),
            views == mods@.map_values(|x: ColumnTypeModifier| x@),
            c == var_column(index@, name@),
            fact_about(views, c) == fact_about(views.skip(i as int), c),
        decreases mods@.len() - i,
    {
        assert(views.skip(i as int)[0] == mods@[i as int]@);
        assert(views.skip(i as int).drop_first() =~= views.skip(i + 1));
        if mods[i].is_about(index.schema_name(), index.relation_name(), index.relation_kind(), name) {
            return Some(&mods[i]);
        }
        i = i + 1;
    }
    None
}

fn find_column_collation<'a>(colls: &'a [BaseColumnCollation], index: &IndexPartitionCoordinate, name: &str) -> (r: Option<
    &'a BaseColumnCollation,
>)
    ensures
        match r {
            Some(x) => fact_about(colls@.map_values(|y: BaseColumnCollation| y@), var_column(index@, name@)) == Some(
                x@.fact,
            ),
            None => fact_about(colls@.map_values(|y: BaseColumnCollation| y@), var_column(index@, name@)) is None,
        },
{
    let ghost views = colls@.map_values(|y: BaseColumnCollation| y@);
    let ghost c = var_column(index@, name@);
    let mut i: usize = 0;
    assert(views.skip(0) =~= views);
    while i < colls.len()
        invariant
            i <= colls@.len(),
            views == colls@.map_values(|y: BaseColumnCollation| y@),
            c == var_column(index@, name@),
            fact_about(views, c) == fact_about(views.skip(i as int), c),
        decreases colls@.len() - i,
    {
        assert(views.skip(i as int)[0] == colls@[i as int]@);
        assert(views.skip(i as int).drop_first() =~= views.skip(i + 1));
        if colls[i].is_about(index.schema_name(), index.relation_name(), index.relation_kind(), name) {
            return Some(&colls[i]);
        }
        i = i + 1;
    }
    None
}

fn same_collation(a: Option<&QualifiedCollationName>, b: Option<&QualifiedCollationName>) -> (r: bool)
    ensures
        r == ((match a {
            Some(x) => Some(x@),
            None => None,
        }) == (match b {
            Some(x) => Some(x@),
            None => None,
        })),
{
    match (a, b) {
        (Some(x), Some(y)) => x.same_as(y),
        (None, None) => true,
        _ => false,
    }
}

} // verus!

verus! {

fn check_binding(
    expected: &Vec<(String, String)>,
    relations: &[BaseRelation],
    mods: &[ColumnTypeModifier],
    colls: &[BaseColumnCollation],
    o: &IndexExpressionRelationVarObservation,
) -> (r: Result<(), ObservationError>)
    ensures
        ({
            let code = binding_code(
                entry_views(expected@),
                relations@.map_values(|b: BaseRelation| b@),
                mods@.map_values(|x: ColumnTypeModifier| x@),
                colls@.map_values(|y: BaseColumnCollation| y@),
                o@,
            );
            &&& r is Ok <==> code == 0
            &&& r is Err ==> fails_with_text(r, binding_field(code))
        }),
{
    let text = o.location().canonical_location();
    let column = match find_expected_column(expected, text.as_str()) {
        Some(c) => c,
        None => {
            return Err(invalid("index_expression_relation_var_coordinate"));
        },
    };
    if !text_eq(o.column_name(), column.as_str()) {
        return Err(invalid("index_expression_relation_var_column"));
    }
    let index = o.location().index();
    let relation = match find_owning_relation(relations, index) {
        Some(r) => r,
        None => {
            return Err(invalid("index_expression_relation_var_owner"));
        },
    };
    let typed = match find_column(relation.columns(), o.column_name()) {
        Some(c) => c,
        None => {
            return Err(invalid("index_expression_relation_var_column"));
        },
    };
    if !typed.type_binding().same_as(o.value_type()) {
        return Err(invalid("index_expression_relation_var_value_type"));
    }
    let modifier = match find_type_modifier(mods, index, o.column_name()) {
        Some(m) => m,
        None => {
            return Err(invalid("index_expression_relation_var_type_modifier_evidence"));
        },
    };
    if modifier.type_modifier() != o.type_modifier() {
        return Err(invalid("index_expression_relation_var_type_modifier"));
    }
    let collation = match find_column_collation(colls, index, o.column_name()) {
        Some(c) => c,
        None => {
            return Err(invalid("index_expression_relation_var_column_collation_evidence"));
        },
    };
    if !same_collation(collation.collation(), o.collation()) {
        return Err(invalid("index_expression_relation_var_collation"));
    }
    Ok(())
}

fn check_bindings(
    expected: &Vec<(String, String)>,
    relations: &[BaseRelation],
    mods: &[ColumnTypeModifier],
    colls: &[BaseColumnCollation],
    obs: &[IndexExpressionRelationVarObservation],
) -> (r: Result<(), ObservationError>)
    ensures
        ({
            let code = first_binding_code(
                entry_views(expected@),
                relations@.map_values(|b: BaseRelation| b@),
                mods@.map_values(|x: ColumnTypeModifier| x@),
                colls@.map_values(|y: BaseColumnCollation| y@),
                var_views(obs@),
            );
            &&& r is Ok <==> code == 0
            &&& r is Err ==> fails_with_text(r, binding_field(code))
        }),
{
    let ghost exp = entry_views(expected@);
    let ghost rels = relations@.map_values(|b: BaseRelation| b@);
    let ghost tms = mods@.map_values(|x: ColumnTypeModifier| x@);
    let ghost cls = colls@.map_values(|y: BaseColumnCollation| y@);
    let ghost views = var_views(obs@);
    let mut i: usize = 0;
    assert(views.skip(0) =~= views);
    while i < obs.len()
        invariant
            i <= obs@.len(),
            exp == entry_views(expected@),
            rels == relations@.map_values(|b: BaseRelation| b@),
            tms == mods@.map_values(|x: ColumnTypeModifier| x@),
            cls == colls@.map_values(|y: BaseColumnCollation| y@),
            views == var_views(obs@),
            first_binding_code(exp, rels, tms, cls, views) == first_binding_code(exp, rels, tms, cls, views.skip(i as int)),
        decreases obs@.len() - i,
    {
        assert(views.skip(i as int)[0] == obs@[i as int]@);
        assert(views.skip(i as int).drop_first() =~= views.skip(i + 1));
        check_binding(expected, relations, mods, colls, &obs[i])?;
        i = i + 1;
    }
    Ok(())
}

/// The first observation at location text `t`.
pub open spec fn var_at_text(obs: Seq<RelationVarView>, t: Seq<char>) -> Option<RelationVarView>
    decreases obs.len(),
{
    if obs.len() == 0 {
        None
    } else if var_text(obs[0]) == t {
        Some(obs[0])
    } else {
        var_at_text(obs.drop_first(), t)
    }
}

/// Two relation-`Var` leaves have the same column, type, type modifier and collation.
pub open spec fn semantically_equal(a: RelationVarView, b: RelationVarView) -> bool {
    &&& a.column_name == b.column_name
    &&& a.value_type == b.value_type
    &&& a.type_modifier == b.type_modifier
    &&& a.collation == b.collation
}

/// How a child leaf fails to repeat its parent's leaf at the same position of `parent`, or 0: 1
/// no parent leaf, 2 a different parent leaf.
pub open spec fn attached_code(obs: Seq<RelationVarView>, parent: IndexCoordinateView, child: RelationVarView) -> int {
    match var_at_text(obs, relation_var_location_text(RelationVarLocationView { index: parent, ..child.location })) {
        None => 1,
        Some(p) => if semantically_equal(child, p) {
            0
        } else {
            2
        },
    }
}

/// The first non-zero attached code over the leaves in `s` of the index of membership `m`.
pub open spec fn first_child_code(all: Seq<RelationVarView>, m: MembershipView, s: Seq<RelationVarView>) -> int
    decreases s.len(),
{
    if s.len() == 0 {
        0
    } else if m.parent_index is Some && s[0].location.index == m.coordinate && attached_code(
        all,
        m.parent_index->0,
        s[0],
    ) != 0 {
        attached_code(all, m.parent_index->0, s[0])
    } else {
        first_child_code(all, m, s.drop_first())
    }
}

/// The first non-zero attached code over the memberships, in order.
pub open spec fn first_attached_code(ms: Seq<MembershipView>, obs: Seq<RelationVarView>) -> int
    decreases ms.len(),
{
    if ms.len() == 0 {
        0
    } else if first_child_code(obs, ms[0], obs) != 0 {
        first_child_code(obs, ms[0], obs)
    } else {
        first_attached_code(ms.drop_first(), obs)
    }
}

/// The field reported for a non-zero attached code.
pub open spec fn attached_field(code: int) -> Seq<char> {
    if code == 1 {
        "index_expression_relation_var_parent_evidence"@
    } else {
        "index_expression_relation_var_attached_equivalence"@
    }
}

fn find_var_by_text<'a>(obs: &'a [IndexExpressionRelationVarObservation], t: &str) -> (r: Option<
    &'a IndexExpressionRelationVarObservation,
>)
    ensures
        match r {
            Some(o) => var_at_text(var_views(obs@), t@) == Some(o@),
            None => var_at_text(var_views(obs@), t@) is None,
        },
{
    let ghost views = var_views(obs@);
    let mut i: usize = 0;
    assert(views.skip(0) =~= views);
    while i < obs.len()
        invariant
            i <= obs@.len(),
            views == var_views(obs@),
            var_at_text(views, t@) == var_at_text(views.skip(i as int), t@),
        decreases obs@.len() - i,
    {
        assert(views.skip(i as int)[0] == obs@[i as int]@);
        assert(views.skip(i as int).drop_first() =~= views.skip(i + 1));
        let text = obs[i].location().canonical_location();
        if text_eq(text.as_str(), t) {
            return Some(&obs[i]);
        }
        i = i + 1;
    }
    None
}

fn check_children(obs: &[IndexExpressionRelationVarObservation], m: &IndexPartitionMembership) -> (r: Result<(), ObservationError>)
    ensures
        ({
            let code = first_child_code(var_views(obs@), m@, var_views(obs@));
            &&& r is Ok <==> code == 0
            &&& r is Err ==> fails_with_text(r, attached_field(code))
        }),
{
    let ghost views = var_views(obs@);
    let parent = match m.parent_index() {
        Some(p) => p,
        None => {
            proof {
                lemma_no_parent_no_code(views, m@, views);
            }
            return Ok(());
        },
    };
    let mut i: usize = 0;
    assert(views.skip(0) =~= views);
    while i < obs.len()
        invariant
            i <= obs@.len(),
            views == var_views(obs@),
            m@.parent_index == Some(parent@),
            first_child_code(views, m@, views) == first_child_code(views, m@, views.skip(i as int)),
        decreases obs@.len() - i,
    {
        assert(views.skip(i as int)[0] == obs@[i as int]@);
        assert(views.skip(i as int).drop_first() =~= views.skip(i + 1));
        let child = &obs[i];
        if child.location().index().same_as(m.coordinate()) {
            let location = child.location().with_index(parent.clone());
            let text = location.canonical_location();
            let found = find_var_by_text(obs, text.as_str());
            match found {
                None => {
                    return Err(invalid("index_expression_relation_var_parent_evidence"));
                },
                Some(p) => {
                    let equal = text_eq(child.column_name(), p.column_name()) && child.value_type().same_as(
                        p.value_type(),
                    ) && child.type_modifier() == p.type_modifier() && same_collation(child.collation(), p.collation());
                    if !equal {
                        return Err(invalid("index_expression_relation_var_attached_equivalence"));
                    }
                },
            }
        }
        i = i + 1;
    }
    Ok(())
}

proof fn lemma_no_parent_no_code(all: Seq<RelationVarView>, m: MembershipView, s: Seq<RelationVarView>)
    requires
        m.parent_index is None,
    ensures
        first_child_code(all, m, s) == 0,
    decreases s.len(),
{
    if s.len() > 0 {
        lemma_no_parent_no_code(all, m, s.drop_first());
    }
}

fn check_attached(ms: &[IndexPartitionMembership], obs: &[IndexExpressionRelationVarObservation]) -> (r: Result<(), ObservationError>)
    ensures
        ({
            let code = first_attached_code(ms@.map_values(|x: IndexPartitionMembership| x@), var_views(obs@));
            &&& r is Ok <==> code == 0
            &&& r is Err ==> fails_with_text(r, attached_field(code))
        }),
{
    let ghost views = ms@.map_values(|x: IndexPartitionMembership| x@);
    let mut i: usize = 0;
    assert(views.skip(0) =~= views);
    while i < ms.len()
        invariant
            i <= ms@.len(),
            views == ms@.map_values(|x: IndexPartitionMembership| x@),
            first_attached_code(views, var_views(obs@)) == first_attached_code(views.skip(i as int), var_views(obs@)),
        decreases ms@.len() - i,
    {
        assert(views.skip(i as int)[0] == ms@[i as int]@);
        assert(views.skip(i as int).drop_first() =~= views.skip(i + 1));
        check_children(obs, &ms[i])?;
        i = i + 1;
    }
    Ok(())
}

} // verus!

verus! {

/// Domain separator of the relation-`Var` digest.
pub const RELATION_VAR_DIGEST_DOMAIN: &'static str =
    "conceptweave.postgres_schema_snapshot.v3.relation_partition.index_partition.operator_family.exclusion.expression_semantics.relation_var.v1";

/// Schema revision framed into the relation-`Var` digest.
pub const RELATION_VAR_SCHEMA_REVISION: &'static str = "postgresql-18-equal-relation-var-v1";

/// Framing of a collation: tag 1, schema and name; or the single byte 0 for no collation.
pub open spec fn frame_var_collation(c: Option<QualifiedNameView>) -> Seq<u8> {
    match c {
        Some(n) => seq![1u8] + frame_str(n.schema_name) + frame_str(n.name),
        None => seq![0u8],
    }
}

/// Framing of one relation-`Var` observation: location text, column, type, raw type modifier,
/// collation, and the single admitted role, nulling, level and returning state.
pub open spec fn frame_relation_var(v: RelationVarView) -> Seq<u8> {
    frame_str(var_text(v)) + frame_str(v.column_name) + frame_str(v.value_type.schema_name) + frame_str(v.value_type.name)
        + frame_i32(v.type_modifier) + frame_var_collation(v.collation) + frame_str("index_relation"@) + frame_bool(true)
        + frame_u32(0) + frame_str("default"@)
}

/// Framing of relation-`Var` observations, in order.
pub open spec fn frame_relation_vars(s: Seq<RelationVarView>) -> Seq<u8>
    decreases s.len(),
{
    if s.len() == 0 {
        Seq::empty()
    } else {
        frame_relation_vars(s.drop_last()) + frame_relation_var(s.last())
    }
}

/// The preimage of the relation-`Var` digest over the expression and type-modifier digests.
pub open spec fn relation_var_preimage(expression_digest: Seq<char>, type_modifier_digest: Seq<char>, s: Seq<RelationVarView>) -> Seq<
    u8,
> {
    frame_str(RELATION_VAR_DIGEST_DOMAIN@) + frame_str(RELATION_VAR_SCHEMA_REVISION@) + frame_str(expression_digest)
        + frame_str(type_modifier_digest) + frame_len(s.len()) + frame_relation_vars(s)
}

fn put_var_collation(out: &mut Vec<u8>, c: Option<&QualifiedCollationName>)
    ensures
        final(out)@ == old(out)@ + frame_var_collation(
            match c {
                Some(x) => Some(x@),
                None => None,
            },
        ),
{
    match c {
        None => {
            put_tag(out, 0);
            assert(final(out)@ =~= old(out)@ + seq![0u8]);
        },
        Some(x) => {
            put_tag(out, 1);
            let ghost a = out@;
            put_str(out, x.schema_name());
            put_str(out, x.collation_name());
            assert(final(out)@ =~= old(out)@ + (seq![1u8] + frame_str(x@.schema_name) + frame_str(x@.name)));
        },
    }
}

fn put_relation_var(out: &mut Vec<u8>, o: &IndexExpressionRelationVarObservation)
    ensures
        final(out)@ == old(out)@ + frame_relation_var(o@),
{
    let ghost s0 = out@;
    let text = o.location().canonical_location();
    put_str(out, text.as_str());
    put_str(out, o.column_name());
    put_str(out, o.value_type().schema_name());
    put_str(out, o.value_type().name());
    put_i32(out, o.type_modifier());
    put_var_collation(out, o.collation());
    put_str(out, o.relation_role().token());
    put_bool(out, o.nulling_relations_empty());
    put_u32(out, o.levels_up());
    put_str(out, o.returning_type().token());
    assert(final(out)@ =~= s0 + frame_relation_var(o@));
}

fn compute_relation_var_digest(
    expression_digest: &str,
    type_modifier_digest: &str,
    observations: &[IndexExpressionRelationVarObservation],
) -> (d: String)
    ensures
        d@ == digest_text(relation_var_preimage(expression_digest@, type_modifier_digest@, var_views(observations@))),
{
    let ghost views = var_views(observations@);
    let mut out: Vec<u8> = Vec::new();
    put_str(&mut out, RELATION_VAR_DIGEST_DOMAIN);
    put_str(&mut out, RELATION_VAR_SCHEMA_REVISION);
    put_str(&mut out, expression_digest);
    put_str(&mut out, type_modifier_digest);
    put_len(&mut out, observations.len());
    let ghost header = out@;
    let mut i: usize = 0;
    while i < observations.len()
        invariant
            i <= observations@.len(),
            views == var_views(observations@),
            out@ == header + frame_relation_vars(views.subrange(0, i as int)),
        decreases observations@.len() - i,
    {
        put_relation_var(&mut out, &observations[i]);
        proof {
            let next = views.subrange(0, i + 1);
            assert(next.drop_last() =~= views.subrange(0, i as int));
            assert(next.last() == observations@[i as int]@);
            assert(out@ =~= header + frame_relation_vars(next));
        }
        i = i + 1;
    }
    proof {
        assert(views.subrange(0, observations@.len() as int) =~= views);
        assert(out@ =~= relation_var_preimage(expression_digest@, type_modifier_digest@, views));
    }
    finish_digest(&out)
}

} // verus!

verus! {

/// Why relation-`Var` observations are refused, or `None` when they are accepted: predecessors
/// from different sources; then the expected leaves of the expression evidence (a whole-row leaf,
/// a zero key position, too many leaves), none at all; then a repeated location; then locations
/// other than exactly the expected ones; then no captured column collations; then, in location
/// order, each observation's binding to its expected column, its owning relation's typed column,
/// its issued type modifier and its captured collation; then, over the memberships, each directly
/// attached child leaf against its parent's leaf.
pub open spec fn relation_var_refusal(
    rels: Seq<BaseRelationView>,
    colls: Option<Seq<ColumnFactView<Option<QualifiedNameView>>>>,
    ms: Seq<MembershipView>,
    exprs: Seq<ExpressionObservationView>,
    preds: Seq<PredicateObservationView>,
    expression_lineage: LineageView,
    type_modifier_lineage: LineageView,
    tms: Seq<ColumnFactView<i32>>,
    obs: Seq<IndexExpressionRelationVarObservation>,
) -> Option<RelationVarRefusal> {
    if !same_provenance(expression_lineage, type_modifier_lineage) {
        Some(RelationVarRefusal::Field("index_expression_relation_var_predecessor_provenance"@))
    } else {
        relation_var_observation_refusal(rels, colls, ms, exprs, preds, tms, obs)
    }
}

/// Why relation-`Var` observations are refused over their predecessors' contents, or `None`.
pub open spec fn relation_var_observation_refusal(
    rels: Seq<BaseRelationView>,
    colls: Option<Seq<ColumnFactView<Option<QualifiedNameView>>>>,
    ms: Seq<MembershipView>,
    exprs: Seq<ExpressionObservationView>,
    preds: Seq<PredicateObservationView>,
    tms: Seq<ColumnFactView<i32>>,
    obs: Seq<IndexExpressionRelationVarObservation>,
) -> Option<RelationVarRefusal> {
    let exp = expected_entries(exprs, preds);
    let sorted = var_views(sorted_by_key(obs));
    if expected_leaf_refusal(exprs, preds) is Some {
        expected_leaf_refusal(exprs, preds)
    } else if exp.len() == 0 {
        Some(RelationVarRefusal::Field("index_expression_relation_var_empty"@))
    } else if duplicate_location(var_views(obs)) {
        Some(RelationVarRefusal::Field("index_expression_relation_var_coordinate"@))
    } else if !locations_complete(exp, sorted) {
        Some(RelationVarRefusal::Field("index_expression_relation_var_completeness"@))
    } else if colls is None {
        Some(RelationVarRefusal::Field("index_expression_relation_var_column_collation_evidence"@))
    } else if first_binding_code(exp, rels, tms, colls->0, sorted) != 0 {
        Some(RelationVarRefusal::Field(binding_field(first_binding_code(exp, rels, tms, colls->0, sorted))))
    } else if first_attached_code(ms, sorted) != 0 {
        Some(RelationVarRefusal::Field(attached_field(first_attached_code(ms, sorted))))
    } else {
        None
    }
}

/// The captured column collations, by value.
pub open spec fn collation_views(colls: Option<&[BaseColumnCollation]>) -> Option<Seq<ColumnFactView<Option<QualifiedNameView>>>> {
    match colls {
        Some(s) => Some(s@.map_values(|y: BaseColumnCollation| y@)),
        None => None,
    }
}

fn same_lineage_source(expression: &IndexExpressionSemanticsSnapshot, type_modifiers: &IssuedTypeModifiers) -> (b: bool)
    ensures
        b == same_provenance(expression.lineage(), type_modifiers.lineage()),
{
    text_eq(expression.source_connection_key(), type_modifiers.source_connection_key()) && text_eq(
        expression.connection_policy_binding(),
        type_modifiers.connection_policy_binding(),
    ) && text_eq(expression.extractor_revision(), type_modifiers.extractor_revision()) && text_eq(
        expression.observed_at_utc(),
        type_modifiers.observed_at_utc(),
    )
}

/// Sorts relation-`Var` observations by location and validates them against the expected leaves
/// of the expression evidence, the base snapshot's typed columns and captured column collations
/// (`None` when they were not captured) and the issued type modifiers.
fn canonicalize_and_validate(
    relations: &[BaseRelation],
    column_collations: Option<&[BaseColumnCollation]>,
    expression_snapshot: &IndexExpressionSemanticsSnapshot,
    type_modifier_snapshot: &IssuedTypeModifiers,
    observations: Vec<IndexExpressionRelationVarObservation>,
) -> (r: Result<Vec<IndexExpressionRelationVarObservation>, ObservationError>)
    ensures
        ({
            let refusal = relation_var_observation_refusal(
                relations@.map_values(|b: BaseRelation| b@),
                collation_views(column_collations),
                Seq::empty(),
                expression_snapshot.expression_views(),
                expression_snapshot.predicate_views(),
                type_modifier_snapshot.modifier_views(),
                observations@,
            );
            &&& r is Ok <==> refusal is None
            &&& refusal matches Some(f) ==> relation_var_refused_as(r, f)
        }),
        r matches Ok(v) ==> v@ == sorted_by_key(observations@) && strictly_sorted(v@) && same_elements(v@, observations@),
{
    let ghost input = observations@;
    let expected = expected_var_leaves(expression_snapshot)?;
    if expected.len() == 0 {
        return Err(invalid("index_expression_relation_var_empty"));
    }
    proof {
        lemma_location_collision(input);
    }
    let sorted = match sort_by_key(observations) {
        Some(v) => v,
        None => {
            return Err(invalid("index_expression_relation_var_coordinate"));
        },
    };
    if !locations_are_complete(&expected, sorted.as_slice()) {
        return Err(invalid("index_expression_relation_var_completeness"));
    }
    let colls = match column_collations {
        Some(c) => c,
        None => {
            return Err(invalid("index_expression_relation_var_column_collation_evidence"));
        },
    };
    check_bindings(&expected, relations, type_modifier_snapshot.modifiers(), colls, sorted.as_slice())?;
    proof {
        lemma_empty_memberships_no_code(var_views(sorted@));
    }
    Ok(sorted)
}

proof fn lemma_empty_memberships_no_code(obs: Seq<RelationVarView>)
    ensures
        first_attached_code(Seq::empty(), obs) == 0,
{
}

} // verus!

verus! {

/// The first observation at location `l`.
pub open spec fn var_at_location(obs: Seq<RelationVarView>, l: RelationVarLocationView) -> Option<RelationVarView>
    decreases obs.len(),
{
    if obs.len() == 0 {
        None
    } else if obs[0].location == l {
        Some(obs[0])
    } else {
        var_at_location(obs.drop_first(), l)
    }
}

fn same_location(a: &IndexExpressionRelationVarLocation, b: &IndexExpressionRelationVarLocation) -> (r: bool)
    ensures
        r == (a@ == b@),
{
    let same_key = match (a.key_position(), b.key_position()) {
        (Some(x), Some(y)) => x == y,
        (None, None) => true,
        _ => false,
    };
    a.index().same_as(b.index()) && same_key && a.leaf_position() == b.leaf_position()
}

fn has_location(obs: &[IndexExpressionRelationVarObservation], l: &IndexExpressionRelationVarLocation) -> (r: bool)
    ensures
        r == var_at_location(var_views(obs@), l@) is Some,
{
    let ghost views = var_views(obs@);
    let mut i: usize = 0;
    assert(views.skip(0) =~= views);
    while i < obs.len()
        invariant
            i <= obs@.len(),
            views == var_views(obs@),
            var_at_location(views, l@) == var_at_location(views.skip(i as int), l@),
        decreases obs@.len() - i,
    {
        assert(views.skip(i as int)[0] == obs@[i as int]@);
        assert(views.skip(i as int).drop_first() =~= views.skip(i + 1));
        if same_location(obs[i].location(), l) {
            return true;
        }
        i = i + 1;
    }
    false
}

/// Immutable provenance receipt for one exact relation-`Var` equality observation.
#[derive(Debug, PartialEq, Eq)]
pub struct IndexExpressionRelationVarSourceReceipt {
    source_id: String,
    connection_policy_binding: String,
    source_digest: String,
    extractor_revision: String,
    observed_at_utc: String,
    location: IndexExpressionRelationVarLocation,
}

impl IndexExpressionRelationVarSourceReceipt {
    /// The provenance carried by this receipt.
    pub closed spec fn lineage(&self) -> LineageView {
        LineageView {
            source_connection_key: self.source_id@,
            connection_policy_binding: self.connection_policy_binding@,
            snapshot_digest: self.source_digest@,
            extractor_revision: self.extractor_revision@,
            observed_at_utc: self.observed_at_utc@,
        }
    }

    /// The location covered by this receipt.
    pub closed spec fn location_view(&self) -> RelationVarLocationView {
        self.location@
    }

    /// Returns the stable source registry key, never credentials.
    pub fn source_id(&self) -> (s: &str)
        ensures
            s@ == self.lineage().source_connection_key,
    {
        self.source_id.as_str()
    }

    /// Returns the immutable connection-policy binding.
    pub fn connection_policy_binding(&self) -> (s: &str)
        ensures
            s@ == self.lineage().connection_policy_binding,
    {
        self.connection_policy_binding.as_str()
    }

    /// Returns the governed relation-`Var` digest.
    pub fn source_digest(&self) -> (s: &str)
        ensures
            s@ == self.lineage().snapshot_digest,
    {
        self.source_digest.as_str()
    }

    /// Returns the exact extractor revision inherited from the predecessor chain.
    pub fn extractor_revision(&self) -> (s: &str)
        ensures
            s@ == self.lineage().extractor_revision,
    {
        self.extractor_revision.as_str()
    }

    /// Returns the exact canonical observation time inherited from the predecessor chain.
    pub fn observed_at_utc(&self) -> (s: &str)
        ensures
            s@ == self.lineage().observed_at_utc,
    {
        self.observed_at_utc.as_str()
    }

    /// Returns the exact verified relation-`Var` location.
    pub fn location(&self) -> (l: &IndexExpressionRelationVarLocation)
        ensures
            l@ == self.location_view(),
    {
        &self.location
    }
}

/// Complete relation-`Var` equality evidence over canonical expression semantics.
///
/// Every column leaf of every expression key and predicate has exactly one observation, which
/// repeats the expected column and binds it to the base snapshot's column type, the issued raw
/// type modifier and the captured column collation; each directly attached child index repeats its
/// parent's leaves. The digest frames the expression and type-modifier digests under its own
/// domain separator.
#[derive(Debug, PartialEq, Eq)]
pub struct IndexExpressionRelationVarSnapshot {
    source_connection_key: String,
    connection_policy_binding: String,
    snapshot_digest: String,
    extractor_revision: String,
    observed_at_utc: String,
    observations: Vec<IndexExpressionRelationVarObservation>,
}

impl IndexExpressionRelationVarSnapshot {
    /// The provenance of this snapshot, with its own digest.
    pub closed spec fn lineage(&self) -> LineageView {
        LineageView {
            source_connection_key: self.source_connection_key@,
            connection_policy_binding: self.connection_policy_binding@,
            snapshot_digest: self.snapshot_digest@,
            extractor_revision: self.extractor_revision@,
            observed_at_utc: self.observed_at_utc@,
        }
    }

    /// The observations, in location order.
    pub closed spec fn observation_views(&self) -> Seq<RelationVarView> {
        var_views(self.observations@)
    }

    /// The observations held, in location order.
    pub closed spec fn entries(&self) -> Seq<IndexExpressionRelationVarObservation> {
        self.observations@
    }

    /// Issued relation-`Var` evidence holds its observations in strict location order.
    #[verifier::type_invariant]
    closed spec fn entries_sorted(self) -> bool {
        strictly_sorted(self.observations@)
    }

    /// The views of the snapshot are the views of its entries.
    pub proof fn lemma_entry_views(&self)
        ensures
            self.observation_views() == var_views(self.entries()),
    {
    }

    /// Gives up the snapshot for its observations.
    pub(crate) fn into_observations(self) -> (r: Vec<IndexExpressionRelationVarObservation>)
        ensures
            r@ == self.entries(),
            strictly_sorted(r@),
    {
        proof {
            use_type_invariant(&self);
        }
        let IndexExpressionRelationVarSnapshot { observations, .. } = self;
        observations
    }

    /// Builds relation-`Var` evidence as `new` does and also hands back the rebound expression
    /// evidence.
    pub(crate) fn build(
        relations: &[BaseRelation],
        column_collations: Option<&[BaseColumnCollation]>,
        partition: &IndexPartitionEvidence,
        operator_family: &IssuedSnapshot,
        exclusion_snapshot: &IndexExclusionSemanticsSnapshot,
        expression_snapshot: IndexExpressionSemanticsSnapshot,
        type_modifier_snapshot: &IssuedTypeModifiers,
        observations: Vec<IndexExpressionRelationVarObservation>,
    ) -> (r: Result<(Self, IndexExpressionSemanticsSnapshot), ObservationError>)
        ensures
            ({
                let rebinding = expression_rebinding_refusal(
                    relations@.map_values(|b: BaseRelation| b@),
                    partition.membership_views(),
                    operator_family.lineage().snapshot_digest,
                    exclusion_snapshot.entries(),
                    exclusion_snapshot.lineage().snapshot_digest,
                    expression_snapshot.expression_entries(),
                    expression_snapshot.predicate_entries(),
                    expression_snapshot.lineage().snapshot_digest,
                    RELATION_VAR_EXPRESSION_FIELD@,
                );
                let refusal = relation_var_refusal(
                    relations@.map_values(|b: BaseRelation| b@),
                    collation_views(column_collations),
                    partition.membership_views(),
                    expression_snapshot.expression_views(),
                    expression_snapshot.predicate_views(),
                    expression_snapshot.lineage(),
                    type_modifier_snapshot.lineage(),
                    type_modifier_snapshot.modifier_views(),
                    observations@,
                );
                &&& r is Ok <==> rebinding is None && refusal is None
                &&& rebinding is Some ==> fails_with_text(r, rebinding->0)
                &&& rebinding is None ==> (refusal matches Some(f) ==> relation_var_refused_as(r, f))
            }),
            r matches Ok((s, e)) ==> {
                &&& e.expression_views() == expression_snapshot.expression_views()
                &&& e.predicate_views() == expression_snapshot.predicate_views()
                &&& s.observation_views() == var_views(sorted_by_key(observations@))
                &&& s.entries() == sorted_by_key(observations@)
                &&& s.lineage() == (LineageView {
                    snapshot_digest: digest_text(
                        relation_var_preimage(
                            expression_snapshot.lineage().snapshot_digest,
                            type_modifier_snapshot.lineage().snapshot_digest,
                            s.observation_views(),
                        ),
                    ),
                    ..expression_snapshot.lineage()
                })
            },
    {
        let provenance = same_lineage_source(&expression_snapshot, type_modifier_snapshot);
        let source_connection_key = expression_snapshot.source_connection_key().to_owned();
        let connection_policy_binding = expression_snapshot.connection_policy_binding().to_owned();
        let expression_digest = expression_snapshot.snapshot_digest().to_owned();
        let extractor_revision = expression_snapshot.extractor_revision().to_owned();
        let observed_at_utc = expression_snapshot.observed_at_utc().to_owned();
        let rebound = rebind_expression_semantics(
            operator_family,
            exclusion_snapshot,
            relations,
            partition,
            expression_snapshot,
            RELATION_VAR_EXPRESSION_FIELD,
        )?;
        if !provenance {
            return Err(invalid("index_expression_relation_var_predecessor_provenance"));
        }
        let observations = canonicalize_and_validate(
            relations,
            column_collations,
            &rebound,
            type_modifier_snapshot,
            observations,
        )?;
        check_attached(partition.memberships(), observations.as_slice())?;
        let snapshot_digest = compute_relation_var_digest(
            expression_digest.as_str(),
            type_modifier_snapshot.snapshot_digest(),
            observations.as_slice(),
        );
        Ok((
            IndexExpressionRelationVarSnapshot {
                source_connection_key,
                connection_policy_binding,
                snapshot_digest,
                extractor_revision,
                observed_at_utc,
                observations,
            },
            rebound,
        ))
    }

    /// Rebinds the expression evidence (from its own observations) over the issued
    /// operator-family evidence and exclusion semantics, and creates complete relation-`Var`
    /// evidence over it, the base snapshot's relations and column collations (`None` when they
    /// were not captured), the issued index-partition evidence and the issued type modifiers.
    pub fn new(
        relations: &[BaseRelation],
        column_collations: Option<&[BaseColumnCollation]>,
        partition: &IndexPartitionEvidence,
        operator_family: &IssuedSnapshot,
        exclusion_snapshot: &IndexExclusionSemanticsSnapshot,
        expression_snapshot: IndexExpressionSemanticsSnapshot,
        type_modifier_snapshot: &IssuedTypeModifiers,
        observations: Vec<IndexExpressionRelationVarObservation>,
    ) -> (r: Result<Self, ObservationError>)
        ensures
            ({
                let rebinding = expression_rebinding_refusal(
                    relations@.map_values(|b: BaseRelation| b@),
                    partition.membership_views(),
                    operator_family.lineage().snapshot_digest,
                    exclusion_snapshot.entries(),
                    exclusion_snapshot.lineage().snapshot_digest,
                    expression_snapshot.expression_entries(),
                    expression_snapshot.predicate_entries(),
                    expression_snapshot.lineage().snapshot_digest,
                    RELATION_VAR_EXPRESSION_FIELD@,
                );
                let refusal = relation_var_refusal(
                    relations@.map_values(|b: BaseRelation| b@),
                    collation_views(column_collations),
                    partition.membership_views(),
                    expression_snapshot.expression_views(),
                    expression_snapshot.predicate_views(),
                    expression_snapshot.lineage(),
                    type_modifier_snapshot.lineage(),
                    type_modifier_snapshot.modifier_views(),
                    observations@,
                );
                &&& r is Ok <==> rebinding is None && refusal is None
                &&& rebinding is Some ==> fails_with_text(r, rebinding->0)
                &&& rebinding is None ==> (refusal matches Some(f) ==> relation_var_refused_as(r, f))
            }),
            r matches Ok(s) ==> {
                &&& s.observation_views() == var_views(sorted_by_key(observations@))
                &&& s.entries() == sorted_by_key(observations@)
                &&& s.lineage() == (LineageView {
                    snapshot_digest: digest_text(
                        relation_var_preimage(
                            expression_snapshot.lineage().snapshot_digest,
                            type_modifier_snapshot.lineage().snapshot_digest,
                            s.observation_views(),
                        ),
                    ),
                    ..expression_snapshot.lineage()
                })
            },
    {
        match Self::build(
            relations,
            column_collations,
            partition,
            operator_family,
            exclusion_snapshot,
            expression_snapshot,
            type_modifier_snapshot,
            observations,
        ) {
            Ok((s, _)) => Ok(s),
            Err(e) => Err(e),
        }
    }

    /// Returns the stable source registry key.
    pub fn source_connection_key(&self) -> (s: &str)
        ensures
            s@ == self.lineage().source_connection_key,
    {
        self.source_connection_key.as_str()
    }

    /// Returns the immutable connection-policy binding.
    pub fn connection_policy_binding(&self) -> (s: &str)
        ensures
            s@ == self.lineage().connection_policy_binding,
    {
        self.connection_policy_binding.as_str()
    }

    /// Returns the domain-separated relation-`Var` digest.
    pub fn snapshot_digest(&self) -> (s: &str)
        ensures
            s@ == self.lineage().snapshot_digest,
    {
        self.snapshot_digest.as_str()
    }

    /// Returns the exact extractor revision inherited from the expression predecessor.
    pub fn extractor_revision(&self) -> (s: &str)
        ensures
            s@ == self.lineage().extractor_revision,
    {
        self.extractor_revision.as_str()
    }

    /// Returns the exact canonical observation time.
    pub fn observed_at_utc(&self) -> (s: &str)
        ensures
            s@ == self.lineage().observed_at_utc,
    {
        self.observed_at_utc.as_str()
    }

    /// Returns complete relation-`Var` observations in deterministic location order.
    pub fn observations(&self) -> (o: &[IndexExpressionRelationVarObservation])
        ensures
            var_views(o@) == self.observation_views(),
    {
        self.observations.as_slice()
    }

    /// Issues provenance for one exact relation-`Var` location when it is observed.
    pub fn source_receipt(&self, location: IndexExpressionRelationVarLocation) -> (r: Result<
        IndexExpressionRelationVarSourceReceipt,
        ObservationError,
    >)
        ensures
            r is Ok <==> var_at_location(self.observation_views(), location@) is Some,
            r matches Ok(receipt) ==> receipt.lineage() == self.lineage() && receipt.location_view() == location@,
            r matches Err(e) ==> e matches ObservationError::UnknownObservationLocation { location: l } && l@
                == relation_var_location_text(location@),
    {
        if !has_location(self.observations.as_slice(), &location) {
            return Err(ObservationError::UnknownObservationLocation { location: location.canonical_location() });
        }
        Ok(IndexExpressionRelationVarSourceReceipt {
            source_id: self.source_connection_key.clone(),
            connection_policy_binding: self.connection_policy_binding.clone(),
            source_digest: self.snapshot_digest.clone(),
            extractor_revision: self.extractor_revision.clone(),
            observed_at_utc: self.observed_at_utc.clone(),
            location,
        })
    }
}

} // verus!

verus! {

/// Supply order is not semantic: two observation lists holding the same observations, one of
/// which has a location order, issue the same ordered observations and the same digest preimage.
pub proof fn lemma_relation_var_supply_order(
    expression_digest: Seq<char>,
    type_modifier_digest: Seq<char>,
    first: Seq<IndexExpressionRelationVarObservation>,
    second: Seq<IndexExpressionRelationVarObservation>,
)
    requires
        same_elements(first, second),
        strictly_sorted(sorted_by_key(first)),
        same_elements(sorted_by_key(first), first),
    ensures
        sorted_by_key(first) == sorted_by_key(second),
        relation_var_preimage(expression_digest, type_modifier_digest, var_views(sorted_by_key(first)))
            == relation_var_preimage(expression_digest, type_modifier_digest, var_views(sorted_by_key(second))),
{
    crate::order::lemma_sorted_by_key_order_independent(first, second);
}

} // verus!

verus! {

/// An attached child leaf is accepted only when the parent leaf at its position repeats its
/// column, type, type modifier and collation; a parent leaf that differs in any of them,
/// collation included, refuses the child with attached equivalence.
pub proof fn lemma_attached_leaf_equivalence(obs: Seq<RelationVarView>, parent: IndexCoordinateView, child: RelationVarView)
    ensures
        attached_code(obs, parent, child) == 0 ==> {
            let p = var_at_text(obs, relation_var_location_text(RelationVarLocationView { index: parent, ..child.location }));
            &&& p is Some
            &&& p->0.column_name == child.column_name
            &&& p->0.value_type == child.value_type
            &&& p->0.type_modifier == child.type_modifier
            &&& p->0.collation == child.collation
        },
        (var_at_text(obs, relation_var_location_text(RelationVarLocationView { index: parent, ..child.location })) matches Some(p)
            && p.collation != child.collation) ==> attached_code(obs, parent, child) == 2 && attached_field(2)
            == "index_expression_relation_var_attached_equivalence"@,
{
}

} // verus!
