//! Canonical PostgreSQL 18 index-expression and predicate semantics.
//!
//! Relation-local column `Var`s become exact column names, catalog OIDs become qualified
//! signatures, and parse/render text is absent. The recursive traversals over these trees that the
//! successor families need (whole-row detection, column and collation collection, node-schema
//! admission, deep equality and digest framing) live here beside the tree itself.

use vstd::prelude::*;

use crate::catalog::{validate_nonblank, QualifiedCollationName, QualifiedNameView, QualifiedTypeName};
use crate::error::{fails_with, invalid, ObservationError};
use crate::order::{text_eq, compare_text, lemma_text_lt_irreflexive, lemma_text_lt_total, lemma_text_lt_transitive, text_lt, KeyOrder, SortKey};
use crate::signatures::{
    QualifiedFunctionSignature, QualifiedOperatorSignature,
    QualifiedUnaryOperatorSignature, };
use crate::text::is_blank;
use crate::digest::{
    frame_bool, frame_i64, frame_len, frame_str, put_bool, put_i64, put_len, put_str, put_tag,
};
use crate::signatures::{frame_type, frame_types, put_type, put_types, type_views};

verus! {

/// One named semantic field inside a canonical PostgreSQL expression node.
#[derive(Debug, PartialEq, Eq)]
pub struct CanonicalExpressionField {
    name: String,
    value: CanonicalExpressionValue,
}

/// Stable semantic field value used by [`CanonicalExpression`].
#[derive(Debug, PartialEq, Eq)]
pub enum CanonicalExpressionValue {
    /// Explicit semantic null.
    Null,
    /// Boolean semantic scalar.
    Boolean(bool),
    /// Signed integral semantic scalar.
    Integer(i64),
    /// Exact normalized semantic text.
    Text(String),
    /// Stable qualified PostgreSQL type identity.
    Type(QualifiedTypeName),
    /// Stable qualified PostgreSQL collation identity.
    Collation(QualifiedCollationName),
    /// Stable binary PostgreSQL operator identity.
    Operator(QualifiedOperatorSignature),
    /// Stable unary PostgreSQL operator identity.
    UnaryOperator(QualifiedUnaryOperatorSignature),
    /// Stable PostgreSQL function identity.
    Function(QualifiedFunctionSignature),
    /// One nested semantic expression.
    Expression(Box<CanonicalExpression>),
    /// Ordered nested expression list.
    ExpressionList(Vec<CanonicalExpression>),
    /// Ordered stable semantic values for non-expression list fields.
    ValueList(Vec<CanonicalExpressionValue>),
}

/// Attribute-map-normalized semantic representation of an index expression or predicate.
#[derive(Debug, PartialEq, Eq)]
pub enum CanonicalExpression {
    /// Relation-local user-column Var normalized to the exact column name.
    Column(String),
    /// Whole-row Var.
    WholeRow,
    /// PostgreSQL semantic node with deterministic complete semantic fields.
    Node {
        /// Stable PostgreSQL semantic node tag, such as `FuncExpr` or `OpExpr`.
        node_kind: String,
        /// Fields sorted by name, without duplicate names.
        fields: Vec<CanonicalExpressionField>,
    },
}

/// The name of a field.
pub closed spec fn field_name(f: CanonicalExpressionField) -> Seq<char> {
    f.name@
}

/// The value of a field.
pub closed spec fn field_value(f: CanonicalExpressionField) -> CanonicalExpressionValue {
    f.value
}

/// Whether an expression contains a whole-row Var at any depth.
pub closed spec fn expr_has_whole_row(e: CanonicalExpression) -> bool
    decreases e,
{
    match e {
        CanonicalExpression::Column(_) => false,
        CanonicalExpression::WholeRow => true,
        CanonicalExpression::Node { fields, .. } => exists|i: int|
            0 <= i < fields@.len() && value_has_whole_row(#[trigger] fields@[i].value),
    }
}

/// Whether a field value contains a whole-row Var at any depth.
pub closed spec fn value_has_whole_row(v: CanonicalExpressionValue) -> bool
    decreases v,
{
    match v {
        CanonicalExpressionValue::Expression(e) => expr_has_whole_row(*e),
        CanonicalExpressionValue::ExpressionList(es) => exists|i: int|
            0 <= i < es@.len() && expr_has_whole_row(#[trigger] es@[i]),
        CanonicalExpressionValue::ValueList(vs) => exists|i: int|
            0 <= i < vs@.len() && value_has_whole_row(#[trigger] vs@[i]),
        _ => false,
    }
}

/// Semantic equality of two expressions (texts and signatures compared by value).
pub closed spec fn expr_equal(a: CanonicalExpression, b: CanonicalExpression) -> bool
    decreases a,
{
    match (a, b) {
        (CanonicalExpression::Column(x), CanonicalExpression::Column(y)) => x@ == y@,
        (CanonicalExpression::WholeRow, CanonicalExpression::WholeRow) => true,
        (
            CanonicalExpression::Node { node_kind: k1, fields: f1 },
            CanonicalExpression::Node { node_kind: k2, fields: f2 },
        ) => k1@ == k2@ && f1@.len() == f2@.len() && forall|i: int|
            0 <= i < f1@.len() ==> f1@[i].name@ == f2@[i].name@ && value_equal(
                #[trigger] f1@[i].value,
                f2@[i].value,
            ),
        _ => false,
    }
}

/// Semantic equality of two field values.
pub closed spec fn value_equal(a: CanonicalExpressionValue, b: CanonicalExpressionValue) -> bool
    decreases a,
{
    match (a, b) {
        (CanonicalExpressionValue::Null, CanonicalExpressionValue::Null) => true,
        (CanonicalExpressionValue::Boolean(x), CanonicalExpressionValue::Boolean(y)) => x == y,
        (CanonicalExpressionValue::Integer(x), CanonicalExpressionValue::Integer(y)) => x == y,
        (CanonicalExpressionValue::Text(x), CanonicalExpressionValue::Text(y)) => x@ == y@,
        (CanonicalExpressionValue::Type(x), CanonicalExpressionValue::Type(y)) => x@ == y@,
        (CanonicalExpressionValue::Collation(x), CanonicalExpressionValue::Collation(y)) => x@ == y@,
        (CanonicalExpressionValue::Operator(x), CanonicalExpressionValue::Operator(y)) => x@ == y@,
        (CanonicalExpressionValue::UnaryOperator(x), CanonicalExpressionValue::UnaryOperator(y)) => x@
            == y@,
        (CanonicalExpressionValue::Function(x), CanonicalExpressionValue::Function(y)) => x@ == y@,
        (CanonicalExpressionValue::Expression(x), CanonicalExpressionValue::Expression(y)) => expr_equal(
            *x,
            *y,
        ),
        (CanonicalExpressionValue::ExpressionList(xs), CanonicalExpressionValue::ExpressionList(ys)) => xs@.len()
            == ys@.len() && forall|i: int|
            0 <= i < xs@.len() ==> expr_equal(#[trigger] xs@[i], ys@[i]),
        (CanonicalExpressionValue::ValueList(xs), CanonicalExpressionValue::ValueList(ys)) => xs@.len()
            == ys@.len() && forall|i: int|
            0 <= i < xs@.len() ==> value_equal(#[trigger] xs@[i], ys@[i]),
        _ => false,
    }
}

impl CanonicalExpressionField {
    /// Creates one nonblank semantic field.
    pub fn new(name: &str, value: CanonicalExpressionValue) -> (r: Result<Self, ObservationError>)
        ensures
            r is Ok <==> !is_blank(name@),
            r matches Ok(f) ==> field_name(f) == name@ && field_value(f) == value,
            is_blank(name@) ==> fails_with(r, "canonical_expression_field_name"),
    {
        validate_nonblank(name, "canonical_expression_field_name")?;
        Ok(CanonicalExpressionField { name: name.to_owned(), value })
    }

    /// Returns the stable semantic field name.
    pub fn name(&self) -> (s: &str)
        ensures
            s@ == field_name(*self),
    {
        self.name.as_str()
    }

    /// Returns the typed stable semantic field value.
    pub fn value(&self) -> (v: &CanonicalExpressionValue)
        ensures
            *v == field_value(*self),
    {
        &self.value
    }
}

impl SortKey for CanonicalExpressionField {
    closed spec fn key_lt(self, other: Self) -> bool {
        text_lt(self.name@, other.name@)
    }

    proof fn lemma_key_lt_transitive(a: Self, b: Self, c: Self) {
        lemma_text_lt_transitive(a.name@, b.name@, c.name@);
    }

    proof fn lemma_key_lt_irreflexive(a: Self) {
        lemma_text_lt_irreflexive(a.name@);
    }

    fn compare_key(&self, other: &Self) -> (o: KeyOrder) {
        compare_text(self.name.as_str(), other.name.as_str())
    }
}

/// Two different fields share a name.
pub open spec fn duplicate_field_name(fields: Seq<CanonicalExpressionField>) -> bool {
    exists|i: int, j: int|
        0 <= i < j < fields.len() && field_name(#[trigger] fields[i]) == field_name(#[trigger] fields[j])
}

/// Field names are strictly increasing.
pub open spec fn fields_sorted(fields: Seq<CanonicalExpressionField>) -> bool {
    forall|i: int, j: int|
        0 <= i < j < fields.len() ==> text_lt(field_name(#[trigger] fields[i]), field_name(#[trigger] fields[j]))
}

proof fn lemma_field_collision(fields: Seq<CanonicalExpressionField>)
    ensures
        crate::order::has_key_collision(fields) <==> duplicate_field_name(fields),
{
    if crate::order::has_key_collision(fields) {
        let (i, j) = choose|i: int, j: int| 0 <= i < j < fields.len() && crate::order::same_key(#[trigger] fields[i], #[trigger] fields[j]);
        if fields[i].name@ != fields[j].name@ {
            lemma_text_lt_total(fields[i].name@, fields[j].name@);
        }
        assert(field_name(fields[i]) == field_name(fields[j]));
    }
    if duplicate_field_name(fields) {
        let (i, j) = choose|i: int, j: int| 0 <= i < j < fields.len() && field_name(#[trigger] fields[i]) == field_name(#[trigger] fields[j]);
        lemma_text_lt_irreflexive(fields[i].name@);
        assert(crate::order::same_key(fields[i], fields[j]));
    }
}

/// The kind and fields of a node expression.
pub closed spec fn node_parts(e: CanonicalExpression) -> Option<(Seq<char>, Seq<CanonicalExpressionField>)> {
    match e {
        CanonicalExpression::Node { node_kind, fields } => Some((node_kind@, fields@)),
        _ => None,
    }
}

/// The column name of a column expression.
pub closed spec fn column_of(e: CanonicalExpression) -> Option<Seq<char>> {
    match e {
        CanonicalExpression::Column(name) => Some(name@),
        _ => None,
    }
}

impl CanonicalExpression {
    /// Creates a relation-local column reference.
    pub fn column(column_name: &str) -> (r: Result<Self, ObservationError>)
        ensures
            r is Ok <==> !is_blank(column_name@),
            r matches Ok(e) ==> column_of(e) == Some(column_name@),
            is_blank(column_name@) ==> fails_with(r, "canonical_expression_column_name"),
    {
        validate_nonblank(column_name, "canonical_expression_column_name")?;
        Ok(CanonicalExpression::Column(column_name.to_owned()))
    }

    /// Records a whole-row Var explicitly.
    pub fn whole_row() -> (e: Self)
        ensures
            e == CanonicalExpression::WholeRow,
    {
        CanonicalExpression::WholeRow
    }

    /// Creates one normalized semantic node; fields are sorted by name and duplicate names are
    /// rejected.
    pub fn node(node_kind: &str, fields: Vec<CanonicalExpressionField>) -> (r: Result<Self, ObservationError>)
        ensures
            r is Ok <==> !is_blank(node_kind@) && !duplicate_field_name(fields@),
            r matches Ok(e) ==> node_parts(e) matches Some((kind, sorted)) && kind == node_kind@
                && fields_sorted(sorted) && crate::order::same_elements(sorted, fields@),
            is_blank(node_kind@) ==> fails_with(r, "canonical_expression_node_kind"),
            !is_blank(node_kind@) && duplicate_field_name(fields@) ==> fails_with(
                r,
                "canonical_expression_field",
            ),
    {
        validate_nonblank(node_kind, "canonical_expression_node_kind")?;
        proof {
            lemma_field_collision(fields@);
        }
        match crate::order::sort_by_key(fields) {
            None => Err(invalid("canonical_expression_field")),
            Some(sorted) => {
                proof {
                    assert forall|i: int, j: int| 0 <= i < j < sorted@.len() implies text_lt(
                        field_name(#[trigger] sorted@[i]),
                        field_name(#[trigger] sorted@[j]),
                    ) by {
                        assert(sorted@[i].key_lt(sorted@[j]));
                    }
                }
                Ok(CanonicalExpression::Node { node_kind: node_kind.to_owned(), fields: sorted })
            },
        }
    }

    /// Returns whether this tree contains a whole-row relation Var at any depth.
    pub fn contains_whole_row(&self) -> (b: bool)
        ensures
            b == expr_has_whole_row(*self),
        decreases self,
    {
        match self {
            CanonicalExpression::Column(_) => false,
            CanonicalExpression::WholeRow => true,
            CanonicalExpression::Node { fields, .. } => {
                let mut i: usize = 0;
                #[verifier::loop_isolation(false)]
                while i < fields.len()
                    invariant
                        i <= fields@.len(),
                        forall|k: int| 0 <= k < i ==> !value_has_whole_row(#[trigger] fields@[k].value),
                    decreases fields@.len() - i,
                {
                    if value_contains_whole_row(&fields[i].value) {
                        return true;
                    }
                    i = i + 1;
                }
                false
            },
        }
    }
}

/// Returns whether a field value contains a whole-row relation Var at any depth.
pub fn value_contains_whole_row(value: &CanonicalExpressionValue) -> (b: bool)
    ensures
        b == value_has_whole_row(*value),
    decreases value,
{
    match value {
        CanonicalExpressionValue::Expression(e) => e.contains_whole_row(),
        CanonicalExpressionValue::ExpressionList(es) => {
            let mut i: usize = 0;
            #[verifier::loop_isolation(false)]
            while i < es.len()
                invariant
                    i <= es@.len(),
                    forall|k: int| 0 <= k < i ==> !expr_has_whole_row(#[trigger] es@[k]),
                decreases es@.len() - i,
            {
                if es[i].contains_whole_row() {
                    return true;
                }
                i = i + 1;
            }
            false
        },
        CanonicalExpressionValue::ValueList(vs) => {
            let mut i: usize = 0;
            #[verifier::loop_isolation(false)]
            while i < vs.len()
                invariant
                    i <= vs@.len(),
                    forall|k: int| 0 <= k < i ==> !value_has_whole_row(#[trigger] vs@[k]),
                decreases vs@.len() - i,
            {
                if value_contains_whole_row(&vs[i]) {
                    return true;
                }
                i = i + 1;
            }
            false
        },
        _ => false,
    }
}

} // verus!

verus! {

/// Relation-column leaf names of an expression in preorder (whole-row Vars contribute nothing).
pub closed spec fn expr_columns(e: CanonicalExpression) -> Seq<Seq<char>>
    decreases e, 0nat,
{
    match e {
        CanonicalExpression::Column(name) => seq![name@],
        CanonicalExpression::WholeRow => Seq::empty(),
        CanonicalExpression::Node { fields, .. } => fields_columns(fields@, fields@.len()),
    }
}

/// Column leaves of the first `n` fields, in order.
pub closed spec fn fields_columns(fs: Seq<CanonicalExpressionField>, n: nat) -> Seq<Seq<char>>
    decreases fs, n,
{
    if n == 0 || n > fs.len() {
        Seq::empty()
    } else {
        fields_columns(fs, (n - 1) as nat) + value_columns(fs[n - 1].value)
    }
}

/// Column leaves of the first `n` expressions, in order.
pub closed spec fn exprs_columns(es: Seq<CanonicalExpression>, n: nat) -> Seq<Seq<char>>
    decreases es, n,
{
    if n == 0 || n > es.len() {
        Seq::empty()
    } else {
        exprs_columns(es, (n - 1) as nat) + expr_columns(es[n - 1])
    }
}

/// Column leaves of the first `n` values, in order.
pub closed spec fn values_columns(vs: Seq<CanonicalExpressionValue>, n: nat) -> Seq<Seq<char>>
    decreases vs, n,
{
    if n == 0 || n > vs.len() {
        Seq::empty()
    } else {
        values_columns(vs, (n - 1) as nat) + value_columns(vs[n - 1])
    }
}

/// Column leaves of a field value in preorder.
pub closed spec fn value_columns(v: CanonicalExpressionValue) -> Seq<Seq<char>>
    decreases v, 0nat,
{
    match v {
        CanonicalExpressionValue::Expression(e) => expr_columns(*e),
        CanonicalExpressionValue::ExpressionList(es) => exprs_columns(es@, es@.len()),
        CanonicalExpressionValue::ValueList(vs) => values_columns(vs@, vs@.len()),
        _ => Seq::empty(),
    }
}

/// The texts of a sequence of strings.
pub open spec fn string_views(s: Seq<String>) -> Seq<Seq<char>> {
    s.map_values(|x: String| x@)
}

proof fn lemma_string_views_push(s: Seq<String>, x: String)
    ensures
        string_views(s.push(x)) == string_views(s).push(x@),
{
    assert(string_views(s.push(x)) =~= string_views(s).push(x@));
}

/// Appends the column leaves of an expression.
pub fn collect_expression_columns(e: &CanonicalExpression, out: &mut Vec<String>)
    ensures
        string_views(final(out)@) == string_views(old(out)@) + expr_columns(*e),
    decreases e, 0nat,
{
    match e {
        CanonicalExpression::Column(name) => {
            let ghost before = out@;
            let copy = name.clone();
            out.push(copy);
            proof {
                lemma_string_views_push(before, copy);
                assert(string_views(out@) =~= string_views(before) + seq![name@]);
            }
        },
        CanonicalExpression::WholeRow => {
            assert(string_views(out@) =~= string_views(out@) + Seq::<Seq<char>>::empty());
        },
        CanonicalExpression::Node { fields, .. } => {
            let ghost start = string_views(out@);
            let mut i: usize = 0;
            assert(start =~= start + fields_columns(fields@, 0));
            #[verifier::loop_isolation(false)]
            while i < fields.len()
                invariant
                    i <= fields@.len(),
                    string_views(out@) == start + fields_columns(fields@, i as nat),
                decreases fields@.len() - i,
            {
                collect_value_columns(&fields[i].value, out);
                proof {
                    assert(fields_columns(fields@, (i + 1) as nat) == fields_columns(fields@, i as nat) + value_columns(fields@[i as int].value));
                    assert(string_views(out@) =~= start + fields_columns(fields@, (i + 1) as nat));
                }
                i = i + 1;
            }
        },
    }
}

/// Appends the column leaves of a field value.
pub fn collect_value_columns(v: &CanonicalExpressionValue, out: &mut Vec<String>)
    ensures
        string_views(final(out)@) == string_views(old(out)@) + value_columns(*v),
    decreases v, 0nat,
{
    match v {
        CanonicalExpressionValue::Expression(e) => {
            collect_expression_columns(e, out);
        },
        CanonicalExpressionValue::ExpressionList(es) => {
            let ghost start = string_views(out@);
            let mut i: usize = 0;
            assert(start =~= start + exprs_columns(es@, 0));
            #[verifier::loop_isolation(false)]
            while i < es.len()
                invariant
                    i <= es@.len(),
                    string_views(out@) == start + exprs_columns(es@, i as nat),
                decreases es@.len() - i,
            {
                collect_expression_columns(&es[i], out);
                proof {
                    assert(exprs_columns(es@, (i + 1) as nat) == exprs_columns(es@, i as nat) + expr_columns(es@[i as int]));
                    assert(string_views(out@) =~= start + exprs_columns(es@, (i + 1) as nat));
                }
                i = i + 1;
            }
        },
        CanonicalExpressionValue::ValueList(vs) => {
            let ghost start = string_views(out@);
            let mut i: usize = 0;
            assert(start =~= start + values_columns(vs@, 0));
            #[verifier::loop_isolation(false)]
            while i < vs.len()
                invariant
                    i <= vs@.len(),
                    string_views(out@) == start + values_columns(vs@, i as nat),
                decreases vs@.len() - i,
            {
                collect_value_columns(&vs[i], out);
                proof {
                    assert(values_columns(vs@, (i + 1) as nat) == values_columns(vs@, i as nat) + value_columns(vs@[i as int]));
                    assert(string_views(out@) =~= start + values_columns(vs@, (i + 1) as nat));
                }
                i = i + 1;
            }
        },
        _ => {
            assert(string_views(out@) =~= string_views(out@) + Seq::<Seq<char>>::empty());
        },
    }
}

} // verus!

verus! {

/// Qualified collation names of an expression in preorder.
pub closed spec fn expr_collations(e: CanonicalExpression) -> Seq<QualifiedNameView>
    decreases e, 0nat,
{
    match e {
        CanonicalExpression::Column(_) => Seq::empty(),
        CanonicalExpression::WholeRow => Seq::empty(),
        CanonicalExpression::Node { fields, .. } => fields_collations(fields@, fields@.len()),
    }
}

/// Collation names of the first `n` fields, in order.
pub closed spec fn fields_collations(fs: Seq<CanonicalExpressionField>, n: nat) -> Seq<QualifiedNameView>
    decreases fs, n,
{
    if n == 0 || n > fs.len() {
        Seq::empty()
    } else {
        fields_collations(fs, (n - 1) as nat) + value_collations(fs[n - 1].value)
    }
}

/// Collation names of the first `n` expressions, in order.
pub closed spec fn exprs_collations(es: Seq<CanonicalExpression>, n: nat) -> Seq<QualifiedNameView>
    decreases es, n,
{
    if n == 0 || n > es.len() {
        Seq::empty()
    } else {
        exprs_collations(es, (n - 1) as nat) + expr_collations(es[n - 1])
    }
}

/// Collation names of the first `n` values, in order.
pub closed spec fn values_collations(vs: Seq<CanonicalExpressionValue>, n: nat) -> Seq<QualifiedNameView>
    decreases vs, n,
{
    if n == 0 || n > vs.len() {
        Seq::empty()
    } else {
        values_collations(vs, (n - 1) as nat) + value_collations(vs[n - 1])
    }
}

/// Collation names of a field value in preorder.
pub closed spec fn value_collations(v: CanonicalExpressionValue) -> Seq<QualifiedNameView>
    decreases v, 0nat,
{
    match v {
        CanonicalExpressionValue::Collation(c) => seq![c@],
        CanonicalExpressionValue::Expression(e) => expr_collations(*e),
        CanonicalExpressionValue::ExpressionList(es) => exprs_collations(es@, es@.len()),
        CanonicalExpressionValue::ValueList(vs) => values_collations(vs@, vs@.len()),
        _ => Seq::empty(),
    }
}

/// The values of a sequence of qualified collation names.
pub open spec fn collation_name_views(s: Seq<QualifiedCollationName>) -> Seq<QualifiedNameView> {
    s.map_values(|x: QualifiedCollationName| x@)
}

proof fn lemma_collation_views_push(s: Seq<QualifiedCollationName>, x: QualifiedCollationName)
    ensures
        collation_name_views(s.push(x)) == collation_name_views(s).push(x@),
{
    assert(collation_name_views(s.push(x)) =~= collation_name_views(s).push(x@));
}

/// Appends the collation names of an expression.
pub fn collect_expression_collations(e: &CanonicalExpression, out: &mut Vec<QualifiedCollationName>)
    ensures
        collation_name_views(final(out)@) == collation_name_views(old(out)@) + expr_collations(*e),
    decreases e, 0nat,
{
    match e {
        CanonicalExpression::Column(_) | CanonicalExpression::WholeRow => {
            assert(collation_name_views(out@) =~= collation_name_views(out@) + Seq::<QualifiedNameView>::empty());
        },
        CanonicalExpression::Node { fields, .. } => {
            let ghost start = collation_name_views(out@);
            let mut i: usize = 0;
            assert(start =~= start + fields_collations(fields@, 0));
            #[verifier::loop_isolation(false)]
            while i < fields.len()
                invariant
                    i <= fields@.len(),
                    collation_name_views(out@) == start + fields_collations(fields@, i as nat),
                decreases fields@.len() - i,
            {
                collect_value_collations(&fields[i].value, out);
                proof {
                    assert(fields_collations(fields@, (i + 1) as nat) == fields_collations(fields@, i as nat) + value_collations(fields@[i as int].value));
                    assert(collation_name_views(out@) =~= start + fields_collations(fields@, (i + 1) as nat));
                }
                i = i + 1;
            }
        },
    }
}

/// Appends the collation names of a field value.
pub fn collect_value_collations(v: &CanonicalExpressionValue, out: &mut Vec<QualifiedCollationName>)
    ensures
        collation_name_views(final(out)@) == collation_name_views(old(out)@) + value_collations(*v),
    decreases v, 0nat,
{
    match v {
        CanonicalExpressionValue::Collation(c) => {
            let ghost before = out@;
            let copy = c.clone();
            out.push(copy);
            proof {
                lemma_collation_views_push(before, copy);
                assert(collation_name_views(out@) =~= collation_name_views(before) + seq![c@]);
            }
        },
        CanonicalExpressionValue::Expression(e) => {
            collect_expression_collations(e, out);
        },
        CanonicalExpressionValue::ExpressionList(es) => {
            let ghost start = collation_name_views(out@);
            let mut i: usize = 0;
            assert(start =~= start + exprs_collations(es@, 0));
            #[verifier::loop_isolation(false)]
            while i < es.len()
                invariant
                    i <= es@.len(),
                    collation_name_views(out@) == start + exprs_collations(es@, i as nat),
                decreases es@.len() - i,
            {
                collect_expression_collations(&es[i], out);
                proof {
                    assert(exprs_collations(es@, (i + 1) as nat) == exprs_collations(es@, i as nat) + expr_collations(es@[i as int]));
                    assert(collation_name_views(out@) =~= start + exprs_collations(es@, (i + 1) as nat));
                }
                i = i + 1;
            }
        },
        CanonicalExpressionValue::ValueList(vs) => {
            let ghost start = collation_name_views(out@);
            let mut i: usize = 0;
            assert(start =~= start + values_collations(vs@, 0));
            #[verifier::loop_isolation(false)]
            while i < vs.len()
                invariant
                    i <= vs@.len(),
                    collation_name_views(out@) == start + values_collations(vs@, i as nat),
                decreases vs@.len() - i,
            {
                collect_value_collations(&vs[i], out);
                proof {
                    assert(values_collations(vs@, (i + 1) as nat) == values_collations(vs@, i as nat) + value_collations(vs@[i as int]));
                    assert(collation_name_views(out@) =~= start + values_collations(vs@, (i + 1) as nat));
                }
                i = i + 1;
            }
        },
        _ => {
            assert(collation_name_views(out@) =~= collation_name_views(out@) + Seq::<QualifiedNameView>::empty());
        },
    }
}

} // verus!

verus! {

/// Digest framing of an expression.
pub open spec fn frame_expr(e: CanonicalExpression) -> Seq<u8>
    decreases e, 0nat,
{
    match e {
        CanonicalExpression::Column(name) => seq![0u8] + frame_str(name@),
        CanonicalExpression::WholeRow => seq![1u8],
        CanonicalExpression::Node { node_kind, fields } => seq![2u8] + frame_str(node_kind@) + frame_len(
            fields@.len(),
        ) + frame_fields(fields@, fields@.len()),
    }
}

/// Digest framing of the first `n` fields: each name followed by its value.
pub open spec fn frame_fields(fs: Seq<CanonicalExpressionField>, n: nat) -> Seq<u8>
    decreases fs, n,
{
    if n == 0 || n > fs.len() {
        Seq::empty()
    } else {
        frame_fields(fs, (n - 1) as nat) + frame_str(field_name(fs[n - 1])) + frame_value(field_value(fs[n - 1]))
    }
}

/// Digest framing of the first `n` expressions.
pub open spec fn frame_exprs(es: Seq<CanonicalExpression>, n: nat) -> Seq<u8>
    decreases es, n,
{
    if n == 0 || n > es.len() {
        Seq::empty()
    } else {
        frame_exprs(es, (n - 1) as nat) + frame_expr(es[n - 1])
    }
}

/// Digest framing of the first `n` values.
pub open spec fn frame_values(vs: Seq<CanonicalExpressionValue>, n: nat) -> Seq<u8>
    decreases vs, n,
{
    if n == 0 || n > vs.len() {
        Seq::empty()
    } else {
        frame_values(vs, (n - 1) as nat) + frame_value(vs[n - 1])
    }
}

/// Digest framing of a field value: a variant tag followed by its content.
pub open spec fn frame_value(v: CanonicalExpressionValue) -> Seq<u8>
    decreases v, 0nat,
{
    match v {
        CanonicalExpressionValue::Null => seq![0u8],
        CanonicalExpressionValue::Boolean(b) => seq![1u8] + frame_bool(b),
        CanonicalExpressionValue::Integer(i) => seq![2u8] + frame_i64(i),
        CanonicalExpressionValue::Text(t) => seq![3u8] + frame_str(t@),
        CanonicalExpressionValue::Type(t) => seq![4u8] + frame_type(t@),
        CanonicalExpressionValue::Collation(c) => seq![5u8] + frame_str(c@.schema_name) + frame_str(
            c@.name,
        ),
        CanonicalExpressionValue::Operator(o) => seq![6u8] + frame_str(o@.schema_name) + frame_str(
            o@.operator_name,
        ) + frame_type(o@.left_type) + frame_type(o@.right_type),
        CanonicalExpressionValue::UnaryOperator(o) => seq![7u8] + frame_str(o@.schema_name)
            + frame_str(o@.operator_name) + frame_type(o@.operand_type),
        CanonicalExpressionValue::Function(f) => seq![8u8] + frame_str(f@.schema_name) + frame_str(
            f@.function_name,
        ) + frame_len(f@.argument_types.len()) + frame_types(f@.argument_types) + frame_type(
            f@.return_type,
        ),
        CanonicalExpressionValue::Expression(e) => seq![9u8] + frame_expr(*e),
        CanonicalExpressionValue::ExpressionList(es) => seq![10u8] + frame_len(es@.len()) + frame_exprs(
            es@,
            es@.len(),
        ),
        CanonicalExpressionValue::ValueList(vs) => seq![11u8] + frame_len(vs@.len()) + frame_values(
            vs@,
            vs@.len(),
        ),
    }
}

/// Appends the digest framing of an expression.
pub fn put_expression(out: &mut Vec<u8>, e: &CanonicalExpression)
    ensures
        final(out)@ == old(out)@ + frame_expr(*e),
    decreases e, 0nat,
{
    let ghost start = out@;
    match e {
        CanonicalExpression::Column(name) => {
            put_tag(out, 0);
            put_str(out, name.as_str());
            assert(out@ =~= start + frame_expr(*e));
        },
        CanonicalExpression::WholeRow => {
            put_tag(out, 1);
            assert(out@ =~= start + frame_expr(*e));
        },
        CanonicalExpression::Node { node_kind, fields } => {
            put_tag(out, 2);
            put_str(out, node_kind.as_str());
            put_len(out, fields.len());
            let ghost header = out@;
            let mut i: usize = 0;
            assert(header =~= header + frame_fields(fields@, 0));
            #[verifier::loop_isolation(false)]
            while i < fields.len()
                invariant
                    i <= fields@.len(),
                    out@ == header + frame_fields(fields@, i as nat),
                decreases fields@.len() - i,
            {
                put_str(out, fields[i].name.as_str());
                put_expression_value(out, &fields[i].value);
                proof {
                    assert(frame_fields(fields@, (i + 1) as nat) == frame_fields(fields@, i as nat)
                        + frame_str(fields@[i as int].name@) + frame_value(fields@[i as int].value));
                    assert(out@ =~= header + frame_fields(fields@, (i + 1) as nat));
                }
                i = i + 1;
            }
            assert(out@ =~= start + frame_expr(*e));
        },
    }
}

/// Appends the digest framing of a field value.
pub fn put_expression_value(out: &mut Vec<u8>, v: &CanonicalExpressionValue)
    ensures
        final(out)@ == old(out)@ + frame_value(*v),
    decreases v, 0nat,
{
    let ghost start = out@;
    match v {
        CanonicalExpressionValue::Null => {
            put_tag(out, 0);
        },
        CanonicalExpressionValue::Boolean(b) => {
            put_tag(out, 1);
            put_bool(out, *b);
        },
        CanonicalExpressionValue::Integer(i) => {
            put_tag(out, 2);
            put_i64(out, *i);
        },
        CanonicalExpressionValue::Text(t) => {
            put_tag(out, 3);
            put_str(out, t.as_str());
        },
        CanonicalExpressionValue::Type(t) => {
            put_tag(out, 4);
            put_type(out, t);
        },
        CanonicalExpressionValue::Collation(c) => {
            put_tag(out, 5);
            put_str(out, c.schema_name());
            put_str(out, c.collation_name());
        },
        CanonicalExpressionValue::Operator(o) => {
            put_tag(out, 6);
            put_str(out, o.schema_name());
            put_str(out, o.operator_name());
            put_type(out, o.left_type());
            put_type(out, o.right_type());
        },
        CanonicalExpressionValue::UnaryOperator(o) => {
            put_tag(out, 7);
            put_str(out, o.schema_name());
            put_str(out, o.operator_name());
            put_type(out, o.operand_type());
        },
        CanonicalExpressionValue::Function(f) => {
            put_tag(out, 8);
            put_str(out, f.schema_name());
            put_str(out, f.function_name());
            let arguments = f.argument_types();
            put_len(out, arguments.len());
            proof {
                assert(type_views(arguments@).len() == arguments@.len());
            }
            put_types(out, arguments);
            put_type(out, f.return_type());
        },
        CanonicalExpressionValue::Expression(e) => {
            put_tag(out, 9);
            put_expression(out, e);
        },
        CanonicalExpressionValue::ExpressionList(es) => {
            put_tag(out, 10);
            put_len(out, es.len());
            let ghost header = out@;
            let mut i: usize = 0;
            assert(header =~= header + frame_exprs(es@, 0));
            #[verifier::loop_isolation(false)]
            while i < es.len()
                invariant
                    i <= es@.len(),
                    out@ == header + frame_exprs(es@, i as nat),
                decreases es@.len() - i,
            {
                put_expression(out, &es[i]);
                proof {
                    assert(frame_exprs(es@, (i + 1) as nat) == frame_exprs(es@, i as nat) + frame_expr(es@[i as int]));
                    assert(out@ =~= header + frame_exprs(es@, (i + 1) as nat));
                }
                i = i + 1;
            }
        },
        CanonicalExpressionValue::ValueList(vs) => {
            put_tag(out, 11);
            put_len(out, vs.len());
            let ghost header = out@;
            let mut i: usize = 0;
            assert(header =~= header + frame_values(vs@, 0));
            #[verifier::loop_isolation(false)]
            while i < vs.len()
                invariant
                    i <= vs@.len(),
                    out@ == header + frame_values(vs@, i as nat),
                decreases vs@.len() - i,
            {
                put_expression_value(out, &vs[i]);
                proof {
                    assert(frame_values(vs@, (i + 1) as nat) == frame_values(vs@, i as nat) + frame_value(vs@[i as int]));
                    assert(out@ =~= header + frame_values(vs@, (i + 1) as nat));
                }
                i = i + 1;
            }
        },
    }
    assert(out@ =~= start + frame_value(*v));
}

} // verus!

verus! {

/// Reports whether two expressions are semantically equal.
pub fn same_expression(a: &CanonicalExpression, b: &CanonicalExpression) -> (r: bool)
    ensures
        r == expr_equal(*a, *b),
    decreases a,
{
    match (a, b) {
        (CanonicalExpression::Column(x), CanonicalExpression::Column(y)) => text_eq(x.as_str(), y.as_str()),
        (CanonicalExpression::WholeRow, CanonicalExpression::WholeRow) => true,
        (
            CanonicalExpression::Node { node_kind: k1, fields: f1 },
            CanonicalExpression::Node { node_kind: k2, fields: f2 },
        ) => {
            if !text_eq(k1.as_str(), k2.as_str()) || f1.len() != f2.len() {
                return false;
            }
            let mut i: usize = 0;
            #[verifier::loop_isolation(false)]
            while i < f1.len()
                invariant
                    i <= f1@.len(),
                    f1@.len() == f2@.len(),
                    forall|k: int| 0 <= k < i ==> f1@[k].name@ == f2@[k].name@ && value_equal(
                        #[trigger] f1@[k].value,
                        f2@[k].value,
                    ),
                decreases f1@.len() - i,
            {
                if !text_eq(f1[i].name.as_str(), f2[i].name.as_str()) || !same_value(&f1[i].value, &f2[i].value) {
                    proof {
                        assert(!(f1@[i as int].name@ == f2@[i as int].name@ && value_equal(
                            f1@[i as int].value,
                            f2@[i as int].value,
                        )));
                    }
                    return false;
                }
                i = i + 1;
            }
            true
        },
        _ => false,
    }
}

/// Reports whether two field values are semantically equal.
pub fn same_value(a: &CanonicalExpressionValue, b: &CanonicalExpressionValue) -> (r: bool)
    ensures
        r == value_equal(*a, *b),
    decreases a,
{
    match (a, b) {
        (CanonicalExpressionValue::Null, CanonicalExpressionValue::Null) => true,
        (CanonicalExpressionValue::Boolean(x), CanonicalExpressionValue::Boolean(y)) => *x == *y,
        (CanonicalExpressionValue::Integer(x), CanonicalExpressionValue::Integer(y)) => *x == *y,
        (CanonicalExpressionValue::Text(x), CanonicalExpressionValue::Text(y)) => text_eq(x.as_str(), y.as_str()),
        (CanonicalExpressionValue::Type(x), CanonicalExpressionValue::Type(y)) => x.same_as(y),
        (CanonicalExpressionValue::Collation(x), CanonicalExpressionValue::Collation(y)) => x.same_as(y),
        (CanonicalExpressionValue::Operator(x), CanonicalExpressionValue::Operator(y)) => x.same_as(y),
        (CanonicalExpressionValue::UnaryOperator(x), CanonicalExpressionValue::UnaryOperator(y)) => x.same_as(y),
        (CanonicalExpressionValue::Function(x), CanonicalExpressionValue::Function(y)) => x.same_as(y),
        (CanonicalExpressionValue::Expression(x), CanonicalExpressionValue::Expression(y)) => same_expression(x, y),
        (CanonicalExpressionValue::ExpressionList(xs), CanonicalExpressionValue::ExpressionList(ys)) => {
            if xs.len() != ys.len() {
                return false;
            }
            let mut i: usize = 0;
            #[verifier::loop_isolation(false)]
            while i < xs.len()
                invariant
                    i <= xs@.len(),
                    xs@.len() == ys@.len(),
                    forall|k: int| 0 <= k < i ==> expr_equal(#[trigger] xs@[k], ys@[k]),
                decreases xs@.len() - i,
            {
                if !same_expression(&xs[i], &ys[i]) {
                    return false;
                }
                i = i + 1;
            }
            true
        },
        (CanonicalExpressionValue::ValueList(xs), CanonicalExpressionValue::ValueList(ys)) => {
            if xs.len() != ys.len() {
                return false;
            }
            let mut i: usize = 0;
            #[verifier::loop_isolation(false)]
            while i < xs.len()
                invariant
                    i <= xs@.len(),
                    xs@.len() == ys@.len(),
                    forall|k: int| 0 <= k < i ==> value_equal(#[trigger] xs@[k], ys@[k]),
                decreases xs@.len() - i,
            {
                if !same_value(&xs[i], &ys[i]) {
                    return false;
                }
                i = i + 1;
            }
            true
        },
        _ => false,
    }
}

} // verus!

verus! {

/// The field names of a `FuncExpr` node.
pub open spec fn func_expr_field_names() -> Seq<Seq<char>> {
    seq!["arguments"@, "function"@, "input_collation"@, "result_collation"@, "returns_set"@, "variadic"@]
}

/// The field names of an `OpExpr` node.
pub open spec fn op_expr_field_names() -> Seq<Seq<char>> {
    seq!["arguments"@, "input_collation"@, "operator"@, "result_collation"@, "result_type"@, "returns_set"@]
}

/// The fields carry exactly the expected names, each once.
pub open spec fn names_exactly(fs: Seq<CanonicalExpressionField>, expected: Seq<Seq<char>>) -> bool {
    &&& fs.len() == expected.len()
    &&& !duplicate_field_name(fs)
    &&& forall|i: int| 0 <= i < fs.len() ==> expected.contains(field_name(#[trigger] fs[i]))
}

/// The field called `name` holds a value of the given shape.
pub open spec fn named_value_is(
    fs: Seq<CanonicalExpressionField>,
    name: Seq<char>,
    shape: spec_fn(CanonicalExpressionValue) -> bool,
) -> bool {
    exists|i: int| 0 <= i < fs.len() && field_name(#[trigger] fs[i]) == name && shape(field_value(fs[i]))
}

/// A function signature value.
pub open spec fn is_function_value(v: CanonicalExpressionValue) -> bool {
    v is Function
}

/// A boolean value.
pub open spec fn is_boolean_value(v: CanonicalExpressionValue) -> bool {
    v is Boolean
}

/// A null or collation value.
pub open spec fn is_optional_collation_value(v: CanonicalExpressionValue) -> bool {
    v is Null || v is Collation
}

/// An expression-list value.
pub open spec fn is_expression_list_value(v: CanonicalExpressionValue) -> bool {
    v is ExpressionList
}

/// A binary operator value.
pub open spec fn is_operator_value(v: CanonicalExpressionValue) -> bool {
    v is Operator
}

/// A type value.
pub open spec fn is_type_value(v: CanonicalExpressionValue) -> bool {
    v is Type
}

/// The complete historical v1 field schema of one `FuncExpr` or `OpExpr` node.
pub open spec fn node_schema_v1(kind: Seq<char>, fs: Seq<CanonicalExpressionField>) -> bool {
    if kind == "FuncExpr"@ {
        &&& names_exactly(fs, func_expr_field_names())
        &&& named_value_is(fs, "function"@, |v| is_function_value(v))
        &&& named_value_is(fs, "returns_set"@, |v| is_boolean_value(v))
        &&& named_value_is(fs, "variadic"@, |v| is_boolean_value(v))
        &&& named_value_is(fs, "result_collation"@, |v| is_optional_collation_value(v))
        &&& named_value_is(fs, "input_collation"@, |v| is_optional_collation_value(v))
        &&& named_value_is(fs, "arguments"@, |v| is_expression_list_value(v))
    } else if kind == "OpExpr"@ {
        &&& names_exactly(fs, op_expr_field_names())
        &&& named_value_is(fs, "operator"@, |v| is_operator_value(v))
        &&& named_value_is(fs, "result_type"@, |v| is_type_value(v))
        &&& named_value_is(fs, "returns_set"@, |v| is_boolean_value(v))
        &&& named_value_is(fs, "result_collation"@, |v| is_optional_collation_value(v))
        &&& named_value_is(fs, "input_collation"@, |v| is_optional_collation_value(v))
        &&& named_value_is(fs, "arguments"@, |v| is_expression_list_value(v))
    } else {
        false
    }
}

/// Admission under the historical PostgreSQL 18 equality-schema v1: column and whole-row leaves
/// pass, every node is a `FuncExpr` or `OpExpr` with its complete field schema, recursively.
pub closed spec fn expr_schema_v1(e: CanonicalExpression) -> bool
    decreases e, 0nat,
{
    match e {
        CanonicalExpression::Column(_) => true,
        CanonicalExpression::WholeRow => true,
        CanonicalExpression::Node { node_kind, fields } => node_schema_v1(node_kind@, fields@)
            && fields_schema_v1(fields@, fields@.len()),
    }
}

/// The first `n` field values are admitted under v1.
pub closed spec fn fields_schema_v1(fs: Seq<CanonicalExpressionField>, n: nat) -> bool
    decreases fs, n,
{
    if n == 0 || n > fs.len() {
        true
    } else {
        fields_schema_v1(fs, (n - 1) as nat) && value_schema_v1(fs[n - 1].value)
    }
}

/// The first `n` expressions are admitted under v1.
pub closed spec fn exprs_schema_v1(es: Seq<CanonicalExpression>, n: nat) -> bool
    decreases es, n,
{
    if n == 0 || n > es.len() {
        true
    } else {
        exprs_schema_v1(es, (n - 1) as nat) && expr_schema_v1(es[n - 1])
    }
}

/// The first `n` values are admitted under v1.
pub closed spec fn values_schema_v1(vs: Seq<CanonicalExpressionValue>, n: nat) -> bool
    decreases vs, n,
{
    if n == 0 || n > vs.len() {
        true
    } else {
        values_schema_v1(vs, (n - 1) as nat) && value_schema_v1(vs[n - 1])
    }
}

/// A field value is admitted under v1: nested expressions are admitted recursively.
pub closed spec fn value_schema_v1(v: CanonicalExpressionValue) -> bool
    decreases v, 0nat,
{
    match v {
        CanonicalExpressionValue::Expression(e) => expr_schema_v1(*e),
        CanonicalExpressionValue::ExpressionList(es) => exprs_schema_v1(es@, es@.len()),
        CanonicalExpressionValue::ValueList(vs) => values_schema_v1(vs@, vs@.len()),
        _ => true,
    }
}

fn has_duplicate_name(fields: &[CanonicalExpressionField]) -> (r: bool)
    ensures
        r == duplicate_field_name(fields@),
{
    let mut i: usize = 0;
    while i < fields.len()
        invariant
            i <= fields@.len(),
            forall|a: int, b: int| 0 <= a < b < fields@.len() && a < i ==> field_name(#[trigger] fields@[a])
                != field_name(#[trigger] fields@[b]),
        decreases fields@.len() - i,
    {
        let mut j: usize = i + 1;
        while j < fields.len()
            invariant
                i < fields@.len(),
                i + 1 <= j <= fields@.len(),
                forall|a: int, b: int| 0 <= a < b < fields@.len() && a < i ==> field_name(#[trigger] fields@[a])
                    != field_name(#[trigger] fields@[b]),
                forall|b: int| i < b < j ==> field_name(fields@[i as int]) != field_name(#[trigger] fields@[b]),
            decreases fields@.len() - j,
        {
            if text_eq(fields[i].name.as_str(), fields[j].name.as_str()) {
                return true;
            }
            j = j + 1;
        }
        i = i + 1;
    }
    false
}

fn names_in(fields: &[CanonicalExpressionField], expected: &[&str]) -> (r: bool)
    ensures
        r == (fields@.len() == expected@.len() && !duplicate_field_name(fields@) && forall|i: int|
            0 <= i < fields@.len() ==> expected@.map_values(|s: &str| s@).contains(field_name(#[trigger] fields@[i]))),
{
    let ghost names = expected@.map_values(|s: &str| s@);
    if fields.len() != expected.len() || has_duplicate_name(fields) {
        return false;
    }
    let mut i: usize = 0;
    while i < fields.len()
        invariant
            i <= fields@.len(),
            names == expected@.map_values(|s: &str| s@),
            forall|k: int| 0 <= k < i ==> names.contains(field_name(#[trigger] fields@[k])),
        decreases fields@.len() - i,
    {
        let mut found = false;
        let mut j: usize = 0;
        while j < expected.len()
            invariant
                i < fields@.len(),
                j <= expected@.len(),
                names == expected@.map_values(|s: &str| s@),
                found ==> names.contains(field_name(fields@[i as int])),
                !found ==> forall|q: int| 0 <= q < j ==> names[q] != field_name(fields@[i as int]),
            decreases expected@.len() - j,
        {
            if text_eq(fields[i].name.as_str(), expected[j]) {
                assert(names[j as int] == expected@[j as int]@);
                found = true;
            }
            j = j + 1;
        }
        if !found {
            return false;
        }
        i = i + 1;
    }
    true
}

fn value_named<'a>(fields: &'a [CanonicalExpressionField], name: &str) -> (r: Option<&'a CanonicalExpressionValue>)
    ensures
        match r {
            Some(v) => exists|i: int| 0 <= i < fields@.len() && field_name(#[trigger] fields@[i]) == name@
                && field_value(fields@[i]) == *v,
            None => forall|i: int| 0 <= i < fields@.len() ==> field_name(#[trigger] fields@[i]) != name@,
        },
{
    let mut i: usize = 0;
    while i < fields.len()
        invariant
            i <= fields@.len(),
            forall|k: int| 0 <= k < i ==> field_name(#[trigger] fields@[k]) != name@,
        decreases fields@.len() - i,
    {
        if text_eq(fields[i].name.as_str(), name) {
            return Some(&fields[i].value);
        }
        i = i + 1;
    }
    None
}

} // verus!

verus! {

fn unique_named_value_is(
    fields: &[CanonicalExpressionField],
    name: &str,
    found: Option<&CanonicalExpressionValue>,
    ok: bool,
    Ghost(shape): Ghost<spec_fn(CanonicalExpressionValue) -> bool>,
) -> (r: bool)
    requires
        !duplicate_field_name(fields@),
        match found {
            Some(v) => exists|i: int| 0 <= i < fields@.len() && field_name(#[trigger] fields@[i]) == name@
                && field_value(fields@[i]) == *v,
            None => forall|i: int| 0 <= i < fields@.len() ==> field_name(#[trigger] fields@[i]) != name@,
        },
        found matches Some(v) ==> ok == shape(*v),
    ensures
        r == named_value_is(fields@, name@, shape),
{
    match found {
        None => false,
        Some(v) => {
            proof {
                let i0 = choose|i: int| 0 <= i < fields@.len() && field_name(#[trigger] fields@[i]) == name@
                    && field_value(fields@[i]) == *v;
                if named_value_is(fields@, name@, shape) {
                    let i1 = choose|i: int| 0 <= i < fields@.len() && field_name(#[trigger] fields@[i]) == name@
                        && shape(field_value(fields@[i]));
                    if i1 != i0 {
                        if i1 < i0 {
                            assert(duplicate_field_name(fields@));
                        } else {
                            assert(field_name(fields@[i0]) == field_name(fields@[i1]));
                            assert(duplicate_field_name(fields@));
                        }
                    }
                }
            }
            ok
        },
    }
}

fn value_has_shape(fields: &[CanonicalExpressionField], name: &str, code: u8) -> (r: bool)
    requires
        !duplicate_field_name(fields@),
        code < 6,
    ensures
        code == 0 ==> r == named_value_is(fields@, name@, |v| is_function_value(v)),
        code == 1 ==> r == named_value_is(fields@, name@, |v| is_boolean_value(v)),
        code == 2 ==> r == named_value_is(fields@, name@, |v| is_optional_collation_value(v)),
        code == 3 ==> r == named_value_is(fields@, name@, |v| is_expression_list_value(v)),
        code == 4 ==> r == named_value_is(fields@, name@, |v| is_operator_value(v)),
        code == 5 ==> r == named_value_is(fields@, name@, |v| is_type_value(v)),
{
    let found = value_named(fields, name);
    let ok = match found {
        None => false,
        Some(v) => match v {
            CanonicalExpressionValue::Function(_) => code == 0,
            CanonicalExpressionValue::Boolean(_) => code == 1,
            CanonicalExpressionValue::Null | CanonicalExpressionValue::Collation(_) => code == 2,
            CanonicalExpressionValue::ExpressionList(_) => code == 3,
            CanonicalExpressionValue::Operator(_) => code == 4,
            CanonicalExpressionValue::Type(_) => code == 5,
            _ => false,
        },
    };
    if code == 0 {
        unique_named_value_is(fields, name, found, ok, Ghost(|v| is_function_value(v)))
    } else if code == 1 {
        unique_named_value_is(fields, name, found, ok, Ghost(|v| is_boolean_value(v)))
    } else if code == 2 {
        unique_named_value_is(fields, name, found, ok, Ghost(|v| is_optional_collation_value(v)))
    } else if code == 3 {
        unique_named_value_is(fields, name, found, ok, Ghost(|v| is_expression_list_value(v)))
    } else if code == 4 {
        unique_named_value_is(fields, name, found, ok, Ghost(|v| is_operator_value(v)))
    } else {
        unique_named_value_is(fields, name, found, ok, Ghost(|v| is_type_value(v)))
    }
}

/// Checks the complete historical v1 field schema of one node.
fn check_node_schema_v1(kind: &str, fields: &[CanonicalExpressionField]) -> (r: bool)
    ensures
        r == node_schema_v1(kind@, fields@),
{
    if text_eq(kind, "FuncExpr") {
        let expected = ["arguments", "function", "input_collation", "result_collation", "returns_set", "variadic"];
        assert(expected@.map_values(|s: &str| s@) =~= func_expr_field_names());
        if !names_in(fields, &expected) {
            return false;
        }
        value_has_shape(fields, "function", 0) && value_has_shape(fields, "returns_set", 1)
            && value_has_shape(fields, "variadic", 1) && value_has_shape(fields, "result_collation", 2)
            && value_has_shape(fields, "input_collation", 2) && value_has_shape(fields, "arguments", 3)
    } else if text_eq(kind, "OpExpr") {
        let expected = ["arguments", "input_collation", "operator", "result_collation", "result_type", "returns_set"];
        assert(expected@.map_values(|s: &str| s@) =~= op_expr_field_names());
        if !names_in(fields, &expected) {
            return false;
        }
        value_has_shape(fields, "operator", 4) && value_has_shape(fields, "result_type", 5)
            && value_has_shape(fields, "returns_set", 1) && value_has_shape(fields, "result_collation", 2)
            && value_has_shape(fields, "input_collation", 2) && value_has_shape(fields, "arguments", 3)
    } else {
        false
    }
}

/// Admission under the historical PostgreSQL 18 equality-schema v1.
pub fn admits_schema_v1(e: &CanonicalExpression) -> (r: bool)
    ensures
        r == expr_schema_v1(*e),
    decreases e, 0nat,
{
    match e {
        CanonicalExpression::Column(_) => true,
        CanonicalExpression::WholeRow => true,
        CanonicalExpression::Node { node_kind, fields } => {
            if !check_node_schema_v1(node_kind.as_str(), fields.as_slice()) {
                return false;
            }
            let mut i: usize = 0;
            #[verifier::loop_isolation(false)]
            while i < fields.len()
                invariant
                    i <= fields@.len(),
                    fields_schema_v1(fields@, i as nat),
                decreases fields@.len() - i,
            {
                if !value_admits_schema_v1(&fields[i].value) {
                    proof {
                        if fields_schema_v1(fields@, fields@.len()) {
                            lemma_fields_schema_v1_prefix(fields@, (i + 1) as nat, fields@.len());
                        }
                    }
                    return false;
                }
                i = i + 1;
            }
            true
        },
    }
}

proof fn lemma_fields_schema_v1_prefix(fs: Seq<CanonicalExpressionField>, m: nat, n: nat)
    requires
        m <= n <= fs.len(),
        fields_schema_v1(fs, n),
    ensures
        fields_schema_v1(fs, m),
    decreases n - m,
{
    if m < n {
        lemma_fields_schema_v1_prefix(fs, m, (n - 1) as nat);
    }
}

proof fn lemma_exprs_schema_v1_prefix(es: Seq<CanonicalExpression>, m: nat, n: nat)
    requires
        m <= n <= es.len(),
        exprs_schema_v1(es, n),
    ensures
        exprs_schema_v1(es, m),
    decreases n - m,
{
    if m < n {
        lemma_exprs_schema_v1_prefix(es, m, (n - 1) as nat);
    }
}

proof fn lemma_values_schema_v1_prefix(vs: Seq<CanonicalExpressionValue>, m: nat, n: nat)
    requires
        m <= n <= vs.len(),
        values_schema_v1(vs, n),
    ensures
        values_schema_v1(vs, m),
    decreases n - m,
{
    if m < n {
        lemma_values_schema_v1_prefix(vs, m, (n - 1) as nat);
    }
}

/// Admission of a field value under v1.
pub fn value_admits_schema_v1(v: &CanonicalExpressionValue) -> (r: bool)
    ensures
        r == value_schema_v1(*v),
    decreases v, 0nat,
{
    match v {
        CanonicalExpressionValue::Expression(e) => admits_schema_v1(e),
        CanonicalExpressionValue::ExpressionList(es) => {
            let mut i: usize = 0;
            #[verifier::loop_isolation(false)]
            while i < es.len()
                invariant
                    i <= es@.len(),
                    exprs_schema_v1(es@, i as nat),
                decreases es@.len() - i,
            {
                if !admits_schema_v1(&es[i]) {
                    proof {
                        if exprs_schema_v1(es@, es@.len()) {
                            lemma_exprs_schema_v1_prefix(es@, (i + 1) as nat, es@.len());
                        }
                    }
                    return false;
                }
                i = i + 1;
            }
            true
        },
        CanonicalExpressionValue::ValueList(vs) => {
            let mut i: usize = 0;
            #[verifier::loop_isolation(false)]
            while i < vs.len()
                invariant
                    i <= vs@.len(),
                    values_schema_v1(vs@, i as nat),
                decreases vs@.len() - i,
            {
                if !value_admits_schema_v1(&vs[i]) {
                    proof {
                        if values_schema_v1(vs@, vs@.len()) {
                            lemma_values_schema_v1_prefix(vs@, (i + 1) as nat, vs@.len());
                        }
                    }
                    return false;
                }
                i = i + 1;
            }
            true
        },
        _ => true,
    }
}

} // verus!

verus! {

/// Whether an expression contains a relation `Var` leaf (a column or the whole row) at any depth.
pub closed spec fn expr_has_var_leaf(e: CanonicalExpression) -> bool
    decreases e,
{
    match e {
        CanonicalExpression::Column(_) => true,
        CanonicalExpression::WholeRow => true,
        CanonicalExpression::Node { fields, .. } => exists|i: int|
            0 <= i < fields@.len() && value_has_var_leaf(#[trigger] fields@[i].value),
    }
}

/// Whether a field value contains a relation `Var` leaf at any depth.
pub closed spec fn value_has_var_leaf(v: CanonicalExpressionValue) -> bool
    decreases v,
{
    match v {
        CanonicalExpressionValue::Expression(e) => expr_has_var_leaf(*e),
        CanonicalExpressionValue::ExpressionList(es) => exists|i: int|
            0 <= i < es@.len() && expr_has_var_leaf(#[trigger] es@[i]),
        CanonicalExpressionValue::ValueList(vs) => exists|i: int|
            0 <= i < vs@.len() && value_has_var_leaf(#[trigger] vs@[i]),
        _ => false,
    }
}

/// Returns whether the tree contains a relation `Var` leaf at any depth.
pub fn contains_var_leaf(e: &CanonicalExpression) -> (b: bool)
    ensures
        b == expr_has_var_leaf(*e),
    decreases e, 0nat,
{
    match e {
        CanonicalExpression::Column(_) => true,
        CanonicalExpression::WholeRow => true,
        CanonicalExpression::Node { fields, .. } => {
            let mut i: usize = 0;
            #[verifier::loop_isolation(false)]
            while i < fields.len()
                invariant
                    i <= fields@.len(),
                    forall|k: int| 0 <= k < i ==> !value_has_var_leaf(#[trigger] fields@[k].value),
                decreases fields@.len() - i,
            {
                if value_contains_var_leaf(&fields[i].value) {
                    return true;
                }
                i = i + 1;
            }
            false
        },
    }
}

/// Returns whether a field value contains a relation `Var` leaf at any depth.
pub fn value_contains_var_leaf(value: &CanonicalExpressionValue) -> (b: bool)
    ensures
        b == value_has_var_leaf(*value),
    decreases value, 0nat,
{
    match value {
        CanonicalExpressionValue::Expression(e) => contains_var_leaf(e),
        CanonicalExpressionValue::ExpressionList(es) => {
            let mut i: usize = 0;
            #[verifier::loop_isolation(false)]
            while i < es.len()
                invariant
                    i <= es@.len(),
                    forall|k: int| 0 <= k < i ==> !expr_has_var_leaf(#[trigger] es@[k]),
                decreases es@.len() - i,
            {
                if contains_var_leaf(&es[i]) {
                    return true;
                }
                i = i + 1;
            }
            false
        },
        CanonicalExpressionValue::ValueList(vs) => {
            let mut i: usize = 0;
            #[verifier::loop_isolation(false)]
            while i < vs.len()
                invariant
                    i <= vs@.len(),
                    forall|k: int| 0 <= k < i ==> !value_has_var_leaf(#[trigger] vs@[k]),
                decreases vs@.len() - i,
            {
                if value_contains_var_leaf(&vs[i]) {
                    return true;
                }
                i = i + 1;
            }
            false
        },
        _ => false,
    }
}

} // verus!
