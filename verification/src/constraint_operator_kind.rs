//! Ordinary exclusion-constraint raw operator-kind evidence.
//!
//! `pg_operator.oprkind` is independent catalog state: an operator signature with two operand
//! types does not show that the source row was observed as a binary operator. This layer binds the
//! raw discriminator to every governed (constraint, key) operator position and admits only the
//! binary state `b`.

use vstd::prelude::*;

use crate::catalog::{
    lemma_coordinate_lt_irreflexive, lemma_coordinate_lt_total, lemma_coordinate_lt_transitive, ConstraintCoordinateView,
    LineageView,
};
use crate::constraint_property::constraint_property_location;
use crate::digest::{
    digest_text, finish_digest, frame_char, frame_len, frame_str, frame_u32, put_char, put_len, put_raw, put_str, put_u32,
};
use crate::procedure_binding::{bindings_of, BindingView, ProcedureBound};
use crate::procedure_parallel_safety::{IssuedProcedureBindings, OperatorProcedureBinding};
use crate::error::{fails_with_text, invalid, ObservationError};
use crate::exclusion::{frame_operator, put_operator};
use crate::exclusion_constraint::{constraint_key, constraint_lt, frame_constraint, put_constraint, IndexExclusionConstraintCoordinate};
use crate::order::{compare_u32, has_key_collision, same_key, sort_by_key, sorted_by_key, KeyOrder, SortKey};
use crate::signatures::{OperatorView, QualifiedOperatorSignature};
use crate::text::decimal;
use vstd::utf8::encode_utf8;

verus! {

/// The value of one operator-kind observation.
pub struct OperatorKindView {
    pub coordinate: ConstraintCoordinateView,
    pub key_position: u32,
    pub operator: OperatorView,
    pub operator_kind: char,
}

/// Resolved `pg_operator.oprcom` of the exclusion operator at one (constraint, key) position.
#[derive(Debug, PartialEq, Eq)]
pub struct IndexExclusionConstraintOperatorKindObservation {
    coordinate: IndexExclusionConstraintCoordinate,
    key_position: u32,
    operator: QualifiedOperatorSignature,
    operator_kind: char,
}

impl View for IndexExclusionConstraintOperatorKindObservation {
    type V = OperatorKindView;

    closed spec fn view(&self) -> OperatorKindView {
        OperatorKindView {
            coordinate: self.coordinate@,
            key_position: self.key_position,
            operator: self.operator@,
            operator_kind: self.operator_kind,
        }
    }
}

impl Clone for IndexExclusionConstraintOperatorKindObservation {
    fn clone(&self) -> (c: Self)
        ensures
            c@ == self@,
            c == *self,
    {
        IndexExclusionConstraintOperatorKindObservation {
            coordinate: self.coordinate.clone(),
            key_position: self.key_position,
            operator: self.operator.clone(),
            operator_kind: self.operator_kind,
        }
    }
}

/// `{constraint}/exclusion-operators/{key}/operator-kind`.
pub open spec fn operator_kind_location(c: ConstraintCoordinateView, key_position: u32) -> Seq<char> {
    constraint_property_location(c, "exclusion-operators"@) + "/"@ + decimal(key_position as nat) + "/operator-kind"@
}

/// Renders the location of one operator-kind observation.
pub fn render_operator_kind_location(c: &IndexExclusionConstraintCoordinate, key_position: u32) -> (s: String)
    ensures
        s@ == operator_kind_location(c@, key_position),
{
    let mut out = crate::constraint_property::render_constraint_property_location(c, "exclusion-operators");
    crate::text::push_text(&mut out, "/");
    crate::text::push_decimal(&mut out, key_position as u64);
    crate::text::push_text(&mut out, "/operator-kind");
    out
}

impl IndexExclusionConstraintOperatorKindObservation {
    /// Records the raw `oprkind` observed for one exclusion operator; the key position is
    /// one-based.
    pub fn new(
        coordinate: IndexExclusionConstraintCoordinate,
        key_position: u32,
        operator: QualifiedOperatorSignature,
        operator_kind: char,
    ) -> (r: Result<Self, ObservationError>)
        ensures
            r is Ok <==> key_position != 0,
            r is Err ==> r == Err::<Self, ObservationError>(ObservationError::InvalidOrdinalPosition),
            r matches Ok(o) ==> o@ == (OperatorKindView {
                coordinate: coordinate@,
                key_position,
                operator: operator@,
                operator_kind,
            }),
    {
        if key_position == 0 {
            return Err(ObservationError::InvalidOrdinalPosition);
        }
        Ok(IndexExclusionConstraintOperatorKindObservation { coordinate, key_position, operator, operator_kind })
    }

    /// Returns the exact exclusion-constraint coordinate.
    pub fn coordinate(&self) -> (c: &IndexExclusionConstraintCoordinate)
        ensures
            c@ == self@.coordinate,
    {
        &self.coordinate
    }

    /// Returns the one-based exclusion-key position.
    pub fn key_position(&self) -> (k: u32)
        ensures
            k == self@.key_position,
    {
        self.key_position
    }

    /// Returns the operator repeated from the governed operator position.
    pub fn operator(&self) -> (o: &QualifiedOperatorSignature)
        ensures
            o@ == self@.operator,
    {
        &self.operator
    }

    /// Returns the raw `pg_operator.oprkind`.
    pub fn operator_kind(&self) -> (c: char)
        ensures
            c == self@.operator_kind,
    {
        self.operator_kind
    }

    /// Returns the collision-safe location of this operator-kind observation.
    pub fn canonical_location(&self) -> (s: String)
        ensures
            s@ == operator_kind_location(self@.coordinate, self@.key_position),
    {
        render_operator_kind_location(&self.coordinate, self.key_position)
    }
}

/// (constraint, key) order.
pub open spec fn position_lt(a: OperatorKindView, b: OperatorKindView) -> bool {
    constraint_lt(a.coordinate, b.coordinate) || (a.coordinate == b.coordinate && a.key_position < b.key_position)
}

impl SortKey for IndexExclusionConstraintOperatorKindObservation {
    open spec fn key_lt(self, other: Self) -> bool {
        position_lt(self@, other@)
    }

    proof fn lemma_key_lt_transitive(a: Self, b: Self, c: Self) {
        lemma_coordinate_lt_irreflexive(constraint_key(a@.coordinate));
        lemma_coordinate_lt_irreflexive(constraint_key(b@.coordinate));
        if constraint_lt(a@.coordinate, b@.coordinate) && constraint_lt(b@.coordinate, c@.coordinate) {
            lemma_coordinate_lt_transitive(
                constraint_key(a@.coordinate),
                constraint_key(b@.coordinate),
                constraint_key(c@.coordinate),
            );
        }
    }

    proof fn lemma_key_lt_irreflexive(a: Self) {
        lemma_coordinate_lt_irreflexive(constraint_key(a@.coordinate));
    }

    fn compare_key(&self, other: &Self) -> (o: KeyOrder) {
        proof {
            lemma_coordinate_lt_irreflexive(constraint_key(self@.coordinate));
            lemma_coordinate_lt_irreflexive(constraint_key(other@.coordinate));
        }
        let by_coordinate = self.coordinate.compare(&other.coordinate);
        if by_coordinate != KeyOrder::Equal {
            proof {
                if by_coordinate == KeyOrder::Less {
                    assert(!constraint_lt(other@.coordinate, self@.coordinate)) by {
                        if constraint_lt(other@.coordinate, self@.coordinate) {
                            lemma_coordinate_lt_transitive(
                                constraint_key(self@.coordinate),
                                constraint_key(other@.coordinate),
                                constraint_key(self@.coordinate),
                            );
                        }
                    }
                } else {
                    assert(!constraint_lt(self@.coordinate, other@.coordinate)) by {
                        if constraint_lt(self@.coordinate, other@.coordinate) {
                            lemma_coordinate_lt_transitive(
                                constraint_key(self@.coordinate),
                                constraint_key(other@.coordinate),
                                constraint_key(self@.coordinate),
                            );
                        }
                    }
                }
            }
            return by_coordinate;
        }
        compare_u32(self.key_position, other.key_position)
    }
}

/// Two different observations sit at the same (constraint, key) position.
pub open spec fn duplicate_position(s: Seq<OperatorKindView>) -> bool {
    exists|i: int, j: int|
        0 <= i < j < s.len() && (#[trigger] s[i]).coordinate == (#[trigger] s[j]).coordinate && s[i].key_position
            == s[j].key_position
}

proof fn lemma_position_collision(s: Seq<IndexExclusionConstraintOperatorKindObservation>)
    ensures
        has_key_collision(s) <==> duplicate_position(s.map_values(|o: IndexExclusionConstraintOperatorKindObservation| o@)),
{
    let v = s.map_values(|o: IndexExclusionConstraintOperatorKindObservation| o@);
    if has_key_collision(s) {
        let (i, j) = choose|i: int, j: int| 0 <= i < j < s.len() && same_key(#[trigger] s[i], #[trigger] s[j]);
        assert(v[i] == s[i]@ && v[j] == s[j]@);
        if v[i].coordinate != v[j].coordinate {
            lemma_coordinate_lt_total(constraint_key(v[i].coordinate), constraint_key(v[j].coordinate));
        }
    }
    if duplicate_position(v) {
        let (i, j) = choose|i: int, j: int|
            0 <= i < j < v.len() && (#[trigger] v[i]).coordinate == (#[trigger] v[j]).coordinate && v[i].key_position
                == v[j].key_position;
        lemma_coordinate_lt_irreflexive(constraint_key(v[i].coordinate));
        assert(same_key(s[i], s[j]));
    }
}

/// Some predecessor binding sits at (`c`, `key_position`).
pub open spec fn position_expected(pred: Seq<BindingView>, c: ConstraintCoordinateView, key_position: u32) -> bool {
    exists|i: int| 0 <= i < pred.len() && (#[trigger] pred[i]).coordinate == c && pred[i].key_position == key_position
}

/// Some observation sits at (`c`, `key_position`).
pub open spec fn position_observed(obs: Seq<OperatorKindView>, c: ConstraintCoordinateView, key_position: u32) -> bool {
    exists|j: int| 0 <= j < obs.len() && (#[trigger] obs[j]).coordinate == c && obs[j].key_position == key_position
}

/// The observed positions are exactly the predecessor's (constraint, key) positions.
pub open spec fn positions_complete(pred: Seq<BindingView>, obs: Seq<OperatorKindView>) -> bool {
    &&& forall|j: int| 0 <= j < obs.len() ==> position_expected(pred, (#[trigger] obs[j]).coordinate, obs[j].key_position)
    &&& forall|i: int| 0 <= i < pred.len() ==> position_observed(obs, (#[trigger] pred[i]).coordinate, pred[i].key_position)
}

/// The first predecessor binding at (`c`, `key_position`).
pub open spec fn predecessor_at(pred: Seq<BindingView>, c: ConstraintCoordinateView, key_position: u32) -> Option<BindingView>
    decreases pred.len(),
{
    if pred.len() == 0 {
        None
    } else if pred[0].coordinate == c && pred[0].key_position == key_position {
        Some(pred[0])
    } else {
        predecessor_at(pred.drop_first(), c, key_position)
    }
}

/// How one observation fails, or 0: 1 no predecessor at its position, 2 an operator other than
/// the predecessor's, 3 a kind other than binary `b`.
pub open spec fn operator_kind_code(pred: Seq<BindingView>, o: OperatorKindView) -> int {
    match predecessor_at(pred, o.coordinate, o.key_position) {
        None => 1,
        Some(p) => if p.operator != o.operator {
            2
        } else if o.operator_kind != 'b' {
            3
        } else {
            0
        },
    }
}

/// The first non-zero operator-kind code over the observations, in order.
pub open spec fn first_operator_kind_code(pred: Seq<BindingView>, s: Seq<OperatorKindView>) -> int
    decreases s.len(),
{
    if s.len() == 0 {
        0
    } else if operator_kind_code(pred, s[0]) != 0 {
        operator_kind_code(pred, s[0])
    } else {
        first_operator_kind_code(pred, s.drop_first())
    }
}

/// The field reported for a non-zero operator-kind code.
pub open spec fn operator_kind_field(code: int) -> Seq<char> {
    if code == 1 {
        "index_exclusion_constraint_operator_kind_completeness"@
    } else if code == 2 {
        "index_exclusion_constraint_operator_kind_binding"@
    } else {
        "index_exclusion_constraint_operator_kind_state"@
    }
}

/// The values of operator-kind observations, in order.
pub open spec fn operator_kind_views(s: Seq<IndexExclusionConstraintOperatorKindObservation>) -> Seq<OperatorKindView> {
    s.map_values(|o: IndexExclusionConstraintOperatorKindObservation| o@)
}

/// Why operator-kind evidence is refused, or `None` when it is issued: a repeated position; then
/// positions other than exactly the predecessor's; then, in position order, an operator other
/// than the predecessor's or a kind other than binary.
pub open spec fn operator_kind_refusal(pred: Seq<BindingView>, obs: Seq<IndexExclusionConstraintOperatorKindObservation>) -> Option<
    Seq<char>,
> {
    let sorted = operator_kind_views(sorted_by_key(obs));
    if duplicate_position(operator_kind_views(obs)) {
        Some("index_exclusion_constraint_operator_kind_coordinate"@)
    } else if !positions_complete(pred, sorted) {
        Some("index_exclusion_constraint_operator_kind_completeness"@)
    } else if first_operator_kind_code(pred, sorted) != 0 {
        Some(operator_kind_field(first_operator_kind_code(pred, sorted)))
    } else {
        None
    }
}

} // verus!

verus! {

fn position_is_expected(pred: &[OperatorProcedureBinding], c: &IndexExclusionConstraintCoordinate, key_position: u32) -> (b: bool)
    ensures
        b == position_expected(bindings_of(pred@), c@, key_position),
{
    let ghost views = bindings_of(pred@);
    let mut i: usize = 0;
    while i < pred.len()
        invariant
            i <= pred@.len(),
            views == bindings_of(pred@),
            forall|k: int| 0 <= k < i ==> !((#[trigger] views[k]).coordinate == c@ && views[k].key_position == key_position),
        decreases pred@.len() - i,
    {
        assert(views[i as int] == pred@[i as int].binding());
        if pred[i].binding_coordinate().same_as(c) && pred[i].binding_key_position() == key_position {
            return true;
        }
        i = i + 1;
    }
    false
}

fn position_is_observed(obs: &[IndexExclusionConstraintOperatorKindObservation], c: &IndexExclusionConstraintCoordinate, key_position: u32) -> (b:
    bool)
    ensures
        b == position_observed(operator_kind_views(obs@), c@, key_position),
{
    let ghost views = operator_kind_views(obs@);
    let mut j: usize = 0;
    while j < obs.len()
        invariant
            j <= obs@.len(),
            views == operator_kind_views(obs@),
            forall|k: int| 0 <= k < j ==> !((#[trigger] views[k]).coordinate == c@ && views[k].key_position == key_position),
        decreases obs@.len() - j,
    {
        assert(views[j as int] == obs@[j as int]@);
        if obs[j].coordinate().same_as(c) && obs[j].key_position() == key_position {
            return true;
        }
        j = j + 1;
    }
    false
}

fn positions_are_complete(pred: &[OperatorProcedureBinding], obs: &[IndexExclusionConstraintOperatorKindObservation]) -> (b: bool)
    ensures
        b == positions_complete(bindings_of(pred@), operator_kind_views(obs@)),
{
    let ghost pv = bindings_of(pred@);
    let ghost ov = operator_kind_views(obs@);
    let mut j: usize = 0;
    while j < obs.len()
        invariant
            j <= obs@.len(),
            pv == bindings_of(pred@),
            ov == operator_kind_views(obs@),
            forall|k: int| 0 <= k < j ==> position_expected(pv, (#[trigger] ov[k]).coordinate, ov[k].key_position),
        decreases obs@.len() - j,
    {
        assert(ov[j as int] == obs@[j as int]@);
        if !position_is_expected(pred, obs[j].coordinate(), obs[j].key_position()) {
            return false;
        }
        j = j + 1;
    }
    let mut i: usize = 0;
    while i < pred.len()
        invariant
            i <= pred@.len(),
            pv == bindings_of(pred@),
            ov == operator_kind_views(obs@),
            forall|k: int| 0 <= k < obs@.len() ==> position_expected(pv, (#[trigger] ov[k]).coordinate, ov[k].key_position),
            forall|k: int| 0 <= k < i ==> position_observed(ov, (#[trigger] pv[k]).coordinate, pv[k].key_position),
        decreases pred@.len() - i,
    {
        assert(pv[i as int] == pred@[i as int].binding());
        if !position_is_observed(obs, pred[i].binding_coordinate(), pred[i].binding_key_position()) {
            return false;
        }
        i = i + 1;
    }
    true
}

fn find_predecessor<'a>(pred: &'a [OperatorProcedureBinding], c: &IndexExclusionConstraintCoordinate, key_position: u32) -> (r: Option<
    &'a OperatorProcedureBinding,
>)
    ensures
        match r {
            Some(p) => predecessor_at(bindings_of(pred@), c@, key_position) == Some(p.binding()),
            None => predecessor_at(bindings_of(pred@), c@, key_position) is None,
        },
{
    let ghost views = bindings_of(pred@);
    let mut i: usize = 0;
    assert(views.skip(0) =~= views);
    while i < pred.len()
        invariant
            i <= pred@.len(),
            views == bindings_of(pred@),
            predecessor_at(views, c@, key_position) == predecessor_at(views.skip(i as int), c@, key_position),
        decreases pred@.len() - i,
    {
        assert(views.skip(i as int)[0] == pred@[i as int].binding());
        assert(views.skip(i as int).drop_first() =~= views.skip(i + 1));
        if pred[i].binding_coordinate().same_as(c) && pred[i].binding_key_position() == key_position {
            return Some(&pred[i]);
        }
        i = i + 1;
    }
    None
}

proof fn lemma_first_operator_kind_code_range(pred: Seq<BindingView>, s: Seq<OperatorKindView>)
    ensures
        0 <= first_operator_kind_code(pred, s) <= 3,
    decreases s.len(),
{
    if s.len() > 0 {
        lemma_first_operator_kind_code_range(pred, s.drop_first());
    }
}

fn check_operator_kinds(pred: &[OperatorProcedureBinding], obs: &[IndexExclusionConstraintOperatorKindObservation]) -> (r: Result<
    (),
    ObservationError,
>)
    ensures
        r is Ok <==> first_operator_kind_code(bindings_of(pred@), operator_kind_views(obs@)) == 0,
        r is Err ==> fails_with_text(r, operator_kind_field(first_operator_kind_code(bindings_of(pred@), operator_kind_views(obs@)))),
{
    let ghost pv = bindings_of(pred@);
    let ghost views = operator_kind_views(obs@);
    let mut i: usize = 0;
    assert(views.skip(0) =~= views);
    while i < obs.len()
        invariant
            i <= obs@.len(),
            pv == bindings_of(pred@),
            views == operator_kind_views(obs@),
            first_operator_kind_code(pv, views) == first_operator_kind_code(pv, views.skip(i as int)),
        decreases obs@.len() - i,
    {
        assert(views.skip(i as int)[0] == obs@[i as int]@);
        assert(views.skip(i as int).drop_first() =~= views.skip(i + 1));
        let o = &obs[i];
        let p = match find_predecessor(pred, o.coordinate(), o.key_position()) {
            Some(p) => p,
            None => {
                return Err(invalid("index_exclusion_constraint_operator_kind_completeness"));
            },
        };
        if !p.binding_operator().same_as(o.operator()) {
            return Err(invalid("index_exclusion_constraint_operator_kind_binding"));
        }
        if o.operator_kind() != 'b' {
            return Err(invalid("index_exclusion_constraint_operator_kind_state"));
        }
        i = i + 1;
    }
    Ok(())
}


/// Domain separator of the operator-kind digest.
pub const OPERATOR_KIND_DIGEST_DOMAIN: &'static str =
    "conceptweave.postgres_schema_snapshot.v3.relation_partition.index_partition.exclusion_constraint.operator.kind.v1";

/// Framing of one operator-kind observation: constraint, key position, operator and kind.
pub open spec fn frame_operator_kind(o: OperatorKindView) -> Seq<u8> {
    frame_constraint(o.coordinate) + frame_u32(o.key_position) + frame_operator(o.operator) + frame_char(o.operator_kind)
}

/// Framing of operator-kind observations, in order.
pub open spec fn frame_operator_kinds(s: Seq<OperatorKindView>) -> Seq<u8>
    decreases s.len(),
{
    if s.len() == 0 {
        Seq::empty()
    } else {
        frame_operator_kinds(s.drop_last()) + frame_operator_kind(s.last())
    }
}

/// The preimage of the operator-kind digest over the predecessor digest.
pub open spec fn operator_kind_preimage(predecessor_digest: Seq<char>, s: Seq<OperatorKindView>) -> Seq<u8> {
    encode_utf8(OPERATOR_KIND_DIGEST_DOMAIN@) + frame_str(predecessor_digest) + frame_len(s.len()) + frame_operator_kinds(s)
}

fn put_operator_kind(out: &mut Vec<u8>, o: &IndexExclusionConstraintOperatorKindObservation)
    ensures
        final(out)@ == old(out)@ + frame_operator_kind(o@),
{
    let ghost s0 = out@;
    put_constraint(out, o.coordinate());
    put_u32(out, o.key_position());
    put_operator(out, o.operator());
    put_char(out, o.operator_kind());
    assert(final(out)@ =~= s0 + frame_operator_kind(o@));
}

fn compute_operator_kind_digest(predecessor_digest: &str, observations: &[IndexExclusionConstraintOperatorKindObservation]) -> (d:
    String)
    ensures
        d@ == digest_text(operator_kind_preimage(predecessor_digest@, operator_kind_views(observations@))),
{
    let ghost views = operator_kind_views(observations@);
    let mut out: Vec<u8> = Vec::new();
    put_raw(&mut out, OPERATOR_KIND_DIGEST_DOMAIN.as_bytes());
    put_str(&mut out, predecessor_digest);
    put_len(&mut out, observations.len());
    let ghost header = out@;
    let mut i: usize = 0;
    while i < observations.len()
        invariant
            i <= observations@.len(),
            views == operator_kind_views(observations@),
            out@ == header + frame_operator_kinds(views.subrange(0, i as int)),
        decreases observations@.len() - i,
    {
        put_operator_kind(&mut out, &observations[i]);
        proof {
            let next = views.subrange(0, i + 1);
            assert(next.drop_last() =~= views.subrange(0, i as int));
            assert(next.last() == observations@[i as int]@);
            assert(out@ =~= header + frame_operator_kinds(next));
        }
        i = i + 1;
    }
    proof {
        assert(views.subrange(0, observations@.len() as int) =~= views);
    }
    finish_digest(&out)
}

/// The first operator-kind observation at (`c`, `key_position`).
pub open spec fn operator_kind_at(s: Seq<OperatorKindView>, c: ConstraintCoordinateView, key_position: u32) -> Option<OperatorKindView>
    decreases s.len(),
{
    if s.len() == 0 {
        None
    } else if s[0].coordinate == c && s[0].key_position == key_position {
        Some(s[0])
    } else {
        operator_kind_at(s.drop_first(), c, key_position)
    }
}

fn find_operator_kind<'a>(
    obs: &'a [IndexExclusionConstraintOperatorKindObservation],
    c: &IndexExclusionConstraintCoordinate,
    key_position: u32,
) -> (r: Option<&'a IndexExclusionConstraintOperatorKindObservation>)
    ensures
        match r {
            Some(o) => operator_kind_at(operator_kind_views(obs@), c@, key_position) == Some(o@),
            None => operator_kind_at(operator_kind_views(obs@), c@, key_position) is None,
        },
{
    let ghost views = operator_kind_views(obs@);
    let mut i: usize = 0;
    assert(views.skip(0) =~= views);
    while i < obs.len()
        invariant
            i <= obs@.len(),
            views == operator_kind_views(obs@),
            operator_kind_at(views, c@, key_position) == operator_kind_at(views.skip(i as int), c@, key_position),
        decreases obs@.len() - i,
    {
        assert(views.skip(i as int)[0] == obs@[i as int]@);
        assert(views.skip(i as int).drop_first() =~= views.skip(i + 1));
        if obs[i].coordinate().same_as(c) && obs[i].key_position() == key_position {
            return Some(&obs[i]);
        }
        i = i + 1;
    }
    None
}

} // verus!

verus! {

/// Immutable provenance receipt for one operator-kind observation.
#[derive(Debug, PartialEq, Eq)]
pub struct IndexExclusionConstraintOperatorKindSourceReceipt {
    source_id: String,
    connection_policy_binding: String,
    source_digest: String,
    extractor_revision: String,
    observed_at_utc: String,
    location: IndexExclusionConstraintOperatorKindObservation,
}

impl IndexExclusionConstraintOperatorKindSourceReceipt {
    /// The provenance carried by this receipt.
    pub closed spec fn lineage(&self) -> LineageView {
        LineageView {
            source_connection_key: self.source_id@,
            connection_policy_binding: self.connection_policy_binding@,
            snapshot_digest: self.source_digest@,
            extractor_revision: self.extractor_revision@,
            observed_at_utc: self.observed_at_utc@,
        }
    }

    /// The observation covered by this receipt.
    pub closed spec fn location_view(&self) -> OperatorKindView {
        self.location@
    }

    /// Returns the stable source registry key, never credential material.
    pub fn source_id(&self) -> (s: &str)
        ensures
            s@ == self.lineage().source_connection_key,
    {
        self.source_id.as_str()
    }

    /// Returns the immutable source-policy binding.
    pub fn connection_policy_binding(&self) -> (s: &str)
        ensures
            s@ == self.lineage().connection_policy_binding,
    {
        self.connection_policy_binding.as_str()
    }

    /// Returns the owner-computed operator-kind digest.
    pub fn source_digest(&self) -> (s: &str)
        ensures
            s@ == self.lineage().snapshot_digest,
    {
        self.source_digest.as_str()
    }

    /// Returns the exact extractor revision inherited from the predecessor.
    pub fn extractor_revision(&self) -> (s: &str)
        ensures
            s@ == self.lineage().extractor_revision,
    {
        self.extractor_revision.as_str()
    }

    /// Returns the exact canonical UTC observation time inherited from the predecessor.
    pub fn observed_at_utc(&self) -> (s: &str)
        ensures
            s@ == self.lineage().observed_at_utc,
    {
        self.observed_at_utc.as_str()
    }

    /// Returns the exact operator-kind observation.
    pub fn location(&self) -> (o: &IndexExclusionConstraintOperatorKindObservation)
        ensures
            o@ == self.location_view(),
    {
        &self.location
    }
}

/// Complete raw operator-kind evidence: every (constraint, key) operator position of the
/// predecessor has its `oprkind` recorded, and every one of them is binary.
#[derive(Debug, PartialEq, Eq)]
pub struct IndexExclusionConstraintOperatorKindSnapshot {
    source_connection_key: String,
    connection_policy_binding: String,
    snapshot_digest: String,
    extractor_revision: String,
    observed_at_utc: String,
    observations: Vec<IndexExclusionConstraintOperatorKindObservation>,
}

impl IndexExclusionConstraintOperatorKindSnapshot {
    /// The provenance of this snapshot, with its own digest.
    pub closed spec fn lineage(&self) -> LineageView {
        LineageView {
            source_connection_key: self.source_connection_key@,
            connection_policy_binding: self.connection_policy_binding@,
            snapshot_digest: self.snapshot_digest@,
            extractor_revision: self.extractor_revision@,
            observed_at_utc: self.observed_at_utc@,
        }
    }

    /// The operator-kind observations, in (constraint, key) order.
    pub closed spec fn operator_kind_entry_views(&self) -> Seq<OperatorKindView> {
        operator_kind_views(self.observations@)
    }

    /// The observations held, in (constraint, key) order.
    pub closed spec fn entries(&self) -> Seq<IndexExclusionConstraintOperatorKindObservation> {
        self.observations@
    }

    /// Creates complete operator-kind evidence over the issued operator-result bindings: one
    /// observation for each of their (constraint, key) positions.
    pub fn new(
        result_snapshot: &IssuedProcedureBindings,
        observations: Vec<IndexExclusionConstraintOperatorKindObservation>,
    ) -> (r: Result<Self, ObservationError>)
        ensures
            ({
                let refusal = operator_kind_refusal(result_snapshot.binding_views(), observations@);
                &&& r is Ok <==> refusal is None
                &&& refusal is Some ==> fails_with_text(r, refusal->0)
            }),
            r matches Ok(s) ==> {
                &&& s.entries() == sorted_by_key(observations@)
                &&& s.operator_kind_entry_views() == operator_kind_views(sorted_by_key(observations@))
                &&& s.lineage() == (LineageView {
                    snapshot_digest: digest_text(
                        operator_kind_preimage(result_snapshot.lineage().snapshot_digest, s.operator_kind_entry_views()),
                    ),
                    ..result_snapshot.lineage()
                })
            },
    {
        proof {
            lemma_position_collision(observations@);
        }
        let sorted = match sort_by_key(observations) {
            Some(v) => v,
            None => {
                return Err(invalid("index_exclusion_constraint_operator_kind_coordinate"));
            },
        };
        let pred = result_snapshot.bindings();
        if !positions_are_complete(pred, sorted.as_slice()) {
            return Err(invalid("index_exclusion_constraint_operator_kind_completeness"));
        }
        proof {
            lemma_first_operator_kind_code_range(bindings_of(pred@), operator_kind_views(sorted@));
        }
        check_operator_kinds(pred, sorted.as_slice())?;
        let snapshot_digest = compute_operator_kind_digest(result_snapshot.snapshot_digest(), sorted.as_slice());
        Ok(IndexExclusionConstraintOperatorKindSnapshot {
            source_connection_key: result_snapshot.source_connection_key().to_owned(),
            connection_policy_binding: result_snapshot.connection_policy_binding().to_owned(),
            snapshot_digest,
            extractor_revision: result_snapshot.extractor_revision().to_owned(),
            observed_at_utc: result_snapshot.observed_at_utc().to_owned(),
            observations: sorted,
        })
    }

    /// Returns the stable source-connection registry key.
    pub fn source_connection_key(&self) -> (s: &str)
        ensures
            s@ == self.lineage().source_connection_key,
    {
        self.source_connection_key.as_str()
    }

    /// Returns the immutable source-policy binding.
    pub fn connection_policy_binding(&self) -> (s: &str)
        ensures
            s@ == self.lineage().connection_policy_binding,
    {
        self.connection_policy_binding.as_str()
    }

    /// Returns the domain-separated operator-kind digest.
    pub fn snapshot_digest(&self) -> (s: &str)
        ensures
            s@ == self.lineage().snapshot_digest,
    {
        self.snapshot_digest.as_str()
    }

    /// Returns the exact extractor revision inherited from the operator-result predecessor.
    pub fn extractor_revision(&self) -> (s: &str)
        ensures
            s@ == self.lineage().extractor_revision,
    {
        self.extractor_revision.as_str()
    }

    /// Returns the exact canonical UTC observation time inherited from the operator-result predecessor.
    pub fn observed_at_utc(&self) -> (s: &str)
        ensures
            s@ == self.lineage().observed_at_utc,
    {
        self.observed_at_utc.as_str()
    }

    /// Returns complete operator-kind observations in (constraint, key) order.
    pub fn observations(&self) -> (o: &[IndexExclusionConstraintOperatorKindObservation])
        ensures
            operator_kind_views(o@) == self.operator_kind_entry_views(),
            o@ == self.entries(),
    {
        self.observations.as_slice()
    }

    /// Issues provenance for one (constraint, key) operator-kind observation.
    pub fn source_receipt(&self, coordinate: IndexExclusionConstraintCoordinate, key_position: u32) -> (r: Result<
        IndexExclusionConstraintOperatorKindSourceReceipt,
        ObservationError,
    >)
        ensures
            r is Ok <==> operator_kind_at(self.operator_kind_entry_views(), coordinate@, key_position) is Some,
            r matches Ok(receipt) ==> receipt.lineage() == self.lineage() && Some(receipt.location_view())
                == operator_kind_at(self.operator_kind_entry_views(), coordinate@, key_position),
            r matches Err(e) ==> e matches ObservationError::UnknownObservationLocation { location: l } && l@
                == operator_kind_location(coordinate@, key_position),
    {
        let observation = match find_operator_kind(self.observations.as_slice(), &coordinate, key_position) {
            Some(o) => o,
            None => {
                return Err(
                    ObservationError::UnknownObservationLocation {
                        location: render_operator_kind_location(&coordinate, key_position),
                    },
                );
            },
        };
        Ok(IndexExclusionConstraintOperatorKindSourceReceipt {
            source_id: self.source_connection_key.clone(),
            connection_policy_binding: self.connection_policy_binding.clone(),
            source_digest: self.snapshot_digest.clone(),
            extractor_revision: self.extractor_revision.clone(),
            observed_at_utc: self.observed_at_utc.clone(),
            location: observation.clone(),
        })
    }
}

} // verus!
