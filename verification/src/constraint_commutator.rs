//! Ordinary exclusion-constraint operator-commutator evidence.
//!
//! PostgreSQL 18 requires every operator of an `EXCLUDE` constraint to be its own commutator
//! (`get_commutator(opid) == opid`). The governed `conexclop` vector does not carry the separately
//! stored `pg_operator.oprcom` edge, so this layer records the resolved commutator of every
//! (constraint, key) position and refuses one that is not the operator itself.

use vstd::prelude::*;

use crate::catalog::{
    lemma_coordinate_lt_irreflexive, lemma_coordinate_lt_total, lemma_coordinate_lt_transitive, ConstraintCoordinateView,
    LineageView,
};
use crate::constraint_operator::{
    operator_observation_views, IndexExclusionConstraintOperatorObservation, IndexExclusionConstraintOperatorSnapshot,
};
use crate::constraint_property::{constraint_property_location, observation_of_constraint, ConstraintPropertyView};
use crate::digest::{digest_text, finish_digest, frame_len, frame_str, frame_u32, put_len, put_raw, put_str, put_u32};
use crate::error::{fails_with_text, invalid, ObservationError};
use crate::exclusion::{frame_operator, put_operator};
use crate::exclusion_constraint::{constraint_key, constraint_lt, frame_constraint, put_constraint, IndexExclusionConstraintCoordinate};
use crate::order::{compare_u32, has_key_collision, same_key, sort_by_key, sorted_by_key, KeyOrder, SortKey};
use crate::signatures::{OperatorView, QualifiedOperatorSignature};
use crate::text::decimal;
use vstd::utf8::encode_utf8;

verus! {

/// The value of one commutator observation.
pub struct CommutatorView {
    pub coordinate: ConstraintCoordinateView,
    pub key_position: u32,
    pub operator: OperatorView,
    pub commutator: OperatorView,
}

/// Resolved `pg_operator.oprcom` of the exclusion operator at one (constraint, key) position.
#[derive(Debug, PartialEq, Eq)]
pub struct IndexExclusionConstraintOperatorCommutatorObservation {
    coordinate: IndexExclusionConstraintCoordinate,
    key_position: u32,
    operator: QualifiedOperatorSignature,
    commutator: QualifiedOperatorSignature,
}

impl View for IndexExclusionConstraintOperatorCommutatorObservation {
    type V = CommutatorView;

    closed spec fn view(&self) -> CommutatorView {
        CommutatorView {
            coordinate: self.coordinate@,
            key_position: self.key_position,
            operator: self.operator@,
            commutator: self.commutator@,
        }
    }
}

impl Clone for IndexExclusionConstraintOperatorCommutatorObservation {
    fn clone(&self) -> (c: Self)
        ensures
            c@ == self@,
    {
        IndexExclusionConstraintOperatorCommutatorObservation {
            coordinate: self.coordinate.clone(),
            key_position: self.key_position,
            operator: self.operator.clone(),
            commutator: self.commutator.clone(),
        }
    }
}

/// `{constraint}/exclusion-operators/{key}/commutator`.
pub open spec fn commutator_location(c: ConstraintCoordinateView, key_position: u32) -> Seq<char> {
    constraint_property_location(c, "exclusion-operators"@) + "/"@ + decimal(key_position as nat) + "/commutator"@
}

/// Renders the location of one commutator observation.
pub fn render_commutator_location(c: &IndexExclusionConstraintCoordinate, key_position: u32) -> (s: String)
    ensures
        s@ == commutator_location(c@, key_position),
{
    let mut out = crate::constraint_property::render_constraint_property_location(c, "exclusion-operators");
    crate::text::push_text(&mut out, "/");
    crate::text::push_decimal(&mut out, key_position as u64);
    crate::text::push_text(&mut out, "/commutator");
    out
}

impl IndexExclusionConstraintOperatorCommutatorObservation {
    /// Records one exclusion operator and the operator resolved from its `oprcom`; the key
    /// position is one-based.
    pub fn new(
        coordinate: IndexExclusionConstraintCoordinate,
        key_position: u32,
        operator: QualifiedOperatorSignature,
        commutator: QualifiedOperatorSignature,
    ) -> (r: Result<Self, ObservationError>)
        ensures
            r is Ok <==> key_position != 0,
            r is Err ==> r == Err::<Self, ObservationError>(ObservationError::InvalidOrdinalPosition),
            r matches Ok(o) ==> o@ == (CommutatorView {
                coordinate: coordinate@,
                key_position,
                operator: operator@,
                commutator: commutator@,
            }),
    {
        if key_position == 0 {
            return Err(ObservationError::InvalidOrdinalPosition);
        }
        Ok(IndexExclusionConstraintOperatorCommutatorObservation { coordinate, key_position, operator, commutator })
    }

    /// Returns the exact exclusion-constraint coordinate.
    pub fn coordinate(&self) -> (c: &IndexExclusionConstraintCoordinate)
        ensures
            c@ == self@.coordinate,
    {
        &self.coordinate
    }

    /// Returns the one-based exclusion-key position.
    pub fn key_position(&self) -> (k: u32)
        ensures
            k == self@.key_position,
    {
        self.key_position
    }

    /// Returns the operator repeated from the governed `conexclop` position.
    pub fn operator(&self) -> (o: &QualifiedOperatorSignature)
        ensures
            o@ == self@.operator,
    {
        &self.operator
    }

    /// Returns the operator resolved from `pg_operator.oprcom`.
    pub fn commutator(&self) -> (o: &QualifiedOperatorSignature)
        ensures
            o@ == self@.commutator,
    {
        &self.commutator
    }

    /// Returns the collision-safe location of this commutator edge.
    pub fn canonical_location(&self) -> (s: String)
        ensures
            s@ == commutator_location(self@.coordinate, self@.key_position),
    {
        render_commutator_location(&self.coordinate, self.key_position)
    }
}

/// (constraint, key) order.
pub open spec fn position_lt(a: CommutatorView, b: CommutatorView) -> bool {
    constraint_lt(a.coordinate, b.coordinate) || (a.coordinate == b.coordinate && a.key_position < b.key_position)
}

impl SortKey for IndexExclusionConstraintOperatorCommutatorObservation {
    open spec fn key_lt(self, other: Self) -> bool {
        position_lt(self@, other@)
    }

    proof fn lemma_key_lt_transitive(a: Self, b: Self, c: Self) {
        lemma_coordinate_lt_irreflexive(constraint_key(a@.coordinate));
        lemma_coordinate_lt_irreflexive(constraint_key(b@.coordinate));
        if constraint_lt(a@.coordinate, b@.coordinate) && constraint_lt(b@.coordinate, c@.coordinate) {
            lemma_coordinate_lt_transitive(
                constraint_key(a@.coordinate),
                constraint_key(b@.coordinate),
                constraint_key(c@.coordinate),
            );
        }
    }

    proof fn lemma_key_lt_irreflexive(a: Self) {
        lemma_coordinate_lt_irreflexive(constraint_key(a@.coordinate));
    }

    fn compare_key(&self, other: &Self) -> (o: KeyOrder) {
        proof {
            lemma_coordinate_lt_irreflexive(constraint_key(self@.coordinate));
            lemma_coordinate_lt_irreflexive(constraint_key(other@.coordinate));
        }
        let by_coordinate = self.coordinate.compare(&other.coordinate);
        if by_coordinate != KeyOrder::Equal {
            proof {
                if by_coordinate == KeyOrder::Less {
                    assert(!constraint_lt(other@.coordinate, self@.coordinate)) by {
                        if constraint_lt(other@.coordinate, self@.coordinate) {
                            lemma_coordinate_lt_transitive(
                                constraint_key(self@.coordinate),
                                constraint_key(other@.coordinate),
                                constraint_key(self@.coordinate),
                            );
                        }
                    }
                } else {
                    assert(!constraint_lt(self@.coordinate, other@.coordinate)) by {
                        if constraint_lt(self@.coordinate, other@.coordinate) {
                            lemma_coordinate_lt_transitive(
                                constraint_key(self@.coordinate),
                                constraint_key(other@.coordinate),
                                constraint_key(self@.coordinate),
                            );
                        }
                    }
                }
            }
            return by_coordinate;
        }
        compare_u32(self.key_position, other.key_position)
    }
}

/// Two different observations sit at the same (constraint, key) position.
pub open spec fn duplicate_position(s: Seq<CommutatorView>) -> bool {
    exists|i: int, j: int|
        0 <= i < j < s.len() && (#[trigger] s[i]).coordinate == (#[trigger] s[j]).coordinate && s[i].key_position
            == s[j].key_position
}

proof fn lemma_position_collision(s: Seq<IndexExclusionConstraintOperatorCommutatorObservation>)
    ensures
        has_key_collision(s) <==> duplicate_position(s.map_values(|o: IndexExclusionConstraintOperatorCommutatorObservation| o@)),
{
    let v = s.map_values(|o: IndexExclusionConstraintOperatorCommutatorObservation| o@);
    if has_key_collision(s) {
        let (i, j) = choose|i: int, j: int| 0 <= i < j < s.len() && same_key(#[trigger] s[i], #[trigger] s[j]);
        assert(v[i] == s[i]@ && v[j] == s[j]@);
        if v[i].coordinate != v[j].coordinate {
            lemma_coordinate_lt_total(constraint_key(v[i].coordinate), constraint_key(v[j].coordinate));
        }
    }
    if duplicate_position(v) {
        let (i, j) = choose|i: int, j: int|
            0 <= i < j < v.len() && (#[trigger] v[i]).coordinate == (#[trigger] v[j]).coordinate && v[i].key_position
                == v[j].key_position;
        lemma_coordinate_lt_irreflexive(constraint_key(v[i].coordinate));
        assert(same_key(s[i], s[j]));
    }
}

/// Some operator vector of the predecessor has a position `key_position` for constraint `c`.
pub open spec fn position_expected(ops: Seq<ConstraintPropertyView<Seq<OperatorView>>>, c: ConstraintCoordinateView, key_position: u32) -> bool {
    exists|i: int| 0 <= i < ops.len() && (#[trigger] ops[i]).coordinate == c && 1 <= key_position <= ops[i].property.len()
}

/// Some observation sits at (`c`, `key_position`).
pub open spec fn position_observed(obs: Seq<CommutatorView>, c: ConstraintCoordinateView, key_position: int) -> bool {
    exists|j: int| 0 <= j < obs.len() && (#[trigger] obs[j]).coordinate == c && obs[j].key_position == key_position
}

/// The observed positions are exactly the predecessor's (constraint, key) positions.
pub open spec fn positions_complete(ops: Seq<ConstraintPropertyView<Seq<OperatorView>>>, obs: Seq<CommutatorView>) -> bool {
    &&& forall|j: int| 0 <= j < obs.len() ==> position_expected(ops, (#[trigger] obs[j]).coordinate, obs[j].key_position)
    &&& forall|i: int, p: int|
        0 <= i < ops.len() && 1 <= p <= ops[i].property.len() ==> #[trigger] position_observed(obs, ops[i].coordinate, p)
}

/// How one observation fails, or 0: 1 no operator vector for its constraint, 2 an operator
/// other than the vector's at its position (or no such position), 3 a commutator other than the
/// operator itself.
pub open spec fn commutator_code(ops: Seq<IndexExclusionConstraintOperatorObservation>, o: CommutatorView) -> int {
    match observation_of_constraint(ops, o.coordinate) {
        None => 1,
        Some(p) => if o.key_position == 0 || o.key_position > p@.property.len() || o.operator != p@.property[o.key_position - 1] {
            2
        } else if o.commutator != o.operator {
            3
        } else {
            0
        },
    }
}

/// The first non-zero commutator code over the observations, in order.
pub open spec fn first_commutator_code(ops: Seq<IndexExclusionConstraintOperatorObservation>, s: Seq<CommutatorView>) -> int
    decreases s.len(),
{
    if s.len() == 0 {
        0
    } else if commutator_code(ops, s[0]) != 0 {
        commutator_code(ops, s[0])
    } else {
        first_commutator_code(ops, s.drop_first())
    }
}

/// The field reported for a non-zero commutator code.
pub open spec fn commutator_field(code: int) -> Seq<char> {
    if code == 1 {
        "index_exclusion_constraint_operator_commutator_completeness"@
    } else if code == 2 {
        "index_exclusion_constraint_operator_commutator_binding"@
    } else {
        "index_exclusion_constraint_operator_commutator_state"@
    }
}

/// The values of commutator observations, in order.
pub open spec fn commutator_views(s: Seq<IndexExclusionConstraintOperatorCommutatorObservation>) -> Seq<CommutatorView> {
    s.map_values(|o: IndexExclusionConstraintOperatorCommutatorObservation| o@)
}

/// Why commutator evidence is refused, or `None` when it is issued: a repeated position; then
/// positions other than exactly the predecessor's; then, in position order, an operator other
/// than the governed one or a commutator other than the operator itself.
pub open spec fn commutator_refusal(
    ops: Seq<IndexExclusionConstraintOperatorObservation>,
    obs: Seq<IndexExclusionConstraintOperatorCommutatorObservation>,
) -> Option<Seq<char>> {
    let sorted = commutator_views(sorted_by_key(obs));
    if duplicate_position(commutator_views(obs)) {
        Some("index_exclusion_constraint_operator_commutator_coordinate"@)
    } else if !positions_complete(operator_observation_views(ops), sorted) {
        Some("index_exclusion_constraint_operator_commutator_completeness"@)
    } else if first_commutator_code(ops, sorted) != 0 {
        Some(commutator_field(first_commutator_code(ops, sorted)))
    } else {
        None
    }
}

} // verus!

verus! {

fn position_is_expected(ops: &[IndexExclusionConstraintOperatorObservation], c: &IndexExclusionConstraintCoordinate, key_position: u32) -> (b:
    bool)
    ensures
        b == position_expected(operator_observation_views(ops@), c@, key_position),
{
    let ghost views = operator_observation_views(ops@);
    let mut i: usize = 0;
    while i < ops.len()
        invariant
            i <= ops@.len(),
            views == operator_observation_views(ops@),
            forall|k: int| 0 <= k < i ==> !((#[trigger] views[k]).coordinate == c@ && 1 <= key_position <= views[k].property.len()),
        decreases ops@.len() - i,
    {
        assert(views[i as int] == ops@[i as int]@);
        let len = ops[i].operators().len();
        if ops[i].coordinate().same_as(c) && 1 <= key_position && (key_position as usize) <= len {
            return true;
        }
        i = i + 1;
    }
    false
}

fn position_is_observed(obs: &[IndexExclusionConstraintOperatorCommutatorObservation], c: &IndexExclusionConstraintCoordinate, key_position: usize) -> (b:
    bool)
    ensures
        b == position_observed(commutator_views(obs@), c@, key_position as int),
{
    let ghost views = commutator_views(obs@);
    let mut j: usize = 0;
    while j < obs.len()
        invariant
            j <= obs@.len(),
            views == commutator_views(obs@),
            forall|k: int| 0 <= k < j ==> !((#[trigger] views[k]).coordinate == c@ && views[k].key_position == key_position),
        decreases obs@.len() - j,
    {
        assert(views[j as int] == obs@[j as int]@);
        if obs[j].coordinate().same_as(c) && obs[j].key_position() as usize == key_position {
            return true;
        }
        j = j + 1;
    }
    false
}

fn positions_are_complete(ops: &[IndexExclusionConstraintOperatorObservation], obs: &[IndexExclusionConstraintOperatorCommutatorObservation]) -> (b:
    bool)
    ensures
        b == positions_complete(operator_observation_views(ops@), commutator_views(obs@)),
{
    let ghost ov = operator_observation_views(ops@);
    let ghost cv = commutator_views(obs@);
    let mut j: usize = 0;
    while j < obs.len()
        invariant
            j <= obs@.len(),
            ov == operator_observation_views(ops@),
            cv == commutator_views(obs@),
            forall|k: int| 0 <= k < j ==> position_expected(ov, (#[trigger] cv[k]).coordinate, cv[k].key_position),
        decreases obs@.len() - j,
    {
        assert(cv[j as int] == obs@[j as int]@);
        if !position_is_expected(ops, obs[j].coordinate(), obs[j].key_position()) {
            return false;
        }
        j = j + 1;
    }
    let mut i: usize = 0;
    while i < ops.len()
        invariant
            i <= ops@.len(),
            ov == operator_observation_views(ops@),
            cv == commutator_views(obs@),
            forall|k: int| 0 <= k < obs@.len() ==> position_expected(ov, (#[trigger] cv[k]).coordinate, cv[k].key_position),
            forall|a: int, p: int| 0 <= a < i && 1 <= p <= ov[a].property.len() ==> #[trigger] position_observed(cv, ov[a].coordinate, p),
        decreases ops@.len() - i,
    {
        assert(ov[i as int] == ops@[i as int]@);
        let len = ops[i].operators().len();
        let mut p: usize = 0;
        while p < len
            invariant
                p <= len,
                i < ops@.len(),
                len == ov[i as int].property.len(),
                ov == operator_observation_views(ops@),
                cv == commutator_views(obs@),
                ov[i as int] == ops@[i as int]@,
                forall|q: int| 1 <= q <= p ==> #[trigger] position_observed(cv, ov[i as int].coordinate, q),
            decreases len - p,
        {
            if !position_is_observed(obs, ops[i].coordinate(), p + 1) {
                return false;
            }
            p = p + 1;
        }
        i = i + 1;
    }
    true
}

} // verus!

verus! {

proof fn lemma_first_commutator_code_range(ops: Seq<IndexExclusionConstraintOperatorObservation>, s: Seq<CommutatorView>)
    ensures
        0 <= first_commutator_code(ops, s) <= 3,
    decreases s.len(),
{
    if s.len() > 0 {
        lemma_first_commutator_code_range(ops, s.drop_first());
    }
}

fn check_commutator(ops: &[IndexExclusionConstraintOperatorObservation], o: &IndexExclusionConstraintOperatorCommutatorObservation) -> (r:
    Result<(), ObservationError>)
    ensures
        r is Ok <==> commutator_code(ops@, o@) == 0,
        r is Err ==> fails_with_text(r, commutator_field(commutator_code(ops@, o@))),
{
    let predecessor = match crate::constraint_property::find_constraint_observation(ops, o.coordinate()) {
        Some(p) => p,
        None => {
            return Err(invalid("index_exclusion_constraint_operator_commutator_completeness"));
        },
    };
    let operators = predecessor.operators();
    let k = o.key_position();
    if k == 0 || (k as usize) > operators.len() {
        return Err(invalid("index_exclusion_constraint_operator_commutator_binding"));
    }
    let expected = &operators[(k - 1) as usize];
    assert(expected@ == predecessor@.property[k - 1]);
    if !o.operator().same_as(expected) {
        return Err(invalid("index_exclusion_constraint_operator_commutator_binding"));
    }
    if !o.commutator().same_as(o.operator()) {
        return Err(invalid("index_exclusion_constraint_operator_commutator_state"));
    }
    Ok(())
}

fn check_commutators(ops: &[IndexExclusionConstraintOperatorObservation], obs: &[IndexExclusionConstraintOperatorCommutatorObservation]) -> (r:
    Result<(), ObservationError>)
    ensures
        r is Ok <==> first_commutator_code(ops@, commutator_views(obs@)) == 0,
        r is Err ==> fails_with_text(r, commutator_field(first_commutator_code(ops@, commutator_views(obs@)))),
{
    let ghost views = commutator_views(obs@);
    let mut i: usize = 0;
    assert(views.skip(0) =~= views);
    while i < obs.len()
        invariant
            i <= obs@.len(),
            views == commutator_views(obs@),
            first_commutator_code(ops@, views) == first_commutator_code(ops@, views.skip(i as int)),
        decreases obs@.len() - i,
    {
        assert(views.skip(i as int)[0] == obs@[i as int]@);
        assert(views.skip(i as int).drop_first() =~= views.skip(i + 1));
        check_commutator(ops, &obs[i])?;
        i = i + 1;
    }
    Ok(())
}

/// Domain separator of the commutator digest.
pub const COMMUTATOR_DIGEST_DOMAIN: &'static str =
    "conceptweave.postgres_schema_snapshot.v3.relation_partition.index_partition.exclusion_constraint.operator.commutator.v1";

/// Framing of one commutator observation: constraint, key position, operator and commutator.
pub open spec fn frame_commutator(o: CommutatorView) -> Seq<u8> {
    frame_constraint(o.coordinate) + frame_u32(o.key_position) + frame_operator(o.operator) + frame_operator(o.commutator)
}

/// Framing of commutator observations, in order.
pub open spec fn frame_commutators(s: Seq<CommutatorView>) -> Seq<u8>
    decreases s.len(),
{
    if s.len() == 0 {
        Seq::empty()
    } else {
        frame_commutators(s.drop_last()) + frame_commutator(s.last())
    }
}

/// The preimage of the commutator digest over the operator digest.
pub open spec fn commutator_preimage(predecessor_digest: Seq<char>, s: Seq<CommutatorView>) -> Seq<u8> {
    encode_utf8(COMMUTATOR_DIGEST_DOMAIN@) + frame_str(predecessor_digest) + frame_len(s.len()) + frame_commutators(s)
}

fn put_commutator(out: &mut Vec<u8>, o: &IndexExclusionConstraintOperatorCommutatorObservation)
    ensures
        final(out)@ == old(out)@ + frame_commutator(o@),
{
    let ghost s0 = out@;
    put_constraint(out, o.coordinate());
    put_u32(out, o.key_position());
    put_operator(out, o.operator());
    put_operator(out, o.commutator());
    assert(final(out)@ =~= s0 + frame_commutator(o@));
}

fn compute_commutator_digest(predecessor_digest: &str, observations: &[IndexExclusionConstraintOperatorCommutatorObservation]) -> (d:
    String)
    ensures
        d@ == digest_text(commutator_preimage(predecessor_digest@, commutator_views(observations@))),
{
    let ghost views = commutator_views(observations@);
    let mut out: Vec<u8> = Vec::new();
    put_raw(&mut out, COMMUTATOR_DIGEST_DOMAIN.as_bytes());
    put_str(&mut out, predecessor_digest);
    put_len(&mut out, observations.len());
    let ghost header = out@;
    let mut i: usize = 0;
    while i < observations.len()
        invariant
            i <= observations@.len(),
            views == commutator_views(observations@),
            out@ == header + frame_commutators(views.subrange(0, i as int)),
        decreases observations@.len() - i,
    {
        put_commutator(&mut out, &observations[i]);
        proof {
            let next = views.subrange(0, i + 1);
            assert(next.drop_last() =~= views.subrange(0, i as int));
            assert(next.last() == observations@[i as int]@);
            assert(out@ =~= header + frame_commutators(next));
        }
        i = i + 1;
    }
    proof {
        assert(views.subrange(0, observations@.len() as int) =~= views);
    }
    finish_digest(&out)
}

/// The first commutator observation at (`c`, `key_position`).
pub open spec fn commutator_at(s: Seq<CommutatorView>, c: ConstraintCoordinateView, key_position: u32) -> Option<CommutatorView>
    decreases s.len(),
{
    if s.len() == 0 {
        None
    } else if s[0].coordinate == c && s[0].key_position == key_position {
        Some(s[0])
    } else {
        commutator_at(s.drop_first(), c, key_position)
    }
}

fn find_commutator<'a>(
    obs: &'a [IndexExclusionConstraintOperatorCommutatorObservation],
    c: &IndexExclusionConstraintCoordinate,
    key_position: u32,
) -> (r: Option<&'a IndexExclusionConstraintOperatorCommutatorObservation>)
    ensures
        match r {
            Some(o) => commutator_at(commutator_views(obs@), c@, key_position) == Some(o@),
            None => commutator_at(commutator_views(obs@), c@, key_position) is None,
        },
{
    let ghost views = commutator_views(obs@);
    let mut i: usize = 0;
    assert(views.skip(0) =~= views);
    while i < obs.len()
        invariant
            i <= obs@.len(),
            views == commutator_views(obs@),
            commutator_at(views, c@, key_position) == commutator_at(views.skip(i as int), c@, key_position),
        decreases obs@.len() - i,
    {
        assert(views.skip(i as int)[0] == obs@[i as int]@);
        assert(views.skip(i as int).drop_first() =~= views.skip(i + 1));
        if obs[i].coordinate().same_as(c) && obs[i].key_position() == key_position {
            return Some(&obs[i]);
        }
        i = i + 1;
    }
    None
}

} // verus!

verus! {

/// Immutable provenance receipt for one operator-commutator observation.
#[derive(Debug, PartialEq, Eq)]
pub struct IndexExclusionConstraintOperatorCommutatorSourceReceipt {
    source_id: String,
    connection_policy_binding: String,
    source_digest: String,
    extractor_revision: String,
    observed_at_utc: String,
    location: IndexExclusionConstraintOperatorCommutatorObservation,
}

impl IndexExclusionConstraintOperatorCommutatorSourceReceipt {
    /// The provenance carried by this receipt.
    pub closed spec fn lineage(&self) -> LineageView {
        LineageView {
            source_connection_key: self.source_id@,
            connection_policy_binding: self.connection_policy_binding@,
            snapshot_digest: self.source_digest@,
            extractor_revision: self.extractor_revision@,
            observed_at_utc: self.observed_at_utc@,
        }
    }

    /// The observation covered by this receipt.
    pub closed spec fn location_view(&self) -> CommutatorView {
        self.location@
    }

    /// Returns the stable source registry key, never credential material.
    pub fn source_id(&self) -> (s: &str)
        ensures
            s@ == self.lineage().source_connection_key,
    {
        self.source_id.as_str()
    }

    /// Returns the immutable source-policy binding.
    pub fn connection_policy_binding(&self) -> (s: &str)
        ensures
            s@ == self.lineage().connection_policy_binding,
    {
        self.connection_policy_binding.as_str()
    }

    /// Returns the owner-computed commutator digest.
    pub fn source_digest(&self) -> (s: &str)
        ensures
            s@ == self.lineage().snapshot_digest,
    {
        self.source_digest.as_str()
    }

    /// Returns the exact extractor revision inherited from the predecessor.
    pub fn extractor_revision(&self) -> (s: &str)
        ensures
            s@ == self.lineage().extractor_revision,
    {
        self.extractor_revision.as_str()
    }

    /// Returns the exact canonical UTC observation time inherited from the predecessor.
    pub fn observed_at_utc(&self) -> (s: &str)
        ensures
            s@ == self.lineage().observed_at_utc,
    {
        self.observed_at_utc.as_str()
    }

    /// Returns the exact commutator observation.
    pub fn location(&self) -> (o: &IndexExclusionConstraintOperatorCommutatorObservation)
        ensures
            o@ == self.location_view(),
    {
        &self.location
    }
}

/// Complete operator-commutator evidence: every (constraint, key) position of the governed
/// operator vectors has its `oprcom` recorded, and every operator is its own commutator.
#[derive(Debug, PartialEq, Eq)]
pub struct IndexExclusionConstraintOperatorCommutatorSnapshot {
    source_connection_key: String,
    connection_policy_binding: String,
    snapshot_digest: String,
    extractor_revision: String,
    observed_at_utc: String,
    observations: Vec<IndexExclusionConstraintOperatorCommutatorObservation>,
}

impl IndexExclusionConstraintOperatorCommutatorSnapshot {
    /// The provenance of this snapshot, with its own digest.
    pub closed spec fn lineage(&self) -> LineageView {
        LineageView {
            source_connection_key: self.source_connection_key@,
            connection_policy_binding: self.connection_policy_binding@,
            snapshot_digest: self.snapshot_digest@,
            extractor_revision: self.extractor_revision@,
            observed_at_utc: self.observed_at_utc@,
        }
    }

    /// The commutator observations, in (constraint, key) order.
    pub closed spec fn commutator_entry_views(&self) -> Seq<CommutatorView> {
        commutator_views(self.observations@)
    }

    /// Creates complete commutator evidence over the operator evidence: one observation for each
    /// (constraint, key) position of its operator vectors.
    pub fn new(
        operator_snapshot: &IndexExclusionConstraintOperatorSnapshot,
        observations: Vec<IndexExclusionConstraintOperatorCommutatorObservation>,
    ) -> (r: Result<Self, ObservationError>)
        requires
            forall|i: int|
                0 <= i < operator_snapshot.entries().len() ==> (#[trigger] operator_snapshot.entries()[i])@.property.len()
                    <= u32::MAX,
        ensures
            ({
                let refusal = commutator_refusal(operator_snapshot.entries(), observations@);
                &&& r is Ok <==> refusal is None
                &&& refusal is Some ==> fails_with_text(r, refusal->0)
            }),
            r matches Ok(s) ==> {
                &&& s.commutator_entry_views() == commutator_views(sorted_by_key(observations@))
                &&& s.lineage() == (LineageView {
                    snapshot_digest: digest_text(
                        commutator_preimage(operator_snapshot.lineage().snapshot_digest, s.commutator_entry_views()),
                    ),
                    ..operator_snapshot.lineage()
                })
            },
    {
        proof {
            lemma_position_collision(observations@);
        }
        let sorted = match sort_by_key(observations) {
            Some(v) => v,
            None => {
                return Err(invalid("index_exclusion_constraint_operator_commutator_coordinate"));
            },
        };
        let ops = operator_snapshot.observations();
        if !positions_are_complete(ops, sorted.as_slice()) {
            return Err(invalid("index_exclusion_constraint_operator_commutator_completeness"));
        }
        proof {
            lemma_first_commutator_code_range(ops@, commutator_views(sorted@));
        }
        check_commutators(ops, sorted.as_slice())?;
        let snapshot_digest = compute_commutator_digest(operator_snapshot.snapshot_digest(), sorted.as_slice());
        Ok(IndexExclusionConstraintOperatorCommutatorSnapshot {
            source_connection_key: operator_snapshot.source_connection_key().to_owned(),
            connection_policy_binding: operator_snapshot.connection_policy_binding().to_owned(),
            snapshot_digest,
            extractor_revision: operator_snapshot.extractor_revision().to_owned(),
            observed_at_utc: operator_snapshot.observed_at_utc().to_owned(),
            observations: sorted,
        })
    }

    /// Returns the stable source-connection registry key.
    pub fn source_connection_key(&self) -> (s: &str)
        ensures
            s@ == self.lineage().source_connection_key,
    {
        self.source_connection_key.as_str()
    }

    /// Returns the immutable source-policy binding.
    pub fn connection_policy_binding(&self) -> (s: &str)
        ensures
            s@ == self.lineage().connection_policy_binding,
    {
        self.connection_policy_binding.as_str()
    }

    /// Returns the domain-separated commutator digest.
    pub fn snapshot_digest(&self) -> (s: &str)
        ensures
            s@ == self.lineage().snapshot_digest,
    {
        self.snapshot_digest.as_str()
    }

    /// Returns the exact extractor revision inherited from the operator predecessor.
    pub fn extractor_revision(&self) -> (s: &str)
        ensures
            s@ == self.lineage().extractor_revision,
    {
        self.extractor_revision.as_str()
    }

    /// Returns the exact canonical UTC observation time inherited from the operator predecessor.
    pub fn observed_at_utc(&self) -> (s: &str)
        ensures
            s@ == self.lineage().observed_at_utc,
    {
        self.observed_at_utc.as_str()
    }

    /// Returns complete commutator observations in (constraint, key) order.
    pub fn observations(&self) -> (o: &[IndexExclusionConstraintOperatorCommutatorObservation])
        ensures
            commutator_views(o@) == self.commutator_entry_views(),
    {
        self.observations.as_slice()
    }

    /// Issues provenance for one (constraint, key) commutator observation.
    pub fn source_receipt(&self, coordinate: IndexExclusionConstraintCoordinate, key_position: u32) -> (r: Result<
        IndexExclusionConstraintOperatorCommutatorSourceReceipt,
        ObservationError,
    >)
        ensures
            r is Ok <==> commutator_at(self.commutator_entry_views(), coordinate@, key_position) is Some,
            r matches Ok(receipt) ==> receipt.lineage() == self.lineage() && Some(receipt.location_view())
                == commutator_at(self.commutator_entry_views(), coordinate@, key_position),
            r matches Err(e) ==> e matches ObservationError::UnknownObservationLocation { location: l } && l@
                == commutator_location(coordinate@, key_position),
    {
        let observation = match find_commutator(self.observations.as_slice(), &coordinate, key_position) {
            Some(o) => o,
            None => {
                return Err(
                    ObservationError::UnknownObservationLocation {
                        location: render_commutator_location(&coordinate, key_position),
                    },
                );
            },
        };
        Ok(IndexExclusionConstraintOperatorCommutatorSourceReceipt {
            source_id: self.source_connection_key.clone(),
            connection_policy_binding: self.connection_policy_binding.clone(),
            source_digest: self.snapshot_digest.clone(),
            extractor_revision: self.extractor_revision.clone(),
            observed_at_utc: self.observed_at_utc.clone(),
            location: observation.clone(),
        })
    }
}

} // verus!
