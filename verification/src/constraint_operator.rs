//! Ordinary exclusion-constraint `conexclop` evidence.
//!
//! PostgreSQL stores the exclusion operators of an `EXCLUDE` constraint in
//! `pg_constraint.conexclop`, independently of the backing index's operator classes. This layer
//! keeps the resolved operator signatures of every constraint and checks them, in key order,
//! against the exclusion semantics already governed for its backing index; it also retains the
//! backing index's implementation procedure of each key for later comparison.

use vstd::prelude::*;

use crate::catalog::{
    lemma_coordinate_lt_irreflexive, BaseNotNullConstraint, BaseRelation, BaseRelationView, ConstraintCoordinateView,
    IndexCoordinateView, IndexPartitionEvidence, IssuedSnapshot, LineageView, MembershipView,
};
use crate::constraint_access_method::{rebind_exclusion_constraints, rebinding_refusal};
use crate::constraint_key::{
    first_key_code, key_field, IndexExclusionConstraintKeyObservation, IndexExclusionConstraintKeySnapshot, KEY_DIGEST_DOMAIN,
};
use crate::constraint_property::{
    canonicalize_constraint_properties, constraint_property_location, constraint_property_preimage,
    coordinate_refusal_code, coordinates_of, lemma_same_bound_values, same_bound_values,
    find_constraint_observation, frame_constraint_entries, observation_of_constraint,
    render_constraint_property_location, sorted_by_constraint, ConstraintBound, ConstraintPropertyView,
};
use crate::digest::{digest_text, finish_digest, frame_len, frame_str, put_len, put_raw, put_str};
use crate::error::{fails_with, fails_with_text, invalid, ObservationError};
use crate::exclusion::{
    exclusion_rebinding_refusal, exclusion_views, frame_operator, rebind_exclusion_semantics, put_operator, ExclusionKeyView, IndexExclusionSemanticsSnapshot,
    IndexKeyExclusionSemanticsObservation,
};
use crate::exclusion_constraint::{
    constraint_at, constraint_key, constraint_lt, constraint_views, lookup_constraint, put_constraint, refused_as,
    ConstraintRefusal, ExclusionConstraintView, IndexExclusionConstraintCoordinate, IndexExclusionConstraintObservation,
    IndexExclusionConstraintSnapshot,
};
use crate::order::{lemma_sorted_by_key_is, sorted_by_key, strictly_sorted, text_eq, KeyOrder, SortKey};
use crate::signatures::{OperatorView, ProcedureView, QualifiedOperatorSignature, QualifiedProcedureSignature};
use vstd::utf8::encode_utf8;

verus! {

/// The values of operator signatures, in order.
pub open spec fn operator_views(v: Seq<QualifiedOperatorSignature>) -> Seq<OperatorView> {
    v.map_values(|o: QualifiedOperatorSignature| o@)
}

/// Resolved `pg_constraint.conexclop` signatures of one ordinary `EXCLUDE` constraint, in key
/// order.
#[derive(Debug, PartialEq, Eq)]
pub struct IndexExclusionConstraintOperatorObservation {
    coordinate: IndexExclusionConstraintCoordinate,
    operators: Vec<QualifiedOperatorSignature>,
}

impl View for IndexExclusionConstraintOperatorObservation {
    type V = ConstraintPropertyView<Seq<OperatorView>>;

    closed spec fn view(&self) -> ConstraintPropertyView<Seq<OperatorView>> {
        ConstraintPropertyView { coordinate: self.coordinate@, property: operator_views(self.operators@) }
    }
}

fn clone_operators(v: &[QualifiedOperatorSignature]) -> (c: Vec<QualifiedOperatorSignature>)
    ensures
        operator_views(c@) == operator_views(v@),
{
    let mut out: Vec<QualifiedOperatorSignature> = Vec::new();
    let mut i: usize = 0;
    while i < v.len()
        invariant
            i <= v@.len(),
            operator_views(out@) == operator_views(v@).subrange(0, i as int),
        decreases v@.len() - i,
    {
        let ghost before = out@;
        let c = v[i].clone();
        out.push(c);
        assert(operator_views(out@) =~= operator_views(before).push(c@));
        assert(operator_views(out@) =~= operator_views(v@).subrange(0, i + 1));
        i = i + 1;
    }
    assert(operator_views(v@).subrange(0, v@.len() as int) =~= operator_views(v@));
    out
}

impl Clone for IndexExclusionConstraintOperatorObservation {
    fn clone(&self) -> (c: Self)
        ensures
            c@ == self@,
    {
        IndexExclusionConstraintOperatorObservation {
            coordinate: self.coordinate.clone(),
            operators: clone_operators(self.operators.as_slice()),
        }
    }
}

impl IndexExclusionConstraintOperatorObservation {
    /// Records the resolved `conexclop` signatures in key order; the vector is never empty.
    pub fn new(coordinate: IndexExclusionConstraintCoordinate, operators: Vec<QualifiedOperatorSignature>) -> (r: Result<
        Self,
        ObservationError,
    >)
        ensures
            r is Ok <==> operators@.len() > 0,
            r is Err ==> fails_with(r, "index_exclusion_constraint_operator_state"),
            r matches Ok(o) ==> o@ == (ConstraintPropertyView {
                coordinate: coordinate@,
                property: operator_views(operators@),
            }),
    {
        if operators.len() == 0 {
            return Err(invalid("index_exclusion_constraint_operator_state"));
        }
        Ok(IndexExclusionConstraintOperatorObservation { coordinate, operators })
    }

    /// Returns the exact exclusion-constraint coordinate.
    pub fn coordinate(&self) -> (c: &IndexExclusionConstraintCoordinate)
        ensures
            c@ == self@.coordinate,
    {
        &self.coordinate
    }

    /// Returns the resolved operator signatures in key order.
    pub fn operators(&self) -> (o: &[QualifiedOperatorSignature])
        ensures
            operator_views(o@) == self@.property,
    {
        self.operators.as_slice()
    }

    /// Returns the collision-safe location of this operator observation.
    pub fn canonical_location(&self) -> (s: String)
        ensures
            s@ == constraint_property_location(self@.coordinate, "exclusion-operators"@),
    {
        render_constraint_property_location(&self.coordinate, "exclusion-operators")
    }
}

/// Framing of operator signatures, in order.
pub open spec fn frame_operators(s: Seq<OperatorView>) -> Seq<u8>
    decreases s.len(),
{
    if s.len() == 0 {
        Seq::empty()
    } else {
        frame_operators(s.drop_last()) + frame_operator(s.last())
    }
}

impl ConstraintBound for IndexExclusionConstraintOperatorObservation {
    open spec fn bound_constraint(&self) -> ConstraintCoordinateView {
        self@.coordinate
    }

    open spec fn constraint_property_frame(&self) -> Seq<u8> {
        frame_len(self@.property.len()) + frame_operators(self@.property)
    }

    fn constraint_coordinate(&self) -> (c: &IndexExclusionConstraintCoordinate) {
        &self.coordinate
    }

    fn put_constraint_property(&self, out: &mut Vec<u8>) {
        let ghost s0 = out@;
        let ghost ops = self@.property;
        put_len(out, self.operators.len());
        let ghost header = out@;
        let mut i: usize = 0;
        while i < self.operators.len()
            invariant
                i <= self.operators@.len(),
                ops == operator_views(self.operators@),
                header == s0 + frame_len(ops.len()),
                out@ == header + frame_operators(ops.subrange(0, i as int)),
            decreases self.operators@.len() - i,
        {
            put_operator(out, &self.operators[i]);
            proof {
                let next = ops.subrange(0, i + 1);
                assert(next.drop_last() =~= ops.subrange(0, i as int));
                assert(next.last() == self.operators@[i as int]@);
                assert(out@ =~= header + frame_operators(next));
            }
            i = i + 1;
        }
        assert(ops.subrange(0, self.operators@.len() as int) =~= ops);
        assert(final(out)@ =~= s0 + (frame_len(ops.len()) + frame_operators(ops)));
    }
}

impl SortKey for IndexExclusionConstraintOperatorObservation {
    open spec fn key_lt(self, other: Self) -> bool {
        constraint_lt(self@.coordinate, other@.coordinate)
    }

    proof fn lemma_key_lt_transitive(a: Self, b: Self, c: Self) {
        crate::catalog::lemma_coordinate_lt_transitive(
            constraint_key(a@.coordinate),
            constraint_key(b@.coordinate),
            constraint_key(c@.coordinate),
        );
    }

    proof fn lemma_key_lt_irreflexive(a: Self) {
        lemma_coordinate_lt_irreflexive(constraint_key(a@.coordinate));
    }

    fn compare_key(&self, other: &Self) -> (o: KeyOrder) {
        proof {
            lemma_coordinate_lt_irreflexive(constraint_key(self@.coordinate));
        }
        self.coordinate.compare(&other.coordinate)
    }
}

/// The exclusion keys of index `idx`, in the semantics order (index, then key position).
pub open spec fn keys_on(sem: Seq<ExclusionKeyView>, idx: IndexCoordinateView) -> Seq<ExclusionKeyView>
    decreases sem.len(),
{
    if sem.len() == 0 {
        Seq::empty()
    } else {
        keys_on(sem.drop_last(), idx) + if sem.last().index == idx {
            seq![sem.last()]
        } else {
            Seq::empty()
        }
    }
}

/// The operators of the exclusion keys of index `idx`, in key order.
pub open spec fn expected_operators(sem: Seq<ExclusionKeyView>, idx: IndexCoordinateView) -> Seq<OperatorView> {
    keys_on(sem, idx).map_values(|k: ExclusionKeyView| k.operator)
}

/// How one operator observation fails, or 0: 1 no such constraint, 2 operators other than the
/// backing index's exclusion operators (or none at all).
pub open spec fn operator_code(
    cons: Seq<ExclusionConstraintView>,
    sem: Seq<ExclusionKeyView>,
    o: ConstraintPropertyView<Seq<OperatorView>>,
) -> int {
    match constraint_at(cons, o.coordinate) {
        None => 1,
        Some(c) => if expected_operators(sem, c.backing_index).len() == 0 || o.property != expected_operators(
            sem,
            c.backing_index,
        ) {
            2
        } else {
            0
        },
    }
}

/// The first non-zero operator code over the observations, in order.
pub open spec fn first_operator_code(
    cons: Seq<ExclusionConstraintView>,
    sem: Seq<ExclusionKeyView>,
    s: Seq<ConstraintPropertyView<Seq<OperatorView>>>,
) -> int
    decreases s.len(),
{
    if s.len() == 0 {
        0
    } else if operator_code(cons, sem, s[0]) != 0 {
        operator_code(cons, sem, s[0])
    } else {
        first_operator_code(cons, sem, s.drop_first())
    }
}

/// The field reported for a non-zero operator code.
pub open spec fn operator_field(code: int) -> Seq<char> {
    if code == 1 {
        "index_exclusion_constraint_operator_completeness"@
    } else {
        "index_exclusion_constraint_operator_state"@
    }
}

/// The backing implementation procedures retained for accepted observations: for each
/// constraint, in order, one (constraint, key position, procedure) entry per exclusion key of its
/// backing index.
pub open spec fn backing_procedures_of(
    cons: Seq<ExclusionConstraintView>,
    sem: Seq<ExclusionKeyView>,
    s: Seq<ConstraintPropertyView<Seq<OperatorView>>>,
) -> Seq<(ConstraintCoordinateView, u32, ProcedureView)>
    decreases s.len(),
{
    if s.len() == 0 {
        Seq::empty()
    } else {
        let o = s.last();
        backing_procedures_of(cons, sem, s.drop_last()) + keys_on(sem, constraint_at(cons, o.coordinate)->0.backing_index)
            .map_values(|k: ExclusionKeyView| (o.coordinate, k.key_position, k.procedure))
    }
}

} // verus!

verus! {

/// The values of retained (constraint, key position, procedure) entries.
pub open spec fn procedure_entry_views(v: Seq<(IndexExclusionConstraintCoordinate, u32, QualifiedProcedureSignature)>) -> Seq<
    (ConstraintCoordinateView, u32, ProcedureView),
> {
    v.map_values(|e: (IndexExclusionConstraintCoordinate, u32, QualifiedProcedureSignature)| (e.0@, e.1, e.2@))
}

fn keys_of_index(sem: &[IndexKeyExclusionSemanticsObservation], idx: &crate::catalog::IndexPartitionCoordinate) -> (m: Vec<
    usize,
>)
    ensures
        forall|k: int| 0 <= k < m@.len() ==> m@[k] < sem@.len(),
        m@.map_values(|j: usize| exclusion_views(sem@)[j as int]) == keys_on(exclusion_views(sem@), idx@),
{
    let ghost views = exclusion_views(sem@);
    let mut m: Vec<usize> = Vec::new();
    let mut j: usize = 0;
    while j < sem.len()
        invariant
            j <= sem@.len(),
            views == exclusion_views(sem@),
            forall|k: int| 0 <= k < m@.len() ==> m@[k] < sem@.len(),
            m@.map_values(|x: usize| views[x as int]) == keys_on(views.subrange(0, j as int), idx@),
        decreases sem@.len() - j,
    {
        let ghost next = views.subrange(0, j + 1);
        assert(next.drop_last() =~= views.subrange(0, j as int));
        assert(next.last() == sem@[j as int]@);
        let ghost before = m@;
        if sem[j].index().same_as(idx) {
            m.push(j);
            assert(m@.map_values(|x: usize| views[x as int]) =~= before.map_values(|x: usize| views[x as int]).push(
                views[j as int],
            ));
        } else {
            assert(m@.map_values(|x: usize| views[x as int]) =~= before.map_values(|x: usize| views[x as int]));
        }
        assert(m@.map_values(|x: usize| views[x as int]) =~= keys_on(next, idx@));
        j = j + 1;
    }
    assert(views.subrange(0, sem@.len() as int) =~= views);
    m
}

fn check_operator(
    constraints: &[IndexExclusionConstraintObservation],
    sem: &[IndexKeyExclusionSemanticsObservation],
    o: &IndexExclusionConstraintOperatorObservation,
    procedures: &mut Vec<(IndexExclusionConstraintCoordinate, u32, QualifiedProcedureSignature)>,
) -> (r: Result<(), ObservationError>)
    ensures
        ({
            let cons = constraint_views(constraints@);
            let code = operator_code(cons, exclusion_views(sem@), o@);
            &&& r is Ok <==> code == 0
            &&& r is Err ==> fails_with_text(r, operator_field(code))
            &&& r is Ok ==> procedure_entry_views(final(procedures)@) == procedure_entry_views(old(procedures)@) + keys_on(
                exclusion_views(sem@),
                constraint_at(cons, o@.coordinate)->0.backing_index,
            ).map_values(|k: ExclusionKeyView| (o@.coordinate, k.key_position, k.procedure))
        }),
{
    let ghost views = exclusion_views(sem@);
    let constraint = match lookup_constraint(constraints, o.coordinate()) {
        Some(c) => c,
        None => {
            return Err(invalid("index_exclusion_constraint_operator_completeness"));
        },
    };
    let m = keys_of_index(sem, constraint.backing_index());
    let ghost keys = keys_on(views, constraint@.backing_index);
    let ops = o.operators();
    if m.len() == 0 || m.len() != ops.len() {
        proof {
            assert(expected_operators(views, constraint@.backing_index).len() == keys.len());
            if m.len() != 0 {
                assert(o@.property.len() == ops@.len());
                assert(o@.property != expected_operators(views, constraint@.backing_index));
            }
        }
        return Err(invalid("index_exclusion_constraint_operator_state"));
    }
    let mut i: usize = 0;
    while i < m.len()
        invariant
            i <= m@.len(),
            m@.len() == ops@.len(),
            views == exclusion_views(sem@),
            forall|k: int| 0 <= k < m@.len() ==> m@[k] < sem@.len(),
            m@.map_values(|x: usize| views[x as int]) == keys,
            keys == keys_on(views, constraint@.backing_index),
            constraint_at(constraint_views(constraints@), o@.coordinate) == Some(constraint@),
            operator_views(ops@) == o@.property,
            forall|k: int| 0 <= k < i ==> o@.property[k] == keys[k].operator,
        decreases m@.len() - i,
    {
        assert(keys.len() == m@.len());
        assert(keys[i as int] == views[m@[i as int] as int]);
        assert(views[m@[i as int] as int] == sem@[m@[i as int] as int]@);
        assert(o@.property[i as int] == ops@[i as int]@);
        assert(expected_operators(views, constraint@.backing_index)[i as int] == keys[i as int].operator);
        if !ops[i].same_as(sem[m[i]].operator()) {
            proof {
                assert(o@.property[i as int] != expected_operators(views, constraint@.backing_index)[i as int]);
            }
            return Err(invalid("index_exclusion_constraint_operator_state"));
        }
        i = i + 1;
    }
    assert(o@.property =~= expected_operators(views, constraint@.backing_index));
    let ghost start = procedures@;
    let ghost added = keys.map_values(|k: ExclusionKeyView| (o@.coordinate, k.key_position, k.procedure));
    let mut k: usize = 0;
    while k < m.len()
        invariant
            k <= m@.len(),
            views == exclusion_views(sem@),
            forall|x: int| 0 <= x < m@.len() ==> m@[x] < sem@.len(),
            m@.map_values(|x: usize| views[x as int]) == keys,
            added == keys.map_values(|kk: ExclusionKeyView| (o@.coordinate, kk.key_position, kk.procedure)),
            keys == keys_on(views, constraint@.backing_index),
            constraint_at(constraint_views(constraints@), o@.coordinate) == Some(constraint@),
            o@.property == expected_operators(views, constraint@.backing_index),
            procedure_entry_views(procedures@) == procedure_entry_views(start) + added.subrange(0, k as int),
        decreases m@.len() - k,
    {
        let key = &sem[m[k]];
        assert(keys[k as int] == key@);
        let entry = (o.coordinate().clone(), key.key_position(), key.procedure().clone());
        let ghost before = procedures@;
        procedures.push(entry);
        proof {
            assert(procedure_entry_views(procedures@) =~= procedure_entry_views(before).push(added[k as int]));
            assert(procedure_entry_views(procedures@) =~= procedure_entry_views(start) + added.subrange(0, k + 1));
        }
        k = k + 1;
    }
    assert(added.subrange(0, m@.len() as int) =~= added);
    Ok(())
}

} // verus!

verus! {

/// The values of operator observations, in order.
pub open spec fn operator_observation_views(s: Seq<IndexExclusionConstraintOperatorObservation>) -> Seq<
    ConstraintPropertyView<Seq<OperatorView>>,
> {
    s.map_values(|o: IndexExclusionConstraintOperatorObservation| o@)
}

fn check_operators(
    constraints: &[IndexExclusionConstraintObservation],
    sem: &[IndexKeyExclusionSemanticsObservation],
    obs: &[IndexExclusionConstraintOperatorObservation],
) -> (r: Result<Vec<(IndexExclusionConstraintCoordinate, u32, QualifiedProcedureSignature)>, ObservationError>)
    ensures
        ({
            let cons = constraint_views(constraints@);
            let code = first_operator_code(cons, exclusion_views(sem@), operator_observation_views(obs@));
            &&& r is Ok <==> code == 0
            &&& r is Err ==> fails_with_text(r, operator_field(code))
            &&& r matches Ok(v) ==> procedure_entry_views(v@) == backing_procedures_of(
                cons,
                exclusion_views(sem@),
                operator_observation_views(obs@),
            )
        }),
{
    let ghost cons = constraint_views(constraints@);
    let ghost sv = exclusion_views(sem@);
    let ghost views = operator_observation_views(obs@);
    let mut procedures: Vec<(IndexExclusionConstraintCoordinate, u32, QualifiedProcedureSignature)> = Vec::new();
    let mut i: usize = 0;
    assert(views.skip(0) =~= views);
    assert(procedure_entry_views(procedures@) =~= backing_procedures_of(cons, sv, views.subrange(0, 0)));
    while i < obs.len()
        invariant
            i <= obs@.len(),
            cons == constraint_views(constraints@),
            sv == exclusion_views(sem@),
            views == operator_observation_views(obs@),
            first_operator_code(cons, sv, views) == first_operator_code(cons, sv, views.skip(i as int)),
            procedure_entry_views(procedures@) == backing_procedures_of(cons, sv, views.subrange(0, i as int)),
        decreases obs@.len() - i,
    {
        assert(views.skip(i as int)[0] == obs@[i as int]@);
        assert(views.skip(i as int).drop_first() =~= views.skip(i + 1));
        check_operator(constraints, sem, &obs[i], &mut procedures)?;
        proof {
            let next = views.subrange(0, i + 1);
            assert(next.drop_last() =~= views.subrange(0, i as int));
            assert(next.last() == obs@[i as int]@);
        }
        i = i + 1;
    }
    assert(views.subrange(0, obs@.len() as int) =~= views);
    Ok(procedures)
}

/// The field reported when the exclusion-constraint evidence cannot be rebound.
pub const OPERATOR_BINDING_FIELD: &'static str = "index_exclusion_constraint_operator_predecessor_binding";

/// Why the key and exclusion-semantics evidence cannot be rebound, or `None` when they can: the
/// key evidence must be rebuilt over the rebound constraints and the issued period evidence (its
/// own refusal) to its issued digest, and the exclusion semantics must be rebuilt over the issued
/// operator-family evidence, the base snapshot's relations and the index-partition evidence (its
/// own refusal) to its issued digest. Both issued snapshots hold their entries in sorted order.
pub open spec fn operator_chain_refusal(
    rels: Seq<BaseRelationView>,
    ms: Seq<MembershipView>,
    constraints: Seq<IndexExclusionConstraintObservation>,
    period_digest: Seq<char>,
    keys: Seq<IndexExclusionConstraintKeyObservation>,
    key_digest: Seq<char>,
    family_digest: Seq<char>,
    sem: Seq<IndexKeyExclusionSemanticsObservation>,
    sem_digest: Seq<char>,
) -> Option<ConstraintRefusal> {
    let code = coordinate_refusal_code(coordinates_of(constraints), keys);
    let key = first_key_code(
        rels,
        constraint_views(constraints),
        keys.map_values(|x: IndexExclusionConstraintKeyObservation| x@),
    );
    if code == 1 {
        Some(ConstraintRefusal::Field("index_exclusion_constraint_key_coordinate"@))
    } else if code == 2 {
        Some(ConstraintRefusal::Field("index_exclusion_constraint_key_completeness"@))
    } else if key != 0 {
        Some(ConstraintRefusal::Field(key_field(key)))
    } else if digest_text(constraint_property_preimage(KEY_DIGEST_DOMAIN@, period_digest, keys)) != key_digest {
        Some(ConstraintRefusal::Field(OPERATOR_BINDING_FIELD@))
    } else if exclusion_rebinding_refusal(rels, ms, family_digest, sem, sem_digest, OPERATOR_BINDING_FIELD@) is Some {
        Some(ConstraintRefusal::Field(
            exclusion_rebinding_refusal(rels, ms, family_digest, sem, sem_digest, OPERATOR_BINDING_FIELD@)->0,
        ))
    } else {
        None
    }
}

/// Why operator evidence is refused, or `None` when it is issued: the exclusion-constraint
/// evidence must be rebuilt from the base snapshot and the index-partition evidence to its issued
/// digest; then the key and exclusion-semantics evidence must be rebound over it; then the
/// observations must cover exactly its constraints, once each; then, in constraint order, each
/// must carry its backing index's exclusion operators in key order.
pub open spec fn operator_refusal(
    rels: Seq<BaseRelationView>,
    not_null: Option<Seq<ConstraintCoordinateView>>,
    ms: Seq<MembershipView>,
    partition_digest: Seq<char>,
    constraints: Seq<IndexExclusionConstraintObservation>,
    constraint_digest: Seq<char>,
    period_digest: Seq<char>,
    keys: Seq<IndexExclusionConstraintKeyObservation>,
    key_digest: Seq<char>,
    family_digest: Seq<char>,
    sem: Seq<IndexKeyExclusionSemanticsObservation>,
    sem_digest: Seq<char>,
    obs: Seq<IndexExclusionConstraintOperatorObservation>,
) -> Option<ConstraintRefusal> {
    let rebound = sorted_by_key(constraints);
    let chain = operator_chain_refusal(rels, ms, rebound, period_digest, keys, key_digest, family_digest, sem, sem_digest);
    let code = coordinate_refusal_code(coordinates_of(rebound), obs);
    let state = first_operator_code(
        constraint_views(rebound),
        exclusion_views(sem),
        operator_observation_views(sorted_by_key(obs)),
    );
    if rebinding_refusal(rels, not_null, ms, partition_digest, constraints, constraint_digest, OPERATOR_BINDING_FIELD@)
        is Some {
        rebinding_refusal(rels, not_null, ms, partition_digest, constraints, constraint_digest, OPERATOR_BINDING_FIELD@)
    } else if chain is Some {
        chain
    } else if code == 1 {
        Some(ConstraintRefusal::Field("index_exclusion_constraint_operator_coordinate"@))
    } else if code == 2 {
        Some(ConstraintRefusal::Field("index_exclusion_constraint_operator_completeness"@))
    } else if state != 0 {
        Some(ConstraintRefusal::Field(operator_field(state)))
    } else {
        None
    }
}

fn clone_keys(s: &[IndexExclusionConstraintKeyObservation]) -> (v: Vec<IndexExclusionConstraintKeyObservation>)
    ensures
        v@.len() == s@.len(),
        forall|i: int| 0 <= i < s@.len() ==> (#[trigger] v@[i])@ == s@[i]@,
{
    let mut v: Vec<IndexExclusionConstraintKeyObservation> = Vec::new();
    let mut i: usize = 0;
    while i < s.len()
        invariant
            i <= s@.len(),
            v@.len() == i,
            forall|k: int| 0 <= k < i ==> (#[trigger] v@[k])@ == s@[k]@,
        decreases s@.len() - i,
    {
        v.push(s[i].clone());
        i = i + 1;
    }
    v
}

proof fn lemma_key_copy(c: Seq<IndexExclusionConstraintKeyObservation>, e: Seq<IndexExclusionConstraintKeyObservation>)
    requires
        c.len() == e.len(),
        forall|i: int| 0 <= i < e.len() ==> (#[trigger] c[i])@ == e[i]@,
        strictly_sorted(e),
    ensures
        strictly_sorted(c),
        sorted_by_key(c) == c,
        coordinates_of(c) == coordinates_of(e),
        c.map_values(|x: IndexExclusionConstraintKeyObservation| x@) == e.map_values(
            |x: IndexExclusionConstraintKeyObservation| x@,
        ),
        forall|domain: Seq<char>, d: Seq<char>|
            #![trigger constraint_property_preimage(domain, d, c)]
            constraint_property_preimage(domain, d, c) == constraint_property_preimage(domain, d, e),
        forall|pred: Seq<ConstraintCoordinateView>|
            #![trigger coordinate_refusal_code(pred, c)]
            coordinate_refusal_code(pred, c) == coordinate_refusal_code(pred, e),
{
    assert forall|i: int, j: int| 0 <= i < j < c.len() implies (#[trigger] c[i]).key_lt(#[trigger] c[j]) by {
        assert(e[i].key_lt(e[j]));
    }
    lemma_sorted_by_key_is(c, c);
    assert(same_bound_values(c, e)) by {
        assert forall|i: int| 0 <= i < c.len() implies (#[trigger] c[i]).bound_constraint() == e[i].bound_constraint()
            && c[i].constraint_property_frame() == e[i].constraint_property_frame() by {
            assert(c[i]@ == e[i]@);
        }
    }
    lemma_same_bound_values(c, e);
    assert(c.map_values(|x: IndexExclusionConstraintKeyObservation| x@) =~= e.map_values(
        |x: IndexExclusionConstraintKeyObservation| x@,
    ));
}

fn rebind_keys_and_semantics(
    relations: &[BaseRelation],
    partition: &IndexPartitionEvidence,
    rebound: &IndexExclusionConstraintSnapshot,
    period_snapshot: &IssuedSnapshot,
    key_snapshot: &IndexExclusionConstraintKeySnapshot,
    operator_family_snapshot: &IssuedSnapshot,
    semantics_snapshot: &IndexExclusionSemanticsSnapshot,
) -> (r: Result<(IndexExclusionConstraintKeySnapshot, IndexExclusionSemanticsSnapshot), ObservationError>)
    ensures
        ({
            let refusal = operator_chain_refusal(
                relations@.map_values(|b: BaseRelation| b@),
                partition.membership_views(),
                rebound.entries(),
                period_snapshot.lineage().snapshot_digest,
                key_snapshot.entries(),
                key_snapshot.lineage().snapshot_digest,
                operator_family_snapshot.lineage().snapshot_digest,
                semantics_snapshot.entries(),
                semantics_snapshot.lineage().snapshot_digest,
            );
            &&& r is Ok <==> refusal is None
            &&& refusal matches Some(f) ==> refused_as(r, f)
        }),
        r matches Ok((k, s)) ==> {
            &&& k.lineage() == (LineageView {
                snapshot_digest: key_snapshot.lineage().snapshot_digest,
                ..period_snapshot.lineage()
            })
            &&& s.entries().len() == semantics_snapshot.entries().len()
            &&& exclusion_views(s.entries()) == exclusion_views(semantics_snapshot.entries())
            &&& s.lineage().snapshot_digest == semantics_snapshot.lineage().snapshot_digest
        },
{
    let given_keys = key_snapshot.observations();
    let keys = clone_keys(given_keys);
    proof {
        lemma_key_copy(keys@, given_keys@);
        reveal_strlit("index_exclusion_constraint_key_coordinate");
        reveal_strlit("index_exclusion_constraint_key_completeness");
    }
    let rebound_key = IndexExclusionConstraintKeySnapshot::new(relations, rebound, period_snapshot, keys)?;
    if !text_eq(rebound_key.snapshot_digest(), key_snapshot.snapshot_digest()) {
        return Err(invalid(OPERATOR_BINDING_FIELD));
    }
    let rebound_sem = rebind_exclusion_semantics(
        operator_family_snapshot,
        relations,
        partition,
        semantics_snapshot,
        OPERATOR_BINDING_FIELD,
    )?;
    Ok((rebound_key, rebound_sem))
}

/// Domain separator of the operator digest.
pub const OPERATOR_DIGEST_DOMAIN: &'static str =
    "conceptweave.postgres_schema_snapshot.v3.relation_partition.index_partition.exclusion_constraint.operator.v1";

/// The preimage of the operator digest over the key and exclusion-semantics digests.
pub open spec fn operator_preimage(
    key_digest: Seq<char>,
    semantics_digest: Seq<char>,
    s: Seq<IndexExclusionConstraintOperatorObservation>,
) -> Seq<u8> {
    encode_utf8(OPERATOR_DIGEST_DOMAIN@) + frame_str(key_digest) + frame_str(semantics_digest) + frame_len(s.len())
        + frame_constraint_entries(s)
}

fn compute_operator_digest(
    key_digest: &str,
    semantics_digest: &str,
    observations: &[IndexExclusionConstraintOperatorObservation],
) -> (d: String)
    ensures
        d@ == digest_text(operator_preimage(key_digest@, semantics_digest@, observations@)),
{
    let mut out: Vec<u8> = Vec::new();
    put_raw(&mut out, OPERATOR_DIGEST_DOMAIN.as_bytes());
    put_str(&mut out, key_digest);
    put_str(&mut out, semantics_digest);
    put_len(&mut out, observations.len());
    let ghost header = out@;
    let mut i: usize = 0;
    while i < observations.len()
        invariant
            i <= observations@.len(),
            out@ == header + frame_constraint_entries(observations@.subrange(0, i as int)),
        decreases observations@.len() - i,
    {
        let ghost before = out@;
        let o = &observations[i];
        put_constraint(&mut out, o.constraint_coordinate());
        o.put_constraint_property(&mut out);
        proof {
            vstd::seq_lib::lemma_concat_associative(
                before,
                crate::exclusion_constraint::frame_constraint(o.bound_constraint()),
                o.constraint_property_frame(),
            );
            let next = observations@.subrange(0, i + 1);
            assert(next.drop_last() =~= observations@.subrange(0, i as int));
            assert(next.last() == observations@[i as int]);
            assert(out@ =~= header + frame_constraint_entries(next));
        }
        i = i + 1;
    }
    proof {
        assert(observations@.subrange(0, observations@.len() as int) =~= observations@);
    }
    finish_digest(&out)
}

} // verus!

verus! {

/// The procedure retained for constraint `c` at `key_position`: the first such entry.
pub open spec fn procedure_at(
    s: Seq<(ConstraintCoordinateView, u32, ProcedureView)>,
    c: ConstraintCoordinateView,
    key_position: u32,
) -> Option<ProcedureView>
    decreases s.len(),
{
    if s.len() == 0 {
        None
    } else if s[0].0 == c && s[0].1 == key_position {
        Some(s[0].2)
    } else {
        procedure_at(s.drop_first(), c, key_position)
    }
}

/// Immutable provenance receipt for one exact `conexclop` observation.
#[derive(Debug, PartialEq, Eq)]
pub struct IndexExclusionConstraintOperatorSourceReceipt {
    source_id: String,
    connection_policy_binding: String,
    source_digest: String,
    extractor_revision: String,
    observed_at_utc: String,
    location: IndexExclusionConstraintOperatorObservation,
}

impl IndexExclusionConstraintOperatorSourceReceipt {
    /// The provenance carried by this receipt.
    pub closed spec fn lineage(&self) -> LineageView {
        LineageView {
            source_connection_key: self.source_id@,
            connection_policy_binding: self.connection_policy_binding@,
            snapshot_digest: self.source_digest@,
            extractor_revision: self.extractor_revision@,
            observed_at_utc: self.observed_at_utc@,
        }
    }

    /// The observation covered by this receipt.
    pub closed spec fn location_view(&self) -> ConstraintPropertyView<Seq<OperatorView>> {
        self.location@
    }

    /// Returns the stable source registry key, never credential material.
    pub fn source_id(&self) -> (s: &str)
        ensures
            s@ == self.lineage().source_connection_key,
    {
        self.source_id.as_str()
    }

    /// Returns the immutable source-policy binding.
    pub fn connection_policy_binding(&self) -> (s: &str)
        ensures
            s@ == self.lineage().connection_policy_binding,
    {
        self.connection_policy_binding.as_str()
    }

    /// Returns the owner-computed constraint-operator successor digest.
    pub fn source_digest(&self) -> (s: &str)
        ensures
            s@ == self.lineage().snapshot_digest,
    {
        self.source_digest.as_str()
    }

    /// Returns the exact extractor revision inherited from the key predecessor.
    pub fn extractor_revision(&self) -> (s: &str)
        ensures
            s@ == self.lineage().extractor_revision,
    {
        self.extractor_revision.as_str()
    }

    /// Returns the exact canonical UTC observation time inherited from the predecessor.
    pub fn observed_at_utc(&self) -> (s: &str)
        ensures
            s@ == self.lineage().observed_at_utc,
    {
        self.observed_at_utc.as_str()
    }

    /// Returns the exact constraint-operator observation.
    pub fn location(&self) -> (o: &IndexExclusionConstraintOperatorObservation)
        ensures
            o@ == self.location_view(),
    {
        &self.location
    }
}

/// Complete `pg_constraint.conexclop` evidence for ordinary `EXCLUDE` constraints.
///
/// Every constraint has exactly one operator vector, equal in key order to the exclusion
/// operators governed for its backing index; the backing implementation procedure of each key is
/// retained beside it, outside the digest.
#[derive(Debug, PartialEq, Eq)]
pub struct IndexExclusionConstraintOperatorSnapshot {
    source_connection_key: String,
    connection_policy_binding: String,
    snapshot_digest: String,
    extractor_revision: String,
    observed_at_utc: String,
    observations: Vec<IndexExclusionConstraintOperatorObservation>,
    backing_procedures: Vec<(IndexExclusionConstraintCoordinate, u32, QualifiedProcedureSignature)>,
}

impl IndexExclusionConstraintOperatorSnapshot {
    /// The provenance of this snapshot, with its own digest.
    pub closed spec fn lineage(&self) -> LineageView {
        LineageView {
            source_connection_key: self.source_connection_key@,
            connection_policy_binding: self.connection_policy_binding@,
            snapshot_digest: self.snapshot_digest@,
            extractor_revision: self.extractor_revision@,
            observed_at_utc: self.observed_at_utc@,
        }
    }

    /// The retained backing procedures: (constraint, key position, procedure), in constraint and
    /// key order.
    pub closed spec fn procedure_views(&self) -> Seq<(ConstraintCoordinateView, u32, ProcedureView)> {
        procedure_entry_views(self.backing_procedures@)
    }

    /// The observations held, in coordinate order.
    pub closed spec fn entries(&self) -> Seq<IndexExclusionConstraintOperatorObservation> {
        self.observations@
    }

    /// Rebinds the exclusion-constraint evidence to the base snapshot (its relations and NOT NULL
    /// constraints) and the index-partition evidence, rebinds the key evidence over it and the
    /// issued period evidence and the exclusion semantics over the issued operator-family
    /// evidence, and creates complete `conexclop` evidence over them.
    pub fn new(
        relations: &[BaseRelation],
        not_null_constraints: Option<&[BaseNotNullConstraint]>,
        partition: &IndexPartitionEvidence,
        constraint_snapshot: &IndexExclusionConstraintSnapshot,
        period_snapshot: &IssuedSnapshot,
        key_snapshot: &IndexExclusionConstraintKeySnapshot,
        operator_family_snapshot: &IssuedSnapshot,
        semantics_snapshot: &IndexExclusionSemanticsSnapshot,
        observations: Vec<IndexExclusionConstraintOperatorObservation>,
    ) -> (r: Result<Self, ObservationError>)
        ensures
            ({
                let refusal = operator_refusal(
                    relations@.map_values(|b: BaseRelation| b@),
                    match not_null_constraints {
                        Some(s) => Some(s@.map_values(|x: BaseNotNullConstraint| x@)),
                        None => None,
                    },
                    partition.membership_views(),
                    partition.lineage().snapshot_digest,
                    constraint_snapshot.entries(),
                    constraint_snapshot.lineage().snapshot_digest,
                    period_snapshot.lineage().snapshot_digest,
                    key_snapshot.entries(),
                    key_snapshot.lineage().snapshot_digest,
                    operator_family_snapshot.lineage().snapshot_digest,
                    semantics_snapshot.entries(),
                    semantics_snapshot.lineage().snapshot_digest,
                    observations@,
                );
                &&& r is Ok <==> refusal is None
                &&& refusal matches Some(f) ==> refused_as(r, f)
            }),
            r matches Ok(s) ==> {
                &&& s.entries() == sorted_by_key(observations@)
                &&& s.procedure_views() == backing_procedures_of(
                    constraint_views(sorted_by_key(constraint_snapshot.entries())),
                    exclusion_views(semantics_snapshot.entries()),
                    operator_observation_views(s.entries()),
                )
                &&& s.lineage() == (LineageView {
                    snapshot_digest: digest_text(
                        operator_preimage(
                            key_snapshot.lineage().snapshot_digest,
                            semantics_snapshot.lineage().snapshot_digest,
                            s.entries(),
                        ),
                    ),
                    ..period_snapshot.lineage()
                })
            },
    {
        let rebound = rebind_exclusion_constraints(
            relations,
            not_null_constraints,
            partition,
            constraint_snapshot,
            OPERATOR_BINDING_FIELD,
        )?;
        let (rebound_key, rebound_sem) = rebind_keys_and_semantics(
            relations,
            partition,
            &rebound,
            period_snapshot,
            key_snapshot,
            operator_family_snapshot,
            semantics_snapshot,
        )?;
        proof {
            assert(sorted_by_constraint::<IndexExclusionConstraintOperatorObservation>());
        }
        let observations = canonicalize_constraint_properties(
            rebound.observations(),
            observations,
            "index_exclusion_constraint_operator_coordinate",
            "index_exclusion_constraint_operator_completeness",
        )?;
        let backing_procedures = check_operators(
            rebound.observations(),
            rebound_sem.observations(),
            observations.as_slice(),
        )?;
        let snapshot_digest = compute_operator_digest(
            rebound_key.snapshot_digest(),
            rebound_sem.snapshot_digest(),
            observations.as_slice(),
        );
        Ok(IndexExclusionConstraintOperatorSnapshot {
            source_connection_key: rebound_key.source_connection_key().to_owned(),
            connection_policy_binding: rebound_key.connection_policy_binding().to_owned(),
            snapshot_digest,
            extractor_revision: rebound_key.extractor_revision().to_owned(),
            observed_at_utc: rebound_key.observed_at_utc().to_owned(),
            observations,
            backing_procedures,
        })
    }

    /// Returns the backing implementation procedure retained for one constraint and key
    /// position, when there is one.
    pub fn backing_procedure(&self, coordinate: &IndexExclusionConstraintCoordinate, key_position: u32) -> (p: Option<
        &QualifiedProcedureSignature,
    >)
        ensures
            match p {
                Some(x) => procedure_at(self.procedure_views(), coordinate@, key_position) == Some(x@),
                None => procedure_at(self.procedure_views(), coordinate@, key_position) is None,
            },
    {
        let ghost views = self.procedure_views();
        let mut i: usize = 0;
        assert(views.skip(0) =~= views);
        while i < self.backing_procedures.len()
            invariant
                i <= self.backing_procedures@.len(),
                views == procedure_entry_views(self.backing_procedures@),
                procedure_at(views, coordinate@, key_position) == procedure_at(views.skip(i as int), coordinate@, key_position),
            decreases self.backing_procedures@.len() - i,
        {
            assert(views.skip(i as int)[0] == views[i as int]);
            assert(views.skip(i as int).drop_first() =~= views.skip(i + 1));
            let entry = &self.backing_procedures[i];
            if entry.0.same_as(coordinate) && entry.1 == key_position {
                return Some(&entry.2);
            }
            i = i + 1;
        }
        None
    }

    /// Returns the stable source registry key.
    pub fn source_connection_key(&self) -> (s: &str)
        ensures
            s@ == self.lineage().source_connection_key,
    {
        self.source_connection_key.as_str()
    }

    /// Returns the immutable source-policy binding.
    pub fn connection_policy_binding(&self) -> (s: &str)
        ensures
            s@ == self.lineage().connection_policy_binding,
    {
        self.connection_policy_binding.as_str()
    }

    /// Returns the owner-computed domain-separated constraint-operator digest.
    pub fn snapshot_digest(&self) -> (s: &str)
        ensures
            s@ == self.lineage().snapshot_digest,
    {
        self.snapshot_digest.as_str()
    }

    /// Returns the exact extractor revision inherited from the key predecessor.
    pub fn extractor_revision(&self) -> (s: &str)
        ensures
            s@ == self.lineage().extractor_revision,
    {
        self.extractor_revision.as_str()
    }

    /// Returns the exact canonical UTC observation time inherited from the predecessor.
    pub fn observed_at_utc(&self) -> (s: &str)
        ensures
            s@ == self.lineage().observed_at_utc,
    {
        self.observed_at_utc.as_str()
    }

    /// Returns complete constraint-operator observations in coordinate order.
    pub fn observations(&self) -> (o: &[IndexExclusionConstraintOperatorObservation])
        ensures
            o@ == self.entries(),
    {
        self.observations.as_slice()
    }

    /// Issues exact provenance for one observed exclusion constraint.
    pub fn source_receipt(&self, coordinate: IndexExclusionConstraintCoordinate) -> (r: Result<
        IndexExclusionConstraintOperatorSourceReceipt,
        ObservationError,
    >)
        ensures
            r is Ok <==> observation_of_constraint(self.entries(), coordinate@) is Some,
            r matches Ok(receipt) ==> receipt.lineage() == self.lineage() && receipt.location_view()
                == observation_of_constraint(self.entries(), coordinate@)->0@,
            r matches Err(e) ==> e matches ObservationError::UnknownObservationLocation { location: l } && l@
                == constraint_property_location(coordinate@, "exclusion-operators"@),
    {
        let observation = match find_constraint_observation(self.observations.as_slice(), &coordinate) {
            Some(o) => o,
            None => {
                proof {
                    reveal_strlit("exclusion-operators");
                }
                return Err(
                    ObservationError::UnknownObservationLocation {
                        location: render_constraint_property_location(&coordinate, "exclusion-operators"),
                    },
                );
            },
        };
        Ok(IndexExclusionConstraintOperatorSourceReceipt {
            source_id: self.source_connection_key.clone(),
            connection_policy_binding: self.connection_policy_binding.clone(),
            source_digest: self.snapshot_digest.clone(),
            extractor_revision: self.extractor_revision.clone(),
            observed_at_utc: self.observed_at_utc.clone(),
            location: observation.clone(),
        })
    }
}

} // verus!
