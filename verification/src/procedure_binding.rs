//! Operator-procedure bindings shared by the procedure-property evidence layers.
//!
//! Every procedure-property layer records, for each exclusion-constraint key, the exact governed
//! operator and its `pg_operator.oprcode` procedure together with one raw `pg_proc` property. A
//! layer holds exactly the predecessor layer's (constraint, key) positions, repeats each
//! position's operator and procedure, and is hashed in (constraint, key) order.

use vstd::prelude::*;

use crate::catalog::{ConstraintCoordinateView};
use crate::digest::{digest_text, finish_digest, frame_len, frame_str, frame_u32, put_len, put_raw, put_str, put_u32};
use crate::error::{fails_with_text, invalid, ObservationError};
use crate::exclusion::{frame_operator, frame_procedure, put_operator, put_procedure};
use crate::exclusion_constraint::{
    constraint_key, constraint_lt, frame_constraint, put_constraint, IndexExclusionConstraintCoordinate,
};
use crate::catalog::{lemma_coordinate_lt_irreflexive, lemma_coordinate_lt_total, lemma_coordinate_lt_transitive};
use crate::order::{has_key_collision, same_elements, same_key, sort_by_key, sorted_by_key, strictly_sorted, SortKey};
use crate::signatures::{OperatorView, ProcedureView, QualifiedOperatorSignature, QualifiedProcedureSignature};
use vstd::utf8::encode_utf8;

verus! {

/// The binding of one exclusion-constraint key to its operator and implementation procedure.
pub struct BindingView {
    pub coordinate: ConstraintCoordinateView,
    pub key_position: u32,
    pub operator: OperatorView,
    pub procedure: ProcedureView,
}

/// The value of one procedure-property observation: its binding and its raw property.
pub struct ProcedurePropertyView<P> {
    pub binding: BindingView,
    pub property: P,
}

/// (constraint, key) order of bindings.
pub open spec fn binding_lt(a: BindingView, b: BindingView) -> bool {
    constraint_lt(a.coordinate, b.coordinate) || (a.coordinate == b.coordinate && a.key_position < b.key_position)
}

/// The (constraint, key) order is transitive.
pub proof fn lemma_binding_lt_transitive(a: BindingView, b: BindingView, c: BindingView)
    requires
        binding_lt(a, b),
        binding_lt(b, c),
    ensures
        binding_lt(a, c),
{
    lemma_coordinate_lt_irreflexive(constraint_key(a.coordinate));
    lemma_coordinate_lt_irreflexive(constraint_key(b.coordinate));
    if constraint_lt(a.coordinate, b.coordinate) && constraint_lt(b.coordinate, c.coordinate) {
        lemma_coordinate_lt_transitive(constraint_key(a.coordinate), constraint_key(b.coordinate), constraint_key(c.coordinate));
    }
}

/// Two bindings sit at the same (constraint, key) position.
pub open spec fn same_position(a: BindingView, b: BindingView) -> bool {
    a.coordinate == b.coordinate && a.key_position == b.key_position
}

/// A value that carries one operator-procedure binding and one raw procedure property.
pub trait ProcedureBound: Sized {
    /// The binding carried by this value.
    spec fn binding(&self) -> BindingView;

    /// The framing of the raw procedure property carried by this value.
    spec fn property_frame(&self) -> Seq<u8>;

    /// Returns the exclusion-constraint coordinate.
    fn binding_coordinate(&self) -> (c: &IndexExclusionConstraintCoordinate)
        ensures
            c@ == self.binding().coordinate,
    ;

    /// Returns the one-based key position.
    fn binding_key_position(&self) -> (p: u32)
        ensures
            p == self.binding().key_position,
    ;

    /// Returns the governed operator.
    fn binding_operator(&self) -> (o: &QualifiedOperatorSignature)
        ensures
            o@ == self.binding().operator,
    ;

    /// Returns the implementation procedure.
    fn binding_procedure(&self) -> (p: &QualifiedProcedureSignature)
        ensures
            p@ == self.binding().procedure,
    ;

    /// Appends the framing of the raw procedure property.
    fn put_property(&self, out: &mut Vec<u8>)
        ensures
            final(out)@ == old(out)@ + self.property_frame(),
    ;
}

/// The bindings of a sequence of values.
pub open spec fn bindings_of<T: ProcedureBound>(s: Seq<T>) -> Seq<BindingView> {
    s.map_values(|x: T| x.binding())
}

/// Two different values sit at the same (constraint, key) position.
pub open spec fn duplicate_position(s: Seq<BindingView>) -> bool {
    exists|i: int, j: int| 0 <= i < j < s.len() && same_position(#[trigger] s[i], #[trigger] s[j])
}

/// Some binding of `s` sits at the position of `b`.
pub open spec fn position_in(s: Seq<BindingView>, b: BindingView) -> bool {
    exists|k: int| 0 <= k < s.len() && same_position(#[trigger] s[k], b)
}

/// `pred` and `obs` hold the same set of (constraint, key) positions.
pub open spec fn same_positions(pred: Seq<BindingView>, obs: Seq<BindingView>) -> bool {
    &&& forall|i: int| 0 <= i < obs.len() ==> position_in(pred, #[trigger] obs[i])
    &&& forall|k: int| 0 <= k < pred.len() ==> position_in(obs, #[trigger] pred[k])
}

/// The first binding of `pred` at the position of `b`.
pub open spec fn binding_at(pred: Seq<BindingView>, b: BindingView) -> Option<BindingView>
    decreases pred.len(),
{
    if pred.len() == 0 {
        None
    } else if same_position(pred[0], b) {
        Some(pred[0])
    } else {
        binding_at(pred.drop_first(), b)
    }
}

/// `b` repeats a different operator or procedure than the predecessor at its position.
pub open spec fn mismatches(pred: Seq<BindingView>, b: BindingView) -> bool {
    match binding_at(pred, b) {
        Some(p) => p.operator != b.operator || p.procedure != b.procedure,
        None => false,
    }
}

/// Some binding repeats a different operator or procedure than its predecessor position.
pub open spec fn binding_mismatch(pred: Seq<BindingView>, obs: Seq<BindingView>) -> bool {
    exists|i: int| 0 <= i < obs.len() && mismatches(pred, #[trigger] obs[i])
}

/// 1 for a repeated position, 2 when the positions differ from the predecessor's, 3 when a
/// position repeats another operator or procedure than its predecessor, 0 when accepted.
pub open spec fn binding_refusal_code<O: ProcedureBound + SortKey>(pred: Seq<BindingView>, obs: Seq<O>) -> int {
    let sorted = bindings_of(sorted_by_key(obs));
    if duplicate_position(bindings_of(obs)) {
        1
    } else if !same_positions(pred, sorted) {
        2
    } else if binding_mismatch(pred, sorted) {
        3
    } else {
        0
    }
}

/// The (constraint, key) order of a value is the order of its binding.
pub open spec fn sorted_by_binding<O: ProcedureBound + SortKey>() -> bool {
    forall|a: O, b: O| #[trigger] a.key_lt(b) == binding_lt(a.binding(), b.binding())
}

proof fn lemma_binding_at_found(pred: Seq<BindingView>, b: BindingView)
    requires
        position_in(pred, b),
    ensures
        binding_at(pred, b) is Some,
    decreases pred.len(),
{
    if !same_position(pred[0], b) {
        let k = choose|k: int| 0 <= k < pred.len() && same_position(#[trigger] pred[k], b);
        assert(k != 0);
        assert(same_position(pred.drop_first()[k - 1], b));
        lemma_binding_at_found(pred.drop_first(), b);
    }
}

pub(crate) proof fn lemma_position_collision<O: ProcedureBound + SortKey>(s: Seq<O>)
    requires
        sorted_by_binding::<O>(),
    ensures
        has_key_collision(s) <==> duplicate_position(bindings_of(s)),
{
    let v = bindings_of(s);
    if has_key_collision(s) {
        let (i, j) = choose|i: int, j: int| 0 <= i < j < s.len() && same_key(#[trigger] s[i], #[trigger] s[j]);
        assert(v[i] == s[i].binding() && v[j] == s[j].binding());
        assert(s[i].key_lt(s[j]) == binding_lt(s[i].binding(), s[j].binding()));
        assert(s[j].key_lt(s[i]) == binding_lt(s[j].binding(), s[i].binding()));
        if v[i].coordinate != v[j].coordinate {
            lemma_coordinate_lt_total(constraint_key(v[i].coordinate), constraint_key(v[j].coordinate));
        }
        assert(same_position(v[i], v[j]));
    }
    if duplicate_position(v) {
        let (i, j) = choose|i: int, j: int| 0 <= i < j < v.len() && same_position(#[trigger] v[i], #[trigger] v[j]);
        lemma_coordinate_lt_irreflexive(constraint_key(v[i].coordinate));
        assert(s[i].key_lt(s[j]) == binding_lt(s[i].binding(), s[j].binding()));
        assert(s[j].key_lt(s[i]) == binding_lt(s[j].binding(), s[i].binding()));
        assert(same_key(s[i], s[j]));
    }
}

fn at_same_position<A: ProcedureBound, B: ProcedureBound>(a: &A, b: &B) -> (r: bool)
    ensures
        r == same_position(a.binding(), b.binding()),
{
    a.binding_key_position() == b.binding_key_position() && a.binding_coordinate().same_as(b.binding_coordinate())
}

fn has_position<A: ProcedureBound, B: ProcedureBound>(s: &[A], b: &B) -> (r: bool)
    ensures
        r == position_in(bindings_of(s@), b.binding()),
{
    let ghost v = bindings_of(s@);
    let mut k: usize = 0;
    while k < s.len()
        invariant
            k <= s@.len(),
            v == bindings_of(s@),
            forall|x: int| 0 <= x < k ==> !same_position(#[trigger] v[x], b.binding()),
        decreases s@.len() - k,
    {
        assert(v[k as int] == s@[k as int].binding());
        if at_same_position(&s[k], b) {
            return true;
        }
        k = k + 1;
    }
    false
}

pub(crate) fn positions_match<P: ProcedureBound, O: ProcedureBound>(pred: &[P], obs: &[O]) -> (r: bool)
    ensures
        r == same_positions(bindings_of(pred@), bindings_of(obs@)),
{
    let ghost pv = bindings_of(pred@);
    let ghost ov = bindings_of(obs@);
    let mut i: usize = 0;
    while i < obs.len()
        invariant
            i <= obs@.len(),
            pv == bindings_of(pred@),
            ov == bindings_of(obs@),
            forall|x: int| 0 <= x < i ==> position_in(pv, #[trigger] ov[x]),
        decreases obs@.len() - i,
    {
        assert(ov[i as int] == obs@[i as int].binding());
        if !has_position(pred, &obs[i]) {
            return false;
        }
        i = i + 1;
    }
    let mut k: usize = 0;
    while k < pred.len()
        invariant
            k <= pred@.len(),
            pv == bindings_of(pred@),
            ov == bindings_of(obs@),
            forall|x: int| 0 <= x < obs@.len() ==> position_in(pv, #[trigger] ov[x]),
            forall|x: int| 0 <= x < k ==> position_in(ov, #[trigger] pv[x]),
        decreases pred@.len() - k,
    {
        assert(pv[k as int] == pred@[k as int].binding());
        if !has_position(obs, &pred[k]) {
            return false;
        }
        k = k + 1;
    }
    true
}

fn find_binding<'a, P: ProcedureBound, O: ProcedureBound>(pred: &'a [P], o: &O) -> (r: Option<&'a P>)
    ensures
        match r {
            Some(p) => binding_at(bindings_of(pred@), o.binding()) == Some(p.binding()),
            None => binding_at(bindings_of(pred@), o.binding()) is None,
        },
{
    let ghost v = bindings_of(pred@);
    let mut i: usize = 0;
    assert(v.skip(0) =~= v);
    while i < pred.len()
        invariant
            i <= pred@.len(),
            v == bindings_of(pred@),
            binding_at(v, o.binding()) == binding_at(v.skip(i as int), o.binding()),
        decreases pred@.len() - i,
    {
        assert(v.skip(i as int)[0] == pred@[i as int].binding());
        assert(v.skip(i as int).drop_first() =~= v.skip(i + 1));
        if at_same_position(&pred[i], o) {
            return Some(&pred[i]);
        }
        i = i + 1;
    }
    None
}

fn bindings_match<P: ProcedureBound, O: ProcedureBound>(pred: &[P], obs: &[O]) -> (r: bool)
    requires
        same_positions(bindings_of(pred@), bindings_of(obs@)),
    ensures
        r == !binding_mismatch(bindings_of(pred@), bindings_of(obs@)),
{
    let ghost pv = bindings_of(pred@);
    let ghost ov = bindings_of(obs@);
    let mut i: usize = 0;
    while i < obs.len()
        invariant
            i <= obs@.len(),
            pv == bindings_of(pred@),
            ov == bindings_of(obs@),
            same_positions(pv, ov),
            forall|x: int| 0 <= x < i ==> !mismatches(pv, #[trigger] ov[x]),
        decreases obs@.len() - i,
    {
        assert(ov[i as int] == obs@[i as int].binding());
        let o = &obs[i];
        match find_binding(pred, o) {
            None => {
                proof {
                    lemma_binding_at_found(pv, ov[i as int]);
                }
                assert(false);
            },
            Some(p) => {
                if !p.binding_operator().same_as(o.binding_operator()) || !p.binding_procedure().same_as(
                    o.binding_procedure(),
                ) {
                    assert(mismatches(pv, ov[i as int]));
                    return false;
                }
            },
        }
        i = i + 1;
    }
    true
}

/// Sorts procedure-property observations by (constraint, key) and requires them to hold exactly
/// the predecessor's positions, each repeating the predecessor's operator and procedure.
pub fn canonicalize_bindings<P: ProcedureBound, O: ProcedureBound + SortKey>(
    pred: &[P],
    observations: Vec<O>,
    coordinate_field: &'static str,
    completeness_field: &'static str,
    binding_field: &'static str,
) -> (r: Result<Vec<O>, ObservationError>)
    requires
        sorted_by_binding::<O>(),
    ensures
        ({
            let code = binding_refusal_code(bindings_of(pred@), observations@);
            &&& r is Ok <==> code == 0
            &&& code == 1 ==> fails_with_text(r, coordinate_field@)
            &&& code == 2 ==> fails_with_text(r, completeness_field@)
            &&& code == 3 ==> fails_with_text(r, binding_field@)
        }),
        r matches Ok(v) ==> v@ == sorted_by_key(observations@) && strictly_sorted(v@) && same_elements(v@, observations@),
{
    proof {
        lemma_position_collision(observations@);
    }
    let sorted = match sort_by_key(observations) {
        Some(v) => v,
        None => {
            return Err(invalid(coordinate_field));
        },
    };
    if !positions_match(pred, sorted.as_slice()) {
        return Err(invalid(completeness_field));
    }
    if !bindings_match(pred, sorted.as_slice()) {
        return Err(invalid(binding_field));
    }
    Ok(sorted)
}

} // verus!

verus! {

/// Framing of one binding: constraint coordinate, key position, operator and procedure.
pub open spec fn frame_binding(b: BindingView) -> Seq<u8> {
    frame_constraint(b.coordinate) + frame_u32(b.key_position) + frame_operator(b.operator) + frame_procedure(b.procedure)
}

/// Framing of a sequence of procedure-property observations, in order.
pub open spec fn frame_bound_entries<O: ProcedureBound>(s: Seq<O>) -> Seq<u8>
    decreases s.len(),
{
    if s.len() == 0 {
        Seq::empty()
    } else {
        frame_bound_entries(s.drop_last()) + (frame_binding(s.last().binding()) + s.last().property_frame())
    }
}

/// The preimage of a procedure-property digest: domain, predecessor digest, count and entries.
pub open spec fn bound_preimage<O: ProcedureBound>(domain: Seq<char>, predecessor_digest: Seq<char>, s: Seq<O>) -> Seq<u8> {
    encode_utf8(domain) + frame_str(predecessor_digest) + frame_len(s.len()) + frame_bound_entries(s)
}

fn put_bound_entry<O: ProcedureBound>(out: &mut Vec<u8>, o: &O)
    ensures
        final(out)@ == old(out)@ + (frame_binding(o.binding()) + o.property_frame()),
{
    let ghost s0 = out@;
    let ghost a = frame_constraint(o.binding().coordinate);
    let ghost b = frame_u32(o.binding().key_position);
    let ghost c = frame_operator(o.binding().operator);
    let ghost d = frame_procedure(o.binding().procedure);
    let ghost e = o.property_frame();
    put_constraint(out, o.binding_coordinate());
    put_u32(out, o.binding_key_position());
    proof {
        vstd::seq_lib::lemma_concat_associative(s0, a, b);
    }
    put_operator(out, o.binding_operator());
    proof {
        vstd::seq_lib::lemma_concat_associative(s0, a + b, c);
    }
    put_procedure(out, o.binding_procedure());
    proof {
        vstd::seq_lib::lemma_concat_associative(s0, a + b + c, d);
    }
    o.put_property(out);
    proof {
        vstd::seq_lib::lemma_concat_associative(s0, a + b + c + d, e);
    }
}

/// Hashes procedure-property observations under `domain` after the predecessor digest.
pub fn compute_bound_digest<O: ProcedureBound>(domain: &str, predecessor_digest: &str, observations: &[O]) -> (d: String)
    ensures
        d@ == digest_text(bound_preimage(domain@, predecessor_digest@, observations@)),
{
    let mut out: Vec<u8> = Vec::new();
    put_raw(&mut out, domain.as_bytes());
    put_str(&mut out, predecessor_digest);
    put_len(&mut out, observations.len());
    let ghost header = out@;
    let mut i: usize = 0;
    while i < observations.len()
        invariant
            i <= observations@.len(),
            out@ == header + frame_bound_entries(observations@.subrange(0, i as int)),
        decreases observations@.len() - i,
    {
        put_bound_entry(&mut out, &observations[i]);
        proof {
            let next = observations@.subrange(0, i + 1);
            assert(next.drop_last() =~= observations@.subrange(0, i as int));
            assert(next.last() == observations@[i as int]);
            assert(out@ =~= header + frame_bound_entries(next));
        }
        i = i + 1;
    }
    proof {
        assert(observations@.subrange(0, observations@.len() as int) =~= observations@);
    }
    finish_digest(&out)
}

/// The observation at (`coordinate`, `key_position`), the first such one.
pub open spec fn bound_at<O: ProcedureBound>(s: Seq<O>, coordinate: ConstraintCoordinateView, key_position: u32) -> Option<O>
    decreases s.len(),
{
    if s.len() == 0 {
        None
    } else if s[0].binding().coordinate == coordinate && s[0].binding().key_position == key_position {
        Some(s[0])
    } else {
        bound_at(s.drop_first(), coordinate, key_position)
    }
}

/// Finds the observation at (`coordinate`, `key_position`).
pub fn find_bound<'a, O: ProcedureBound>(s: &'a [O], coordinate: &IndexExclusionConstraintCoordinate, key_position: u32) -> (r:
    Option<&'a O>)
    ensures
        match r {
            Some(o) => bound_at(s@, coordinate@, key_position) == Some(*o),
            None => bound_at(s@, coordinate@, key_position) is None,
        },
{
    let mut i: usize = 0;
    assert(s@.skip(0) =~= s@);
    while i < s.len()
        invariant
            i <= s@.len(),
            bound_at(s@, coordinate@, key_position) == bound_at(s@.skip(i as int), coordinate@, key_position),
        decreases s@.len() - i,
    {
        assert(s@.skip(i as int)[0] == s@[i as int]);
        assert(s@.skip(i as int).drop_first() =~= s@.skip(i + 1));
        if s[i].binding_key_position() == key_position && s[i].binding_coordinate().same_as(coordinate) {
            return Some(&s[i]);
        }
        i = i + 1;
    }
    None
}

} // verus!

verus! {

/// Two sequences that share a prefix and end in different suffixes of one length differ.
pub proof fn lemma_suffixes_separate(prefix: Seq<u8>, x: Seq<u8>, y: Seq<u8>)
    requires
        x.len() == y.len(),
        x != y,
    ensures
        prefix + x != prefix + y,
{
    if prefix + x == prefix + y {
        assert forall|k: int| 0 <= k < x.len() implies x[k] == y[k] by {
            assert((prefix + x)[prefix.len() + k] == x[k]);
            assert((prefix + y)[prefix.len() + k] == y[k]);
        }
        assert(x =~= y);
    }
}

proof fn lemma_single_entry<O: ProcedureBound>(a: O)
    ensures
        frame_bound_entries(seq![a]) == frame_binding(a.binding()) + a.property_frame(),
{
    let sa = seq![a];
    assert(sa.drop_last() =~= Seq::<O>::empty());
    assert(sa.last() == a);
    assert(frame_bound_entries(sa.drop_last()) == Seq::<u8>::empty());
    let x = frame_binding(a.binding()) + a.property_frame();
    assert(Seq::<u8>::empty() + x =~= x);
}

/// Raw properties are never normalized away: under one domain and one predecessor digest, two
/// single-observation layers with the same binding whose properties frame differently (in framings
/// of one length) have different digest preimages.
pub proof fn lemma_bound_properties_separate<O: ProcedureBound>(domain: Seq<char>, predecessor_digest: Seq<char>, a: O, b: O)
    requires
        a.binding() == b.binding(),
        a.property_frame().len() == b.property_frame().len(),
        a.property_frame() != b.property_frame(),
    ensures
        bound_preimage(domain, predecessor_digest, seq![a]) != bound_preimage(domain, predecessor_digest, seq![b]),
{
    let head = encode_utf8(domain) + frame_str(predecessor_digest) + frame_len(1);
    let entry = frame_binding(a.binding());
    lemma_single_entry(a);
    lemma_single_entry(b);
    vstd::seq_lib::lemma_concat_associative(head, entry, a.property_frame());
    vstd::seq_lib::lemma_concat_associative(head, entry, b.property_frame());
    lemma_suffixes_separate(head + entry, a.property_frame(), b.property_frame());
}

} // verus!
