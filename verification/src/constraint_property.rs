//! Per-constraint property layers over exclusion-constraint identity evidence.
//!
//! Several layers record one raw `pg_constraint` property for every exclusion constraint of an
//! issued predecessor. A layer holds exactly the predecessor's constraint coordinates, once each,
//! and is hashed in coordinate order.

use vstd::prelude::*;

use crate::catalog::{lemma_coordinate_lt_irreflexive, lemma_coordinate_lt_total, ConstraintCoordinateView};
use crate::digest::{digest_text, finish_digest, frame_len, frame_str, put_len, put_raw, put_str};
use crate::error::{fails_with_text, invalid, ObservationError};
use crate::exclusion_constraint::{
    constraint_key, constraint_lt, frame_constraint, put_constraint, IndexExclusionConstraintCoordinate,
    IndexExclusionConstraintObservation,
};
use crate::order::{has_key_collision, same_elements, same_key, sort_by_key, sorted_by_key, strictly_sorted, SortKey};
use vstd::utf8::encode_utf8;

verus! {

/// The value of one per-constraint observation: its constraint and its raw property.
pub struct ConstraintPropertyView<P> {
    pub coordinate: ConstraintCoordinateView,
    pub property: P,
}

/// `{constraint}/{suffix}`: the location of one per-constraint property.
pub open spec fn constraint_property_location(c: ConstraintCoordinateView, suffix: Seq<char>) -> Seq<char> {
    crate::exclusion_constraint::constraint_location(c) + "/"@ + suffix
}

/// Renders the location of one per-constraint property.
pub fn render_constraint_property_location(c: &IndexExclusionConstraintCoordinate, suffix: &str) -> (s: String)
    ensures
        s@ == constraint_property_location(c@, suffix@),
{
    let mut out = c.canonical_location();
    proof {
        reveal_strlit("/");
    }
    crate::text::push_text(&mut out, "/");
    crate::text::push_text(&mut out, suffix);
    out
}

/// A value that belongs to one exclusion constraint and carries one raw property of it.
pub trait ConstraintBound: Sized {
    /// The coordinate of the constraint this value belongs to.
    spec fn bound_constraint(&self) -> ConstraintCoordinateView;

    /// The framing of the raw property carried by this value.
    spec fn constraint_property_frame(&self) -> Seq<u8>;

    /// Returns the coordinate of the constraint this value belongs to.
    fn constraint_coordinate(&self) -> (c: &IndexExclusionConstraintCoordinate)
        ensures
            c@ == self.bound_constraint(),
    ;

    /// Appends the framing of the raw property.
    fn put_constraint_property(&self, out: &mut Vec<u8>)
        ensures
            final(out)@ == old(out)@ + self.constraint_property_frame(),
    ;
}

impl ConstraintBound for IndexExclusionConstraintObservation {
    open spec fn bound_constraint(&self) -> ConstraintCoordinateView {
        self@.coordinate
    }

    open spec fn constraint_property_frame(&self) -> Seq<u8> {
        Seq::empty()
    }

    fn constraint_coordinate(&self) -> (c: &IndexExclusionConstraintCoordinate) {
        self.coordinate()
    }

    fn put_constraint_property(&self, out: &mut Vec<u8>) {
        assert(old(out)@ + Seq::<u8>::empty() =~= old(out)@);
    }
}

/// The constraint coordinates of a sequence of values.
pub open spec fn coordinates_of<T: ConstraintBound>(s: Seq<T>) -> Seq<ConstraintCoordinateView> {
    s.map_values(|x: T| x.bound_constraint())
}

/// Two different values belong to the same constraint.
pub open spec fn repeated_coordinate(s: Seq<ConstraintCoordinateView>) -> bool {
    exists|i: int, j: int| 0 <= i < j < s.len() && #[trigger] s[i] == #[trigger] s[j]
}

/// `pred` and `obs` hold the same set of constraint coordinates.
pub open spec fn same_coordinates(pred: Seq<ConstraintCoordinateView>, obs: Seq<ConstraintCoordinateView>) -> bool {
    &&& forall|i: int| 0 <= i < obs.len() ==> pred.contains(#[trigger] obs[i])
    &&& forall|k: int| 0 <= k < pred.len() ==> obs.contains(#[trigger] pred[k])
}

/// 1 for a repeated coordinate, 2 when the coordinates differ from the predecessor's, 0 when
/// accepted.
pub open spec fn coordinate_refusal_code<O: ConstraintBound>(pred: Seq<ConstraintCoordinateView>, obs: Seq<O>) -> int {
    if repeated_coordinate(coordinates_of(obs)) {
        1
    } else if !same_coordinates(pred, coordinates_of(obs)) {
        2
    } else {
        0
    }
}

/// The order of a value is the coordinate order of its constraint.
pub open spec fn sorted_by_constraint<O: ConstraintBound + SortKey>() -> bool {
    forall|a: O, b: O| #[trigger] a.key_lt(b) == constraint_lt(a.bound_constraint(), b.bound_constraint())
}

pub proof fn lemma_coordinate_collision<O: ConstraintBound + SortKey>(s: Seq<O>)
    requires
        sorted_by_constraint::<O>(),
    ensures
        has_key_collision(s) <==> repeated_coordinate(coordinates_of(s)),
{
    let v = coordinates_of(s);
    if has_key_collision(s) {
        let (i, j) = choose|i: int, j: int| 0 <= i < j < s.len() && same_key(#[trigger] s[i], #[trigger] s[j]);
        assert(v[i] == s[i].bound_constraint() && v[j] == s[j].bound_constraint());
        assert(s[i].key_lt(s[j]) == constraint_lt(s[i].bound_constraint(), s[j].bound_constraint()));
        assert(s[j].key_lt(s[i]) == constraint_lt(s[j].bound_constraint(), s[i].bound_constraint()));
        if v[i] != v[j] {
            lemma_coordinate_lt_total(constraint_key(v[i]), constraint_key(v[j]));
        }
    }
    if repeated_coordinate(v) {
        let (i, j) = choose|i: int, j: int| 0 <= i < j < v.len() && #[trigger] v[i] == #[trigger] v[j];
        lemma_coordinate_lt_irreflexive(constraint_key(v[i]));
        assert(s[i].key_lt(s[j]) == constraint_lt(s[i].bound_constraint(), s[j].bound_constraint()));
        assert(s[j].key_lt(s[i]) == constraint_lt(s[j].bound_constraint(), s[i].bound_constraint()));
        assert(same_key(s[i], s[j]));
    }
}

proof fn lemma_same_coordinates_transfer<O: ConstraintBound>(pred: Seq<ConstraintCoordinateView>, a: Seq<O>, b: Seq<O>)
    requires
        same_elements(a, b),
        same_coordinates(pred, coordinates_of(a)),
    ensures
        same_coordinates(pred, coordinates_of(b)),
{
    let va = coordinates_of(a);
    let vb = coordinates_of(b);
    assert forall|i: int| 0 <= i < vb.len() implies pred.contains(#[trigger] vb[i]) by {
        assert(a.contains(b[i]));
        let j = choose|j: int| 0 <= j < a.len() && a[j] == b[i];
        assert(va[j] == vb[i]);
    }
    assert forall|k: int| 0 <= k < pred.len() implies vb.contains(#[trigger] pred[k]) by {
        assert(va.contains(pred[k]));
        let j = choose|j: int| 0 <= j < va.len() && va[j] == pred[k];
        assert(b.contains(a[j]));
        let m = choose|m: int| 0 <= m < b.len() && b[m] == a[j];
        assert(vb[m] == pred[k]);
    }
}

fn has_coordinate<A: ConstraintBound>(s: &[A], c: &IndexExclusionConstraintCoordinate) -> (r: bool)
    ensures
        r == coordinates_of(s@).contains(c@),
{
    let ghost v = coordinates_of(s@);
    let mut k: usize = 0;
    while k < s.len()
        invariant
            k <= s@.len(),
            v == coordinates_of(s@),
            forall|x: int| 0 <= x < k ==> v[x] != c@,
        decreases s@.len() - k,
    {
        assert(v[k as int] == s@[k as int].bound_constraint());
        if s[k].constraint_coordinate().same_as(c) {
            assert(v[k as int] == c@);
            return true;
        }
        k = k + 1;
    }
    false
}

fn coordinates_match<P: ConstraintBound, O: ConstraintBound>(pred: &[P], obs: &[O]) -> (r: bool)
    ensures
        r == same_coordinates(coordinates_of(pred@), coordinates_of(obs@)),
{
    let ghost pv = coordinates_of(pred@);
    let ghost ov = coordinates_of(obs@);
    let mut i: usize = 0;
    while i < obs.len()
        invariant
            i <= obs@.len(),
            pv == coordinates_of(pred@),
            ov == coordinates_of(obs@),
            forall|x: int| 0 <= x < i ==> pv.contains(#[trigger] ov[x]),
        decreases obs@.len() - i,
    {
        assert(ov[i as int] == obs@[i as int].bound_constraint());
        if !has_coordinate(pred, obs[i].constraint_coordinate()) {
            return false;
        }
        i = i + 1;
    }
    let mut k: usize = 0;
    while k < pred.len()
        invariant
            k <= pred@.len(),
            pv == coordinates_of(pred@),
            ov == coordinates_of(obs@),
            forall|x: int| 0 <= x < obs@.len() ==> pv.contains(#[trigger] ov[x]),
            forall|x: int| 0 <= x < k ==> ov.contains(#[trigger] pv[x]),
        decreases pred@.len() - k,
    {
        assert(pv[k as int] == pred@[k as int].bound_constraint());
        if !has_coordinate(obs, pred[k].constraint_coordinate()) {
            return false;
        }
        k = k + 1;
    }
    true
}

fn has_repeated_coordinate<O: ConstraintBound>(obs: &[O]) -> (r: bool)
    ensures
        r == repeated_coordinate(coordinates_of(obs@)),
{
    let ghost v = coordinates_of(obs@);
    let mut j: usize = 0;
    while j < obs.len()
        invariant
            j <= obs@.len(),
            v == coordinates_of(obs@),
            forall|a: int, b: int| 0 <= a < b < j ==> #[trigger] v[a] != #[trigger] v[b],
        decreases obs@.len() - j,
    {
        let mut i: usize = 0;
        while i < j
            invariant
                i <= j < obs@.len(),
                v == coordinates_of(obs@),
                forall|a: int, b: int| 0 <= a < b < j ==> #[trigger] v[a] != #[trigger] v[b],
                forall|a: int| 0 <= a < i ==> #[trigger] v[a] != v[j as int],
            decreases j - i,
        {
            assert(v[i as int] == obs@[i as int].bound_constraint());
            assert(v[j as int] == obs@[j as int].bound_constraint());
            if obs[i].constraint_coordinate().same_as(obs[j].constraint_coordinate()) {
                assert(v[i as int] == v[j as int]);
                return true;
            }
            i = i + 1;
        }
        j = j + 1;
    }
    false
}

/// Whether `obs` holds exactly the constraint coordinates of `pred`, each once.
pub fn coordinates_match_once<P: ConstraintBound, O: ConstraintBound>(pred: &[P], obs: &[O]) -> (r: bool)
    ensures
        r == (coordinate_refusal_code(coordinates_of(pred@), obs@) == 0),
{
    !has_repeated_coordinate(obs) && coordinates_match(pred, obs)
}

/// Sorts per-constraint observations by coordinate and requires them to hold exactly the
/// predecessor's constraint coordinates, once each.
pub fn canonicalize_constraint_properties<P: ConstraintBound, O: ConstraintBound + SortKey>(
    pred: &[P],
    observations: Vec<O>,
    coordinate_field: &'static str,
    completeness_field: &'static str,
) -> (r: Result<Vec<O>, ObservationError>)
    requires
        sorted_by_constraint::<O>(),
    ensures
        ({
            let code = coordinate_refusal_code(coordinates_of(pred@), observations@);
            &&& r is Ok <==> code == 0
            &&& code == 1 ==> fails_with_text(r, coordinate_field@)
            &&& code == 2 ==> fails_with_text(r, completeness_field@)
        }),
        r matches Ok(v) ==> v@ == sorted_by_key(observations@) && strictly_sorted(v@) && same_elements(v@, observations@),
{
    let ghost input = observations@;
    proof {
        lemma_coordinate_collision(input);
    }
    let sorted = match sort_by_key(observations) {
        Some(v) => v,
        None => {
            return Err(invalid(coordinate_field));
        },
    };
    proof {
        crate::order::lemma_same_elements_symmetric(sorted@, input);
        if same_coordinates(coordinates_of(pred@), coordinates_of(input)) {
            lemma_same_coordinates_transfer(coordinates_of(pred@), input, sorted@);
        }
        if same_coordinates(coordinates_of(pred@), coordinates_of(sorted@)) {
            lemma_same_coordinates_transfer(coordinates_of(pred@), sorted@, input);
        }
    }
    if !coordinates_match(pred, sorted.as_slice()) {
        return Err(invalid(completeness_field));
    }
    Ok(sorted)
}

} // verus!

verus! {

/// Framing of a sequence of per-constraint observations, in order: each coordinate followed by
/// its property.
pub open spec fn frame_constraint_entries<O: ConstraintBound>(s: Seq<O>) -> Seq<u8>
    decreases s.len(),
{
    if s.len() == 0 {
        Seq::empty()
    } else {
        frame_constraint_entries(s.drop_last()) + (frame_constraint(s.last().bound_constraint())
            + s.last().constraint_property_frame())
    }
}

/// The preimage of a per-constraint digest: domain, predecessor digest, count and entries.
pub open spec fn constraint_property_preimage<O: ConstraintBound>(
    domain: Seq<char>,
    predecessor_digest: Seq<char>,
    s: Seq<O>,
) -> Seq<u8> {
    encode_utf8(domain) + frame_str(predecessor_digest) + frame_len(s.len()) + frame_constraint_entries(s)
}

/// Hashes per-constraint observations under `domain` after the predecessor digest.
pub fn compute_constraint_property_digest<O: ConstraintBound>(domain: &str, predecessor_digest: &str, observations: &[O]) -> (d:
    String)
    ensures
        d@ == digest_text(constraint_property_preimage(domain@, predecessor_digest@, observations@)),
{
    let mut out: Vec<u8> = Vec::new();
    put_raw(&mut out, domain.as_bytes());
    put_str(&mut out, predecessor_digest);
    put_len(&mut out, observations.len());
    let ghost header = out@;
    let mut i: usize = 0;
    while i < observations.len()
        invariant
            i <= observations@.len(),
            out@ == header + frame_constraint_entries(observations@.subrange(0, i as int)),
        decreases observations@.len() - i,
    {
        let ghost before = out@;
        let o = &observations[i];
        put_constraint(&mut out, o.constraint_coordinate());
        o.put_constraint_property(&mut out);
        proof {
            vstd::seq_lib::lemma_concat_associative(before, frame_constraint(o.bound_constraint()), o.constraint_property_frame());
            let next = observations@.subrange(0, i + 1);
            assert(next.drop_last() =~= observations@.subrange(0, i as int));
            assert(next.last() == observations@[i as int]);
            assert(out@ =~= header + frame_constraint_entries(next));
        }
        i = i + 1;
    }
    proof {
        assert(observations@.subrange(0, observations@.len() as int) =~= observations@);
    }
    finish_digest(&out)
}

/// The observation of the constraint at `c`, the first such one.
pub open spec fn observation_of_constraint<O: ConstraintBound>(s: Seq<O>, c: ConstraintCoordinateView) -> Option<O>
    decreases s.len(),
{
    if s.len() == 0 {
        None
    } else if s[0].bound_constraint() == c {
        Some(s[0])
    } else {
        observation_of_constraint(s.drop_first(), c)
    }
}

/// Finds the observation of the constraint at `c`.
pub fn find_constraint_observation<'a, O: ConstraintBound>(s: &'a [O], c: &IndexExclusionConstraintCoordinate) -> (r: Option<
    &'a O,
>)
    ensures
        match r {
            Some(o) => observation_of_constraint(s@, c@) == Some(*o),
            None => observation_of_constraint(s@, c@) is None,
        },
{
    let mut i: usize = 0;
    assert(s@.skip(0) =~= s@);
    while i < s.len()
        invariant
            i <= s@.len(),
            observation_of_constraint(s@, c@) == observation_of_constraint(s@.skip(i as int), c@),
        decreases s@.len() - i,
    {
        assert(s@.skip(i as int)[0] == s@[i as int]);
        assert(s@.skip(i as int).drop_first() =~= s@.skip(i + 1));
        if s[i].constraint_coordinate().same_as(c) {
            return Some(&s[i]);
        }
        i = i + 1;
    }
    None
}

} // verus!

verus! {

proof fn lemma_single_constraint_entry<O: ConstraintBound>(a: O)
    ensures
        frame_constraint_entries(seq![a]) == frame_constraint(a.bound_constraint()) + a.constraint_property_frame(),
{
    let sa = seq![a];
    assert(sa.drop_last() =~= Seq::<O>::empty());
    assert(sa.last() == a);
    assert(frame_constraint_entries(sa.drop_last()) == Seq::<u8>::empty());
    let x = frame_constraint(a.bound_constraint()) + a.constraint_property_frame();
    assert(Seq::<u8>::empty() + x =~= x);
}

/// Raw per-constraint properties are never normalized away: under one domain and one predecessor
/// digest, two single-observation layers for the same constraint whose properties frame
/// differently (in framings of one length) have different digest preimages.
pub proof fn lemma_constraint_properties_separate<O: ConstraintBound>(
    domain: Seq<char>,
    predecessor_digest: Seq<char>,
    a: O,
    b: O,
)
    requires
        a.bound_constraint() == b.bound_constraint(),
        a.constraint_property_frame().len() == b.constraint_property_frame().len(),
        a.constraint_property_frame() != b.constraint_property_frame(),
    ensures
        constraint_property_preimage(domain, predecessor_digest, seq![a]) != constraint_property_preimage(
            domain,
            predecessor_digest,
            seq![b],
        ),
{
    let head = encode_utf8(domain) + frame_str(predecessor_digest) + frame_len(1);
    let entry = frame_constraint(a.bound_constraint());
    lemma_single_constraint_entry(a);
    lemma_single_constraint_entry(b);
    vstd::seq_lib::lemma_concat_associative(head, entry, a.constraint_property_frame());
    vstd::seq_lib::lemma_concat_associative(head, entry, b.constraint_property_frame());
    crate::procedure_binding::lemma_suffixes_separate(head + entry, a.constraint_property_frame(), b.constraint_property_frame());
}

} // verus!

verus! {

/// Two sequences agree, value for value, on constraint and property framing.
pub open spec fn same_bound_values<O: ConstraintBound>(a: Seq<O>, b: Seq<O>) -> bool {
    &&& a.len() == b.len()
    &&& forall|i: int|
        0 <= i < a.len() ==> (#[trigger] a[i]).bound_constraint() == b[i].bound_constraint()
            && a[i].constraint_property_frame() == b[i].constraint_property_frame()
}

/// Sequences that agree value for value have the same coordinates and the same framing.
pub proof fn lemma_same_bound_values<O: ConstraintBound>(a: Seq<O>, b: Seq<O>)
    requires
        same_bound_values(a, b),
    ensures
        coordinates_of(a) == coordinates_of(b),
        frame_constraint_entries(a) == frame_constraint_entries(b),
    decreases a.len(),
{
    assert(coordinates_of(a) =~= coordinates_of(b)) by {
        assert forall|i: int| 0 <= i < a.len() implies coordinates_of(a)[i] == coordinates_of(b)[i] by {
            assert(a[i].bound_constraint() == b[i].bound_constraint());
        }
    }
    if a.len() > 0 {
        assert(same_bound_values(a.drop_last(), b.drop_last())) by {
            assert forall|i: int| 0 <= i < a.drop_last().len() implies (#[trigger] a.drop_last()[i]).bound_constraint()
                == b.drop_last()[i].bound_constraint() && a.drop_last()[i].constraint_property_frame()
                == b.drop_last()[i].constraint_property_frame() by {
                assert(a[i].bound_constraint() == b[i].bound_constraint());
            }
        }
        lemma_same_bound_values(a.drop_last(), b.drop_last());
        assert(a[a.len() - 1].bound_constraint() == b[a.len() - 1].bound_constraint());
    }
}

} // verus!
