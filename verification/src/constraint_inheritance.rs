//! Key-constraint inheritance state layered over key-constraint parentage.
//!
//! `pg_constraint.conparentid`, `conislocal` and `coninhcount` form one catalog invariant for
//! partition constraints: PostgreSQL makes a newly parented constraint non-local, raises its
//! inheritance count from zero to one and records the parent; detach reverses all three. This
//! layer keeps the two inheritance fields and requires them to agree with the issued parentage.

use vstd::prelude::*;

use crate::catalog::{lemma_coordinate_lt_irreflexive, lemma_coordinate_lt_total, lemma_coordinate_lt_transitive, ConstraintCoordinateView, LineageView};
use crate::constraint_parentage::{
    find_parentage, parentage_at, parentage_location, parentage_observed, parentage_views, put_parentage_coordinate,
    IndexConstraintParentageCoordinate, IndexConstraintParentageObservation, IndexConstraintParentageSnapshot,
    ParentageView,
};
use crate::digest::{digest_text, finish_digest, frame_bool, frame_i16, frame_len, frame_str, put_bool, put_i16, put_len, put_raw, put_str};
use crate::error::{fails_with, fails_with_text, invalid, ObservationError};
use crate::exclusion_constraint::{constraint_key, constraint_lt, frame_constraint};
use crate::order::{has_key_collision, same_key, sort_by_key, sorted_by_key, KeyOrder, SortKey};
use crate::text::push_text;
use vstd::utf8::encode_utf8;

verus! {

/// `{parentage location}/inheritance-state`.
pub open spec fn inheritance_location(c: ConstraintCoordinateView) -> Seq<char> {
    parentage_location(c) + "/inheritance-state"@
}

fn render_inheritance_location(c: &IndexConstraintParentageCoordinate) -> (s: String)
    ensures
        s@ == inheritance_location(c@),
{
    let mut out = c.canonical_location();
    proof {
        reveal_strlit("/inheritance-state");
    }
    push_text(&mut out, "/inheritance-state");
    out
}

/// The value of one key-constraint inheritance-state observation.
pub struct InheritanceView {
    pub coordinate: ConstraintCoordinateView,
    pub is_local: bool,
    pub inheritance_count: i16,
}

/// Exact `pg_constraint.conislocal` and `coninhcount` observation for one key constraint.
#[derive(Debug, PartialEq, Eq)]
pub struct IndexConstraintInheritanceObservation {
    coordinate: IndexConstraintParentageCoordinate,
    is_local: bool,
    inheritance_count: i16,
}

impl View for IndexConstraintInheritanceObservation {
    type V = InheritanceView;

    closed spec fn view(&self) -> InheritanceView {
        InheritanceView {
            coordinate: self.coordinate@,
            is_local: self.is_local,
            inheritance_count: self.inheritance_count,
        }
    }
}

impl Clone for IndexConstraintInheritanceObservation {
    fn clone(&self) -> (c: Self)
        ensures
            c@ == self@,
    {
        IndexConstraintInheritanceObservation {
            coordinate: self.coordinate.clone(),
            is_local: self.is_local,
            inheritance_count: self.inheritance_count,
        }
    }
}

impl IndexConstraintInheritanceObservation {
    /// Records exact PostgreSQL key-constraint inheritance state; the count must not be negative.
    pub fn new(coordinate: IndexConstraintParentageCoordinate, is_local: bool, inheritance_count: i16) -> (r: Result<
        Self,
        ObservationError,
    >)
        ensures
            r is Ok <==> inheritance_count >= 0,
            inheritance_count < 0 ==> fails_with(r, "index_constraint_inheritance_count"),
            r matches Ok(o) ==> o@ == (InheritanceView { coordinate: coordinate@, is_local, inheritance_count }),
    {
        if inheritance_count < 0 {
            return Err(invalid("index_constraint_inheritance_count"));
        }
        Ok(IndexConstraintInheritanceObservation { coordinate, is_local, inheritance_count })
    }

    /// Returns the exact key-constraint coordinate.
    pub fn coordinate(&self) -> (c: &IndexConstraintParentageCoordinate)
        ensures
            c@ == self@.coordinate,
    {
        &self.coordinate
    }

    /// Returns observed `pg_constraint.conislocal`.
    pub fn is_local(&self) -> (b: bool)
        ensures
            b == self@.is_local,
    {
        self.is_local
    }

    /// Returns observed `pg_constraint.coninhcount`.
    pub fn inheritance_count(&self) -> (n: i16)
        ensures
            n == self@.inheritance_count,
    {
        self.inheritance_count
    }

    /// Returns a collision-safe evidence location distinct from the parentage location.
    pub fn canonical_location(&self) -> (s: String)
        ensures
            s@ == inheritance_location(self@.coordinate),
    {
        render_inheritance_location(&self.coordinate)
    }
}

impl SortKey for IndexConstraintInheritanceObservation {
    open spec fn key_lt(self, other: Self) -> bool {
        constraint_lt(self@.coordinate, other@.coordinate)
    }

    proof fn lemma_key_lt_transitive(a: Self, b: Self, c: Self) {
        lemma_coordinate_lt_transitive(constraint_key(a@.coordinate), constraint_key(b@.coordinate), constraint_key(c@.coordinate));
    }

    proof fn lemma_key_lt_irreflexive(a: Self) {
        lemma_coordinate_lt_irreflexive(constraint_key(a@.coordinate));
    }

    fn compare_key(&self, other: &Self) -> (o: KeyOrder) {
        proof {
            lemma_coordinate_lt_irreflexive(constraint_key(self@.coordinate));
        }
        self.coordinate.compare(&other.coordinate)
    }
}

/// Immutable provenance receipt for one exact key-constraint inheritance-state observation.
#[derive(Debug, PartialEq, Eq)]
pub struct IndexConstraintInheritanceSourceReceipt {
    source_id: String,
    connection_policy_binding: String,
    source_digest: String,
    extractor_revision: String,
    observed_at_utc: String,
    location: IndexConstraintInheritanceObservation,
}

impl IndexConstraintInheritanceSourceReceipt {
    /// The provenance carried by this receipt.
    pub closed spec fn lineage(&self) -> LineageView {
        LineageView {
            source_connection_key: self.source_id@,
            connection_policy_binding: self.connection_policy_binding@,
            snapshot_digest: self.source_digest@,
            extractor_revision: self.extractor_revision@,
            observed_at_utc: self.observed_at_utc@,
        }
    }

    /// The observation covered by this receipt.
    pub closed spec fn location_view(&self) -> InheritanceView {
        self.location@
    }

    /// Returns the stable source registry key, never credential material.
    pub fn source_id(&self) -> (s: &str)
        ensures
            s@ == self.lineage().source_connection_key,
    {
        self.source_id.as_str()
    }

    /// Returns the immutable source-policy binding.
    pub fn connection_policy_binding(&self) -> (s: &str)
        ensures
            s@ == self.lineage().connection_policy_binding,
    {
        self.connection_policy_binding.as_str()
    }

    /// Returns the owner-computed inheritance-state successor digest.
    pub fn source_digest(&self) -> (s: &str)
        ensures
            s@ == self.lineage().snapshot_digest,
    {
        self.source_digest.as_str()
    }

    /// Returns the exact extractor revision inherited from the predecessor stack.
    pub fn extractor_revision(&self) -> (s: &str)
        ensures
            s@ == self.lineage().extractor_revision,
    {
        self.extractor_revision.as_str()
    }

    /// Returns the exact canonical observation time inherited from the predecessor stack.
    pub fn observed_at_utc(&self) -> (s: &str)
        ensures
            s@ == self.lineage().observed_at_utc,
    {
        self.observed_at_utc.as_str()
    }

    /// Returns the exact constraint inheritance-state observation.
    pub fn location(&self) -> (o: &IndexConstraintInheritanceObservation)
        ensures
            o@ == self.location_view(),
    {
        &self.location
    }
}

} // verus!

verus! {

/// The inheritance values of a sequence of observations.
pub open spec fn inheritance_views(s: Seq<IndexConstraintInheritanceObservation>) -> Seq<InheritanceView> {
    s.map_values(|o: IndexConstraintInheritanceObservation| o@)
}

/// Two different observations share a coordinate.
pub open spec fn repeated_inheritance(obs: Seq<InheritanceView>) -> bool {
    exists|i: int, j: int| 0 <= i < j < obs.len() && (#[trigger] obs[i]).coordinate == (#[trigger] obs[j]).coordinate
}

/// Some inheritance observation is at `c`.
pub open spec fn inheritance_observed(obs: Seq<InheritanceView>, c: ConstraintCoordinateView) -> bool {
    exists|i: int| 0 <= i < obs.len() && (#[trigger] obs[i]).coordinate == c
}

/// The inheritance observations cover exactly the parentage coordinates.
pub open spec fn same_parentage_coordinates(pred: Seq<ParentageView>, obs: Seq<InheritanceView>) -> bool {
    &&& forall|i: int| 0 <= i < obs.len() ==> parentage_observed(pred, (#[trigger] obs[i]).coordinate)
    &&& forall|k: int| 0 <= k < pred.len() ==> inheritance_observed(obs, (#[trigger] pred[k]).coordinate)
}

/// The state owed by a constraint: non-local and inherited once with a parent, local and not
/// inherited without one.
pub open spec fn state_owed(o: InheritanceView, has_parent: bool) -> bool {
    if has_parent {
        !o.is_local && o.inheritance_count == 1
    } else {
        o.is_local && o.inheritance_count == 0
    }
}

/// The observation disagrees with the parentage recorded at its coordinate.
pub open spec fn state_disagrees(pred: Seq<ParentageView>, o: InheritanceView) -> bool {
    match parentage_at(pred, o.coordinate) {
        Some(p) => !state_owed(o, p.parent_constraint is Some),
        None => false,
    }
}

/// The field reported when inheritance observations are refused, or `None` when they are
/// accepted: a repeated coordinate, coordinates other than the parentage's, then a state that
/// disagrees with the recorded parentage.
pub open spec fn inheritance_error(pred: Seq<ParentageView>, obs: Seq<IndexConstraintInheritanceObservation>) -> Option<Seq<char>> {
    let sorted = inheritance_views(sorted_by_key(obs));
    if repeated_inheritance(inheritance_views(obs)) {
        Some("index_constraint_inheritance_coordinate"@)
    } else if !same_parentage_coordinates(pred, sorted) {
        Some("index_constraint_inheritance_completeness"@)
    } else if exists|i: int| 0 <= i < sorted.len() && state_disagrees(pred, #[trigger] sorted[i]) {
        Some("index_constraint_inheritance_state"@)
    } else {
        None
    }
}

proof fn lemma_inheritance_collision(s: Seq<IndexConstraintInheritanceObservation>)
    ensures
        has_key_collision(s) <==> repeated_inheritance(inheritance_views(s)),
{
    let v = inheritance_views(s);
    if has_key_collision(s) {
        let (i, j) = choose|i: int, j: int| 0 <= i < j < s.len() && same_key(#[trigger] s[i], #[trigger] s[j]);
        assert(v[i] == s[i]@ && v[j] == s[j]@);
        if v[i].coordinate != v[j].coordinate {
            lemma_coordinate_lt_total(constraint_key(v[i].coordinate), constraint_key(v[j].coordinate));
        }
    }
    if repeated_inheritance(v) {
        let (i, j) = choose|i: int, j: int| 0 <= i < j < v.len() && (#[trigger] v[i]).coordinate == (#[trigger] v[j]).coordinate;
        lemma_coordinate_lt_irreflexive(constraint_key(v[i].coordinate));
        assert(same_key(s[i], s[j]));
    }
}

proof fn lemma_parentage_found(pred: Seq<ParentageView>, c: ConstraintCoordinateView)
    requires
        parentage_observed(pred, c),
    ensures
        parentage_at(pred, c) is Some,
    decreases pred.len(),
{
    if pred[0].coordinate != c {
        let k = choose|k: int| 0 <= k < pred.len() && (#[trigger] pred[k]).coordinate == c;
        assert(pred.drop_first()[k - 1] == pred[k]);
        lemma_parentage_found(pred.drop_first(), c);
    }
}

fn has_parentage_at(pred: &[IndexConstraintParentageObservation], c: &IndexConstraintParentageCoordinate) -> (b: bool)
    ensures
        b == parentage_observed(parentage_views(pred@), c@),
{
    let ghost pv = parentage_views(pred@);
    let mut k: usize = 0;
    while k < pred.len()
        invariant
            k <= pred@.len(),
            pv == parentage_views(pred@),
            forall|x: int| 0 <= x < k ==> (#[trigger] pv[x]).coordinate != c@,
        decreases pred@.len() - k,
    {
        assert(pv[k as int] == pred@[k as int]@);
        if pred[k].coordinate().same_as(c) {
            return true;
        }
        k = k + 1;
    }
    false
}

fn has_inheritance_at(obs: &[IndexConstraintInheritanceObservation], c: &IndexConstraintParentageCoordinate) -> (b: bool)
    ensures
        b == inheritance_observed(inheritance_views(obs@), c@),
{
    let ghost ov = inheritance_views(obs@);
    let mut k: usize = 0;
    while k < obs.len()
        invariant
            k <= obs@.len(),
            ov == inheritance_views(obs@),
            forall|x: int| 0 <= x < k ==> (#[trigger] ov[x]).coordinate != c@,
        decreases obs@.len() - k,
    {
        assert(ov[k as int] == obs@[k as int]@);
        if obs[k].coordinate().same_as(c) {
            return true;
        }
        k = k + 1;
    }
    false
}

fn inheritance_coordinates_match(pred: &[IndexConstraintParentageObservation], obs: &[IndexConstraintInheritanceObservation]) -> (b:
    bool)
    ensures
        b == same_parentage_coordinates(parentage_views(pred@), inheritance_views(obs@)),
{
    let ghost pv = parentage_views(pred@);
    let ghost ov = inheritance_views(obs@);
    let mut i: usize = 0;
    while i < obs.len()
        invariant
            i <= obs@.len(),
            pv == parentage_views(pred@),
            ov == inheritance_views(obs@),
            forall|x: int| 0 <= x < i ==> parentage_observed(pv, (#[trigger] ov[x]).coordinate),
        decreases obs@.len() - i,
    {
        assert(ov[i as int] == obs@[i as int]@);
        if !has_parentage_at(pred, obs[i].coordinate()) {
            return false;
        }
        i = i + 1;
    }
    let mut k: usize = 0;
    while k < pred.len()
        invariant
            k <= pred@.len(),
            pv == parentage_views(pred@),
            ov == inheritance_views(obs@),
            forall|x: int| 0 <= x < obs@.len() ==> parentage_observed(pv, (#[trigger] ov[x]).coordinate),
            forall|x: int| 0 <= x < k ==> inheritance_observed(ov, (#[trigger] pv[x]).coordinate),
        decreases pred@.len() - k,
    {
        assert(pv[k as int] == pred@[k as int]@);
        if !has_inheritance_at(obs, pred[k].coordinate()) {
            return false;
        }
        k = k + 1;
    }
    true
}

fn states_agree(pred: &[IndexConstraintParentageObservation], obs: &[IndexConstraintInheritanceObservation]) -> (b: bool)
    requires
        same_parentage_coordinates(parentage_views(pred@), inheritance_views(obs@)),
    ensures
        b == !(exists|i: int|
            0 <= i < obs@.len() && state_disagrees(parentage_views(pred@), #[trigger] inheritance_views(obs@)[i])),
{
    let ghost pv = parentage_views(pred@);
    let ghost ov = inheritance_views(obs@);
    let mut i: usize = 0;
    while i < obs.len()
        invariant
            i <= obs@.len(),
            pv == parentage_views(pred@),
            ov == inheritance_views(obs@),
            same_parentage_coordinates(pv, ov),
            forall|x: int| 0 <= x < i ==> !state_disagrees(pv, #[trigger] ov[x]),
        decreases obs@.len() - i,
    {
        assert(ov[i as int] == obs@[i as int]@);
        let o = &obs[i];
        match find_parentage(pred, o.coordinate()) {
            None => {
                proof {
                    lemma_parentage_found(pv, ov[i as int].coordinate);
                }
                assert(false);
            },
            Some(p) => {
                let has_parent = p.parent_constraint().is_some();
                let owed = if has_parent {
                    !o.is_local() && o.inheritance_count() == 1
                } else {
                    o.is_local() && o.inheritance_count() == 0
                };
                if !owed {
                    assert(state_disagrees(pv, ov[i as int]));
                    return false;
                }
            },
        }
        i = i + 1;
    }
    true
}

/// Domain separator of the inheritance-state digest.
pub const CONSTRAINT_INHERITANCE_DIGEST_DOMAIN: &'static str =
    "conceptweave.postgres_schema_snapshot.v3.relation_partition.index_partition.constraint_parentage.inheritance_state.v1";

/// Framing of one inheritance observation: coordinate, local flag and inheritance count.
pub open spec fn frame_inheritance(o: InheritanceView) -> Seq<u8> {
    frame_constraint(o.coordinate) + frame_bool(o.is_local) + frame_i16(o.inheritance_count)
}

/// Framing of a sequence of inheritance observations, in order.
pub open spec fn frame_inheritances(s: Seq<InheritanceView>) -> Seq<u8>
    decreases s.len(),
{
    if s.len() == 0 {
        Seq::empty()
    } else {
        frame_inheritances(s.drop_last()) + frame_inheritance(s.last())
    }
}

/// The preimage of the inheritance-state digest.
pub open spec fn inheritance_preimage(predecessor_digest: Seq<char>, s: Seq<InheritanceView>) -> Seq<u8> {
    encode_utf8(CONSTRAINT_INHERITANCE_DIGEST_DOMAIN@) + frame_str(predecessor_digest) + frame_len(s.len()) + frame_inheritances(s)
}

fn compute_inheritance_digest(predecessor_digest: &str, observations: &[IndexConstraintInheritanceObservation]) -> (d: String)
    ensures
        d@ == digest_text(inheritance_preimage(predecessor_digest@, inheritance_views(observations@))),
{
    let ghost views = inheritance_views(observations@);
    let mut out: Vec<u8> = Vec::new();
    put_raw(&mut out, CONSTRAINT_INHERITANCE_DIGEST_DOMAIN.as_bytes());
    put_str(&mut out, predecessor_digest);
    put_len(&mut out, observations.len());
    let ghost header = out@;
    let mut i: usize = 0;
    while i < observations.len()
        invariant
            i <= observations@.len(),
            views == inheritance_views(observations@),
            out@ == header + frame_inheritances(views.subrange(0, i as int)),
        decreases observations@.len() - i,
    {
        let o = &observations[i];
        let ghost before = out@;
        put_parentage_coordinate(&mut out, o.coordinate());
        put_bool(&mut out, o.is_local());
        put_i16(&mut out, o.inheritance_count());
        proof {
            assert(out@ =~= before + frame_inheritance(o@));
            let next = views.subrange(0, i + 1);
            assert(next.drop_last() =~= views.subrange(0, i as int));
            assert(next.last() == observations@[i as int]@);
            assert(out@ =~= header + frame_inheritances(next));
        }
        i = i + 1;
    }
    proof {
        assert(views.subrange(0, observations@.len() as int) =~= views);
    }
    finish_digest(&out)
}

/// The observation at `c` (the first such observation).
pub open spec fn inheritance_at(obs: Seq<InheritanceView>, c: ConstraintCoordinateView) -> Option<InheritanceView>
    decreases obs.len(),
{
    if obs.len() == 0 {
        None
    } else if obs[0].coordinate == c {
        Some(obs[0])
    } else {
        inheritance_at(obs.drop_first(), c)
    }
}

fn find_inheritance<'a>(obs: &'a [IndexConstraintInheritanceObservation], c: &IndexConstraintParentageCoordinate) -> (r: Option<
    &'a IndexConstraintInheritanceObservation,
>)
    ensures
        match r {
            Some(o) => inheritance_at(inheritance_views(obs@), c@) == Some(o@),
            None => inheritance_at(inheritance_views(obs@), c@) is None,
        },
{
    let ghost views = inheritance_views(obs@);
    let mut i: usize = 0;
    assert(views.skip(0) =~= views);
    while i < obs.len()
        invariant
            i <= obs@.len(),
            views == inheritance_views(obs@),
            inheritance_at(views, c@) == inheritance_at(views.skip(i as int), c@),
        decreases obs@.len() - i,
    {
        assert(views.skip(i as int)[0] == obs@[i as int]@);
        assert(views.skip(i as int).drop_first() =~= views.skip(i + 1));
        if obs[i].coordinate().same_as(c) {
            return Some(&obs[i]);
        }
        i = i + 1;
    }
    None
}

/// Complete key-constraint inheritance state over one exact parentage snapshot.
///
/// A constraint with a resolved partition parent is non-local with exactly one inheritance
/// parent; one without `conparentid` stays local with none. This follows PostgreSQL's
/// partition-constraint attach and detach and infers nothing beyond the PRIMARY KEY / UNIQUE
/// parentage family.
#[derive(Debug, PartialEq, Eq)]
pub struct IndexConstraintInheritanceSnapshot {
    source_connection_key: String,
    connection_policy_binding: String,
    snapshot_digest: String,
    extractor_revision: String,
    observed_at_utc: String,
    observations: Vec<IndexConstraintInheritanceObservation>,
}

impl IndexConstraintInheritanceSnapshot {
    /// The provenance of this snapshot, with its own digest.
    pub closed spec fn lineage(&self) -> LineageView {
        LineageView {
            source_connection_key: self.source_connection_key@,
            connection_policy_binding: self.connection_policy_binding@,
            snapshot_digest: self.snapshot_digest@,
            extractor_revision: self.extractor_revision@,
            observed_at_utc: self.observed_at_utc@,
        }
    }

    /// The observations, in coordinate order.
    pub closed spec fn observation_views(&self) -> Seq<InheritanceView> {
        inheritance_views(self.observations@)
    }

    /// Creates complete inheritance-state evidence over an exact key-constraint parentage
    /// snapshot.
    pub fn new(
        parentage_snapshot: &IndexConstraintParentageSnapshot,
        observations: Vec<IndexConstraintInheritanceObservation>,
    ) -> (r: Result<Self, ObservationError>)
        ensures
            r is Ok <==> inheritance_error(parentage_snapshot.observation_views(), observations@) is None,
            r is Err ==> fails_with_text(r, inheritance_error(parentage_snapshot.observation_views(), observations@)->0),
            r matches Ok(s) ==> {
                &&& s.observation_views() == inheritance_views(sorted_by_key(observations@))
                &&& s.lineage() == (LineageView {
                    snapshot_digest: digest_text(
                        inheritance_preimage(parentage_snapshot.lineage().snapshot_digest, s.observation_views()),
                    ),
                    ..parentage_snapshot.lineage()
                })
            },
    {
        proof {
            lemma_inheritance_collision(observations@);
        }
        let observations = match sort_by_key(observations) {
            Some(v) => v,
            None => {
                return Err(invalid("index_constraint_inheritance_coordinate"));
            },
        };
        let pred = parentage_snapshot.observations();
        if !inheritance_coordinates_match(pred, observations.as_slice()) {
            return Err(invalid("index_constraint_inheritance_completeness"));
        }
        if !states_agree(pred, observations.as_slice()) {
            return Err(invalid("index_constraint_inheritance_state"));
        }
        let snapshot_digest = compute_inheritance_digest(parentage_snapshot.snapshot_digest(), observations.as_slice());
        Ok(IndexConstraintInheritanceSnapshot {
            source_connection_key: parentage_snapshot.source_connection_key().to_owned(),
            connection_policy_binding: parentage_snapshot.connection_policy_binding().to_owned(),
            snapshot_digest,
            extractor_revision: parentage_snapshot.extractor_revision().to_owned(),
            observed_at_utc: parentage_snapshot.observed_at_utc().to_owned(),
            observations,
        })
    }

    /// Returns the stable source registry key.
    pub fn source_connection_key(&self) -> (s: &str)
        ensures
            s@ == self.lineage().source_connection_key,
    {
        self.source_connection_key.as_str()
    }

    /// Returns the immutable source-policy binding.
    pub fn connection_policy_binding(&self) -> (s: &str)
        ensures
            s@ == self.lineage().connection_policy_binding,
    {
        self.connection_policy_binding.as_str()
    }

    /// Returns the owner-computed domain-separated digest.
    pub fn snapshot_digest(&self) -> (s: &str)
        ensures
            s@ == self.lineage().snapshot_digest,
    {
        self.snapshot_digest.as_str()
    }

    /// Returns the exact extractor revision inherited from the predecessor stack.
    pub fn extractor_revision(&self) -> (s: &str)
        ensures
            s@ == self.lineage().extractor_revision,
    {
        self.extractor_revision.as_str()
    }

    /// Returns the exact canonical observation time inherited from the predecessor stack.
    pub fn observed_at_utc(&self) -> (s: &str)
        ensures
            s@ == self.lineage().observed_at_utc,
    {
        self.observed_at_utc.as_str()
    }

    /// Returns complete inheritance-state observations in coordinate order.
    pub fn observations(&self) -> (o: &[IndexConstraintInheritanceObservation])
        ensures
            inheritance_views(o@) == self.observation_views(),
    {
        self.observations.as_slice()
    }

    /// Issues exact provenance for one observed key-constraint inheritance state.
    pub fn source_receipt(&self, coordinate: IndexConstraintParentageCoordinate) -> (r: Result<
        IndexConstraintInheritanceSourceReceipt,
        ObservationError,
    >)
        ensures
            r is Ok <==> inheritance_at(self.observation_views(), coordinate@) is Some,
            r matches Ok(receipt) ==> receipt.lineage() == self.lineage() && Some(receipt.location_view())
                == inheritance_at(self.observation_views(), coordinate@),
            r matches Err(e) ==> e matches ObservationError::UnknownObservationLocation { location: l } && l@
                == inheritance_location(coordinate@),
    {
        let observation = match find_inheritance(self.observations.as_slice(), &coordinate) {
            Some(o) => o,
            None => {
                return Err(ObservationError::UnknownObservationLocation { location: render_inheritance_location(&coordinate) });
            },
        };
        Ok(IndexConstraintInheritanceSourceReceipt {
            source_id: self.source_connection_key.clone(),
            connection_policy_binding: self.connection_policy_binding.clone(),
            source_digest: self.snapshot_digest.clone(),
            extractor_revision: self.extractor_revision.clone(),
            observed_at_utc: self.observed_at_utc.clone(),
            location: observation.clone(),
        })
    }
}

} // verus!
