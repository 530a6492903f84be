//! Ordinary exclusion-constraint `conkey` evidence.
//!
//! PostgreSQL 18 stores the attribute numbers of an index-backed constraint's key attributes in
//! `pg_constraint.conkey`: a simple column key carries its attribute number and an expression key
//! carries zero; INCLUDE columns are left out. This layer keeps the raw vector and checks it
//! against the backing index's key attributes resolved on the constraint's relation.

use vstd::prelude::*;

use crate::catalog::{
    lemma_coordinate_lt_irreflexive, BaseColumn, BaseColumnView, BaseIndex, BaseRelation, BaseRelationView,
    ConstraintCoordinateView, IssuedSnapshot, LineageView,
};
use crate::constraint_property::{
    canonicalize_constraint_properties, compute_constraint_property_digest, constraint_property_location,
    constraint_property_preimage, coordinate_refusal_code, coordinates_of, find_constraint_observation,
    observation_of_constraint, render_constraint_property_location, sorted_by_constraint, ConstraintBound,
    ConstraintPropertyView,
};
use crate::digest::{digest_text, frame_i16, frame_len, put_i16, put_len};
use crate::error::{fails_with, fails_with_text, invalid, ObservationError};
use crate::exclusion::index_named;
use crate::exclusion_constraint::{
    constraint_at, constraint_key, constraint_lt, constraint_views, lookup_constraint, relation_of_constraint,
    ExclusionConstraintView, IndexExclusionConstraintCoordinate, IndexExclusionConstraintObservation,
    IndexExclusionConstraintSnapshot,
};
use crate::order::{sorted_by_key, strictly_sorted, text_eq, KeyOrder, SortKey};
use crate::relation_var_snapshot::column_named;

verus! {

/// Raw `pg_constraint.conkey` vector of one ordinary `EXCLUDE` constraint.
#[derive(Debug, PartialEq, Eq)]
pub struct IndexExclusionConstraintKeyObservation {
    coordinate: IndexExclusionConstraintCoordinate,
    attribute_numbers: Vec<i16>,
}

impl View for IndexExclusionConstraintKeyObservation {
    type V = ConstraintPropertyView<Seq<i16>>;

    closed spec fn view(&self) -> ConstraintPropertyView<Seq<i16>> {
        ConstraintPropertyView { coordinate: self.coordinate@, property: self.attribute_numbers@ }
    }
}

impl Clone for IndexExclusionConstraintKeyObservation {
    fn clone(&self) -> (c: Self)
        ensures
            c@ == self@,
    {
        IndexExclusionConstraintKeyObservation {
            coordinate: self.coordinate.clone(),
            attribute_numbers: self.attribute_numbers.clone(),
        }
    }
}

impl IndexExclusionConstraintKeyObservation {
    /// Records the ordered `int2[]` stored in `pg_constraint.conkey`; it is never empty.
    pub fn new(coordinate: IndexExclusionConstraintCoordinate, attribute_numbers: Vec<i16>) -> (r: Result<
        Self,
        ObservationError,
    >)
        ensures
            r is Ok <==> attribute_numbers@.len() > 0,
            r is Err ==> fails_with(r, "index_exclusion_constraint_key_state"),
            r matches Ok(o) ==> o@ == (ConstraintPropertyView { coordinate: coordinate@, property: attribute_numbers@ }),
    {
        if attribute_numbers.len() == 0 {
            return Err(invalid("index_exclusion_constraint_key_state"));
        }
        Ok(IndexExclusionConstraintKeyObservation { coordinate, attribute_numbers })
    }

    /// Returns the exact exclusion-constraint coordinate.
    pub fn coordinate(&self) -> (c: &IndexExclusionConstraintCoordinate)
        ensures
            c@ == self@.coordinate,
    {
        &self.coordinate
    }

    /// Returns the ordered raw `conkey` vector.
    pub fn attribute_numbers(&self) -> (a: &[i16])
        ensures
            a@ == self@.property,
    {
        self.attribute_numbers.as_slice()
    }

    /// Returns the collision-safe location of this key observation.
    pub fn canonical_location(&self) -> (s: String)
        ensures
            s@ == constraint_property_location(self@.coordinate, "key-attributes"@),
    {
        render_constraint_property_location(&self.coordinate, "key-attributes")
    }
}

/// The numbers of a `conkey` vector, each as two big-endian bytes.
pub open spec fn frame_key_numbers(a: Seq<i16>) -> Seq<u8>
    decreases a.len(),
{
    if a.len() == 0 {
        Seq::empty()
    } else {
        frame_key_numbers(a.drop_last()) + frame_i16(a.last())
    }
}

/// Framing of a `conkey` vector: its length, then its numbers.
pub open spec fn frame_key(a: Seq<i16>) -> Seq<u8> {
    frame_len(a.len()) + frame_key_numbers(a)
}

fn put_key(out: &mut Vec<u8>, a: &[i16])
    ensures
        final(out)@ == old(out)@ + frame_key(a@),
{
    let ghost s0 = out@;
    put_len(out, a.len());
    let ghost header = out@;
    let mut i: usize = 0;
    while i < a.len()
        invariant
            i <= a@.len(),
            header == s0 + frame_len(a@.len()),
            out@ == header + frame_key_numbers(a@.subrange(0, i as int)),
        decreases a@.len() - i,
    {
        put_i16(out, a[i]);
        proof {
            let next = a@.subrange(0, i + 1);
            assert(next.drop_last() =~= a@.subrange(0, i as int));
            assert(next.last() == a@[i as int]);
            assert(out@ =~= header + frame_key_numbers(next));
        }
        i = i + 1;
    }
    assert(a@.subrange(0, a@.len() as int) =~= a@);
    assert(final(out)@ =~= s0 + frame_key(a@));
}

impl ConstraintBound for IndexExclusionConstraintKeyObservation {
    open spec fn bound_constraint(&self) -> ConstraintCoordinateView {
        self@.coordinate
    }

    open spec fn constraint_property_frame(&self) -> Seq<u8> {
        frame_key(self@.property)
    }

    fn constraint_coordinate(&self) -> (c: &IndexExclusionConstraintCoordinate) {
        &self.coordinate
    }

    fn put_constraint_property(&self, out: &mut Vec<u8>) {
        put_key(out, self.attribute_numbers.as_slice());
    }
}

impl SortKey for IndexExclusionConstraintKeyObservation {
    open spec fn key_lt(self, other: Self) -> bool {
        constraint_lt(self@.coordinate, other@.coordinate)
    }

    proof fn lemma_key_lt_transitive(a: Self, b: Self, c: Self) {
        crate::catalog::lemma_coordinate_lt_transitive(
            constraint_key(a@.coordinate),
            constraint_key(b@.coordinate),
            constraint_key(c@.coordinate),
        );
    }

    proof fn lemma_key_lt_irreflexive(a: Self) {
        lemma_coordinate_lt_irreflexive(constraint_key(a@.coordinate));
    }

    fn compare_key(&self, other: &Self) -> (o: KeyOrder) {
        proof {
            lemma_coordinate_lt_irreflexive(constraint_key(self@.coordinate));
        }
        self.coordinate.compare(&other.coordinate)
    }
}

/// How one key attribute fails to resolve, or 0: 1 no column of that name (or no captured
/// attribute number), 2 an attribute number beyond `int2`.
pub open spec fn attribute_code(cols: Seq<BaseColumnView>, a: Option<Seq<char>>) -> int {
    match a {
        None => 0,
        Some(name) => match column_named(cols, name) {
            None => 1,
            Some(c) => match c.ordinal_position {
                None => 1,
                Some(p) => if p > 0x7fff {
                    2
                } else {
                    0
                },
            },
        },
    }
}

/// The `conkey` number of one resolved key attribute: zero for an expression.
pub open spec fn attribute_number(cols: Seq<BaseColumnView>, a: Option<Seq<char>>) -> i16 {
    match a {
        None => 0,
        Some(name) => (column_named(cols, name)->0.ordinal_position->0) as i16,
    }
}

/// The first non-zero attribute code over the key attributes, in key order.
pub open spec fn first_attribute_code(cols: Seq<BaseColumnView>, attrs: Seq<Option<Seq<char>>>) -> int
    decreases attrs.len(),
{
    if attrs.len() == 0 {
        0
    } else if attribute_code(cols, attrs[0]) != 0 {
        attribute_code(cols, attrs[0])
    } else {
        first_attribute_code(cols, attrs.drop_first())
    }
}

/// The expected `conkey` of an index's key attributes.
pub open spec fn expected_key(cols: Seq<BaseColumnView>, attrs: Seq<Option<Seq<char>>>) -> Seq<i16> {
    attrs.map_values(|a: Option<Seq<char>>| attribute_number(cols, a))
}

/// How one key observation fails, or 0: 1 no such constraint, 2 no relation of the constraint,
/// 3 no backing index on it, 4 an unresolvable key attribute, 5 an attribute number beyond
/// `int2`, 6 a vector other than the expected one.
pub open spec fn key_code(
    rels: Seq<BaseRelationView>,
    cons: Seq<ExclusionConstraintView>,
    o: ConstraintPropertyView<Seq<i16>>,
) -> int {
    match constraint_at(cons, o.coordinate) {
        None => 1,
        Some(c) => match relation_of_constraint(rels, c.coordinate) {
            None => 2,
            Some(r) => match index_named(r.indexes, c.backing_index.index_name) {
                None => 3,
                Some(i) => if first_attribute_code(r.columns, i.key_attributes) == 1 {
                    4
                } else if first_attribute_code(r.columns, i.key_attributes) == 2 {
                    5
                } else if o.property != expected_key(r.columns, i.key_attributes) {
                    6
                } else {
                    0
                },
            },
        },
    }
}

/// The first non-zero key code over the observations, in order.
pub open spec fn first_key_code(
    rels: Seq<BaseRelationView>,
    cons: Seq<ExclusionConstraintView>,
    s: Seq<ConstraintPropertyView<Seq<i16>>>,
) -> int
    decreases s.len(),
{
    if s.len() == 0 {
        0
    } else if key_code(rels, cons, s[0]) != 0 {
        key_code(rels, cons, s[0])
    } else {
        first_key_code(rels, cons, s.drop_first())
    }
}

/// The field reported for a non-zero key code.
pub open spec fn key_field(code: int) -> Seq<char> {
    if code == 1 {
        "index_exclusion_constraint_key_completeness"@
    } else if code == 2 {
        "index_exclusion_constraint_key_relation"@
    } else if code == 3 {
        "index_exclusion_constraint_key_backing_index"@
    } else if code == 4 {
        "index_exclusion_constraint_key_attribute"@
    } else if code == 5 {
        "index_exclusion_constraint_key_attribute_number"@
    } else {
        "index_exclusion_constraint_key_state"@
    }
}

proof fn lemma_first_attribute_code_range(cols: Seq<BaseColumnView>, attrs: Seq<Option<Seq<char>>>)
    ensures
        0 <= first_attribute_code(cols, attrs) <= 2,
    decreases attrs.len(),
{
    if attrs.len() > 0 {
        lemma_first_attribute_code_range(cols, attrs.drop_first());
    }
}

} // verus!

verus! {

fn find_constraint_relation<'a>(rels: &'a [BaseRelation], c: &IndexExclusionConstraintCoordinate) -> (r: Option<&'a BaseRelation>)
    ensures
        match r {
            Some(x) => relation_of_constraint(rels@.map_values(|b: BaseRelation| b@), c@) == Some(x@),
            None => relation_of_constraint(rels@.map_values(|b: BaseRelation| b@), c@) is None,
        },
{
    let ghost views = rels@.map_values(|b: BaseRelation| b@);
    let ghost key = constraint_key(c@);
    let mut i: usize = 0;
    assert(views.skip(0) =~= views);
    while i < rels.len()
        invariant
            i <= rels@.len(),
            views == rels@.map_values(|b: BaseRelation| b@),
            key == constraint_key(c@),
            crate::catalog::owning_relation(views, key) == crate::catalog::owning_relation(views.skip(i as int), key),
        decreases rels@.len() - i,
    {
        assert(views.skip(i as int)[0] == rels@[i as int]@);
        assert(views.skip(i as int).drop_first() =~= views.skip(i + 1));
        let r = &rels[i];
        if text_eq(r.schema_name(), c.schema_name()) && text_eq(r.relation_name(), c.relation_name())
            && r.relation_kind() == c.relation_kind() {
            return Some(r);
        }
        i = i + 1;
    }
    None
}

fn find_named_index<'a>(idxs: &'a [BaseIndex], name: &str) -> (r: Option<&'a BaseIndex>)
    ensures
        match r {
            Some(x) => index_named(idxs@.map_values(|b: BaseIndex| b@), name@) == Some(x@),
            None => index_named(idxs@.map_values(|b: BaseIndex| b@), name@) is None,
        },
{
    let ghost views = idxs@.map_values(|b: BaseIndex| b@);
    let mut i: usize = 0;
    assert(views.skip(0) =~= views);
    while i < idxs.len()
        invariant
            i <= idxs@.len(),
            views == idxs@.map_values(|b: BaseIndex| b@),
            index_named(views, name@) == index_named(views.skip(i as int), name@),
        decreases idxs@.len() - i,
    {
        assert(views.skip(i as int)[0] == idxs@[i as int]@);
        assert(views.skip(i as int).drop_first() =~= views.skip(i + 1));
        if text_eq(idxs[i].index_name(), name) {
            return Some(&idxs[i]);
        }
        i = i + 1;
    }
    None
}

fn resolve_key(cols: &[BaseColumn], attrs: &[Option<String>]) -> (r: Result<Vec<i16>, ObservationError>)
    ensures
        ({
            let colv = cols@.map_values(|c: BaseColumn| c@);
            let av = crate::catalog::attribute_name_views(attrs@);
            let code = first_attribute_code(colv, av);
            &&& r is Ok <==> code == 0
            &&& code == 1 ==> fails_with_text(r, "index_exclusion_constraint_key_attribute"@)
            &&& code == 2 ==> fails_with_text(r, "index_exclusion_constraint_key_attribute_number"@)
            &&& r matches Ok(v) ==> v@ == expected_key(colv, av)
        }),
{
    let ghost colv = cols@.map_values(|c: BaseColumn| c@);
    let ghost av = crate::catalog::attribute_name_views(attrs@);
    let mut out: Vec<i16> = Vec::new();
    let mut i: usize = 0;
    assert(av.skip(0) =~= av);
    while i < attrs.len()
        invariant
            i <= attrs@.len(),
            colv == cols@.map_values(|c: BaseColumn| c@),
            av == crate::catalog::attribute_name_views(attrs@),
            first_attribute_code(colv, av) == first_attribute_code(colv, av.skip(i as int)),
            out@ == expected_key(colv, av).subrange(0, i as int),
        decreases attrs@.len() - i,
    {
        assert(av.skip(i as int)[0] == av[i as int]);
        assert(av.skip(i as int).drop_first() =~= av.skip(i + 1));
        let number: i16 = match &attrs[i] {
            None => 0,
            Some(name) => {
                let column = match crate::relation_var_snapshot::find_column(cols, name.as_str()) {
                    Some(c) => c,
                    None => {
                        return Err(invalid("index_exclusion_constraint_key_attribute"));
                    },
                };
                let position = match column.ordinal_position() {
                    Some(p) => p,
                    None => {
                        return Err(invalid("index_exclusion_constraint_key_attribute"));
                    },
                };
                if position > 0x7fff {
                    return Err(invalid("index_exclusion_constraint_key_attribute_number"));
                }
                position as i16
            },
        };
        assert(number == expected_key(colv, av)[i as int]);
        out.push(number);
        assert(out@ =~= expected_key(colv, av).subrange(0, i + 1));
        i = i + 1;
    }
    assert(expected_key(colv, av).subrange(0, attrs@.len() as int) =~= expected_key(colv, av));
    Ok(out)
}

fn same_numbers(a: &[i16], b: &Vec<i16>) -> (r: bool)
    ensures
        r == (a@ == b@),
{
    if a.len() != b.len() {
        return false;
    }
    let mut i: usize = 0;
    while i < a.len()
        invariant
            i <= a@.len(),
            a@.len() == b@.len(),
            forall|k: int| 0 <= k < i ==> a@[k] == b@[k],
        decreases a@.len() - i,
    {
        if a[i] != b[i] {
            return false;
        }
        i = i + 1;
    }
    assert(a@ =~= b@);
    true
}

fn check_key(
    relations: &[BaseRelation],
    constraints: &[IndexExclusionConstraintObservation],
    o: &IndexExclusionConstraintKeyObservation,
) -> (r: Result<(), ObservationError>)
    ensures
        ({
            let code = key_code(relations@.map_values(|b: BaseRelation| b@), constraint_views(constraints@), o@);
            &&& r is Ok <==> code == 0
            &&& r is Err ==> fails_with_text(r, key_field(code))
        }),
{
    let constraint = match lookup_constraint(constraints, o.coordinate()) {
        Some(c) => c,
        None => {
            return Err(invalid("index_exclusion_constraint_key_completeness"));
        },
    };
    let relation = match find_constraint_relation(relations, constraint.coordinate()) {
        Some(r) => r,
        None => {
            return Err(invalid("index_exclusion_constraint_key_relation"));
        },
    };
    let index = match find_named_index(relation.indexes(), constraint.backing_index().index_name()) {
        Some(i) => i,
        None => {
            return Err(invalid("index_exclusion_constraint_key_backing_index"));
        },
    };
    proof {
        lemma_first_attribute_code_range(relation@.columns, index@.key_attributes);
    }
    let expected = resolve_key(relation.columns(), index.key_attributes())?;
    if !same_numbers(o.attribute_numbers(), &expected) {
        return Err(invalid("index_exclusion_constraint_key_state"));
    }
    Ok(())
}

fn check_keys(
    relations: &[BaseRelation],
    constraints: &[IndexExclusionConstraintObservation],
    obs: &[IndexExclusionConstraintKeyObservation],
) -> (r: Result<(), ObservationError>)
    ensures
        ({
            let code = first_key_code(
                relations@.map_values(|b: BaseRelation| b@),
                constraint_views(constraints@),
                obs@.map_values(|x: IndexExclusionConstraintKeyObservation| x@),
            );
            &&& r is Ok <==> code == 0
            &&& r is Err ==> fails_with_text(r, key_field(code))
        }),
{
    let ghost rels = relations@.map_values(|b: BaseRelation| b@);
    let ghost cons = constraint_views(constraints@);
    let ghost views = obs@.map_values(|x: IndexExclusionConstraintKeyObservation| x@);
    let mut i: usize = 0;
    assert(views.skip(0) =~= views);
    while i < obs.len()
        invariant
            i <= obs@.len(),
            rels == relations@.map_values(|b: BaseRelation| b@),
            cons == constraint_views(constraints@),
            views == obs@.map_values(|x: IndexExclusionConstraintKeyObservation| x@),
            first_key_code(rels, cons, views) == first_key_code(rels, cons, views.skip(i as int)),
        decreases obs@.len() - i,
    {
        assert(views.skip(i as int)[0] == obs@[i as int]@);
        assert(views.skip(i as int).drop_first() =~= views.skip(i + 1));
        check_key(relations, constraints, &obs[i])?;
        i = i + 1;
    }
    Ok(())
}

} // verus!

verus! {

/// Domain separator of the constraint-key digest.
pub const KEY_DIGEST_DOMAIN: &'static str =
    "conceptweave.postgres_schema_snapshot.v3.relation_partition.index_partition.exclusion_constraint.key.v1";

/// Immutable provenance receipt for one exact `conkey` observation.
#[derive(Debug, PartialEq, Eq)]
pub struct IndexExclusionConstraintKeySourceReceipt {
    source_id: String,
    connection_policy_binding: String,
    source_digest: String,
    extractor_revision: String,
    observed_at_utc: String,
    location: IndexExclusionConstraintKeyObservation,
}

impl IndexExclusionConstraintKeySourceReceipt {
    /// The provenance carried by this receipt.
    pub closed spec fn lineage(&self) -> LineageView {
        LineageView {
            source_connection_key: self.source_id@,
            connection_policy_binding: self.connection_policy_binding@,
            snapshot_digest: self.source_digest@,
            extractor_revision: self.extractor_revision@,
            observed_at_utc: self.observed_at_utc@,
        }
    }

    /// The observation covered by this receipt.
    pub closed spec fn location_view(&self) -> ConstraintPropertyView<Seq<i16>> {
        self.location@
    }

    /// Returns the stable source registry key, never credential material.
    pub fn source_id(&self) -> (s: &str)
        ensures
            s@ == self.lineage().source_connection_key,
    {
        self.source_id.as_str()
    }

    /// Returns the immutable source-policy binding.
    pub fn connection_policy_binding(&self) -> (s: &str)
        ensures
            s@ == self.lineage().connection_policy_binding,
    {
        self.connection_policy_binding.as_str()
    }

    /// Returns the owner-computed constraint-key successor digest.
    pub fn source_digest(&self) -> (s: &str)
        ensures
            s@ == self.lineage().snapshot_digest,
    {
        self.source_digest.as_str()
    }

    /// Returns the exact extractor revision inherited from the period predecessor.
    pub fn extractor_revision(&self) -> (s: &str)
        ensures
            s@ == self.lineage().extractor_revision,
    {
        self.extractor_revision.as_str()
    }

    /// Returns the exact canonical UTC observation time inherited from the predecessor.
    pub fn observed_at_utc(&self) -> (s: &str)
        ensures
            s@ == self.lineage().observed_at_utc,
    {
        self.observed_at_utc.as_str()
    }

    /// Returns the exact constraint-key observation.
    pub fn location(&self) -> (o: &IndexExclusionConstraintKeyObservation)
        ensures
            o@ == self.location_view(),
    {
        &self.location
    }
}

/// Complete `pg_constraint.conkey` evidence for ordinary `EXCLUDE` constraints.
///
/// Every constraint has exactly one raw key vector, equal to its backing index's key attributes
/// resolved on its relation: attribute numbers for simple columns, zero for expressions.
#[derive(Debug, PartialEq, Eq)]
pub struct IndexExclusionConstraintKeySnapshot {
    source_connection_key: String,
    connection_policy_binding: String,
    snapshot_digest: String,
    extractor_revision: String,
    observed_at_utc: String,
    observations: Vec<IndexExclusionConstraintKeyObservation>,
}

impl IndexExclusionConstraintKeySnapshot {
    /// The provenance of this snapshot, with its own digest.
    pub closed spec fn lineage(&self) -> LineageView {
        LineageView {
            source_connection_key: self.source_connection_key@,
            connection_policy_binding: self.connection_policy_binding@,
            snapshot_digest: self.snapshot_digest@,
            extractor_revision: self.extractor_revision@,
            observed_at_utc: self.observed_at_utc@,
        }
    }

    /// The observations held, in coordinate order.
    pub closed spec fn entries(&self) -> Seq<IndexExclusionConstraintKeyObservation> {
        self.observations@
    }

    /// Issued key evidence holds its observations in strict coordinate order.
    #[verifier::type_invariant]
    closed spec fn entries_sorted(self) -> bool {
        strictly_sorted(self.observations@)
    }

    /// Creates complete `conkey` evidence over the base snapshot's relations, the exclusion-
    /// constraint evidence and the issued period evidence: exactly one observation for each
    /// constraint, each equal to its expected key.
    pub fn new(
        relations: &[BaseRelation],
        constraint_snapshot: &IndexExclusionConstraintSnapshot,
        period_snapshot: &IssuedSnapshot,
        observations: Vec<IndexExclusionConstraintKeyObservation>,
    ) -> (r: Result<Self, ObservationError>)
        ensures
            ({
                let code = coordinate_refusal_code(coordinates_of(constraint_snapshot.entries()), observations@);
                let key = first_key_code(
                    relations@.map_values(|b: BaseRelation| b@),
                    constraint_views(constraint_snapshot.entries()),
                    sorted_by_key(observations@).map_values(|x: IndexExclusionConstraintKeyObservation| x@),
                );
                &&& r is Ok <==> code == 0 && key == 0
                &&& code == 1 ==> fails_with_text(r, "index_exclusion_constraint_key_coordinate"@)
                &&& code == 2 ==> fails_with_text(r, "index_exclusion_constraint_key_completeness"@)
                &&& code == 0 && key != 0 ==> fails_with_text(r, key_field(key))
            }),
            r matches Ok(s) ==> {
                &&& s.entries() == sorted_by_key(observations@)
                &&& s.lineage() == (LineageView {
                    snapshot_digest: digest_text(
                        constraint_property_preimage(KEY_DIGEST_DOMAIN@, period_snapshot.lineage().snapshot_digest, s.entries()),
                    ),
                    ..period_snapshot.lineage()
                })
            },
    {
        proof {
            assert(sorted_by_constraint::<IndexExclusionConstraintKeyObservation>());
        }
        let observations = canonicalize_constraint_properties(
            constraint_snapshot.observations(),
            observations,
            "index_exclusion_constraint_key_coordinate",
            "index_exclusion_constraint_key_completeness",
        )?;
        check_keys(relations, constraint_snapshot.observations(), observations.as_slice())?;
        let snapshot_digest = compute_constraint_property_digest(
            KEY_DIGEST_DOMAIN,
            period_snapshot.snapshot_digest(),
            observations.as_slice(),
        );
        Ok(IndexExclusionConstraintKeySnapshot {
            source_connection_key: period_snapshot.source_connection_key().to_owned(),
            connection_policy_binding: period_snapshot.connection_policy_binding().to_owned(),
            snapshot_digest,
            extractor_revision: period_snapshot.extractor_revision().to_owned(),
            observed_at_utc: period_snapshot.observed_at_utc().to_owned(),
            observations,
        })
    }

    /// Returns the stable source registry key.
    pub fn source_connection_key(&self) -> (s: &str)
        ensures
            s@ == self.lineage().source_connection_key,
    {
        self.source_connection_key.as_str()
    }

    /// Returns the immutable source-policy binding.
    pub fn connection_policy_binding(&self) -> (s: &str)
        ensures
            s@ == self.lineage().connection_policy_binding,
    {
        self.connection_policy_binding.as_str()
    }

    /// Returns the owner-computed domain-separated constraint-key digest.
    pub fn snapshot_digest(&self) -> (s: &str)
        ensures
            s@ == self.lineage().snapshot_digest,
    {
        self.snapshot_digest.as_str()
    }

    /// Returns the exact extractor revision inherited from the period predecessor.
    pub fn extractor_revision(&self) -> (s: &str)
        ensures
            s@ == self.lineage().extractor_revision,
    {
        self.extractor_revision.as_str()
    }

    /// Returns the exact canonical UTC observation time inherited from the predecessor.
    pub fn observed_at_utc(&self) -> (s: &str)
        ensures
            s@ == self.lineage().observed_at_utc,
    {
        self.observed_at_utc.as_str()
    }

    /// Returns complete constraint-key observations in coordinate order.
    pub fn observations(&self) -> (o: &[IndexExclusionConstraintKeyObservation])
        ensures
            o@ == self.entries(),
            strictly_sorted(o@),
    {
        proof {
            use_type_invariant(self);
        }
        self.observations.as_slice()
    }

    /// Issues exact provenance for one observed exclusion constraint.
    pub fn source_receipt(&self, coordinate: IndexExclusionConstraintCoordinate) -> (r: Result<
        IndexExclusionConstraintKeySourceReceipt,
        ObservationError,
    >)
        ensures
            r is Ok <==> observation_of_constraint(self.entries(), coordinate@) is Some,
            r matches Ok(receipt) ==> receipt.lineage() == self.lineage() && receipt.location_view()
                == observation_of_constraint(self.entries(), coordinate@)->0@,
            r matches Err(e) ==> e matches ObservationError::UnknownObservationLocation { location: l } && l@
                == constraint_property_location(coordinate@, "key-attributes"@),
    {
        let observation = match find_constraint_observation(self.observations.as_slice(), &coordinate) {
            Some(o) => o,
            None => {
                proof {
                    reveal_strlit("key-attributes");
                }
                return Err(
                    ObservationError::UnknownObservationLocation {
                        location: render_constraint_property_location(&coordinate, "key-attributes"),
                    },
                );
            },
        };
        Ok(IndexExclusionConstraintKeySourceReceipt {
            source_id: self.source_connection_key.clone(),
            connection_policy_binding: self.connection_policy_binding.clone(),
            source_digest: self.snapshot_digest.clone(),
            extractor_revision: self.extractor_revision.clone(),
            observed_at_utc: self.observed_at_utc.clone(),
            location: observation.clone(),
        })
    }
}

} // verus!
