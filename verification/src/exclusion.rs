//! Exclusion-key semantics over issued operator-family evidence.
//!
//! Every key of every exclusion index records the exact operator, its implementation procedure and
//! the operator-family strategy. Directly attached child indexes must carry the exclusion flag of
//! their parent and repeat, key by key, the parent's operator, procedure and strategy.

use vstd::prelude::*;

use crate::catalog::{
    base_index_coordinate, coordinate_lt, frame_index, index_location, lemma_coordinate_lt_irreflexive,
    lemma_coordinate_lt_total, lemma_coordinate_lt_transitive, owning_relation, put_index, BaseIndex, BaseIndexView,
    BaseRelation, BaseRelationView, IndexCoordinateView, IndexPartitionCoordinate, IndexPartitionEvidence,
    IndexPartitionMembership, IssuedSnapshot, LineageView, MembershipView,
};
use crate::digest::{digest_text, finish_digest, frame_len, frame_str, frame_u16, frame_u32, put_len, put_raw, put_str, put_u16, put_u32};
use crate::error::{fails_with_text, invalid, ObservationError};
use crate::order::{
    compare_u32, has_key_collision, same_elements, same_key, sort_by_key, sorted_by_key, strictly_sorted, KeyOrder,
    SortKey,
};
use crate::signatures::{
    frame_type, frame_types, put_type, put_types, same_types, type_views, OperatorView, ProcedureView,
    QualifiedOperatorSignature, QualifiedProcedureSignature,
};
use crate::text::{decimal, push_decimal, push_text};
use vstd::utf8::encode_utf8;

verus! {

/// Framing of an operator signature: schema, name and both operand types.
pub open spec fn frame_operator(o: OperatorView) -> Seq<u8> {
    frame_str(o.schema_name) + frame_str(o.operator_name) + frame_type(o.left_type) + frame_type(o.right_type)
}

/// Framing of a procedure signature: schema, name, argument count and argument types.
pub open spec fn frame_procedure(p: ProcedureView) -> Seq<u8> {
    frame_str(p.schema_name) + frame_str(p.procedure_name) + frame_len(p.argument_types.len()) + frame_types(
        p.argument_types,
    )
}

/// Appends the framing of an operator signature.
pub fn put_operator(out: &mut Vec<u8>, o: &QualifiedOperatorSignature)
    ensures
        final(out)@ == old(out)@ + frame_operator(o@),
{
    put_str(out, o.schema_name());
    put_str(out, o.operator_name());
    put_type(out, o.left_type());
    put_type(out, o.right_type());
    proof {
        assert(final(out)@ =~= old(out)@ + frame_operator(o@));
    }
}

/// Appends the framing of a procedure signature.
pub fn put_procedure(out: &mut Vec<u8>, p: &QualifiedProcedureSignature)
    ensures
        final(out)@ == old(out)@ + frame_procedure(p@),
{
    put_str(out, p.schema_name());
    put_str(out, p.procedure_name());
    let types = p.argument_types();
    put_len(out, types.len());
    put_types(out, types);
    proof {
        assert(type_views(types@).len() == types@.len());
        assert(final(out)@ =~= old(out)@ + frame_procedure(p@));
    }
}

/// The value of one exclusion-key observation.
pub struct ExclusionKeyView {
    pub index: IndexCoordinateView,
    pub key_position: u32,
    pub operator: OperatorView,
    pub procedure: ProcedureView,
    pub strategy: u16,
}

/// One exact exclusion-key semantic tuple: operator, implementation procedure and strategy.
#[derive(Debug, PartialEq, Eq)]
pub struct IndexKeyExclusionSemanticsObservation {
    index: IndexPartitionCoordinate,
    key_position: u32,
    operator: QualifiedOperatorSignature,
    procedure: QualifiedProcedureSignature,
    strategy: u16,
}

impl View for IndexKeyExclusionSemanticsObservation {
    type V = ExclusionKeyView;

    closed spec fn view(&self) -> ExclusionKeyView {
        ExclusionKeyView {
            index: self.index@,
            key_position: self.key_position,
            operator: self.operator@,
            procedure: self.procedure@,
            strategy: self.strategy,
        }
    }
}

impl Clone for IndexKeyExclusionSemanticsObservation {
    fn clone(&self) -> (c: Self)
        ensures
            c@ == self@,
    {
        IndexKeyExclusionSemanticsObservation {
            index: self.index.clone(),
            key_position: self.key_position,
            operator: self.operator.clone(),
            procedure: self.procedure.clone(),
            strategy: self.strategy,
        }
    }
}

/// `{index}/keys/{position}/exclusion`.
pub open spec fn exclusion_location(index: IndexCoordinateView, key_position: u32) -> Seq<char> {
    index_location(index) + "/keys/"@ + decimal(key_position as nat) + "/exclusion"@
}

fn render_exclusion_location(index: &IndexPartitionCoordinate, key_position: u32) -> (s: String)
    ensures
        s@ == exclusion_location(index@, key_position),
{
    let mut out = index.canonical_location();
    push_text(&mut out, "/keys/");
    push_decimal(&mut out, key_position as u64);
    push_text(&mut out, "/exclusion");
    out
}

/// Field reported for a zero strategy number.
pub const STRATEGY_FIELD: &'static str = "exclusion_strategy";

/// Field reported when the procedure does not take exactly the operator's operand types.
pub const PROCEDURE_SIGNATURE_FIELD: &'static str = "exclusion_operator_procedure_signature";

impl IndexKeyExclusionSemanticsObservation {
    /// Creates one exact exclusion-key semantic tuple; the procedure must take exactly the
    /// operator's left and right operand types.
    pub fn new(
        index: IndexPartitionCoordinate,
        key_position: u32,
        operator: QualifiedOperatorSignature,
        procedure: QualifiedProcedureSignature,
        strategy: u16,
    ) -> (r: Result<Self, ObservationError>)
        ensures
            r is Ok <==> key_position != 0 && strategy != 0 && procedure@.argument_types == seq![
                operator@.left_type,
                operator@.right_type,
            ],
            key_position == 0 ==> r == Err::<Self, ObservationError>(ObservationError::InvalidOrdinalPosition),
            key_position != 0 && strategy == 0 ==> fails_with_text(r, STRATEGY_FIELD@),
            key_position != 0 && strategy != 0 && procedure@.argument_types != seq![
                operator@.left_type,
                operator@.right_type,
            ] ==> fails_with_text(r, PROCEDURE_SIGNATURE_FIELD@),
            r matches Ok(o) ==> o@ == (ExclusionKeyView {
                index: index@,
                key_position,
                operator: operator@,
                procedure: procedure@,
                strategy,
            }),
    {
        if key_position == 0 {
            return Err(ObservationError::InvalidOrdinalPosition);
        }
        if strategy == 0 {
            return Err(invalid(STRATEGY_FIELD));
        }
        let expected = vec![operator.left_type().clone(), operator.right_type().clone()];
        proof {
            assert(type_views(expected@) =~= seq![operator@.left_type, operator@.right_type]);
        }
        if !same_types(procedure.argument_types(), expected.as_slice()) {
            return Err(invalid(PROCEDURE_SIGNATURE_FIELD));
        }
        Ok(IndexKeyExclusionSemanticsObservation { index, key_position, operator, procedure, strategy })
    }

    /// Returns the exact relation-scoped index coordinate.
    pub fn index(&self) -> (i: &IndexPartitionCoordinate)
        ensures
            i@ == self@.index,
    {
        &self.index
    }

    /// Returns the one-based key position.
    pub fn key_position(&self) -> (p: u32)
        ensures
            p == self@.key_position,
    {
        self.key_position
    }

    /// Returns the exclusion operator signature.
    pub fn operator(&self) -> (o: &QualifiedOperatorSignature)
        ensures
            o@ == self@.operator,
    {
        &self.operator
    }

    /// Returns the implementation procedure signature.
    pub fn procedure(&self) -> (p: &QualifiedProcedureSignature)
        ensures
            p@ == self@.procedure,
    {
        &self.procedure
    }

    /// Returns the operator-family strategy number.
    pub fn strategy(&self) -> (s: u16)
        ensures
            s == self@.strategy,
    {
        self.strategy
    }

    /// Returns the collision-safe evidence location of this exclusion-key fact.
    pub fn canonical_location(&self) -> (s: String)
        ensures
            s@ == exclusion_location(self@.index, self@.key_position),
    {
        render_exclusion_location(&self.index, self.key_position)
    }
}

impl SortKey for IndexKeyExclusionSemanticsObservation {
    open spec fn key_lt(self, other: Self) -> bool {
        coordinate_lt(self@.index, other@.index) || (self@.index == other@.index && self@.key_position
            < other@.key_position)
    }

    proof fn lemma_key_lt_transitive(a: Self, b: Self, c: Self) {
        lemma_coordinate_lt_irreflexive(a@.index);
        lemma_coordinate_lt_irreflexive(b@.index);
        if coordinate_lt(a@.index, b@.index) && coordinate_lt(b@.index, c@.index) {
            lemma_coordinate_lt_transitive(a@.index, b@.index, c@.index);
        }
    }

    proof fn lemma_key_lt_irreflexive(a: Self) {
        lemma_coordinate_lt_irreflexive(a@.index);
    }

    fn compare_key(&self, other: &Self) -> (o: KeyOrder) {
        proof {
            lemma_coordinate_lt_irreflexive(self@.index);
            lemma_coordinate_lt_irreflexive(other@.index);
        }
        let by_index = self.index.compare(&other.index);
        if by_index != KeyOrder::Equal {
            return by_index;
        }
        compare_u32(self.key_position, other.key_position)
    }
}

/// Immutable receipt for one exact exclusion-key observation.
#[derive(Debug, PartialEq, Eq)]
pub struct IndexExclusionSourceReceipt {
    source_id: String,
    connection_policy_binding: String,
    source_digest: String,
    extractor_revision: String,
    observed_at_utc: String,
    location: IndexKeyExclusionSemanticsObservation,
}

impl IndexExclusionSourceReceipt {
    /// The provenance carried by this receipt.
    pub closed spec fn lineage(&self) -> LineageView {
        LineageView {
            source_connection_key: self.source_id@,
            connection_policy_binding: self.connection_policy_binding@,
            snapshot_digest: self.source_digest@,
            extractor_revision: self.extractor_revision@,
            observed_at_utc: self.observed_at_utc@,
        }
    }

    /// The observation covered by this receipt.
    pub closed spec fn location_view(&self) -> ExclusionKeyView {
        self.location@
    }

    /// Returns the stable source registry key, never credentials.
    pub fn source_id(&self) -> (s: &str)
        ensures
            s@ == self.lineage().source_connection_key,
    {
        self.source_id.as_str()
    }

    /// Returns the immutable connection-policy binding.
    pub fn connection_policy_binding(&self) -> (s: &str)
        ensures
            s@ == self.lineage().connection_policy_binding,
    {
        self.connection_policy_binding.as_str()
    }

    /// Returns the exclusion-semantics digest.
    pub fn source_digest(&self) -> (s: &str)
        ensures
            s@ == self.lineage().snapshot_digest,
    {
        self.source_digest.as_str()
    }

    /// Returns the exact extractor revision inherited from the predecessor stack.
    pub fn extractor_revision(&self) -> (s: &str)
        ensures
            s@ == self.lineage().extractor_revision,
    {
        self.extractor_revision.as_str()
    }

    /// Returns the exact canonical observation time inherited from the predecessor stack.
    pub fn observed_at_utc(&self) -> (s: &str)
        ensures
            s@ == self.lineage().observed_at_utc,
    {
        self.observed_at_utc.as_str()
    }

    /// Returns the exact exclusion-key observation.
    pub fn location(&self) -> (o: &IndexKeyExclusionSemanticsObservation)
        ensures
            o@ == self.location_view(),
    {
        &self.location
    }
}

} // verus!

verus! {

/// The first index of that name.
pub open spec fn index_named(idxs: Seq<BaseIndexView>, name: Seq<char>) -> Option<BaseIndexView>
    decreases idxs.len(),
{
    if idxs.len() == 0 {
        None
    } else if idxs[0].index_name == name {
        Some(idxs[0])
    } else {
        index_named(idxs.drop_first(), name)
    }
}

/// The base-snapshot index at a coordinate: the named index of the first owning relation.
pub open spec fn base_index_of(rels: Seq<BaseRelationView>, c: IndexCoordinateView) -> Option<BaseIndexView> {
    match owning_relation(rels, c) {
        Some(r) => index_named(r.indexes, c.index_name),
        None => None,
    }
}

pub(crate) fn find_base_index<'a>(relations: &'a [BaseRelation], c: &IndexPartitionCoordinate) -> (r: Option<&'a BaseIndex>)
    ensures
        match r {
            Some(i) => base_index_of(relations@.map_values(|b: BaseRelation| b@), c@) == Some(i@),
            None => base_index_of(relations@.map_values(|b: BaseRelation| b@), c@) is None,
        },
{
    let relation = match crate::catalog::find_owning_relation(relations, c) {
        Some(relation) => relation,
        None => {
            return None;
        },
    };
    let indexes = relation.indexes();
    let ghost views = relation@.indexes;
    let mut i: usize = 0;
    assert(views.skip(0) =~= views);
    while i < indexes.len()
        invariant
            i <= indexes@.len(),
            views == relation@.indexes,
            owning_relation(relations@.map_values(|b: BaseRelation| b@), c@) == Some(relation@),
            indexes@.map_values(|x: BaseIndex| x@) == views,
            index_named(views, c@.index_name) == index_named(views.skip(i as int), c@.index_name),
        decreases indexes@.len() - i,
    {
        assert(views.skip(i as int)[0] == indexes@[i as int]@);
        assert(views.skip(i as int).drop_first() =~= views.skip(i + 1));
        if crate::order::text_eq(indexes[i].index_name(), c.index_name()) {
            return Some(&indexes[i]);
        }
        i = i + 1;
    }
    None
}

/// How a direct attachment's exclusion flag compares with its parent's: 0 when equal (or no
/// parent); 1 when either index is not in the base snapshot; 2 when either has no catalog flags;
/// 3 when the flags differ.
pub open spec fn presence_code(rels: Seq<BaseRelationView>, m: MembershipView) -> int {
    match m.parent_index {
        None => 0,
        Some(p) => match (base_index_of(rels, m.coordinate), base_index_of(rels, p)) {
            (Some(child), Some(parent)) => if child.exclusion is None || parent.exclusion is None {
                2
            } else if child.exclusion != parent.exclusion {
                3
            } else {
                0
            },
            _ => 1,
        },
    }
}

/// The presence code of the first membership that fails, or 0.
pub open spec fn first_presence_code(rels: Seq<BaseRelationView>, ms: Seq<MembershipView>) -> int
    decreases ms.len(),
{
    if ms.len() == 0 {
        0
    } else if presence_code(rels, ms[0]) != 0 {
        presence_code(rels, ms[0])
    } else {
        first_presence_code(rels, ms.drop_first())
    }
}

/// The field reported for a presence or attachment code.
pub open spec fn exclusion_field(code: int) -> Seq<char> {
    if code == 1 {
        "index_exclusion_semantics_index_binding"@
    } else if code == 2 {
        "index_exclusion_semantics_catalog_flags"@
    } else if code == 3 {
        "index_partition_definition_exclusion_presence"@
    } else if code == 4 {
        "index_exclusion_semantics_completeness"@
    } else if code == 5 {
        "index_partition_definition_exclusion_operator"@
    } else if code == 6 {
        "index_partition_definition_exclusion_procedure"@
    } else {
        "index_partition_definition_exclusion_strategy"@
    }
}

fn validate_exclusion_presence(relations: &[BaseRelation], partition: &IndexPartitionEvidence) -> (r: Result<
    (),
    ObservationError,
>)
    ensures
        r is Ok <==> first_presence_code(relations@.map_values(|b: BaseRelation| b@), partition.membership_views()) == 0,
        r is Err ==> fails_with_text(
            r,
            exclusion_field(first_presence_code(relations@.map_values(|b: BaseRelation| b@), partition.membership_views())),
        ),
{
    let ghost rels = relations@.map_values(|b: BaseRelation| b@);
    let ghost ms = partition.membership_views();
    let memberships = partition.memberships();
    let mut m: usize = 0;
    assert(ms.skip(0) =~= ms);
    while m < memberships.len()
        invariant
            m <= memberships@.len(),
            rels == relations@.map_values(|b: BaseRelation| b@),
            ms == partition.membership_views(),
            ms == memberships@.map_values(|x: IndexPartitionMembership| x@),
            first_presence_code(rels, ms) == first_presence_code(rels, ms.skip(m as int)),
        decreases memberships@.len() - m,
    {
        let membership = &memberships[m];
        assert(ms.skip(m as int)[0] == membership@);
        assert(ms.skip(m as int).drop_first() =~= ms.skip(m + 1));
        match membership.parent_index() {
            None => {},
            Some(parent) => {
                let child = match find_base_index(relations, membership.coordinate()) {
                    Some(i) => i,
                    None => {
                        return Err(invalid("index_exclusion_semantics_index_binding"));
                    },
                };
                let parent_index = match find_base_index(relations, parent) {
                    Some(i) => i,
                    None => {
                        return Err(invalid("index_exclusion_semantics_index_binding"));
                    },
                };
                let child_flag = match child.exclusion() {
                    Some(f) => f,
                    None => {
                        return Err(invalid("index_exclusion_semantics_catalog_flags"));
                    },
                };
                let parent_flag = match parent_index.exclusion() {
                    Some(f) => f,
                    None => {
                        return Err(invalid("index_exclusion_semantics_catalog_flags"));
                    },
                };
                if child_flag != parent_flag {
                    return Err(invalid("index_partition_definition_exclusion_presence"));
                }
            },
        }
        m = m + 1;
    }
    Ok(())
}

/// Every base-snapshot index carries its catalog flags.
pub open spec fn all_flags_present(rels: Seq<BaseRelationView>) -> bool {
    forall|a: int, b: int| 0 <= a < rels.len() && 0 <= b < rels[a].indexes.len() ==> (#[trigger] rels[a].indexes[b]).exclusion is Some
}

fn flags_are_present(relations: &[BaseRelation]) -> (b: bool)
    ensures
        b == all_flags_present(relations@.map_values(|r: BaseRelation| r@)),
{
    let ghost rels = relations@.map_values(|r: BaseRelation| r@);
    let mut a: usize = 0;
    while a < relations.len()
        invariant
            a <= relations@.len(),
            rels == relations@.map_values(|r: BaseRelation| r@),
            forall|x: int, y: int| 0 <= x < a && 0 <= y < rels[x].indexes.len() ==> (#[trigger] rels[x].indexes[y]).exclusion is Some,
        decreases relations@.len() - a,
    {
        let rel = &relations[a];
        assert(rels[a as int] == rel@);
        let indexes = rel.indexes();
        let mut b: usize = 0;
        while b < indexes.len()
            invariant
                b <= indexes@.len(),
                a < relations@.len(),
                rels == relations@.map_values(|r: BaseRelation| r@),
                rels[a as int] == rel@,
                indexes@.map_values(|x: BaseIndex| x@) == rel@.indexes,
                forall|y: int| 0 <= y < b ==> (#[trigger] rel@.indexes[y]).exclusion is Some,
            decreases indexes@.len() - b,
        {
            assert(rel@.indexes[b as int] == indexes@[b as int]@);
            if indexes[b].exclusion().is_none() {
                assert(rels[a as int].indexes[b as int].exclusion is None);
                return false;
            }
            b = b + 1;
        }
        a = a + 1;
    }
    true
}

} // verus!

verus! {

/// The values of a sequence of exclusion-key observations.
pub open spec fn exclusion_views(s: Seq<IndexKeyExclusionSemanticsObservation>) -> Seq<ExclusionKeyView> {
    s.map_values(|o: IndexKeyExclusionSemanticsObservation| o@)
}

/// The base snapshot records `key_position` as a key of the exclusion index `index`.
pub open spec fn expected_exclusion_key(rels: Seq<BaseRelationView>, index: IndexCoordinateView, key_position: u32) -> bool {
    exists|a: int, b: int|
        0 <= a < rels.len() && 0 <= b < rels[a].indexes.len() && base_index_coordinate(
            rels[a],
            #[trigger] rels[a].indexes[b],
        ) == index && rels[a].indexes[b].exclusion == Some(true) && rels[a].indexes[b].key_positions.contains(key_position)
}

/// Some observation sits at `key_position` of `index`.
pub open spec fn exclusion_key_seen(obs: Seq<ExclusionKeyView>, index: IndexCoordinateView, key_position: u32) -> bool {
    exists|k: int| 0 <= k < obs.len() && (#[trigger] obs[k]).index == index && obs[k].key_position == key_position
}

/// Every key of one base exclusion index is observed.
pub open spec fn index_exclusion_keys_seen(obs: Seq<ExclusionKeyView>, r: BaseRelationView, i: BaseIndexView) -> bool {
    forall|z: int|
        0 <= z < i.key_positions.len() ==> exclusion_key_seen(obs, base_index_coordinate(r, i), #[trigger] i.key_positions[z])
}

/// Every key of every exclusion index of one base relation is observed.
pub open spec fn relation_exclusion_keys_seen(obs: Seq<ExclusionKeyView>, r: BaseRelationView) -> bool {
    forall|y: int|
        0 <= y < r.indexes.len() && (#[trigger] r.indexes[y]).exclusion == Some(true) ==> index_exclusion_keys_seen(
            obs,
            r,
            r.indexes[y],
        )
}

/// The observed keys are exactly the keys of the base snapshot's exclusion indexes.
pub open spec fn exclusion_keys_complete(rels: Seq<BaseRelationView>, obs: Seq<ExclusionKeyView>) -> bool {
    &&& forall|i: int| 0 <= i < obs.len() ==> expected_exclusion_key(rels, (#[trigger] obs[i]).index, obs[i].key_position)
    &&& forall|a: int| 0 <= a < rels.len() ==> relation_exclusion_keys_seen(obs, #[trigger] rels[a])
}

/// Two different observations share index and key position.
pub open spec fn duplicate_exclusion_key(obs: Seq<ExclusionKeyView>) -> bool {
    exists|i: int, j: int|
        0 <= i < j < obs.len() && (#[trigger] obs[i]).index == (#[trigger] obs[j]).index
            && obs[i].key_position == obs[j].key_position
}

fn positions_contain(positions: &[u32], key_position: u32) -> (b: bool)
    ensures
        b == positions@.contains(key_position),
{
    let mut c: usize = 0;
    while c < positions.len()
        invariant
            c <= positions@.len(),
            forall|x: int| 0 <= x < c ==> positions@[x] != key_position,
        decreases positions@.len() - c,
    {
        if positions[c] == key_position {
            return true;
        }
        c = c + 1;
    }
    false
}

fn coordinate_matches(c: &IndexPartitionCoordinate, rel: &BaseRelation, idx: &BaseIndex) -> (b: bool)
    ensures
        b == (c@ == base_index_coordinate(rel@, idx@)),
{
    rel.owns(c) && crate::order::text_eq(c.index_name(), idx.index_name())
}

fn is_expected_exclusion_key(relations: &[BaseRelation], index: &IndexPartitionCoordinate, key_position: u32) -> (b: bool)
    ensures
        b == expected_exclusion_key(relations@.map_values(|r: BaseRelation| r@), index@, key_position),
{
    let ghost rels = relations@.map_values(|r: BaseRelation| r@);
    let mut a: usize = 0;
    while a < relations.len()
        invariant
            a <= relations@.len(),
            rels == relations@.map_values(|r: BaseRelation| r@),
            forall|x: int, y: int|
                0 <= x < a && 0 <= y < rels[x].indexes.len() ==> !(base_index_coordinate(rels[x], #[trigger] rels[x].indexes[y])
                    == index@ && rels[x].indexes[y].exclusion == Some(true)
                    && rels[x].indexes[y].key_positions.contains(key_position)),
        decreases relations@.len() - a,
    {
        let rel = &relations[a];
        assert(rels[a as int] == rel@);
        let indexes = rel.indexes();
        let mut b: usize = 0;
        while b < indexes.len()
            invariant
                b <= indexes@.len(),
                a < relations@.len(),
                rels == relations@.map_values(|r: BaseRelation| r@),
                rels[a as int] == rel@,
                indexes@.map_values(|x: BaseIndex| x@) == rel@.indexes,
                forall|y: int|
                    0 <= y < b ==> !(base_index_coordinate(rel@, #[trigger] rel@.indexes[y]) == index@
                        && rel@.indexes[y].exclusion == Some(true) && rel@.indexes[y].key_positions.contains(key_position)),
            decreases indexes@.len() - b,
        {
            let idx = &indexes[b];
            assert(rel@.indexes[b as int] == idx@);
            if coordinate_matches(index, rel, idx) && idx.exclusion() == Some(true) && positions_contain(
                idx.key_positions(),
                key_position,
            ) {
                assert(base_index_coordinate(rels[a as int], rels[a as int].indexes[b as int]) == index@);
                return true;
            }
            b = b + 1;
        }
        a = a + 1;
    }
    false
}

fn exclusion_key_observed(
    obs: &[IndexKeyExclusionSemanticsObservation],
    rel: &BaseRelation,
    idx: &BaseIndex,
    key_position: u32,
) -> (b: bool)
    ensures
        b == exclusion_key_seen(exclusion_views(obs@), base_index_coordinate(rel@, idx@), key_position),
{
    let ghost ov = exclusion_views(obs@);
    let mut i: usize = 0;
    while i < obs.len()
        invariant
            i <= obs@.len(),
            ov == exclusion_views(obs@),
            forall|x: int| 0 <= x < i ==> !((#[trigger] ov[x]).index == base_index_coordinate(rel@, idx@)
                && ov[x].key_position == key_position),
        decreases obs@.len() - i,
    {
        assert(ov[i as int] == obs@[i as int]@);
        if obs[i].key_position() == key_position && coordinate_matches(obs[i].index(), rel, idx) {
            return true;
        }
        i = i + 1;
    }
    false
}

fn index_exclusion_keys_are_seen(obs: &[IndexKeyExclusionSemanticsObservation], rel: &BaseRelation, idx: &BaseIndex) -> (b:
    bool)
    ensures
        b == index_exclusion_keys_seen(exclusion_views(obs@), rel@, idx@),
{
    let positions = idx.key_positions();
    let mut c: usize = 0;
    while c < positions.len()
        invariant
            c <= positions@.len(),
            positions@ == idx@.key_positions,
            forall|z: int|
                0 <= z < c ==> exclusion_key_seen(
                    exclusion_views(obs@),
                    base_index_coordinate(rel@, idx@),
                    #[trigger] idx@.key_positions[z],
                ),
        decreases positions@.len() - c,
    {
        if !exclusion_key_observed(obs, rel, idx, positions[c]) {
            return false;
        }
        c = c + 1;
    }
    true
}

fn relation_exclusion_keys_are_seen(obs: &[IndexKeyExclusionSemanticsObservation], rel: &BaseRelation) -> (b: bool)
    ensures
        b == relation_exclusion_keys_seen(exclusion_views(obs@), rel@),
{
    let indexes = rel.indexes();
    let mut b: usize = 0;
    while b < indexes.len()
        invariant
            b <= indexes@.len(),
            indexes@.map_values(|x: BaseIndex| x@) == rel@.indexes,
            forall|y: int|
                0 <= y < b && (#[trigger] rel@.indexes[y]).exclusion == Some(true) ==> index_exclusion_keys_seen(
                    exclusion_views(obs@),
                    rel@,
                    rel@.indexes[y],
                ),
        decreases indexes@.len() - b,
    {
        assert(rel@.indexes[b as int] == indexes@[b as int]@);
        if indexes[b].exclusion() == Some(true) && !index_exclusion_keys_are_seen(obs, rel, &indexes[b]) {
            return false;
        }
        b = b + 1;
    }
    true
}

fn exclusion_keys_are_complete(relations: &[BaseRelation], obs: &[IndexKeyExclusionSemanticsObservation]) -> (b: bool)
    ensures
        b == exclusion_keys_complete(relations@.map_values(|r: BaseRelation| r@), exclusion_views(obs@)),
{
    let ghost rels = relations@.map_values(|r: BaseRelation| r@);
    let ghost ov = exclusion_views(obs@);
    let mut i: usize = 0;
    while i < obs.len()
        invariant
            i <= obs@.len(),
            rels == relations@.map_values(|r: BaseRelation| r@),
            ov == exclusion_views(obs@),
            forall|x: int| 0 <= x < i ==> expected_exclusion_key(rels, (#[trigger] ov[x]).index, ov[x].key_position),
        decreases obs@.len() - i,
    {
        assert(ov[i as int] == obs@[i as int]@);
        if !is_expected_exclusion_key(relations, obs[i].index(), obs[i].key_position()) {
            return false;
        }
        i = i + 1;
    }
    let mut a: usize = 0;
    while a < relations.len()
        invariant
            a <= relations@.len(),
            rels == relations@.map_values(|r: BaseRelation| r@),
            ov == exclusion_views(obs@),
            forall|x: int| 0 <= x < obs@.len() ==> expected_exclusion_key(rels, (#[trigger] ov[x]).index, ov[x].key_position),
            forall|x: int| 0 <= x < a ==> relation_exclusion_keys_seen(ov, #[trigger] rels[x]),
        decreases relations@.len() - a,
    {
        assert(rels[a as int] == relations@[a as int]@);
        if !relation_exclusion_keys_are_seen(obs, &relations[a]) {
            return false;
        }
        a = a + 1;
    }
    true
}

proof fn lemma_exclusion_key_seen_transfer(
    a: Seq<IndexKeyExclusionSemanticsObservation>,
    b: Seq<IndexKeyExclusionSemanticsObservation>,
    index: IndexCoordinateView,
    key_position: u32,
)
    requires
        same_elements(a, b),
        exclusion_key_seen(exclusion_views(a), index, key_position),
    ensures
        exclusion_key_seen(exclusion_views(b), index, key_position),
{
    let va = exclusion_views(a);
    let k = choose|k: int| 0 <= k < va.len() && (#[trigger] va[k]).index == index && va[k].key_position == key_position;
    assert(b.contains(a[k]));
    let j = choose|j: int| 0 <= j < b.len() && b[j] == a[k];
    assert(exclusion_views(b)[j] == va[k]);
}

proof fn lemma_exclusion_complete_transfer(
    rels: Seq<BaseRelationView>,
    a: Seq<IndexKeyExclusionSemanticsObservation>,
    b: Seq<IndexKeyExclusionSemanticsObservation>,
)
    requires
        same_elements(a, b),
        exclusion_keys_complete(rels, exclusion_views(a)),
    ensures
        exclusion_keys_complete(rels, exclusion_views(b)),
{
    let va = exclusion_views(a);
    let vb = exclusion_views(b);
    assert forall|i: int| 0 <= i < vb.len() implies expected_exclusion_key(rels, (#[trigger] vb[i]).index, vb[i].key_position) by {
        assert(a.contains(b[i]));
        let k = choose|k: int| 0 <= k < a.len() && a[k] == b[i];
        assert(va[k] == vb[i]);
    }
    assert forall|x: int| 0 <= x < rels.len() implies relation_exclusion_keys_seen(vb, #[trigger] rels[x]) by {
        assert forall|y: int| 0 <= y < rels[x].indexes.len() && (#[trigger] rels[x].indexes[y]).exclusion == Some(true) implies index_exclusion_keys_seen(
            vb,
            rels[x],
            rels[x].indexes[y],
        ) by {
            assert forall|z: int| 0 <= z < rels[x].indexes[y].key_positions.len() implies exclusion_key_seen(
                vb,
                base_index_coordinate(rels[x], rels[x].indexes[y]),
                #[trigger] rels[x].indexes[y].key_positions[z],
            ) by {
                assert(relation_exclusion_keys_seen(va, rels[x]));
                assert(index_exclusion_keys_seen(va, rels[x], rels[x].indexes[y]));
                lemma_exclusion_key_seen_transfer(
                    a,
                    b,
                    base_index_coordinate(rels[x], rels[x].indexes[y]),
                    rels[x].indexes[y].key_positions[z],
                );
            }
        }
    }
}

proof fn lemma_exclusion_collision(s: Seq<IndexKeyExclusionSemanticsObservation>)
    ensures
        has_key_collision(s) <==> duplicate_exclusion_key(exclusion_views(s)),
{
    let v = exclusion_views(s);
    if has_key_collision(s) {
        let (i, j) = choose|i: int, j: int| 0 <= i < j < s.len() && same_key(#[trigger] s[i], #[trigger] s[j]);
        assert(v[i] == s[i]@ && v[j] == s[j]@);
        if v[i].index != v[j].index {
            lemma_coordinate_lt_total(v[i].index, v[j].index);
        }
    }
    if duplicate_exclusion_key(v) {
        let (i, j) = choose|i: int, j: int| 0 <= i < j < v.len() && (#[trigger] v[i]).index == (#[trigger] v[j]).index
            && v[i].key_position == v[j].key_position;
        lemma_coordinate_lt_irreflexive(v[i].index);
        assert(same_key(s[i], s[j]));
    }
}

} // verus!

verus! {

/// The observation at `key_position` of `index` (the first such observation).
pub open spec fn exclusion_at(obs: Seq<ExclusionKeyView>, index: IndexCoordinateView, key_position: u32) -> Option<ExclusionKeyView>
    decreases obs.len(),
{
    if obs.len() == 0 {
        None
    } else if obs[0].index == index && obs[0].key_position == key_position {
        Some(obs[0])
    } else {
        exclusion_at(obs.drop_first(), index, key_position)
    }
}

/// How the child key at `key_position` compares with the parent's: 0 when operator, procedure and
/// strategy agree; 4 when either key is unobserved; 5, 6 or 7 for the first field that differs.
pub open spec fn key_pair_code(
    obs: Seq<ExclusionKeyView>,
    child: IndexCoordinateView,
    parent: IndexCoordinateView,
    key_position: u32,
) -> int {
    match (exclusion_at(obs, child, key_position), exclusion_at(obs, parent, key_position)) {
        (Some(c), Some(p)) => if c.operator != p.operator {
            5
        } else if c.procedure != p.procedure {
            6
        } else if c.strategy != p.strategy {
            7
        } else {
            0
        },
        _ => 4,
    }
}

/// The code of the first key position that fails, or 0.
pub open spec fn keys_pair_code(
    obs: Seq<ExclusionKeyView>,
    child: IndexCoordinateView,
    parent: IndexCoordinateView,
    positions: Seq<u32>,
) -> int
    decreases positions.len(),
{
    if positions.len() == 0 {
        0
    } else if key_pair_code(obs, child, parent, positions[0]) != 0 {
        key_pair_code(obs, child, parent, positions[0])
    } else {
        keys_pair_code(obs, child, parent, positions.drop_first())
    }
}

/// The code of one membership: 0 without a parent or for a non-exclusion child; 1 when the child
/// is not in the base snapshot; 2 without catalog flags; otherwise its keys' code.
pub open spec fn membership_exclusion_code(rels: Seq<BaseRelationView>, obs: Seq<ExclusionKeyView>, m: MembershipView) -> int {
    match m.parent_index {
        None => 0,
        Some(p) => match base_index_of(rels, m.coordinate) {
            None => 1,
            Some(child) => match child.exclusion {
                None => 2,
                Some(false) => 0,
                Some(true) => keys_pair_code(obs, m.coordinate, p, child.key_positions),
            },
        },
    }
}

/// The code of the first membership whose exclusion keys disagree with its parent, or 0.
pub open spec fn attached_exclusion_code(rels: Seq<BaseRelationView>, obs: Seq<ExclusionKeyView>, ms: Seq<MembershipView>) -> int
    decreases ms.len(),
{
    if ms.len() == 0 {
        0
    } else if membership_exclusion_code(rels, obs, ms[0]) != 0 {
        membership_exclusion_code(rels, obs, ms[0])
    } else {
        attached_exclusion_code(rels, obs, ms.drop_first())
    }
}

fn lookup_exclusion<'a>(obs: &'a [IndexKeyExclusionSemanticsObservation], index: &IndexPartitionCoordinate, key_position: u32) -> (r:
    Option<&'a IndexKeyExclusionSemanticsObservation>)
    ensures
        match r {
            Some(o) => exclusion_at(exclusion_views(obs@), index@, key_position) == Some(o@),
            None => exclusion_at(exclusion_views(obs@), index@, key_position) is None,
        },
{
    let ghost ov = exclusion_views(obs@);
    let mut i: usize = 0;
    assert(ov.skip(0) =~= ov);
    while i < obs.len()
        invariant
            i <= obs@.len(),
            ov == exclusion_views(obs@),
            exclusion_at(ov, index@, key_position) == exclusion_at(ov.skip(i as int), index@, key_position),
        decreases obs@.len() - i,
    {
        assert(ov.skip(i as int)[0] == obs@[i as int]@);
        assert(ov.skip(i as int).drop_first() =~= ov.skip(i + 1));
        if obs[i].index().same_as(index) && obs[i].key_position() == key_position {
            return Some(&obs[i]);
        }
        i = i + 1;
    }
    None
}

fn check_key_pairs(
    obs: &[IndexKeyExclusionSemanticsObservation],
    child: &IndexPartitionCoordinate,
    parent: &IndexPartitionCoordinate,
    positions: &[u32],
) -> (r: Result<(), ObservationError>)
    ensures
        r is Ok <==> keys_pair_code(exclusion_views(obs@), child@, parent@, positions@) == 0,
        r is Err ==> fails_with_text(r, exclusion_field(keys_pair_code(exclusion_views(obs@), child@, parent@, positions@))),
{
    let ghost ov = exclusion_views(obs@);
    let mut c: usize = 0;
    assert(positions@.skip(0) =~= positions@);
    while c < positions.len()
        invariant
            c <= positions@.len(),
            ov == exclusion_views(obs@),
            keys_pair_code(ov, child@, parent@, positions@) == keys_pair_code(ov, child@, parent@, positions@.skip(c as int)),
        decreases positions@.len() - c,
    {
        assert(positions@.skip(c as int)[0] == positions@[c as int]);
        assert(positions@.skip(c as int).drop_first() =~= positions@.skip(c + 1));
        let position = positions[c];
        let child_key = match lookup_exclusion(obs, child, position) {
            Some(o) => o,
            None => {
                return Err(invalid("index_exclusion_semantics_completeness"));
            },
        };
        let parent_key = match lookup_exclusion(obs, parent, position) {
            Some(o) => o,
            None => {
                return Err(invalid("index_exclusion_semantics_completeness"));
            },
        };
        if !child_key.operator().same_as(parent_key.operator()) {
            return Err(invalid("index_partition_definition_exclusion_operator"));
        }
        if !child_key.procedure().same_as(parent_key.procedure()) {
            return Err(invalid("index_partition_definition_exclusion_procedure"));
        }
        if child_key.strategy() != parent_key.strategy() {
            return Err(invalid("index_partition_definition_exclusion_strategy"));
        }
        c = c + 1;
    }
    Ok(())
}

fn validate_attached_exclusion(
    relations: &[BaseRelation],
    partition: &IndexPartitionEvidence,
    obs: &[IndexKeyExclusionSemanticsObservation],
) -> (r: Result<(), ObservationError>)
    ensures
        r is Ok <==> attached_exclusion_code(
            relations@.map_values(|b: BaseRelation| b@),
            exclusion_views(obs@),
            partition.membership_views(),
        ) == 0,
        r is Err ==> fails_with_text(
            r,
            exclusion_field(
                attached_exclusion_code(relations@.map_values(|b: BaseRelation| b@), exclusion_views(obs@), partition.membership_views()),
            ),
        ),
{
    let ghost rels = relations@.map_values(|b: BaseRelation| b@);
    let ghost ov = exclusion_views(obs@);
    let ghost ms = partition.membership_views();
    let memberships = partition.memberships();
    let mut m: usize = 0;
    assert(ms.skip(0) =~= ms);
    while m < memberships.len()
        invariant
            m <= memberships@.len(),
            rels == relations@.map_values(|b: BaseRelation| b@),
            ov == exclusion_views(obs@),
            ms == partition.membership_views(),
            ms == memberships@.map_values(|x: IndexPartitionMembership| x@),
            attached_exclusion_code(rels, ov, ms) == attached_exclusion_code(rels, ov, ms.skip(m as int)),
        decreases memberships@.len() - m,
    {
        let membership = &memberships[m];
        assert(ms.skip(m as int)[0] == membership@);
        assert(ms.skip(m as int).drop_first() =~= ms.skip(m + 1));
        match membership.parent_index() {
            None => {},
            Some(parent) => {
                let child_index = match find_base_index(relations, membership.coordinate()) {
                    Some(i) => i,
                    None => {
                        return Err(invalid("index_exclusion_semantics_index_binding"));
                    },
                };
                match child_index.exclusion() {
                    None => {
                        return Err(invalid("index_exclusion_semantics_catalog_flags"));
                    },
                    Some(false) => {},
                    Some(true) => {
                        let checked = check_key_pairs(obs, membership.coordinate(), parent, child_index.key_positions());
                        if checked.is_err() {
                            return checked;
                        }
                    },
                }
            },
        }
        m = m + 1;
    }
    Ok(())
}

/// The field reported when exclusion semantics are refused, or `None` when they are accepted:
/// flag presence across attachments, then catalog flags, repeated keys, completeness, and
/// attached-key equality over the canonical order.
pub open spec fn exclusion_semantics_error(
    rels: Seq<BaseRelationView>,
    ms: Seq<MembershipView>,
    obs: Seq<IndexKeyExclusionSemanticsObservation>,
) -> Option<Seq<char>> {
    if first_presence_code(rels, ms) != 0 {
        Some(exclusion_field(first_presence_code(rels, ms)))
    } else {
        exclusion_keys_error(rels, ms, obs)
    }
}

/// The field reported when exclusion-key observations are refused, or `None`: catalog flags,
/// repeated keys, completeness, then attached-key equality over the canonical order.
pub open spec fn exclusion_keys_error(
    rels: Seq<BaseRelationView>,
    ms: Seq<MembershipView>,
    obs: Seq<IndexKeyExclusionSemanticsObservation>,
) -> Option<Seq<char>> {
    if !all_flags_present(rels) {
        Some("index_exclusion_semantics_catalog_flags"@)
    } else if duplicate_exclusion_key(exclusion_views(obs)) {
        Some("index_exclusion_semantics_coordinate"@)
    } else if !exclusion_keys_complete(rels, exclusion_views(obs)) {
        Some("index_exclusion_semantics_completeness"@)
    } else if attached_exclusion_code(rels, exclusion_views(sorted_by_key(obs)), ms) != 0 {
        Some(exclusion_field(attached_exclusion_code(rels, exclusion_views(sorted_by_key(obs)), ms)))
    } else {
        None
    }
}

/// Sorts exclusion-key observations by index and key, requires exactly the base snapshot's
/// exclusion keys, and requires attached child keys to repeat their parent's semantics.
pub fn canonicalize_exclusion_semantics(
    relations: &[BaseRelation],
    partition: &IndexPartitionEvidence,
    observations: Vec<IndexKeyExclusionSemanticsObservation>,
) -> (r: Result<Vec<IndexKeyExclusionSemanticsObservation>, ObservationError>)
    ensures
        r is Ok <==> exclusion_keys_error(relations@.map_values(|b: BaseRelation| b@), partition.membership_views(), observations@)
            is None,
        r is Err ==> fails_with_text(
            r,
            exclusion_keys_error(relations@.map_values(|b: BaseRelation| b@), partition.membership_views(), observations@)->0,
        ),
        r matches Ok(v) ==> v@ == sorted_by_key(observations@) && strictly_sorted(v@) && same_elements(v@, observations@),
{
    let ghost rels = relations@.map_values(|b: BaseRelation| b@);
    let ghost input = observations@;
    proof {
        lemma_exclusion_collision(input);
    }
    let sorted_result = sort_by_key(observations);
    if !flags_are_present(relations) {
        return Err(invalid("index_exclusion_semantics_catalog_flags"));
    }
    let sorted = match sorted_result {
        Some(v) => v,
        None => {
            return Err(invalid("index_exclusion_semantics_coordinate"));
        },
    };
    proof {
        crate::order::lemma_same_elements_symmetric(sorted@, input);
        if exclusion_keys_complete(rels, exclusion_views(input)) {
            lemma_exclusion_complete_transfer(rels, input, sorted@);
        }
        if exclusion_keys_complete(rels, exclusion_views(sorted@)) {
            lemma_exclusion_complete_transfer(rels, sorted@, input);
        }
    }
    if !exclusion_keys_are_complete(relations, sorted.as_slice()) {
        return Err(invalid("index_exclusion_semantics_completeness"));
    }
    validate_attached_exclusion(relations, partition, sorted.as_slice())?;
    Ok(sorted)
}

} // verus!

verus! {

/// Domain separator of the exclusion-semantics digest.
pub const INDEX_EXCLUSION_DIGEST_DOMAIN: &'static str =
    "conceptweave.postgres_schema_snapshot.v3.relation_partition.index_partition.operator_family.exclusion.v1";

/// Framing of one exclusion-key observation.
pub open spec fn frame_exclusion_key(o: ExclusionKeyView) -> Seq<u8> {
    frame_index(o.index) + frame_u32(o.key_position) + frame_operator(o.operator) + frame_procedure(o.procedure)
        + frame_u16(o.strategy)
}

/// Framing of a sequence of exclusion-key observations, in order.
pub open spec fn frame_exclusion_keys(s: Seq<ExclusionKeyView>) -> Seq<u8>
    decreases s.len(),
{
    if s.len() == 0 {
        Seq::empty()
    } else {
        frame_exclusion_keys(s.drop_last()) + frame_exclusion_key(s.last())
    }
}

/// The preimage of the exclusion-semantics digest.
pub open spec fn exclusion_preimage(predecessor_digest: Seq<char>, s: Seq<ExclusionKeyView>) -> Seq<u8> {
    encode_utf8(INDEX_EXCLUSION_DIGEST_DOMAIN@) + frame_str(predecessor_digest) + frame_len(s.len()) + frame_exclusion_keys(s)
}

fn put_exclusion_key(out: &mut Vec<u8>, o: &IndexKeyExclusionSemanticsObservation)
    ensures
        final(out)@ == old(out)@ + frame_exclusion_key(o@),
{
    let ghost s0 = out@;
    let ghost a = frame_index(o@.index);
    let ghost b = frame_u32(o@.key_position);
    let ghost c = frame_operator(o@.operator);
    let ghost d = frame_procedure(o@.procedure);
    let ghost e = frame_u16(o@.strategy);
    put_index(out, o.index());
    put_u32(out, o.key_position());
    proof {
        vstd::seq_lib::lemma_concat_associative(s0, a, b);
    }
    put_operator(out, o.operator());
    proof {
        vstd::seq_lib::lemma_concat_associative(s0, a + b, c);
    }
    put_procedure(out, o.procedure());
    proof {
        vstd::seq_lib::lemma_concat_associative(s0, a + b + c, d);
    }
    put_u16(out, o.strategy());
    proof {
        vstd::seq_lib::lemma_concat_associative(s0, a + b + c + d, e);
    }
}

fn compute_exclusion_digest(predecessor_digest: &str, observations: &[IndexKeyExclusionSemanticsObservation]) -> (d: String)
    ensures
        d@ == digest_text(exclusion_preimage(predecessor_digest@, exclusion_views(observations@))),
{
    let ghost views = exclusion_views(observations@);
    let mut out: Vec<u8> = Vec::new();
    put_raw(&mut out, INDEX_EXCLUSION_DIGEST_DOMAIN.as_bytes());
    put_str(&mut out, predecessor_digest);
    put_len(&mut out, observations.len());
    let ghost header = out@;
    let mut i: usize = 0;
    while i < observations.len()
        invariant
            i <= observations@.len(),
            views == exclusion_views(observations@),
            out@ == header + frame_exclusion_keys(views.subrange(0, i as int)),
        decreases observations@.len() - i,
    {
        put_exclusion_key(&mut out, &observations[i]);
        proof {
            let next = views.subrange(0, i + 1);
            assert(next.drop_last() =~= views.subrange(0, i as int));
            assert(next.last() == observations@[i as int]@);
            assert(out@ =~= header + frame_exclusion_keys(next));
        }
        i = i + 1;
    }
    proof {
        assert(views.subrange(0, observations@.len() as int) =~= views);
    }
    finish_digest(&out)
}

/// Complete exclusion-key semantics over issued operator-family evidence.
#[derive(Debug, PartialEq, Eq)]
pub struct IndexExclusionSemanticsSnapshot {
    source_connection_key: String,
    connection_policy_binding: String,
    snapshot_digest: String,
    extractor_revision: String,
    observed_at_utc: String,
    observations: Vec<IndexKeyExclusionSemanticsObservation>,
}

impl IndexExclusionSemanticsSnapshot {
    /// The provenance of this snapshot, with its own digest.
    pub closed spec fn lineage(&self) -> LineageView {
        LineageView {
            source_connection_key: self.source_connection_key@,
            connection_policy_binding: self.connection_policy_binding@,
            snapshot_digest: self.snapshot_digest@,
            extractor_revision: self.extractor_revision@,
            observed_at_utc: self.observed_at_utc@,
        }
    }

    /// The observations, in index and key order.
    pub closed spec fn observation_views(&self) -> Seq<ExclusionKeyView> {
        exclusion_views(self.observations@)
    }

    /// The observations held, in index and key order.
    pub closed spec fn entries(&self) -> Seq<IndexKeyExclusionSemanticsObservation> {
        self.observations@
    }

    /// Issued exclusion evidence holds its observations in strict index and key order.
    #[verifier::type_invariant]
    closed spec fn entries_sorted(self) -> bool {
        strictly_sorted(self.observations@)
    }

    /// Creates complete exclusion evidence over issued operator-family evidence, the base
    /// snapshot's relations and the issued index-partition evidence.
    pub fn new(
        operator_family: &IssuedSnapshot,
        relations: &[BaseRelation],
        partition: &IndexPartitionEvidence,
        observations: Vec<IndexKeyExclusionSemanticsObservation>,
    ) -> (r: Result<Self, ObservationError>)
        ensures
            r is Ok <==> exclusion_semantics_error(relations@.map_values(|b: BaseRelation| b@), partition.membership_views(), observations@)
                is None,
            r is Err ==> fails_with_text(
                r,
                exclusion_semantics_error(relations@.map_values(|b: BaseRelation| b@), partition.membership_views(), observations@)->0,
            ),
            r matches Ok(s) ==> {
                &&& s.observation_views() == exclusion_views(sorted_by_key(observations@))
                &&& s.lineage() == (LineageView {
                    snapshot_digest: digest_text(
                        exclusion_preimage(operator_family.lineage().snapshot_digest, s.observation_views()),
                    ),
                    ..operator_family.lineage()
                })
            },
    {
        validate_exclusion_presence(relations, partition)?;
        let observations = canonicalize_exclusion_semantics(relations, partition, observations)?;
        let snapshot_digest = compute_exclusion_digest(operator_family.snapshot_digest(), observations.as_slice());
        Ok(IndexExclusionSemanticsSnapshot {
            source_connection_key: operator_family.source_connection_key().to_owned(),
            connection_policy_binding: operator_family.connection_policy_binding().to_owned(),
            snapshot_digest,
            extractor_revision: operator_family.extractor_revision().to_owned(),
            observed_at_utc: operator_family.observed_at_utc().to_owned(),
            observations,
        })
    }

    /// Returns the stable source registry key.
    pub fn source_connection_key(&self) -> (s: &str)
        ensures
            s@ == self.lineage().source_connection_key,
    {
        self.source_connection_key.as_str()
    }

    /// Returns the immutable source-policy binding.
    pub fn connection_policy_binding(&self) -> (s: &str)
        ensures
            s@ == self.lineage().connection_policy_binding,
    {
        self.connection_policy_binding.as_str()
    }

    /// Returns the domain-separated exclusion-semantics digest.
    pub fn snapshot_digest(&self) -> (s: &str)
        ensures
            s@ == self.lineage().snapshot_digest,
    {
        self.snapshot_digest.as_str()
    }

    /// Returns the exact extractor revision inherited from the predecessor stack.
    pub fn extractor_revision(&self) -> (s: &str)
        ensures
            s@ == self.lineage().extractor_revision,
    {
        self.extractor_revision.as_str()
    }

    /// Returns the exact canonical observation time inherited from the predecessor stack.
    pub fn observed_at_utc(&self) -> (s: &str)
        ensures
            s@ == self.lineage().observed_at_utc,
    {
        self.observed_at_utc.as_str()
    }

    /// Returns the exclusion observations in index and key order.
    pub fn observations(&self) -> (o: &[IndexKeyExclusionSemanticsObservation])
        ensures
            o@ == self.entries(),
            strictly_sorted(o@),
            exclusion_views(o@) == self.observation_views(),
    {
        proof {
            use_type_invariant(self);
        }
        self.observations.as_slice()
    }

    /// Issues exact provenance for one exclusion key of this snapshot.
    pub fn source_receipt(&self, index: &IndexPartitionCoordinate, key_position: u32) -> (r: Result<
        IndexExclusionSourceReceipt,
        ObservationError,
    >)
        ensures
            r is Ok <==> exclusion_at(self.observation_views(), index@, key_position) is Some,
            r matches Ok(receipt) ==> receipt.lineage() == self.lineage() && Some(receipt.location_view())
                == exclusion_at(self.observation_views(), index@, key_position),
            r matches Err(e) ==> e matches ObservationError::UnknownObservationLocation { location: l } && l@
                == exclusion_location(index@, key_position),
    {
        let observation = match lookup_exclusion(self.observations.as_slice(), index, key_position) {
            Some(o) => o,
            None => {
                return Err(
                    ObservationError::UnknownObservationLocation { location: render_exclusion_location(index, key_position) },
                );
            },
        };
        Ok(IndexExclusionSourceReceipt {
            source_id: self.source_connection_key.clone(),
            connection_policy_binding: self.connection_policy_binding.clone(),
            source_digest: self.snapshot_digest.clone(),
            extractor_revision: self.extractor_revision.clone(),
            observed_at_utc: self.observed_at_utc.clone(),
            location: observation.clone(),
        })
    }
}

} // verus!

verus! {

fn clone_semantics(s: &[IndexKeyExclusionSemanticsObservation]) -> (v: Vec<IndexKeyExclusionSemanticsObservation>)
    ensures
        v@.len() == s@.len(),
        forall|i: int| 0 <= i < s@.len() ==> (#[trigger] v@[i])@ == s@[i]@,
{
    let mut v: Vec<IndexKeyExclusionSemanticsObservation> = Vec::new();
    let mut i: usize = 0;
    while i < s.len()
        invariant
            i <= s@.len(),
            v@.len() == i,
            forall|k: int| 0 <= k < i ==> (#[trigger] v@[k])@ == s@[k]@,
        decreases s@.len() - i,
    {
        v.push(s[i].clone());
        i = i + 1;
    }
    v
}

proof fn lemma_semantics_copy(
    c: Seq<IndexKeyExclusionSemanticsObservation>,
    e: Seq<IndexKeyExclusionSemanticsObservation>,
    rels: Seq<BaseRelationView>,
    ms: Seq<MembershipView>,
)
    requires
        c.len() == e.len(),
        forall|i: int| 0 <= i < e.len() ==> (#[trigger] c[i])@ == e[i]@,
        strictly_sorted(e),
    ensures
        sorted_by_key(c) == c,
        exclusion_views(c) == exclusion_views(e),
        exclusion_semantics_error(rels, ms, c) == exclusion_semantics_error(rels, ms, e),
{
    assert forall|i: int, j: int| 0 <= i < j < c.len() implies (#[trigger] c[i]).key_lt(#[trigger] c[j]) by {
        assert(e[i].key_lt(e[j]));
    }
    crate::order::lemma_sorted_by_key_is(c, c);
    crate::order::lemma_sorted_by_key_is(e, e);
    assert(exclusion_views(c) =~= exclusion_views(e));
}

/// Why issued exclusion semantics cannot be rebound, or `None` when they can: rebuilt over the
/// issued operator-family evidence, the base snapshot's relations and the index-partition
/// evidence (their own refusal), they must reach their issued digest, else `binding_field`.
/// Issued exclusion semantics hold their entries in sorted order.
pub open spec fn exclusion_rebinding_refusal(
    rels: Seq<BaseRelationView>,
    ms: Seq<MembershipView>,
    family_digest: Seq<char>,
    sem: Seq<IndexKeyExclusionSemanticsObservation>,
    sem_digest: Seq<char>,
    binding_field: Seq<char>,
) -> Option<Seq<char>> {
    if exclusion_semantics_error(rels, ms, sem) is Some {
        exclusion_semantics_error(rels, ms, sem)
    } else if digest_text(exclusion_preimage(family_digest, exclusion_views(sem))) != sem_digest {
        Some(binding_field)
    } else {
        None
    }
}

/// Rebuilds issued exclusion semantics over the issued operator-family evidence, the base
/// snapshot's relations and the index-partition evidence, and requires the issued digest.
pub(crate) fn rebind_exclusion_semantics(
    operator_family: &IssuedSnapshot,
    relations: &[BaseRelation],
    partition: &IndexPartitionEvidence,
    exclusion_snapshot: &IndexExclusionSemanticsSnapshot,
    binding_field: &'static str,
) -> (r: Result<IndexExclusionSemanticsSnapshot, ObservationError>)
    ensures
        ({
            let refusal = exclusion_rebinding_refusal(
                relations@.map_values(|b: BaseRelation| b@),
                partition.membership_views(),
                operator_family.lineage().snapshot_digest,
                exclusion_snapshot.entries(),
                exclusion_snapshot.lineage().snapshot_digest,
                binding_field@,
            );
            &&& r is Ok <==> refusal is None
            &&& refusal is Some ==> fails_with_text(r, refusal->0)
        }),
        r matches Ok(s) ==> {
            &&& s.entries().len() == exclusion_snapshot.entries().len()
            &&& exclusion_views(s.entries()) == exclusion_views(exclusion_snapshot.entries())
            &&& s.observation_views() == exclusion_snapshot.observation_views()
            &&& s.lineage() == (LineageView {
                snapshot_digest: exclusion_snapshot.lineage().snapshot_digest,
                ..operator_family.lineage()
            })
        },
{
    let given = exclusion_snapshot.observations();
    let copy = clone_semantics(given);
    proof {
        lemma_semantics_copy(copy@, given@, relations@.map_values(|b: BaseRelation| b@), partition.membership_views());
    }
    let rebound = IndexExclusionSemanticsSnapshot::new(operator_family, relations, partition, copy)?;
    if !crate::order::text_eq(rebound.snapshot_digest(), exclusion_snapshot.snapshot_digest()) {
        return Err(crate::error::invalid(binding_field));
    }
    Ok(rebound)
}

} // verus!
