//! Catalog coordinates shared by every evidence family: relation kinds, index coordinates and
//! qualified type and collation names.

use vstd::prelude::*;

use crate::error::{fails_with, invalid, is_invalid_field, ObservationError};
use crate::order::{compare_text, text_lt, KeyOrder};
use crate::text::{escape_json_pointer_token, is_blank, is_blank_text, json_pointer_escape, push_text};

verus! {

/// Fails with the named field when `value` is blank after trimming white space.
pub fn validate_nonblank(value: &str, field: &'static str) -> (r: Result<(), ObservationError>)
    ensures
        r is Ok <==> !is_blank(value@),
        r matches Err(e) ==> is_invalid_field(e, field),
{
    if is_blank_text(value) {
        return Err(invalid(field));
    }
    Ok(())
}

/// PostgreSQL relation kinds that can own the modeled indexes and constraints.
#[derive(Clone, Copy, Debug, PartialEq, Eq, Structural)]
pub enum RelationKind {
    /// An ordinary table (`relkind = 'r'`).
    Table,
    /// A partitioned table (`relkind = 'p'`).
    PartitionedTable,
}

/// The stable token of a relation kind.
pub open spec fn relation_kind_token(kind: RelationKind) -> Seq<char> {
    match kind {
        RelationKind::Table => seq!['t', 'a', 'b', 'l', 'e'],
        RelationKind::PartitionedTable => seq![
            'p', 'a', 'r', 't', 'i', 't', 'i', 'o', 'n', 'e', 'd', '_', 't', 'a', 'b', 'l', 'e'
        ],
    }
}

impl RelationKind {
    /// Returns the stable token used in locations and digests.
    pub fn token(self) -> (t: &'static str)
        ensures
            t@ == relation_kind_token(self),
    {
        match self {
            RelationKind::Table => {
                proof {
                    reveal_strlit("table");
                }
                "table"
            },
            RelationKind::PartitionedTable => {
                proof {
                    reveal_strlit("partitioned_table");
                }
                "partitioned_table"
            },
        }
    }
}

/// The value of an index coordinate.
pub struct IndexCoordinateView {
    pub schema_name: Seq<char>,
    pub relation_name: Seq<char>,
    pub relation_kind: RelationKind,
    pub index_name: Seq<char>,
}

/// Exact relation-scoped coordinate of one index.
#[derive(Debug, PartialEq, Eq)]
pub struct IndexPartitionCoordinate {
    schema_name: String,
    relation_name: String,
    relation_kind: RelationKind,
    index_name: String,
}

impl View for IndexPartitionCoordinate {
    type V = IndexCoordinateView;

    closed spec fn view(&self) -> IndexCoordinateView {
        IndexCoordinateView {
            schema_name: self.schema_name@,
            relation_name: self.relation_name@,
            relation_kind: self.relation_kind,
            index_name: self.index_name@,
        }
    }
}

/// Order of index coordinates: schema, relation, relation-kind token, index name.
pub open spec fn coordinate_lt(a: IndexCoordinateView, b: IndexCoordinateView) -> bool {
    if a.schema_name != b.schema_name {
        text_lt(a.schema_name, b.schema_name)
    } else if a.relation_name != b.relation_name {
        text_lt(a.relation_name, b.relation_name)
    } else if relation_kind_token(a.relation_kind) != relation_kind_token(b.relation_kind) {
        text_lt(relation_kind_token(a.relation_kind), relation_kind_token(b.relation_kind))
    } else {
        text_lt(a.index_name, b.index_name)
    }
}

/// The governed location of an index coordinate.
pub open spec fn index_location(c: IndexCoordinateView) -> Seq<char> {
    seq!['/', 's', 'c', 'h', 'e', 'm', 'a', 's', '/'] + json_pointer_escape(c.schema_name) + seq![
        '/', 'r', 'e', 'l', 'a', 't', 'i', 'o', 'n', 's', '/'
    ] + relation_kind_token(c.relation_kind) + seq!['/'] + json_pointer_escape(c.relation_name)
        + seq!['/', 'i', 'n', 'd', 'e', 'x', 'e', 's', '/'] + json_pointer_escape(c.index_name)
}

/// Every name of an index coordinate is non-blank.
pub open spec fn index_names_nonblank(c: IndexCoordinateView) -> bool {
    !is_blank(c.schema_name) && !is_blank(c.relation_name) && !is_blank(c.index_name)
}

impl IndexPartitionCoordinate {
    /// The invariant of every coordinate: its names are non-blank.
    #[verifier::type_invariant]
    pub open spec fn names_nonblank(self) -> bool {
        index_names_nonblank(self@)
    }
}

impl Clone for IndexPartitionCoordinate {
    fn clone(&self) -> (c: Self)
        ensures
            c@ == self@,
            c == *self,
    {
        proof {
            use_type_invariant(self);
        }
        IndexPartitionCoordinate {
            schema_name: self.schema_name.clone(),
            relation_name: self.relation_name.clone(),
            relation_kind: self.relation_kind,
            index_name: self.index_name.clone(),
        }
    }
}

impl IndexPartitionCoordinate {
    /// Creates one exact index coordinate.
    pub fn new(
        schema_name: &str,
        relation_name: &str,
        relation_kind: RelationKind,
        index_name: &str,
    ) -> (r: Result<Self, ObservationError>)
        ensures
            r is Ok <==> !is_blank(schema_name@) && !is_blank(relation_name@) && !is_blank(
                index_name@,
            ),
            r matches Ok(c) ==> c@ == (IndexCoordinateView {
                schema_name: schema_name@,
                relation_name: relation_name@,
                relation_kind,
                index_name: index_name@,
            }),
            is_blank(schema_name@) ==> fails_with(r, "index_schema_name"),
            !is_blank(schema_name@) && is_blank(relation_name@) ==> fails_with(
                r,
                "index_relation_name",
            ),
            !is_blank(schema_name@) && !is_blank(relation_name@) && is_blank(index_name@)
                ==> fails_with(r, "index_name"),
    {
        validate_nonblank(schema_name, "index_schema_name")?;
        validate_nonblank(relation_name, "index_relation_name")?;
        validate_nonblank(index_name, "index_name")?;
        Ok(IndexPartitionCoordinate {
            schema_name: schema_name.to_owned(),
            relation_name: relation_name.to_owned(),
            relation_kind,
            index_name: index_name.to_owned(),
        })
    }

    /// Returns the exact schema name.
    pub fn schema_name(&self) -> (s: &str)
        ensures
            s@ == self@.schema_name,
    {
        self.schema_name.as_str()
    }

    /// Returns the exact owning relation name.
    pub fn relation_name(&self) -> (s: &str)
        ensures
            s@ == self@.relation_name,
    {
        self.relation_name.as_str()
    }

    /// Returns the exact owning relation kind.
    pub fn relation_kind(&self) -> (k: RelationKind)
        ensures
            k == self@.relation_kind,
    {
        self.relation_kind
    }

    /// Returns the exact index name.
    pub fn index_name(&self) -> (s: &str)
        ensures
            s@ == self@.index_name,
    {
        self.index_name.as_str()
    }

    /// Returns the collision-safe governed location of this index.
    pub fn canonical_location(&self) -> (s: String)
        ensures
            s@ == index_location(self@),
    {
        let mut out = String::new();
        proof {
            reveal_strlit("/schemas/");
            reveal_strlit("/relations/");
            reveal_strlit("/");
            reveal_strlit("/indexes/");
        }
        push_text(&mut out, "/schemas/");
        let schema = escape_json_pointer_token(self.schema_name.as_str());
        push_text(&mut out, schema.as_str());
        push_text(&mut out, "/relations/");
        push_text(&mut out, self.relation_kind.token());
        push_text(&mut out, "/");
        let relation = escape_json_pointer_token(self.relation_name.as_str());
        push_text(&mut out, relation.as_str());
        push_text(&mut out, "/indexes/");
        let index = escape_json_pointer_token(self.index_name.as_str());
        push_text(&mut out, index.as_str());
        out
    }

    /// Reports whether two coordinates are equal.
    pub fn same_as(&self, other: &Self) -> (b: bool)
        ensures
            b == (self@ == other@),
    {
        self.schema_name == other.schema_name && self.relation_name == other.relation_name
            && self.relation_kind == other.relation_kind && self.index_name == other.index_name
    }

    /// Compares two coordinates in coordinate order.
    pub fn compare(&self, other: &Self) -> (o: KeyOrder)
        ensures
            (o == KeyOrder::Less) == coordinate_lt(self@, other@),
            (o == KeyOrder::Greater) == coordinate_lt(other@, self@),
            (o == KeyOrder::Equal) == (self@ == other@),
    {
        let schema = compare_text(self.schema_name.as_str(), other.schema_name.as_str());
        if schema != KeyOrder::Equal {
            return schema;
        }
        let relation = compare_text(self.relation_name.as_str(), other.relation_name.as_str());
        if relation != KeyOrder::Equal {
            return relation;
        }
        let kind = compare_text(self.relation_kind.token(), other.relation_kind.token());
        if kind != KeyOrder::Equal {
            return kind;
        }
        proof {
            assert(self.relation_kind == other.relation_kind) by {
                reveal_strlit("table");
                reveal_strlit("partitioned_table");
                if self.relation_kind != other.relation_kind {
                    assert(relation_kind_token(self.relation_kind).len() != relation_kind_token(other.relation_kind).len());
                }
            }
        }
        compare_text(self.index_name.as_str(), other.index_name.as_str())
    }
}

/// Order of coordinates is transitive.
pub proof fn lemma_coordinate_lt_transitive(a: IndexCoordinateView, b: IndexCoordinateView, c: IndexCoordinateView)
    requires
        coordinate_lt(a, b),
        coordinate_lt(b, c),
    ensures
        coordinate_lt(a, c),
{
    crate::order::lemma_text_lt_irreflexive(a.schema_name);
    crate::order::lemma_text_lt_irreflexive(a.relation_name);
    crate::order::lemma_text_lt_irreflexive(relation_kind_token(a.relation_kind));
    crate::order::lemma_text_lt_irreflexive(a.index_name);
    crate::order::lemma_text_lt_irreflexive(b.schema_name);
    crate::order::lemma_text_lt_irreflexive(b.relation_name);
    crate::order::lemma_text_lt_irreflexive(relation_kind_token(b.relation_kind));
    if a.schema_name != b.schema_name && b.schema_name != c.schema_name {
        crate::order::lemma_text_lt_transitive(a.schema_name, b.schema_name, c.schema_name);
    } else if a.schema_name == b.schema_name && b.schema_name == c.schema_name {
        if a.relation_name != b.relation_name && b.relation_name != c.relation_name {
            crate::order::lemma_text_lt_transitive(a.relation_name, b.relation_name, c.relation_name);
        } else if a.relation_name == b.relation_name && b.relation_name == c.relation_name {
            let ka = relation_kind_token(a.relation_kind);
            let kb = relation_kind_token(b.relation_kind);
            let kc = relation_kind_token(c.relation_kind);
            if ka != kb && kb != kc {
                crate::order::lemma_text_lt_transitive(ka, kb, kc);
            } else if ka == kb && kb == kc {
                crate::order::lemma_text_lt_transitive(a.index_name, b.index_name, c.index_name);
            }
        }
    }
}

/// No coordinate precedes itself.
pub proof fn lemma_coordinate_lt_irreflexive(a: IndexCoordinateView)
    ensures
        !coordinate_lt(a, a),
{
    crate::order::lemma_text_lt_irreflexive(a.index_name);
}

} // verus!

verus! {

/// The value of a qualified name: schema name and object name.
pub struct QualifiedNameView {
    pub schema_name: Seq<char>,
    pub name: Seq<char>,
}

/// Stable schema-qualified PostgreSQL collation name.
#[derive(Debug, PartialEq, Eq)]
pub struct QualifiedCollationName {
    schema_name: String,
    collation_name: String,
}

impl View for QualifiedCollationName {
    type V = QualifiedNameView;

    closed spec fn view(&self) -> QualifiedNameView {
        QualifiedNameView { schema_name: self.schema_name@, name: self.collation_name@ }
    }
}

impl Clone for QualifiedCollationName {
    fn clone(&self) -> (c: Self)
        ensures
            c@ == self@,
    {
        QualifiedCollationName {
            schema_name: self.schema_name.clone(),
            collation_name: self.collation_name.clone(),
        }
    }
}

impl QualifiedCollationName {
    /// Creates one nonblank qualified collation name.
    pub fn new(schema_name: &str, collation_name: &str) -> (r: Result<Self, ObservationError>)
        ensures
            r is Ok <==> !is_blank(schema_name@) && !is_blank(collation_name@),
            r matches Ok(c) ==> c@ == (QualifiedNameView {
                schema_name: schema_name@,
                name: collation_name@,
            }),
            is_blank(schema_name@) ==> fails_with(r, "qualified_collation_schema_name"),
            !is_blank(schema_name@) && is_blank(collation_name@) ==> fails_with(
                r,
                "qualified_collation_name",
            ),
    {
        validate_nonblank(schema_name, "qualified_collation_schema_name")?;
        validate_nonblank(collation_name, "qualified_collation_name")?;
        Ok(QualifiedCollationName {
            schema_name: schema_name.to_owned(),
            collation_name: collation_name.to_owned(),
        })
    }

    /// Returns the collation schema name.
    pub fn schema_name(&self) -> (s: &str)
        ensures
            s@ == self@.schema_name,
    {
        self.schema_name.as_str()
    }

    /// Returns the collation name.
    pub fn collation_name(&self) -> (s: &str)
        ensures
            s@ == self@.name,
    {
        self.collation_name.as_str()
    }

    /// Reports whether two qualified names are equal.
    pub fn same_as(&self, other: &Self) -> (b: bool)
        ensures
            b == (self@ == other@),
    {
        self.schema_name == other.schema_name && self.collation_name == other.collation_name
    }
}

/// Stable schema-qualified PostgreSQL type name.
#[derive(Debug, PartialEq, Eq)]
pub struct QualifiedTypeName {
    schema_name: String,
    name: String,
}

impl View for QualifiedTypeName {
    type V = QualifiedNameView;

    closed spec fn view(&self) -> QualifiedNameView {
        QualifiedNameView { schema_name: self.schema_name@, name: self.name@ }
    }
}

impl Clone for QualifiedTypeName {
    fn clone(&self) -> (c: Self)
        ensures
            c@ == self@,
            c == *self,
    {
        QualifiedTypeName { schema_name: self.schema_name.clone(), name: self.name.clone() }
    }
}

impl QualifiedTypeName {
    /// Creates one nonblank qualified type name.
    pub fn new(schema_name: &str, name: &str) -> (r: Result<Self, ObservationError>)
        ensures
            r is Ok <==> !is_blank(schema_name@) && !is_blank(name@),
            r matches Ok(t) ==> t@ == (QualifiedNameView {
                schema_name: schema_name@,
                name: name@,
            }),
            is_blank(schema_name@) ==> fails_with(r, "qualified_type_schema_name"),
            !is_blank(schema_name@) && is_blank(name@) ==> fails_with(
                r,
                "qualified_type_object_name",
            ),
    {
        validate_nonblank(schema_name, "qualified_type_schema_name")?;
        validate_nonblank(name, "qualified_type_object_name")?;
        Ok(QualifiedTypeName { schema_name: schema_name.to_owned(), name: name.to_owned() })
    }

    /// Returns the type schema name.
    pub fn schema_name(&self) -> (s: &str)
        ensures
            s@ == self@.schema_name,
    {
        self.schema_name.as_str()
    }

    /// Returns the type name.
    pub fn name(&self) -> (s: &str)
        ensures
            s@ == self@.name,
    {
        self.name.as_str()
    }

    /// Reports whether two qualified type names are equal.
    pub fn same_as(&self, other: &Self) -> (b: bool)
        ensures
            b == (self@ == other@),
    {
        self.schema_name == other.schema_name && self.name == other.name
    }
}

/// The value of one index-partition membership.
pub struct MembershipView {
    pub coordinate: IndexCoordinateView,
    pub is_partition: bool,
    pub parent_index: Option<IndexCoordinateView>,
}

/// One index of the issued index-partition evidence: its coordinate, whether it belongs to a
/// partition, and the directly attached parent index when there is one.
#[derive(Debug, PartialEq, Eq)]
pub struct IndexPartitionMembership {
    coordinate: IndexPartitionCoordinate,
    is_partition: bool,
    parent_index: Option<IndexPartitionCoordinate>,
}

impl View for IndexPartitionMembership {
    type V = MembershipView;

    closed spec fn view(&self) -> MembershipView {
        MembershipView {
            coordinate: self.coordinate@,
            is_partition: self.is_partition,
            parent_index: match self.parent_index {
                Some(p) => Some(p@),
                None => None,
            },
        }
    }
}

impl IndexPartitionMembership {
    /// Records one index membership.
    pub fn new(
        coordinate: IndexPartitionCoordinate,
        is_partition: bool,
        parent_index: Option<IndexPartitionCoordinate>,
    ) -> (m: Self)
        ensures
            m@ == (MembershipView {
                coordinate: coordinate@,
                is_partition,
                parent_index: match parent_index {
                    Some(p) => Some(p@),
                    None => None,
                },
            }),
    {
        IndexPartitionMembership { coordinate, is_partition, parent_index }
    }

    /// Returns the index coordinate.
    pub fn coordinate(&self) -> (c: &IndexPartitionCoordinate)
        ensures
            c@ == self@.coordinate,
    {
        &self.coordinate
    }

    /// Returns whether the index belongs to a partition.
    pub fn is_partition(&self) -> (b: bool)
        ensures
            b == self@.is_partition,
    {
        self.is_partition
    }

    /// Returns the directly attached parent index, when there is one.
    pub fn parent_index(&self) -> (p: Option<&IndexPartitionCoordinate>)
        ensures
            match p {
                Some(c) => self@.parent_index == Some(c@),
                None => self@.parent_index is None,
            },
    {
        match &self.parent_index {
            Some(p) => Some(p),
            None => None,
        }
    }
}

/// The provenance shared by every issued snapshot.
pub struct LineageView {
    pub source_connection_key: Seq<char>,
    pub connection_policy_binding: Seq<char>,
    pub snapshot_digest: Seq<char>,
    pub extractor_revision: Seq<char>,
    pub observed_at_utc: Seq<char>,
}

/// An issued index-partition snapshot: its provenance, its digest and its index memberships.
#[derive(Debug, PartialEq, Eq)]
pub struct IndexPartitionEvidence {
    source_connection_key: String,
    connection_policy_binding: String,
    snapshot_digest: String,
    extractor_revision: String,
    observed_at_utc: String,
    memberships: Vec<IndexPartitionMembership>,
}

impl IndexPartitionEvidence {
    /// The provenance and digest of this evidence.
    pub closed spec fn lineage(&self) -> LineageView {
        LineageView {
            source_connection_key: self.source_connection_key@,
            connection_policy_binding: self.connection_policy_binding@,
            snapshot_digest: self.snapshot_digest@,
            extractor_revision: self.extractor_revision@,
            observed_at_utc: self.observed_at_utc@,
        }
    }

    /// The memberships of this evidence, in the order given.
    pub closed spec fn membership_views(&self) -> Seq<MembershipView> {
        self.memberships@.map_values(|m: IndexPartitionMembership| m@)
    }

    /// Records issued index-partition evidence.
    pub fn new(
        source_connection_key: &str,
        connection_policy_binding: &str,
        snapshot_digest: &str,
        extractor_revision: &str,
        observed_at_utc: &str,
        memberships: Vec<IndexPartitionMembership>,
    ) -> (e: Self)
        ensures
            e.lineage() == (LineageView {
                source_connection_key: source_connection_key@,
                connection_policy_binding: connection_policy_binding@,
                snapshot_digest: snapshot_digest@,
                extractor_revision: extractor_revision@,
                observed_at_utc: observed_at_utc@,
            }),
            e.membership_views() == memberships@.map_values(|m: IndexPartitionMembership| m@),
    {
        IndexPartitionEvidence {
            source_connection_key: source_connection_key.to_owned(),
            connection_policy_binding: connection_policy_binding.to_owned(),
            snapshot_digest: snapshot_digest.to_owned(),
            extractor_revision: extractor_revision.to_owned(),
            observed_at_utc: observed_at_utc.to_owned(),
            memberships,
        }
    }

    /// Returns the stable source registry key.
    pub fn source_connection_key(&self) -> (s: &str)
        ensures
            s@ == self.lineage().source_connection_key,
    {
        self.source_connection_key.as_str()
    }

    /// Returns the immutable connection-policy binding.
    pub fn connection_policy_binding(&self) -> (s: &str)
        ensures
            s@ == self.lineage().connection_policy_binding,
    {
        self.connection_policy_binding.as_str()
    }

    /// Returns the issued index-partition digest.
    pub fn snapshot_digest(&self) -> (s: &str)
        ensures
            s@ == self.lineage().snapshot_digest,
    {
        self.snapshot_digest.as_str()
    }

    /// Returns the exact extractor revision.
    pub fn extractor_revision(&self) -> (s: &str)
        ensures
            s@ == self.lineage().extractor_revision,
    {
        self.extractor_revision.as_str()
    }

    /// Returns the exact canonical observation time.
    pub fn observed_at_utc(&self) -> (s: &str)
        ensures
            s@ == self.lineage().observed_at_utc,
    {
        self.observed_at_utc.as_str()
    }

    /// Returns the memberships in the order given.
    pub fn memberships(&self) -> (m: &[IndexPartitionMembership])
        ensures
            m@.map_values(|x: IndexPartitionMembership| x@) == self.membership_views(),
    {
        self.memberships.as_slice()
    }
}

} // verus!

verus! {

/// Framing of an index coordinate: schema, relation, relation-kind token and index name.
pub open spec fn frame_index(c: IndexCoordinateView) -> Seq<u8> {
    crate::digest::frame_str(c.schema_name) + crate::digest::frame_str(c.relation_name)
        + crate::digest::frame_str(relation_kind_token(c.relation_kind))
        + crate::digest::frame_str(c.index_name)
}

/// Appends the framing of an index coordinate.
pub fn put_index(out: &mut Vec<u8>, c: &IndexPartitionCoordinate)
    ensures
        final(out)@ == old(out)@ + frame_index(c@),
{
    crate::digest::put_str(out, c.schema_name());
    crate::digest::put_str(out, c.relation_name());
    crate::digest::put_str(out, c.relation_kind().token());
    crate::digest::put_str(out, c.index_name());
    proof {
        assert(final(out)@ =~= old(out)@ + frame_index(c@));
    }
}

/// Two different coordinates are ordered one way or the other.
pub proof fn lemma_coordinate_lt_total(a: IndexCoordinateView, b: IndexCoordinateView)
    requires
        a != b,
    ensures
        coordinate_lt(a, b) || coordinate_lt(b, a),
{
    if a.schema_name != b.schema_name {
        crate::order::lemma_text_lt_total(a.schema_name, b.schema_name);
    } else if a.relation_name != b.relation_name {
        crate::order::lemma_text_lt_total(a.relation_name, b.relation_name);
    } else if relation_kind_token(a.relation_kind) != relation_kind_token(b.relation_kind) {
        crate::order::lemma_text_lt_total(
            relation_kind_token(a.relation_kind),
            relation_kind_token(b.relation_kind),
        );
    } else {
        assert(a.relation_kind == b.relation_kind) by {
            if a.relation_kind != b.relation_kind {
                assert(relation_kind_token(a.relation_kind).len() != relation_kind_token(b.relation_kind).len());
            }
        }
        crate::order::lemma_text_lt_total(a.index_name, b.index_name);
    }
}

} // verus!

verus! {

/// The value of one index of a base-snapshot relation.
pub struct BaseIndexView {
    pub index_name: Seq<char>,
    pub key_positions: Seq<u32>,
    pub expression_key_positions: Seq<u32>,
    pub has_predicate: bool,
    pub exclusion: Option<bool>,
    pub access_method: Option<Seq<char>>,
    pub ready: Option<bool>,
    pub valid: Option<bool>,
    pub live: Option<bool>,
    pub unique: bool,
    pub primary: Option<bool>,
    pub immediate: Option<bool>,
    pub key_attributes: Seq<Option<Seq<char>>>,
}

/// What the issued base snapshot records of one index: its name, the one-based positions of all
/// its keys and of its expression keys (zero `indkey`), whether it has a partial-index predicate,
/// its catalog exclusion flag (`None` when the catalog flags were not captured) and its access
/// method name (`None` when it was not captured).
#[derive(Debug, PartialEq, Eq)]
pub struct BaseIndex {
    index_name: String,
    key_positions: Vec<u32>,
    expression_key_positions: Vec<u32>,
    has_predicate: bool,
    exclusion: Option<bool>,
    access_method: Option<String>,
    ready: Option<bool>,
    valid: Option<bool>,
    live: Option<bool>,
    unique: bool,
    primary: Option<bool>,
    immediate: Option<bool>,
    key_attributes: Vec<Option<String>>,
}

/// The names of key attributes, `None` for an expression key.
pub open spec fn attribute_name_views(v: Seq<Option<String>>) -> Seq<Option<Seq<char>>> {
    v.map_values(
        |a: Option<String>|
            match a {
                Some(n) => Some(n@),
                None => None,
            },
    )
}

impl View for BaseIndex {
    type V = BaseIndexView;

    closed spec fn view(&self) -> BaseIndexView {
        BaseIndexView {
            index_name: self.index_name@,
            key_positions: self.key_positions@,
            expression_key_positions: self.expression_key_positions@,
            has_predicate: self.has_predicate,
            exclusion: self.exclusion,
            access_method: match &self.access_method {
                Some(m) => Some(m@),
                None => None,
            },
            ready: self.ready,
            valid: self.valid,
            live: self.live,
            unique: self.unique,
            primary: self.primary,
            immediate: self.immediate,
            key_attributes: attribute_name_views(self.key_attributes@),
        }
    }
}

impl BaseIndex {
    /// Records one base-snapshot index whose access method was not captured.
    pub fn new(
        index_name: &str,
        key_positions: Vec<u32>,
        expression_key_positions: Vec<u32>,
        has_predicate: bool,
        exclusion: Option<bool>,
    ) -> (i: Self)
        ensures
            i@ == (BaseIndexView {
                index_name: index_name@,
                key_positions: key_positions@,
                expression_key_positions: expression_key_positions@,
                has_predicate,
                exclusion,
                access_method: None,
                ready: None,
                valid: None,
                live: None,
                unique: false,
                primary: None,
                immediate: None,
                key_attributes: Seq::empty(),
            }),
    {
        let i = BaseIndex {
            index_name: index_name.to_owned(),
            key_positions,
            expression_key_positions,
            has_predicate,
            exclusion,
            access_method: None,
            ready: None,
            valid: None,
            live: None,
            unique: false,
            primary: None,
            immediate: None,
            key_attributes: Vec::new(),
        };
        assert(attribute_name_views(i.key_attributes@) =~= Seq::empty());
        i
    }

    /// Records the captured access method name of this index.
    pub fn with_access_method(self, access_method: &str) -> (i: Self)
        ensures
            i@ == (BaseIndexView { access_method: Some(access_method@), ..self@ }),
    {
        BaseIndex { access_method: Some(access_method.to_owned()), ..self }
    }

    /// Records the captured `pg_index` lifecycle flags (`indisready`, `indisvalid`,
    /// `indislive`) of this index; `None` is a flag that was not captured.
    pub fn with_lifecycle(self, ready: Option<bool>, valid: Option<bool>, live: Option<bool>) -> (i: Self)
        ensures
            i@ == (BaseIndexView { ready, valid, live, ..self@ }),
    {
        BaseIndex { ready, valid, live, ..self }
    }

    /// Records `pg_index.indisunique` of this index.
    pub fn with_unique(self, unique: bool) -> (i: Self)
        ensures
            i@ == (BaseIndexView { unique, ..self@ }),
    {
        BaseIndex { unique, ..self }
    }

    /// Records the captured `pg_index.indisprimary` and `indimmediate` catalog flags of this
    /// index, beside its captured exclusion flag.
    pub fn with_catalog_flags(self, primary: bool, immediate: bool) -> (i: Self)
        ensures
            i@ == (BaseIndexView { primary: Some(primary), immediate: Some(immediate), ..self@ }),
    {
        BaseIndex { primary: Some(primary), immediate: Some(immediate), ..self }
    }

    /// Returns `pg_index.indisunique`.
    pub fn unique(&self) -> (b: bool)
        ensures
            b == self@.unique,
    {
        self.unique
    }

    /// Returns the captured `indisprimary`, when the catalog flags were captured.
    pub fn primary(&self) -> (b: Option<bool>)
        ensures
            b == self@.primary,
    {
        self.primary
    }

    /// Returns the captured `indimmediate`, when the catalog flags were captured.
    pub fn immediate(&self) -> (b: Option<bool>)
        ensures
            b == self@.immediate,
    {
        self.immediate
    }

    /// Records the key attributes of this index, in key order: the attribute name of a simple
    /// column key, `None` for an expression key. INCLUDE columns are not key attributes.
    pub fn with_key_attributes(self, key_attributes: Vec<Option<String>>) -> (i: Self)
        ensures
            i@ == (BaseIndexView { key_attributes: attribute_name_views(key_attributes@), ..self@ }),
    {
        BaseIndex { key_attributes, ..self }
    }

    /// Returns the key attributes in key order.
    pub fn key_attributes(&self) -> (a: &[Option<String>])
        ensures
            attribute_name_views(a@) == self@.key_attributes,
    {
        self.key_attributes.as_slice()
    }

    /// Returns the captured `indisready`, when it was captured.
    pub fn ready(&self) -> (b: Option<bool>)
        ensures
            b == self@.ready,
    {
        self.ready
    }

    /// Returns the captured `indisvalid`, when it was captured.
    pub fn valid(&self) -> (b: Option<bool>)
        ensures
            b == self@.valid,
    {
        self.valid
    }

    /// Returns the captured `indislive`, when it was captured.
    pub fn live(&self) -> (b: Option<bool>)
        ensures
            b == self@.live,
    {
        self.live
    }

    /// Returns the captured access method name, when there is one.
    pub fn access_method(&self) -> (m: Option<&str>)
        ensures
            match m {
                Some(x) => self@.access_method == Some(x@),
                None => self@.access_method is None,
            },
    {
        match &self.access_method {
            Some(x) => Some(x.as_str()),
            None => None,
        }
    }
}

/// The value of one base-snapshot relation.
pub struct BaseRelationView {
    pub schema_name: Seq<char>,
    pub relation_name: Seq<char>,
    pub relation_kind: RelationKind,
    pub column_names: Seq<Seq<char>>,
    pub indexes: Seq<BaseIndexView>,
    pub constraints: Seq<BaseConstraintView>,
    pub columns: Seq<BaseColumnView>,
}

/// The value of one typed column of a base-snapshot relation.
pub struct BaseColumnView {
    pub column_name: Seq<char>,
    pub type_binding: QualifiedNameView,
    pub ordinal_position: Option<u32>,
}

/// What the issued base snapshot records of one column: its name and its qualified type.
#[derive(Debug, PartialEq, Eq)]
pub struct BaseColumn {
    column_name: String,
    type_binding: QualifiedTypeName,
    ordinal_position: Option<u32>,
}

impl View for BaseColumn {
    type V = BaseColumnView;

    closed spec fn view(&self) -> BaseColumnView {
        BaseColumnView {
            column_name: self.column_name@,
            type_binding: self.type_binding@,
            ordinal_position: self.ordinal_position,
        }
    }
}

impl BaseColumn {
    /// Records one typed base-snapshot column whose attribute number was not captured.
    pub fn new(column_name: &str, type_binding: QualifiedTypeName) -> (c: Self)
        ensures
            c@ == (BaseColumnView { column_name: column_name@, type_binding: type_binding@, ordinal_position: None }),
    {
        BaseColumn { column_name: column_name.to_owned(), type_binding, ordinal_position: None }
    }

    /// Records the column's attribute number (`attnum`).
    pub fn with_ordinal_position(self, ordinal_position: u32) -> (c: Self)
        ensures
            c@ == (BaseColumnView { ordinal_position: Some(ordinal_position), ..self@ }),
    {
        BaseColumn { ordinal_position: Some(ordinal_position), ..self }
    }

    /// Returns the column's attribute number, when it was captured.
    pub fn ordinal_position(&self) -> (p: Option<u32>)
        ensures
            p == self@.ordinal_position,
    {
        self.ordinal_position
    }

    /// Returns the column name.
    pub fn column_name(&self) -> (s: &str)
        ensures
            s@ == self@.column_name,
    {
        self.column_name.as_str()
    }

    /// Returns the qualified column type.
    pub fn type_binding(&self) -> (t: &QualifiedTypeName)
        ensures
            t@ == self@.type_binding,
    {
        &self.type_binding
    }
}

/// The value of one table constraint of a base-snapshot relation.
pub struct BaseConstraintView {
    pub constraint_name: Seq<char>,
    pub is_key: bool,
}

/// What the issued base snapshot records of one table constraint: its name, and whether it is a
/// PRIMARY KEY or UNIQUE constraint.
#[derive(Debug, PartialEq, Eq)]
pub struct BaseConstraint {
    constraint_name: String,
    is_key: bool,
}

impl View for BaseConstraint {
    type V = BaseConstraintView;

    closed spec fn view(&self) -> BaseConstraintView {
        BaseConstraintView { constraint_name: self.constraint_name@, is_key: self.is_key }
    }
}

impl BaseConstraint {
    /// Records one base-snapshot table constraint.
    pub fn new(constraint_name: &str, is_key: bool) -> (c: Self)
        ensures
            c@ == (BaseConstraintView { constraint_name: constraint_name@, is_key }),
    {
        BaseConstraint { constraint_name: constraint_name.to_owned(), is_key }
    }

    /// Returns the constraint name.
    pub fn constraint_name(&self) -> (s: &str)
        ensures
            s@ == self@.constraint_name,
    {
        self.constraint_name.as_str()
    }

    /// Returns whether the constraint is a PRIMARY KEY or UNIQUE constraint.
    pub fn is_key(&self) -> (b: bool)
        ensures
            b == self@.is_key,
    {
        self.is_key
    }
}

/// What the issued base snapshot records of one relation: its coordinate, its column names, its
/// indexes, its table constraints and its typed columns.
#[derive(Debug, PartialEq, Eq)]
pub struct BaseRelation {
    schema_name: String,
    relation_name: String,
    relation_kind: RelationKind,
    column_names: Vec<String>,
    indexes: Vec<BaseIndex>,
    constraints: Vec<BaseConstraint>,
    columns: Vec<BaseColumn>,
}

impl View for BaseRelation {
    type V = BaseRelationView;

    closed spec fn view(&self) -> BaseRelationView {
        BaseRelationView {
            schema_name: self.schema_name@,
            relation_name: self.relation_name@,
            relation_kind: self.relation_kind,
            column_names: self.column_names@.map_values(|c: String| c@),
            indexes: self.indexes@.map_values(|i: BaseIndex| i@),
            constraints: self.constraints@.map_values(|c: BaseConstraint| c@),
            columns: self.columns@.map_values(|c: BaseColumn| c@),
        }
    }
}

impl BaseRelation {
    /// Records one base-snapshot relation without table constraints or typed columns.
    pub fn new(
        schema_name: &str,
        relation_name: &str,
        relation_kind: RelationKind,
        column_names: Vec<String>,
        indexes: Vec<BaseIndex>,
    ) -> (r: Self)
        ensures
            r@ == (BaseRelationView {
                schema_name: schema_name@,
                relation_name: relation_name@,
                relation_kind,
                column_names: column_names@.map_values(|c: String| c@),
                indexes: indexes@.map_values(|i: BaseIndex| i@),
                constraints: Seq::empty(),
                columns: Seq::empty(),
            }),
    {
        let constraints: Vec<BaseConstraint> = Vec::new();
        let columns: Vec<BaseColumn> = Vec::new();
        let r = BaseRelation {
            schema_name: schema_name.to_owned(),
            relation_name: relation_name.to_owned(),
            relation_kind,
            column_names,
            indexes,
            constraints,
            columns,
        };
        assert(r@.constraints =~= Seq::empty());
        assert(r@.columns =~= Seq::empty());
        r
    }

    /// Replaces the typed columns of this relation.
    pub fn with_columns(self, columns: Vec<BaseColumn>) -> (r: Self)
        ensures
            r@ == (BaseRelationView { columns: columns@.map_values(|c: BaseColumn| c@), ..self@ }),
    {
        BaseRelation { columns, ..self }
    }

    /// Returns the typed columns in the order given.
    pub fn columns(&self) -> (c: &[BaseColumn])
        ensures
            c@.map_values(|x: BaseColumn| x@) == self@.columns,
    {
        self.columns.as_slice()
    }

    /// Replaces the table constraints of this relation.
    pub fn with_constraints(self, constraints: Vec<BaseConstraint>) -> (r: Self)
        ensures
            r@ == (BaseRelationView {
                constraints: constraints@.map_values(|c: BaseConstraint| c@),
                ..self@
            }),
    {
        BaseRelation { constraints, ..self }
    }

    /// Returns the table constraints in the order given.
    pub fn constraints(&self) -> (c: &[BaseConstraint])
        ensures
            c@.map_values(|x: BaseConstraint| x@) == self@.constraints,
    {
        self.constraints.as_slice()
    }

    /// Returns the relation schema name.
    pub fn schema_name(&self) -> (s: &str)
        ensures
            s@ == self@.schema_name,
    {
        self.schema_name.as_str()
    }

    /// Returns the relation name.
    pub fn relation_name(&self) -> (s: &str)
        ensures
            s@ == self@.relation_name,
    {
        self.relation_name.as_str()
    }

    /// Returns the relation kind.
    pub fn relation_kind(&self) -> (k: RelationKind)
        ensures
            k == self@.relation_kind,
    {
        self.relation_kind
    }

    /// Returns whether the relation owns the index coordinate (same schema, relation and kind).
    pub fn owns(&self, index: &IndexPartitionCoordinate) -> (b: bool)
        ensures
            b == (self@.schema_name == index@.schema_name && self@.relation_name
                == index@.relation_name && self@.relation_kind == index@.relation_kind),
    {
        crate::order::text_eq(self.schema_name.as_str(), index.schema_name())
            && crate::order::text_eq(self.relation_name.as_str(), index.relation_name())
            && self.relation_kind == index.relation_kind()
    }

    /// Returns whether the relation has an index of that name.
    pub fn has_index(&self, index_name: &str) -> (b: bool)
        ensures
            b == exists|i: int| 0 <= i < self@.indexes.len() && (#[trigger] self@.indexes[i]).index_name == index_name@,
    {
        let ghost views = self@.indexes;
        let mut i: usize = 0;
        while i < self.indexes.len()
            invariant
                i <= self.indexes@.len(),
                views == self.indexes@.map_values(|x: BaseIndex| x@),
                views == self@.indexes,
                forall|k: int| 0 <= k < i ==> (#[trigger] views[k]).index_name != index_name@,
            decreases self.indexes@.len() - i,
        {
            assert(views[i as int] == self.indexes@[i as int]@);
            if crate::order::text_eq(self.indexes[i].index_name.as_str(), index_name) {
                assert(self@.indexes[i as int].index_name == index_name@);
                return true;
            }
            i = i + 1;
        }
        false
    }

    /// Returns whether the relation has a column of that name.
    pub fn has_column(&self, column_name: &str) -> (b: bool)
        ensures
            b == self@.column_names.contains(column_name@),
    {
        let ghost views = self@.column_names;
        let mut i: usize = 0;
        while i < self.column_names.len()
            invariant
                i <= self.column_names@.len(),
                views == self.column_names@.map_values(|c: String| c@),
                forall|k: int| 0 <= k < i ==> views[k] != column_name@,
            decreases self.column_names@.len() - i,
        {
            assert(views[i as int] == self.column_names@[i as int]@);
            if crate::order::text_eq(self.column_names[i].as_str(), column_name) {
                return true;
            }
            i = i + 1;
        }
        false
    }

    /// Returns the indexes in the order given.
    pub fn indexes(&self) -> (i: &[BaseIndex])
        ensures
            i@.map_values(|x: BaseIndex| x@) == self@.indexes,
    {
        self.indexes.as_slice()
    }
}

impl BaseIndex {
    /// Returns the index name.
    pub fn index_name(&self) -> (s: &str)
        ensures
            s@ == self@.index_name,
    {
        self.index_name.as_str()
    }

    /// Returns the expression key positions.
    pub fn expression_key_positions(&self) -> (p: &[u32])
        ensures
            p@ == self@.expression_key_positions,
    {
        self.expression_key_positions.as_slice()
    }

    /// Returns whether the index has a partial-index predicate.
    pub fn has_predicate(&self) -> (b: bool)
        ensures
            b == self@.has_predicate,
    {
        self.has_predicate
    }

    /// Returns the positions of all keys.
    pub fn key_positions(&self) -> (p: &[u32])
        ensures
            p@ == self@.key_positions,
    {
        self.key_positions.as_slice()
    }

    /// Returns the catalog exclusion flag, when the catalog flags were captured.
    pub fn exclusion(&self) -> (e: Option<bool>)
        ensures
            e == self@.exclusion,
    {
        self.exclusion
    }
}

/// The coordinate of an index of a base relation.
pub open spec fn base_index_coordinate(r: BaseRelationView, i: BaseIndexView) -> IndexCoordinateView {
    IndexCoordinateView {
        schema_name: r.schema_name,
        relation_name: r.relation_name,
        relation_kind: r.relation_kind,
        index_name: i.index_name,
    }
}

/// The first relation that owns the index coordinate.
pub open spec fn owning_relation(rels: Seq<BaseRelationView>, index: IndexCoordinateView) -> Option<BaseRelationView>
    decreases rels.len(),
{
    if rels.len() == 0 {
        None
    } else if rels[0].schema_name == index.schema_name && rels[0].relation_name == index.relation_name
        && rels[0].relation_kind == index.relation_kind {
        Some(rels[0])
    } else {
        owning_relation(rels.drop_first(), index)
    }
}

/// Finds the first relation that owns the index coordinate.
pub fn find_owning_relation<'a>(rels: &'a [BaseRelation], index: &IndexPartitionCoordinate) -> (r: Option<&'a BaseRelation>)
    ensures
        match r {
            Some(x) => owning_relation(rels@.map_values(|b: BaseRelation| b@), index@) == Some(x@),
            None => owning_relation(rels@.map_values(|b: BaseRelation| b@), index@) is None,
        },
{
    let ghost views = rels@.map_values(|b: BaseRelation| b@);
    let mut i: usize = 0;
    assert(views.skip(0) =~= views);
    while i < rels.len()
        invariant
            i <= rels@.len(),
            views == rels@.map_values(|b: BaseRelation| b@),
            owning_relation(views, index@) == owning_relation(views.skip(i as int), index@),
        decreases rels@.len() - i,
    {
        assert(views.skip(i as int)[0] == rels@[i as int]@);
        assert(views.skip(i as int).drop_first() =~= views.skip(i + 1));
        if rels[i].owns(index) {
            return Some(&rels[i]);
        }
        i = i + 1;
    }
    None
}

} // verus!

verus! {

/// The identity of an issued predecessor snapshot: provenance and digest.
#[derive(Debug, PartialEq, Eq)]
pub struct IssuedSnapshot {
    source_connection_key: String,
    connection_policy_binding: String,
    snapshot_digest: String,
    extractor_revision: String,
    observed_at_utc: String,
}

impl IssuedSnapshot {
    /// The provenance and digest of this snapshot.
    pub closed spec fn lineage(&self) -> LineageView {
        LineageView {
            source_connection_key: self.source_connection_key@,
            connection_policy_binding: self.connection_policy_binding@,
            snapshot_digest: self.snapshot_digest@,
            extractor_revision: self.extractor_revision@,
            observed_at_utc: self.observed_at_utc@,
        }
    }

    /// Records the identity of an issued snapshot.
    pub fn new(
        source_connection_key: &str,
        connection_policy_binding: &str,
        snapshot_digest: &str,
        extractor_revision: &str,
        observed_at_utc: &str,
    ) -> (s: Self)
        ensures
            s.lineage() == (LineageView {
                source_connection_key: source_connection_key@,
                connection_policy_binding: connection_policy_binding@,
                snapshot_digest: snapshot_digest@,
                extractor_revision: extractor_revision@,
                observed_at_utc: observed_at_utc@,
            }),
    {
        IssuedSnapshot {
            source_connection_key: source_connection_key.to_owned(),
            connection_policy_binding: connection_policy_binding.to_owned(),
            snapshot_digest: snapshot_digest.to_owned(),
            extractor_revision: extractor_revision.to_owned(),
            observed_at_utc: observed_at_utc.to_owned(),
        }
    }

    /// Returns the stable source registry key.
    pub fn source_connection_key(&self) -> (s: &str)
        ensures
            s@ == self.lineage().source_connection_key,
    {
        self.source_connection_key.as_str()
    }

    /// Returns the immutable connection-policy binding.
    pub fn connection_policy_binding(&self) -> (s: &str)
        ensures
            s@ == self.lineage().connection_policy_binding,
    {
        self.connection_policy_binding.as_str()
    }

    /// Returns the issued digest.
    pub fn snapshot_digest(&self) -> (s: &str)
        ensures
            s@ == self.lineage().snapshot_digest,
    {
        self.snapshot_digest.as_str()
    }

    /// Returns the exact extractor revision.
    pub fn extractor_revision(&self) -> (s: &str)
        ensures
            s@ == self.lineage().extractor_revision,
    {
        self.extractor_revision.as_str()
    }

    /// Returns the exact canonical observation time.
    pub fn observed_at_utc(&self) -> (s: &str)
        ensures
            s@ == self.lineage().observed_at_utc,
    {
        self.observed_at_utc.as_str()
    }
}

} // verus!

verus! {

/// The value of a relation-scoped constraint coordinate.
pub struct ConstraintCoordinateView {
    pub schema_name: Seq<char>,
    pub relation_name: Seq<char>,
    pub relation_kind: RelationKind,
    pub constraint_name: Seq<char>,
}

/// What the issued base snapshot records of one named NOT NULL constraint: its owning relation
/// and its name.
#[derive(Debug, PartialEq, Eq)]
pub struct BaseNotNullConstraint {
    schema_name: String,
    relation_name: String,
    relation_kind: RelationKind,
    constraint_name: String,
}

impl View for BaseNotNullConstraint {
    type V = ConstraintCoordinateView;

    closed spec fn view(&self) -> ConstraintCoordinateView {
        ConstraintCoordinateView {
            schema_name: self.schema_name@,
            relation_name: self.relation_name@,
            relation_kind: self.relation_kind,
            constraint_name: self.constraint_name@,
        }
    }
}

impl BaseNotNullConstraint {
    /// Records one base-snapshot NOT NULL constraint.
    pub fn new(schema_name: &str, relation_name: &str, relation_kind: RelationKind, constraint_name: &str) -> (c: Self)
        ensures
            c@ == (ConstraintCoordinateView {
                schema_name: schema_name@,
                relation_name: relation_name@,
                relation_kind,
                constraint_name: constraint_name@,
            }),
    {
        BaseNotNullConstraint {
            schema_name: schema_name.to_owned(),
            relation_name: relation_name.to_owned(),
            relation_kind,
            constraint_name: constraint_name.to_owned(),
        }
    }

    /// Returns whether this constraint has the given owning relation and name.
    pub fn is_at(&self, schema_name: &str, relation_name: &str, relation_kind: RelationKind, constraint_name: &str) -> (b: bool)
        ensures
            b == (self@ == (ConstraintCoordinateView {
                schema_name: schema_name@,
                relation_name: relation_name@,
                relation_kind,
                constraint_name: constraint_name@,
            })),
    {
        crate::order::text_eq(self.schema_name.as_str(), schema_name) && crate::order::text_eq(
            self.relation_name.as_str(),
            relation_name,
        ) && self.relation_kind == relation_kind && crate::order::text_eq(self.constraint_name.as_str(), constraint_name)
    }
}

} // verus!

verus! {

/// The value of a relation-scoped column coordinate.
pub struct ColumnCoordinateView {
    pub schema_name: Seq<char>,
    pub relation_name: Seq<char>,
    pub relation_kind: RelationKind,
    pub column_name: Seq<char>,
}

/// The value of one column-scoped fact: the column and the fact.
pub struct ColumnFactView<F> {
    pub column: ColumnCoordinateView,
    pub fact: F,
}

/// What the issued base snapshot records of one column's collation (`None` for no collation).
#[derive(Debug, PartialEq, Eq)]
pub struct BaseColumnCollation {
    schema_name: String,
    relation_name: String,
    relation_kind: RelationKind,
    column_name: String,
    collation: Option<QualifiedCollationName>,
}

impl View for BaseColumnCollation {
    type V = ColumnFactView<Option<QualifiedNameView>>;

    closed spec fn view(&self) -> ColumnFactView<Option<QualifiedNameView>> {
        ColumnFactView {
            column: ColumnCoordinateView {
                schema_name: self.schema_name@,
                relation_name: self.relation_name@,
                relation_kind: self.relation_kind,
                column_name: self.column_name@,
            },
            fact: match self.collation {
                Some(c) => Some(c@),
                None => None,
            },
        }
    }
}

impl BaseColumnCollation {
    /// Records the collation of one base-snapshot column.
    pub fn new(
        schema_name: &str,
        relation_name: &str,
        relation_kind: RelationKind,
        column_name: &str,
        collation: Option<QualifiedCollationName>,
    ) -> (c: Self)
        ensures
            c@ == (ColumnFactView {
                column: ColumnCoordinateView {
                    schema_name: schema_name@,
                    relation_name: relation_name@,
                    relation_kind,
                    column_name: column_name@,
                },
                fact: match collation {
                    Some(x) => Some(x@),
                    None => None,
                },
            }),
    {
        BaseColumnCollation {
            schema_name: schema_name.to_owned(),
            relation_name: relation_name.to_owned(),
            relation_kind,
            column_name: column_name.to_owned(),
            collation,
        }
    }

    /// Returns whether this fact is about the given column.
    pub fn is_about(&self, schema_name: &str, relation_name: &str, relation_kind: RelationKind, column_name: &str) -> (b: bool)
        ensures
            b == (self@.column == (ColumnCoordinateView {
                schema_name: schema_name@,
                relation_name: relation_name@,
                relation_kind,
                column_name: column_name@,
            })),
    {
        crate::order::text_eq(self.schema_name.as_str(), schema_name) && crate::order::text_eq(
            self.relation_name.as_str(),
            relation_name,
        ) && self.relation_kind == relation_kind && crate::order::text_eq(self.column_name.as_str(), column_name)
    }

    /// Returns the column's collation, or `None` for no collation.
    pub fn collation(&self) -> (c: Option<&QualifiedCollationName>)
        ensures
            match c {
                Some(x) => self@.fact == Some(x@),
                None => self@.fact is None,
            },
    {
        match &self.collation {
            Some(c) => Some(c),
            None => None,
        }
    }
}

/// One column's raw `atttypmod` as issued by the type-modifier evidence.
#[derive(Debug, PartialEq, Eq)]
pub struct ColumnTypeModifier {
    schema_name: String,
    relation_name: String,
    relation_kind: RelationKind,
    column_name: String,
    type_modifier: i32,
}

impl View for ColumnTypeModifier {
    type V = ColumnFactView<i32>;

    closed spec fn view(&self) -> ColumnFactView<i32> {
        ColumnFactView {
            column: ColumnCoordinateView {
                schema_name: self.schema_name@,
                relation_name: self.relation_name@,
                relation_kind: self.relation_kind,
                column_name: self.column_name@,
            },
            fact: self.type_modifier,
        }
    }
}

impl ColumnTypeModifier {
    /// Records the type modifier of one column.
    pub fn new(schema_name: &str, relation_name: &str, relation_kind: RelationKind, column_name: &str, type_modifier: i32) -> (c:
        Self)
        ensures
            c@ == (ColumnFactView {
                column: ColumnCoordinateView {
                    schema_name: schema_name@,
                    relation_name: relation_name@,
                    relation_kind,
                    column_name: column_name@,
                },
                fact: type_modifier,
            }),
    {
        ColumnTypeModifier {
            schema_name: schema_name.to_owned(),
            relation_name: relation_name.to_owned(),
            relation_kind,
            column_name: column_name.to_owned(),
            type_modifier,
        }
    }

    /// Returns whether this fact is about the given column.
    pub fn is_about(&self, schema_name: &str, relation_name: &str, relation_kind: RelationKind, column_name: &str) -> (b: bool)
        ensures
            b == (self@.column == (ColumnCoordinateView {
                schema_name: schema_name@,
                relation_name: relation_name@,
                relation_kind,
                column_name: column_name@,
            })),
    {
        crate::order::text_eq(self.schema_name.as_str(), schema_name) && crate::order::text_eq(
            self.relation_name.as_str(),
            relation_name,
        ) && self.relation_kind == relation_kind && crate::order::text_eq(self.column_name.as_str(), column_name)
    }

    /// Returns the raw signed type modifier.
    pub fn type_modifier(&self) -> (m: i32)
        ensures
            m == self@.fact,
    {
        self.type_modifier
    }
}

/// Issued column type-modifier evidence: its provenance, its digest and its per-column modifiers.
#[derive(Debug, PartialEq, Eq)]
pub struct IssuedTypeModifiers {
    source_connection_key: String,
    connection_policy_binding: String,
    snapshot_digest: String,
    extractor_revision: String,
    observed_at_utc: String,
    modifiers: Vec<ColumnTypeModifier>,
}

impl IssuedTypeModifiers {
    /// The provenance and digest of this evidence.
    pub closed spec fn lineage(&self) -> LineageView {
        LineageView {
            source_connection_key: self.source_connection_key@,
            connection_policy_binding: self.connection_policy_binding@,
            snapshot_digest: self.snapshot_digest@,
            extractor_revision: self.extractor_revision@,
            observed_at_utc: self.observed_at_utc@,
        }
    }

    /// The modifiers, in the order given.
    pub closed spec fn modifier_views(&self) -> Seq<ColumnFactView<i32>> {
        self.modifiers@.map_values(|m: ColumnTypeModifier| m@)
    }

    /// Records issued type-modifier evidence.
    pub fn new(
        source_connection_key: &str,
        connection_policy_binding: &str,
        snapshot_digest: &str,
        extractor_revision: &str,
        observed_at_utc: &str,
        modifiers: Vec<ColumnTypeModifier>,
    ) -> (s: Self)
        ensures
            s.lineage() == (LineageView {
                source_connection_key: source_connection_key@,
                connection_policy_binding: connection_policy_binding@,
                snapshot_digest: snapshot_digest@,
                extractor_revision: extractor_revision@,
                observed_at_utc: observed_at_utc@,
            }),
            s.modifier_views() == modifiers@.map_values(|m: ColumnTypeModifier| m@),
    {
        IssuedTypeModifiers {
            source_connection_key: source_connection_key.to_owned(),
            connection_policy_binding: connection_policy_binding.to_owned(),
            snapshot_digest: snapshot_digest.to_owned(),
            extractor_revision: extractor_revision.to_owned(),
            observed_at_utc: observed_at_utc.to_owned(),
            modifiers,
        }
    }

    /// Returns the stable source registry key.
    pub fn source_connection_key(&self) -> (s: &str)
        ensures
            s@ == self.lineage().source_connection_key,
    {
        self.source_connection_key.as_str()
    }

    /// Returns the immutable connection-policy binding.
    pub fn connection_policy_binding(&self) -> (s: &str)
        ensures
            s@ == self.lineage().connection_policy_binding,
    {
        self.connection_policy_binding.as_str()
    }

    /// Returns the issued digest.
    pub fn snapshot_digest(&self) -> (s: &str)
        ensures
            s@ == self.lineage().snapshot_digest,
    {
        self.snapshot_digest.as_str()
    }

    /// Returns the exact extractor revision.
    pub fn extractor_revision(&self) -> (s: &str)
        ensures
            s@ == self.lineage().extractor_revision,
    {
        self.extractor_revision.as_str()
    }

    /// Returns the exact canonical observation time.
    pub fn observed_at_utc(&self) -> (s: &str)
        ensures
            s@ == self.lineage().observed_at_utc,
    {
        self.observed_at_utc.as_str()
    }

    /// Returns the modifiers in the order given.
    pub fn modifiers(&self) -> (m: &[ColumnTypeModifier])
        ensures
            m@.map_values(|x: ColumnTypeModifier| x@) == self.modifier_views(),
    {
        self.modifiers.as_slice()
    }
}

} // verus!
