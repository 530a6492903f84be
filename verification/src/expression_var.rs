//! Relation-`Var` leaves of canonical index expressions and predicates.
//!
//! A leaf is located by its one-based preorder position among the relation-column leaves of an
//! already canonical tree, which is stable for equal trees and keeps physical attribute numbers out
//! of immutable identity.

use vstd::prelude::*;

use crate::catalog::{index_location, validate_nonblank, IndexCoordinateView, IndexPartitionCoordinate, QualifiedCollationName, QualifiedNameView, QualifiedTypeName};
use crate::error::{ObservationError};
use crate::text::{decimal, is_blank, push_decimal, push_text};

verus! {

/// Stable semantic role of `Var.varno` inside a stored index-expression boundary. Only the indexed
/// relation is admissible; `Other` lets an extractor fail closed on any other range-table role.
#[derive(Clone, Copy, Debug, PartialEq, Eq, Structural)]
pub enum RelationVarRelationRole {
    /// The `Var` targets the relation whose index definition is observed.
    IndexRelation,
    /// Any other range-table role.
    Other,
}

impl RelationVarRelationRole {
    /// Returns the stable token of this role.
    pub fn token(self) -> (t: &'static str)
        ensures
            t@ == (match self {
                RelationVarRelationRole::IndexRelation => "index_relation"@,
                RelationVarRelationRole::Other => "other"@,
            }),
    {
        match self {
            RelationVarRelationRole::IndexRelation => "index_relation",
            RelationVarRelationRole::Other => "other",
        }
    }
}

/// Stable PostgreSQL `VarReturningType` state.
#[derive(Clone, Copy, Debug, PartialEq, Eq, Structural)]
pub enum RelationVarReturningType {
    /// Ordinary `Var`.
    Default,
    /// `RETURNING OLD` reference.
    Old,
    /// `RETURNING NEW` reference.
    New,
}

impl RelationVarReturningType {
    /// Returns the stable token of this returning type.
    pub fn token(self) -> (t: &'static str)
        ensures
            t@ == (match self {
                RelationVarReturningType::Default => "default"@,
                RelationVarReturningType::Old => "old"@,
                RelationVarReturningType::New => "new"@,
            }),
    {
        match self {
            RelationVarReturningType::Default => "default",
            RelationVarReturningType::Old => "old",
            RelationVarReturningType::New => "new",
        }
    }
}

/// Exact coordinate of one relation-`Var` leaf inside canonical expression or predicate evidence.
#[derive(Debug, PartialEq, Eq)]
pub enum IndexExpressionRelationVarLocation {
    /// A relation `Var` inside one expression index key.
    Expression {
        /// Exact relation-scoped index coordinate.
        index: IndexPartitionCoordinate,
        /// One-based index key position.
        key_position: u32,
        /// One-based relation-`Var` leaf position inside that expression.
        leaf_position: u32,
    },
    /// A relation `Var` inside one partial-index predicate.
    Predicate {
        /// Exact relation-scoped index coordinate.
        index: IndexPartitionCoordinate,
        /// One-based relation-`Var` leaf position inside that predicate.
        leaf_position: u32,
    },
}

/// The value of a relation-`Var` location: index, key position (`None` for a predicate) and leaf.
pub struct RelationVarLocationView {
    pub index: IndexCoordinateView,
    pub key_position: Option<u32>,
    pub leaf_position: u32,
}

impl View for IndexExpressionRelationVarLocation {
    type V = RelationVarLocationView;

    open spec fn view(&self) -> RelationVarLocationView {
        match self {
            IndexExpressionRelationVarLocation::Expression { index, key_position, leaf_position } => RelationVarLocationView {
                index: index@,
                key_position: Some(*key_position),
                leaf_position: *leaf_position,
            },
            IndexExpressionRelationVarLocation::Predicate { index, leaf_position } => RelationVarLocationView {
                index: index@,
                key_position: None,
                leaf_position: *leaf_position,
            },
        }
    }
}

/// `{index}/keys/{k}/expression-semantics/relation-vars/{leaf}` or
/// `{index}/predicate-semantics/relation-vars/{leaf}`.
pub open spec fn relation_var_location_text(l: RelationVarLocationView) -> Seq<char> {
    match l.key_position {
        Some(k) => index_location(l.index) + "/keys/"@ + decimal(k as nat) + "/expression-semantics/relation-vars/"@
            + decimal(l.leaf_position as nat),
        None => index_location(l.index) + "/predicate-semantics/relation-vars/"@ + decimal(l.leaf_position as nat),
    }
}

impl Clone for IndexExpressionRelationVarLocation {
    fn clone(&self) -> (c: Self)
        ensures
            c@ == self@,
    {
        match self {
            IndexExpressionRelationVarLocation::Expression { index, key_position, leaf_position } => {
                IndexExpressionRelationVarLocation::Expression {
                    index: index.clone(),
                    key_position: *key_position,
                    leaf_position: *leaf_position,
                }
            },
            IndexExpressionRelationVarLocation::Predicate { index, leaf_position } => {
                IndexExpressionRelationVarLocation::Predicate { index: index.clone(), leaf_position: *leaf_position }
            },
        }
    }
}

impl IndexExpressionRelationVarLocation {
    /// Creates an expression-key relation-`Var` coordinate; both positions are one-based.
    pub fn expression(index: IndexPartitionCoordinate, key_position: u32, leaf_position: u32) -> (r: Result<
        Self,
        ObservationError,
    >)
        ensures
            r is Ok <==> key_position != 0 && leaf_position != 0,
            r matches Ok(l) ==> l@ == (RelationVarLocationView {
                index: index@,
                key_position: Some(key_position),
                leaf_position,
            }),
            r matches Err(e) ==> e == ObservationError::InvalidOrdinalPosition,
    {
        if key_position == 0 || leaf_position == 0 {
            return Err(ObservationError::InvalidOrdinalPosition);
        }
        Ok(IndexExpressionRelationVarLocation::Expression { index, key_position, leaf_position })
    }

    /// Creates a predicate relation-`Var` coordinate; the position is one-based.
    pub fn predicate(index: IndexPartitionCoordinate, leaf_position: u32) -> (r: Result<Self, ObservationError>)
        ensures
            r is Ok <==> leaf_position != 0,
            r matches Ok(l) ==> l@ == (RelationVarLocationView { index: index@, key_position: None, leaf_position }),
            r matches Err(e) ==> e == ObservationError::InvalidOrdinalPosition,
    {
        if leaf_position == 0 {
            return Err(ObservationError::InvalidOrdinalPosition);
        }
        Ok(IndexExpressionRelationVarLocation::Predicate { index, leaf_position })
    }

    /// Returns the exact relation-scoped index coordinate.
    pub fn index(&self) -> (i: &IndexPartitionCoordinate)
        ensures
            i@ == self@.index,
    {
        match self {
            IndexExpressionRelationVarLocation::Expression { index, .. } => index,
            IndexExpressionRelationVarLocation::Predicate { index, .. } => index,
        }
    }

    /// Returns the one-based relation-`Var` leaf position.
    pub fn leaf_position(&self) -> (p: u32)
        ensures
            p == self@.leaf_position,
    {
        match self {
            IndexExpressionRelationVarLocation::Expression { leaf_position, .. } => *leaf_position,
            IndexExpressionRelationVarLocation::Predicate { leaf_position, .. } => *leaf_position,
        }
    }

    /// Returns the expression key position when this location belongs to an expression key.
    pub fn key_position(&self) -> (p: Option<u32>)
        ensures
            p == self@.key_position,
    {
        match self {
            IndexExpressionRelationVarLocation::Expression { key_position, .. } => Some(*key_position),
            IndexExpressionRelationVarLocation::Predicate { .. } => None,
        }
    }

    /// Returns the collision-safe governed evidence location.
    pub fn canonical_location(&self) -> (s: String)
        ensures
            s@ == relation_var_location_text(self@),
    {
        match self {
            IndexExpressionRelationVarLocation::Expression { index, key_position, leaf_position } => {
                let mut out = index.canonical_location();
                push_text(&mut out, "/keys/");
                push_decimal(&mut out, *key_position as u64);
                push_text(&mut out, "/expression-semantics/relation-vars/");
                push_decimal(&mut out, *leaf_position as u64);
                out
            },
            IndexExpressionRelationVarLocation::Predicate { index, leaf_position } => {
                let mut out = index.canonical_location();
                push_text(&mut out, "/predicate-semantics/relation-vars/");
                push_decimal(&mut out, *leaf_position as u64);
                out
            },
        }
    }

    /// The same leaf position inside another index.
    pub fn with_index(&self, index: IndexPartitionCoordinate) -> (l: Self)
        ensures
            l@ == (RelationVarLocationView { index: index@, ..self@ }),
    {
        match self {
            IndexExpressionRelationVarLocation::Expression { key_position, leaf_position, .. } => {
                IndexExpressionRelationVarLocation::Expression {
                    index,
                    key_position: *key_position,
                    leaf_position: *leaf_position,
                }
            },
            IndexExpressionRelationVarLocation::Predicate { leaf_position, .. } => {
                IndexExpressionRelationVarLocation::Predicate { index, leaf_position: *leaf_position }
            },
        }
    }
}

/// The value of one relation-`Var` observation.
pub struct RelationVarView {
    pub location: RelationVarLocationView,
    pub column_name: Seq<char>,
    pub value_type: QualifiedNameView,
    pub type_modifier: i32,
    pub collation: Option<QualifiedNameView>,
}

/// Complete stable equality state of one PostgreSQL relation `Var` leaf: exact column name,
/// qualified `vartype`, raw signed `vartypmod` and qualified `varcollid` (`None` for no collation).
/// Role, nulling relations, level and returning type are admitted only in their one valid state.
#[derive(Debug, PartialEq, Eq)]
pub struct IndexExpressionRelationVarObservation {
    location: IndexExpressionRelationVarLocation,
    column_name: String,
    value_type: QualifiedTypeName,
    type_modifier: i32,
    collation: Option<QualifiedCollationName>,
}

impl View for IndexExpressionRelationVarObservation {
    type V = RelationVarView;

    closed spec fn view(&self) -> RelationVarView {
        RelationVarView {
            location: self.location@,
            column_name: self.column_name@,
            value_type: self.value_type@,
            type_modifier: self.type_modifier,
            collation: match self.collation {
                Some(c) => Some(c@),
                None => None,
            },
        }
    }
}

/// The field reported when a relation-`Var` observation is refused, or `None` when it is accepted,
/// in the order the checks run.
pub open spec fn relation_var_error(
    column_name: Seq<char>,
    relation_role: RelationVarRelationRole,
    nulling_relations_empty: bool,
    levels_up: u32,
    returning_type: RelationVarReturningType,
) -> Option<Seq<char>> {
    if is_blank(column_name) {
        Some("index_expression_relation_var_column_name"@)
    } else if relation_role != RelationVarRelationRole::IndexRelation {
        Some("index_expression_relation_var_role"@)
    } else if !nulling_relations_empty {
        Some("index_expression_relation_var_nulling_relations"@)
    } else if levels_up != 0 {
        Some("index_expression_relation_var_levels_up"@)
    } else if returning_type != RelationVarReturningType::Default {
        Some("index_expression_relation_var_returning_type"@)
    } else {
        None
    }
}

impl IndexExpressionRelationVarObservation {
    /// Creates complete relation-`Var` equality evidence for a stored index-expression leaf.
    pub fn new(
        location: IndexExpressionRelationVarLocation,
        column_name: &str,
        value_type: QualifiedTypeName,
        type_modifier: i32,
        collation: Option<QualifiedCollationName>,
        relation_role: RelationVarRelationRole,
        nulling_relations_empty: bool,
        levels_up: u32,
        returning_type: RelationVarReturningType,
    ) -> (r: Result<Self, ObservationError>)
        ensures
            r is Ok <==> relation_var_error(column_name@, relation_role, nulling_relations_empty, levels_up, returning_type)
                is None,
            r is Err ==> crate::error::fails_with_text(
                r,
                relation_var_error(column_name@, relation_role, nulling_relations_empty, levels_up, returning_type)->0,
            ),
            r matches Ok(o) ==> o@ == (RelationVarView {
                location: location@,
                column_name: column_name@,
                value_type: value_type@,
                type_modifier,
                collation: match collation {
                    Some(c) => Some(c@),
                    None => None,
                },
            }),
    {
        validate_nonblank(column_name, "index_expression_relation_var_column_name")?;
        if relation_role != RelationVarRelationRole::IndexRelation {
            return Err(crate::error::invalid("index_expression_relation_var_role"));
        }
        if !nulling_relations_empty {
            return Err(crate::error::invalid("index_expression_relation_var_nulling_relations"));
        }
        if levels_up != 0 {
            return Err(crate::error::invalid("index_expression_relation_var_levels_up"));
        }
        if returning_type != RelationVarReturningType::Default {
            return Err(crate::error::invalid("index_expression_relation_var_returning_type"));
        }
        Ok(IndexExpressionRelationVarObservation {
            location,
            column_name: column_name.to_owned(),
            value_type,
            type_modifier,
            collation,
        })
    }

    /// Returns the exact relation-`Var` leaf location.
    pub fn location(&self) -> (l: &IndexExpressionRelationVarLocation)
        ensures
            l@ == self@.location,
    {
        &self.location
    }

    /// Returns the attribute-map-normalized exact column name.
    pub fn column_name(&self) -> (s: &str)
        ensures
            s@ == self@.column_name,
    {
        self.column_name.as_str()
    }

    /// Returns the qualified `vartype`.
    pub fn value_type(&self) -> (t: &QualifiedTypeName)
        ensures
            t@ == self@.value_type,
    {
        &self.value_type
    }

    /// Returns the exact raw signed `vartypmod`.
    pub fn type_modifier(&self) -> (m: i32)
        ensures
            m == self@.type_modifier,
    {
        self.type_modifier
    }

    /// Returns the qualified `varcollid`, or `None` for no collation.
    pub fn collation(&self) -> (c: Option<&QualifiedCollationName>)
        ensures
            match c {
                Some(x) => self@.collation == Some(x@),
                None => self@.collation is None,
            },
    {
        match &self.collation {
            Some(c) => Some(c),
            None => None,
        }
    }

    /// Returns the normalized `varno` role (only the indexed relation is ever admitted).
    pub fn relation_role(&self) -> (r: RelationVarRelationRole)
        ensures
            r == RelationVarRelationRole::IndexRelation,
    {
        RelationVarRelationRole::IndexRelation
    }

    /// Returns whether `varnullingrels` was observed empty (always, once admitted).
    pub fn nulling_relations_empty(&self) -> (b: bool)
        ensures
            b,
    {
        true
    }

    /// Returns exact `varlevelsup` (always zero, once admitted).
    pub fn levels_up(&self) -> (l: u32)
        ensures
            l == 0,
    {
        0
    }

    /// Returns exact `varreturningtype` (always the default, once admitted).
    pub fn returning_type(&self) -> (t: RelationVarReturningType)
        ensures
            t == RelationVarReturningType::Default,
    {
        RelationVarReturningType::Default
    }
}

} // verus!
