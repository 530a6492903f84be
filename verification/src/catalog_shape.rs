//! Foreign-key-only residue on an ordinary exclusion-constraint `pg_constraint` row.
//!
//! PostgreSQL stores spaces in the three foreign-key action-code fields, and leaves the
//! foreign-key payload absent, for every non-foreign-key constraint. These values keep the raw
//! facts as observed rather than inferring them from the constraint type.

use vstd::prelude::*;

verus! {

/// Raw foreign-key action-code characters observed on one ordinary EXCLUDE catalog row.
#[derive(Clone, Copy, Debug, PartialEq, Eq, Structural)]
pub struct IndexExclusionConstraintForeignActionCodes {
    update_action: char,
    delete_action: char,
    match_type: char,
}

/// The value of the raw foreign-key action codes.
pub struct ForeignActionCodesView {
    pub update_action: char,
    pub delete_action: char,
    pub match_type: char,
}

impl View for IndexExclusionConstraintForeignActionCodes {
    type V = ForeignActionCodesView;

    closed spec fn view(&self) -> ForeignActionCodesView {
        ForeignActionCodesView {
            update_action: self.update_action,
            delete_action: self.delete_action,
            match_type: self.match_type,
        }
    }
}

impl IndexExclusionConstraintForeignActionCodes {
    /// Records raw `confupdtype`, `confdeltype` and `confmatchtype` catalog characters.
    pub fn new(update_action: char, delete_action: char, match_type: char) -> (c: Self)
        ensures
            c@ == (ForeignActionCodesView { update_action, delete_action, match_type }),
    {
        IndexExclusionConstraintForeignActionCodes { update_action, delete_action, match_type }
    }

    /// Returns raw `pg_constraint.confupdtype`.
    pub fn update_action(self) -> (c: char)
        ensures
            c == self@.update_action,
    {
        self.update_action
    }

    /// Returns raw `pg_constraint.confdeltype`.
    pub fn delete_action(self) -> (c: char)
        ensures
            c == self@.delete_action,
    {
        self.delete_action
    }

    /// Returns raw `pg_constraint.confmatchtype`.
    pub fn match_type(self) -> (c: char)
        ensures
            c == self@.match_type,
    {
        self.match_type
    }

    /// Reports whether all three codes are the space that non-foreign-key rows carry.
    pub fn is_non_foreign_key_sentinel(self) -> (b: bool)
        ensures
            b == (self@.update_action == ' ' && self@.delete_action == ' ' && self@.match_type == ' '),
    {
        self.update_action == ' ' && self.delete_action == ' ' && self.match_type == ' '
    }
}

/// Presence of catalog payload defined only for foreign-key constraints.
#[derive(Clone, Copy, Debug, PartialEq, Eq)]
pub struct IndexExclusionConstraintForeignPayloadPresence {
    foreign_relation_present: bool,
    foreign_key_columns_present: bool,
    equality_operator_vectors_present: [bool; 3],
    delete_set_columns_present: bool,
}

/// The value of the foreign-key payload presence flags.
pub struct ForeignPayloadPresenceView {
    pub foreign_relation_present: bool,
    pub foreign_key_columns_present: bool,
    pub equality_operator_vectors_present: Seq<bool>,
    pub delete_set_columns_present: bool,
}

impl View for IndexExclusionConstraintForeignPayloadPresence {
    type V = ForeignPayloadPresenceView;

    closed spec fn view(&self) -> ForeignPayloadPresenceView {
        ForeignPayloadPresenceView {
            foreign_relation_present: self.foreign_relation_present,
            foreign_key_columns_present: self.foreign_key_columns_present,
            equality_operator_vectors_present: self.equality_operator_vectors_present@,
            delete_set_columns_present: self.delete_set_columns_present,
        }
    }
}

impl IndexExclusionConstraintForeignPayloadPresence {
    /// Records whether foreign-key-only fields are physically present on the observed row.
    /// `equality_operator_vectors_present` is ordered `conpfeqop`, `conppeqop`, `conffeqop`.
    pub fn new(
        foreign_relation_present: bool,
        foreign_key_columns_present: bool,
        equality_operator_vectors_present: [bool; 3],
        delete_set_columns_present: bool,
    ) -> (p: Self)
        ensures
            p@ == (ForeignPayloadPresenceView {
                foreign_relation_present,
                foreign_key_columns_present,
                equality_operator_vectors_present: equality_operator_vectors_present@,
                delete_set_columns_present,
            }),
    {
        IndexExclusionConstraintForeignPayloadPresence {
            foreign_relation_present,
            foreign_key_columns_present,
            equality_operator_vectors_present,
            delete_set_columns_present,
        }
    }

    /// Returns whether `confrelid` was nonzero.
    pub fn foreign_relation_present(self) -> (b: bool)
        ensures
            b == self@.foreign_relation_present,
    {
        self.foreign_relation_present
    }

    /// Returns whether `confkey` was non-null.
    pub fn foreign_key_columns_present(self) -> (b: bool)
        ensures
            b == self@.foreign_key_columns_present,
    {
        self.foreign_key_columns_present
    }

    /// Returns presence of `conpfeqop`, `conppeqop` and `conffeqop`, in that order.
    pub fn equality_operator_vectors_present(self) -> (v: [bool; 3])
        ensures
            v@ == self@.equality_operator_vectors_present,
    {
        self.equality_operator_vectors_present
    }

    /// Returns whether `confdelsetcols` was non-null.
    pub fn delete_set_columns_present(self) -> (b: bool)
        ensures
            b == self@.delete_set_columns_present,
    {
        self.delete_set_columns_present
    }

    /// Reports whether no foreign-key-only payload is present.
    pub fn is_empty(self) -> (b: bool)
        ensures
            b == (!self@.foreign_relation_present && !self@.foreign_key_columns_present
                && !self@.equality_operator_vectors_present[0]
                && !self@.equality_operator_vectors_present[1]
                && !self@.equality_operator_vectors_present[2]
                && !self@.delete_set_columns_present),
    {
        !self.foreign_relation_present && !self.foreign_key_columns_present
            && !self.equality_operator_vectors_present[0] && !self.equality_operator_vectors_present[1]
            && !self.equality_operator_vectors_present[2] && !self.delete_set_columns_present
    }
}

} // verus!
