//! Issued transform-type evidence of exclusion-operator implementation functions.
//!
//! For each (constraint, key) operator-procedure binding the layer records
//! `pg_proc.protrftypes`: the SQL types the function elects to transform, or `None` when the
//! function selects no transforms. Its successors read it as issued: its provenance, its digest
//! and its per-binding transform types.

use vstd::prelude::*;

use crate::catalog::{LineageView, QualifiedNameView, QualifiedTypeName};
use crate::digest::put_tag;
use crate::exclusion_constraint::IndexExclusionConstraintCoordinate;
use crate::procedure_binding::{BindingView, ProcedureBound, ProcedurePropertyView};
use crate::signatures::{frame_types, put_types, type_views, QualifiedOperatorSignature, QualifiedProcedureSignature};

verus! {

/// The transform types of one binding, by value.
pub open spec fn optional_type_views(t: Option<Vec<QualifiedTypeName>>) -> Option<Seq<QualifiedNameView>> {
    match t {
        Some(v) => Some(type_views(v@)),
        None => None,
    }
}

/// Issued `protrftypes` of one exclusion-operator implementation function.
#[derive(Debug, PartialEq, Eq)]
pub struct TransformTypesEntry {
    coordinate: IndexExclusionConstraintCoordinate,
    key_position: u32,
    operator: QualifiedOperatorSignature,
    procedure: QualifiedProcedureSignature,
    transform_types: Option<Vec<QualifiedTypeName>>,
}

impl View for TransformTypesEntry {
    type V = ProcedurePropertyView<Option<Seq<QualifiedNameView>>>;

    closed spec fn view(&self) -> ProcedurePropertyView<Option<Seq<QualifiedNameView>>> {
        ProcedurePropertyView {
            binding: BindingView {
                coordinate: self.coordinate@,
                key_position: self.key_position,
                operator: self.operator@,
                procedure: self.procedure@,
            },
            property: optional_type_views(self.transform_types),
        }
    }
}

impl TransformTypesEntry {
    /// Records the issued transform types of one binding.
    pub fn new(
        coordinate: IndexExclusionConstraintCoordinate,
        key_position: u32,
        operator: QualifiedOperatorSignature,
        procedure: QualifiedProcedureSignature,
        transform_types: Option<Vec<QualifiedTypeName>>,
    ) -> (e: Self)
        ensures
            e@ == (ProcedurePropertyView {
                binding: BindingView {
                    coordinate: coordinate@,
                    key_position,
                    operator: operator@,
                    procedure: procedure@,
                },
                property: optional_type_views(transform_types),
            }),
    {
        TransformTypesEntry { coordinate, key_position, operator, procedure, transform_types }
    }

    /// Returns the selected transform types in their issued order, or `None` when the function
    /// selects none.
    pub fn transform_types(&self) -> (t: Option<&[QualifiedTypeName]>)
        ensures
            match t {
                Some(s) => self@.property == Some(type_views(s@)),
                None => self@.property is None,
            },
    {
        match &self.transform_types {
            Some(v) => Some(v.as_slice()),
            None => None,
        }
    }
}

/// Framing of issued transform types: tag 0 for none, else tag 1 and the types in order.
pub open spec fn frame_optional_types(t: Option<Seq<QualifiedNameView>>) -> Seq<u8> {
    match t {
        Some(s) => seq![1u8] + frame_types(s),
        None => seq![0u8],
    }
}

impl ProcedureBound for TransformTypesEntry {
    open spec fn binding(&self) -> BindingView {
        self@.binding
    }

    open spec fn property_frame(&self) -> Seq<u8> {
        frame_optional_types(self@.property)
    }

    fn binding_coordinate(&self) -> (c: &IndexExclusionConstraintCoordinate) {
        &self.coordinate
    }

    fn binding_key_position(&self) -> (p: u32) {
        self.key_position
    }

    fn binding_operator(&self) -> (o: &QualifiedOperatorSignature) {
        &self.operator
    }

    fn binding_procedure(&self) -> (p: &QualifiedProcedureSignature) {
        &self.procedure
    }

    fn put_property(&self, out: &mut Vec<u8>) {
        match &self.transform_types {
            Some(v) => {
                put_tag(out, 1u8);
                put_types(out, v.as_slice());
                proof {
                    assert(final(out)@ =~= old(out)@ + frame_optional_types(self@.property));
                }
            },
            None => {
                put_tag(out, 0u8);
                proof {
                    assert(final(out)@ =~= old(out)@ + frame_optional_types(self@.property));
                }
            },
        }
    }
}

/// An issued transform-type layer: its provenance, its digest and its entries.
#[derive(Debug, PartialEq, Eq)]
pub struct IssuedTransformTypes {
    source_connection_key: String,
    connection_policy_binding: String,
    snapshot_digest: String,
    extractor_revision: String,
    observed_at_utc: String,
    entries: Vec<TransformTypesEntry>,
}

impl IssuedTransformTypes {
    /// The provenance and digest of this layer.
    pub closed spec fn lineage(&self) -> LineageView {
        LineageView {
            source_connection_key: self.source_connection_key@,
            connection_policy_binding: self.connection_policy_binding@,
            snapshot_digest: self.snapshot_digest@,
            extractor_revision: self.extractor_revision@,
            observed_at_utc: self.observed_at_utc@,
        }
    }

    /// The entries of this layer, in the order given.
    pub closed spec fn entry_values(&self) -> Seq<TransformTypesEntry> {
        self.entries@
    }

    /// Records an issued transform-type layer.
    pub fn new(
        source_connection_key: &str,
        connection_policy_binding: &str,
        snapshot_digest: &str,
        extractor_revision: &str,
        observed_at_utc: &str,
        entries: Vec<TransformTypesEntry>,
    ) -> (s: Self)
        ensures
            s.lineage() == (LineageView {
                source_connection_key: source_connection_key@,
                connection_policy_binding: connection_policy_binding@,
                snapshot_digest: snapshot_digest@,
                extractor_revision: extractor_revision@,
                observed_at_utc: observed_at_utc@,
            }),
            s.entry_values() == entries@,
    {
        IssuedTransformTypes {
            source_connection_key: source_connection_key.to_owned(),
            connection_policy_binding: connection_policy_binding.to_owned(),
            snapshot_digest: snapshot_digest.to_owned(),
            extractor_revision: extractor_revision.to_owned(),
            observed_at_utc: observed_at_utc.to_owned(),
            entries,
        }
    }

    /// Returns the stable source registry key.
    pub fn source_connection_key(&self) -> (s: &str)
        ensures
            s@ == self.lineage().source_connection_key,
    {
        self.source_connection_key.as_str()
    }

    /// Returns the immutable connection-policy binding.
    pub fn connection_policy_binding(&self) -> (s: &str)
        ensures
            s@ == self.lineage().connection_policy_binding,
    {
        self.connection_policy_binding.as_str()
    }

    /// Returns the issued digest.
    pub fn snapshot_digest(&self) -> (s: &str)
        ensures
            s@ == self.lineage().snapshot_digest,
    {
        self.snapshot_digest.as_str()
    }

    /// Returns the exact extractor revision.
    pub fn extractor_revision(&self) -> (s: &str)
        ensures
            s@ == self.lineage().extractor_revision,
    {
        self.extractor_revision.as_str()
    }

    /// Returns the exact canonical observation time.
    pub fn observed_at_utc(&self) -> (s: &str)
        ensures
            s@ == self.lineage().observed_at_utc,
    {
        self.observed_at_utc.as_str()
    }

    /// Returns the entries in the order given.
    pub fn entries(&self) -> (e: &[TransformTypesEntry])
        ensures
            e@ == self.entry_values(),
    {
        self.entries.as_slice()
    }
}

} // verus!
