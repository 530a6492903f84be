//! Issued exclusion-constraint timing evidence.
//!
//! The timing layer records, for each exclusion constraint of an issued constraint snapshot,
//! `pg_constraint.condeferrable` and `condeferred`. Its successors read it as issued: its
//! provenance, its digest and its per-constraint timing.

use vstd::prelude::*;

use crate::catalog::LineageView;
use crate::constraint_property::{ConstraintBound, ConstraintPropertyView};
use crate::digest::{frame_bool, put_bool};
use crate::exclusion_constraint::IndexExclusionConstraintCoordinate;

verus! {

/// The timing of one constraint: `condeferrable` and `condeferred`.
pub struct TimingView {
    pub deferrable: bool,
    pub initially_deferred: bool,
}

/// Issued timing of one exclusion constraint.
#[derive(Debug, PartialEq, Eq)]
pub struct ConstraintTiming {
    coordinate: IndexExclusionConstraintCoordinate,
    deferrable: bool,
    initially_deferred: bool,
}

impl View for ConstraintTiming {
    type V = ConstraintPropertyView<TimingView>;

    closed spec fn view(&self) -> ConstraintPropertyView<TimingView> {
        ConstraintPropertyView {
            coordinate: self.coordinate@,
            property: TimingView { deferrable: self.deferrable, initially_deferred: self.initially_deferred },
        }
    }
}

impl ConstraintTiming {
    /// Records the issued timing of one exclusion constraint.
    pub fn new(coordinate: IndexExclusionConstraintCoordinate, deferrable: bool, initially_deferred: bool) -> (t: Self)
        ensures
            t@ == (ConstraintPropertyView {
                coordinate: coordinate@,
                property: TimingView { deferrable, initially_deferred },
            }),
    {
        ConstraintTiming { coordinate, deferrable, initially_deferred }
    }

    /// Returns the exclusion-constraint coordinate.
    pub fn coordinate(&self) -> (c: &IndexExclusionConstraintCoordinate)
        ensures
            c@ == self@.coordinate,
    {
        &self.coordinate
    }

    /// Returns `pg_constraint.condeferrable`.
    pub fn deferrable(&self) -> (b: bool)
        ensures
            b == self@.property.deferrable,
    {
        self.deferrable
    }

    /// Returns `pg_constraint.condeferred`.
    pub fn initially_deferred(&self) -> (b: bool)
        ensures
            b == self@.property.initially_deferred,
    {
        self.initially_deferred
    }
}

impl ConstraintBound for ConstraintTiming {
    open spec fn bound_constraint(&self) -> crate::catalog::ConstraintCoordinateView {
        self@.coordinate
    }

    open spec fn constraint_property_frame(&self) -> Seq<u8> {
        frame_bool(self@.property.deferrable) + frame_bool(self@.property.initially_deferred)
    }

    fn constraint_coordinate(&self) -> (c: &IndexExclusionConstraintCoordinate) {
        &self.coordinate
    }

    fn put_constraint_property(&self, out: &mut Vec<u8>) {
        put_bool(out, self.deferrable);
        put_bool(out, self.initially_deferred);
        assert(final(out)@ =~= old(out)@ + (frame_bool(self@.property.deferrable) + frame_bool(
            self@.property.initially_deferred,
        )));
    }
}

/// Issued exclusion-constraint timing evidence: provenance, digest and per-constraint timing in
/// constraint order.
#[derive(Debug, PartialEq, Eq)]
pub struct IssuedConstraintTiming {
    source_connection_key: String,
    connection_policy_binding: String,
    snapshot_digest: String,
    extractor_revision: String,
    observed_at_utc: String,
    timings: Vec<ConstraintTiming>,
}

impl IssuedConstraintTiming {
    /// The provenance and digest of this evidence.
    pub closed spec fn lineage(&self) -> LineageView {
        LineageView {
            source_connection_key: self.source_connection_key@,
            connection_policy_binding: self.connection_policy_binding@,
            snapshot_digest: self.snapshot_digest@,
            extractor_revision: self.extractor_revision@,
            observed_at_utc: self.observed_at_utc@,
        }
    }

    /// The timings held, in the order issued.
    pub closed spec fn entries(&self) -> Seq<ConstraintTiming> {
        self.timings@
    }

    /// Records issued timing evidence.
    pub fn new(
        source_connection_key: &str,
        connection_policy_binding: &str,
        snapshot_digest: &str,
        extractor_revision: &str,
        observed_at_utc: &str,
        timings: Vec<ConstraintTiming>,
    ) -> (s: Self)
        ensures
            s.lineage() == (LineageView {
                source_connection_key: source_connection_key@,
                connection_policy_binding: connection_policy_binding@,
                snapshot_digest: snapshot_digest@,
                extractor_revision: extractor_revision@,
                observed_at_utc: observed_at_utc@,
            }),
            s.entries() == timings@,
    {
        IssuedConstraintTiming {
            source_connection_key: source_connection_key.to_owned(),
            connection_policy_binding: connection_policy_binding.to_owned(),
            snapshot_digest: snapshot_digest.to_owned(),
            extractor_revision: extractor_revision.to_owned(),
            observed_at_utc: observed_at_utc.to_owned(),
            timings,
        }
    }

    /// Returns the stable source registry key.
    pub fn source_connection_key(&self) -> (s: &str)
        ensures
            s@ == self.lineage().source_connection_key,
    {
        self.source_connection_key.as_str()
    }

    /// Returns the immutable connection-policy binding.
    pub fn connection_policy_binding(&self) -> (s: &str)
        ensures
            s@ == self.lineage().connection_policy_binding,
    {
        self.connection_policy_binding.as_str()
    }

    /// Returns the issued digest.
    pub fn snapshot_digest(&self) -> (s: &str)
        ensures
            s@ == self.lineage().snapshot_digest,
    {
        self.snapshot_digest.as_str()
    }

    /// Returns the exact extractor revision.
    pub fn extractor_revision(&self) -> (s: &str)
        ensures
            s@ == self.lineage().extractor_revision,
    {
        self.extractor_revision.as_str()
    }

    /// Returns the exact canonical observation time.
    pub fn observed_at_utc(&self) -> (s: &str)
        ensures
            s@ == self.lineage().observed_at_utc,
    {
        self.observed_at_utc.as_str()
    }

    /// Returns the timings in the order issued.
    pub fn timings(&self) -> (t: &[ConstraintTiming])
        ensures
            t@ == self.entries(),
    {
        self.timings.as_slice()
    }
}

} // verus!
