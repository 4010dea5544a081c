//! Source positions and spans.
//!
//! A [`Location`] identifies a single position in source text by its byte
//! offset; locations are totally ordered by that offset. A [`SourceLocation`]
//! is a span between two locations. Both are immutable values: once created
//! they are only copied, never changed.

use vstd::prelude::*;

verus! {

/// A position in source text, identified by its offset from the start.
///
/// Locations are totally ordered by offset; see [`Location::precedes`].
#[derive(Clone, Copy, Debug, PartialEq, Eq, Structural)]
pub struct Location {
    pub offset: usize,
}

impl Location {
    /// Builds the location at the given source offset.
    pub fn new(offset: usize) -> (r: Location)
        ensures
            r.offset == offset,
    {
        Location { offset }
    }

    /// Whether this location comes no later than `other` in source order.
    pub fn precedes(&self, other: &Location) -> (r: bool)
        ensures
            r == (self.offset <= other.offset),
    {
        self.offset <= other.offset
    }
}

/// The order on locations is total: reflexive, antisymmetric, transitive,
/// and any two locations are comparable.
pub proof fn lemma_location_order_total(a: Location, b: Location, c: Location)
    ensures
        a.offset <= a.offset,
        a.offset <= b.offset && b.offset <= a.offset ==> a == b,
        a.offset <= b.offset && b.offset <= c.offset ==> a.offset <= c.offset,
        a.offset <= b.offset || b.offset <= a.offset,
{
}

/// A span of source text, from `start` to `end` inclusive of the first and
/// exclusive of the second, in the usual half-open convention.
#[derive(Clone, Copy, Debug, PartialEq, Eq, Structural)]
pub struct SourceLocation {
    pub start: Location,
    pub end: Location,
}

impl SourceLocation {
    /// A span is well formed when its start does not come after its end.
    pub open spec fn well_formed(self) -> bool {
        self.start.offset <= self.end.offset
    }

    /// Builds the span from `start` to `end`.
    pub fn new(start: Location, end: Location) -> (r: SourceLocation)
        requires
            start.offset <= end.offset,
        ensures
            r.start == start,
            r.end == end,
            r.well_formed(),
    {
        SourceLocation { start, end }
    }
}

} // verus!
