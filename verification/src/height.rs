//! Translation of a block-height range into the node's flat
//! `min_height`/`max_height`/`filter_by_height` trio.
//!
//! The node's `min_height` is exclusive while its `max_height` is inclusive;
//! this asymmetry is the translation's central invariant. The flag is set
//! whenever the range-filter path is taken at all, even when neither bound
//! resolves to a concrete value.

use vstd::prelude::*;

verus! {

/// One end of a height range.
#[derive(Clone, Copy, Debug, PartialEq, Eq, Structural)]
pub enum HeightBound {
    Included(u64),
    Excluded(u64),
    Unbounded,
}

/// A caller-supplied range of block heights.
#[derive(Clone, Copy, Debug, PartialEq, Eq, Structural)]
pub struct HeightRange {
    pub start: HeightBound,
    pub end: HeightBound,
}

/// The node's flat encoding of a height filter.
#[derive(Clone, Copy, Debug, PartialEq, Eq, Structural)]
pub struct HeightFilter {
    pub filter_by_height: bool,
    pub min_height: Option<u64>,
    pub max_height: Option<u64>,
}

/// The node's exclusive lower bound for a range start: an included start
/// steps down by one, an excluded start passes through, an unbounded start
/// emits nothing.
pub open spec fn spec_min_height(b: HeightBound) -> Option<u64> {
    match b {
        HeightBound::Included(h) => Some((h - 1) as u64),
        HeightBound::Excluded(h) => Some(h),
        HeightBound::Unbounded => None,
    }
}

/// The node's inclusive upper bound for a range end: an included end passes
/// through, an excluded end steps down by one saturating at zero, an
/// unbounded end emits nothing.
pub open spec fn spec_max_height(b: HeightBound) -> Option<u64> {
    match b {
        HeightBound::Included(h) => Some(h),
        HeightBound::Excluded(h) => Some(if h == 0 { 0u64 } else { (h - 1) as u64 }),
        HeightBound::Unbounded => None,
    }
}

/// Translate a height range into the node's flat trio. A range starting at
/// an included height of zero has no node encoding, since the node's lower
/// bound is exclusive.
pub fn translate_height_range(r: HeightRange) -> (f: HeightFilter)
    requires
        r.start != HeightBound::Included(0),
    ensures
        f.filter_by_height,
        f.min_height == spec_min_height(r.start),
        f.max_height == spec_max_height(r.end),
{
    let min_height = match r.start {
        HeightBound::Included(h) => Some(h - 1),
        HeightBound::Excluded(h) => Some(h),
        HeightBound::Unbounded => None,
    };
    let max_height = match r.end {
        HeightBound::Included(h) => Some(h),
        HeightBound::Excluded(h) => Some(if h == 0 { 0 } else { h - 1 }),
        HeightBound::Unbounded => None,
    };
    HeightFilter { filter_by_height: true, min_height, max_height }
}

} // verus!
