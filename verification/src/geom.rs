//! Planar points in integer coordinates.
//!
//! All geometry in this crate lives on an integer grid: a coordinate is a
//! number of grid units (for a font, its native design units, or any uniform
//! scaling of them that the caller chooses). Coordinates are kept within
//! `COORD_MAX` so that every intermediate of curve subdivision fits in `i64`.
use vstd::prelude::*;

verus! {

/// Largest coordinate magnitude the pipeline accepts.
pub const COORD_MAX: i64 = 0x100_0000_0000;

/// A point on the integer grid.
#[derive(Clone, Copy, PartialEq, Eq, Structural, Debug)]
pub struct Pt {
    pub x: i64,
    pub y: i64,
}

/// Both coordinates of `p` are within `COORD_MAX`.
pub open spec fn pt_in_range(p: Pt) -> bool {
    -COORD_MAX <= p.x <= COORD_MAX && -COORD_MAX <= p.y <= COORD_MAX
}

/// The midpoint of two coordinates, rounded toward negative infinity.
pub open spec fn spec_mid(a: i64, b: i64) -> i64 {
    (((a + b) / 2) as i64)
}

/// Computes `spec_mid` executably.
pub fn mid(a: i64, b: i64) -> (r: i64)
    requires
        -COORD_MAX <= a <= COORD_MAX,
        -COORD_MAX <= b <= COORD_MAX,
    ensures
        r == spec_mid(a, b),
        -COORD_MAX <= r <= COORD_MAX,
{
    let s: i64 = a + b;
    if s >= 0 {
        s / 2
    } else {
        (s - 1) / 2
    }
}

/// The midpoint of two points, componentwise.
pub open spec fn spec_mid_pt(a: Pt, b: Pt) -> Pt {
    Pt { x: spec_mid(a.x, b.x), y: spec_mid(a.y, b.y) }
}

/// Computes `spec_mid_pt` executably.
pub fn mid_pt(a: Pt, b: Pt) -> (r: Pt)
    requires
        pt_in_range(a),
        pt_in_range(b),
    ensures
        r == spec_mid_pt(a, b),
        pt_in_range(r),
{
    Pt { x: mid(a.x, b.x), y: mid(a.y, b.y) }
}

} // verus!
