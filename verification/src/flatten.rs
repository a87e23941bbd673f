//! Curve flattening: subdividing quadratic and cubic Bezier segments into
//! polylines whose deviation from the true curve is bounded by a tolerance.
//!
//! A segment is split at its midpoint (de Casteljau) until its control points
//! deviate from the chord by at most four times the tolerance componentwise —
//! a quadratic curve stays within a quarter of that deviation of its chord —
//! or until a fixed subdivision depth is reached, which keeps degenerate
//! segments terminating. The emitted points start strictly after the
//! segment's start point (the caller has already emitted it) and always end
//! with the segment's end point.
use vstd::prelude::*;

use crate::geom::Pt;
use crate::geom::mid_pt;
use crate::geom::pt_in_range;
use crate::geom::spec_mid_pt;

verus! {

/// How many times a segment is subdivided at most.
pub const MAX_DEPTH: u32 = 16;

/// The quadratic segment's control point deviates from the chord by at most
/// `4 * tol` in each coordinate.
pub open spec fn quad_flat_enough(p0: Pt, p1: Pt, p2: Pt, tol: u32) -> bool {
    let dx = 2 * p1.x - p0.x - p2.x;
    let dy = 2 * p1.y - p0.y - p2.y;
    -4 * tol <= dx <= 4 * tol && -4 * tol <= dy <= 4 * tol
}

/// Both control points of the cubic segment deviate from the chord by at most
/// `4 * tol` in each coordinate.
pub open spec fn cubic_flat_enough(p0: Pt, p1: Pt, p2: Pt, p3: Pt, tol: u32) -> bool {
    let d1x = 3 * p1.x - 2 * p0.x - p3.x;
    let d1y = 3 * p1.y - 2 * p0.y - p3.y;
    let d2x = 3 * p2.x - 2 * p3.x - p0.x;
    let d2y = 3 * p2.y - 2 * p3.y - p0.y;
    -4 * tol <= d1x <= 4 * tol && -4 * tol <= d1y <= 4 * tol && -4 * tol <= d2x <= 4 * tol
        && -4 * tol <= d2y <= 4 * tol
}

/// The points a quadratic segment flattens to, the start point excluded.
pub open spec fn spec_flatten_quad(p0: Pt, p1: Pt, p2: Pt, tol: u32, depth: u32) -> Seq<Pt>
    decreases depth,
{
    if depth == 0 || quad_flat_enough(p0, p1, p2, tol) {
        seq![p2]
    } else {
        let m01 = spec_mid_pt(p0, p1);
        let m12 = spec_mid_pt(p1, p2);
        let m = spec_mid_pt(m01, m12);
        spec_flatten_quad(p0, m01, m, tol, (depth - 1) as u32) + spec_flatten_quad(
            m,
            m12,
            p2,
            tol,
            (depth - 1) as u32,
        )
    }
}

/// The points a cubic segment flattens to, the start point excluded.
pub open spec fn spec_flatten_cubic(p0: Pt, p1: Pt, p2: Pt, p3: Pt, tol: u32, depth: u32) -> Seq<
    Pt,
>
    decreases depth,
{
    if depth == 0 || cubic_flat_enough(p0, p1, p2, p3, tol) {
        seq![p3]
    } else {
        let m01 = spec_mid_pt(p0, p1);
        let m12 = spec_mid_pt(p1, p2);
        let m23 = spec_mid_pt(p2, p3);
        let m012 = spec_mid_pt(m01, m12);
        let m123 = spec_mid_pt(m12, m23);
        let m = spec_mid_pt(m012, m123);
        spec_flatten_cubic(p0, m01, m012, m, tol, (depth - 1) as u32) + spec_flatten_cubic(
            m,
            m123,
            m23,
            p3,
            tol,
            (depth - 1) as u32,
        )
    }
}

fn quad_flat(p0: Pt, p1: Pt, p2: Pt, tol: u32) -> (r: bool)
    requires
        pt_in_range(p0),
        pt_in_range(p1),
        pt_in_range(p2),
    ensures
        r == quad_flat_enough(p0, p1, p2, tol),
{
    let dx: i64 = 2 * p1.x - p0.x - p2.x;
    let dy: i64 = 2 * p1.y - p0.y - p2.y;
    let t: i64 = 4 * (tol as i64);
    -t <= dx && dx <= t && -t <= dy && dy <= t
}

fn cubic_flat(p0: Pt, p1: Pt, p2: Pt, p3: Pt, tol: u32) -> (r: bool)
    requires
        pt_in_range(p0),
        pt_in_range(p1),
        pt_in_range(p2),
        pt_in_range(p3),
    ensures
        r == cubic_flat_enough(p0, p1, p2, p3, tol),
{
    let d1x: i64 = 3 * p1.x - 2 * p0.x - p3.x;
    let d1y: i64 = 3 * p1.y - 2 * p0.y - p3.y;
    let d2x: i64 = 3 * p2.x - 2 * p3.x - p0.x;
    let d2y: i64 = 3 * p2.y - 2 * p3.y - p0.y;
    let t: i64 = 4 * (tol as i64);
    -t <= d1x && d1x <= t && -t <= d1y && d1y <= t && -t <= d2x && d2x <= t && -t <= d2y && d2y
        <= t
}

fn flatten_quad_rec(p0: Pt, p1: Pt, p2: Pt, tol: u32, depth: u32, out: &mut Vec<Pt>)
    requires
        pt_in_range(p0),
        pt_in_range(p1),
        pt_in_range(p2),
    ensures
        final(out)@ == old(out)@ + spec_flatten_quad(p0, p1, p2, tol, depth),
    decreases depth,
{
    if depth == 0 || quad_flat(p0, p1, p2, tol) {
        out.push(p2);
    } else {
        let m01 = mid_pt(p0, p1);
        let m12 = mid_pt(p1, p2);
        let m = mid_pt(m01, m12);
        flatten_quad_rec(p0, m01, m, tol, depth - 1, out);
        flatten_quad_rec(m, m12, p2, tol, depth - 1, out);
    }
}

fn flatten_cubic_rec(p0: Pt, p1: Pt, p2: Pt, p3: Pt, tol: u32, depth: u32, out: &mut Vec<Pt>)
    requires
        pt_in_range(p0),
        pt_in_range(p1),
        pt_in_range(p2),
        pt_in_range(p3),
    ensures
        final(out)@ == old(out)@ + spec_flatten_cubic(p0, p1, p2, p3, tol, depth),
    decreases depth,
{
    if depth == 0 || cubic_flat(p0, p1, p2, p3, tol) {
        out.push(p3);
    } else {
        let m01 = mid_pt(p0, p1);
        let m12 = mid_pt(p1, p2);
        let m23 = mid_pt(p2, p3);
        let m012 = mid_pt(m01, m12);
        let m123 = mid_pt(m12, m23);
        let m = mid_pt(m012, m123);
        flatten_cubic_rec(p0, m01, m012, m, tol, depth - 1, out);
        flatten_cubic_rec(m, m123, m23, p3, tol, depth - 1, out);
    }
}

/// Flattens a quadratic Bezier segment, appending every emitted point to
/// `out`: the start point is never re-emitted, the segment's end point always
/// is, last.
pub fn flatten_quad(p0: Pt, p1: Pt, p2: Pt, tol: u32, out: &mut Vec<Pt>)
    requires
        pt_in_range(p0),
        pt_in_range(p1),
        pt_in_range(p2),
        tol >= 1,
    ensures
        final(out)@ == old(out)@ + spec_flatten_quad(p0, p1, p2, tol, MAX_DEPTH),
        final(out)@.len() > old(out)@.len(),
        final(out)@.last() == p2,
{
    flatten_quad_rec(p0, p1, p2, tol, MAX_DEPTH, out);
    proof {
        lemma_flatten_quad_len(p0, p1, p2, tol, MAX_DEPTH);
        lemma_flatten_quad_last(p0, p1, p2, tol, MAX_DEPTH);
    }
}

/// Flattens a cubic Bezier segment, appending every emitted point to `out`:
/// the start point is never re-emitted, the segment's end point always is,
/// last.
pub fn flatten_cubic(p0: Pt, p1: Pt, p2: Pt, p3: Pt, tol: u32, out: &mut Vec<Pt>)
    requires
        pt_in_range(p0),
        pt_in_range(p1),
        pt_in_range(p2),
        pt_in_range(p3),
        tol >= 1,
    ensures
        final(out)@ == old(out)@ + spec_flatten_cubic(p0, p1, p2, p3, tol, MAX_DEPTH),
        final(out)@.len() > old(out)@.len(),
        final(out)@.last() == p3,
{
    flatten_cubic_rec(p0, p1, p2, p3, tol, MAX_DEPTH, out);
    proof {
        lemma_flatten_cubic_len(p0, p1, p2, p3, tol, MAX_DEPTH);
        lemma_flatten_cubic_last(p0, p1, p2, p3, tol, MAX_DEPTH);
    }
}

/// Flattening a quadratic segment emits at least one point.
pub proof fn lemma_flatten_quad_len(p0: Pt, p1: Pt, p2: Pt, tol: u32, depth: u32)
    ensures
        spec_flatten_quad(p0, p1, p2, tol, depth).len() >= 1,
    decreases depth,
{
    if !(depth == 0 || quad_flat_enough(p0, p1, p2, tol)) {
        let m01 = spec_mid_pt(p0, p1);
        let m12 = spec_mid_pt(p1, p2);
        let m = spec_mid_pt(m01, m12);
        lemma_flatten_quad_len(p0, m01, m, tol, (depth - 1) as u32);
        lemma_flatten_quad_len(m, m12, p2, tol, (depth - 1) as u32);
    }
}

/// Flattening a quadratic segment always ends at the segment's end point.
pub proof fn lemma_flatten_quad_last(p0: Pt, p1: Pt, p2: Pt, tol: u32, depth: u32)
    ensures
        spec_flatten_quad(p0, p1, p2, tol, depth).last() == p2,
    decreases depth,
{
    if !(depth == 0 || quad_flat_enough(p0, p1, p2, tol)) {
        let m01 = spec_mid_pt(p0, p1);
        let m12 = spec_mid_pt(p1, p2);
        let m = spec_mid_pt(m01, m12);
        lemma_flatten_quad_len(m, m12, p2, tol, (depth - 1) as u32);
        lemma_flatten_quad_last(m, m12, p2, tol, (depth - 1) as u32);
    }
}

/// Flattening a cubic segment emits at least one point.
pub proof fn lemma_flatten_cubic_len(p0: Pt, p1: Pt, p2: Pt, p3: Pt, tol: u32, depth: u32)
    ensures
        spec_flatten_cubic(p0, p1, p2, p3, tol, depth).len() >= 1,
    decreases depth,
{
    if !(depth == 0 || cubic_flat_enough(p0, p1, p2, p3, tol)) {
        let m01 = spec_mid_pt(p0, p1);
        let m12 = spec_mid_pt(p1, p2);
        let m23 = spec_mid_pt(p2, p3);
        let m012 = spec_mid_pt(m01, m12);
        let m123 = spec_mid_pt(m12, m23);
        let m = spec_mid_pt(m012, m123);
        lemma_flatten_cubic_len(p0, m01, m012, m, tol, (depth - 1) as u32);
        lemma_flatten_cubic_len(m, m123, m23, p3, tol, (depth - 1) as u32);
    }
}

/// Flattening a cubic segment always ends at the segment's end point.
pub proof fn lemma_flatten_cubic_last(p0: Pt, p1: Pt, p2: Pt, p3: Pt, tol: u32, depth: u32)
    ensures
        spec_flatten_cubic(p0, p1, p2, p3, tol, depth).last() == p3,
    decreases depth,
{
    if !(depth == 0 || cubic_flat_enough(p0, p1, p2, p3, tol)) {
        let m01 = spec_mid_pt(p0, p1);
        let m12 = spec_mid_pt(p1, p2);
        let m23 = spec_mid_pt(p2, p3);
        let m012 = spec_mid_pt(m01, m12);
        let m123 = spec_mid_pt(m12, m23);
        let m = spec_mid_pt(m012, m123);
        lemma_flatten_cubic_len(m, m123, m23, p3, tol, (depth - 1) as u32);
        lemma_flatten_cubic_last(m, m123, m23, p3, tol, (depth - 1) as u32);
    }
}

/// Law: a finer tolerance never yields fewer flattened points for a quadratic
/// segment.
pub proof fn lemma_flatten_quad_tolerance_monotone(
    p0: Pt,
    p1: Pt,
    p2: Pt,
    fine: u32,
    coarse: u32,
    depth: u32,
)
    requires
        fine <= coarse,
    ensures
        spec_flatten_quad(p0, p1, p2, fine, depth).len() >= spec_flatten_quad(
            p0,
            p1,
            p2,
            coarse,
            depth,
        ).len(),
    decreases depth,
{
    if depth == 0 || quad_flat_enough(p0, p1, p2, fine) {
    } else {
        let m01 = spec_mid_pt(p0, p1);
        let m12 = spec_mid_pt(p1, p2);
        let m = spec_mid_pt(m01, m12);
        if quad_flat_enough(p0, p1, p2, coarse) {
            lemma_flatten_quad_len(p0, m01, m, fine, (depth - 1) as u32);
            lemma_flatten_quad_len(m, m12, p2, fine, (depth - 1) as u32);
        } else {
            lemma_flatten_quad_tolerance_monotone(p0, m01, m, fine, coarse, (depth - 1) as u32);
            lemma_flatten_quad_tolerance_monotone(m, m12, p2, fine, coarse, (depth - 1) as u32);
        }
    }
}

/// Law: a finer tolerance never yields fewer flattened points for a cubic
/// segment.
pub proof fn lemma_flatten_cubic_tolerance_monotone(
    p0: Pt,
    p1: Pt,
    p2: Pt,
    p3: Pt,
    fine: u32,
    coarse: u32,
    depth: u32,
)
    requires
        fine <= coarse,
    ensures
        spec_flatten_cubic(p0, p1, p2, p3, fine, depth).len() >= spec_flatten_cubic(
            p0,
            p1,
            p2,
            p3,
            coarse,
            depth,
        ).len(),
    decreases depth,
{
    if depth == 0 || cubic_flat_enough(p0, p1, p2, p3, fine) {
    } else {
        let m01 = spec_mid_pt(p0, p1);
        let m12 = spec_mid_pt(p1, p2);
        let m23 = spec_mid_pt(p2, p3);
        let m012 = spec_mid_pt(m01, m12);
        let m123 = spec_mid_pt(m12, m23);
        let m = spec_mid_pt(m012, m123);
        if cubic_flat_enough(p0, p1, p2, p3, coarse) {
            lemma_flatten_cubic_len(p0, m01, m012, m, fine, (depth - 1) as u32);
            lemma_flatten_cubic_len(m, m123, m23, p3, fine, (depth - 1) as u32);
        } else {
            lemma_flatten_cubic_tolerance_monotone(
                p0,
                m01,
                m012,
                m,
                fine,
                coarse,
                (depth - 1) as u32,
            );
            lemma_flatten_cubic_tolerance_monotone(
                m,
                m123,
                m23,
                p3,
                fine,
                coarse,
                (depth - 1) as u32,
            );
        }
    }
}

} // verus!
