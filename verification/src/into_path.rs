//! Reading the collected path out as flattened, tagged polylines.
//!
//! The events are walked in order: a Begin or Line emits its point, a curve
//! is flattened from the previously emitted point and every produced point is
//! emitted, an End emits nothing and moves to the next sub-path id. Every
//! emitted point carries the glyph id its event was tagged with and the
//! sub-path id current when it was emitted, so downstream consumers can
//! select geometry per glyph and per contour.
use vstd::prelude::*;

use crate::builder::LyonPathBuilder;
use crate::builder::PathEvent;
use crate::builder::event_in_range;
use crate::flatten::MAX_DEPTH;
use crate::flatten::flatten_cubic;
use crate::flatten::flatten_quad;
use crate::flatten::lemma_flatten_cubic_tolerance_monotone;
use crate::flatten::lemma_flatten_quad_tolerance_monotone;
use crate::flatten::spec_flatten_cubic;
use crate::flatten::spec_flatten_quad;
use crate::geom::Pt;
use crate::geom::pt_in_range;

verus! {

/// Where a walk of the path starts from.
pub open spec fn origin() -> Pt {
    Pt { x: 0, y: 0 }
}

/// The points of `ps` tagged with a glyph id and a sub-path id.
pub open spec fn tag_pts(ps: Seq<Pt>, g: u32, pid: u32) -> Seq<(Pt, u32, u32)> {
    ps.map_values(|p: Pt| (p, g, pid))
}

/// The rows emitted from event `i` onward, where `pid` is the sub-path id
/// reached so far and `last` the point the walk stands on.
pub open spec fn spec_rows_from(
    events: Seq<PathEvent>,
    gids: Seq<u32>,
    tol: u32,
    i: int,
    pid: u32,
    last: Pt,
) -> Seq<(Pt, u32, u32)>
    decreases events.len() - i,
{
    if i < 0 || i >= events.len() {
        Seq::empty()
    } else {
        let g = gids[i];
        match events[i] {
            PathEvent::Begin { at } => seq![(at, g, pid)] + spec_rows_from(
                events,
                gids,
                tol,
                i + 1,
                pid,
                at,
            ),
            PathEvent::Line { to } => seq![(to, g, pid)] + spec_rows_from(
                events,
                gids,
                tol,
                i + 1,
                pid,
                to,
            ),
            PathEvent::Quadratic { ctrl, to } => tag_pts(
                spec_flatten_quad(last, ctrl, to, tol, MAX_DEPTH),
                g,
                pid,
            ) + spec_rows_from(events, gids, tol, i + 1, pid, to),
            PathEvent::Cubic { ctrl1, ctrl2, to } => tag_pts(
                spec_flatten_cubic(last, ctrl1, ctrl2, to, tol, MAX_DEPTH),
                g,
                pid,
            ) + spec_rows_from(events, gids, tol, i + 1, pid, to),
            PathEvent::End { .. } => spec_rows_from(
                events,
                gids,
                tol,
                i + 1,
                ((pid + 1) as u32),
                last,
            ),
        }
    }
}

/// Every output row of reading the builder's path out.
pub open spec fn spec_into_path(b: LyonPathBuilder) -> Seq<(Pt, u32, u32)> {
    spec_rows_from(b.events@, b.glyph_ids@, b.tolerance, 0, 0u32, origin())
}

impl LyonPathBuilder {
    /// Consumes the builder and walks its path into four index-aligned
    /// arrays: x and y coordinates, glyph ids, and sub-path ids, one entry
    /// per flattened point.
    pub fn into_path(self) -> (r: (Vec<i64>, Vec<i64>, Vec<u32>, Vec<u32>))
        requires
            self.wf(),
            self.events@.len() < u32::MAX,
        ensures
            ({
                let rows = spec_into_path(self);
                &&& r.0@.len() == rows.len()
                &&& r.1@.len() == rows.len()
                &&& r.2@.len() == rows.len()
                &&& r.3@.len() == rows.len()
                &&& forall|j: int|
                    0 <= j < rows.len() ==> r.0@[j] == rows[j].0.x && r.1@[j] == rows[j].0.y
                        && r.2@[j] == rows[j].1 && r.3@[j] == rows[j].2
            }),
    {
        let ghost events = self.events@;
        let ghost gids = self.glyph_ids@;
        let tol: u32 = self.tolerance;
        let mut rows: Vec<(Pt, u32, u32)> = Vec::new();
        let mut pid: u32 = 0;
        let mut last: Pt = Pt { x: 0, y: 0 };
        let mut i: usize = 0;
        let n: usize = self.events.len();
        while i < n
            invariant
                0 <= i <= n,
                n == events.len(),
                n < u32::MAX,
                self.events@ == events,
                self.glyph_ids@ == gids,
                self.wf(),
                tol == self.tolerance,
                pid <= i,
                pt_in_range(last),
                spec_into_path(self) == rows@ + spec_rows_from(
                    events,
                    gids,
                    tol,
                    i as int,
                    pid,
                    last,
                ),
            decreases n - i,
        {
            let g: u32 = self.glyph_ids[i];
            assert(event_in_range(events[i as int]));
            match self.events[i] {
                PathEvent::Begin { at } => {
                    rows.push((at, g, pid));
                    proof {
                        assert(rows@ =~= rows@.subrange(0, rows@.len() - 1) + seq![(at, g, pid)]);
                    }
                    last = at;
                },
                PathEvent::Line { to } => {
                    rows.push((to, g, pid));
                    proof {
                        assert(rows@ =~= rows@.subrange(0, rows@.len() - 1) + seq![(to, g, pid)]);
                    }
                    last = to;
                },
                PathEvent::Quadratic { ctrl, to } => {
                    let mut pts: Vec<Pt> = Vec::new();
                    flatten_quad(last, ctrl, to, tol, &mut pts);
                    let ghost rows_before = rows@;
                    let mut j: usize = 0;
                    while j < pts.len()
                        invariant
                            0 <= j <= pts@.len(),
                            rows@.len() == rows_before.len() + j,
                            rows@.subrange(0, rows_before.len() as int) == rows_before,
                            forall|k: int|
                                0 <= k < j ==> rows@[rows_before.len() + k] == (pts@[k], g, pid),
                        decreases pts@.len() - j,
                    {
                        let p = pts[j];
                        rows.push((p, g, pid));
                        j = j + 1;
                    }
                    proof {
                        assert(rows@ =~= rows_before + tag_pts(pts@, g, pid));
                    }
                    last = to;
                },
                PathEvent::Cubic { ctrl1, ctrl2, to } => {
                    let mut pts: Vec<Pt> = Vec::new();
                    flatten_cubic(last, ctrl1, ctrl2, to, tol, &mut pts);
                    let ghost rows_before = rows@;
                    let mut j: usize = 0;
                    while j < pts.len()
                        invariant
                            0 <= j <= pts@.len(),
                            rows@.len() == rows_before.len() + j,
                            rows@.subrange(0, rows_before.len() as int) == rows_before,
                            forall|k: int|
                                0 <= k < j ==> rows@[rows_before.len() + k] == (pts@[k], g, pid),
                        decreases pts@.len() - j,
                    {
                        let p = pts[j];
                        rows.push((p, g, pid));
                        j = j + 1;
                    }
                    proof {
                        assert(rows@ =~= rows_before + tag_pts(pts@, g, pid));
                    }
                    last = to;
                },
                PathEvent::End { .. } => {
                    pid = pid + 1;
                },
            }
            i = i + 1;
        }
        let ghost all_rows = spec_into_path(self);
        assert(all_rows =~= rows@);
        let mut xs: Vec<i64> = Vec::new();
        let mut ys: Vec<i64> = Vec::new();
        let mut gs: Vec<u32> = Vec::new();
        let mut ps: Vec<u32> = Vec::new();
        let mut j: usize = 0;
        let m: usize = rows.len();
        while j < m
            invariant
                0 <= j <= m,
                m == rows@.len(),
                rows@ == all_rows,
                xs@.len() == j,
                ys@.len() == j,
                gs@.len() == j,
                ps@.len() == j,
                forall|k: int|
                    0 <= k < j ==> xs@[k] == all_rows[k].0.x && ys@[k] == all_rows[k].0.y
                        && gs@[k] == all_rows[k].1 && ps@[k] == all_rows[k].2,
            decreases m - j,
        {
            let row = rows[j];
            xs.push(row.0.x);
            ys.push(row.0.y);
            gs.push(row.1);
            ps.push(row.2);
            j = j + 1;
        }
        (xs, ys, gs, ps)
    }
}

/// Law: reading the path out is deterministic. Two pipelines holding the same
/// collected events, the same glyph tags and the same tolerance produce
/// identical output rows.
pub proof fn lemma_into_path_deterministic(a: LyonPathBuilder, b: LyonPathBuilder)
    requires
        a.events@ == b.events@,
        a.glyph_ids@ == b.glyph_ids@,
        a.tolerance == b.tolerance,
    ensures
        spec_into_path(a) == spec_into_path(b),
{
}

/// Law: a finer tolerance never yields fewer output rows from the same path.
pub proof fn lemma_rows_tolerance_monotone(
    events: Seq<PathEvent>,
    gids: Seq<u32>,
    fine: u32,
    coarse: u32,
    i: int,
    pid: u32,
    last: Pt,
)
    requires
        fine <= coarse,
    ensures
        spec_rows_from(events, gids, fine, i, pid, last).len() >= spec_rows_from(
            events,
            gids,
            coarse,
            i,
            pid,
            last,
        ).len(),
    decreases events.len() - i,
{
    if i < 0 || i >= events.len() {
    } else {
        let g = gids[i];
        match events[i] {
            PathEvent::Begin { at } => {
                lemma_rows_tolerance_monotone(events, gids, fine, coarse, i + 1, pid, at);
            },
            PathEvent::Line { to } => {
                lemma_rows_tolerance_monotone(events, gids, fine, coarse, i + 1, pid, to);
            },
            PathEvent::Quadratic { ctrl, to } => {
                lemma_flatten_quad_tolerance_monotone(last, ctrl, to, fine, coarse, MAX_DEPTH);
                lemma_rows_tolerance_monotone(events, gids, fine, coarse, i + 1, pid, to);
            },
            PathEvent::Cubic { ctrl1, ctrl2, to } => {
                lemma_flatten_cubic_tolerance_monotone(
                    last,
                    ctrl1,
                    ctrl2,
                    to,
                    fine,
                    coarse,
                    MAX_DEPTH,
                );
                lemma_rows_tolerance_monotone(events, gids, fine, coarse, i + 1, pid, to);
            },
            PathEvent::End { .. } => {
                lemma_rows_tolerance_monotone(
                    events,
                    gids,
                    fine,
                    coarse,
                    i + 1,
                    ((pid + 1) as u32),
                    last,
                );
            },
        }
    }
}

/// Law: with the same collected path, a pipeline flattened at a finer
/// tolerance emits at least as many points as one flattened at a coarser
/// tolerance.
pub proof fn lemma_into_path_tolerance_monotone(a: LyonPathBuilder, b: LyonPathBuilder)
    requires
        a.events@ == b.events@,
        a.glyph_ids@ == b.glyph_ids@,
        a.tolerance <= b.tolerance,
    ensures
        spec_into_path(a).len() >= spec_into_path(b).len(),
{
    lemma_rows_tolerance_monotone(
        a.events@,
        a.glyph_ids@,
        a.tolerance,
        b.tolerance,
        0,
        0u32,
        origin(),
    );
}

} // verus!
