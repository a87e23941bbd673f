//! Collecting glyph outlines into an abstract path.
//!
//! The builder owns the path under construction: an ordered list of path
//! events, a parallel list tagging every event with the glyph it came from, a
//! running translation that layout applies between glyphs, and the flattening
//! tolerance fixed at construction. The five outline methods mirror the draw
//! commands a font parser emits for one glyph (move, line, quadratic, cubic,
//! close); each appends exactly one event, translated by the running offset
//! and tagged with the current glyph index. Feeding a command that needs an
//! open contour without one (or the reverse) is a precondition violation: the
//! font side is expected to emit well-formed outlines.
use vstd::prelude::*;

use crate::geom::COORD_MAX;
use crate::geom::Pt;
use crate::geom::pt_in_range;

verus! {

/// One event of an abstract path.
#[derive(Clone, Copy, PartialEq, Eq, Structural, Debug)]
pub enum PathEvent {
    /// Opens a contour at a point.
    Begin { at: Pt },
    /// A straight segment to a point.
    Line { to: Pt },
    /// A quadratic Bezier segment with one control point.
    Quadratic { ctrl: Pt, to: Pt },
    /// A cubic Bezier segment with two control points.
    Cubic { ctrl1: Pt, ctrl2: Pt, to: Pt },
    /// Ends the open contour.
    End { closed: bool },
}

/// Every point the event holds is within the coordinate range.
pub open spec fn event_in_range(e: PathEvent) -> bool {
    match e {
        PathEvent::Begin { at } => pt_in_range(at),
        PathEvent::Line { to } => pt_in_range(to),
        PathEvent::Quadratic { ctrl, to } => pt_in_range(ctrl) && pt_in_range(to),
        PathEvent::Cubic { ctrl1, ctrl2, to } => pt_in_range(ctrl1) && pt_in_range(ctrl2)
            && pt_in_range(to),
        PathEvent::End { .. } => true,
    }
}

/// The events form a well-nested path that leaves a contour open exactly
/// when `open` holds: every Begin is matched by exactly one End before the
/// next Begin, and segments stand only between a Begin and its End.
pub open spec fn events_wf(s: Seq<PathEvent>, open: bool) -> bool
    decreases s.len(),
{
    if s.len() == 0 {
        !open
    } else {
        match s.last() {
            PathEvent::Begin { .. } => open && events_wf(s.drop_last(), false),
            PathEvent::Line { .. } => open && events_wf(s.drop_last(), true),
            PathEvent::Quadratic { .. } => open && events_wf(s.drop_last(), true),
            PathEvent::Cubic { .. } => open && events_wf(s.drop_last(), true),
            PathEvent::End { .. } => !open && events_wf(s.drop_last(), true),
        }
    }
}

/// Builds the abstract path for a laid-out string of glyphs.
pub struct LyonPathBuilder {
    /// The path events collected so far.
    pub events: Vec<PathEvent>,
    /// The glyph index each event in `events` came from.
    pub glyph_ids: Vec<u32>,
    /// The index of the glyph whose outline is being collected.
    pub cur_glyph_id: u32,
    /// How many contours have been closed so far.
    pub cur_path_id: u32,
    /// Running horizontal translation, advanced by layout between glyphs.
    pub offset_x: i64,
    /// Running vertical translation.
    pub offset_y: i64,
    /// Maximum deviation allowed when curves are flattened, in grid units.
    pub tolerance: u32,
    /// Whether a contour is open: a Begin has been seen with no End yet.
    pub in_contour: bool,
}

impl LyonPathBuilder {
    /// The builder's lists are aligned, every collected point is in range,
    /// and the tolerance is positive.
    pub open spec fn wf(self) -> bool {
        &&& self.events@.len() == self.glyph_ids@.len()
        &&& forall|i: int| 0 <= i < self.events@.len() ==> event_in_range(self.events@[i])
        &&& self.tolerance >= 1
        &&& events_wf(self.events@, self.in_contour)
    }

    /// The running offsets are small enough for further layout arithmetic.
    pub open spec fn offset_in_range(self) -> bool {
        &&& -COORD_MAX < self.offset_x < COORD_MAX
        &&& -COORD_MAX < self.offset_y < COORD_MAX
    }

    /// A fresh builder: empty path, zero offsets, glyph and contour counters
    /// at zero, the given flattening tolerance.
    pub fn new(tolerance: u32) -> (r: Self)
        requires
            tolerance >= 1,
        ensures
            r.events@ =~= Seq::<PathEvent>::empty(),
            r.glyph_ids@ =~= Seq::<u32>::empty(),
            r.cur_glyph_id == 0,
            r.cur_path_id == 0,
            r.offset_x == 0,
            r.offset_y == 0,
            r.tolerance == tolerance,
            !r.in_contour,
            r.wf(),
            r.offset_in_range(),
    {
        LyonPathBuilder {
            events: Vec::new(),
            glyph_ids: Vec::new(),
            cur_glyph_id: 0,
            cur_path_id: 0,
            offset_x: 0,
            offset_y: 0,
            tolerance,
            in_contour: false,
        }
    }

    /// Translates a raw outline coordinate by the running offset.
    fn point(&self, x: i64, y: i64) -> (p: Pt)
        requires
            -COORD_MAX <= x + self.offset_x <= COORD_MAX,
            -COORD_MAX <= y + self.offset_y <= COORD_MAX,
        ensures
            p == self.translated(x, y),
    {
        Pt { x: x + self.offset_x, y: y + self.offset_y }
    }

    /// The point `(x, y)` translated by the running offset.
    pub open spec fn translated(self, x: i64, y: i64) -> Pt {
        Pt { x: (x + self.offset_x) as i64, y: (y + self.offset_y) as i64 }
    }

    /// The raw coordinates land in range once the offset is applied.
    pub open spec fn coord_ok(self, x: i64, y: i64) -> bool {
        &&& -COORD_MAX <= x + self.offset_x <= COORD_MAX
        &&& -COORD_MAX <= y + self.offset_y <= COORD_MAX
    }

    /// Everything except the collected path and the contour flag is kept.
    pub open spec fn same_layout_state(self, other: Self) -> bool {
        &&& self.cur_glyph_id == other.cur_glyph_id
        &&& self.cur_path_id == other.cur_path_id
        &&& self.offset_x == other.offset_x
        &&& self.offset_y == other.offset_y
        &&& self.tolerance == other.tolerance
    }

    /// Opens a contour at `(x, y)`, tagged with the current glyph.
    pub fn move_to(&mut self, x: i64, y: i64)
        requires
            old(self).wf(),
            !old(self).in_contour,
            old(self).coord_ok(x, y),
        ensures
            final(self).events@ == old(self).events@.push(
                PathEvent::Begin { at: old(self).translated(x, y) },
            ),
            final(self).glyph_ids@ == old(self).glyph_ids@.push(old(self).cur_glyph_id),
            final(self).in_contour,
            old(self).same_layout_state(*final(self)),
            final(self).wf(),
    {
        self.glyph_ids.push(self.cur_glyph_id);
        let p = self.point(x, y);
        self.events.push(PathEvent::Begin { at: p });
        self.in_contour = true;
        proof {
            assert(self.events@.drop_last() =~= old(self).events@);
        }
    }

    /// Adds a straight segment to `(x, y)`, tagged with the current glyph.
    pub fn line_to(&mut self, x: i64, y: i64)
        requires
            old(self).wf(),
            old(self).in_contour,
            old(self).coord_ok(x, y),
        ensures
            final(self).events@ == old(self).events@.push(
                PathEvent::Line { to: old(self).translated(x, y) },
            ),
            final(self).glyph_ids@ == old(self).glyph_ids@.push(old(self).cur_glyph_id),
            final(self).in_contour,
            old(self).same_layout_state(*final(self)),
            final(self).wf(),
    {
        self.glyph_ids.push(self.cur_glyph_id);
        let p = self.point(x, y);
        self.events.push(PathEvent::Line { to: p });
            proof {
            assert(self.events@.drop_last() =~= old(self).events@);
        }
    }

    /// Adds a quadratic Bezier segment, tagged with the current glyph.
    pub fn quad_to(&mut self, x1: i64, y1: i64, x: i64, y: i64)
        requires
            old(self).wf(),
            old(self).in_contour,
            old(self).coord_ok(x1, y1),
            old(self).coord_ok(x, y),
        ensures
            final(self).events@ == old(self).events@.push(
                PathEvent::Quadratic {
                    ctrl: old(self).translated(x1, y1),
                    to: old(self).translated(x, y),
                },
            ),
            final(self).glyph_ids@ == old(self).glyph_ids@.push(old(self).cur_glyph_id),
            final(self).in_contour,
            old(self).same_layout_state(*final(self)),
            final(self).wf(),
    {
        self.glyph_ids.push(self.cur_glyph_id);
        let c = self.point(x1, y1);
        let p = self.point(x, y);
        self.events.push(PathEvent::Quadratic { ctrl: c, to: p });
            proof {
            assert(self.events@.drop_last() =~= old(self).events@);
        }
    }

    /// Adds a cubic Bezier segment, tagged with the current glyph.
    pub fn curve_to(&mut self, x1: i64, y1: i64, x2: i64, y2: i64, x: i64, y: i64)
        requires
            old(self).wf(),
            old(self).in_contour,
            old(self).coord_ok(x1, y1),
            old(self).coord_ok(x2, y2),
            old(self).coord_ok(x, y),
        ensures
            final(self).events@ == old(self).events@.push(
                PathEvent::Cubic {
                    ctrl1: old(self).translated(x1, y1),
                    ctrl2: old(self).translated(x2, y2),
                    to: old(self).translated(x, y),
                },
            ),
            final(self).glyph_ids@ == old(self).glyph_ids@.push(old(self).cur_glyph_id),
            final(self).in_contour,
            old(self).same_layout_state(*final(self)),
            final(self).wf(),
    {
        self.glyph_ids.push(self.cur_glyph_id);
        let c1 = self.point(x1, y1);
        let c2 = self.point(x2, y2);
        let p = self.point(x, y);
        self.events.push(PathEvent::Cubic { ctrl1: c1, ctrl2: c2, to: p });
            proof {
            assert(self.events@.drop_last() =~= old(self).events@);
        }
    }

    /// Closes the open contour, tagged with the current glyph, and advances
    /// the sub-path counter.
    pub fn close(&mut self)
        requires
            old(self).wf(),
            old(self).in_contour,
            old(self).cur_path_id < u32::MAX,
        ensures
            final(self).events@ == old(self).events@.push(PathEvent::End { closed: true }),
            final(self).glyph_ids@ == old(self).glyph_ids@.push(old(self).cur_glyph_id),
            !final(self).in_contour,
            final(self).cur_path_id == old(self).cur_path_id + 1,
            final(self).cur_glyph_id == old(self).cur_glyph_id,
            final(self).offset_x == old(self).offset_x,
            final(self).offset_y == old(self).offset_y,
            final(self).tolerance == old(self).tolerance,
            final(self).wf(),
    {
        self.glyph_ids.push(self.cur_glyph_id);
        self.events.push(PathEvent::End { closed: true });
        self.in_contour = false;
        self.cur_path_id = self.cur_path_id + 1;
        proof {
            assert(self.events@.drop_last() =~= old(self).events@);
        }
    }
}

} // verus!
