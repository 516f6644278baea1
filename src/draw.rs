use vstd::prelude::*;
use crate::board::{ActiveBoard, Board, BoardState, Glyph, Point, StaticBoard};

verus! {

/// Where a control handle of a curve segment lies, relative to the segment's
/// endpoint that it belongs to (the origin for the first handle, the
/// destination for the second), at one third of the segment's length.
#[derive(Clone, Copy, Debug, PartialEq, Eq, Structural)]
pub enum Handle {
    /// Along the segment's own chord: a straight start or a straight end.
    Chord,
    /// Along the direction from `from` to `to`, normalised; no offset where
    /// the two coincide.
    Tangent { from: Point, to: Point },
    /// On the endpoint itself: the segment has zero length.
    Pinned,
}

/// One drawing primitive of a glyph's outline.
#[derive(Clone, Copy, Debug, PartialEq, Eq, Structural)]
pub enum Primitive {
    /// A zero-length stroke, so that a single tap shows.
    Dot { at: Point },
    /// A straight segment.
    Line { from: Point, to: Point },
    /// A cubic Bezier segment from `from` to `to`.
    Curve { from: Point, to: Point, handle1: Handle, handle2: Handle },
}

impl Primitive {
    pub open spec fn start(self) -> Point {
        match self {
            Primitive::Dot { at } => at,
            Primitive::Line { from, .. } => from,
            Primitive::Curve { from, .. } => from,
        }
    }

    pub open spec fn end(self) -> Point {
        match self {
            Primitive::Dot { at } => at,
            Primitive::Line { to, .. } => to,
            Primitive::Curve { to, .. } => to,
        }
    }
}

/// The segment from `pts[i]` to `pts[i + 1]` of a glyph of three or more
/// points: the first handle follows the tangent at the origin (from the
/// previous point towards the destination), the second the tangent at the
/// destination (from the origin towards the next point); the first segment
/// starts straight and the last ends straight.
pub open spec fn curve_segment(pts: Seq<Point>, i: int) -> Primitive {
    let origin = pts[i];
    let destination = pts[i + 1];
    if origin == destination {
        Primitive::Curve { from: origin, to: destination, handle1: Handle::Pinned, handle2: Handle::Pinned }
    } else {
        Primitive::Curve {
            from: origin,
            to: destination,
            handle1: if i == 0 { Handle::Chord } else { Handle::Tangent { from: pts[i - 1], to: destination } },
            handle2: if i == pts.len() - 2 { Handle::Chord } else { Handle::Tangent { from: origin, to: pts[i + 2] } },
        }
    }
}

/// The primitives that draw a glyph with points `pts`.
pub open spec fn outline(pts: Seq<Point>) -> Seq<Primitive> {
    if pts.len() == 1 {
        seq![Primitive::Dot { at: pts[0] }]
    } else if pts.len() == 2 {
        seq![Primitive::Line { from: pts[0], to: pts[1] }]
    } else {
        Seq::new((pts.len() - 1) as nat, |i: int| curve_segment(pts, i))
    }
}

impl Glyph {
    /// The primitives that draw this glyph, in order.
    pub fn outline(&self) -> (r: Vec<Primitive>)
        ensures
            r@ == outline(self@),
    {
        let pts = self.points();
        let n = pts.len();
        let mut r: Vec<Primitive> = Vec::new();
        if n == 1 {
            r.push(Primitive::Dot { at: pts[0] });
            assert(r@ =~= outline(self@));
            return r;
        }
        if n == 2 {
            r.push(Primitive::Line { from: pts[0], to: pts[1] });
            assert(r@ =~= outline(self@));
            return r;
        }
        let mut i: usize = 0;
        while i < n - 1
            invariant
                pts@ == self@,
                n == pts@.len(),
                n >= 3,
                i <= n - 1,
                r@.len() == i,
                forall|j: int| 0 <= j < i ==> #[trigger] r@[j] == curve_segment(pts@, j),
            decreases n - 1 - i,
        {
            let origin = pts[i];
            let destination = pts[i + 1];
            let seg = if origin == destination {
                Primitive::Curve { from: origin, to: destination, handle1: Handle::Pinned, handle2: Handle::Pinned }
            } else {
                let handle1 = if i == 0 {
                    Handle::Chord
                } else {
                    Handle::Tangent { from: pts[i - 1], to: destination }
                };
                let handle2 = if i == n - 2 {
                    Handle::Chord
                } else {
                    Handle::Tangent { from: origin, to: pts[i + 2] }
                };
                Primitive::Curve { from: origin, to: destination, handle1, handle2 }
            };
            r.push(seg);
            i = i + 1;
        }
        assert(r@ =~= outline(self@));
        r
    }
}

/// The glyphs of a board in the order they are drawn: the finished ones first
/// drawn first, then the one being drawn, on top of them all.
pub open spec fn draw_order(s: BoardState) -> Seq<Seq<Point>> {
    match s.current {
        Some(g) => s.finished.push(g),
        None => s.finished,
    }
}

/// `r` holds the outline of each of `glyphs`, in the same order.
pub open spec fn outlines_of(r: Seq<Vec<Primitive>>, glyphs: Seq<Seq<Point>>) -> bool {
    &&& r.len() == glyphs.len()
    &&& forall|i: int| 0 <= i < r.len() ==> #[trigger] r[i]@ == outline(glyphs[i])
}

impl StaticBoard {
    /// The outline of each glyph, first drawn first.
    pub fn outlines(&self) -> (r: Vec<Vec<Primitive>>)
        ensures
            outlines_of(r@, self@),
    {
        let glyphs = self.glyphs();
        let mut r: Vec<Vec<Primitive>> = Vec::new();
        let mut i: usize = 0;
        while i < glyphs.len()
            invariant
                glyphs@.len() == self@.len(),
                forall|j: int| 0 <= j < glyphs@.len() ==> #[trigger] glyphs@[j]@ == self@[j],
                i <= glyphs@.len(),
                outlines_of(r@, self@.take(i as int)),
            decreases glyphs@.len() - i,
        {
            assert(glyphs@[i as int]@ == self@[i as int]);
            r.push(glyphs[i].outline());
            i = i + 1;
            assert(self@.take(i as int) =~= self@.take(i - 1).push(self@[i - 1]));
        }
        assert(self@.take(i as int) =~= self@);
        r
    }
}

impl ActiveBoard {
    /// The outlines of the finished glyphs, then that of the glyph being drawn.
    pub fn outlines(&self) -> (r: Vec<Vec<Primitive>>)
        ensures
            outlines_of(r@, self@.0.push(self@.1)),
    {
        let mut r = self.finished().outlines();
        r.push(self.current_glyph().outline());
        r
    }
}

impl Board {
    /// The outline of each glyph in drawing order: the finished glyphs, then
    /// the one being drawn on top of them.
    pub fn outlines(&self) -> (r: Vec<Vec<Primitive>>)
        ensures
            outlines_of(r@, draw_order(self@)),
    {
        match self {
            Board::Active(board) => board.outlines(),
            Board::Static(board) => board.outlines(),
        }
    }
}

/// A glyph of two or more points is drawn as one segment per pair of
/// consecutive points, and segment `i` runs exactly from point `i` to point
/// `i + 1`.
pub proof fn lemma_outline_interpolates(pts: Seq<Point>)
    requires
        pts.len() >= 2,
    ensures
        outline(pts).len() == pts.len() - 1,
        forall|i: int| 0 <= i < pts.len() - 1 ==>
            (#[trigger] outline(pts)[i]).start() == pts[i] && outline(pts)[i].end() == pts[i + 1],
        forall|i: int| 0 <= i < pts.len() - 1 ==> !(outline(pts)[i] is Dot),
{
}

/// Neighbouring segments meet tangent-continuously: where neither has zero
/// length, the second handle of one and the first handle of the next follow
/// the same direction, from the point before their shared point to the point
/// after it.
pub proof fn lemma_tangent_continuity(pts: Seq<Point>, i: int)
    requires
        pts.len() >= 3,
        0 <= i < pts.len() - 2,
        pts[i] != pts[i + 1],
        pts[i + 1] != pts[i + 2],
    ensures
        outline(pts)[i] is Curve,
        outline(pts)[i + 1] is Curve,
        outline(pts)[i]->handle2 == (Handle::Tangent { from: pts[i], to: pts[i + 2] }),
        outline(pts)[i + 1]->handle1 == (Handle::Tangent { from: pts[i], to: pts[i + 2] }),
{
}

/// A segment between two equal consecutive points has its handles on that
/// point (or, in a glyph of two points, is a line of zero length).
pub proof fn lemma_degenerate_segment(pts: Seq<Point>, i: int)
    requires
        pts.len() >= 2,
        0 <= i < pts.len() - 1,
        pts[i] == pts[i + 1],
    ensures
        pts.len() == 2 ==> outline(pts)[i] == (Primitive::Line { from: pts[i], to: pts[i] }),
        pts.len() >= 3 ==> outline(pts)[i] == (Primitive::Curve {
            from: pts[i],
            to: pts[i],
            handle1: Handle::Pinned,
            handle2: Handle::Pinned,
        }),
{
}

} // verus!
