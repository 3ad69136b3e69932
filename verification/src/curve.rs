//! Freehand curves: an ordered sequence of world-space points together with a
//! colour and a fixed stroke width.

use vstd::prelude::*;
use crate::geometry::{Color, Point};
use crate::render::{curve_stroke, stroke_views, Frame};

verus! {

/// The stroke width shared by every curve.
pub const STROKE_WIDTH: u8 = 2;

/// One command of a render path: either move the pen or draw a line segment.
#[derive(Clone, Copy, PartialEq, Eq, Structural, Debug)]
pub enum PathCmd {
    MoveTo(Point),
    LineTo(Point),
}

/// The render path derived from a point sequence: a move to the first point,
/// then a line to each subsequent point; no commands at all for no points.
pub open spec fn path_of(pts: Seq<Point>) -> Seq<PathCmd> {
    Seq::new(
        pts.len(),
        |i: int| if i == 0 { PathCmd::MoveTo(pts[0]) } else { PathCmd::LineTo(pts[i]) },
    )
}

/// The number of points kept when a curve of `n` points is reduced by
/// `factor`: one per chunk of `factor` points, so `n / factor` rounded up.
pub open spec fn reduced_len(n: int, factor: int) -> int {
    (n + factor - 1) / factor
}

/// A polyline in world space.  While a drawing gesture is in progress points
/// are appended one by one; on release the curve is finalized by reduction
/// and is immutable from then on.
#[derive(PartialEq, Debug)]
pub struct Curve {
    pub points: Vec<Point>,
    pub color: Color,
    pub width: u8,
}

impl Curve {
    /// Creates a curve over the given points with the given colour.
    pub fn new(raw_curve: Vec<Point>, color: Color) -> (c: Curve)
        ensures
            c.points@ == raw_curve@,
            c.color == color,
            c.width == STROKE_WIDTH,
    {
        Curve { points: raw_curve, color, width: STROKE_WIDTH }
    }

    /// Appends a world-space point to the curve.
    pub fn push(&mut self, point: Point)
        ensures
            final(self).points@ == old(self).points@.push(point),
            final(self).color == old(self).color,
            final(self).width == old(self).width,
    {
        self.points.push(point);
    }

    /// Builds the render path for a point sequence.
    pub fn build_path(raw: &Vec<Point>) -> (path: Vec<PathCmd>)
        ensures
            path@ == path_of(raw@),
    {
        let mut path: Vec<PathCmd> = Vec::new();
        let n = raw.len();
        let mut i: usize = 0;
        while i < n
            invariant
                i <= n,
                n == raw@.len(),
                path@.len() == i,
                forall|j: int| 0 <= j < i ==> path@[j] == path_of(raw@)[j],
            decreases n - i,
        {
            if i == 0 {
                path.push(PathCmd::MoveTo(raw[0]));
            } else {
                path.push(PathCmd::LineTo(raw[i]));
            }
            i = i + 1;
        }
        assert(path@ =~= path_of(raw@));
        path
    }

    /// Strokes the curve's path onto the frame with its colour and width.
    pub fn draw(&self, frame: &mut Frame)
        ensures
            final(frame).translation == old(frame).translation,
            stroke_views(final(frame).strokes@)
                == stroke_views(old(frame).strokes@).push(curve_stroke(*self)),
    {
        let path = Curve::build_path(&self.points);
        frame.stroke(path, self.color, self.width);
    }

    /// Returns a new curve keeping the first point of every `factor`-sized
    /// chunk of this curve's point sequence, with the colour preserved.  An
    /// empty curve reduces to an empty curve.
    pub fn create_reduced(&self, factor: usize) -> (r: Curve)
        requires
            factor >= 1,
        ensures
            r.points@.len() == reduced_len(self.points@.len() as int, factor as int),
            forall|j: int| 0 <= j < r.points@.len() ==> r.points@[j] == self.points@[j * factor],
            r.color == self.color,
            r.width == STROKE_WIDTH,
    {
        let n = self.points.len();
        let mut kept: Vec<Point> = Vec::new();
        let mut i: usize = 0;
        while i < n
            invariant
                i <= n,
                n == self.points@.len(),
                factor >= 1,
                forall|j: int| #![trigger kept@[j]] 0 <= j < kept@.len()
                    ==> kept@[j] == self.points@[j * factor],
                if i < n {
                    i == kept@.len() * factor
                } else {
                    kept@.len() * factor >= n
                        && (kept@.len() == 0 || (kept@.len() - 1) * factor < n)
                },
            decreases n - i,
        {
            let ghost k = kept@.len();
            let ghost prior = kept@;
            proof {
                assert(i == k * factor);
                assert((k + 1) * factor == k * factor + factor) by (nonlinear_arith);
            }
            kept.push(self.points[i]);
            let ghost i0 = i;
            if n - i <= factor {
                i = n;
            } else {
                i = i + factor;
            }
            proof {
                assert forall|j: int| #![trigger kept@[j]] 0 <= j < kept@.len()
                    implies kept@[j] == self.points@[j * factor] by {
                    if j == k {
                        assert(j * factor == k * factor);
                        assert(k * factor == i0);
                        assert(kept@[j] == self.points@[i0 as int]);
                    } else {
                        assert(0 <= j < prior.len());
                        assert(prior[j] == self.points@[j * factor]);
                        assert(kept@[j] == prior[j]);
                    }
                }
            }
        }
        proof {
            lemma_kept_len_is_reduced_len(kept@.len() as int, n as int, factor as int);
        }
        Curve::new(kept, self.color)
    }
}

/// When `k` chunk heads cover `n` points (the last head lies before `n`, and
/// `k` chunks reach at least to `n`), `k` is exactly `n / factor` rounded up.
proof fn lemma_kept_len_is_reduced_len(k: int, n: int, factor: int)
    requires
        factor >= 1,
        n >= 0,
        k >= 0,
        k * factor >= n,
        k == 0 ==> n == 0,
        k > 0 ==> (k - 1) * factor < n,
    ensures
        k == reduced_len(n, factor),
{
    if k == 0 {
        assert((factor - 1) / factor == 0) by (nonlinear_arith)
            requires factor >= 1;
    } else {
        let x = n + factor - 1;
        assert(k * factor <= x) by (nonlinear_arith)
            requires x == n + factor - 1, (k - 1) * factor < n, factor >= 1;
        assert(x < (k + 1) * factor) by (nonlinear_arith)
            requires x == n + factor - 1, n <= k * factor, factor >= 1;
        let r = x - k * factor;
        vstd::arithmetic::div_mod::lemma_fundamental_div_mod_converse(x, factor, k, r);
    }
}

/// The shape of a curve's render path: as many commands as points, opening
/// with a move to the first point and following with a line to each later
/// point; an empty point sequence yields no commands.
pub proof fn lemma_path_shape(pts: Seq<Point>)
    ensures
        path_of(pts).len() == pts.len(),
        pts.len() == 0 ==> path_of(pts) == Seq::<PathCmd>::empty(),
        pts.len() > 0 ==> path_of(pts)[0] == PathCmd::MoveTo(pts[0]),
        forall|i: int| 1 <= i < pts.len() ==> path_of(pts)[i] == PathCmd::LineTo(pts[i]),
{
    if pts.len() == 0 {
        assert(path_of(pts) =~= Seq::<PathCmd>::empty());
    }
}

impl Clone for Curve {
    /// An exact copy: same points, colour, and width.
    fn clone(&self) -> (c: Self)
        ensures
            c.points@ == self.points@,
            c.color == self.color,
            c.width == self.width,
    {
        let mut points: Vec<Point> = Vec::new();
        let n = self.points.len();
        let mut i: usize = 0;
        while i < n
            invariant
                i <= n,
                n == self.points@.len(),
                points@ == self.points@.take(i as int),
            decreases n - i,
        {
            points.push(self.points[i]);
            assert(points@ =~= self.points@.take(i + 1 as int));
            i = i + 1;
        }
        assert(points@ =~= self.points@);
        Curve { points, color: self.color, width: self.width }
    }
}

impl Default for Curve {
    /// An empty white curve.
    fn default() -> (c: Self)
        ensures
            c.points@ == Seq::<Point>::empty(),
            c.color == (Color { r: 255, g: 255, b: 255, a: 255 }),
            c.width == STROKE_WIDTH,
    {
        Curve::new(Vec::new(), Color { r: 255, g: 255, b: 255, a: 255 })
    }
}

} // verus!
