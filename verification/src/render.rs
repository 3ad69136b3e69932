//! The render surface model and the memoized cache for the static curve
//! layer.
//!
//! A [`Frame`] records what a draw produces: a translation applied to the
//! drawing and the ordered stroke commands.  The [`RenderCache`] memoizes the
//! last frame built for the curve layer; it is implicitly keyed by the camera
//! and curve store that were current when it was filled, and invalidation is
//! explicit and caller-driven — every operation that changes the camera or
//! the curves must itself call [`RenderCache::clear`].

use vstd::prelude::*;
use crate::curve::{path_of, Curve, PathCmd};
use crate::geometry::{Camera, Color, Vector};

verus! {

/// One stroke command: a path drawn with a colour and a width.
#[derive(PartialEq, Debug)]
pub struct StrokeCmd {
    pub path: Vec<PathCmd>,
    pub color: Color,
    pub width: u8,
}

/// A frame of rendered output: the translation applied to the drawing and
/// the strokes drawn onto it, in order.
#[derive(PartialEq, Debug)]
pub struct Frame {
    pub translation: Vector,
    pub strokes: Vec<StrokeCmd>,
}

/// The abstract content of one stroke.
pub type StrokeView = (Seq<PathCmd>, Color, u8);

/// The abstract content of a frame: the translation, as mathematical
/// integers, and the stroke contents.
pub type FrameView = ((int, int), Seq<StrokeView>);

pub open spec fn stroke_view(s: StrokeCmd) -> StrokeView {
    (s.path@, s.color, s.width)
}

pub open spec fn stroke_views(s: Seq<StrokeCmd>) -> Seq<StrokeView> {
    s.map_values(|c: StrokeCmd| stroke_view(c))
}

pub open spec fn frame_view(f: Frame) -> FrameView {
    ((f.translation.x as int, f.translation.y as int), stroke_views(f.strokes@))
}

/// The stroke that draws one curve: its path, colour, and width.
pub open spec fn curve_stroke(c: Curve) -> StrokeView {
    (path_of(c.points@), c.color, c.width)
}

/// The frame that a rebuild of the static curve layer produces: the drawing
/// is translated by the negated camera pan offset, and every completed curve
/// is stroked, in store order.
pub open spec fn rendered_view(camera: Camera, curves: Seq<Curve>) -> FrameView {
    (
        (-(camera.x as int), -(camera.y as int)),
        curves.map_values(|c: Curve| curve_stroke(c)),
    )
}

impl Frame {
    /// An empty frame: no translation, no strokes.
    pub fn new() -> (f: Frame)
        ensures
            f.translation == (Vector { x: 0, y: 0 }),
            f.strokes@.len() == 0,
    {
        Frame { translation: Vector { x: 0, y: 0 }, strokes: Vec::new() }
    }

    /// Sets the translation applied to the drawing.
    pub fn translate(&mut self, offset: Vector)
        ensures
            final(self).translation == offset,
            final(self).strokes@ == old(self).strokes@,
    {
        self.translation = offset;
    }

    /// Appends one stroke command.
    pub fn stroke(&mut self, path: Vec<PathCmd>, color: Color, width: u8)
        ensures
            final(self).translation == old(self).translation,
            stroke_views(final(self).strokes@)
                == stroke_views(old(self).strokes@).push((path@, color, width)),
    {
        self.strokes.push(StrokeCmd { path, color, width });
        proof {
            assert(stroke_views(self.strokes@)
                =~= stroke_views(old(self).strokes@).push((path@, color, width)));
        }
    }
}

fn clone_path_vec(v: &Vec<PathCmd>) -> (r: Vec<PathCmd>)
    ensures
        r@ == v@,
{
    let mut r: Vec<PathCmd> = Vec::new();
    let n = v.len();
    let mut i: usize = 0;
    while i < n
        invariant
            i <= n,
            n == v@.len(),
            r@ == v@.take(i as int),
        decreases n - i,
    {
        r.push(v[i]);
        assert(r@ =~= v@.take(i + 1 as int));
        i = i + 1;
    }
    assert(r@ =~= v@);
    r
}

impl Clone for StrokeCmd {
    /// A copy with the same path, colour, and width.
    fn clone(&self) -> (c: Self)
        ensures
            stroke_view(c) == stroke_view(*self),
    {
        StrokeCmd { path: clone_path_vec(&self.path), color: self.color, width: self.width }
    }
}

impl Clone for Frame {
    /// A copy with the same translation and the same stroke contents.
    fn clone(&self) -> (c: Self)
        ensures
            c.translation == self.translation,
            stroke_views(c.strokes@) == stroke_views(self.strokes@),
    {
        let mut strokes: Vec<StrokeCmd> = Vec::new();
        let n = self.strokes.len();
        let mut i: usize = 0;
        while i < n
            invariant
                i <= n,
                n == self.strokes@.len(),
                strokes@.len() == i,
                forall|j: int| #![trigger strokes@[j]] 0 <= j < i
                    ==> stroke_view(strokes@[j]) == stroke_view(self.strokes@[j]),
            decreases n - i,
        {
            let s = self.strokes[i].clone();
            strokes.push(s);
            i = i + 1;
        }
        proof {
            assert(stroke_views(strokes@) =~= stroke_views(self.strokes@));
        }
        Frame { translation: self.translation, strokes }
    }
}

/// Memoized output of the static curve layer.
#[derive(Debug)]
pub struct RenderCache {
    pub cached: Option<Frame>,
}

pub open spec fn cache_view(c: RenderCache) -> Option<FrameView> {
    match c.cached {
        Some(f) => Some(frame_view(f)),
        None => None,
    }
}

/// What a draw returns for a given cache state: the memoized frame when one
/// is present — even a stale one, which is why every mutation must clear the
/// cache — and a fresh rebuild otherwise.
pub open spec fn draw_output(m: Option<FrameView>, camera: Camera, curves: Seq<Curve>) -> FrameView {
    match m {
        Some(g) => g,
        None => rendered_view(camera, curves),
    }
}

/// The cache state after a draw: filled with exactly the frame returned.
pub open spec fn cache_after_draw(
    m: Option<FrameView>,
    camera: Camera,
    curves: Seq<Curve>,
) -> Option<FrameView> {
    Some(draw_output(m, camera, curves))
}

impl RenderCache {
    /// An empty cache: the next draw rebuilds.
    pub fn new() -> (c: RenderCache)
        ensures
            cache_view(c) == None::<FrameView>,
    {
        RenderCache { cached: None }
    }

    /// Invalidates the memoized frame, forcing the next draw to rebuild.
    pub fn clear(&mut self)
        ensures
            cache_view(*final(self)) == None::<FrameView>,
    {
        self.cached = None;
    }

    /// Fetches the memoized frame, rebuilding it from the given camera and
    /// curves first when none is present.
    pub fn draw(&mut self, camera: Camera, curves: &Vec<Curve>) -> (frame: Frame)
        requires
            camera.x > i64::MIN,
            camera.y > i64::MIN,
        ensures
            frame_view(frame) == draw_output(cache_view(*old(self)), camera, curves@),
            cache_view(*final(self)) == cache_after_draw(cache_view(*old(self)), camera, curves@),
    {
        if self.cached.is_none() {
            let mut frame = Frame::new();
            frame.translate(Vector { x: -camera.x, y: -camera.y });
            let n = curves.len();
            let mut i: usize = 0;
            while i < n
                invariant
                    i <= n,
                    n == curves@.len(),
                    frame.translation == (Vector { x: (-camera.x) as i64, y: (-camera.y) as i64 }),
                    camera.x > i64::MIN,
                    camera.y > i64::MIN,
                    stroke_views(frame.strokes@)
                        == curves@.take(i as int).map_values(|c: Curve| curve_stroke(c)),
                decreases n - i,
            {
                curves[i].draw(&mut frame);
                proof {
                    assert(stroke_views(frame.strokes@)
                        =~= curves@.take(i + 1 as int).map_values(|c: Curve| curve_stroke(c)));
                }
                i = i + 1;
            }
            proof {
                assert(curves@.take(n as int) =~= curves@);
                assert(frame_view(frame) == rendered_view(camera, curves@));
            }
            self.cached = Some(frame);
        }
        match &self.cached {
            Some(f) => f.clone(),
            None => vstd::pervasive::unreached(),
        }
    }
}

/// Two consecutive draws with an unchanged camera, curve store, and cache
/// produce identical output, and the rebuild happens at most once: the first
/// draw fills the cache, and the second is a hit that leaves it unchanged.
pub proof fn lemma_draw_idempotent(m: Option<FrameView>, camera: Camera, curves: Seq<Curve>)
    ensures
        draw_output(cache_after_draw(m, camera, curves), camera, curves)
            == draw_output(m, camera, curves),
        cache_after_draw(cache_after_draw(m, camera, curves), camera, curves)
            == cache_after_draw(m, camera, curves),
{
}

/// After `clear`, the next draw is guaranteed to rebuild: an empty cache
/// always produces a fresh rendering of the current camera and curves.
pub proof fn lemma_clear_forces_rebuild(camera: Camera, curves: Seq<Curve>)
    ensures
        draw_output(None::<FrameView>, camera, curves) == rendered_view(camera, curves),
{
}

/// A rebuild of an empty curve store strokes no geometry at all.
pub proof fn lemma_empty_store_renders_nothing(camera: Camera)
    ensures
        rendered_view(camera, Seq::<Curve>::empty()).1 == Seq::<StrokeView>::empty(),
{
    assert(rendered_view(camera, Seq::<Curve>::empty()).1 =~= Seq::<StrokeView>::empty());
}

} // verus!
