//! The world: the curve store, the camera, the active tool, the render
//! cache, and the colour palette, driven by a message-based state machine.

use vstd::prelude::*;
use crate::curve::{reduced_len, Curve, STROKE_WIDTH};
use crate::geometry::{Camera, Color, Point, Vector};
use crate::render::{
    cache_after_draw, cache_view, draw_output, frame_view, lemma_empty_store_renders_nothing,
    rendered_view, Frame, FrameView, RenderCache, StrokeView,
};
use crate::workspace::{Child, Workspace};

verus! {

/// The active tool together with its gesture sub-state.  `Pen` and `Erase`
/// track whether a gesture is in progress; `Line` has no gesture behaviour
/// of its own, so with it selected only panning moves the canvas.
#[derive(Debug, Clone, PartialEq, Eq, Copy, Structural)]
pub enum Tool {
    Line,
    Pen(bool),
    Erase(bool),
}

/// Unit version of `Tool`: which tool is selected, without gesture state.
#[derive(Debug, Clone, PartialEq, Eq, Copy, Structural)]
pub enum SelectedTool {
    Pen,
    Line,
    Erase,
}

/// Selecting a tool always starts it outside a gesture.
pub open spec fn tool_of_selected(s: SelectedTool) -> Tool {
    match s {
        SelectedTool::Line => Tool::Line,
        SelectedTool::Pen => Tool::Pen(false),
        SelectedTool::Erase => Tool::Erase(false),
    }
}

pub open spec fn selected_of_tool(t: Tool) -> SelectedTool {
    match t {
        Tool::Line => SelectedTool::Line,
        Tool::Pen(_) => SelectedTool::Pen,
        Tool::Erase(_) => SelectedTool::Erase,
    }
}

impl From<SelectedTool> for Tool {
    fn from(val: SelectedTool) -> (t: Tool) {
        match val {
            SelectedTool::Line => Tool::Line,
            SelectedTool::Pen => Tool::Pen(false),
            SelectedTool::Erase => Tool::Erase(false),
        }
    }
}

impl vstd::std_specs::convert::FromSpecImpl<SelectedTool> for Tool {
    open spec fn obeys_from_spec() -> bool {
        true
    }

    open spec fn from_spec(val: SelectedTool) -> Tool {
        tool_of_selected(val)
    }
}

impl From<Tool> for SelectedTool {
    fn from(val: Tool) -> (s: SelectedTool) {
        match val {
            Tool::Line => SelectedTool::Line,
            Tool::Pen(_) => SelectedTool::Pen,
            Tool::Erase(_) => SelectedTool::Erase,
        }
    }
}

impl vstd::std_specs::convert::FromSpecImpl<Tool> for SelectedTool {
    open spec fn obeys_from_spec() -> bool {
        true
    }

    open spec fn from_spec(val: Tool) -> SelectedTool {
        selected_of_tool(val)
    }
}

/// A message from the shell to the world.
#[derive(Debug, Clone, Copy, PartialEq, Eq, Structural)]
pub enum Message {
    Pan(Vector),
    Zoom(i64),
    Move(Point),
    MouseUp(Point),
    MouseDown(Point),
    DemoMessage,
    SetTool(SelectedTool),
    SetColor(Color),
    Clear,
}

/// The colour swatches offered by the palette.
pub open spec fn default_palette() -> Seq<Color> {
    seq![
        Color { r: 204, g: 204, b: 204, a: 255 },
        Color { r: 128, g: 128, b: 128, a: 255 },
        Color { r: 128, g: 51, b: 51, a: 255 },
        Color { r: 102, g: 77, b: 26, a: 255 },
        Color { r: 51, g: 128, b: 51, a: 255 },
        Color { r: 51, g: 128, b: 128, a: 255 },
        Color { r: 51, g: 51, b: 128, a: 255 },
    ]
}

/// The whole drawing application state.
#[derive(Debug)]
pub struct World {
    pub curves: Vec<Curve>,
    pub camera: Camera,
    pub tool: Tool,
    pub cache: RenderCache,
    pub active_color: Color,
    pub colors: Vec<Color>,
}

impl World {
    /// The camera pan stays strictly inside the coordinate range, so that
    /// its negation — the translation of the curve layer — is representable.
    pub open spec fn wf(self) -> bool {
        &&& self.camera.x > i64::MIN
        &&& self.camera.y > i64::MIN
    }

    /// What an update demands of the state it is applied to.  A pan or zoom
    /// must stay inside the coordinate range, and a drawn point's world
    /// position must be representable.  A move mid-gesture also demands that
    /// the in-progress curve exists: the state machine guards this on every
    /// path except a `Clear` arriving mid-gesture, a deliberately unhandled
    /// gap, so that state is left out here rather than given a behaviour.
    pub open spec fn update_allowed(self, message: Message) -> bool {
        match message {
            Message::Pan(d) => {
                &&& i64::MIN < self.camera.x - d.x <= i64::MAX
                &&& i64::MIN < self.camera.y - d.y <= i64::MAX
            },
            Message::Zoom(dz) => i64::MIN <= self.camera.z + dz <= i64::MAX,
            Message::Move(p) => self.tool == Tool::Pen(true) ==> {
                &&& self.curves@.len() > 0
                &&& i64::MIN <= p.x + self.camera.x <= i64::MAX
                &&& i64::MIN <= p.y + self.camera.y <= i64::MAX
            },
            _ => true,
        }
    }
}

/// The unchanged-state clauses shared by the cases of [`step`]: each names
/// one part of the world a transition left alone.
pub open spec fn same_store(pre: World, post: World) -> bool {
    post.curves@ == pre.curves@
}

pub open spec fn same_camera(pre: World, post: World) -> bool {
    post.camera == pre.camera
}

pub open spec fn same_palette(pre: World, post: World) -> bool {
    &&& post.active_color == pre.active_color
    &&& post.colors@ == pre.colors@
}

/// The state machine: how one message transforms the world.  Every
/// transition that changes the camera or the curves clears the render
/// cache; `SetColor` changes neither and leaves the cache alone.
pub open spec fn step(pre: World, post: World, message: Message) -> bool {
    match message {
        Message::Pan(d) => {
            &&& post.camera.x == pre.camera.x - d.x
            &&& post.camera.y == pre.camera.y - d.y
            &&& post.camera.z == pre.camera.z
            &&& post.tool == pre.tool
            &&& same_store(pre, post)
            &&& same_palette(pre, post)
            &&& cache_view(post.cache) == None::<FrameView>
        },
        Message::Zoom(dz) => {
            &&& post.camera.x == pre.camera.x
            &&& post.camera.y == pre.camera.y
            &&& post.camera.z == pre.camera.z + dz
            &&& post.tool == pre.tool
            &&& same_store(pre, post)
            &&& same_palette(pre, post)
            &&& cache_view(post.cache) == None::<FrameView>
        },
        Message::Move(p) => {
            if pre.tool == Tool::Pen(true) {
                &&& post.curves@.len() == pre.curves@.len()
                &&& post.curves@.last().points@ == pre.curves@.last().points@.push(
                    Point {
                        x: (p.x + pre.camera.x) as i64,
                        y: (p.y + pre.camera.y) as i64,
                    },
                )
                &&& post.curves@.last().color == pre.curves@.last().color
                &&& post.curves@.last().width == pre.curves@.last().width
                &&& forall|i: int| 0 <= i < pre.curves@.len() - 1
                    ==> post.curves@[i] == pre.curves@[i]
                &&& post.tool == pre.tool
                &&& same_camera(pre, post)
                &&& same_palette(pre, post)
                &&& cache_view(post.cache) == None::<FrameView>
            } else {
                post == pre
            }
        },
        Message::MouseUp(_) => {
            match pre.tool {
                Tool::Pen(true) => {
                    &&& post.tool == Tool::Pen(false)
                    &&& post.curves@.len() == pre.curves@.len()
                    &&& pre.curves@.len() > 0 ==> {
                        &&& post.curves@.last().points@.len() == reduced_len(
                            pre.curves@.last().points@.len() as int,
                            3,
                        )
                        &&& forall|j: int| 0 <= j < post.curves@.last().points@.len()
                            ==> post.curves@.last().points@[j]
                                == pre.curves@.last().points@[j * 3]
                        &&& post.curves@.last().color == pre.curves@.last().color
                        &&& post.curves@.last().width == STROKE_WIDTH
                    }
                    &&& forall|i: int| 0 <= i < pre.curves@.len() - 1
                        ==> post.curves@[i] == pre.curves@[i]
                    &&& same_camera(pre, post)
                    &&& same_palette(pre, post)
                    &&& cache_view(post.cache) == None::<FrameView>
                },
                Tool::Erase(true) => {
                    &&& post.tool == Tool::Erase(false)
                    &&& same_store(pre, post)
                    &&& same_camera(pre, post)
                    &&& same_palette(pre, post)
                    &&& cache_view(post.cache) == None::<FrameView>
                },
                _ => post == pre,
            }
        },
        Message::MouseDown(_) => {
            match pre.tool {
                Tool::Pen(false) => {
                    &&& post.tool == Tool::Pen(true)
                    &&& post.curves@.len() == pre.curves@.len() + 1
                    &&& forall|i: int| 0 <= i < pre.curves@.len()
                        ==> post.curves@[i] == pre.curves@[i]
                    &&& post.curves@.last().points@ == Seq::<Point>::empty()
                    &&& post.curves@.last().color == pre.active_color
                    &&& post.curves@.last().width == STROKE_WIDTH
                    &&& same_camera(pre, post)
                    &&& same_palette(pre, post)
                    &&& cache_view(post.cache) == None::<FrameView>
                },
                Tool::Erase(false) => {
                    &&& post.tool == Tool::Erase(true)
                    &&& same_store(pre, post)
                    &&& same_camera(pre, post)
                    &&& same_palette(pre, post)
                    &&& cache_view(post.cache) == None::<FrameView>
                },
                _ => post == pre,
            }
        },
        Message::SetTool(t) => {
            &&& post.tool == tool_of_selected(t)
            &&& same_store(pre, post)
            &&& same_camera(pre, post)
            &&& same_palette(pre, post)
            &&& cache_view(post.cache) == None::<FrameView>
        },
        Message::SetColor(c) => {
            &&& post.active_color == c
            &&& post.colors@ == pre.colors@
            &&& post.tool == pre.tool
            &&& same_store(pre, post)
            &&& same_camera(pre, post)
            &&& cache_view(post.cache) == cache_view(pre.cache)
        },
        Message::Clear => {
            &&& post.curves@ == Seq::<Curve>::empty()
            &&& post.tool == pre.tool
            &&& same_camera(pre, post)
            &&& same_palette(pre, post)
            &&& cache_view(post.cache) == None::<FrameView>
        },
        Message::DemoMessage => post == pre,
    }
}

impl World {
    /// Applies one message to the world.
    pub fn update(&mut self, message: Message)
        requires
            old(self).wf(),
            old(self).update_allowed(message),
        ensures
            final(self).wf(),
            step(*old(self), *final(self), message),
    {
        match message {
            Message::Pan(delta) => {
                self.camera.x = self.camera.x - delta.x;
                self.camera.y = self.camera.y - delta.y;
                self.cache.clear();
            },
            Message::Zoom(delta) => {
                self.camera.z = self.camera.z + delta;
                self.cache.clear();
            },
            Message::Move(point) => {
                match self.tool {
                    Tool::Pen(true) => {
                        let world_point = point.to_world(self.camera);
                        let mut curve = self.curves.pop().unwrap();
                        curve.push(world_point);
                        self.curves.push(curve);
                        self.cache.clear();
                        proof {
                            assert(self.curves@.last().points@
                                == old(self).curves@.last().points@.push(world_point));
                        }
                    },
                    _ => {},
                }
            },
            Message::MouseUp(_point) => {
                match self.tool {
                    Tool::Pen(true) => {
                        match self.curves.pop() {
                            Some(curve) => {
                                let reduced = curve.create_reduced(3);
                                self.curves.push(reduced);
                            },
                            None => {},
                        }
                        self.cache.clear();
                        self.tool = Tool::Pen(false);
                    },
                    Tool::Erase(true) => {
                        self.tool = Tool::Erase(false);
                        self.cache.clear();
                    },
                    _ => {},
                }
            },
            Message::MouseDown(_point) => {
                match self.tool {
                    Tool::Pen(false) => {
                        self.tool = Tool::Pen(true);
                        self.curves.push(Curve::new(Vec::new(), self.active_color));
                        self.cache.clear();
                    },
                    Tool::Erase(false) => {
                        self.tool = Tool::Erase(true);
                        self.cache.clear();
                    },
                    _ => {},
                }
            },
            Message::SetTool(tool) => {
                self.tool = Tool::from(tool);
                self.cache.clear();
            },
            Message::SetColor(color) => {
                self.active_color = color;
            },
            Message::Clear => {
                self.curves = Vec::new();
                self.cache.clear();
            },
            Message::DemoMessage => {},
        }
    }

    /// Builds the workspace for the current state: the camera, copies of the
    /// completed curves, no child elements, and the pan, press, move, and
    /// release reactions wired.
    pub fn view(&self) -> (w: Workspace)
        ensures
            w.camera == self.camera,
            w.primitives@.len() == self.curves@.len(),
            forall|i: int| 0 <= i < self.curves@.len() ==> {
                &&& #[trigger] w.primitives@[i].points@ == self.curves@[i].points@
                &&& w.primitives@[i].color == self.curves@[i].color
                &&& w.primitives@[i].width == self.curves@[i].width
            },
            rendered_view(w.camera, w.primitives@) == rendered_view(self.camera, self.curves@),
            w.elements@ == Seq::<(Point, Child)>::empty(),
            w.pan,
            !w.zoom,
            w.on_press,
            w.on_move,
            w.on_release,
    {
        let primitives = self.curves.clone();
        let w = Workspace::new(self.camera, primitives, Vec::new())
            .pan()
            .on_press()
            .on_release()
            .on_move();
        proof {
            assert(w.primitives@.map_values(|c: Curve| crate::render::curve_stroke(c))
                =~= self.curves@.map_values(|c: Curve| crate::render::curve_stroke(c)));
        }
        w
    }

    /// Draws the current state: the cached curve layer is fetched, or
    /// rebuilt from the camera and curve store when the cache is empty.
    pub fn draw(&mut self) -> (frame: Frame)
        requires
            old(self).wf(),
        ensures
            final(self).wf(),
            frame_view(frame) == draw_output(
                cache_view(old(self).cache),
                old(self).camera,
                old(self).curves@,
            ),
            cache_view(final(self).cache) == cache_after_draw(
                cache_view(old(self).cache),
                old(self).camera,
                old(self).curves@,
            ),
            final(self).curves@ == old(self).curves@,
            final(self).camera == old(self).camera,
            final(self).tool == old(self).tool,
            final(self).active_color == old(self).active_color,
            final(self).colors@ == old(self).colors@,
    {
        let ws = self.view();
        ws.draw(&mut self.cache)
    }
}

impl Default for World {
    /// A fresh world: no curves, the camera at the origin at depth 300, the
    /// pan tool active, an empty cache, and the default palette with its
    /// first swatch as the active colour.
    fn default() -> (w: World)
        ensures
            w.wf(),
            w.curves@ == Seq::<Curve>::empty(),
            w.camera == (Camera { x: 0, y: 0, z: 300 }),
            w.tool == Tool::Line,
            cache_view(w.cache) == None::<FrameView>,
            w.active_color == (Color { r: 204, g: 204, b: 204, a: 255 }),
            w.colors@ == default_palette(),
    {
        let colors = vec![
            Color { r: 204, g: 204, b: 204, a: 255 },
            Color { r: 128, g: 128, b: 128, a: 255 },
            Color { r: 128, g: 51, b: 51, a: 255 },
            Color { r: 102, g: 77, b: 26, a: 255 },
            Color { r: 51, g: 128, b: 51, a: 255 },
            Color { r: 51, g: 128, b: 128, a: 255 },
            Color { r: 51, g: 51, b: 128, a: 255 },
        ];
        proof {
            assert(colors@ =~= default_palette());
        }
        World {
            camera: Camera { x: 0, y: 0, z: 300 },
            tool: Tool::Line,
            curves: Vec::new(),
            cache: RenderCache::new(),
            colors,
            active_color: Color { r: 204, g: 204, b: 204, a: 255 },
        }
    }
}

/// Two successive pans compose additively on the camera offset, and leave
/// the curve store alone.
pub proof fn lemma_pan_accumulates(pre: World, mid: World, post: World, d1: Vector, d2: Vector)
    requires
        step(pre, mid, Message::Pan(d1)),
        step(mid, post, Message::Pan(d2)),
    ensures
        post.camera.x == pre.camera.x - (d1.x + d2.x),
        post.camera.y == pre.camera.y - (d1.y + d2.y),
        post.camera.z == pre.camera.z,
        post.curves@ == pre.curves@,
{
}

/// After `Clear` the store is empty and the cache is invalid, so the next
/// draw must rebuild and strokes no curve geometry at all.
pub proof fn lemma_clear_renders_nothing(pre: World, post: World)
    requires
        step(pre, post, Message::Clear),
    ensures
        draw_output(cache_view(post.cache), post.camera, post.curves@).1
            == Seq::<StrokeView>::empty(),
{
    lemma_empty_store_renders_nothing(post.camera);
    assert(rendered_view(post.camera, post.curves@)
        == rendered_view(post.camera, Seq::<Curve>::empty()));
}

} // verus!
