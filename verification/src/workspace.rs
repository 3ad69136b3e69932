//! The workspace widget: an infinite canvas that shows the curve layer under
//! the camera transform, lays out child elements at fixed world positions,
//! and routes input events.
//!
//! Routing is a strict, non-reorderable priority rule: the event is offered
//! to every child element first, innermost first; if any child consumes it,
//! the workspace itself does not react.  Only an event left unconsumed is
//! dispatched by type to the workspace's own optional reactions.

use vstd::prelude::*;
use crate::curve::Curve;
use crate::geometry::{Camera, Point, Vector};
use crate::render::{
    cache_after_draw, cache_view, draw_output, frame_view, Frame, RenderCache,
};

verus! {

/// Whether a widget consumed the event offered to it.
#[derive(Clone, Copy, PartialEq, Eq, Structural, Debug)]
pub enum Status {
    Ignored,
    Captured,
}

pub open spec fn merge_status(a: Status, b: Status) -> Status {
    if a == Status::Captured || b == Status::Captured {
        Status::Captured
    } else {
        Status::Ignored
    }
}

impl Status {
    /// Combines two routing outcomes; a capture by either side wins.
    pub fn merge(self, other: Status) -> (r: Status)
        ensures
            r == merge_status(self, other),
    {
        match (self, other) {
            (Status::Ignored, Status::Ignored) => Status::Ignored,
            _ => Status::Captured,
        }
    }
}

#[derive(Clone, Copy, PartialEq, Eq, Structural, Debug)]
pub enum MouseButton {
    Left,
    Right,
    Middle,
    Other,
}

/// A wheel-scroll delta: discrete line counts or continuous pixel offsets.
#[derive(Clone, Copy, PartialEq, Eq, Structural, Debug)]
pub enum ScrollDelta {
    Lines { x: i64, y: i64 },
    Pixels { x: i64, y: i64 },
}

/// A discrete input event, as the host shell delivers it.  The cursor
/// position travels separately, since not every event carries one.
#[derive(Clone, Copy, PartialEq, Eq, Structural, Debug)]
pub enum Event {
    ButtonPressed(MouseButton),
    ButtonReleased(MouseButton),
    CursorMoved,
    WheelScrolled(ScrollDelta),
    FingerPressed,
    FingerMoved,
    FingerLifted,
    FingerLost,
    Other,
}

/// Button-down or finger-down.
pub open spec fn is_press(e: Event) -> bool {
    e == Event::ButtonPressed(MouseButton::Left) || e == Event::FingerPressed
}

/// Button-up, finger-lifted, or finger-lost.
pub open spec fn is_release(e: Event) -> bool {
    e == Event::ButtonReleased(MouseButton::Left) || e == Event::FingerLifted
        || e == Event::FingerLost
}

/// Cursor-moved or finger-moved.
pub open spec fn is_move(e: Event) -> bool {
    e == Event::CursorMoved || e == Event::FingerMoved
}

/// A child element laid out on the workspace.  Nested widgets need dynamic
/// dispatch in a GUI shell; here a child is its event-handling capability
/// set: the kinds of event it consumes when one is offered to it.
#[derive(Clone, Copy, PartialEq, Eq, Structural, Debug)]
pub struct Child {
    pub consumes_press: bool,
    pub consumes_release: bool,
    pub consumes_move: bool,
    pub consumes_wheel: bool,
    pub consumes_other: bool,
}

pub open spec fn child_consumes(c: Child, e: Event) -> bool {
    if is_press(e) {
        c.consumes_press
    } else if is_release(e) {
        c.consumes_release
    } else if is_move(e) {
        c.consumes_move
    } else if e is WheelScrolled {
        c.consumes_wheel
    } else {
        c.consumes_other
    }
}

impl Child {
    /// Offers an event to the child; it consumes exactly the kinds its
    /// capability set names.
    pub fn on_event(&self, event: &Event) -> (s: Status)
        ensures
            (s == Status::Captured) == child_consumes(*self, *event),
    {
        let consumes = match *event {
            Event::ButtonPressed(MouseButton::Left) | Event::FingerPressed => self.consumes_press,
            Event::ButtonReleased(MouseButton::Left) | Event::FingerLifted | Event::FingerLost =>
                self.consumes_release,
            Event::CursorMoved | Event::FingerMoved => self.consumes_move,
            Event::WheelScrolled(_) => self.consumes_wheel,
            _ => self.consumes_other,
        };
        if consumes {
            Status::Captured
        } else {
            Status::Ignored
        }
    }
}

/// What the workspace publishes when it reacts to an event itself.
#[derive(Clone, Copy, PartialEq, Eq, Structural, Debug)]
pub enum Action {
    Pan(Vector),
    Zoom(i64),
    Press(Point),
    Move(Point),
    Release,
}

/// Whether some child consumes the event.
pub open spec fn any_child_consumes(elements: Seq<(Point, Child)>, e: Event) -> bool {
    exists|i: int| 0 <= i < elements.len() && child_consumes(elements[i].1, e)
}

/// Scroll scaling: discrete line deltas are scaled by 5, continuous pixel
/// deltas pass through with sensitivity 1.
pub open spec fn pan_delta(d: ScrollDelta) -> (int, int) {
    match d {
        ScrollDelta::Lines { x, y } => (5 * x, 5 * y),
        ScrollDelta::Pixels { x, y } => (x as int, y as int),
    }
}

/// Which unconsumed events the workspace itself captures: a press with a
/// known cursor position, any release, a move with a known cursor position,
/// and any wheel scroll.  Everything else propagates upward.
pub open spec fn workspace_captures(e: Event, cursor: Option<Point>) -> bool {
    ||| (is_press(e) && cursor is Some)
    ||| is_release(e)
    ||| (is_move(e) && cursor is Some)
    ||| e is WheelScrolled
}

/// What the workspace publishes for an unconsumed event: each captured kind
/// emits its reaction when that reaction is wired, and nothing otherwise.
pub open spec fn workspace_action(w: Workspace, e: Event, cursor: Option<Point>) -> Option<
    Action,
> {
    if is_press(e) && cursor is Some {
        if w.on_press {
            Some(Action::Press(cursor.unwrap()))
        } else {
            None
        }
    } else if is_release(e) {
        if w.on_release {
            Some(Action::Release)
        } else {
            None
        }
    } else if is_move(e) && cursor is Some {
        if w.on_move {
            Some(Action::Move(cursor.unwrap()))
        } else {
            None
        }
    } else {
        match e {
            Event::WheelScrolled(d) => {
                if w.pan {
                    Some(
                        Action::Pan(
                            Vector { x: pan_delta(d).0 as i64, y: pan_delta(d).1 as i64 },
                        ),
                    )
                } else {
                    None
                }
            },
            _ => None,
        }
    }
}

/// The status the routing reports upward.  When a child consumes the event
/// the workspace reports it as ignored, so ancestors still see it as
/// unhandled; the workspace reports a capture only for its own dispatch.
pub open spec fn route_status(w: Workspace, e: Event, cursor: Option<Point>) -> Status {
    if any_child_consumes(w.elements@, e) {
        Status::Ignored
    } else if workspace_captures(e, cursor) {
        Status::Captured
    } else {
        Status::Ignored
    }
}

/// The action the routing publishes: none at all when a child consumed the
/// event, else the workspace's own reaction.
pub open spec fn route_action(w: Workspace, e: Event, cursor: Option<Point>) -> Option<Action> {
    if any_child_consumes(w.elements@, e) {
        None
    } else {
        workspace_action(w, e, cursor)
    }
}

/// An infinite canvas: a camera, the completed curves, child elements at
/// declared world positions, and flags recording which optional reactions
/// are wired.
pub struct Workspace {
    pub camera: Camera,
    pub primitives: Vec<Curve>,
    pub elements: Vec<(Point, Child)>,
    pub pan: bool,
    pub zoom: bool,
    pub on_press: bool,
    pub on_move: bool,
    pub on_release: bool,
}

/// The result of laying out the workspace: it claims all the space offered,
/// and each child stands at its declared position, independent of the camera
/// pan — only the curve layer is camera-transformed.
pub struct Layout {
    pub width: i64,
    pub height: i64,
    pub child_positions: Vec<Point>,
}

impl Workspace {
    /// A workspace with no reactions wired yet.
    pub fn new(camera: Camera, primitives: Vec<Curve>, elements: Vec<(Point, Child)>) -> (w:
        Workspace)
        ensures
            w.camera == camera,
            w.primitives@ == primitives@,
            w.elements@ == elements@,
            !w.pan,
            !w.zoom,
            !w.on_press,
            !w.on_move,
            !w.on_release,
    {
        Workspace {
            camera,
            primitives,
            elements,
            pan: false,
            zoom: false,
            on_press: false,
            on_move: false,
            on_release: false,
        }
    }

    /// Wires the on-pan reaction.
    pub fn pan(self) -> (w: Workspace)
        ensures
            w == (Workspace { pan: true, ..self }),
    {
        Workspace { pan: true, ..self }
    }

    /// Wires the on-zoom reaction.
    pub fn zoom(self) -> (w: Workspace)
        ensures
            w == (Workspace { zoom: true, ..self }),
    {
        Workspace { zoom: true, ..self }
    }

    /// Wires the on-press reaction.
    pub fn on_press(self) -> (w: Workspace)
        ensures
            w == (Workspace { on_press: true, ..self }),
    {
        Workspace { on_press: true, ..self }
    }

    /// Wires the on-move reaction.
    pub fn on_move(self) -> (w: Workspace)
        ensures
            w == (Workspace { on_move: true, ..self }),
    {
        Workspace { on_move: true, ..self }
    }

    /// Wires the on-release reaction.
    pub fn on_release(self) -> (w: Workspace)
        ensures
            w == (Workspace { on_release: true, ..self }),
    {
        Workspace { on_release: true, ..self }
    }

    /// Lays the workspace out in the space offered to it.
    pub fn layout(&self, width: i64, height: i64) -> (r: Layout)
        ensures
            r.width == width,
            r.height == height,
            r.child_positions@ == self.elements@.map_values(|e: (Point, Child)| e.0),
    {
        let mut child_positions: Vec<Point> = Vec::new();
        let n = self.elements.len();
        let mut i: usize = 0;
        while i < n
            invariant
                i <= n,
                n == self.elements@.len(),
                child_positions@.len() == i,
                forall|j: int| #![trigger child_positions@[j]] 0 <= j < i
                    ==> child_positions@[j] == self.elements@[j].0,
            decreases n - i,
        {
            child_positions.push(self.elements[i].0);
            i = i + 1;
        }
        proof {
            assert(child_positions@ =~= self.elements@.map_values(|e: (Point, Child)| e.0));
        }
        Layout { width, height, child_positions }
    }

    /// Draws the curve layer: the memoized frame is fetched, or rebuilt from
    /// this workspace's camera and curves when the cache is empty.
    pub fn draw(&self, cache: &mut RenderCache) -> (frame: Frame)
        requires
            self.camera.x > i64::MIN,
            self.camera.y > i64::MIN,
        ensures
            frame_view(frame) == draw_output(
                cache_view(*old(cache)),
                self.camera,
                self.primitives@,
            ),
            cache_view(*final(cache)) == cache_after_draw(
                cache_view(*old(cache)),
                self.camera,
                self.primitives@,
            ),
    {
        cache.draw(self.camera, &self.primitives)
    }

    /// Routes one input event: children first, innermost first, then the
    /// typed dispatch of the workspace itself.
    pub fn on_event(&self, event: &Event, cursor: Option<Point>) -> (r: (Status, Option<Action>))
        requires
            match *event {
                Event::WheelScrolled(ScrollDelta::Lines { x, y }) => {
                    &&& i64::MIN <= 5 * x <= i64::MAX
                    &&& i64::MIN <= 5 * y <= i64::MAX
                },
                _ => true,
            },
        ensures
            r.0 == route_status(*self, *event, cursor),
            r.1 == route_action(*self, *event, cursor),
    {
        let mut status = Status::Ignored;
        let n = self.elements.len();
        let mut i: usize = 0;
        while i < n
            invariant
                i <= n,
                n == self.elements@.len(),
                (status == Status::Captured) == any_child_consumes(
                    self.elements@.take(i as int),
                    *event,
                ),
            decreases n - i,
        {
            let s = (&self.elements[i].1).on_event(event);
            proof {
                if s == Status::Captured {
                    assert(child_consumes(self.elements@.take(i + 1 as int)[i as int].1, *event));
                }
                if status == Status::Captured {
                    let k = choose|k: int|
                        0 <= k < i && child_consumes(self.elements@.take(i as int)[k].1, *event);
                    assert(child_consumes(self.elements@.take(i + 1 as int)[k].1, *event));
                }
            }
            status = status.merge(s);
            proof {
                if status != Status::Captured {
                    assert forall|k: int|
                        0 <= k < i + 1 implies !child_consumes(
                        #[trigger] self.elements@.take(i + 1 as int)[k].1,
                        *event,
                    ) by {
                        if k < i {
                            assert(self.elements@.take(i + 1 as int)[k]
                                == self.elements@.take(i as int)[k]);
                        }
                    }
                }
            }
            i = i + 1;
        }
        proof {
            assert(self.elements@.take(n as int) =~= self.elements@);
        }
        match status {
            Status::Ignored => match *event {
                Event::ButtonPressed(MouseButton::Left) | Event::FingerPressed => match cursor {
                    Some(p) => {
                        let action = if self.on_press {
                            Some(Action::Press(p))
                        } else {
                            None
                        };
                        (Status::Captured, action)
                    },
                    None => (Status::Ignored, None),
                },
                Event::ButtonReleased(MouseButton::Left) | Event::FingerLifted
                    | Event::FingerLost => {
                    let action = if self.on_release {
                        Some(Action::Release)
                    } else {
                        None
                    };
                    (Status::Captured, action)
                },
                Event::CursorMoved | Event::FingerMoved => match cursor {
                    Some(p) => {
                        let action = if self.on_move {
                            Some(Action::Move(p))
                        } else {
                            None
                        };
                        (Status::Captured, action)
                    },
                    None => (Status::Ignored, None),
                },
                Event::WheelScrolled(delta) => {
                    let action = if self.pan {
                        let v = match delta {
                            ScrollDelta::Lines { x, y } => Vector { x: 5 * x, y: 5 * y },
                            ScrollDelta::Pixels { x, y } => Vector { x, y },
                        };
                        Some(Action::Pan(v))
                    } else {
                        None
                    };
                    (Status::Captured, action)
                },
                _ => (Status::Ignored, None),
            },
            _ => (Status::Ignored, None),
        }
    }
}

/// Creates a new workspace.
pub fn workspace(camera: Camera, primitives: Vec<Curve>, elements: Vec<(Point, Child)>) -> (w:
    Workspace)
    ensures
        w.camera == camera,
        w.primitives@ == primitives@,
        w.elements@ == elements@,
        !w.pan,
        !w.zoom,
        !w.on_press,
        !w.on_move,
        !w.on_release,
{
    Workspace::new(camera, primitives, elements)
}

/// A child that consumes an event shields the workspace from it: no reaction
/// of the workspace itself is published.
pub proof fn lemma_children_take_precedence(w: Workspace, e: Event, cursor: Option<Point>)
    requires
        any_child_consumes(w.elements@, e),
    ensures
        route_action(w, e, cursor) == None::<Action>,
{
}

/// With no child consuming it, a press with a known cursor position reaches
/// the workspace's own wired press reaction.
pub proof fn lemma_unshielded_press_reaches_workspace(w: Workspace, e: Event, p: Point)
    requires
        !any_child_consumes(w.elements@, e),
        is_press(e),
        w.on_press,
    ensures
        route_action(w, e, Some(p)) == Some(Action::Press(p)),
{
}

} // verus!
