//! A small demonstration element: a widget showing a curve that can be
//! dragged across the workspace.  Its drag gesture is a three-state machine:
//! idle, armed (waiting for the first move to fix the grab offset), and
//! following the cursor at that offset.

use vstd::prelude::*;
use crate::curve::Curve;
use crate::geometry::{Point, Vector};

verus! {

/// What the drag gesture is currently doing.
#[derive(Debug, Clone, Copy, PartialEq, Eq, Structural)]
pub enum Action {
    Idle,
    Drag(Option<Vector>),
}

/// A message from the demonstration widget's own controls.
#[derive(Debug, Clone, Copy, PartialEq, Eq, Structural)]
pub enum Message {
    Click,
    Move(Point),
    Release,
}

/// The demonstration widget's state: where it stands, what its drag gesture
/// is doing, and the curve it displays.
#[derive(Debug)]
pub struct State {
    pub position: Point,
    pub action: Action,
    pub curve: Curve,
    pub step: usize,
}

impl State {
    /// The arithmetic room an update needs: grab offsets and dragged
    /// positions must be representable.
    pub open spec fn update_allowed(self, message: Message) -> bool {
        match message {
            Message::Move(p) => match self.action {
                Action::Idle => true,
                Action::Drag(None) => {
                    &&& i64::MIN <= self.position.x - p.x <= i64::MAX
                    &&& i64::MIN <= self.position.y - p.y <= i64::MAX
                },
                Action::Drag(Some(offset)) => {
                    &&& i64::MIN <= p.x - offset.x <= i64::MAX
                    &&& i64::MIN <= p.y - offset.y <= i64::MAX
                },
            },
            _ => true,
        }
    }

    /// One step of the drag state machine: a click arms the drag, the first
    /// move fixes the grab offset, every further move places the widget at
    /// the cursor minus that offset, and a release returns to idle.
    pub fn update(&mut self, message: Message)
        requires
            old(self).update_allowed(message),
        ensures
            final(self).curve == old(self).curve,
            final(self).step == old(self).step,
            match message {
                Message::Click => {
                    &&& final(self).action == Action::Drag(None::<Vector>)
                    &&& final(self).position == old(self).position
                },
                Message::Move(p) => match old(self).action {
                    Action::Idle => {
                        &&& final(self).action == old(self).action
                        &&& final(self).position == old(self).position
                    },
                    Action::Drag(None) => {
                        &&& final(self).action == Action::Drag(
                            Some(
                                Vector {
                                    x: (old(self).position.x - p.x) as i64,
                                    y: (old(self).position.y - p.y) as i64,
                                },
                            ),
                        )
                        &&& final(self).position == old(self).position
                    },
                    Action::Drag(Some(offset)) => {
                        &&& final(self).action == old(self).action
                        &&& final(self).position == (Point {
                            x: (p.x - offset.x) as i64,
                            y: (p.y - offset.y) as i64,
                        })
                    },
                },
                Message::Release => {
                    &&& final(self).action == Action::Idle
                    &&& final(self).position == old(self).position
                },
            },
    {
        match message {
            Message::Click => {
                self.action = Action::Drag(None);
            },
            Message::Move(point) => {
                match self.action {
                    Action::Idle => {},
                    Action::Drag(None) => {
                        self.action = Action::Drag(
                            Some(
                                Vector {
                                    x: self.position.x - point.x,
                                    y: self.position.y - point.y,
                                },
                            ),
                        );
                    },
                    Action::Drag(Some(offset)) => {
                        self.position = Point { x: point.x - offset.x, y: point.y - offset.y };
                    },
                }
            },
            Message::Release => {
                self.action = Action::Idle;
            },
        }
    }
}

impl Default for State {
    /// At the origin, idle, with an empty curve.
    fn default() -> (s: Self)
        ensures
            s.position == (Point { x: 0, y: 0 }),
            s.action == Action::Idle,
            s.curve.points@ == Seq::<Point>::empty(),
            s.step == 0,
    {
        State {
            position: Point { x: 0, y: 0 },
            action: Action::Idle,
            curve: Curve::default(),
            step: 0,
        }
    }
}

} // verus!
