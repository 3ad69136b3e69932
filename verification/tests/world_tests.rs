use monstera::geometry::{Camera, Color, Point, Vector};
use monstera::world::{Message, SelectedTool, Tool, World};
use monstera::workspace::{Action, Event, ScrollDelta, Status};

fn pt(x: i64, y: i64) -> Point {
    Point { x, y }
}

fn blue() -> Color {
    Color { r: 51, g: 51, b: 128, a: 255 }
}

/// A press-move-release drawing gesture through the state machine.
fn gesture(world: &mut World, points: &[Point]) {
    world.update(Message::MouseDown(points[0]));
    for p in points {
        world.update(Message::Move(*p));
    }
    world.update(Message::MouseUp(points[points.len() - 1]));
}

#[test]
fn default_world() {
    let world = World::default();
    assert_eq!(world.camera, Camera { x: 0, y: 0, z: 300 });
    assert_eq!(world.tool, Tool::Line);
    assert_eq!(world.curves.len(), 0);
    assert!(world.cache.cached.is_none());
    assert_eq!(world.active_color, Color { r: 204, g: 204, b: 204, a: 255 });
    assert_eq!(world.colors.len(), 7);
}

#[test]
fn pan_pixel_delta_moves_camera_opposite() {
    let mut world = World::default();
    let ws = world.view();
    let r = ws.on_event(&Event::WheelScrolled(ScrollDelta::Pixels { x: 3, y: 4 }), None);
    assert_eq!(r.0, Status::Captured);
    let Some(Action::Pan(delta)) = r.1 else {
        panic!("expected a pan action");
    };
    assert_eq!(delta, Vector { x: 3, y: 4 });
    world.update(Message::Pan(delta));
    assert_eq!(world.camera, Camera { x: -3, y: -4, z: 300 });
}

#[test]
fn pan_line_delta_scaled_by_five() {
    let mut world = World::default();
    let ws = world.view();
    let r = ws.on_event(&Event::WheelScrolled(ScrollDelta::Lines { x: 2, y: 1 }), None);
    let Some(Action::Pan(delta)) = r.1 else {
        panic!("expected a pan action");
    };
    assert_eq!(delta, Vector { x: 10, y: 5 });
    world.update(Message::Pan(delta));
    assert_eq!(world.camera, Camera { x: -10, y: -5, z: 300 });
}

#[test]
fn pans_accumulate_additively() {
    let mut world = World::default();
    world.update(Message::Pan(Vector { x: 3, y: 4 }));
    world.update(Message::Pan(Vector { x: 10, y: 5 }));
    assert_eq!(world.camera, Camera { x: -13, y: -9, z: 300 });
}

#[test]
fn zoom_changes_depth_only() {
    let mut world = World::default();
    world.update(Message::Zoom(25));
    assert_eq!(world.camera, Camera { x: 0, y: 0, z: 325 });
    assert!(world.cache.cached.is_none());
}

#[test]
fn draw_gesture_end_to_end() {
    let mut world = World::default();
    world.update(Message::SetTool(SelectedTool::Pen));
    assert_eq!(world.tool, Tool::Pen(false));
    assert_eq!(world.camera, Camera { x: 0, y: 0, z: 300 });

    world.update(Message::MouseDown(pt(10, 10)));
    assert_eq!(world.tool, Tool::Pen(true));
    assert_eq!(world.curves.len(), 1);
    assert_eq!(world.curves[0].points, vec![]);

    world.update(Message::Move(pt(10, 10)));
    assert_eq!(world.curves[0].points, vec![pt(10, 10)]);

    world.update(Message::Move(pt(20, 10)));
    assert_eq!(world.curves[0].points, vec![pt(10, 10), pt(20, 10)]);

    world.update(Message::MouseUp(pt(20, 10)));
    assert_eq!(world.tool, Tool::Pen(false));
    assert_eq!(world.curves.len(), 1);
    assert_eq!(world.curves[0].points, vec![pt(10, 10)]);
}

#[test]
fn release_reduces_by_factor_three() {
    let mut world = World::default();
    world.update(Message::SetTool(SelectedTool::Pen));
    gesture(
        &mut world,
        &[pt(0, 0), pt(1, 0), pt(2, 0), pt(3, 0), pt(4, 0), pt(5, 0), pt(6, 0)],
    );
    assert_eq!(world.curves.len(), 1);
    assert_eq!(world.curves[0].points, vec![pt(0, 0), pt(3, 0), pt(6, 0)]);
}

#[test]
fn moves_are_translated_into_world_space() {
    let mut world = World::default();
    world.update(Message::Pan(Vector { x: 5, y: -7 }));
    world.update(Message::SetTool(SelectedTool::Pen));
    world.update(Message::MouseDown(pt(0, 0)));
    world.update(Message::Move(pt(10, 10)));
    assert_eq!(world.curves[0].points, vec![pt(5, 17)]);
}

#[test]
fn new_curves_take_the_active_color() {
    let mut world = World::default();
    world.update(Message::SetColor(blue()));
    world.update(Message::SetTool(SelectedTool::Pen));
    world.update(Message::MouseDown(pt(0, 0)));
    assert_eq!(world.curves[0].color, blue());
}

#[test]
fn set_color_leaves_existing_curves_and_cache() {
    let mut world = World::default();
    world.update(Message::SetTool(SelectedTool::Pen));
    gesture(&mut world, &[pt(0, 0)]);
    let before = world.curves[0].color;
    world.draw();
    assert!(world.cache.cached.is_some());
    world.update(Message::SetColor(blue()));
    assert_eq!(world.curves[0].color, before);
    assert!(world.cache.cached.is_some());
    assert_eq!(world.active_color, blue());
}

#[test]
fn clear_empties_store_and_renders_nothing() {
    let mut world = World::default();
    world.update(Message::SetTool(SelectedTool::Pen));
    for i in 0..5i64 {
        gesture(&mut world, &[pt(i, i), pt(i + 1, i)]);
    }
    assert_eq!(world.curves.len(), 5);
    world.update(Message::Clear);
    assert_eq!(world.curves.len(), 0);
    assert!(world.cache.cached.is_none());
    let frame = world.draw();
    assert_eq!(frame.strokes.len(), 0);
}

#[test]
fn consecutive_draws_are_identical() {
    let mut world = World::default();
    world.update(Message::SetTool(SelectedTool::Pen));
    gesture(&mut world, &[pt(1, 1), pt(2, 2), pt(3, 3)]);
    let first = world.draw();
    assert!(world.cache.cached.is_some());
    let second = world.draw();
    assert_eq!(first, second);
    assert_eq!(world.cache.cached, Some(first));
}

#[test]
fn camera_change_invalidates_and_draw_rebuilds() {
    let mut world = World::default();
    world.update(Message::SetTool(SelectedTool::Pen));
    gesture(&mut world, &[pt(1, 1), pt(2, 2)]);
    let first = world.draw();
    assert_eq!(first.translation, Vector { x: 0, y: 0 });
    world.update(Message::Pan(Vector { x: 4, y: 6 }));
    assert!(world.cache.cached.is_none());
    let second = world.draw();
    assert_eq!(second.translation, Vector { x: 4, y: 6 });
    assert_eq!(second.strokes, first.strokes);
}

#[test]
fn draw_translates_by_negated_camera() {
    let mut world = World::default();
    world.update(Message::Pan(Vector { x: -8, y: 3 }));
    let frame = world.draw();
    assert_eq!(frame.translation, Vector { x: -8, y: 3 });
}

#[test]
fn tool_switch_mid_gesture_abandons_curve() {
    let mut world = World::default();
    world.update(Message::SetTool(SelectedTool::Pen));
    world.update(Message::MouseDown(pt(0, 0)));
    world.update(Message::Move(pt(1, 1)));
    world.update(Message::SetTool(SelectedTool::Erase));
    assert_eq!(world.tool, Tool::Erase(false));
    assert_eq!(world.curves.len(), 1);
    assert_eq!(world.curves[0].points, vec![pt(1, 1)]);
}

#[test]
fn erase_gesture_toggles_without_curves() {
    let mut world = World::default();
    world.update(Message::SetTool(SelectedTool::Erase));
    world.update(Message::MouseDown(pt(0, 0)));
    assert_eq!(world.tool, Tool::Erase(true));
    world.update(Message::MouseUp(pt(0, 0)));
    assert_eq!(world.tool, Tool::Erase(false));
    assert_eq!(world.curves.len(), 0);
}

#[test]
fn mouse_up_outside_gesture_does_nothing() {
    let mut world = World::default();
    world.update(Message::SetTool(SelectedTool::Pen));
    world.update(Message::MouseUp(pt(0, 0)));
    assert_eq!(world.tool, Tool::Pen(false));
    assert_eq!(world.curves.len(), 0);
}

#[test]
fn move_outside_gesture_does_nothing() {
    let mut world = World::default();
    world.update(Message::Move(pt(9, 9)));
    assert_eq!(world.curves.len(), 0);
    assert_eq!(world.camera, Camera { x: 0, y: 0, z: 300 });
}

#[test]
fn demo_message_changes_nothing() {
    let mut world = World::default();
    world.update(Message::DemoMessage);
    assert_eq!(world.tool, Tool::Line);
    assert_eq!(world.curves.len(), 0);
}

#[test]
fn tool_conversions_round_trip_selection() {
    assert_eq!(Tool::from(SelectedTool::Pen), Tool::Pen(false));
    assert_eq!(Tool::from(SelectedTool::Line), Tool::Line);
    assert_eq!(Tool::from(SelectedTool::Erase), Tool::Erase(false));
    assert_eq!(SelectedTool::from(Tool::Pen(true)), SelectedTool::Pen);
    assert_eq!(SelectedTool::from(Tool::Erase(false)), SelectedTool::Erase);
    assert_eq!(SelectedTool::from(Tool::Line), SelectedTool::Line);
}

#[test]
fn view_wires_reactions_and_copies_state() {
    let mut world = World::default();
    world.update(Message::SetTool(SelectedTool::Pen));
    gesture(&mut world, &[pt(1, 2)]);
    let ws = world.view();
    assert_eq!(ws.camera, world.camera);
    assert_eq!(ws.primitives.len(), 1);
    assert_eq!(ws.primitives[0].points, world.curves[0].points);
    assert_eq!(ws.elements.len(), 0);
    assert!(ws.pan && ws.on_press && ws.on_move && ws.on_release && !ws.zoom);
}
