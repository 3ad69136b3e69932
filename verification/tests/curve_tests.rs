use monstera::curve::{Curve, PathCmd, STROKE_WIDTH};
use monstera::geometry::{Color, Point};
use monstera::render::Frame;

fn pt(x: i64, y: i64) -> Point {
    Point { x, y }
}

fn red() -> Color {
    Color { r: 255, g: 0, b: 0, a: 255 }
}

#[test]
fn path_starts_with_move_then_lines() {
    let curve = Curve::new(vec![pt(0, 0), pt(10, 0), pt(10, 10)], red());
    let mut frame = Frame::new();
    curve.draw(&mut frame);
    assert_eq!(frame.strokes.len(), 1);
    let stroke = &frame.strokes[0];
    assert_eq!(
        stroke.path,
        vec![
            PathCmd::MoveTo(pt(0, 0)),
            PathCmd::LineTo(pt(10, 0)),
            PathCmd::LineTo(pt(10, 10)),
        ]
    );
    assert_eq!(stroke.color, red());
    assert_eq!(stroke.width, STROKE_WIDTH);
}

#[test]
fn empty_curve_yields_no_segments() {
    let curve = Curve::new(vec![], red());
    let mut frame = Frame::new();
    curve.draw(&mut frame);
    assert_eq!(frame.strokes.len(), 1);
    assert_eq!(frame.strokes[0].path, vec![]);
}

#[test]
fn build_path_single_point() {
    let path = Curve::build_path(&vec![pt(7, -3)]);
    assert_eq!(path, vec![PathCmd::MoveTo(pt(7, -3))]);
}

#[test]
fn reduced_keeps_chunk_heads() {
    let points = vec![
        pt(0, 0),
        pt(1, 0),
        pt(2, 0),
        pt(3, 0),
        pt(4, 0),
        pt(5, 0),
        pt(6, 0),
    ];
    let curve = Curve::new(points, red());
    let reduced = curve.create_reduced(3);
    assert_eq!(reduced.points, vec![pt(0, 0), pt(3, 0), pt(6, 0)]);
    assert_eq!(reduced.color, red());
    assert_eq!(reduced.width, STROKE_WIDTH);
}

#[test]
fn reduced_exact_multiple() {
    let points = vec![pt(0, 0), pt(1, 1), pt(2, 2), pt(3, 3), pt(4, 4), pt(5, 5)];
    let curve = Curve::new(points, red());
    let reduced = curve.create_reduced(3);
    assert_eq!(reduced.points, vec![pt(0, 0), pt(3, 3)]);
}

#[test]
fn reduced_empty_is_empty() {
    let curve = Curve::new(vec![], red());
    let reduced = curve.create_reduced(3);
    assert_eq!(reduced.points, vec![]);
}

#[test]
fn reduced_factor_one_is_identity() {
    let points = vec![pt(1, 2), pt(3, 4)];
    let curve = Curve::new(points.clone(), red());
    let reduced = curve.create_reduced(1);
    assert_eq!(reduced.points, points);
}

#[test]
fn reduced_two_points_keeps_first() {
    let curve = Curve::new(vec![pt(10, 10), pt(20, 10)], red());
    let reduced = curve.create_reduced(3);
    assert_eq!(reduced.points, vec![pt(10, 10)]);
}

#[test]
fn push_appends_point() {
    let mut curve = Curve::new(vec![pt(1, 1)], red());
    curve.push(pt(2, 2));
    assert_eq!(curve.points, vec![pt(1, 1), pt(2, 2)]);
}

#[test]
fn curve_clone_is_exact() {
    let curve = Curve::new(vec![pt(1, 1), pt(2, 2)], red());
    let copy = curve.clone();
    assert_eq!(copy, curve);
}

#[test]
fn curve_default_is_empty_white() {
    let curve = Curve::default();
    assert_eq!(curve.points, vec![]);
    assert_eq!(curve.color, Color { r: 255, g: 255, b: 255, a: 255 });
    assert_eq!(curve.width, STROKE_WIDTH);
}
