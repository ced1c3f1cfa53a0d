use editor::{Compositor, Figure, Position, Ratio, Vertex, WindowDimensions};

fn value(r: Ratio) -> f64 {
    r.num as f64 / r.den as f64
}

#[test]
fn test_to_gl() {
    let config = WindowDimensions::new(500, 300);

    let pos = Position::Pixel { x: 250, y: 150 };

    let vertex = pos.to_gl(config).unwrap();
    assert_eq!(value(vertex.x()), 0.0);
    assert_eq!(value(vertex.y()), 0.0);

    let pos = Position::End { y: 300 };

    let vertex = pos.to_gl(config).unwrap();
    assert_eq!(value(vertex.x()), 1.0);
    assert_eq!(value(vertex.y()), 1.0);
}

#[test]
fn mapper_gives_exact_fractions() {
    let config = WindowDimensions::new(500, 300);
    let v = Position::Pixel { x: 100, y: 225 }.to_gl(config).unwrap();
    // Below the midpoint: -2v / w. From it on: (2v - h) / h.
    assert_eq!((v.x().num, v.x().den), (-200, 500));
    assert_eq!((v.y().num, v.y().den), (150, 300));
    assert_eq!(value(v.y()), 0.5);
}

#[test]
fn mapper_branch_ends() {
    let config = WindowDimensions::new(500, 300);
    let origin = Position::Pixel { x: 0, y: 0 }.to_gl(config).unwrap();
    assert_eq!(value(origin.x()), 0.0);
    assert_eq!(value(origin.y()), 0.0);
    let far = Position::Pixel { x: 500, y: 300 }.to_gl(config).unwrap();
    assert_eq!(value(far.x()), 1.0);
    assert_eq!(value(far.y()), 1.0);
    let just_below = Position::Pixel { x: 249, y: 149 }.to_gl(config).unwrap();
    assert_eq!((just_below.x().num, just_below.x().den), (-498, 500));
    assert_eq!((just_below.y().num, just_below.y().den), (-298, 300));
}

#[test]
fn mapper_end_pins_right_edge() {
    let config = WindowDimensions::new(500, 300);
    let v = Position::End { y: 0 }.to_gl(config).unwrap();
    assert_eq!(value(v.x()), 1.0);
    assert_eq!(value(v.y()), 0.0);
}

#[test]
fn mapper_unsupported_anchors() {
    let config = WindowDimensions::new(500, 300);
    assert!(Position::Start { y: 10 }.to_gl(config).is_none());
    assert!(Position::Top { x: 10 }.to_gl(config).is_none());
    assert!(Position::Bottom { x: 10 }.to_gl(config).is_none());
}

#[test]
fn dimensions_floor_to_one() {
    let config = WindowDimensions::new(0, 0);
    assert_eq!(config.width(), 1);
    assert_eq!(config.height(), 1);
    let v = Position::Pixel { x: 1, y: 0 }.to_gl(config).unwrap();
    assert_eq!((v.x().num, v.x().den), (1, 1));
    assert_eq!(value(v.y()), 0.0);
    let kept = WindowDimensions::new(640, 0);
    assert_eq!(kept.width(), 640);
    assert_eq!(kept.height(), 1);
}

#[test]
fn mapped_vertex_is_default_yellow_on_plane_zero() {
    let config = WindowDimensions::new(500, 300);
    let v = Position::Pixel { x: 250, y: 150 }.to_gl(config).unwrap();
    let expected = Vertex::new(Ratio::integer(0), Ratio::integer(0));
    assert_eq!(v, expected);
    assert_eq!(value(v.z), 0.0);
    assert_eq!((value(v.color.r), value(v.color.g), value(v.color.b)), (1.0, 1.0, 0.0));
}

#[test]
fn compositor_scene_is_panel_then_green_bar() {
    let scene = Compositor {}.scene();
    assert_eq!(scene.data().len(), 8);
    assert_eq!(scene.indices(), &[0, 1, 3, 0, 3, 2, 4, 5, 7, 4, 7, 6]);
    let first = scene.data()[0];
    assert_eq!(value(first.x()), 0.4);
    assert_eq!(value(first.y()), -0.384);
    assert_eq!(value(first.color.r), 1.0);
    let bar = scene.data()[7];
    assert_eq!(value(bar.x()), -0.25);
    assert_eq!(value(bar.y()), 0.1);
    assert_eq!((value(bar.color.r), value(bar.color.g), value(bar.color.b)), (0.0, 1.0, 0.0));
}

#[test]
fn ratio_compares_by_value() {
    assert_eq!(Ratio::new(-4, 2), Ratio::integer(-2));
    assert_ne!(Ratio::new(1, 3), Ratio::new(1, 2));
    assert!(Ratio::new(150, 300).same(&Ratio::new(1, 2)));
}

#[test]
fn compositor_rectangles_keep_quad_indices() {
    let scene = Compositor {}.scene();
    let local: Vec<u16> = editor::Rectangle::new(
        Ratio::integer(0),
        Ratio::integer(0),
        Ratio::integer(1),
        Ratio::integer(1),
    )
    .indices();
    assert_eq!(&scene.indices()[..6], local.as_slice());
}
