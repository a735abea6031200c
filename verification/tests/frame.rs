use unicorn_painter::frame::{draw_primitives, render_primitive, tick, SceneProducer};
use unicorn_painter::painter::RenderError;
use unicorn_painter::primitives::{
    EllipseData, GeometricPrimitive, LineData, PathData, PathSegment, Point, RectangleData,
    Styles, TextData,
};
use unicorn_painter::surface::{Surface, SurfaceOp};

fn fill(color: &str) -> Styles {
    Styles::Fill { color: color.to_string() }
}

fn stroke(color: &str, width: u32) -> Styles {
    Styles::Stroke { color: color.to_string(), width }
}

/// The example scene: a blue sharp rectangle at a time-varying left offset,
/// a pink rounded rectangle, a green stroked line, red-orange text, a green
/// stroked ellipse, a yellow filled triangle and a purple stroked compound
/// path.
struct ExampleScene;

impl SceneProducer for ExampleScene {
    fn update(&mut self, timestamp: u64) -> Vec<GeometricPrimitive> {
        let offset = (timestamp / 10 % 500) as u32;
        vec![
            GeometricPrimitive::Rectangle {
                data: RectangleData {
                    left: offset,
                    top: 50,
                    width: 150,
                    height: 100,
                    rx: 0,
                    ry: 0,
                },
                styles: fill("blue"),
            },
            GeometricPrimitive::Rectangle {
                data: RectangleData {
                    left: 600,
                    top: 400,
                    width: 100,
                    height: 75,
                    rx: 10,
                    ry: 10,
                },
                styles: fill("pink"),
            },
            GeometricPrimitive::Line {
                data: LineData { x1: 250, y1: 275, x2: 350, y2: 150 },
                styles: stroke("green", 5),
            },
            GeometricPrimitive::Text {
                data: TextData {
                    x: 300,
                    y: 25,
                    text: "hello".to_string(),
                    font: "30px sans-serif".to_string(),
                },
                styles: fill("orangered"),
            },
            GeometricPrimitive::Ellipse {
                data: EllipseData { cx: 400, cy: 100, rx: 25, ry: 75 },
                styles: stroke("green", 5),
            },
            GeometricPrimitive::Polygon {
                points: vec![
                    Point { x: 100, y: 300 },
                    Point { x: 150, y: 250 },
                    Point { x: 200, y: 300 },
                ],
                styles: fill("yellow"),
            },
            GeometricPrimitive::Path {
                data: PathData {
                    start_x: 60,
                    start_y: 70,
                    segments: vec![
                        PathSegment::LineTo { to_x: 75, to_y: 95 },
                        PathSegment::BezierCurveTo {
                            cp1_x: 80,
                            cp1_y: 100,
                            cp2_x: 105,
                            cp2_y: 120,
                            to_x: 125,
                            to_y: 105,
                        },
                        PathSegment::QuadraticCurveTo { cp_x: 140, cp_y: 90, to_x: 150, to_y: 25 },
                    ],
                },
                styles: stroke("purple", 2),
            },
        ]
    }
}

struct BadScene;

impl SceneProducer for BadScene {
    fn update(&mut self, _timestamp: u64) -> Vec<GeometricPrimitive> {
        vec![
            GeometricPrimitive::Rectangle {
                data: RectangleData { left: 0, top: 0, width: 4, height: 4, rx: 0, ry: 0 },
                styles: fill("blue"),
            },
            GeometricPrimitive::Polygon { points: vec![], styles: fill("yellow") },
            GeometricPrimitive::Line {
                data: LineData { x1: 0, y1: 0, x2: 1, y2: 1 },
                styles: stroke("green", 1),
            },
        ]
    }
}

/// One committed draw as a surface executes it: the commit operation plus
/// the paint state set since the previous commit.
#[derive(Debug, PartialEq)]
struct Commit {
    kind: &'static str,
    fill_color: Option<String>,
    stroke_color: Option<String>,
    width: Option<u32>,
}

fn commits(ops: &[SurfaceOp]) -> Vec<Commit> {
    let mut out = Vec::new();
    let mut fill_color: Option<String> = None;
    let mut stroke_color: Option<String> = None;
    let mut width: Option<u32> = None;
    for op in ops {
        let kind = match op {
            SurfaceOp::SetFillColor { color } => {
                fill_color = Some(color.clone());
                None
            },
            SurfaceOp::SetStrokeColor { color } => {
                stroke_color = Some(color.clone());
                None
            },
            SurfaceOp::SetLineWidth { width: w } => {
                width = Some(*w);
                None
            },
            SurfaceOp::Fill => Some("fill"),
            SurfaceOp::Stroke => Some("stroke"),
            SurfaceOp::FillRect { .. } => Some("fill_rect"),
            SurfaceOp::StrokeRect { .. } => Some("stroke_rect"),
            SurfaceOp::FillText { .. } => Some("fill_text"),
            SurfaceOp::StrokeText { .. } => Some("stroke_text"),
            _ => None,
        };
        if let Some(kind) = kind {
            out.push(Commit {
                kind,
                fill_color: fill_color.take(),
                stroke_color: stroke_color.take(),
                width: width.take(),
            });
        }
    }
    out
}

#[test]
fn tick_starts_with_clear() {
    let mut s = Surface::new();
    let mut scene = ExampleScene;
    tick(&mut scene, 0, &mut s).unwrap();
    assert!(matches!(s.ops[0], SurfaceOp::Clear));
    assert!(s.ops[1..].iter().all(|op| !matches!(op, SurfaceOp::Clear)));
}

#[test]
fn second_frame_clears_before_drawing() {
    let mut s = Surface::new();
    let mut scene = ExampleScene;
    tick(&mut scene, 0, &mut s).unwrap();
    let first_len = s.ops.len();
    tick(&mut scene, 1000, &mut s).unwrap();
    // The first frame's transcript is untouched, and the first operation of
    // the second frame is its clear: nothing of frame one survives frame two.
    assert!(s.ops.len() > first_len);
    assert!(matches!(s.ops[first_len], SurfaceOp::Clear));
    assert!(s.ops[first_len + 1..].iter().all(|op| !matches!(op, SurfaceOp::Clear)));
}

#[test]
fn frames_differ_only_in_time_varying_data() {
    let mut s0 = Surface::new();
    let mut s1 = Surface::new();
    tick(&mut ExampleScene, 0, &mut s0).unwrap();
    tick(&mut ExampleScene, 1000, &mut s1).unwrap();
    assert_eq!(s0.ops.len(), s1.ops.len());
    // Timestamp 0 puts the blue rectangle at left 0; timestamp 1000 at 100.
    assert!(matches!(s0.ops[2], SurfaceOp::FillRect { left: 0, .. }));
    assert!(matches!(s1.ops[2], SurfaceOp::FillRect { left: 100, .. }));
}

#[test]
fn example_scene_commits_in_order() {
    let mut s = Surface::new();
    tick(&mut ExampleScene, 12340, &mut s).unwrap();
    let cs = commits(&s.ops);
    assert_eq!(cs.len(), 7);
    assert_eq!(cs[0].kind, "fill_rect");
    assert_eq!(cs[0].fill_color.as_deref(), Some("blue"));
    assert_eq!(cs[1].kind, "fill");
    assert_eq!(cs[1].fill_color.as_deref(), Some("pink"));
    assert_eq!(cs[2].kind, "stroke");
    assert_eq!(cs[2].stroke_color.as_deref(), Some("green"));
    assert_eq!(cs[2].width, Some(5));
    assert_eq!(cs[3].kind, "fill_text");
    assert_eq!(cs[3].fill_color.as_deref(), Some("orangered"));
    assert_eq!(cs[4].kind, "stroke");
    assert_eq!(cs[4].stroke_color.as_deref(), Some("green"));
    assert_eq!(cs[4].width, Some(5));
    assert_eq!(cs[5].kind, "fill");
    assert_eq!(cs[5].fill_color.as_deref(), Some("yellow"));
    assert_eq!(cs[6].kind, "stroke");
    assert_eq!(cs[6].stroke_color.as_deref(), Some("purple"));
    assert_eq!(cs[6].width, Some(2));
}

#[test]
fn render_primitive_dispatches() {
    let mut s = Surface::new();
    let prim = GeometricPrimitive::Ellipse {
        data: EllipseData { cx: 1, cy: 2, rx: 3, ry: 4 },
        styles: fill("red"),
    };
    assert_eq!(render_primitive(&mut s, &prim), Ok(()));
    assert!(matches!(s.ops[1], SurfaceOp::Ellipse { cx: 1, cy: 2, rx: 3, ry: 4 }));
}

#[test]
fn render_primitive_empty_polygon_errs() {
    let mut s = Surface::new();
    let prim = GeometricPrimitive::Polygon { points: vec![], styles: fill("red") };
    assert_eq!(render_primitive(&mut s, &prim), Err(RenderError::EmptyPolygon));
    assert_eq!(s.ops.len(), 0);
}

#[test]
fn draw_primitives_renders_in_list_order() {
    let mut s = Surface::new();
    let prims = vec![
        GeometricPrimitive::Rectangle {
            data: RectangleData { left: 1, top: 1, width: 2, height: 2, rx: 0, ry: 0 },
            styles: fill("a"),
        },
        GeometricPrimitive::Line {
            data: LineData { x1: 0, y1: 0, x2: 9, y2: 9 },
            styles: stroke("b", 1),
        },
    ];
    assert_eq!(draw_primitives(&mut s, &prims), Ok(()));
    // Rectangle ops (2) strictly before the line's (7).
    assert_eq!(s.ops.len(), 9);
    assert!(matches!(s.ops[1], SurfaceOp::FillRect { .. }));
    assert!(matches!(s.ops[2], SurfaceOp::BeginPath));
    assert!(matches!(s.ops[8], SurfaceOp::ClosePath));
}

#[test]
fn tick_stops_at_precondition_violation() {
    let mut s = Surface::new();
    let r = tick(&mut BadScene, 7, &mut s);
    assert_eq!(r, Err(RenderError::EmptyPolygon));
    // The clear and the first rectangle were issued; nothing after the
    // violating polygon (the line never drew).
    assert_eq!(s.ops.len(), 3);
    assert!(matches!(s.ops[0], SurfaceOp::Clear));
    assert!(matches!(s.ops[1], SurfaceOp::SetFillColor { .. }));
    assert!(matches!(s.ops[2], SurfaceOp::FillRect { .. }));
}

#[test]
fn fresh_surface_is_empty() {
    let s = Surface::new();
    assert_eq!(s.ops.len(), 0);
}
