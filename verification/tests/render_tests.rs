use wireframe::color::Rgba;
use wireframe::cube::Cube;
use wireframe::fixed::SCALE;
use wireframe::pipeline::{PipelineConfig, Projection, Rotor};
use wireframe::point2d::Point2D;
use wireframe::render::{
    all_segments, clear_layer, frame_commands, loop_segments, queue_lines, queue_points,
    render_scene, resolve_segments, set_boundary, DrawCmd, CANVAS_HEIGHT_UNITS,
    HALF_HEIGHT_UNITS, HALF_WIDTH_UNITS, LINE_WIDTH, POINT_RADIUS,
};
use wireframe::shape::{check_indices, Shape};

fn test_color() -> Rgba {
    Rgba { r: 1000, g: 2000, b: 3000, a: 65535 }
}

fn ortho_config(dz: i64) -> PipelineConfig {
    PipelineConfig {
        rot_x: Rotor::identity(),
        rot_y: Rotor::identity(),
        rot_z: Rotor::identity(),
        dx: 0,
        dy: 0,
        dz,
        projection: Projection::Orthographic,
    }
}

fn segments_in(cmds: &[DrawCmd]) -> Vec<((i64, i64), (i64, i64))> {
    let mut segs = Vec::new();
    let mut i = 0;
    while i + 1 < cmds.len() {
        if let (DrawCmd::MoveTo(ax, ay), DrawCmd::LineTo(bx, by)) = (cmds[i], cmds[i + 1]) {
            segs.push(((ax, ay), (bx, by)));
            i += 2;
        } else {
            i += 1;
        }
    }
    segs
}

#[test]
fn four_loop_wraps_around() {
    // A 4-element loop closes with the wraparound pair (3, 0).
    let l: Vec<usize> = vec![0, 1, 2, 3];
    assert_eq!(loop_segments(&l), vec![(0, 1), (1, 2), (2, 3), (3, 0)]);
}

#[test]
fn two_element_loop_wraps_around() {
    // A 2-element loop gives the degenerate back-and-forth pair.
    let l: Vec<usize> = vec![0, 4];
    assert_eq!(loop_segments(&l), vec![(0, 4), (4, 0)]);
}

#[test]
fn degenerate_loops() {
    // The wraparound formula needs no special cases at the ends.
    let empty: Vec<usize> = vec![];
    assert_eq!(loop_segments(&empty), vec![]);
    let single: Vec<usize> = vec![5];
    assert_eq!(loop_segments(&single), vec![(5, 5)]);
}

#[test]
fn cube_has_sixteen_segments() {
    let loops = Cube::indices().expect("no indices");
    let segs = all_segments(&loops);
    assert_eq!(segs.len(), 16);
    assert_eq!(&segs[0..4], &[(0, 1), (1, 2), (2, 3), (3, 0)]);
    assert_eq!(&segs[8..10], &[(0, 4), (4, 0)]);
}

#[test]
fn cube_indices_are_valid() {
    let loops = Cube::indices().expect("no indices");
    let vs = Cube::vertices().expect("no vertices");
    assert!(check_indices(&loops, vs.len()));
}

#[test]
fn out_of_range_index_is_caught() {
    let loops: Vec<Vec<usize>> = vec![vec![0, 8]];
    assert!(!check_indices(&loops, 8));
}

#[test]
fn resolve_looks_points_up() {
    let points = vec![Point2D::new(10, 11), Point2D::new(20, 21), Point2D::new(30, 31)];
    let pairs: Vec<(usize, usize)> = vec![(0, 2), (2, 1)];
    let segs = resolve_segments(&points, &pairs);
    assert_eq!(
        segs,
        vec![
            (Point2D::new(10, 11), Point2D::new(30, 31)),
            (Point2D::new(30, 31), Point2D::new(20, 21)),
        ]
    );
}

#[test]
fn clear_layer_resets_and_registers_height() {
    let mut gc: Vec<DrawCmd> = Vec::new();
    clear_layer(1, &mut gc);
    assert_eq!(
        gc,
        vec![DrawCmd::Layer(1), DrawCmd::ClearLayer, DrawCmd::CanvasHeight(CANVAS_HEIGHT_UNITS)]
    );
}

#[test]
fn queue_lines_strokes_once_per_batch() {
    let c = test_color();
    let segments = vec![
        (Point2D::new(0, 0), Point2D::new(100, 0)),
        (Point2D::new(100, 0), Point2D::new(100, 100)),
    ];
    let mut gc: Vec<DrawCmd> = Vec::new();
    queue_lines(&segments, 1, c, &mut gc);
    assert_eq!(
        gc,
        vec![
            DrawCmd::Layer(1),
            DrawCmd::StrokeColor(c),
            DrawCmd::LineWidth(LINE_WIDTH),
            DrawCmd::NewPath,
            DrawCmd::MoveTo(0, 0),
            DrawCmd::LineTo(100, 0),
            DrawCmd::MoveTo(100, 0),
            DrawCmd::LineTo(100, 100),
            DrawCmd::Stroke,
        ]
    );
    let strokes = gc.iter().filter(|c| matches!(c, DrawCmd::Stroke)).count();
    let paths = gc.iter().filter(|c| matches!(c, DrawCmd::NewPath)).count();
    assert_eq!(strokes, 1);
    assert_eq!(paths, 1);
}

#[test]
fn queue_points_fills_each_point() {
    let c = test_color();
    let points = vec![Point2D::new(5, 6), Point2D::new(7, 8)];
    let mut gc: Vec<DrawCmd> = Vec::new();
    queue_points(&points, 2, c, &mut gc);
    assert_eq!(
        gc,
        vec![
            DrawCmd::Layer(2),
            DrawCmd::FillColor(c),
            DrawCmd::NewPath,
            DrawCmd::Circle(5, 6, POINT_RADIUS),
            DrawCmd::Fill,
            DrawCmd::NewPath,
            DrawCmd::Circle(7, 8, POINT_RADIUS),
            DrawCmd::Fill,
        ]
    );
}

#[test]
fn boundary_covers_the_canvas() {
    let mut gc: Vec<DrawCmd> = Vec::new();
    set_boundary(&mut gc);
    assert_eq!(
        gc,
        vec![
            DrawCmd::Layer(0),
            DrawCmd::ClearLayer,
            DrawCmd::CanvasHeight(CANVAS_HEIGHT_UNITS),
            DrawCmd::NewPath,
            DrawCmd::Rect(-HALF_WIDTH_UNITS, -HALF_HEIGHT_UNITS, HALF_WIDTH_UNITS, HALF_HEIGHT_UNITS),
            DrawCmd::FillColor(Rgba { r: 13107, g: 13107, b: 13107, a: 65535 }),
            DrawCmd::Fill,
        ]
    );
}

#[test]
fn frame_is_one_atomic_batch() {
    let c = test_color();
    let segments = vec![(Point2D::new(0, 0), Point2D::new(100, 0))];
    let cmds = frame_commands(&segments, 1, c);
    assert_eq!(cmds.first(), Some(&DrawCmd::StartFrame));
    assert_eq!(cmds.last(), Some(&DrawCmd::ShowFrame));
    let strokes = cmds.iter().filter(|c| matches!(c, DrawCmd::Stroke)).count();
    assert_eq!(strokes, 1);
}

#[test]
fn draw_queues_one_square() {
    let c = test_color();
    let p = Point2D::new(1000, 2000);
    let mut gc: Vec<DrawCmd> = Vec::new();
    p.draw(c, &mut gc);
    assert_eq!(
        gc,
        vec![
            DrawCmd::NewPath,
            DrawCmd::Rect(1000 - 524288, 2000 - 524288, 1000 + 524288, 2000 + 524288),
            DrawCmd::FillColor(c),
            DrawCmd::Fill,
        ]
    );
}

#[test]
fn cube_frame_matches_hand_computed_pixels() {
    // The canonical cube, angle zero, depth one, orthographic projection,
    // 800x800 canvas: each corner of the back face lands 100 pixels from
    // the center.
    let vs = Cube::vertices().expect("no vertices");
    let loops = Cube::indices().expect("no indices");
    let cfg = ortho_config(SCALE);
    let cmds = render_scene(&vs, &loops, &cfg, 1, test_color());
    let segs = segments_in(&cmds);
    assert_eq!(segs.len(), 16);
    let px = 100 * SCALE;
    assert_eq!(segs[0], ((px, px), (-px, px)));
    assert_eq!(segs[1], ((-px, px), (-px, -px)));
    assert_eq!(segs[2], ((-px, -px), (px, -px)));
    assert_eq!(segs[3], ((px, -px), (px, px)));
    assert_eq!(cmds.first(), Some(&DrawCmd::StartFrame));
    assert_eq!(cmds.last(), Some(&DrawCmd::ShowFrame));
}
