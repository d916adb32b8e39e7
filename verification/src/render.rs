//! The frame renderer: edge topology to line segments, and segments to
//! one flicker-free batch of drawing commands.
//!
//! A frame is a single atomic command batch: begin the frame, clear the
//! target layer, open one path, walk every segment, stroke once, and
//! present. Coordinates inside commands are fixed-point pixel units
//! (`SCALE` per pixel), and colors are the library's own `Rgba`.

use crate::color::Rgba;
use crate::constants::{CANVAS_HEIGHT, HALF_HEIGHT, HALF_WIDTH};
use crate::fixed::SCALE;
use crate::pipeline::{config_ok, transform_all, transformed, vertex_ok, PipelineConfig};
use crate::point2d::Point2D;
use crate::point3d::Point3D;
use crate::shape::{indices_valid, lemma_loops_view};
use vstd::arithmetic::div_mod::lemma_mod_division_less_than_divisor;
use vstd::prelude::*;

verus! {

/// The canvas height in fixed-point pixel units.
pub const CANVAS_HEIGHT_UNITS: i64 = CANVAS_HEIGHT * SCALE;

/// Half the canvas width in fixed-point pixel units.
pub const HALF_WIDTH_UNITS: i64 = HALF_WIDTH * SCALE;

/// Half the canvas height in fixed-point pixel units.
pub const HALF_HEIGHT_UNITS: i64 = HALF_HEIGHT * SCALE;

/// Stroke width of wireframe lines: two pixels.
pub const LINE_WIDTH: i64 = 2 * SCALE;

/// Radius of a drawn point: four pixels.
pub const POINT_RADIUS: i64 = 4 * SCALE;

/// One drawing command for the canvas collaborator. Coordinates are in
/// fixed-point pixel units around a centered origin.
#[derive(Clone, Copy, PartialEq, Eq, Structural, Debug)]
pub enum DrawCmd {
    Layer(u64),
    ClearLayer,
    CanvasHeight(i64),
    NewPath,
    MoveTo(i64, i64),
    LineTo(i64, i64),
    Rect(i64, i64, i64, i64),
    Circle(i64, i64, i64),
    FillColor(Rgba),
    StrokeColor(Rgba),
    LineWidth(i64),
    Fill,
    Stroke,
    StartFrame,
    ShowFrame,
}

/// The closed outline of one edge loop: every consecutive index pair,
/// wraparound pair from the last entry back to the first counted.
pub open spec fn wrap_pairs(l: Seq<usize>) -> Seq<(usize, usize)> {
    Seq::new(l.len(), |i: int| (l[i], l[(i + 1) % (l.len() as int)]))
}

/// All segments of a mesh: the outlines of its edge loops, in order.
pub open spec fn segments_of(ls: Seq<Seq<usize>>) -> Seq<(usize, usize)>
    decreases ls.len(),
{
    if ls.len() == 0 {
        Seq::empty()
    } else {
        segments_of(ls.drop_last()) + wrap_pairs(ls.last())
    }
}

/// Emit the closed outline of one edge loop of length `n` as exactly `n`
/// segments, the wraparound pair last.
pub fn loop_segments(l: &Vec<usize>) -> (segs: Vec<(usize, usize)>)
    ensures
        segs@ == wrap_pairs(l@),
{
    let n = l.len();
    let mut segs: Vec<(usize, usize)> = Vec::new();
    let mut i: usize = 0;
    while i < n
        invariant
            i <= n,
            n == l@.len(),
            segs@.len() == i,
            forall|k: int| 0 <= k < i ==> (#[trigger] segs@[k]) == (l@[k], l@[(k + 1) % (n as int)]),
        decreases n - i,
    {
        let a = l[i];
        let b = l[(i + 1) % n];
        segs.push((a, b));
        i = i + 1;
    }
    proof {
        assert(segs@ =~= wrap_pairs(l@));
    }
    segs
}

/// Emit the segments of every edge loop, loop by loop.
pub fn all_segments(loops: &Vec<Vec<usize>>) -> (segs: Vec<(usize, usize)>)
    ensures
        segs@ == segments_of(loops.deep_view()),
{
    proof {
        lemma_loops_view(loops);
    }
    let ghost dv = loops.deep_view();
    let mut segs: Vec<(usize, usize)> = Vec::new();
    proof {
        assert(segs@ =~= segments_of(dv.take(0)));
    }
    let mut i: usize = 0;
    while i < loops.len()
        invariant
            i <= loops@.len(),
            dv == loops.deep_view(),
            dv.len() == loops@.len(),
            forall|a: int| 0 <= a < loops@.len() ==> dv[a] == loops@[a]@,
            segs@ == segments_of(dv.take(i as int)),
        decreases loops@.len() - i,
    {
        let mut part = loop_segments(&loops[i]);
        segs.append(&mut part);
        proof {
            assert(dv.take(i as int + 1).drop_last() =~= dv.take(i as int));
            assert(dv.take(i as int + 1).last() == loops@[i as int]@);
            assert(segs@ =~= segments_of(dv.take(i as int + 1)));
        }
        i = i + 1;
    }
    proof {
        assert(dv.take(loops@.len() as int) =~= dv);
    }
    segs
}

/// Valid edge loops give segments whose two endpoints both index one of
/// the `n` vertices.
pub proof fn lemma_segments_of_valid(ls: Seq<Seq<usize>>, n: nat)
    requires
        indices_valid(ls, n),
    ensures
        forall|k: int|
            0 <= k < segments_of(ls).len() ==> (#[trigger] segments_of(ls)[k]).0 < n
                && segments_of(ls)[k].1 < n,
    decreases ls.len(),
{
    if ls.len() > 0 {
        let head = ls.drop_last();
        let l = ls.last();
        assert(indices_valid(head, n)) by {
            assert forall|i: int, j: int|
                0 <= i < head.len() && 0 <= j < head[i].len() implies (#[trigger] head[i][j])
                < n by {
                assert(ls[i][j] < n);
            }
        }
        lemma_segments_of_valid(head, n);
        assert forall|k: int|
            0 <= k < segments_of(ls).len() implies (#[trigger] segments_of(ls)[k]).0 < n
            && segments_of(ls)[k].1 < n by {
            if k < segments_of(head).len() {
                assert(segments_of(ls)[k] == segments_of(head)[k]);
            } else {
                let j = k - segments_of(head).len();
                assert(segments_of(ls)[k] == wrap_pairs(l)[j]);
                lemma_mod_division_less_than_divisor(j + 1, l.len() as int);
                assert(ls[ls.len() - 1][j] < n);
                assert(ls[ls.len() - 1][(j + 1) % (l.len() as int)] < n);
            }
        }
    }
}

/// Look each segment's endpoints up in the transformed point set.
pub fn resolve_segments(points: &Vec<Point2D>, pairs: &Vec<(usize, usize)>) -> (segs: Vec<
    (Point2D, Point2D),
>)
    requires
        forall|k: int|
            0 <= k < pairs@.len() ==> (#[trigger] pairs@[k]).0 < points@.len() && pairs@[k].1
                < points@.len(),
    ensures
        segs@.len() == pairs@.len(),
        forall|k: int|
            0 <= k < pairs@.len() ==> (#[trigger] segs@[k]) == (
                points@[pairs@[k].0 as int],
                points@[pairs@[k].1 as int],
            ),
{
    let mut segs: Vec<(Point2D, Point2D)> = Vec::new();
    let mut i: usize = 0;
    while i < pairs.len()
        invariant
            i <= pairs@.len(),
            segs@.len() == i,
            forall|k: int|
                0 <= k < pairs@.len() ==> (#[trigger] pairs@[k]).0 < points@.len() && pairs@[k].1
                    < points@.len(),
            forall|k: int|
                0 <= k < i ==> (#[trigger] segs@[k]) == (
                    points@[pairs@[k].0 as int],
                    points@[pairs@[k].1 as int],
                ),
        decreases pairs@.len() - i,
    {
        let (a, b) = pairs[i];
        segs.push((points[a], points[b]));
        i = i + 1;
    }
    segs
}

/// Clearing a layer: select it, reset its draw buffer, and re-register
/// the canvas height so the coordinate system stays consistent.
pub open spec fn clear_cmds(layer: u64) -> Seq<DrawCmd> {
    seq![
        DrawCmd::Layer(layer),
        DrawCmd::ClearLayer,
        DrawCmd::CanvasHeight(CANVAS_HEIGHT_UNITS),
    ]
}

/// Clear one layer of the canvas.
pub fn clear_layer(layer: u64, gc: &mut Vec<DrawCmd>)
    ensures
        final(gc)@ == old(gc)@ + clear_cmds(layer),
{
    gc.push(DrawCmd::Layer(layer));
    gc.push(DrawCmd::ClearLayer);
    gc.push(DrawCmd::CanvasHeight(CANVAS_HEIGHT_UNITS));
    proof {
        assert(gc@ =~= old(gc)@ + clear_cmds(layer));
    }
}

/// The head of a line batch: layer, stroke color, stroke width, and one
/// open path.
pub open spec fn line_header(layer: u64, color: Rgba) -> Seq<DrawCmd> {
    seq![
        DrawCmd::Layer(layer),
        DrawCmd::StrokeColor(color),
        DrawCmd::LineWidth(LINE_WIDTH),
        DrawCmd::NewPath,
    ]
}

/// The path steps of a segment list: move to each segment's first point,
/// then a line to its second.
pub open spec fn segment_cmds(segs: Seq<(Point2D, Point2D)>) -> Seq<DrawCmd>
    decreases segs.len(),
{
    if segs.len() == 0 {
        Seq::empty()
    } else {
        segment_cmds(segs.drop_last())
            + seq![
            DrawCmd::MoveTo(segs.last().0.x, segs.last().0.y),
            DrawCmd::LineTo(segs.last().1.x, segs.last().1.y),
        ]
    }
}

/// One whole line batch: the header, every segment's path steps, and a
/// single stroke over the whole path — one stroke call per batch, not
/// per segment.
pub open spec fn line_batch(segs: Seq<(Point2D, Point2D)>, layer: u64, color: Rgba) -> Seq<
    DrawCmd,
> {
    line_header(layer, color) + segment_cmds(segs) + seq![DrawCmd::Stroke]
}

/// Queue one batch of line segments: the color and width are set once,
/// one path is opened, every segment is walked, and the whole path is
/// stroked with a single call.
pub fn queue_lines(
    segments: &Vec<(Point2D, Point2D)>,
    layer_id: u64,
    color: Rgba,
    gc: &mut Vec<DrawCmd>,
)
    ensures
        final(gc)@ == old(gc)@ + line_batch(segments@, layer_id, color),
{
    gc.push(DrawCmd::Layer(layer_id));
    gc.push(DrawCmd::StrokeColor(color));
    gc.push(DrawCmd::LineWidth(LINE_WIDTH));
    gc.push(DrawCmd::NewPath);
    proof {
        assert(gc@ =~= old(gc)@ + line_header(layer_id, color) + segment_cmds(segments@.take(0)));
    }
    let mut i: usize = 0;
    while i < segments.len()
        invariant
            i <= segments@.len(),
            gc@ == old(gc)@ + line_header(layer_id, color) + segment_cmds(
                segments@.take(i as int),
            ),
        decreases segments@.len() - i,
    {
        let (p1, p2) = segments[i];
        gc.push(DrawCmd::MoveTo(p1.x, p1.y));
        gc.push(DrawCmd::LineTo(p2.x, p2.y));
        proof {
            assert(segments@.take(i as int + 1).drop_last() =~= segments@.take(i as int));
            assert(segments@.take(i as int + 1).last() == segments@[i as int]);
            assert(gc@ =~= old(gc)@ + line_header(layer_id, color) + segment_cmds(
                segments@.take(i as int + 1),
            ));
        }
        i = i + 1;
    }
    gc.push(DrawCmd::Stroke);
    proof {
        assert(segments@.take(segments@.len() as int) =~= segments@);
        assert(gc@ =~= old(gc)@ + line_batch(segments@, layer_id, color));
    }
}

/// The path steps of a point list: one small filled circle per point.
pub open spec fn point_cmds(ps: Seq<Point2D>) -> Seq<DrawCmd>
    decreases ps.len(),
{
    if ps.len() == 0 {
        Seq::empty()
    } else {
        point_cmds(ps.drop_last())
            + seq![
            DrawCmd::NewPath,
            DrawCmd::Circle(ps.last().x, ps.last().y, POINT_RADIUS),
            DrawCmd::Fill,
        ]
    }
}

/// One whole point batch: the layer and fill color once, then every
/// point as a small filled circle.
pub open spec fn point_batch(ps: Seq<Point2D>, layer: u64, color: Rgba) -> Seq<DrawCmd> {
    seq![DrawCmd::Layer(layer), DrawCmd::FillColor(color)] + point_cmds(ps)
}

/// Queue one batch of points, each a small filled circle in the shared
/// color.
pub fn queue_points(points: &Vec<Point2D>, layer_id: u64, color: Rgba, gc: &mut Vec<DrawCmd>)
    ensures
        final(gc)@ == old(gc)@ + point_batch(points@, layer_id, color),
{
    gc.push(DrawCmd::Layer(layer_id));
    gc.push(DrawCmd::FillColor(color));
    proof {
        assert(gc@ =~= old(gc)@ + seq![DrawCmd::Layer(layer_id), DrawCmd::FillColor(color)]
            + point_cmds(points@.take(0)));
    }
    let mut i: usize = 0;
    while i < points.len()
        invariant
            i <= points@.len(),
            gc@ == old(gc)@ + seq![DrawCmd::Layer(layer_id), DrawCmd::FillColor(color)]
                + point_cmds(points@.take(i as int)),
        decreases points@.len() - i,
    {
        let p = points[i];
        gc.push(DrawCmd::NewPath);
        gc.push(DrawCmd::Circle(p.x, p.y, POINT_RADIUS));
        gc.push(DrawCmd::Fill);
        proof {
            assert(points@.take(i as int + 1).drop_last() =~= points@.take(i as int));
            assert(points@.take(i as int + 1).last() == points@[i as int]);
            assert(gc@ =~= old(gc)@ + seq![DrawCmd::Layer(layer_id), DrawCmd::FillColor(color)]
                + point_cmds(points@.take(i as int + 1)));
        }
        i = i + 1;
    }
    proof {
        assert(points@.take(points@.len() as int) =~= points@);
        assert(gc@ =~= old(gc)@ + point_batch(points@, layer_id, color));
    }
}

/// The gray, fully opaque color of the boundary rectangle: an intensity
/// of exactly 0.2 on each color channel.
pub open spec fn boundary_color() -> Rgba {
    Rgba { r: 13107, g: 13107, b: 13107, a: 65535 }
}

/// The background boundary: clear the base layer and fill one rectangle
/// covering the whole canvas around the centered origin.
pub open spec fn boundary_cmds() -> Seq<DrawCmd> {
    let w = HALF_WIDTH_UNITS;
    let h = HALF_HEIGHT_UNITS;
    clear_cmds(0)
        + seq![
        DrawCmd::NewPath,
        DrawCmd::Rect((-w) as i64, (-h) as i64, w, h),
        DrawCmd::FillColor(boundary_color()),
        DrawCmd::Fill,
    ]
}

/// Queue the background boundary rectangle on the base layer.
pub fn set_boundary(gc: &mut Vec<DrawCmd>)
    ensures
        final(gc)@ == old(gc)@ + boundary_cmds(),
{
    clear_layer(0, gc);
    gc.push(DrawCmd::NewPath);
    let w: i64 = -HALF_WIDTH_UNITS;
    let h: i64 = -HALF_HEIGHT_UNITS;
    gc.push(DrawCmd::Rect(w, h, HALF_WIDTH_UNITS, HALF_HEIGHT_UNITS));
    gc.push(DrawCmd::FillColor(Rgba { r: 13107, g: 13107, b: 13107, a: 65535 }));
    gc.push(DrawCmd::Fill);
    proof {
        assert(gc@ =~= old(gc)@ + boundary_cmds());
    }
}

/// The commands of one whole frame: begin the frame, clear the target
/// layer, queue one line batch, and present — a single atomic
/// submission, so no partially drawn frame is ever visible.
pub open spec fn frame_cmds(segs: Seq<(Point2D, Point2D)>, layer: u64, color: Rgba) -> Seq<
    DrawCmd,
> {
    seq![DrawCmd::StartFrame] + clear_cmds(layer) + line_batch(segs, layer, color)
        + seq![DrawCmd::ShowFrame]
}

/// Build one whole frame from an already transformed segment list.
pub fn frame_commands(segments: &Vec<(Point2D, Point2D)>, layer_id: u64, color: Rgba) -> (cmds:
    Vec<DrawCmd>)
    ensures
        cmds@ == frame_cmds(segments@, layer_id, color),
{
    let mut cmds: Vec<DrawCmd> = Vec::new();
    cmds.push(DrawCmd::StartFrame);
    clear_layer(layer_id, &mut cmds);
    queue_lines(segments, layer_id, color, &mut cmds);
    cmds.push(DrawCmd::ShowFrame);
    proof {
        assert(cmds@ =~= frame_cmds(segments@, layer_id, color));
    }
    cmds
}

/// The screen-space point a vertex lands on after the whole pipeline.
pub open spec fn transformed_pt(p: Point3D, cfg: PipelineConfig) -> Point2D {
    Point2D { x: transformed(p@, cfg).0 as i64, y: transformed(p@, cfg).1 as i64 }
}

/// The segment list of one frame: every edge of every loop, as the pair
/// of screen-space points its endpoints are transformed to.
pub open spec fn scene_segments(
    vs: Seq<Point3D>,
    ls: Seq<Seq<usize>>,
    cfg: PipelineConfig,
) -> Seq<(Point2D, Point2D)> {
    segments_of(ls).map_values(
        |pr: (usize, usize)|
            (transformed_pt(vs[pr.0 as int], cfg), transformed_pt(vs[pr.1 as int], cfg)),
    )
}

/// Render one frame of a mesh: transform every vertex through the
/// pipeline, resolve every edge of every loop to a segment, and emit the
/// whole frame as one atomic command batch.
pub fn render_scene(
    vs: &Vec<Point3D>,
    loops: &Vec<Vec<usize>>,
    cfg: &PipelineConfig,
    layer_id: u64,
    color: Rgba,
) -> (cmds: Vec<DrawCmd>)
    requires
        config_ok(*cfg),
        forall|i: int| 0 <= i < vs@.len() ==> vertex_ok(#[trigger] vs@[i]),
        indices_valid(loops.deep_view(), vs@.len() as nat),
    ensures
        cmds@ == frame_cmds(scene_segments(vs@, loops.deep_view(), *cfg), layer_id, color),
{
    let points = transform_all(vs, cfg);
    let pairs = all_segments(loops);
    proof {
        lemma_segments_of_valid(loops.deep_view(), vs@.len() as nat);
    }
    let segs = resolve_segments(&points, &pairs);
    proof {
        let want = scene_segments(vs@, loops.deep_view(), *cfg);
        assert forall|k: int| 0 <= k < segs@.len() implies segs@[k] == want[k] by {
            let pr = pairs@[k];
            assert(points@[pr.0 as int] == transformed_pt(vs@[pr.0 as int], *cfg));
            assert(points@[pr.1 as int] == transformed_pt(vs@[pr.1 as int], *cfg));
        }
        assert(segs@ =~= want);
    }
    frame_commands(&segs, layer_id, color)
}

} // verus!
