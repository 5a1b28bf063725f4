use bevy_gizmos::{
    draw_line_gizmo, line_gizmo_vertex_buffer_layouts, strip_instance_mask, update_channel, AppGizmoBuilder,
    BufferSlice, ChannelUpdate, GizmoBuffer, GizmoHandles, GizmoPlugin, GizmoRegistry, Gizmos, VertexFormat,
    VertexStepMode, VertexStream, DEFAULT_CIRCLE_SEGMENTS, DEFAULT_GIZMO_GROUP,
};

type Point = [f32; 3];
type Rgba = [f32; 4];

const NAN_POINT: Point = [f32::NAN; 3];
const NAN_COLOR: Rgba = [f32::NAN; 4];
const A: Rgba = [1.0, 0.0, 0.0, 1.0];
const B: Rgba = [0.0, 0.0, 1.0, 1.0];

fn gizmos(enabled: bool) -> Gizmos<Point, Rgba> {
    Gizmos::new(enabled, NAN_POINT, NAN_COLOR)
}

fn is_restart(p: &Point) -> bool {
    p.iter().all(|c| c.is_nan())
}

fn is_restart_color(c: &Rgba) -> bool {
    c.iter().all(|x| x.is_nan())
}

fn restart_flags(points: &[Point]) -> Vec<bool> {
    points.iter().map(is_restart).collect()
}

fn all_empty(b: &GizmoBuffer<Point, Rgba>) -> bool {
    b.list_positions.is_empty()
        && b.list_colors.is_empty()
        && b.strip_positions.is_empty()
        && b.strip_colors.is_empty()
}

#[test]
fn line_fills_list_channel() {
    let mut g = gizmos(true);
    g.line([0.0, 0.0, 0.0], [1.0, 0.0, 0.0], A);
    assert_eq!(g.buffer.list_positions, vec![[0.0, 0.0, 0.0], [1.0, 0.0, 0.0]]);
    assert_eq!(g.buffer.list_colors, vec![A, A]);
    assert!(g.buffer.strip_positions.is_empty());

    let mut storage = GizmoBuffer::new();
    g.buffer.apply(&mut storage);
    assert!(all_empty(&g.buffer));
    let mut handles: GizmoHandles<u32> = GizmoHandles { list: None, strip: None };
    let (list, strip) = bevy_gizmos::update_gizmo_meshes(&mut storage, &mut handles);
    assert!(all_empty(&storage));
    assert!(matches!(strip, ChannelUpdate::Unchanged));
    match list {
        ChannelUpdate::Create(asset) => {
            assert!(!asset.strip);
            assert_eq!(asset.positions, vec![[0.0, 0.0, 0.0], [1.0, 0.0, 0.0]]);
            let plan = draw_line_gizmo(asset.positions.len() as u32, asset.strip).unwrap();
            assert_eq!(plan.instances, 1);
        }
        _ => panic!("expected a new list asset"),
    }
}

#[test]
fn list_segments_grow_by_two() {
    let mut g = gizmos(true);
    g.line([0.0; 3], [1.0; 3], A);
    g.line_gradient([2.0; 3], [3.0; 3], A, B);
    assert_eq!(g.buffer.list_positions.len(), 4);
    assert_eq!(g.buffer.list_colors, vec![A, A, A, B]);
    assert_eq!(g.buffer.list_positions[2], [2.0; 3]);
}

#[test]
fn linestrip_appends_restart_marker() {
    let mut g = gizmos(true);
    let pts = vec![[0.0, 0.0, 0.0], [1.0, 0.0, 0.0], [1.0, 1.0, 0.0]];
    g.linestrip(&pts, B);
    let sp = &g.buffer.strip_positions;
    let sc = &g.buffer.strip_colors;
    assert_eq!(sp.len(), 4);
    assert_eq!(&sp[..3], &pts[..]);
    assert!(is_restart(&sp[3]));
    assert_eq!(&sc[..3], &[B, B, B]);
    assert!(is_restart_color(&sc[3]));
    assert!(g.buffer.list_positions.is_empty());

    let mask = strip_instance_mask(&restart_flags(sp));
    assert_eq!(mask, vec![true, true, false]);
    assert_eq!(mask.iter().filter(|m| **m).count(), 2);
    assert_eq!(draw_line_gizmo(4, true).unwrap().instances, 3);
}

#[test]
fn two_strips_share_one_buffer() {
    let mut g = gizmos(true);
    let first = vec![[0.0; 3], [1.0; 3]];
    let second = vec![[5.0; 3], [6.0; 3], [7.0; 3]];
    g.linestrip(&first, A);
    g.linestrip(&second, B);
    let sp = &g.buffer.strip_positions;
    assert_eq!(sp.len(), (first.len() + 1) + (second.len() + 1));
    assert_eq!(g.buffer.strip_colors.len(), sp.len());
    assert!(is_restart(&sp[first.len()]));
    assert!(is_restart(&sp[sp.len() - 1]));
    let mask = strip_instance_mask(&restart_flags(sp));
    assert_eq!(mask.len(), sp.len() - 1);
    assert_eq!(mask, vec![true, false, false, true, true, false]);
    // the last point of the first strip is never joined to the first of the second
    let l1 = first.len();
    assert!(!mask[l1 - 1] && !mask[l1]);
}

#[test]
fn gradient_strip_keeps_each_color() {
    let mut g = gizmos(true);
    g.linestrip_gradient(&vec![([0.0; 3], A), ([1.0; 3], B)]);
    assert_eq!(g.buffer.strip_positions.len(), 3);
    assert_eq!(&g.buffer.strip_colors[..2], &[A, B]);
    assert!(is_restart_color(&g.buffer.strip_colors[2]));
    assert!(is_restart(&g.buffer.strip_positions[2]));
}

#[test]
fn disabled_group_draws_nothing() {
    let mut g = gizmos(false);
    g.line([0.0; 3], [1.0; 3], A);
    g.line_gradient([0.0; 3], [1.0; 3], A, B);
    g.linestrip(&vec![[0.0; 3], [1.0; 3]], A);
    g.linestrip_gradient(&vec![([0.0; 3], A)]);
    g.rect([[0.0; 3], [1.0; 3], [2.0; 3], [3.0; 3]], A);
    g.cuboid([[0.0; 3]; 4], [[1.0; 3]; 4], A);
    let c = g.circle(A).segments(2);
    c.finish(&mut g, &vec![[0.0; 3]; 3]);
    let s = g.sphere(A).circle_segments(1);
    s.finish(&mut g, &vec![vec![[0.0; 3]; 2], vec![[0.0; 3]; 2], vec![[0.0; 3]; 2]]);
    assert!(all_empty(&g.buffer));
}

#[test]
fn builder_reads_enabled_at_finish() {
    let mut g = gizmos(false);
    let c = g.circle_2d(A).segments(3);
    g.enabled = true;
    let pts = vec![[0.0; 3], [1.0; 3], [2.0; 3], [0.0; 3]];
    c.finish(&mut g, &pts);
    assert_eq!(g.buffer.strip_positions.len(), 5);
    assert_eq!(&g.buffer.strip_positions[..4], &pts[..]);

    let mut h = gizmos(true);
    let c = h.circle(A);
    h.enabled = false;
    c.finish(&mut h, &vec![[0.0; 3]; DEFAULT_CIRCLE_SEGMENTS + 1]);
    assert!(all_empty(&h.buffer));
}

#[test]
fn builders_default_and_override_segments() {
    let g = gizmos(true);
    assert_eq!(g.circle(A).segments, 32);
    assert_eq!(g.circle(A).segments(8).segments, 8);
    assert_eq!(g.sphere(A).circle_segments, 32);
    let arc = g.arc_2d(B);
    assert_eq!(arc.segments, None);
    assert_eq!(arc.resolved_segments(9), 9);
    assert_eq!(arc.segments(4).resolved_segments(9), 4);
}

#[test]
fn zero_segment_counts_become_one() {
    let g = gizmos(true);
    assert_eq!(g.circle(A).segments(0).segments, 1);
    assert_eq!(g.circle_2d(A).segments(0).segments, 1);
    assert_eq!(g.sphere(A).circle_segments(0).circle_segments, 1);
    assert_eq!(g.arc_2d(A).segments(0).segments, Some(1));
    // an arc of zero angle derives zero segments; it is drawn with one
    assert_eq!(g.arc_2d(A).resolved_segments(0), 1);
    let mut h = gizmos(true);
    h.arc_2d(B).finish(&mut h, 0, &vec![[0.0; 3], [1.0; 3]]);
    assert_eq!(h.buffer.strip_positions.len(), 3);
}

#[test]
fn reregistering_keeps_the_group() {
    let mut app: GizmoRegistry<Point, Rgba, u32> = GizmoRegistry::new();
    app.init_gizmo_group(3);
    let mut g = gizmos(true);
    g.line([0.0; 3], [1.0; 3], A);
    app.flush(3, &mut g.buffer);
    app.init_gizmo_group(3);
    assert_eq!(app.groups.len(), 1);
    assert_eq!(app.groups[0].storage.list_positions.len(), 2);
    assert!(app.groups[0].handles.list.is_none());
}

#[test]
fn arc_finish_encodes_resolved_samples() {
    let mut g = gizmos(true);
    let arc = g.arc_2d(B);
    let pts = vec![[0.0; 3], [1.0; 3], [2.0; 3]];
    arc.finish(&mut g, 2, &pts);
    assert_eq!(g.buffer.strip_positions.len(), 4);
    assert_eq!(&g.buffer.strip_colors[..3], &[B, B, B]);
}

#[test]
fn sphere_draws_three_circles() {
    let mut g = gizmos(true);
    let s = g.sphere(A).circle_segments(2);
    let circles = vec![vec![[1.0; 3]; 3], vec![[2.0; 3]; 3], vec![[3.0; 3]; 3]];
    s.finish(&mut g, &circles);
    let sp = &g.buffer.strip_positions;
    assert_eq!(sp.len(), 12);
    assert!(is_restart(&sp[3]) && is_restart(&sp[7]) && is_restart(&sp[11]));
    assert_eq!(sp[4], [2.0; 3]);
    assert_eq!(sp[8], [3.0; 3]);
}

#[test]
fn rect_is_a_closed_outline() {
    let mut g = gizmos(true);
    let corners = [[-1.0, 1.0, 0.0], [1.0, 1.0, 0.0], [1.0, -1.0, 0.0], [-1.0, -1.0, 0.0]];
    g.rect(corners, A);
    let sp = &g.buffer.strip_positions;
    assert_eq!(sp.len(), 6);
    assert_eq!(&sp[..5], &[corners[0], corners[1], corners[2], corners[3], corners[0]]);
    assert!(is_restart(&sp[5]));
}

#[test]
fn cuboid_has_outline_and_connecting_edges() {
    let mut g = gizmos(true);
    let front = [[0.0, 1.0, 1.0], [1.0, 1.0, 1.0], [1.0, 0.0, 1.0], [0.0, 0.0, 1.0]];
    let back = [[0.0, 1.0, 0.0], [1.0, 1.0, 0.0], [1.0, 0.0, 0.0], [0.0, 0.0, 0.0]];
    g.cuboid(front, back, B);
    assert_eq!(g.buffer.strip_positions.len(), 11);
    assert_eq!(g.buffer.strip_positions[5], back[0]);
    assert_eq!(g.buffer.list_positions, vec![front[1], back[1], front[2], back[2], front[3], back[3]]);
    assert_eq!(g.buffer.list_colors, vec![B; 6]);
}

#[test]
fn compile_twice_keeps_handle_and_contents() {
    let mut slot: Option<u32> = None;
    let mut pos = vec![[0.0; 3], [1.0; 3]];
    let mut col = vec![A, A];
    let first = match update_channel(&mut slot, &mut pos, &mut col, false) {
        ChannelUpdate::Create(asset) => asset,
        _ => panic!("expected a new asset"),
    };
    assert!(pos.is_empty() && col.is_empty());
    slot = Some(7);
    let mut pos = first.positions.clone();
    let mut col = first.colors.clone();
    let second = match update_channel(&mut slot, &mut pos, &mut col, false) {
        ChannelUpdate::Overwrite(asset) => asset,
        _ => panic!("expected the asset to be overwritten"),
    };
    assert_eq!(slot, Some(7));
    assert_eq!(second.positions, first.positions);
    assert_eq!(second.colors, first.colors);
    assert!(pos.is_empty() && col.is_empty());

    let mut empty_p: Vec<Point> = Vec::new();
    let mut empty_c: Vec<Rgba> = Vec::new();
    assert!(matches!(update_channel(&mut slot, &mut empty_p, &mut empty_c, false), ChannelUpdate::Release(7)));
    assert_eq!(slot, None);
    assert!(matches!(update_channel(&mut slot, &mut empty_p, &mut empty_c, false), ChannelUpdate::Unchanged));
}

#[test]
fn registry_flush_and_compile() {
    let mut app: GizmoRegistry<Point, Rgba, u32> = GizmoRegistry::new();
    GizmoPlugin.build(&mut app);
    app.init_gizmo_group(5);
    app.init_gizmo_group(5);
    assert_eq!(app.groups.len(), 2);
    assert_eq!(app.groups[0].key, DEFAULT_GIZMO_GROUP);

    let mut g = gizmos(true);
    g.linestrip(&vec![[0.0; 3], [1.0; 3]], A);
    app.flush(5, &mut g.buffer);
    assert!(all_empty(&g.buffer));
    assert_eq!(app.groups[1].storage.strip_positions.len(), 3);
    assert!(all_empty(&app.groups[0].storage));

    assert_eq!(app.extract_gizmo_data(5, true), (false, false));
    let (list, strip) = app.update_group_meshes(5);
    assert!(matches!(list, ChannelUpdate::Unchanged));
    assert!(matches!(strip, ChannelUpdate::Create(_)));
    assert!(all_empty(&app.groups[1].storage));
    app.attach_asset(5, true, 11);
    assert_eq!(app.extract_gizmo_data(5, true), (false, true));
    assert_eq!(app.extract_gizmo_data(5, false), (false, false));
    assert_eq!(app.extract_gizmo_data(9, true), (false, false));
}

#[test]
fn vertex_layouts_for_both_topologies() {
    let strip = line_gizmo_vertex_buffer_layouts(true);
    assert_eq!(strip.len(), 4);
    assert_eq!(strip[0].array_stride, 12);
    assert_eq!(strip[1].attributes[0].shader_location, 1);
    assert_eq!(strip[3].array_stride, 16);
    assert!(strip.iter().all(|l| l.step_mode == VertexStepMode::Instance && l.attributes.len() == 1));

    let list = line_gizmo_vertex_buffer_layouts(false);
    assert_eq!(list.len(), 2);
    assert_eq!(list[0].array_stride, 24);
    assert_eq!(list[0].attributes[1].offset, 12);
    assert_eq!(list[1].array_stride, 32);
    assert_eq!(list[1].attributes[1].offset, 16);
    assert_eq!(list[1].attributes[1].format, VertexFormat::Float32x4);
    assert_eq!(VertexFormat::Float32x3.size(), 12);
}

#[test]
fn draw_plans() {
    assert!(draw_line_gizmo(0, true).is_none());
    assert!(draw_line_gizmo(1, false).is_none());
    let list = draw_line_gizmo(5, false).unwrap();
    assert_eq!(list.instances, 2);
    assert_eq!(
        list.slices,
        vec![
            BufferSlice { stream: VertexStream::Positions, start: 0, end: 60 },
            BufferSlice { stream: VertexStream::Colors, start: 0, end: 80 },
        ]
    );
    let strip = draw_line_gizmo(3, true).unwrap();
    assert_eq!(strip.instances, 2);
    assert_eq!(strip.slices[0], BufferSlice { stream: VertexStream::Positions, start: 0, end: 24 });
    assert_eq!(strip.slices[1], BufferSlice { stream: VertexStream::Positions, start: 12, end: 36 });
    assert_eq!(strip.slices[3], BufferSlice { stream: VertexStream::Colors, start: 16, end: 48 });
    assert!(strip_instance_mask(&vec![]).is_empty());
    assert!(strip_instance_mask(&vec![false]).is_empty());
}
