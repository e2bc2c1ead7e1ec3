//! End-to-end tests of the traversal: viewport resolution, shape lowering,
//! reference indirection, visibility, diagnostics and determinism.

use svg2gcode::doc::{Doc, Len, Node, Tag, ViewBox};
use svg2gcode::geom::Affine;
use svg2gcode::segments::PathSeg;
use svg2gcode::traverse::{depth_first_visit, Config, Diag, Event, Fatal, Severity};

fn blank(tag: Tag, label: &str) -> Node {
    Node {
        element: true,
        tag,
        style: None,
        id: None,
        href: None,
        transform: Vec::new(),
        transform_origin: false,
        view_box: None,
        width: None,
        height: None,
        x: None,
        y: None,
        rx: None,
        ry: None,
        cx: None,
        cy: None,
        r: None,
        x1: None,
        y1: None,
        x2: None,
        y2: None,
        d: None,
        points: None,
        label: label.as_bytes().to_vec(),
        children: Vec::new(),
    }
}

fn no_overrides() -> Config {
    Config { width_override: None, height_override: None }
}

fn identity() -> Affine {
    Affine { m11: 1, m12: 0, m21: 0, m22: 1, m31: 0, m32: 0 }
}

#[test]
fn viewbox_only_svg_resolves_size_and_flips() {
    // <svg viewBox="0 0 100 50"> with no width/height/x/y: viewport size is
    // (100, 50) and the composed transform maps (0,0) -> (0,-50) and
    // (100,50) -> (100,0).
    let mut svg = blank(Tag::Svg, "svg");
    svg.view_box = Some(ViewBox { min_x: 0, min_y: 0, width: 100, height: 50 });
    let doc = Doc { nodes: vec![svg], roots: vec![0] };
    let run = depth_first_visit(&doc, &no_overrides()).unwrap();
    assert_eq!(run.events.len(), 3);
    let t = match &run.events[0] {
        Event::Push(t) => *t,
        other => panic!("expected a push, got {other:?}"),
    };
    assert_eq!(t.apply(0, 0), Some((0, -50)));
    assert_eq!(t.apply(100, 50), Some((100, 0)));
    assert_eq!(run.events[1], Event::Annotate(b"svg".to_vec()));
    assert_eq!(run.events[2], Event::Pop);
    assert!(run.diags.is_empty());
}

#[test]
fn sharp_rect_is_six_segments() {
    // <rect x="0" y="0" width="10" height="10"/> without radii: exactly
    // move, horizontal, vertical, horizontal, vertical, close.
    let mut rect = blank(Tag::Rect, "rect");
    rect.x = Some(Len::User(0));
    rect.y = Some(Len::User(0));
    rect.width = Some(Len::User(10));
    rect.height = Some(Len::User(10));
    let doc = Doc { nodes: vec![rect], roots: vec![0] };
    let run = depth_first_visit(&doc, &no_overrides()).unwrap();
    let segs = match &run.events[2] {
        Event::Draw(s) => s.clone(),
        other => panic!("expected a draw, got {other:?}"),
    };
    assert_eq!(
        segs,
        vec![
            PathSeg::Move { x: 0, y: 0 },
            PathSeg::Horiz { x: 10 },
            PathSeg::Vert { y: 10 },
            PathSeg::Horiz { x: 0 },
            PathSeg::Vert { y: 0 },
            PathSeg::Close,
        ]
    );
}

#[test]
fn rounded_rect_is_ten_segments() {
    // rx = ry = 2: move, then lines and arcs around the corners, then
    // close; four arcs and four lines in all.
    let mut rect = blank(Tag::Rect, "rect");
    rect.x = Some(Len::User(0));
    rect.y = Some(Len::User(0));
    rect.width = Some(Len::User(10));
    rect.height = Some(Len::User(10));
    rect.rx = Some(Len::User(2));
    rect.ry = Some(Len::User(2));
    let doc = Doc { nodes: vec![rect], roots: vec![0] };
    let run = depth_first_visit(&doc, &no_overrides()).unwrap();
    let segs = match &run.events[2] {
        Event::Draw(s) => s.clone(),
        other => panic!("expected a draw, got {other:?}"),
    };
    assert_eq!(segs.len(), 10);
    assert!(matches!(segs[0], PathSeg::Move { x: 2, y: 0 }));
    assert!(matches!(segs[1], PathSeg::Horiz { x: 8 }));
    assert!(matches!(segs[2], PathSeg::Arc { x: 10, y: 2, .. }));
    assert!(matches!(segs[3], PathSeg::Vert { y: 8 }));
    assert!(matches!(segs[4], PathSeg::Arc { x: 8, y: 10, .. }));
    assert!(matches!(segs[5], PathSeg::Horiz { x: 2 }));
    assert!(matches!(segs[6], PathSeg::Arc { x: 0, y: 8, .. }));
    assert!(matches!(segs[7], PathSeg::Vert { y: 2 }));
    assert!(matches!(segs[8], PathSeg::Arc { x: 2, y: 0, .. }));
    assert!(matches!(segs[9], PathSeg::Close));
    let arcs = segs.iter().filter(|s| matches!(s, PathSeg::Arc { .. })).count();
    assert_eq!(arcs, 4);
}

#[test]
fn one_sided_radius_does_not_round() {
    // Only rx given: ry stays at its 0 default, no rounding occurs, and
    // the sharp trace follows the full rectangle boundary — the lone
    // radius has no effect on any endpoint.
    let mut rect = blank(Tag::Rect, "rect");
    rect.width = Some(Len::User(10));
    rect.height = Some(Len::User(10));
    rect.rx = Some(Len::User(2));
    let doc = Doc { nodes: vec![rect], roots: vec![0] };
    let run = depth_first_visit(&doc, &no_overrides()).unwrap();
    let segs = match &run.events[2] {
        Event::Draw(s) => s.clone(),
        other => panic!("expected a draw, got {other:?}"),
    };
    assert_eq!(
        segs,
        vec![
            PathSeg::Move { x: 0, y: 0 },
            PathSeg::Horiz { x: 10 },
            PathSeg::Vert { y: 10 },
            PathSeg::Horiz { x: 0 },
            PathSeg::Vert { y: 0 },
            PathSeg::Close,
        ]
    );
}

#[test]
fn unresolved_reference_is_inert() {
    // A use pointing at a nonexistent id: zero geometry, zero descent, and
    // no fatal error.
    let mut svg = blank(Tag::Svg, "svg");
    svg.children = vec![1];
    let mut use_node = blank(Tag::Use, "use");
    use_node.href = Some(b"#nothing".to_vec());
    let doc = Doc { nodes: vec![svg, use_node], roots: vec![0] };
    let run = depth_first_visit(&doc, &no_overrides()).unwrap();
    assert!(run.events.iter().all(|e| !matches!(e, Event::Draw(_))));
    assert_eq!(run.events.len(), 6);
    assert_eq!(run.events[2], Event::Push(identity()));
    assert_eq!(run.events[3], Event::Annotate(b"use".to_vec()));
    assert_eq!(run.events[4], Event::Pop);
}

#[test]
fn rerun_is_identical() {
    // Two runs with fresh state over the same immutable input give
    // identical event and diagnostic sequences.
    let mut svg = blank(Tag::Svg, "svg");
    svg.view_box = Some(ViewBox { min_x: 0, min_y: 0, width: 30, height: 30 });
    svg.children = vec![1, 2];
    let mut rect = blank(Tag::Rect, "rect");
    rect.width = Some(Len::User(10));
    rect.height = Some(Len::User(4));
    let unknown = blank(Tag::Other, "mystery");
    let doc = Doc { nodes: vec![svg, rect, unknown], roots: vec![0] };
    let first = depth_first_visit(&doc, &no_overrides());
    let second = depth_first_visit(&doc, &no_overrides());
    assert_eq!(first, second);
}

#[test]
fn defs_marker_symbol_render_nothing_directly() {
    for tag in [Tag::Defs, Tag::Marker, Tag::Symbol] {
        let mut container = blank(tag, "container");
        container.children = vec![1];
        let mut rect = blank(Tag::Rect, "rect");
        rect.width = Some(Len::User(5));
        rect.height = Some(Len::User(5));
        let doc = Doc { nodes: vec![container, rect], roots: vec![0] };
        let run = depth_first_visit(&doc, &no_overrides()).unwrap();
        assert!(run.events.is_empty());
        assert!(run.diags.is_empty());
    }
}

#[test]
fn hidden_subtree_gets_no_events() {
    let mut group = blank(Tag::Group, "g");
    group.style = Some(b"fill:red;display:none".to_vec());
    group.children = vec![1];
    let mut rect = blank(Tag::Rect, "rect");
    rect.width = Some(Len::User(5));
    rect.height = Some(Len::User(5));
    let doc = Doc { nodes: vec![group, rect], roots: vec![0] };
    let run = depth_first_visit(&doc, &no_overrides()).unwrap();
    assert!(run.events.is_empty());
}

#[test]
fn symbol_renders_once_through_use() {
    // The symbol at index 1 is skipped by the strict walk, but the use at
    // index 3 reaches it through the relaxed walk; its rectangle child is
    // then drawn exactly once, under the use offset.
    let mut svg = blank(Tag::Svg, "svg");
    svg.children = vec![1, 3];
    let mut symbol = blank(Tag::Symbol, "sym");
    symbol.id = Some(b"s".to_vec());
    symbol.children = vec![2];
    let mut rect = blank(Tag::Rect, "rect");
    rect.width = Some(Len::User(4));
    rect.height = Some(Len::User(4));
    let mut use_node = blank(Tag::Use, "use");
    use_node.href = Some(b"#s".to_vec());
    use_node.x = Some(Len::User(7));
    use_node.y = Some(Len::User(9));
    let doc = Doc { nodes: vec![svg, symbol, rect, use_node], roots: vec![0] };
    let run = depth_first_visit(&doc, &no_overrides()).unwrap();
    let draws = run.events.iter().filter(|e| matches!(e, Event::Draw(_))).count();
    assert_eq!(draws, 1);
    // The use's own push is a pure translation by (7, 9).
    let use_push = Affine { m11: 1, m12: 0, m21: 0, m22: 1, m31: 7, m32: 9 };
    assert!(run.events.contains(&Event::Push(use_push)));
    // Pushes and pops balance.
    let pushes = run.events.iter().filter(|e| matches!(e, Event::Push(_))).count();
    let pops = run.events.iter().filter(|e| matches!(e, Event::Pop)).count();
    assert_eq!(pushes, pops);
}

#[test]
fn reference_cycle_is_fatal() {
    // g#a contains a use referencing g#a again through a sibling chain:
    // the guard reports a cycle instead of recursing forever.
    let mut outer_use = blank(Tag::Use, "u1");
    outer_use.href = Some(b"#a".to_vec());
    let mut group = blank(Tag::Group, "g");
    group.id = Some(b"a".to_vec());
    group.children = vec![2];
    let mut inner_use = blank(Tag::Use, "u2");
    inner_use.href = Some(b"#a".to_vec());
    let doc = Doc { nodes: vec![outer_use, group, inner_use], roots: vec![0] };
    let err = depth_first_visit(&doc, &no_overrides()).unwrap_err();
    assert_eq!(err, Fatal::ReferenceCycle { node: 2 });
}

#[test]
fn percentage_resolves_against_viewport() {
    // The svg establishes a (200, 100) viewport; a child rect of width 50%
    // and height 50% resolves to 100 by 50.
    let mut svg = blank(Tag::Svg, "svg");
    svg.width = Some(Len::User(200));
    svg.height = Some(Len::User(100));
    svg.children = vec![1];
    let mut rect = blank(Tag::Rect, "rect");
    rect.width = Some(Len::Percent(50));
    rect.height = Some(Len::Percent(50));
    let doc = Doc { nodes: vec![svg, rect], roots: vec![0] };
    let run = depth_first_visit(&doc, &no_overrides()).unwrap();
    let segs = match &run.events[4] {
        Event::Draw(s) => s.clone(),
        other => panic!("expected a draw, got {other:?}"),
    };
    assert_eq!(segs[1], PathSeg::Horiz { x: 100 });
    assert_eq!(segs[2], PathSeg::Vert { y: 50 });
}

#[test]
fn circle_derives_radii_and_closes() {
    let mut circle = blank(Tag::Circle, "circle");
    circle.cx = Some(Len::User(5));
    circle.cy = Some(Len::User(5));
    circle.r = Some(Len::User(5));
    let doc = Doc { nodes: vec![circle], roots: vec![0] };
    let run = depth_first_visit(&doc, &no_overrides()).unwrap();
    let segs = match &run.events[2] {
        Event::Draw(s) => s.clone(),
        other => panic!("expected a draw, got {other:?}"),
    };
    assert_eq!(segs.len(), 6);
    assert_eq!(segs[0], PathSeg::Move { x: 10, y: 5 });
    assert!(
        matches!(segs[1], PathSeg::Arc { rx: 5, ry: 5, x: 5, y: 10, .. })
    );
    assert!(
        matches!(segs[2], PathSeg::Arc { rx: 5, ry: 5, x: 0, y: 5, .. })
    );
    assert!(
        matches!(segs[3], PathSeg::Arc { rx: 5, ry: 5, x: 5, y: 0, .. })
    );
    assert!(
        matches!(segs[4], PathSeg::Arc { rx: 5, ry: 5, x: 10, y: 5, .. })
    );
    assert_eq!(segs[5], PathSeg::Close);
}

#[test]
fn zero_radius_circle_is_diagnosed() {
    let circle = blank(Tag::Circle, "circle");
    let doc = Doc { nodes: vec![circle], roots: vec![0] };
    let run = depth_first_visit(&doc, &no_overrides()).unwrap();
    assert!(run.events.iter().all(|e| !matches!(e, Event::Draw(_))));
    assert_eq!(run.diags, vec![Diag::InvalidEllipse { node: 0 }]);
}

#[test]
fn polygon_closes_polyline_does_not() {
    let pts = vec![(0, 0), (4, 0), (4, 4)];
    let mut polyline = blank(Tag::Polyline, "polyline");
    polyline.points = Some(pts.clone());
    let mut polygon = blank(Tag::Polygon, "polygon");
    polygon.points = Some(pts);
    let doc = Doc { nodes: vec![polyline], roots: vec![0] };
    let run = depth_first_visit(&doc, &no_overrides()).unwrap();
    let open_segs = match &run.events[2] {
        Event::Draw(s) => s.clone(),
        other => panic!("expected a draw, got {other:?}"),
    };
    assert_eq!(
        open_segs,
        vec![
            PathSeg::Move { x: 0, y: 0 },
            PathSeg::Line { x: 4, y: 0 },
            PathSeg::Line { x: 4, y: 4 },
        ]
    );
    let doc2 = Doc { nodes: vec![polygon], roots: vec![0] };
    let run2 = depth_first_visit(&doc2, &no_overrides()).unwrap();
    let closed_segs = match &run2.events[2] {
        Event::Draw(s) => s.clone(),
        other => panic!("expected a draw, got {other:?}"),
    };
    assert_eq!(closed_segs.len(), 4);
    assert_eq!(closed_segs[3], PathSeg::Close);
}

#[test]
fn line_and_missing_endpoint() {
    let mut line = blank(Tag::Line, "line");
    line.x1 = Some(Len::User(1));
    line.y1 = Some(Len::User(2));
    line.x2 = Some(Len::User(3));
    line.y2 = Some(Len::User(4));
    let doc = Doc { nodes: vec![line], roots: vec![0] };
    let run = depth_first_visit(&doc, &no_overrides()).unwrap();
    let segs = match &run.events[2] {
        Event::Draw(s) => s.clone(),
        other => panic!("expected a draw, got {other:?}"),
    };
    assert_eq!(segs, vec![PathSeg::Move { x: 1, y: 2 }, PathSeg::Line { x: 3, y: 4 }]);

    let mut bad = blank(Tag::Line, "line");
    bad.x1 = Some(Len::User(1));
    let doc2 = Doc { nodes: vec![bad], roots: vec![0] };
    let run2 = depth_first_visit(&doc2, &no_overrides()).unwrap();
    assert_eq!(run2.diags, vec![Diag::InvalidLine { node: 0 }]);
}

#[test]
fn path_data_is_forwarded_verbatim() {
    let data = vec![
        PathSeg::Move { x: 1, y: 1 },
        PathSeg::Arc { rx: 2, ry: 3, rotation: 0, large_arc: true, sweep: false, x: 4, y: 5 },
        PathSeg::Close,
    ];
    let mut path = blank(Tag::Path, "path");
    path.d = Some(data.clone());
    let doc = Doc { nodes: vec![path], roots: vec![0] };
    let run = depth_first_visit(&doc, &no_overrides()).unwrap();
    let segs = match &run.events[2] {
        Event::Draw(s) => s.clone(),
        other => panic!("expected a draw, got {other:?}"),
    };
    assert_eq!(segs, data);
}

#[test]
fn diagnostics_for_recognized_oddities() {
    // A clip path raises its own warning and the unknown-tag note; a group
    // carrying a viewBox has it ignored with a warning; an svg with a
    // non-positive viewBox has it treated as absent.
    let mut clip = blank(Tag::ClipPath, "clipPath");
    clip.transform_origin = true;
    let mut group = blank(Tag::Group, "g");
    group.view_box = Some(ViewBox { min_x: 0, min_y: 0, width: 5, height: 5 });
    let mut svg = blank(Tag::Svg, "svg");
    svg.view_box = Some(ViewBox { min_x: 0, min_y: 0, width: 0, height: 5 });
    let doc = Doc { nodes: vec![clip, group, svg], roots: vec![0, 1, 2] };
    let run = depth_first_visit(&doc, &no_overrides()).unwrap();
    assert_eq!(
        run.diags,
        vec![
            Diag::ClipPathUnsupported { node: 0 },
            Diag::TransformOriginUnsupported { node: 0 },
            Diag::UnknownTag { node: 0 },
            Diag::ViewBoxIgnored { node: 1 },
            Diag::InvalidViewBox { node: 2 },
        ]
    );
}

#[test]
fn width_override_takes_precedence() {
    // The caller's width override replaces the svg's own width; the height
    // override fills in a missing height.
    let mut svg = blank(Tag::Svg, "svg");
    svg.width = Some(Len::User(10));
    svg.children = vec![1];
    let mut rect = blank(Tag::Rect, "rect");
    rect.width = Some(Len::Percent(100));
    rect.height = Some(Len::Percent(100));
    let doc = Doc { nodes: vec![svg, rect], roots: vec![0] };
    let cfg = Config {
        width_override: Some(Len::User(40)),
        height_override: Some(Len::User(20)),
    };
    let run = depth_first_visit(&doc, &cfg).unwrap();
    let segs = match &run.events[4] {
        Event::Draw(s) => s.clone(),
        other => panic!("expected a draw, got {other:?}"),
    };
    assert_eq!(segs[1], PathSeg::Horiz { x: 40 });
    assert_eq!(segs[2], PathSeg::Vert { y: 20 });
}

#[test]
fn transform_fold_applies_later_functions_after_earlier() {
    // transform="translate(3,0) scale(2)": scale is listed later, so it is
    // applied after?  No: per the format's semantics earlier entries are
    // outermost, so the point is scaled first and then translated.
    let translate = Affine { m11: 1, m12: 0, m21: 0, m22: 1, m31: 3, m32: 0 };
    let scale = Affine { m11: 2, m12: 0, m21: 0, m22: 2, m31: 0, m32: 0 };
    let mut rect = blank(Tag::Rect, "rect");
    rect.transform = vec![translate, scale];
    rect.width = Some(Len::User(1));
    rect.height = Some(Len::User(1));
    let doc = Doc { nodes: vec![rect], roots: vec![0] };
    let run = depth_first_visit(&doc, &no_overrides()).unwrap();
    let t = match &run.events[0] {
        Event::Push(t) => *t,
        other => panic!("expected a push, got {other:?}"),
    };
    // (1, 1) -> scale -> (2, 2) -> translate -> (5, 2)
    assert_eq!(t.apply(1, 1), Some((5, 2)));
}

#[test]
fn transform_overflow_is_fatal() {
    let huge = Affine { m11: i64::MAX, m12: 0, m21: 0, m22: 1, m31: 0, m32: 0 };
    let double = Affine { m11: 2, m12: 0, m21: 0, m22: 1, m31: 0, m32: 0 };
    let mut rect = blank(Tag::Rect, "rect");
    rect.transform = vec![huge, double];
    let doc = Doc { nodes: vec![rect], roots: vec![0] };
    let err = depth_first_visit(&doc, &no_overrides()).unwrap_err();
    assert_eq!(err, Fatal::Overflow { node: 0 });
}

#[test]
fn symbol_viewbox_scales_into_use_size() {
    // A symbol with viewBox (0,0,10,10) and explicit size 20x20: its box is
    // stretched by 2 on each axis.
    let mut svg = blank(Tag::Svg, "svg");
    svg.children = vec![1, 3];
    let mut symbol = blank(Tag::Symbol, "sym");
    symbol.id = Some(b"s".to_vec());
    symbol.view_box = Some(ViewBox { min_x: 0, min_y: 0, width: 10, height: 10 });
    symbol.width = Some(Len::User(20));
    symbol.height = Some(Len::User(20));
    symbol.children = vec![2];
    let mut rect = blank(Tag::Rect, "rect");
    rect.width = Some(Len::Percent(50));
    rect.height = Some(Len::Percent(50));
    let mut use_node = blank(Tag::Use, "use");
    use_node.href = Some(b"#s".to_vec());
    let doc = Doc { nodes: vec![svg, symbol, rect, use_node], roots: vec![0] };
    let run = depth_first_visit(&doc, &no_overrides()).unwrap();
    // The symbol's own push scales by 2.
    let symbol_push = Affine { m11: 2, m12: 0, m21: 0, m22: 2, m31: 0, m32: 0 };
    assert!(run.events.contains(&Event::Push(symbol_push)));
    // Percentages inside the symbol resolve against its resolved size
    // (20, 20): 50% of 20 is 10.
    let segs = run
        .events
        .iter()
        .find_map(|e| match e {
            Event::Draw(s) => Some(s.clone()),
            _ => None,
        })
        .expect("a draw event");
    assert_eq!(segs[1], PathSeg::Horiz { x: 10 });
}

#[test]
fn missing_geometry_attributes_are_diagnosed() {
    let path = blank(Tag::Path, "path");
    let polyline = blank(Tag::Polyline, "polyline");
    let rect = blank(Tag::Rect, "rect");
    let doc = Doc { nodes: vec![path, polyline, rect], roots: vec![0, 1, 2] };
    let run = depth_first_visit(&doc, &no_overrides()).unwrap();
    assert!(run.events.iter().all(|e| !matches!(e, Event::Draw(_))));
    assert_eq!(
        run.diags,
        vec![
            Diag::MissingPathData { node: 0 },
            Diag::MissingPoints { node: 1 },
            Diag::InvalidRect { node: 2 },
        ]
    );
}

#[test]
fn severity_classifies_diagnostics() {
    assert_eq!(Diag::UnknownTag { node: 0 }.severity(), Severity::Info);
    assert_eq!(Diag::InvalidRect { node: 1 }.severity(), Severity::Warning);
}

#[test]
fn point_mapping_overflow_is_none() {
    let t = Affine { m11: i64::MAX, m12: 0, m21: 0, m22: 1, m31: 0, m32: 0 };
    assert_eq!(t.apply(2, 0), None);
    assert_eq!(t.apply(1, 0), Some((i64::MAX, 0)));
}

#[test]
fn root_flip_includes_viewport_y_offset() {
    // An svg of height 20 at y = 5 flips the vertical axis by
    // -(height + y): local (0,0) lands at (0,-25).
    let mut svg = blank(Tag::Svg, "svg");
    svg.width = Some(Len::User(10));
    svg.height = Some(Len::User(20));
    svg.y = Some(Len::User(5));
    let doc = Doc { nodes: vec![svg], roots: vec![0] };
    let run = depth_first_visit(&doc, &no_overrides()).unwrap();
    let t = match &run.events[0] {
        Event::Push(t) => *t,
        other => panic!("expected a push, got {other:?}"),
    };
    assert_eq!(t.apply(0, 0), Some((0, -25)));
}

#[test]
fn use_can_reach_a_definitions_container() {
    // The relaxed walk does not apply the definition-kind exclusion, so a
    // referenced defs container renders: it is noted as an unrecognized
    // tag and its child rectangle is drawn.
    let mut defs = blank(Tag::Defs, "defs");
    defs.id = Some(b"d".to_vec());
    defs.children = vec![1];
    let mut rect = blank(Tag::Rect, "rect");
    rect.width = Some(Len::User(3));
    rect.height = Some(Len::User(3));
    let mut use_node = blank(Tag::Use, "use");
    use_node.href = Some(b"#d".to_vec());
    let doc = Doc { nodes: vec![defs, rect, use_node], roots: vec![0, 2] };
    let run = depth_first_visit(&doc, &no_overrides()).unwrap();
    let draws = run.events.iter().filter(|e| matches!(e, Event::Draw(_))).count();
    assert_eq!(draws, 1);
    assert!(run.diags.contains(&Diag::UnknownTag { node: 0 }));
}
