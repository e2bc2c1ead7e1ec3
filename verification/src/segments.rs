//! Canonical path segments and the lowering of primitive shapes into them.
//!
//! Every lowered sequence is complete and self-closing where applicable;
//! a malformed element produces no sequence at all. Coordinates are always
//! absolute. Arithmetic is checked: `None` marks an overflow.

use vstd::prelude::*;

verus! {

/// A canonical path segment in absolute coordinates.
#[derive(Clone, Copy, Debug, PartialEq, Eq, Structural)]
pub enum PathSeg {
    /// Move the pen to `(x, y)`.
    Move { x: i64, y: i64 },
    /// Straight line to `(x, y)`.
    Line { x: i64, y: i64 },
    /// Horizontal line to the given x.
    Horiz { x: i64 },
    /// Vertical line to the given y.
    Vert { y: i64 },
    /// Elliptical arc to `(x, y)` with radii `(rx, ry)`.
    Arc { rx: i64, ry: i64, rotation: i64, large_arc: bool, sweep: bool, x: i64, y: i64 },
    /// Close the current subpath.
    Close,
}

/// Copies a segment sequence (segments are plain values).
pub fn copy_segs(v: &Vec<PathSeg>) -> (r: Vec<PathSeg>)
    ensures
        r@ == v@,
{
    let mut out: Vec<PathSeg> = Vec::new();
    let mut i: usize = 0;
    while i < v.len()
        invariant
            i <= v.len(),
            out@ =~= v@.subrange(0, i as int),
        decreases v.len() - i,
    {
        out.push(v[i]);
        i = i + 1;
    }
    assert(out@ =~= v@);
    out
}

/// The boundary of a rectangle at `(x, y)` of size `w` by `h` with corner
/// radii `(rx, ry)`, traced clockwise. The four corner arcs appear only
/// when both radii are strictly positive, starting from `(x+rx, y)`;
/// radii are never cross-defaulted, and when either is missing or zero no
/// rounding occurs: the sharp form traces the full boundary from `(x, y)`,
/// its corner line endpoints coinciding exactly, with a lone radius left
/// entirely without effect. `None` on arithmetic overflow.
pub open spec fn spec_rect_segs(x: i64, y: i64, w: i64, h: i64, rx: i64, ry: i64) -> Option<
    Seq<PathSeg>,
> {
    if rx > 0 && ry > 0 {
        match (x.checked_add(w), y.checked_add(h), x.checked_add(rx), y.checked_add(ry)) {
            (Some(xw), Some(yh), Some(xpr), Some(ypr)) => match (
                xw.checked_sub(rx),
                yh.checked_sub(ry),
            ) {
                (Some(xwr), Some(yhr)) => Some(
                    seq![
                        PathSeg::Move { x: xpr, y },
                        PathSeg::Horiz { x: xwr },
                        PathSeg::Arc {
                            rx,
                            ry,
                            rotation: 0,
                            large_arc: false,
                            sweep: true,
                            x: xw,
                            y: ypr,
                        },
                        PathSeg::Vert { y: yhr },
                        PathSeg::Arc {
                            rx,
                            ry,
                            rotation: 0,
                            large_arc: false,
                            sweep: true,
                            x: xwr,
                            y: yh,
                        },
                        PathSeg::Horiz { x: xpr },
                        PathSeg::Arc {
                            rx,
                            ry,
                            rotation: 0,
                            large_arc: false,
                            sweep: true,
                            x,
                            y: yhr,
                        },
                        PathSeg::Vert { y: ypr },
                        PathSeg::Arc {
                            rx,
                            ry,
                            rotation: 0,
                            large_arc: false,
                            sweep: true,
                            x: xpr,
                            y,
                        },
                        PathSeg::Close,
                    ],
                ),
                _ => None,
            },
            _ => None,
        }
    } else {
        match (x.checked_add(w), y.checked_add(h)) {
            (Some(xw), Some(yh)) => Some(
                seq![
                    PathSeg::Move { x, y },
                    PathSeg::Horiz { x: xw },
                    PathSeg::Vert { y: yh },
                    PathSeg::Horiz { x },
                    PathSeg::Vert { y },
                    PathSeg::Close,
                ],
            ),
            _ => None,
        }
    }
}

/// Lowers a rectangle; see [`spec_rect_segs`].
pub fn rect_segs(x: i64, y: i64, w: i64, h: i64, rx: i64, ry: i64) -> (r: Option<Vec<PathSeg>>)
    ensures
        match r {
            Some(v) => spec_rect_segs(x, y, w, h, rx, ry) == Some(v@),
            None => spec_rect_segs(x, y, w, h, rx, ry) is None,
        },
{
    if rx > 0 && ry > 0 {
        match (x.checked_add(w), y.checked_add(h), x.checked_add(rx), y.checked_add(ry)) {
            (Some(xw), Some(yh), Some(xpr), Some(ypr)) => match (
                xw.checked_sub(rx),
                yh.checked_sub(ry),
            ) {
                (Some(xwr), Some(yhr)) => {
                    let mut v: Vec<PathSeg> = Vec::new();
                    v.push(PathSeg::Move { x: xpr, y });
                    v.push(PathSeg::Horiz { x: xwr });
                    v.push(
                        PathSeg::Arc {
                            rx,
                            ry,
                            rotation: 0,
                            large_arc: false,
                            sweep: true,
                            x: xw,
                            y: ypr,
                        },
                    );
                    v.push(PathSeg::Vert { y: yhr });
                    v.push(
                        PathSeg::Arc {
                            rx,
                            ry,
                            rotation: 0,
                            large_arc: false,
                            sweep: true,
                            x: xwr,
                            y: yh,
                        },
                    );
                    v.push(PathSeg::Horiz { x: xpr });
                    v.push(
                        PathSeg::Arc {
                            rx,
                            ry,
                            rotation: 0,
                            large_arc: false,
                            sweep: true,
                            x,
                            y: yhr,
                        },
                    );
                    v.push(PathSeg::Vert { y: ypr });
                    v.push(
                        PathSeg::Arc {
                            rx,
                            ry,
                            rotation: 0,
                            large_arc: false,
                            sweep: true,
                            x: xpr,
                            y,
                        },
                    );
                    v.push(PathSeg::Close);
                    proof {
                        assert(spec_rect_segs(x, y, w, h, rx, ry) matches Some(s) && s =~= v@);
                    }
                    Some(v)
                },
                _ => None,
            },
            _ => None,
        }
    } else {
        match (x.checked_add(w), y.checked_add(h)) {
            (Some(xw), Some(yh)) => {
                let mut v: Vec<PathSeg> = Vec::new();
                v.push(PathSeg::Move { x, y });
                v.push(PathSeg::Horiz { x: xw });
                v.push(PathSeg::Vert { y: yh });
                v.push(PathSeg::Horiz { x });
                v.push(PathSeg::Vert { y });
                v.push(PathSeg::Close);
                proof {
                    assert(spec_rect_segs(x, y, w, h, rx, ry) matches Some(s) && s =~= v@);
                }
                Some(v)
            },
            _ => None,
        }
    }
}

/// The 4-point, 4-arc closed outline of an ellipse centred at `(cx, cy)`
/// with radii `(rx, ry)`, starting at `(cx+rx, cy)`. `None` on overflow.
pub open spec fn spec_ellipse_segs(cx: i64, cy: i64, rx: i64, ry: i64) -> Option<Seq<PathSeg>> {
    match (cx.checked_add(rx), cy.checked_add(ry), cx.checked_sub(rx), cy.checked_sub(ry)) {
        (Some(cxr), Some(cyr), Some(cxl), Some(cyl)) => Some(
            seq![
                PathSeg::Move { x: cxr, y: cy },
                PathSeg::Arc { rx, ry, rotation: 0, large_arc: false, sweep: true, x: cx, y: cyr },
                PathSeg::Arc { rx, ry, rotation: 0, large_arc: false, sweep: true, x: cxl, y: cy },
                PathSeg::Arc { rx, ry, rotation: 0, large_arc: false, sweep: true, x: cx, y: cyl },
                PathSeg::Arc { rx, ry, rotation: 0, large_arc: false, sweep: true, x: cxr, y: cy },
                PathSeg::Close,
            ],
        ),
        _ => None,
    }
}

/// Lowers a circle or ellipse outline; see [`spec_ellipse_segs`].
pub fn ellipse_segs(cx: i64, cy: i64, rx: i64, ry: i64) -> (r: Option<Vec<PathSeg>>)
    ensures
        match r {
            Some(v) => spec_ellipse_segs(cx, cy, rx, ry) == Some(v@),
            None => spec_ellipse_segs(cx, cy, rx, ry) is None,
        },
{
    match (cx.checked_add(rx), cy.checked_add(ry), cx.checked_sub(rx), cy.checked_sub(ry)) {
        (Some(cxr), Some(cyr), Some(cxl), Some(cyl)) => {
            let mut v: Vec<PathSeg> = Vec::new();
            v.push(PathSeg::Move { x: cxr, y: cy });
            v.push(
                PathSeg::Arc { rx, ry, rotation: 0, large_arc: false, sweep: true, x: cx, y: cyr },
            );
            v.push(
                PathSeg::Arc { rx, ry, rotation: 0, large_arc: false, sweep: true, x: cxl, y: cy },
            );
            v.push(
                PathSeg::Arc { rx, ry, rotation: 0, large_arc: false, sweep: true, x: cx, y: cyl },
            );
            v.push(
                PathSeg::Arc { rx, ry, rotation: 0, large_arc: false, sweep: true, x: cxr, y: cy },
            );
            v.push(PathSeg::Close);
            proof {
                assert(spec_ellipse_segs(cx, cy, rx, ry) matches Some(s) && s =~= v@);
            }
            Some(v)
        },
        _ => None,
    }
}

/// A single straight stroke from `(x1, y1)` to `(x2, y2)`.
pub open spec fn spec_line_segs(x1: i64, y1: i64, x2: i64, y2: i64) -> Seq<PathSeg> {
    seq![PathSeg::Move { x: x1, y: y1 }, PathSeg::Line { x: x2, y: y2 }]
}

/// Lowers a line element; see [`spec_line_segs`].
pub fn line_segs(x1: i64, y1: i64, x2: i64, y2: i64) -> (r: Vec<PathSeg>)
    ensures
        r@ == spec_line_segs(x1, y1, x2, y2),
{
    let mut v: Vec<PathSeg> = Vec::new();
    v.push(PathSeg::Move { x: x1, y: y1 });
    v.push(PathSeg::Line { x: x2, y: y2 });
    assert(v@ =~= spec_line_segs(x1, y1, x2, y2));
    v
}

/// A move to the first point and a line to each subsequent point; a closing
/// segment is appended for a polygon. No points yield no segments.
pub open spec fn spec_poly_segs(points: Seq<(i64, i64)>, close: bool) -> Seq<PathSeg> {
    if points.len() == 0 {
        seq![]
    } else {
        seq![PathSeg::Move { x: points[0].0, y: points[0].1 }] + Seq::new(
            (points.len() - 1) as nat,
            |k: int| PathSeg::Line { x: points[k + 1].0, y: points[k + 1].1 },
        ) + if close {
            seq![PathSeg::Close]
        } else {
            seq![]
        }
    }
}

/// Lowers a polyline (`close` false) or polygon (`close` true);
/// see [`spec_poly_segs`].
pub fn poly_segs(points: &Vec<(i64, i64)>, close: bool) -> (r: Vec<PathSeg>)
    ensures
        r@ == spec_poly_segs(points@, close),
{
    let mut v: Vec<PathSeg> = Vec::new();
    if points.len() == 0 {
        assert(v@ =~= spec_poly_segs(points@, close));
        return v;
    }
    v.push(PathSeg::Move { x: points[0].0, y: points[0].1 });
    let mut i: usize = 1;
    while i < points.len()
        invariant
            1 <= i <= points.len(),
            v@ =~= seq![PathSeg::Move { x: points@[0].0, y: points@[0].1 }] + Seq::new(
                (i - 1) as nat,
                |k: int| PathSeg::Line { x: points@[k + 1].0, y: points@[k + 1].1 },
            ),
        decreases points.len() - i,
    {
        v.push(PathSeg::Line { x: points[i].0, y: points[i].1 });
        i = i + 1;
    }
    if close {
        v.push(PathSeg::Close);
    }
    assert(v@ =~= spec_poly_segs(points@, close));
    v
}

} // verus!
