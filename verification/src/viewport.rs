//! Viewport establishment: percentage-length resolution against the
//! viewport-dimension stack, viewport-size derivation for root-kind and
//! symbol elements, and the transform placing a `viewBox` inside a viewport.
//!
//! All arithmetic is checked; `None` marks an overflow, which the traversal
//! treats as fatal.

use vstd::prelude::*;
use crate::doc::{Len, ViewBox};
use crate::geom::Affine;

verus! {

/// The top of the viewport-dimension stack, or the degenerate `(1, 1)`
/// default when no viewport has been established yet.
pub open spec fn spec_top_or_unit(vstack: Seq<(i64, i64)>) -> (i64, i64) {
    if vstack.len() == 0 {
        (1, 1)
    } else {
        vstack.last()
    }
}

/// Reads the active viewport dimensions; see [`spec_top_or_unit`].
pub fn top_or_unit(vstack: &Vec<(i64, i64)>) -> (r: (i64, i64))
    ensures
        r == spec_top_or_unit(vstack@),
{
    if vstack.len() == 0 {
        (1, 1)
    } else {
        vstack[vstack.len() - 1]
    }
}

/// Resolves a length against one viewport dimension: user units pass
/// through; a percentage takes its share of `dim`, truncated.
/// `None` on overflow.
pub open spec fn spec_resolve_len(l: Len, dim: i64) -> Option<i64> {
    match l {
        Len::User(v) => Some(v),
        Len::Percent(p) => match p.checked_mul(dim) {
            Some(t) => t.checked_div(100),
            None => None,
        },
    }
}

/// Resolves a length value; see [`spec_resolve_len`].
pub fn resolve_len(l: Len, dim: i64) -> (r: Option<i64>)
    ensures
        r == spec_resolve_len(l, dim),
{
    match l {
        Len::User(v) => Some(v),
        Len::Percent(p) => match p.checked_mul(dim) {
            Some(t) => t.checked_div(100),
            None => None,
        },
    }
}

/// Resolves an optional length attribute: absent stays absent; a present
/// value resolves per [`spec_resolve_len`], where the inner `None`
/// marks overflow.
pub open spec fn spec_resolve_opt(l: Option<Len>, dim: i64) -> Option<Option<i64>> {
    match l {
        None => Some(None),
        Some(v) => match spec_resolve_len(v, dim) {
            Some(r) => Some(Some(r)),
            None => None,
        },
    }
}

/// Resolves an optional length attribute; see [`spec_resolve_opt`].
pub fn resolve_opt(l: &Option<Len>, dim: i64) -> (r: Option<Option<i64>>)
    ensures
        r == spec_resolve_opt(*l, dim),
{
    match l {
        None => Some(None),
        Some(v) => match resolve_len(*v, dim) {
            Some(x) => Some(Some(x)),
            None => None,
        },
    }
}

/// A `viewBox` participates only when both its extents are strictly
/// positive; otherwise it is treated as absent (with a diagnostic).
pub open spec fn spec_usable_box(vb: Option<ViewBox>) -> Option<ViewBox> {
    match vb {
        Some(b) => if b.width > 0 && b.height > 0 {
            Some(b)
        } else {
            None
        },
        None => None,
    }
}

/// Filters a `viewBox` to one with positive extents; see [`spec_usable_box`].
pub fn usable_box(vb: &Option<ViewBox>) -> (r: Option<ViewBox>)
    ensures
        r == spec_usable_box(*vb),
{
    match vb {
        Some(b) => if b.width > 0 && b.height > 0 {
            Some(*b)
        } else {
            None
        },
        None => None,
    }
}

/// The root-kind viewport size in user units, derived from the (already
/// override-merged) width/height and the usable box:
/// both known are used as-is; one known derives the other through the
/// box ratio when a box exists, else falls back to a square; neither known
/// takes the box extents verbatim, or the degenerate `(1, 1)` without a box.
/// `None` on overflow.
pub open spec fn spec_root_size(vb: Option<ViewBox>, w: Option<i64>, h: Option<i64>) -> Option<
    (i64, i64),
> {
    match (w, h) {
        (Some(wv), Some(hv)) => Some((wv, hv)),
        (Some(wv), None) => match vb {
            Some(b) => match wv.checked_mul(b.height) {
                Some(t) => match t.checked_div(b.width) {
                    Some(hv) => Some((wv, hv)),
                    None => None,
                },
                None => None,
            },
            None => Some((wv, wv)),
        },
        (None, Some(hv)) => match vb {
            Some(b) => match hv.checked_mul(b.width) {
                Some(t) => match t.checked_div(b.height) {
                    Some(wv) => Some((wv, hv)),
                    None => None,
                },
                None => None,
            },
            None => Some((hv, hv)),
        },
        (None, None) => match vb {
            Some(b) => Some((b.width, b.height)),
            None => Some((1, 1)),
        },
    }
}

/// Derives the root-kind viewport size; see [`spec_root_size`].
pub fn root_size(vb: &Option<ViewBox>, w: Option<i64>, h: Option<i64>) -> (r: Option<(i64, i64)>)
    ensures
        r == spec_root_size(*vb, w, h),
{
    match (w, h) {
        (Some(wv), Some(hv)) => Some((wv, hv)),
        (Some(wv), None) => match vb {
            Some(b) => match wv.checked_mul(b.height) {
                Some(t) => match t.checked_div(b.width) {
                    Some(hv) => Some((wv, hv)),
                    None => None,
                },
                None => None,
            },
            None => Some((wv, wv)),
        },
        (None, Some(hv)) => match vb {
            Some(b) => match hv.checked_mul(b.width) {
                Some(t) => match t.checked_div(b.height) {
                    Some(wv) => Some((wv, hv)),
                    None => None,
                },
                None => None,
            },
            None => Some((hv, hv)),
        },
        (None, None) => match vb {
            Some(b) => Some((b.width, b.height)),
            None => Some((1, 1)),
        },
    }
}

/// A symbol's own viewport size: explicit width and height when both are
/// present; else the usable box extents; else the current top of the
/// viewport-dimension stack, inherited unchanged.
pub open spec fn spec_symbol_size(
    vb: Option<ViewBox>,
    w: Option<i64>,
    h: Option<i64>,
    top: (i64, i64),
) -> (i64, i64) {
    match (w, h) {
        (Some(wv), Some(hv)) => (wv, hv),
        _ => match vb {
            Some(b) => (b.width, b.height),
            None => top,
        },
    }
}

/// Derives a symbol's viewport size; see [`spec_symbol_size`].
pub fn symbol_size(vb: &Option<ViewBox>, w: Option<i64>, h: Option<i64>, top: (i64, i64)) -> (r: (
    i64,
    i64,
))
    ensures
        r == spec_symbol_size(*vb, w, h, top),
{
    match (w, h) {
        (Some(wv), Some(hv)) => (wv, hv),
        _ => match vb {
            Some(b) => (b.width, b.height),
            None => top,
        },
    }
}

/// The affine transform placing the box inside the viewport of size
/// `(vw, vh)` at position `(px, py)`: each axis is scaled independently by
/// the truncated quotient of viewport extent over box extent, and the box
/// origin is carried to the viewport position. The box extents must be
/// strictly positive (a non-positive box was already discarded).
/// `None` on overflow.
///
/// Only this stretch policy is honored: an alignment/fit specification on
/// the element is validated at the parsing boundary and does not vary the
/// mapping, so aspect ratios are not preserved when box and viewport
/// disagree. This is a documented limitation of the model, not an
/// oversight.
pub open spec fn spec_viewport_transform(vb: ViewBox, vw: i64, vh: i64, px: i64, py: i64) -> Option<
    Affine,
> {
    match (vw.checked_div(vb.width), vh.checked_div(vb.height)) {
        (Some(sx), Some(sy)) => match (vb.min_x.checked_mul(sx), vb.min_y.checked_mul(sy)) {
            (Some(ox), Some(oy)) => match (px.checked_sub(ox), py.checked_sub(oy)) {
                (Some(ex), Some(ey)) => Some(
                    Affine { m11: sx, m12: 0, m21: 0, m22: sy, m31: ex, m32: ey },
                ),
                _ => None,
            },
            _ => None,
        },
        _ => None,
    }
}

/// Computes the box-to-viewport transform; see [`spec_viewport_transform`].
pub fn viewport_transform(vb: &ViewBox, vw: i64, vh: i64, px: i64, py: i64) -> (r: Option<Affine>)
    requires
        vb.width > 0,
        vb.height > 0,
    ensures
        r == spec_viewport_transform(*vb, vw, vh, px, py),
{
    match (vw.checked_div(vb.width), vh.checked_div(vb.height)) {
        (Some(sx), Some(sy)) => match (vb.min_x.checked_mul(sx), vb.min_y.checked_mul(sy)) {
            (Some(ox), Some(oy)) => match (px.checked_sub(ox), py.checked_sub(oy)) {
                (Some(ex), Some(ey)) => Some(
                    Affine { m11: sx, m12: 0, m21: 0, m22: sy, m31: ex, m32: ey },
                ),
                _ => None,
            },
            _ => None,
        },
        _ => None,
    }
}

} // verus!
