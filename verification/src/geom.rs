//! Affine 2D transforms over integer user units.
//!
//! A transform is the row-vector matrix
//! `[m11 m12; m21 m22; m31 m32]`: a point `(x, y)` maps to
//! `(x*m11 + y*m21 + m31, x*m12 + y*m22 + m32)`.
//! All arithmetic is checked; `None` marks an overflow, which the traversal
//! treats as a fatal machine-limit error.

use vstd::prelude::*;

verus! {

/// An affine 2D transform with integer entries.
#[derive(Clone, Copy, Debug, PartialEq, Eq, Structural)]
pub struct Affine {
    pub m11: i64,
    pub m12: i64,
    pub m21: i64,
    pub m22: i64,
    pub m31: i64,
    pub m32: i64,
}

/// The identity transform.
pub open spec fn spec_identity() -> Affine {
    Affine { m11: 1, m12: 0, m21: 0, m22: 1, m31: 0, m32: 0 }
}

/// A pure translation by `(x, y)`.
pub open spec fn spec_translation(x: i64, y: i64) -> Affine {
    Affine { m11: 1, m12: 0, m21: 0, m22: 1, m31: x, m32: y }
}

/// Checked `x1*y1 + x2*y2 + c`.
pub open spec fn spec_dot(x1: i64, y1: i64, x2: i64, y2: i64, c: i64) -> Option<i64> {
    match x1.checked_mul(y1) {
        Some(p1) => match x2.checked_mul(y2) {
            Some(p2) => match p1.checked_add(p2) {
                Some(s) => s.checked_add(c),
                None => None,
            },
            None => None,
        },
        None => None,
    }
}

/// Checked composition `a` then `b`: the result applies `a` first and `b`
/// second, i.e. the matrix product `a * b` in row-vector convention.
pub open spec fn spec_compose(a: Affine, b: Affine) -> Option<Affine> {
    match (
        spec_dot(a.m11, b.m11, a.m12, b.m21, 0),
        spec_dot(a.m11, b.m12, a.m12, b.m22, 0),
        spec_dot(a.m21, b.m11, a.m22, b.m21, 0),
        spec_dot(a.m21, b.m12, a.m22, b.m22, 0),
        spec_dot(a.m31, b.m11, a.m32, b.m21, b.m31),
        spec_dot(a.m31, b.m12, a.m32, b.m22, b.m32),
    ) {
        (Some(m11), Some(m12), Some(m21), Some(m22), Some(m31), Some(m32)) => Some(
            Affine { m11, m12, m21, m22, m31, m32 },
        ),
        _ => None,
    }
}

/// Checked image of the point `(x, y)` under `t`.
pub open spec fn spec_apply(t: Affine, x: i64, y: i64) -> Option<(i64, i64)> {
    match (spec_dot(x, t.m11, y, t.m21, t.m31), spec_dot(x, t.m12, y, t.m22, t.m32)) {
        (Some(px), Some(py)) => Some((px, py)),
        _ => None,
    }
}

impl Affine {
    /// The identity transform.
    pub fn identity() -> (r: Affine)
        ensures
            r == spec_identity(),
    {
        Affine { m11: 1, m12: 0, m21: 0, m22: 1, m31: 0, m32: 0 }
    }

    /// A pure translation by `(x, y)`.
    pub fn translation(x: i64, y: i64) -> (r: Affine)
        ensures
            r == spec_translation(x, y),
    {
        Affine { m11: 1, m12: 0, m21: 0, m22: 1, m31: x, m32: y }
    }

    /// Composition: the result applies `self` first, then `other`.
    /// `None` on arithmetic overflow.
    pub fn compose(&self, other: &Affine) -> (r: Option<Affine>)
        ensures
            r == spec_compose(*self, *other),
    {
        let a = *self;
        let b = *other;
        match (
            dot(a.m11, b.m11, a.m12, b.m21, 0),
            dot(a.m11, b.m12, a.m12, b.m22, 0),
            dot(a.m21, b.m11, a.m22, b.m21, 0),
            dot(a.m21, b.m12, a.m22, b.m22, 0),
            dot(a.m31, b.m11, a.m32, b.m21, b.m31),
            dot(a.m31, b.m12, a.m32, b.m22, b.m32),
        ) {
            (Some(m11), Some(m12), Some(m21), Some(m22), Some(m31), Some(m32)) => Some(
                Affine { m11, m12, m21, m22, m31, m32 },
            ),
            _ => None,
        }
    }

    /// The image of the point `(x, y)` under this transform.
    /// `None` on arithmetic overflow.
    pub fn apply(&self, x: i64, y: i64) -> (r: Option<(i64, i64)>)
        ensures
            r == spec_apply(*self, x, y),
    {
        let t = *self;
        match (dot(x, t.m11, y, t.m21, t.m31), dot(x, t.m12, y, t.m22, t.m32)) {
            (Some(px), Some(py)) => Some((px, py)),
            _ => None,
        }
    }
}

/// Checked `x1*y1 + x2*y2 + c`.
fn dot(x1: i64, y1: i64, x2: i64, y2: i64, c: i64) -> (r: Option<i64>)
    ensures
        r == spec_dot(x1, y1, x2, y2, c),
{
    match x1.checked_mul(y1) {
        Some(p1) => match x2.checked_mul(y2) {
            Some(p2) => match p1.checked_add(p2) {
                Some(s) => s.checked_add(c),
                None => None,
            },
            None => None,
        },
        None => None,
    }
}

} // verus!
