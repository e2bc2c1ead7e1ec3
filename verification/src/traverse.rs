//! The traversal driver and coordinate resolver.
//!
//! A pre-order depth-first walk over the document's root children. Each
//! rendered node contributes one fully composed local transform, pushed on
//! enter and popped on exit; viewport-establishing elements additionally
//! push their resolved size on the viewport-dimension stack; primitive
//! elements are lowered to canonical segment sequences. The walk is a pure
//! function of the document and configuration: its whole outcome is pinned
//! by the mirror specification [`spec_visit_roots`].

use vstd::prelude::*;
use crate::doc::{Doc, Len, Node, Tag};
use crate::geom::{Affine, spec_compose, spec_identity, spec_translation};
use crate::segments::{PathSeg, spec_ellipse_segs, spec_line_segs, spec_poly_segs, spec_rect_segs};
use crate::text::{spec_fragment, spec_style_hides};
use crate::viewport::{
    spec_resolve_opt,
    spec_root_size,
    spec_symbol_size,
    spec_top_or_unit,
    spec_usable_box,
    spec_viewport_transform,
    usable_box,
};

verus! {

/// Caller configuration: optional output-dimension overrides for the root
/// viewport, applied independently per axis.
#[derive(Clone, Copy, Debug)]
pub struct Config {
    pub width_override: Option<Len>,
    pub height_override: Option<Len>,
}

/// A non-fatal diagnostic, tagged with the index of the node it concerns.
#[derive(Clone, Copy, Debug, PartialEq, Eq, Structural)]
pub enum Diag {
    /// Clip paths are recognized but unsupported.
    ClipPathUnsupported { node: usize },
    /// `transform-origin` is recognized for compliance but not applied.
    TransformOriginUnsupported { node: usize },
    /// A `viewBox` with non-positive extents is treated as absent.
    InvalidViewBox { node: usize },
    /// A `viewBox` on an element that establishes no viewport is ignored.
    ViewBoxIgnored { node: usize },
    /// A path element without path data produces no geometry.
    MissingPathData { node: usize },
    /// A polyline or polygon without points produces no geometry.
    MissingPoints { node: usize },
    /// A rectangle missing width or height produces no geometry.
    InvalidRect { node: usize },
    /// A circle or ellipse without positive radii produces no geometry.
    InvalidEllipse { node: usize },
    /// A line missing one of its endpoints produces no geometry.
    InvalidLine { node: usize },
    /// An unrecognized tag; its children are still visited.
    UnknownTag { node: usize },
}

/// Diagnostic severity: everything is a warning except the informational
/// unknown-tag note.
#[derive(Clone, Copy, Debug, PartialEq, Eq, Structural)]
pub enum Severity {
    Warning,
    Info,
}

impl Diag {
    /// The severity of this diagnostic.
    pub open spec fn spec_severity(self) -> Severity {
        match self {
            Diag::UnknownTag { .. } => Severity::Info,
            _ => Severity::Warning,
        }
    }

    /// Returns the severity of this diagnostic.
    pub fn severity(&self) -> (r: Severity)
        ensures
            r == self.spec_severity(),
    {
        match self {
            Diag::UnknownTag { .. } => Severity::Info,
            _ => Severity::Warning,
        }
    }
}

/// A fatal error: the whole conversion is abandoned.
#[derive(Clone, Copy, Debug, PartialEq, Eq, Structural)]
pub enum Fatal {
    /// Checked arithmetic left the machine range.
    Overflow { node: usize },
    /// A reference cycle was detected while expanding a reference element.
    ReferenceCycle { node: usize },
}

/// One record handed to the output sink, in emission order.
#[derive(Clone, Debug, PartialEq, Eq)]
pub enum Event {
    /// A rendered node was entered: its fully composed local transform.
    Push(Affine),
    /// The entered node's label, for annotation only.
    Annotate(Vec<u8>),
    /// A lowered segment sequence, drawn under the active transforms.
    Draw(Vec<PathSeg>),
    /// The matching exit of the most recent unmatched `Push`.
    Pop,
}

/// The mathematical image of an [`Event`].
#[verifier::ext_equal]
pub enum EventV {
    Push(Affine),
    Annotate(Seq<u8>),
    Draw(Seq<PathSeg>),
    Pop,
}

impl View for Event {
    type V = EventV;

    open spec fn view(&self) -> EventV {
        match self {
            Event::Push(t) => EventV::Push(*t),
            Event::Annotate(l) => EventV::Annotate(l@),
            Event::Draw(s) => EventV::Draw(s@),
            Event::Pop => EventV::Pop,
        }
    }
}

/// The view of an event list.
pub open spec fn events_view(es: Seq<Event>) -> Seq<EventV> {
    es.map_values(|e: Event| e@)
}

/// The view of a name-stack list.
pub open spec fn names_view(ns: Seq<Vec<u8>>) -> Seq<Seq<u8>> {
    ns.map_values(|v: Vec<u8>| v@)
}

/// The traversal state: the three lock-step stacks, the emitted events and
/// the collected diagnostics, plus the active-reference guard.
/// All stacks are created empty once per traversal and are fully unwound
/// when the walk returns.
pub struct State {
    /// Transform stack: one entry per currently open rendered node.
    pub tstack: Vec<Affine>,
    /// Name stack, in lock step with the transform stack.
    pub nstack: Vec<Vec<u8>>,
    /// Viewport-dimension stack, pushed only by establishing elements.
    pub vstack: Vec<(i64, i64)>,
    /// Per-node flag: the node is the target of a reference currently being
    /// expanded. Guards against reference cycles.
    pub active: Vec<bool>,
    /// The ordered record handed to the output sink.
    pub events: Vec<Event>,
    /// The collected non-fatal diagnostics.
    pub diags: Vec<Diag>,
}

/// The mathematical image of the traversal state, without the cycle guard
/// (which is passed separately and always restored).
#[verifier::ext_equal]
pub struct StateV {
    pub tstack: Seq<Affine>,
    pub nstack: Seq<Seq<u8>>,
    pub vstack: Seq<(i64, i64)>,
    pub events: Seq<EventV>,
    pub diags: Seq<Diag>,
}

/// The view of a traversal state.
pub open spec fn state_view(st: State) -> StateV {
    StateV {
        tstack: st.tstack@,
        nstack: names_view(st.nstack@),
        vstack: st.vstack@,
        events: events_view(st.events@),
        diags: st.diags@,
    }
}

/// A node is rendered by the strict walker iff it is an element, its style
/// does not hide it, and it is not one of the three non-directly-rendered
/// definition kinds.
pub open spec fn spec_should_render(node: Node) -> bool {
    &&& node.element
    &&& !(node.style matches Some(s) && spec_style_hides(s@))
    &&& node.tag != Tag::Defs
    &&& node.tag != Tag::Marker
    &&& node.tag != Tag::Symbol
}

/// A node is rendered by the relaxed walker (used for the target of a
/// reference) iff it is an element whose style does not hide it; the
/// definition-kind exclusion is deliberately not applied.
pub open spec fn spec_relaxed_renders(node: Node) -> bool {
    &&& node.element
    &&& !(node.style matches Some(s) && spec_style_hides(s@))
}

/// Whether the strict walker renders this node.
pub fn should_render_node(node: &Node) -> (r: bool)
    ensures
        r == spec_should_render(*node),
{
    node.element && !(match &node.style {
        Some(s) => crate::text::style_hides(s),
        None => false,
    }) && !(matches!(node.tag, Tag::Defs | Tag::Marker | Tag::Symbol))
}

/// Whether the relaxed walker renders this node.
pub fn relaxed_renders_node(node: &Node) -> (r: bool)
    ensures
        r == spec_relaxed_renders(*node),
{
    node.element && !(match &node.style {
        Some(s) => crate::text::style_hides(s),
        None => false,
    })
}

/// The node a reference element points at: the first node in document order
/// whose `id` equals the fragment of the reference value. `None` when the
/// value is absent, is not a same-document fragment, or matches nothing.
pub open spec fn spec_use_target(doc: Doc, node: Node) -> Option<usize> {
    match node.href {
        Some(h) => match spec_fragment(h@) {
            Some(f) => doc.spec_find_id(f),
            None => None,
        },
        None => None,
    }
}

/// Resolves the reference of the node at `i`; see [`spec_use_target`].
pub fn resolve_use_href(doc: &Doc, i: usize) -> (r: Option<usize>)
    requires
        i < doc.nodes.len(),
    ensures
        r == spec_use_target(*doc, doc.nodes[i as int]),
        r matches Some(t) ==> t < doc.nodes.len(),
{
    match &doc.nodes[i].href {
        Some(h) => match crate::text::fragment(h) {
            Some(f) => doc.find_id(&f),
            None => None,
        },
        None => None,
    }
}

/// The fold of the first `k` entries of a transform list, starting from
/// identity: each entry is pre-applied to the accumulator, so later-listed
/// functions apply after earlier ones. `None` once any composition
/// overflows.
pub open spec fn spec_fold_prefix(ts: Seq<Affine>, k: int) -> Option<Affine>
    decreases k,
{
    if k <= 0 {
        Some(spec_identity())
    } else {
        match spec_fold_prefix(ts, k - 1) {
            Some(acc) => spec_compose(ts[k - 1], acc),
            None => None,
        }
    }
}

/// The fully folded transform list; see [`spec_fold_prefix`].
pub open spec fn spec_fold_transforms(ts: Seq<Affine>) -> Option<Affine> {
    spec_fold_prefix(ts, ts.len() as int)
}

proof fn lemma_fold_none_persists(ts: Seq<Affine>, k: int, m: int)
    requires
        0 <= k <= m,
        spec_fold_prefix(ts, k) is None,
    ensures
        spec_fold_prefix(ts, m) is None,
    decreases m - k,
{
    if m > k {
        lemma_fold_none_persists(ts, k, m - 1);
    }
}

/// Folds a transform list; see [`spec_fold_transforms`].
pub fn fold_transforms(ts: &Vec<Affine>) -> (r: Option<Affine>)
    ensures
        r == spec_fold_transforms(ts@),
{
    let mut acc = Affine::identity();
    let mut k: usize = 0;
    while k < ts.len()
        invariant
            k <= ts.len(),
            Some(acc) == spec_fold_prefix(ts@, k as int),
        decreases ts.len() - k,
    {
        match ts[k].compose(&acc) {
            Some(a) => {
                acc = a;
            },
            None => {
                proof {
                    lemma_fold_none_persists(ts@, k + 1, ts@.len() as int);
                }
                return None;
            },
        }
        k = k + 1;
    }
    Some(acc)
}

/// An optional resolved value, or zero when absent.
pub open spec fn spec_or0(x: Option<i64>) -> i64 {
    match x {
        Some(v) => v,
        None => 0,
    }
}

/// The first value when present, else the second.
pub open spec fn spec_or_else(a: Option<i64>, b: Option<i64>) -> Option<i64> {
    match a {
        Some(v) => Some(v),
        None => b,
    }
}

/// Everything one rendered node contributes on enter: its fully composed
/// local transform, the viewport size it establishes (if any), the lowered
/// geometry (if any), and the diagnostics it raised.
#[derive(Clone, Debug)]
pub struct EnterOut {
    pub transform: Affine,
    pub vpush: Option<(i64, i64)>,
    pub draw: Option<Vec<PathSeg>>,
    pub diags: Vec<Diag>,
}

/// The mathematical image of an [`EnterOut`].
#[verifier::ext_equal]
pub struct EnterOutV {
    pub transform: Affine,
    pub vpush: Option<(i64, i64)>,
    pub draw: Option<Seq<PathSeg>>,
    pub diags: Seq<Diag>,
}

impl View for EnterOut {
    type V = EnterOutV;

    open spec fn view(&self) -> EnterOutV {
        EnterOutV {
            transform: self.transform,
            vpush: self.vpush,
            draw: match self.draw {
                Some(v) => Some(v@),
                None => None,
            },
            diags: self.diags@,
        }
    }
}

/// The unconditional diagnostics raised at the top of enter: the clip-path
/// warning and the inert `transform-origin` warning.
pub open spec fn spec_pre_diags(node: Node, i: usize) -> Seq<Diag> {
    (if node.tag == Tag::ClipPath {
        seq![Diag::ClipPathUnsupported { node: i }]
    } else {
        Seq::empty()
    }) + (if node.transform_origin {
        seq![Diag::TransformOriginUnsupported { node: i }]
    } else {
        Seq::empty()
    })
}

/// The diagnostic for a present-but-unusable `viewBox` on an establishing
/// element.
pub open spec fn spec_vb_diags(node: Node, i: usize) -> Seq<Diag> {
    if node.view_box is Some && spec_usable_box(node.view_box) is None {
        seq![Diag::InvalidViewBox { node: i }]
    } else {
        Seq::empty()
    }
}

/// The local transform and viewport push of a root-kind element: own
/// transform list, then the box-to-viewport transform when a usable box
/// exists, then the translation flipping the vertical axis (the single
/// point in the traversal where the axis is inverted).
pub open spec fn spec_svg_transform(node: Node, cfg: Config, i: usize, dims: (i64, i64), t0: Affine)
    -> Result<(Affine, Option<(i64, i64)>, Seq<Diag>), Fatal> {
    let vb = spec_usable_box(node.view_box);
    match (
        spec_resolve_opt(node.width, dims.0),
        spec_resolve_opt(node.height, dims.1),
        spec_resolve_opt(cfg.width_override, dims.0),
        spec_resolve_opt(cfg.height_override, dims.0),
        spec_resolve_opt(node.x, dims.0),
        spec_resolve_opt(node.y, dims.1),
    ) {
        (Some(w0), Some(h0), Some(ow), Some(oh), Some(x0), Some(y0)) => {
            let w = spec_or_else(ow, w0);
            let h = spec_or_else(oh, h0);
            match spec_root_size(vb, w, h) {
                None => Err(Fatal::Overflow { node: i }),
                Some(size) => {
                    let px = spec_or0(x0);
                    let py = spec_or0(y0);
                    let vpush = match vb {
                        Some(b) => (b.width, b.height),
                        None => size,
                    };
                    let t1 = match vb {
                        Some(b) => match spec_viewport_transform(b, size.0, size.1, px, py) {
                            Some(vt) => spec_compose(t0, vt),
                            None => None,
                        },
                        None => Some(t0),
                    };
                    match t1 {
                        None => Err(Fatal::Overflow { node: i }),
                        Some(t1v) => match size.1.checked_add(py) {
                            None => Err(Fatal::Overflow { node: i }),
                            Some(s) => match (0i64).checked_sub(s) {
                                None => Err(Fatal::Overflow { node: i }),
                                Some(neg) => match spec_compose(t1v, spec_translation(0, neg)) {
                                    None => Err(Fatal::Overflow { node: i }),
                                    Some(t2) => Ok(
                                        (t2, Some(vpush), spec_vb_diags(node, i)),
                                    ),
                                },
                            },
                        },
                    }
                },
            }
        },
        _ => Err(Fatal::Overflow { node: i }),
    }
}

/// The local transform of a reference element: its offset translation is
/// appended after its own transform list.
pub open spec fn spec_use_transform(node: Node, i: usize, dims: (i64, i64), t0: Affine) -> Result<
    (Affine, Option<(i64, i64)>, Seq<Diag>),
    Fatal,
> {
    match (spec_resolve_opt(node.x, dims.0), spec_resolve_opt(node.y, dims.1)) {
        (Some(x0), Some(y0)) => match spec_compose(
            t0,
            spec_translation(spec_or0(x0), spec_or0(y0)),
        ) {
            Some(t) => Ok((t, None, Seq::empty())),
            None => Err(Fatal::Overflow { node: i }),
        },
        _ => Err(Fatal::Overflow { node: i }),
    }
}

/// The local transform and viewport push of a symbol definition: no
/// vertical flip (the ancestor space is already flipped) and no viewport
/// position of its own.
pub open spec fn spec_symbol_transform(node: Node, i: usize, dims: (i64, i64), t0: Affine)
    -> Result<(Affine, Option<(i64, i64)>, Seq<Diag>), Fatal> {
    let vb = spec_usable_box(node.view_box);
    match (spec_resolve_opt(node.width, dims.0), spec_resolve_opt(node.height, dims.1)) {
        (Some(w0), Some(h0)) => {
            let size = spec_symbol_size(vb, w0, h0, dims);
            match vb {
                Some(b) => match spec_viewport_transform(b, size.0, size.1, 0, 0) {
                    Some(vt) => match spec_compose(t0, vt) {
                        Some(t) => Ok((t, Some(size), spec_vb_diags(node, i))),
                        None => Err(Fatal::Overflow { node: i }),
                    },
                    None => Err(Fatal::Overflow { node: i }),
                },
                None => Ok((t0, Some(size), spec_vb_diags(node, i))),
            }
        },
        _ => Err(Fatal::Overflow { node: i }),
    }
}

/// The full local transform of a node (transform list, viewport
/// establishment, reference offset), the viewport size it pushes, and the
/// diagnostics of this phase.
pub open spec fn spec_local_transform(node: Node, cfg: Config, i: usize, dims: (i64, i64))
    -> Result<(Affine, Option<(i64, i64)>, Seq<Diag>), Fatal> {
    match spec_fold_transforms(node.transform@) {
        None => Err(Fatal::Overflow { node: i }),
        Some(t0) => if node.tag == Tag::Svg {
            spec_svg_transform(node, cfg, i, dims, t0)
        } else if node.tag == Tag::Use {
            spec_use_transform(node, i, dims, t0)
        } else if node.tag == Tag::Symbol {
            spec_symbol_transform(node, i, dims, t0)
        } else {
            Ok(
                (
                    t0,
                    None,
                    if node.view_box is Some {
                        seq![Diag::ViewBoxIgnored { node: i }]
                    } else {
                        Seq::empty()
                    },
                ),
            )
        },
    }
}

/// The geometry a node lowers, and the diagnostics of the lowering phase.
/// A malformed element yields a diagnostic and no geometry, never a
/// partial sequence.
pub open spec fn spec_geometry(node: Node, i: usize, dims: (i64, i64)) -> Result<
    (Option<Seq<PathSeg>>, Seq<Diag>),
    Fatal,
> {
    match node.tag {
        Tag::Path => match node.d {
            Some(d) => Ok((Some(d@), Seq::empty())),
            None => Ok((None, seq![Diag::MissingPathData { node: i }])),
        },
        Tag::Polyline => match node.points {
            Some(p) => Ok((Some(spec_poly_segs(p@, false)), Seq::empty())),
            None => Ok((None, seq![Diag::MissingPoints { node: i }])),
        },
        Tag::Polygon => match node.points {
            Some(p) => Ok((Some(spec_poly_segs(p@, true)), Seq::empty())),
            None => Ok((None, seq![Diag::MissingPoints { node: i }])),
        },
        Tag::Rect => match (
            spec_resolve_opt(node.x, dims.0),
            spec_resolve_opt(node.y, dims.1),
            spec_resolve_opt(node.width, dims.0),
            spec_resolve_opt(node.height, dims.1),
            spec_resolve_opt(node.rx, dims.0),
            spec_resolve_opt(node.ry, dims.1),
        ) {
            (Some(x0), Some(y0), Some(w0), Some(h0), Some(rx0), Some(ry0)) => match (w0, h0) {
                (Some(w), Some(h)) => match spec_rect_segs(
                    spec_or0(x0),
                    spec_or0(y0),
                    w,
                    h,
                    spec_or0(rx0),
                    spec_or0(ry0),
                ) {
                    Some(s) => Ok((Some(s), Seq::empty())),
                    None => Err(Fatal::Overflow { node: i }),
                },
                _ => Ok((None, seq![Diag::InvalidRect { node: i }])),
            },
            _ => Err(Fatal::Overflow { node: i }),
        },
        Tag::Circle | Tag::Ellipse => match (
            spec_resolve_opt(node.cx, dims.0),
            spec_resolve_opt(node.cy, dims.1),
            spec_resolve_opt(node.r, dims.0),
            spec_resolve_opt(node.rx, dims.0),
            spec_resolve_opt(node.ry, dims.1),
        ) {
            (Some(cx0), Some(cy0), Some(r0), Some(rx0), Some(ry0)) => {
                let rv = spec_or0(r0);
                let rx = spec_or0(spec_or_else(rx0, Some(rv)));
                let ry = spec_or0(spec_or_else(ry0, Some(rv)));
                if rx > 0 && ry > 0 {
                    match spec_ellipse_segs(spec_or0(cx0), spec_or0(cy0), rx, ry) {
                        Some(s) => Ok((Some(s), Seq::empty())),
                        None => Err(Fatal::Overflow { node: i }),
                    }
                } else {
                    Ok((None, seq![Diag::InvalidEllipse { node: i }]))
                }
            },
            _ => Err(Fatal::Overflow { node: i }),
        },
        Tag::Line => match (
            spec_resolve_opt(node.x1, dims.0),
            spec_resolve_opt(node.y1, dims.1),
            spec_resolve_opt(node.x2, dims.0),
            spec_resolve_opt(node.y2, dims.1),
        ) {
            (Some(x1), Some(y1), Some(x2), Some(y2)) => match (x1, y1, x2, y2) {
                (Some(a), Some(b), Some(c), Some(d)) => Ok(
                    (Some(spec_line_segs(a, b, c, d)), Seq::empty()),
                ),
                _ => Ok((None, seq![Diag::InvalidLine { node: i }])),
            },
            _ => Err(Fatal::Overflow { node: i }),
        },
        Tag::Svg | Tag::Group | Tag::Use | Tag::Symbol => Ok((None, Seq::empty())),
        _ => Ok((None, seq![Diag::UnknownTag { node: i }])),
    }
}

/// Everything the node at `i` contributes on enter, resolved against the
/// viewport dimensions `dims`; `Err` on overflow.
#[verifier::opaque]
pub open spec fn spec_enter_out(node: Node, cfg: Config, i: usize, dims: (i64, i64)) -> Result<
    EnterOutV,
    Fatal,
> {
    match spec_local_transform(node, cfg, i, dims) {
        Err(e) => Err(e),
        Ok((t, vpush, d1)) => match spec_geometry(node, i, dims) {
            Err(e) => Err(e),
            Ok((draw, d2)) => Ok(
                EnterOutV { transform: t, vpush, draw, diags: spec_pre_diags(node, i) + d1 + d2 },
            ),
        },
    }
}

/// Computes a node's local transform and viewport push;
/// see [`spec_local_transform`].
fn enter_local_transform(node: &Node, cfg: &Config, i: usize, dims: (i64, i64)) -> (r: Result<
    (Affine, Option<(i64, i64)>, Vec<Diag>),
    Fatal,
>)
    ensures
        match r {
            Ok(o) => spec_local_transform(*node, *cfg, i, dims) == Ok::<_, Fatal>(
                (o.0, o.1, o.2@),
            ),
            Err(e) => spec_local_transform(*node, *cfg, i, dims) == Err::<
                (Affine, Option<(i64, i64)>, Seq<Diag>),
                Fatal,
            >(e),
        },
{
    let t0 = match fold_transforms(&node.transform) {
        Some(t) => t,
        None => {
            return Err(Fatal::Overflow { node: i });
        },
    };
    let mut vb_diags: Vec<Diag> = Vec::new();
    if node.tag == Tag::Svg || node.tag == Tag::Symbol {
        if node.view_box.is_some() && usable_box(&node.view_box).is_none() {
            vb_diags.push(Diag::InvalidViewBox { node: i });
        }
        proof {
            assert(vb_diags@ =~= spec_vb_diags(*node, i));
        }
    }
    if node.tag == Tag::Svg {
        let vb = usable_box(&node.view_box);
        match (
            crate::viewport::resolve_opt(&node.width, dims.0),
            crate::viewport::resolve_opt(&node.height, dims.1),
            crate::viewport::resolve_opt(&cfg.width_override, dims.0),
            crate::viewport::resolve_opt(&cfg.height_override, dims.0),
            crate::viewport::resolve_opt(&node.x, dims.0),
            crate::viewport::resolve_opt(&node.y, dims.1),
        ) {
            (Some(w0), Some(h0), Some(ow), Some(oh), Some(x0), Some(y0)) => {
                let w = match ow {
                    Some(v) => Some(v),
                    None => w0,
                };
                let h = match oh {
                    Some(v) => Some(v),
                    None => h0,
                };
                match crate::viewport::root_size(&vb, w, h) {
                    None => Err(Fatal::Overflow { node: i }),
                    Some(size) => {
                        let px = match x0 {
                            Some(v) => v,
                            None => 0,
                        };
                        let py = match y0 {
                            Some(v) => v,
                            None => 0,
                        };
                        let vpush = match &vb {
                            Some(b) => (b.width, b.height),
                            None => size,
                        };
                        let t1 = match &vb {
                            Some(b) => match crate::viewport::viewport_transform(
                                b,
                                size.0,
                                size.1,
                                px,
                                py,
                            ) {
                                Some(vt) => t0.compose(&vt),
                                None => None,
                            },
                            None => Some(t0),
                        };
                        match t1 {
                            None => Err(Fatal::Overflow { node: i }),
                            Some(t1v) => match size.1.checked_add(py) {
                                None => Err(Fatal::Overflow { node: i }),
                                Some(s) => match (0i64).checked_sub(s) {
                                    None => Err(Fatal::Overflow { node: i }),
                                    Some(neg) => match t1v.compose(&Affine::translation(0, neg)) {
                                        None => Err(Fatal::Overflow { node: i }),
                                        Some(t2) => Ok((t2, Some(vpush), vb_diags)),
                                    },
                                },
                            },
                        }
                    },
                }
            },
            _ => Err(Fatal::Overflow { node: i }),
        }
    } else if node.tag == Tag::Use {
        match (
            crate::viewport::resolve_opt(&node.x, dims.0),
            crate::viewport::resolve_opt(&node.y, dims.1),
        ) {
            (Some(x0), Some(y0)) => {
                let x = match x0 {
                    Some(v) => v,
                    None => 0,
                };
                let y = match y0 {
                    Some(v) => v,
                    None => 0,
                };
                match t0.compose(&Affine::translation(x, y)) {
                    Some(t) => Ok((t, None, Vec::new())),
                    None => Err(Fatal::Overflow { node: i }),
                }
            },
            _ => Err(Fatal::Overflow { node: i }),
        }
    } else if node.tag == Tag::Symbol {
        let vb = usable_box(&node.view_box);
        match (
            crate::viewport::resolve_opt(&node.width, dims.0),
            crate::viewport::resolve_opt(&node.height, dims.1),
        ) {
            (Some(w0), Some(h0)) => {
                let size = crate::viewport::symbol_size(&vb, w0, h0, dims);
                match &vb {
                    Some(b) => match crate::viewport::viewport_transform(
                        b,
                        size.0,
                        size.1,
                        0,
                        0,
                    ) {
                        Some(vt) => match t0.compose(&vt) {
                            Some(t) => Ok((t, Some(size), vb_diags)),
                            None => Err(Fatal::Overflow { node: i }),
                        },
                        None => Err(Fatal::Overflow { node: i }),
                    },
                    None => Ok((t0, Some(size), vb_diags)),
                }
            },
            _ => Err(Fatal::Overflow { node: i }),
        }
    } else {
        let mut d: Vec<Diag> = Vec::new();
        if node.view_box.is_some() {
            d.push(Diag::ViewBoxIgnored { node: i });
        }
        proof {
            assert(d@ =~= (if node.view_box is Some {
                seq![Diag::ViewBoxIgnored { node: i }]
            } else {
                Seq::<Diag>::empty()
            }));
        }
        Ok((t0, None, d))
    }
}

/// Lowers a node's geometry; see [`spec_geometry`].
fn enter_geometry(node: &Node, i: usize, dims: (i64, i64)) -> (r: Result<
    (Option<Vec<PathSeg>>, Vec<Diag>),
    Fatal,
>)
    ensures
        match r {
            Ok(o) => spec_geometry(*node, i, dims) == Ok::<_, Fatal>(
                (
                    match o.0 {
                        Some(v) => Some(v@),
                        None => None,
                    },
                    o.1@,
                ),
            ),
            Err(e) => spec_geometry(*node, i, dims) == Err::<
                (Option<Seq<PathSeg>>, Seq<Diag>),
                Fatal,
            >(e),
        },
{
    match node.tag {
        Tag::Path => match &node.d {
            Some(d) => Ok((Some(crate::segments::copy_segs(d)), Vec::new())),
            None => {
                let mut dg: Vec<Diag> = Vec::new();
                dg.push(Diag::MissingPathData { node: i });
                assert(dg@ =~= seq![Diag::MissingPathData { node: i }]);
                Ok((None, dg))
            },
        },
        Tag::Polyline | Tag::Polygon => {
            let close = match node.tag {
                Tag::Polygon => true,
                _ => false,
            };
            match &node.points {
                Some(p) => Ok((Some(crate::segments::poly_segs(p, close)), Vec::new())),
                None => {
                    let mut dg: Vec<Diag> = Vec::new();
                    dg.push(Diag::MissingPoints { node: i });
                    assert(dg@ =~= seq![Diag::MissingPoints { node: i }]);
                    Ok((None, dg))
                },
            }
        },
        Tag::Rect => match (
            crate::viewport::resolve_opt(&node.x, dims.0),
            crate::viewport::resolve_opt(&node.y, dims.1),
            crate::viewport::resolve_opt(&node.width, dims.0),
            crate::viewport::resolve_opt(&node.height, dims.1),
            crate::viewport::resolve_opt(&node.rx, dims.0),
            crate::viewport::resolve_opt(&node.ry, dims.1),
        ) {
            (Some(x0), Some(y0), Some(w0), Some(h0), Some(rx0), Some(ry0)) => match (w0, h0) {
                (Some(w), Some(h)) => {
                    let x = match x0 {
                        Some(v) => v,
                        None => 0,
                    };
                    let y = match y0 {
                        Some(v) => v,
                        None => 0,
                    };
                    let rx = match rx0 {
                        Some(v) => v,
                        None => 0,
                    };
                    let ry = match ry0 {
                        Some(v) => v,
                        None => 0,
                    };
                    match crate::segments::rect_segs(x, y, w, h, rx, ry) {
                        Some(s) => Ok((Some(s), Vec::new())),
                        None => Err(Fatal::Overflow { node: i }),
                    }
                },
                _ => {
                    let mut dg: Vec<Diag> = Vec::new();
                    dg.push(Diag::InvalidRect { node: i });
                    assert(dg@ =~= seq![Diag::InvalidRect { node: i }]);
                    Ok((None, dg))
                },
            },
            _ => Err(Fatal::Overflow { node: i }),
        },
        Tag::Circle | Tag::Ellipse => match (
            crate::viewport::resolve_opt(&node.cx, dims.0),
            crate::viewport::resolve_opt(&node.cy, dims.1),
            crate::viewport::resolve_opt(&node.r, dims.0),
            crate::viewport::resolve_opt(&node.rx, dims.0),
            crate::viewport::resolve_opt(&node.ry, dims.1),
        ) {
            (Some(cx0), Some(cy0), Some(r0), Some(rx0), Some(ry0)) => {
                let rv = match r0 {
                    Some(v) => v,
                    None => 0,
                };
                let rx = match rx0 {
                    Some(v) => v,
                    None => rv,
                };
                let ry = match ry0 {
                    Some(v) => v,
                    None => rv,
                };
                if rx > 0 && ry > 0 {
                    let cx = match cx0 {
                        Some(v) => v,
                        None => 0,
                    };
                    let cy = match cy0 {
                        Some(v) => v,
                        None => 0,
                    };
                    match crate::segments::ellipse_segs(cx, cy, rx, ry) {
                        Some(s) => Ok((Some(s), Vec::new())),
                        None => Err(Fatal::Overflow { node: i }),
                    }
                } else {
                    let mut dg: Vec<Diag> = Vec::new();
                    dg.push(Diag::InvalidEllipse { node: i });
                    assert(dg@ =~= seq![Diag::InvalidEllipse { node: i }]);
                    Ok((None, dg))
                }
            },
            _ => Err(Fatal::Overflow { node: i }),
        },
        Tag::Line => match (
            crate::viewport::resolve_opt(&node.x1, dims.0),
            crate::viewport::resolve_opt(&node.y1, dims.1),
            crate::viewport::resolve_opt(&node.x2, dims.0),
            crate::viewport::resolve_opt(&node.y2, dims.1),
        ) {
            (Some(x1), Some(y1), Some(x2), Some(y2)) => match (x1, y1, x2, y2) {
                (Some(a), Some(b), Some(c), Some(d)) => Ok(
                    (Some(crate::segments::line_segs(a, b, c, d)), Vec::new()),
                ),
                _ => {
                    let mut dg: Vec<Diag> = Vec::new();
                    dg.push(Diag::InvalidLine { node: i });
                    assert(dg@ =~= seq![Diag::InvalidLine { node: i }]);
                    Ok((None, dg))
                },
            },
            _ => Err(Fatal::Overflow { node: i }),
        },
        Tag::Svg | Tag::Group | Tag::Use | Tag::Symbol => Ok((None, Vec::new())),
        _ => {
            let mut dg: Vec<Diag> = Vec::new();
            dg.push(Diag::UnknownTag { node: i });
            assert(dg@ =~= seq![Diag::UnknownTag { node: i }]);
            Ok((None, dg))
        },
    }
}

/// Computes everything the node at `i` contributes on enter;
/// see [`spec_enter_out`].
fn enter(doc: &Doc, cfg: &Config, i: usize, dims: (i64, i64)) -> (r: Result<EnterOut, Fatal>)
    requires
        i < doc.nodes.len(),
    ensures
        match r {
            Ok(o) => spec_enter_out(doc.nodes[i as int], *cfg, i, dims) == Ok::<_, Fatal>(o@),
            Err(e) => spec_enter_out(doc.nodes[i as int], *cfg, i, dims) == Err::<
                EnterOutV,
                Fatal,
            >(e),
        },
{
    proof {
        reveal(spec_enter_out);
    }
    let node = &doc.nodes[i];
    let mut diags: Vec<Diag> = Vec::new();
    if node.tag == Tag::ClipPath {
        diags.push(Diag::ClipPathUnsupported { node: i });
    }
    if node.transform_origin {
        diags.push(Diag::TransformOriginUnsupported { node: i });
    }
    proof {
        assert(diags@ =~= spec_pre_diags(*node, i));
    }
    match enter_local_transform(node, cfg, i, dims) {
        Err(e) => Err(e),
        Ok((t, vpush, mut d1)) => match enter_geometry(node, i, dims) {
            Err(e) => Err(e),
            Ok((draw, mut d2)) => {
                diags.append(&mut d1);
                diags.append(&mut d2);
                let o = EnterOut { transform: t, vpush, draw, diags };
                proof {
                    let s = spec_enter_out(doc.nodes[i as int], *cfg, i, dims);
                    assert(s matches Ok(ov) && ov.diags =~= o@.diags && ov =~= o@);
                }
                Ok(o)
            },
        },
    }
}

/// The number of `false` entries in the cycle-guard vector: how many nodes
/// may still become targets of a reference expansion. The traversal's
/// termination measure.
pub open spec fn count_false(s: Seq<bool>) -> nat
    decreases s.len(),
{
    if s.len() == 0 {
        0
    } else {
        count_false(s.drop_last()) + if s.last() {
            0nat
        } else {
            1nat
        }
    }
}

proof fn lemma_count_false_update(s: Seq<bool>, t: int)
    requires
        0 <= t < s.len(),
        !s[t],
    ensures
        count_false(s.update(t, true)) < count_false(s),
    decreases s.len(),
{
    if t == s.len() - 1 {
        assert(s.update(t, true).drop_last() =~= s.drop_last());
    } else {
        assert(s.update(t, true).drop_last() =~= s.drop_last().update(t, true));
        assert(s.update(t, true).last() == s.last());
        lemma_count_false_update(s.drop_last(), t);
    }
}

/// The events one rendered node emits on enter: its transform push, its
/// label, and its lowered geometry when it has any.
pub open spec fn spec_enter_events(o: EnterOutV, label: Seq<u8>) -> Seq<EventV> {
    seq![EventV::Push(o.transform), EventV::Annotate(label)] + match o.draw {
        Some(s) => seq![EventV::Draw(s)],
        None => Seq::empty(),
    }
}

/// The state after applying one node's enter contribution: transform and
/// name pushed, viewport size pushed when established, events and
/// diagnostics appended.
pub open spec fn spec_apply_enter(sv: StateV, label: Seq<u8>, o: EnterOutV) -> StateV {
    StateV {
        tstack: sv.tstack.push(o.transform),
        nstack: sv.nstack.push(label),
        vstack: match o.vpush {
            Some(d) => sv.vstack.push(d),
            None => sv.vstack,
        },
        events: sv.events + spec_enter_events(o, label),
        diags: sv.diags + o.diags,
    }
}

/// The state after a node's exit: transform and name popped, viewport
/// popped for establishing elements, and the matching pop event emitted —
/// unconditionally, whatever diagnostics occurred while the node was open.
pub open spec fn spec_apply_exit(sv: StateV, tag: Tag) -> StateV {
    StateV {
        tstack: sv.tstack.drop_last(),
        nstack: sv.nstack.drop_last(),
        vstack: if tag == Tag::Svg || tag == Tag::Symbol {
            sv.vstack.drop_last()
        } else {
            sv.vstack
        },
        events: sv.events.push(EventV::Pop),
        diags: sv.diags,
    }
}

/// The strict walk of the node at `i`: skip it entirely (no enter, no exit,
/// no recursion) unless it is rendered; otherwise enter, expand its
/// reference through the relaxed walk or recurse into its literal children,
/// and exit. `active` is the cycle guard: the set of reference targets
/// currently being expanded.
pub open spec fn spec_visit_strict(
    doc: Doc,
    cfg: Config,
    i: int,
    active: Seq<bool>,
    sv: StateV,
) -> (Result<(), Fatal>, StateV)
    decreases count_false(active), doc.nodes.len() - i, 2int, 0int,
        when 0 <= i
    via spec_visit_strict_dec
{
    if !(i < doc.nodes.len() && active.len() == doc.nodes.len()) {
        (Ok(()), sv)
    } else {
        let node = doc.nodes[i];
        if !spec_should_render(node) {
            (Ok(()), sv)
        } else {
            match spec_enter_out(node, cfg, i as usize, spec_top_or_unit(sv.vstack)) {
                Err(e) => (Err(e), sv),
                Ok(o) => {
                    let sv1 = spec_apply_enter(sv, node.label@, o);
                    let target = if node.tag == Tag::Use {
                        spec_use_target(doc, node)
                    } else {
                        None
                    };
                    let step = match target {
                        Some(t) => if t >= active.len() {
                            (Ok(()), sv1)
                        } else if active[t as int] {
                            (Err(Fatal::ReferenceCycle { node: i as usize }), sv1)
                        } else {
                            spec_visit_relaxed(doc, cfg, t as int, active.update(t as int, true), sv1)
                        },
                        None => spec_visit_children(doc, cfg, i, 0, active, sv1),
                    };
                    match step.0 {
                        Err(e) => (Err(e), step.1),
                        Ok(()) => (Ok(()), spec_apply_exit(step.1, node.tag)),
                    }
                },
            }
        }
    }
}

#[via_fn]
proof fn spec_visit_strict_dec(doc: Doc, cfg: Config, i: int, active: Seq<bool>, sv: StateV) {
    if 0 <= i < doc.nodes.len() && active.len() == doc.nodes.len() {
        let node = doc.nodes[i];
        if spec_should_render(node) && node.tag == Tag::Use {
            match spec_use_target(doc, node) {
                Some(t) => {
                    if t < active.len() && !active[t as int] {
                        lemma_count_false_update(active, t as int);
                    }
                },
                None => {},
            }
        }
    }
}

/// The relaxed walk used for the target of a reference: the hidden-style
/// and element-only checks still apply, but the definition-kind exclusion
/// does not — this is what lets a referenced symbol render exactly once,
/// only through the reference. Children are walked strictly; the target's
/// own reference value, if any, is not expanded.
pub open spec fn spec_visit_relaxed(
    doc: Doc,
    cfg: Config,
    i: int,
    active: Seq<bool>,
    sv: StateV,
) -> (Result<(), Fatal>, StateV)
    decreases count_false(active), doc.nodes.len() - i, 2int, 1int,
        when 0 <= i
{
    if !(i < doc.nodes.len() && active.len() == doc.nodes.len()) {
        (Ok(()), sv)
    } else {
        let node = doc.nodes[i];
        if !spec_relaxed_renders(node) {
            (Ok(()), sv)
        } else {
            match spec_enter_out(node, cfg, i as usize, spec_top_or_unit(sv.vstack)) {
                Err(e) => (Err(e), sv),
                Ok(o) => {
                    let sv1 = spec_apply_enter(sv, node.label@, o);
                    let step = spec_visit_children(doc, cfg, i, 0, active, sv1);
                    match step.0 {
                        Err(e) => (Err(e), step.1),
                        Ok(()) => (Ok(()), spec_apply_exit(step.1, node.tag)),
                    }
                },
            }
        }
    }
}

/// The strict walk of the children of node `i`, from child position `k` on,
/// stopping at the first fatal error.
pub open spec fn spec_visit_children(
    doc: Doc,
    cfg: Config,
    i: int,
    k: int,
    active: Seq<bool>,
    sv: StateV,
) -> (Result<(), Fatal>, StateV)
    decreases count_false(active), doc.nodes.len() - i, 1int, doc.nodes[i].children.len() - k,
        when 0 <= i && 0 <= k
{
    if !(i < doc.nodes.len()) {
        (Ok(()), sv)
    } else {
        let ch = doc.nodes[i].children;
        if k >= ch.len() {
            (Ok(()), sv)
        } else {
            let c = ch[k] as int;
            if !(i < c < doc.nodes.len()) {
                (Ok(()), sv)
            } else {
                let step = spec_visit_strict(doc, cfg, c, active, sv);
                match step.0 {
                    Err(e) => (Err(e), step.1),
                    Ok(()) => spec_visit_children(doc, cfg, i, k + 1, active, step.1),
                }
            }
        }
    }
}

/// The walk of the document's root children from position `k` on.
pub open spec fn spec_visit_roots(
    doc: Doc,
    cfg: Config,
    k: int,
    active: Seq<bool>,
    sv: StateV,
) -> (Result<(), Fatal>, StateV)
    decreases doc.roots.len() - k,
        when 0 <= k
{
    if k >= doc.roots.len() {
        (Ok(()), sv)
    } else {
        let r = doc.roots[k] as int;
        if !(0 <= r < doc.nodes.len()) {
            (Ok(()), sv)
        } else {
            let step = spec_visit_strict(doc, cfg, r, active, sv);
            match step.0 {
                Err(e) => (Err(e), step.1),
                Ok(()) => spec_visit_roots(doc, cfg, k + 1, active, step.1),
            }
        }
    }
}

/// The state every traversal starts from: all stacks empty, nothing
/// emitted.
pub open spec fn spec_initial_state() -> StateV {
    StateV {
        tstack: Seq::empty(),
        nstack: Seq::empty(),
        vstack: Seq::empty(),
        events: Seq::empty(),
        diags: Seq::empty(),
    }
}

/// The cycle guard every traversal starts from: no reference is being
/// expanded.
pub open spec fn spec_initial_active(n: nat) -> Seq<bool> {
    Seq::new(n, |j: int| false)
}

/// The outcome of a whole traversal: the ordered event stream and the
/// collected diagnostics.
#[derive(Clone, Debug, PartialEq, Eq)]
pub struct Run {
    pub events: Vec<Event>,
    pub diags: Vec<Diag>,
}

/// The mathematical image of a [`Run`].
#[verifier::ext_equal]
pub struct RunV {
    pub events: Seq<EventV>,
    pub diags: Seq<Diag>,
}

impl View for Run {
    type V = RunV;

    open spec fn view(&self) -> RunV {
        RunV { events: events_view(self.events@), diags: self.diags@ }
    }
}

/// The number of transform-push events in a stream.
pub open spec fn n_push(es: Seq<EventV>) -> nat
    decreases es.len(),
{
    if es.len() == 0 {
        0
    } else {
        n_push(es.drop_last()) + if es.last() is Push {
            1nat
        } else {
            0nat
        }
    }
}

/// The number of transform-pop events in a stream.
pub open spec fn n_pop(es: Seq<EventV>) -> nat
    decreases es.len(),
{
    if es.len() == 0 {
        0
    } else {
        n_pop(es.drop_last()) + if es.last() is Pop {
            1nat
        } else {
            0nat
        }
    }
}

/// Push and pop counts distribute over concatenation.
pub proof fn lemma_counts_concat(a: Seq<EventV>, b: Seq<EventV>)
    ensures
        n_push(a + b) == n_push(a) + n_push(b),
        n_pop(a + b) == n_pop(a) + n_pop(b),
    decreases b.len(),
{
    if b.len() == 0 {
        assert(a + b =~= a);
    } else {
        assert((a + b).drop_last() =~= a + b.drop_last());
        assert((a + b).last() == b.last());
        lemma_counts_concat(a, b.drop_last());
    }
}

/// One enter emits exactly one push and no pop.
proof fn lemma_enter_events_counts(o: EnterOutV, label: Seq<u8>)
    ensures
        n_push(spec_enter_events(o, label)) == 1,
        n_pop(spec_enter_events(o, label)) == 0,
{
    let two = seq![EventV::Push(o.transform), EventV::Annotate(label)];
    let one = seq![EventV::Push(o.transform)];
    assert(two.drop_last() =~= one);
    assert(one.drop_last() =~= Seq::<EventV>::empty());
    assert(n_push(Seq::<EventV>::empty()) == 0);
    assert(n_pop(Seq::<EventV>::empty()) == 0);
    assert(one.last() == EventV::Push(o.transform));
    assert(n_push(one) == 1);
    assert(n_pop(one) == 0);
    assert(two.last() == EventV::Annotate(label));
    assert(n_push(two) == 1);
    assert(n_pop(two) == 0);
    match o.draw {
        Some(s) => {
            let d = seq![EventV::Draw(s)];
            assert(d.drop_last() =~= Seq::<EventV>::empty());
            assert(d.last() == EventV::Draw(s));
            assert(n_push(d) == 0);
            assert(n_pop(d) == 0);
            lemma_counts_concat(two, d);
            assert(spec_enter_events(o, label) == two + d);
        },
        None => {
            lemma_counts_concat(two, Seq::empty());
            assert(spec_enter_events(o, label) == two + Seq::<EventV>::empty());
        },
    }
}

/// A node establishes a viewport size iff it is of the root kind or a
/// symbol definition.
proof fn lemma_enter_vpush(node: Node, cfg: Config, i: usize, dims: (i64, i64))
    ensures
        spec_enter_out(node, cfg, i, dims) matches Ok(o) ==> ((o.vpush is Some) <==> (node.tag
            == Tag::Svg || node.tag == Tag::Symbol)),
{
    reveal(spec_enter_out);
}

/// Stack balance of the strict walk: when it succeeds, every stack is
/// restored exactly, and the emitted events add as many pops as pushes.
#[verifier::rlimit(60)]
pub proof fn lemma_balance_strict(doc: Doc, cfg: Config, i: int, active: Seq<bool>, sv: StateV)
    requires
        0 <= i,
    ensures
        ({
            let step = spec_visit_strict(doc, cfg, i, active, sv);
            step.0 is Ok ==> {
                &&& step.1.tstack == sv.tstack
                &&& step.1.nstack == sv.nstack
                &&& step.1.vstack == sv.vstack
                &&& n_push(step.1.events) - n_pop(step.1.events) == n_push(sv.events) - n_pop(
                    sv.events,
                )
            }
        }),
    decreases count_false(active), doc.nodes.len() - i, 2int, 0int,
{
    if i < doc.nodes.len() && active.len() == doc.nodes.len() {
        let node = doc.nodes[i];
        if spec_should_render(node) {
            match spec_enter_out(node, cfg, i as usize, spec_top_or_unit(sv.vstack)) {
                Err(_) => {},
                Ok(o) => {
                    lemma_enter_vpush(node, cfg, i as usize, spec_top_or_unit(sv.vstack));
                    let sv1 = spec_apply_enter(sv, node.label@, o);
                    lemma_counts_concat(sv.events, spec_enter_events(o, node.label@));
                    lemma_enter_events_counts(o, node.label@);
                    let target = if node.tag == Tag::Use {
                        spec_use_target(doc, node)
                    } else {
                        None
                    };
                    let step = match target {
                        Some(t) => if t >= active.len() {
                            (Ok(()), sv1)
                        } else if active[t as int] {
                            (Err(Fatal::ReferenceCycle { node: i as usize }), sv1)
                        } else {
                            spec_visit_relaxed(doc, cfg, t as int, active.update(t as int, true), sv1)
                        },
                        None => spec_visit_children(doc, cfg, i, 0, active, sv1),
                    };
                    match target {
                        Some(t) => {
                            if t < active.len() && !active[t as int] {
                                lemma_count_false_update(active, t as int);
                                lemma_balance_relaxed(
                                    doc,
                                    cfg,
                                    t as int,
                                    active.update(t as int, true),
                                    sv1,
                                );
                            }
                        },
                        None => {
                            lemma_balance_children(doc, cfg, i, 0, active, sv1);
                        },
                    }
                    if step.0 is Ok {
                        let sv2 = spec_apply_exit(step.1, node.tag);
                        assert(sv2.tstack =~= sv.tstack);
                        assert(sv2.nstack =~= sv.nstack);
                        assert(sv2.vstack =~= sv.vstack);
                        assert(step.1.events.push(EventV::Pop).drop_last() =~= step.1.events);
                    }
                },
            }
        }
    }
}

/// Stack balance of the relaxed walk; see [`lemma_balance_strict`].
#[verifier::rlimit(100)]
pub proof fn lemma_balance_relaxed(doc: Doc, cfg: Config, i: int, active: Seq<bool>, sv: StateV)
    requires
        0 <= i,
    ensures
        ({
            let step = spec_visit_relaxed(doc, cfg, i, active, sv);
            step.0 is Ok ==> {
                &&& step.1.tstack == sv.tstack
                &&& step.1.nstack == sv.nstack
                &&& step.1.vstack == sv.vstack
                &&& n_push(step.1.events) - n_pop(step.1.events) == n_push(sv.events) - n_pop(
                    sv.events,
                )
            }
        }),
    decreases count_false(active), doc.nodes.len() - i, 2int, 1int,
{
    if i < doc.nodes.len() && active.len() == doc.nodes.len() {
        let node = doc.nodes[i];
        if spec_relaxed_renders(node) {
            match spec_enter_out(node, cfg, i as usize, spec_top_or_unit(sv.vstack)) {
                Err(_) => {},
                Ok(o) => {
                    lemma_enter_vpush(node, cfg, i as usize, spec_top_or_unit(sv.vstack));
                    let sv1 = spec_apply_enter(sv, node.label@, o);
                    lemma_counts_concat(sv.events, spec_enter_events(o, node.label@));
                    lemma_enter_events_counts(o, node.label@);
                    lemma_balance_children(doc, cfg, i, 0, active, sv1);
                    let step = spec_visit_children(doc, cfg, i, 0, active, sv1);
                    if step.0 is Ok {
                        let sv2 = spec_apply_exit(step.1, node.tag);
                        assert(sv2.tstack =~= sv.tstack);
                        assert(sv2.nstack =~= sv.nstack);
                        assert(sv2.vstack =~= sv.vstack);
                        assert(step.1.events.push(EventV::Pop).drop_last() =~= step.1.events);
                    }
                },
            }
        }
    }
}

/// Stack balance of the children walk; see [`lemma_balance_strict`].
pub proof fn lemma_balance_children(
    doc: Doc,
    cfg: Config,
    i: int,
    k: int,
    active: Seq<bool>,
    sv: StateV,
)
    requires
        0 <= i,
        0 <= k,
    ensures
        ({
            let step = spec_visit_children(doc, cfg, i, k, active, sv);
            step.0 is Ok ==> {
                &&& step.1.tstack == sv.tstack
                &&& step.1.nstack == sv.nstack
                &&& step.1.vstack == sv.vstack
                &&& n_push(step.1.events) - n_pop(step.1.events) == n_push(sv.events) - n_pop(
                    sv.events,
                )
            }
        }),
    decreases count_false(active), doc.nodes.len() - i, 1int, doc.nodes[i].children.len() - k,
{
    if i < doc.nodes.len() {
        let ch = doc.nodes[i].children;
        if k < ch.len() {
            let c = ch[k] as int;
            if i < c < doc.nodes.len() {
                lemma_balance_strict(doc, cfg, c, active, sv);
                let step = spec_visit_strict(doc, cfg, c, active, sv);
                if step.0 is Ok {
                    lemma_balance_children(doc, cfg, i, k + 1, active, step.1);
                }
            }
        }
    }
}

/// Stack balance of the whole root walk; see [`lemma_balance_strict`].
pub proof fn lemma_balance_roots(doc: Doc, cfg: Config, k: int, active: Seq<bool>, sv: StateV)
    requires
        0 <= k,
    ensures
        ({
            let step = spec_visit_roots(doc, cfg, k, active, sv);
            step.0 is Ok ==> {
                &&& step.1.tstack == sv.tstack
                &&& step.1.nstack == sv.nstack
                &&& step.1.vstack == sv.vstack
                &&& n_push(step.1.events) - n_pop(step.1.events) == n_push(sv.events) - n_pop(
                    sv.events,
                )
            }
        }),
    decreases doc.roots.len() - k,
{
    if k < doc.roots.len() {
        let r = doc.roots[k] as int;
        if 0 <= r < doc.nodes.len() {
            lemma_balance_strict(doc, cfg, r, active, sv);
            let step = spec_visit_strict(doc, cfg, r, active, sv);
            if step.0 is Ok {
                lemma_balance_roots(doc, cfg, k + 1, active, step.1);
            }
        }
    }
}

/// The whole traversal as a mathematical function of the document and the
/// configuration: fresh state, walk every root child, and either the full
/// run or the first fatal error.
pub open spec fn spec_traverse(doc: Doc, cfg: Config) -> Result<RunV, Fatal> {
    let step = spec_visit_roots(
        doc,
        cfg,
        0,
        spec_initial_active(doc.nodes.len() as nat),
        spec_initial_state(),
    );
    match step.0 {
        Err(e) => Err(e),
        Ok(()) => Ok(RunV { events: step.1.events, diags: step.1.diags }),
    }
}

/// The strict walk of the node at `i`; the executable twin of
/// [`spec_visit_strict`], which pins its whole outcome.
pub fn visit_strict(doc: &Doc, cfg: &Config, i: usize, st: State) -> (ret: (Result<(), Fatal>, State))
    requires
        doc.wf(),
        i < doc.nodes.len(),
        st.active.len() == doc.nodes.len(),
    ensures
        ({
            let step = spec_visit_strict(*doc, *cfg, i as int, st.active@, state_view(st));
            ret.0 == step.0 && state_view(ret.1) == step.1
        }),
        ret.1.active@ == st.active@,
    decreases count_false(st.active@), doc.nodes.len() - i, 2int, 0int,
{
    let ghost sv = state_view(st);
    let ghost active0 = st.active@;
    let node = &doc.nodes[i];
    if !should_render_node(node) {
        return (Ok(()), st);
    }
    let dims = crate::viewport::top_or_unit(&st.vstack);
    let o = match enter(doc, cfg, i, dims) {
        Ok(o) => o,
        Err(e) => {
            return (Err(e), st);
        },
    };
    let ghost ov = o@;
    let mut st = st;
    let EnterOut { transform: o_t, vpush: o_vp, draw: o_draw, diags: mut o_diags } = o;
    let label = crate::text::copy_bytes(&node.label);
    let label2 = crate::text::copy_bytes(&node.label);
    st.tstack.push(o_t);
    st.nstack.push(label);
    match &o_vp {
        Some(d) => st.vstack.push(*d),
        None => {},
    }
    st.events.push(Event::Push(o_t));
    st.events.push(Event::Annotate(label2));
    match o_draw {
        Some(v) => st.events.push(Event::Draw(v)),
        None => {},
    }
    st.diags.append(&mut o_diags);
    let ghost sv1 = spec_apply_enter(sv, node.label@, ov);
    proof {
        assert(names_view(st.nstack@) =~= sv1.nstack);
        assert(events_view(st.events@) =~= sv1.events);
        assert(state_view(st) =~= sv1);
    }
    let target = if node.tag == Tag::Use {
        resolve_use_href(doc, i)
    } else {
        None
    };
    let (res, st2) = match target {
        Some(t) => {
            if st.active[t] {
                (Err(Fatal::ReferenceCycle { node: i }), st)
            } else {
                proof {
                    lemma_count_false_update(active0, t as int);
                }
                st.active.set(t, true);
                let (r2, mut st2) = visit_relaxed(doc, cfg, t, st);
                st2.active.set(t, false);
                proof {
                    assert(st2.active@ =~= active0);
                }
                (r2, st2)
            }
        },
        None => visit_children(doc, cfg, i, 0, st),
    };
    match res {
        Err(e) => (Err(e), st2),
        Ok(()) => {
            let mut st2 = st2;
            let ghost sv2 = state_view(st2);
            proof {
                lemma_enter_vpush(doc.nodes[i as int], *cfg, i, spec_top_or_unit(sv.vstack));
                match (if doc.nodes[i as int].tag == Tag::Use {
                    spec_use_target(*doc, doc.nodes[i as int])
                } else {
                    None
                }) {
                    Some(t) => {
                        lemma_balance_relaxed(
                            *doc,
                            *cfg,
                            t as int,
                            active0.update(t as int, true),
                            sv1,
                        );
                    },
                    None => {
                        lemma_balance_children(*doc, *cfg, i as int, 0, active0, sv1);
                    },
                }
                assert(sv2.tstack == sv1.tstack && sv2.nstack == sv1.nstack && sv2.vstack
                    == sv1.vstack);
            }
            st2.tstack.pop();
            st2.nstack.pop();
            if matches!(node.tag, Tag::Svg | Tag::Symbol) {
                st2.vstack.pop();
            }
            st2.events.push(Event::Pop);
            proof {
                assert(sv1.tstack.len() > 0 && sv1.nstack.len() > 0);
                assert(names_view(st2.nstack@) =~= sv2.nstack.drop_last());
                assert(events_view(st2.events@) =~= sv2.events.push(EventV::Pop));
                assert(state_view(st2) =~= spec_apply_exit(sv2, doc.nodes[i as int].tag));
            }
            (Ok(()), st2)
        },
    }
}

/// The relaxed walk used for a reference target; the executable twin of
/// [`spec_visit_relaxed`].
pub fn visit_relaxed(doc: &Doc, cfg: &Config, i: usize, st: State) -> (ret: (
    Result<(), Fatal>,
    State,
))
    requires
        doc.wf(),
        i < doc.nodes.len(),
        st.active.len() == doc.nodes.len(),
    ensures
        ({
            let step = spec_visit_relaxed(*doc, *cfg, i as int, st.active@, state_view(st));
            ret.0 == step.0 && state_view(ret.1) == step.1
        }),
        ret.1.active@ == st.active@,
    decreases count_false(st.active@), doc.nodes.len() - i, 2int, 1int,
{
    let ghost sv = state_view(st);
    let ghost active0 = st.active@;
    let node = &doc.nodes[i];
    if !relaxed_renders_node(node) {
        return (Ok(()), st);
    }
    let dims = crate::viewport::top_or_unit(&st.vstack);
    let o = match enter(doc, cfg, i, dims) {
        Ok(o) => o,
        Err(e) => {
            return (Err(e), st);
        },
    };
    let ghost ov = o@;
    let mut st = st;
    let EnterOut { transform: o_t, vpush: o_vp, draw: o_draw, diags: mut o_diags } = o;
    let label = crate::text::copy_bytes(&node.label);
    let label2 = crate::text::copy_bytes(&node.label);
    st.tstack.push(o_t);
    st.nstack.push(label);
    match &o_vp {
        Some(d) => st.vstack.push(*d),
        None => {},
    }
    st.events.push(Event::Push(o_t));
    st.events.push(Event::Annotate(label2));
    match o_draw {
        Some(v) => st.events.push(Event::Draw(v)),
        None => {},
    }
    st.diags.append(&mut o_diags);
    let ghost sv1 = spec_apply_enter(sv, node.label@, ov);
    proof {
        assert(names_view(st.nstack@) =~= sv1.nstack);
        assert(events_view(st.events@) =~= sv1.events);
        assert(state_view(st) =~= sv1);
    }
    let (res, st2) = visit_children(doc, cfg, i, 0, st);
    match res {
        Err(e) => (Err(e), st2),
        Ok(()) => {
            let mut st2 = st2;
            let ghost sv2 = state_view(st2);
            proof {
                lemma_enter_vpush(doc.nodes[i as int], *cfg, i, spec_top_or_unit(sv.vstack));
                lemma_balance_children(*doc, *cfg, i as int, 0, active0, sv1);
                assert(sv2.tstack == sv1.tstack && sv2.nstack == sv1.nstack && sv2.vstack
                    == sv1.vstack);
            }
            st2.tstack.pop();
            st2.nstack.pop();
            if matches!(node.tag, Tag::Svg | Tag::Symbol) {
                st2.vstack.pop();
            }
            st2.events.push(Event::Pop);
            proof {
                assert(sv1.tstack.len() > 0 && sv1.nstack.len() > 0);
                assert(names_view(st2.nstack@) =~= sv2.nstack.drop_last());
                assert(events_view(st2.events@) =~= sv2.events.push(EventV::Pop));
                assert(state_view(st2) =~= spec_apply_exit(sv2, doc.nodes[i as int].tag));
            }
            (Ok(()), st2)
        },
    }
}

/// The strict walk of the children of node `i` from position `k` on; the
/// executable twin of [`spec_visit_children`].
pub fn visit_children(doc: &Doc, cfg: &Config, i: usize, k: usize, st: State) -> (ret: (
    Result<(), Fatal>,
    State,
))
    requires
        doc.wf(),
        i < doc.nodes.len(),
        st.active.len() == doc.nodes.len(),
    ensures
        ({
            let step = spec_visit_children(*doc, *cfg, i as int, k as int, st.active@, state_view(st));
            ret.0 == step.0 && state_view(ret.1) == step.1
        }),
        ret.1.active@ == st.active@,
    decreases count_false(st.active@), doc.nodes.len() - i, 1int, doc.nodes[i as int].children.len()
        - k,
{
    if k >= doc.nodes[i].children.len() {
        return (Ok(()), st);
    }
    let c = doc.nodes[i].children[k];
    proof {
        assert(i < c < doc.nodes.len());
    }
    let (r1, st1) = visit_strict(doc, cfg, c, st);
    match r1 {
        Err(e) => (Err(e), st1),
        Ok(()) => visit_children(doc, cfg, i, k + 1, st1),
    }
}

/// The walk of the document's root children from position `k` on; the
/// executable twin of [`spec_visit_roots`].
pub fn visit_roots(doc: &Doc, cfg: &Config, k: usize, st: State) -> (ret: (Result<(), Fatal>, State))
    requires
        doc.wf(),
        st.active.len() == doc.nodes.len(),
    ensures
        ({
            let step = spec_visit_roots(*doc, *cfg, k as int, st.active@, state_view(st));
            ret.0 == step.0 && state_view(ret.1) == step.1
        }),
        ret.1.active@ == st.active@,
    decreases doc.roots.len() - k,
{
    if k >= doc.roots.len() {
        return (Ok(()), st);
    }
    let r = doc.roots[k];
    proof {
        assert(r < doc.nodes.len());
    }
    let (r1, st1) = visit_strict(doc, cfg, r, st);
    match r1 {
        Err(e) => (Err(e), st1),
        Ok(()) => visit_roots(doc, cfg, k + 1, st1),
    }
}

/// Walks the whole document depth-first with fresh state and returns the
/// full run — the ordered event stream and the collected diagnostics — or
/// the first fatal error. The executable twin of [`spec_traverse`], which
/// pins the outcome completely.
pub fn depth_first_visit(doc: &Doc, cfg: &Config) -> (r: Result<Run, Fatal>)
    requires
        doc.wf(),
    ensures
        match r {
            Ok(run) => spec_traverse(*doc, *cfg) == Ok::<RunV, Fatal>(run@),
            Err(e) => spec_traverse(*doc, *cfg) == Err::<RunV, Fatal>(e),
        },
{
    let mut active: Vec<bool> = Vec::new();
    let mut j: usize = 0;
    while j < doc.nodes.len()
        invariant
            j <= doc.nodes.len(),
            active@.len() == j,
            forall|m: int| 0 <= m < j ==> !active@[m],
        decreases doc.nodes.len() - j,
    {
        active.push(false);
        j = j + 1;
    }
    proof {
        assert(active@ =~= spec_initial_active(doc.nodes.len() as nat));
    }
    let st = State {
        tstack: Vec::new(),
        nstack: Vec::new(),
        vstack: Vec::new(),
        active,
        events: Vec::new(),
        diags: Vec::new(),
    };
    proof {
        assert(names_view(Seq::<Vec<u8>>::empty()) =~= Seq::<Seq<u8>>::empty());
        assert(events_view(Seq::<Event>::empty()) =~= Seq::<EventV>::empty());
        assert(state_view(st) =~= spec_initial_state());
    }
    let (res, stf) = visit_roots(doc, cfg, 0, st);
    match res {
        Err(e) => Err(e),
        Ok(()) => {
            let State { events, diags, .. } = stf;
            let run = Run { events, diags };
            proof {
                assert(spec_traverse(*doc, *cfg) matches Ok(rv) && rv =~= run@);
            }
            Ok(run)
        },
    }
}

} // verus!
