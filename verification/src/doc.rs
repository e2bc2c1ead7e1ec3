//! The document model: an owned arena of nodes addressed by stable indices.
//!
//! The arena is built by the caller from an already-parsed tree; attribute
//! values arrive as plain values (raw transform matrices, resolved lengths,
//! parsed path segments). Children are stored in document order and always
//! carry a larger index than their parent, so arena order is document
//! pre-order; this is what makes "first element in document order whose `id`
//! matches" the least matching index, and what bounds the traversal.

use vstd::prelude::*;
use crate::geom::Affine;
use crate::segments::PathSeg;

verus! {

/// The closed set of recognized tags. Everything unrecognized is `Other`;
/// the traversal still descends into such an element's children.
#[derive(Clone, Copy, Debug, PartialEq, Eq, Structural)]
pub enum Tag {
    /// Viewport-establishing root-kind element.
    Svg,
    /// Plain group container.
    Group,
    /// Definitions container: never rendered directly.
    Defs,
    /// Marker definition: never rendered directly.
    Marker,
    /// Symbol definition: rendered only through a reference.
    Symbol,
    /// Reference element.
    Use,
    /// Clip path: recognized, unsupported.
    ClipPath,
    Path,
    Polyline,
    Polygon,
    Rect,
    Circle,
    Ellipse,
    Line,
    /// Any unrecognized tag.
    Other,
}

/// A length value in a length attribute: either user units outright or a
/// percentage of the active viewport dimension (per cent, so `Percent(50)`
/// is half of the dimension).
#[derive(Clone, Copy, Debug, PartialEq, Eq, Structural)]
pub enum Len {
    User(i64),
    Percent(i64),
}

/// A `viewBox` value: `min-x, min-y, width, height`.
#[derive(Clone, Copy, Debug, PartialEq, Eq, Structural)]
pub struct ViewBox {
    pub min_x: i64,
    pub min_y: i64,
    pub width: i64,
    pub height: i64,
}

/// One document node. Attribute values are already tokenized into plain
/// values; absent attributes are `None` (or an empty transform list).
#[derive(Clone, Debug)]
pub struct Node {
    /// Whether this node is an element (text and comment nodes are not).
    pub element: bool,
    pub tag: Tag,
    /// Raw `style` attribute bytes, if present.
    pub style: Option<Vec<u8>>,
    /// Raw `id` attribute bytes, if present.
    pub id: Option<Vec<u8>>,
    /// Raw `href` (or its namespaced alias) bytes, if present.
    pub href: Option<Vec<u8>>,
    /// The `transform` attribute as an ordered list of parsed matrices.
    pub transform: Vec<Affine>,
    /// Whether a `transform-origin` attribute is present (recognized, inert).
    pub transform_origin: bool,
    /// Parsed `viewBox`, if present.
    pub view_box: Option<ViewBox>,
    pub width: Option<Len>,
    pub height: Option<Len>,
    pub x: Option<Len>,
    pub y: Option<Len>,
    pub rx: Option<Len>,
    pub ry: Option<Len>,
    pub cx: Option<Len>,
    pub cy: Option<Len>,
    pub r: Option<Len>,
    pub x1: Option<Len>,
    pub y1: Option<Len>,
    pub x2: Option<Len>,
    pub y2: Option<Len>,
    /// Parsed `d` path data, if present.
    pub d: Option<Vec<PathSeg>>,
    /// Parsed `points` pairs, if present.
    pub points: Option<Vec<(i64, i64)>>,
    /// The label for the name stack: the tag name, or the value of the
    /// configured alternate attribute when that attribute is present.
    pub label: Vec<u8>,
    /// Indices of the child nodes, in document order.
    pub children: Vec<usize>,
}

/// A document: an arena of nodes plus the indices of the root's children.
#[derive(Clone, Debug)]
pub struct Doc {
    pub nodes: Vec<Node>,
    pub roots: Vec<usize>,
}

impl Doc {
    /// Arena well-formedness: every root index is in range, and every child
    /// index is in range and strictly larger than its parent's index
    /// (document pre-order).
    pub open spec fn wf(self) -> bool {
        &&& forall|k: int|
            0 <= k < self.roots.len() ==> self.roots[k] < self.nodes.len()
        &&& forall|i: int, k: int|
            0 <= i < self.nodes.len() && 0 <= k < #[trigger] self.nodes[i].children.len()
                ==> i < #[trigger] self.nodes[i].children[k] < self.nodes.len()
    }

    /// The least node index whose `id` attribute equals `frag`, if any:
    /// the first matching element in document order.
    pub open spec fn spec_find_id(self, frag: Seq<u8>) -> Option<usize> {
        self.spec_find_id_from(frag, 0)
    }

    /// The least matching index at or after `start`.
    pub open spec fn spec_find_id_from(self, frag: Seq<u8>, start: int) -> Option<usize>
        decreases self.nodes.len() - start,
    {
        if start < 0 || start >= self.nodes.len() {
            None
        } else if self.nodes[start].id matches Some(id) && id@ =~= frag {
            Some(start as usize)
        } else {
            self.spec_find_id_from(frag, start + 1)
        }
    }

    /// Finds the first node in document order whose `id` equals `frag`.
    pub fn find_id(&self, frag: &Vec<u8>) -> (r: Option<usize>)
        ensures
            r == self.spec_find_id(frag@),
            r matches Some(t) ==> t < self.nodes.len(),
    {
        let mut i: usize = 0;
        while i < self.nodes.len()
            invariant
                i <= self.nodes.len(),
                self.spec_find_id(frag@) == self.spec_find_id_from(frag@, i as int),
            decreases self.nodes.len() - i,
        {
            let hit = match &self.nodes[i].id {
                Some(id) => crate::text::bytes_eq(id, frag),
                None => false,
            };
            if hit {
                return Some(i);
            }
            i = i + 1;
        }
        None
    }
}

} // verus!
