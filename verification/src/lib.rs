//! Lowers a vector-graphics document tree into an ordered stream of
//! absolute-coordinate drawing primitives.
//!
//! The document arrives as an immutable arena of nodes ([`doc`]); the
//! traversal engine ([`traverse`]) walks it depth-first, resolves the nested
//! coordinate-system semantics (transform lists, viewport establishment,
//! reference indirection) and lowers each primitive element into a canonical
//! path-segment sequence ([`segments`]).
//!
//! Known limitation: the alignment/fit specification of a viewport
//! (`preserveAspectRatio`) is validated at the parsing boundary but does
//! not vary the box-to-viewport mapping; [`viewport`] applies the per-axis
//! stretch policy alone.

pub mod doc;
pub mod geom;
pub mod laws;
pub mod segments;
pub mod text;
pub mod traverse;
pub mod viewport;

pub use doc::{Doc, Node, Tag};
pub use geom::Affine;
pub use traverse::{depth_first_visit, Config, Diag, Event, Fatal, Run};
