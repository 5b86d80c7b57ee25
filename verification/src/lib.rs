//! Vec2D is a very simple 2D container for storing rectangular data.
//!
//! Elements live in one flat, row-major buffer; a family of iterators
//! walks an arbitrary axis-aligned sub-rectangle of the container with a
//! stride computed once, at iterator construction, instead of a bounds
//! check at every step.

pub mod geom;
pub mod grid;
pub mod iters;
pub mod laws;

pub use geom::Coord;
pub use geom::Rect;
pub use geom::Size;
pub use grid::Vec2D;
pub use grid::row_major_index;
pub use iters::Cursor;
pub use iters::RectIter;
pub use iters::RectIterMut;
