//! Geometry of the playfield: positions on a horizontally wrapping world,
//! axis-aligned bounding rectangles, and the text-measuring helpers the
//! rendering layer shares with collision bounds.
pub mod coordinates;
pub mod renderer;
pub mod util;
pub mod viewport;
