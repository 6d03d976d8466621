pub mod coordinate;
pub mod side;
pub mod tile;

pub use coordinate::Coordinate;
pub use side::{Axis, SideFrame, SideInfo, SignedAxis};
pub use tile::{tile_count, ApproximationError, Tile};
