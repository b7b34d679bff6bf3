//! A tile-painting engine: a grid of tiles, the rules that say which cover may
//! stand on which ground, the edits that tools make along a drag, and the
//! overlay that marks, while the drag lasts, what letting go would do.
//!
//! Coordinates are whole numbers throughout. A drawing is a list of
//! [`vertex::Vertex`] values, six to a textured square, which a host program
//! scales to what its renderer takes.

pub mod direction;
pub mod footprint;
pub mod grid;
pub mod gui;
pub mod interaction;
pub mod mouse;
pub mod overlay;
pub mod session;
pub mod texture;
pub mod tile;
pub mod vertex;
pub mod world;
