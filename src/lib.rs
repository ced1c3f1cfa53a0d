//! Scene composition, a fixed-capacity upload arena and the mapping of window
//! positions to normalized device coordinates for a small editor surface.
//!
//! Coordinates and colours are exact rationals (`Ratio`), so every shape,
//! scene and mapping below is stated and proved without rounding.

pub mod arena;
pub mod compositor;
pub mod figures;
pub mod ratio;
pub mod scene;
pub mod vertex;

pub use arena::{ArenaError, BufferUsage, Buffers};
pub use compositor::{Compositor, Position, WindowDimensions};
pub use figures::{Figure, Rectangle};
pub use ratio::Ratio;
pub use scene::Scene;
pub use vertex::{Rgb, Vertex};
