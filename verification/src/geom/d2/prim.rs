/// 2D line primitive
pub mod line;

/// the vectors that a primitive stores
pub mod parts;

/// 2D rectangle primitive
pub mod rect;

/// 2D line segment primitive
pub mod seg;

/// 2D rectangles over a side
pub mod srect;

/// 2D triangle primitive
pub mod tri;

/// 2D vector primitive
pub mod vect;

pub use line::{Line, SLine};
pub use parts::Parts;
pub use rect::{PRect, RectPoints, Rectangle, VRect};
pub use seg::{Ends, PSeg, Segment, VSeg};
pub use srect::{OVTri, SRect, TRect};
pub use tri::{PTri, TriPoints, Triangle, VTri};
pub use vect::{Coords, Vect, Vector};
