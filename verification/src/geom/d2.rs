/// 2D meshes
pub mod mesh;

/// 2D objects
pub mod obj;

/// 2D polygons
pub mod poly;

/// 2D primitives
pub mod prim;

/// 2D shapes
pub mod shape;

/// 2D spans
pub mod span;
