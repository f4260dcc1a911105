/// 2D geometry
pub mod d2;

/// 3D geometry
pub mod d3;

/// index pairs shared by the 2D and 3D meshes
pub mod mesh;
