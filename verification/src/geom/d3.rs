/// 3D meshes
pub mod mesh;

/// 3D primitives
pub mod prim;
