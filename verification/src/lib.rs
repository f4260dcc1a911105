//! Planar geometry over generic scalars, indexed segment meshes, and the
//! tracer that walks the outer contour of such a mesh.
//!
//! The scalar of a vector is any type with the operators that a function
//! asks for. What a function returns is stated in terms of what the
//! operators of the scalar are specified to return; it holds of a scalar
//! type that is known to keep to these specifications, as the integers are.
//! Of other scalar types, floating-point numbers of a caller among them,
//! the functions promise what does not rest on arithmetic: that they return,
//! which indices they hand out, and how long their results are.

/// conversions
pub mod conv;

/// drawing
pub mod draw;

/// file formats
pub mod file;

/// indexed meshes, 2D and 3D geometry
pub mod geom;

/// number operations
pub mod num;

/// arithmetic operations
pub mod ops;

/// iteration operations
pub mod range;

/// relations
pub mod rel;
