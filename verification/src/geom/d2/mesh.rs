/// the tracer of the outer contour
pub mod contour;

/// merging of equal vertices and equivalent segments
pub mod dedup;

/// indexed segment mesh
pub mod ind;

/// the simple tracer
pub mod simple;
