/// drawing into pixel images
pub mod rast;

/// drawing as vector paths
pub mod vect;
