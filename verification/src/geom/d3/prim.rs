/// 3D vector primitive
pub mod vect;

pub use vect::{Coords, Vect, Vector};
