/// bounds and the object trait
pub mod d2;
