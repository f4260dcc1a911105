/// bounds and the shape trait
pub mod d2;
