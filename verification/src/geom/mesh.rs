/// indexed segments
pub mod ind;
