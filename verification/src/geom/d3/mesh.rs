/// indexed segment mesh in space
pub mod ind;
