/// binary STL files
pub mod stl;
