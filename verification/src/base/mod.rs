pub mod group;
pub mod manifold;
pub mod matrix;
