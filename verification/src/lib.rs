pub mod base;
pub mod inference;
pub mod linear;
