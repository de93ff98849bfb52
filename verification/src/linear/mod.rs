pub mod gaussian;
pub mod jacobian;
