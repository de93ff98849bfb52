pub mod cluster_tree;
pub mod conditional;
pub mod expression;
pub mod factor;
pub mod factor_graph;

pub use conditional::Conditional;
pub use factor::Factor;
pub use factor_graph::{EliminateableFactorGraph, FactorGraph};
