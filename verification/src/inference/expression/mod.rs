pub mod factor_graph;
