//! Genetic programming over small imperative program trees: random tree
//! generation, subtree crossover and the generational evolution loop.

pub mod random;
pub mod tree;
pub mod vm;
pub mod crossover;
pub mod definitions;
pub mod generation;
pub mod training;
