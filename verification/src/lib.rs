pub mod grid;
pub mod rng;
pub mod universe;
