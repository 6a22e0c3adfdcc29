pub mod engine;
pub mod grid;
pub mod model;
