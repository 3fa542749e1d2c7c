pub mod engine;
pub mod geometry;
pub mod matrix;
pub mod piece;
