pub mod board;
pub mod replay;
pub mod training;
pub mod world;
mod rng;
