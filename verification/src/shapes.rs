pub mod cube;
pub mod cylinder;
