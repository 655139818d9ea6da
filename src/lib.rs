pub mod config;
pub mod container;
pub mod fleet;
pub mod laws;
