pub mod data_types;
pub mod text;
pub mod phases;
pub mod market;
pub mod setup;
pub mod results;
pub mod laws;
