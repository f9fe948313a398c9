pub mod bytecode;
pub mod laws;
pub mod model;
pub mod text;
pub mod writer;
