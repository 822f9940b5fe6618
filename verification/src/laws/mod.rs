//! What the library promises, operation by operation.
//!
//! Each law relates the results of an operation to its inputs, or two calls to
//! each other, from plain characters and values upwards.

pub mod brain;
pub mod document;
pub mod engine;
pub mod graph;
pub mod json;
pub mod server;
pub mod template;
pub mod text;
pub mod views;
pub mod wire;
