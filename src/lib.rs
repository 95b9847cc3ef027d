//! Constraint gadgets for a row/column proof system: a boolean-gated
//! multiplexer and a subtraction, with the trace model they are assigned into.

pub mod field;
pub mod gate;
pub mod value;
pub mod layout;
pub mod utils;
pub mod mux;
pub mod circuit;
pub mod subtract;
