//! A verified evaluator for Pistolet, a small statically typed imperative
//! language with integers, floats, booleans, variable bindings,
//! conditionals, a repeat-until loop, typed user-defined functions and a
//! print statement.
//!
//! The semantics is given once, as a fuel-bounded specification interpreter
//! over plain values, and the executable evaluator is proved to return
//! exactly what that interpreter defines, for every program tree.

pub mod assoc;
pub mod ast;
pub mod float;
pub mod interpreter;
pub mod laws;
pub mod numfmt;
pub mod render;
pub mod semantics;
pub mod state;
pub mod value;
