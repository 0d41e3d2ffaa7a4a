//! Built-in function resolution for a mathematical expression evaluator.
//!
//! Given the name of a built-in function, the library decides which numeric
//! primitive the name stands for, how angles are converted around it, and
//! remembers the decision. The floating-point arithmetic itself is left to
//! the caller: every decision is handed out as a plain value that says what
//! to compute.

pub mod arith;
pub mod catalog;
pub mod constants;
pub mod entry;
pub mod funcs;
pub mod prelude;
pub mod text;
pub mod unit;
