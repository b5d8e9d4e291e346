//! A reverse Polish notation calculator over numbers that carry unit labels.
//!
//! The calculator never rounds: every number on its stack is kept as the exact
//! arithmetic expression that produced it, so a caller decides how, and how
//! precisely, the expression is finally turned into digits.

pub mod calculator;
pub mod evaluator;
pub mod laws;
pub mod literal;
pub mod number;
pub mod table;
pub mod unit;
