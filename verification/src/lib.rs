//! A regex evaluation engine: compile a pattern together with a set of
//! matching flags, then run a fixed battery of operations (match test, first
//! match, all matches, first capture set, all capture sets, split) over an
//! ordered batch of input strings, producing a structured report per input.

pub mod engine;
pub mod eval;
pub mod laws;
pub mod model;
pub mod report;
