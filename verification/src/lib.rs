//! Execution core of a small dynamically-typed scripting language:
//! the statement tree, the runtime environment, the tree-walking
//! execution engine, and the diagnostics that quote the offending
//! source text when a run fails.

pub mod env;
pub mod error;
pub mod expression;
pub mod interpreter;
pub mod statement;
pub mod text;
pub mod value;
