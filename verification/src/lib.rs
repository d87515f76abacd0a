//! A minimal tree-walking evaluation engine for a small expression
//! language: a tagged value model, a lexically scoped environment chain,
//! a closure calling convention, a call dispatcher and a runtime error
//! taxonomy.
//!
//! Environments are immutable frames sharing their parents by reference
//! counting, so a closure's captured scope outlives the call that
//! created it. Lists of values are persistent and share structure when
//! duplicated or extended. Every failure is an explicit `RuntimeError`
//! result; evaluation propagates the first error encountered unchanged.
//!
//! No lexer, parser, builtin library or program driver lives here; a
//! REPL or script driver is expected to sit on top, entering through
//! `Environment::evaluate` and `Value::try_call` and rendering results
//! with `Value::render`.

pub mod atoms;
pub mod builtin;
pub mod env;
pub mod errors;
pub mod eval;
pub mod list;
pub mod render;
pub mod value;
