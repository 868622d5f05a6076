//! Two compile-time syntax engines over a plain token-tree model: a builder
//! synthesizer for aggregate declarations and a bounded range expander.

pub mod behavior;
pub mod builder;
pub mod classify;
pub mod emit;
pub mod error;
pub mod lexeme;
pub mod seq;
pub mod synth;
pub mod text;
pub mod token;

