//! A byte-pair-encoding tokenizer exposed through a flat call surface:
//! input validation, handle lifecycle, encode/decode and token budgets,
//! each stated over plain values so that a foreign-call shim can sit on top.
pub mod bridge;
pub mod budget;
pub mod engine;
pub mod handles;
pub mod messages;
pub mod surface;
pub mod text;
