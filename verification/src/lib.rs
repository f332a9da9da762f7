//! Core of an interactive blurhash tuning tool: a parameter snapshot with
//! undo/redo history, a deterministic pixel transform pipeline, and an
//! orchestrator that recomputes the hash and its decoded preview whenever the
//! parameters change.

pub mod codec;
pub mod error;
pub mod history;
pub mod message;
pub mod pipeline;
pub mod session;
pub mod state;
