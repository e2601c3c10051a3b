//! Batched sentence embeddings over a loaded inference model, and what
//! surrounds the tokenizer that produces the token ids for it.
//!
//! The crate pads variable-length token sequences into rectangular grids,
//! binds them to the input nodes of the model, chooses the output node and
//! cuts one fixed-length vector per sequence out of the tensor that a run
//! of the model hands back. All of that is verified. Loading a model,
//! running it and calling the tokenizer are left to the caller, who hands
//! their outcomes to this crate.
pub mod batch;
pub mod boundary;
pub mod embeddings;
pub mod error;
pub mod nodes;
pub mod output;
pub mod runtime;
pub mod tokenizer;
