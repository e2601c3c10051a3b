//! The ways in which loading a model or embedding a batch can fail.
use rten::{ModelLoadError, RunError};
use vstd::prelude::*;

verus! {

/// An input node that every model must declare.
#[derive(Clone, Copy, Debug, PartialEq, Eq, Structural)]
pub enum RequiredInput {
    /// The node named `input_ids`.
    InputIds,
    /// The node named `attention_mask`.
    AttentionMask,
}

/// Why a model could not be prepared, or a batch could not be embedded.
#[derive(Debug)]
pub enum EmbedError {
    /// The bytes are not a valid serialized model.
    ModelLoadFailed(ModelLoadError),
    /// The model lacks an input node that it must declare.
    RequiredNodeMissing(RequiredInput),
    /// The model declares no output node at all.
    ModelHasNoOutputs,
    /// The runtime failed during the forward pass; its own error is kept.
    RuntimeExecutionFailure(RunError),
    /// The model's output is not a tensor of floats.
    UnsupportedOutputType,
    /// The output tensor has neither two nor three dimensions.
    UnexpectedOutputShape {
        /// The shape that was observed.
        shape: Vec<usize>,
    },
    /// The vectors of one batch differ in length.
    InconsistentDimension,
}

} // verus!
