//! Which nodes of a model a batch is bound to, and which one is read back.
use crate::batch::Grid;
use crate::error::{EmbedError, RequiredInput};
use rten::NodeId;
use vstd::prelude::*;

verus! {

/// A grid together with the input node that it is fed to.
#[derive(Debug)]
pub struct InputBinding {
    /// The input node.
    pub node: NodeId,
    /// The tensor for that node.
    pub grid: Grid,
}

/// The outcome of looking up the two inputs that every model must declare:
/// both nodes, or the first one that is missing.
pub open spec fn required_inputs(
    input_ids: Option<NodeId>,
    attention_mask: Option<NodeId>,
) -> Result<(NodeId, NodeId), EmbedError> {
    match (input_ids, attention_mask) {
        (Some(ids), Some(mask)) => Ok((ids, mask)),
        (None, _) => Err(EmbedError::RequiredNodeMissing(RequiredInput::InputIds)),
        (Some(_), None) => Err(EmbedError::RequiredNodeMissing(RequiredInput::AttentionMask)),
    }
}

/// Insists on the two required input nodes, given what the lookups of
/// `input_ids` and `attention_mask` found.
pub fn require_inputs(input_ids: Option<NodeId>, attention_mask: Option<NodeId>) -> (r: Result<
    (NodeId, NodeId),
    EmbedError,
>)
    ensures
        r == required_inputs(input_ids, attention_mask),
{
    match input_ids {
        None => Err(EmbedError::RequiredNodeMissing(RequiredInput::InputIds)),
        Some(ids) => match attention_mask {
            None => Err(EmbedError::RequiredNodeMissing(RequiredInput::AttentionMask)),
            Some(mask) => Ok((ids, mask)),
        },
    }
}

/// The inputs of a forward pass: token ids, then the attention mask, then
/// the type ids if and only if the model has a node for them.
pub open spec fn bound_inputs(
    token_ids: Grid,
    attention_mask: Grid,
    type_ids: Grid,
    input_ids_node: NodeId,
    attention_mask_node: NodeId,
    type_ids_node: Option<NodeId>,
) -> Seq<InputBinding> {
    let required = seq![
        InputBinding { node: input_ids_node, grid: token_ids },
        InputBinding { node: attention_mask_node, grid: attention_mask },
    ];
    match type_ids_node {
        Some(node) => required.push(InputBinding { node, grid: type_ids }),
        None => required,
    }
}

/// Binds the grids of a batch to the input nodes of the model.
pub fn bind_inputs(
    token_ids: Grid,
    attention_mask: Grid,
    type_ids: Grid,
    input_ids_node: NodeId,
    attention_mask_node: NodeId,
    type_ids_node: Option<NodeId>,
) -> (bound: Vec<InputBinding>)
    ensures
        bound@ == bound_inputs(
            token_ids,
            attention_mask,
            type_ids,
            input_ids_node,
            attention_mask_node,
            type_ids_node,
        ),
{
    let mut bound: Vec<InputBinding> = Vec::new();
    bound.push(InputBinding { node: input_ids_node, grid: token_ids });
    bound.push(InputBinding { node: attention_mask_node, grid: attention_mask });
    match type_ids_node {
        Some(node) => {
            bound.push(InputBinding { node, grid: type_ids });
        },
        None => {},
    }
    assert(bound@ =~= bound_inputs(
        token_ids,
        attention_mask,
        type_ids,
        input_ids_node,
        attention_mask_node,
        type_ids_node,
    ));
    bound
}

/// The node that holds the embedding: the pooled sentence embedding where
/// the model has one, else the last output that the model declares.
pub open spec fn resolved_output(pooled: Option<NodeId>, declared: Seq<NodeId>) -> Result<
    NodeId,
    EmbedError,
> {
    match pooled {
        Some(node) => Ok(node),
        None => if declared.len() > 0 {
            Ok(declared.last())
        } else {
            Err(EmbedError::ModelHasNoOutputs)
        },
    }
}

/// Chooses the output node to request, given what the lookup of the pooled
/// sentence embedding found and the outputs that the model declares.
pub fn resolve_output_node(pooled: Option<NodeId>, declared: &[NodeId]) -> (r: Result<
    NodeId,
    EmbedError,
>)
    ensures
        r == resolved_output(pooled, declared@),
{
    match pooled {
        Some(node) => Ok(node),
        None => {
            let n: usize = declared.len();
            if n > 0 {
                Ok(declared[n - 1])
            } else {
                Err(EmbedError::ModelHasNoOutputs)
            }
        },
    }
}

} // verus!
