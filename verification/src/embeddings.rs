//! The batch embedder: a loaded model, and what a batch needs from it
//! before the model runs.
use crate::batch::{batch_rows, immediate_result, plan_batch, BatchPlan, GridKind};
use crate::error::EmbedError;
use crate::nodes::{
    bind_inputs, require_inputs, required_inputs, resolve_output_node, resolved_output,
    InputBinding,
};
use crate::output::vector_rows;
use crate::runtime::{node_named, output_nodes};
use rten::{Model, ModelLoadError, NodeId};
use vstd::prelude::*;

verus! {

/// A loaded model together with its two required input nodes.
pub struct Embeddings {
    model: Model,
    input_ids: NodeId,
    attention_mask: NodeId,
}

/// How far the embedding of a batch gets before the model has to run.
#[derive(Debug)]
pub enum Step {
    /// The result is known without a run of the model.
    Done(Result<Vec<Vec<u32>>, EmbedError>),
    /// The model has to run.
    Run {
        /// What each input node is fed.
        inputs: Vec<InputBinding>,
        /// The node whose value is asked for.
        output: NodeId,
        /// The number of sequences of the batch, for `embed_outcome`.
        sequences: usize,
    },
}

/// What the embedder makes of a batch before the model runs.
#[derive(Debug)]
pub enum Prepared {
    /// Nothing has to be computed: these are the vectors of the batch.
    Immediate(Vec<Vec<u32>>),
    /// The model has to run on these inputs.
    Forward(Vec<InputBinding>),
}

impl Embeddings {
    /// The model that this embedder runs.
    pub closed spec fn model(&self) -> Model {
        self.model
    }

    /// The node that the token ids are bound to.
    pub closed spec fn input_ids_node(&self) -> NodeId {
        self.input_ids
    }

    /// The node that the attention mask is bound to.
    pub closed spec fn attention_mask_node(&self) -> NodeId {
        self.attention_mask
    }

    /// `r` is what becomes of a loaded model, given what the lookups of its
    /// two required inputs found: an embedder that holds the model and both
    /// nodes, or the first input that is missing.
    pub open spec fn is_assembly(
        r: Result<Embeddings, EmbedError>,
        model: Model,
        input_ids: Option<NodeId>,
        attention_mask: Option<NodeId>,
    ) -> bool {
        match required_inputs(input_ids, attention_mask) {
            Ok((ids, mask)) => {
                &&& r matches Ok(embedder)
                &&& embedder.model() == model
                &&& embedder.input_ids_node() == ids
                &&& embedder.attention_mask_node() == mask
            },
            Err(missing) => r matches Err(e) && e == missing,
        }
    }

    /// Prepares an embedder from the outcome of loading a model. A failed
    /// load is passed on with the runtime's own error. A loaded model is
    /// kept together with its nodes `input_ids` and `attention_mask`, and is
    /// refused if it lacks one of them.
    pub fn from_loaded(loaded: Result<Model, ModelLoadError>) -> (r: Result<Embeddings, EmbedError>)
        ensures
            match loaded {
                Err(cause) => r matches Err(e) && e == EmbedError::ModelLoadFailed(cause),
                Ok(model) => Embeddings::is_assembly(
                    r,
                    model,
                    node_named(model, "input_ids"@),
                    node_named(model, "attention_mask"@),
                ),
            },
    {
        match loaded {
            Err(e) => Err(EmbedError::ModelLoadFailed(e)),
            Ok(model) => {
                let input_ids = model.find_node("input_ids");
                let attention_mask = model.find_node("attention_mask");
                Embeddings::with_inputs(model, input_ids, attention_mask)
            },
        }
    }

    /// Prepares an embedder from a loaded model and from what the lookups of
    /// its two required inputs found.
    pub fn with_inputs(
        model: Model,
        input_ids: Option<NodeId>,
        attention_mask: Option<NodeId>,
    ) -> (r: Result<Embeddings, EmbedError>)
        ensures
            Embeddings::is_assembly(r, model, input_ids, attention_mask),
    {
        match require_inputs(input_ids, attention_mask) {
            Ok((input_ids, attention_mask)) => Ok(Embeddings { model, input_ids, attention_mask }),
            Err(e) => Err(e),
        }
    }

    /// `bound` is what a forward pass over the given sequences is fed: the
    /// padded token ids at the embedder's `input_ids` node, then the
    /// attention mask at its `attention_mask` node, then the type ids at the
    /// node `token_type_ids` if and only if the model has one.
    pub open spec fn feeds(&self, bound: Seq<InputBinding>, rows: Seq<Seq<i32>>) -> bool {
        let type_ids_node = node_named(self.model(), "token_type_ids"@);
        &&& bound.len() == if type_ids_node is Some {
            3nat
        } else {
            2nat
        }
        &&& bound[0].node == self.input_ids_node()
        &&& bound[0].grid.pads(GridKind::TokenIds, rows)
        &&& bound[1].node == self.attention_mask_node()
        &&& bound[1].grid.pads(GridKind::AttentionMask, rows)
        &&& type_ids_node matches Some(node) ==> bound[2].node == node && bound[2].grid.pads(
            GridKind::TypeIds,
            rows,
        )
    }

    /// Decides whether the model has to run for a batch, and if it has to,
    /// pads the batch and binds each grid to its input node.
    pub fn prepare(&self, batch: &Vec<Vec<i32>>) -> (prepared: Prepared)
        ensures
            match prepared {
                Prepared::Immediate(vectors) => immediate_result(batch_rows(batch@)) == Some(
                    vector_rows(vectors@),
                ),
                Prepared::Forward(bound) => {
                    &&& immediate_result(batch_rows(batch@)) is None
                    &&& self.feeds(bound@, batch_rows(batch@))
                },
            },
    {
        match plan_batch(batch) {
            BatchPlan::Immediate(vectors) => Prepared::Immediate(vectors),
            BatchPlan::Forward { token_ids, attention_mask, type_ids } => {
                let type_ids_node = self.model.find_node("token_type_ids");
                Prepared::Forward(
                    bind_inputs(
                        token_ids,
                        attention_mask,
                        type_ids,
                        self.input_ids,
                        self.attention_mask,
                        type_ids_node,
                    ),
                )
            },
        }
    }

    /// The node that a forward pass is asked for: the node
    /// `sentence_embedding` where the model has one, else the last of its
    /// output nodes; a model with neither has none.
    pub open spec fn requested_output(&self) -> Result<NodeId, EmbedError> {
        resolved_output(
            node_named(self.model(), "sentence_embedding"@),
            output_nodes(self.model()),
        )
    }

    /// Finds the node that holds the embeddings.
    pub fn output_node(&self) -> (r: Result<NodeId, EmbedError>)
        ensures
            r == self.requested_output(),
    {
        let pooled = self.model.find_node("sentence_embedding");
        resolve_output_node(pooled, self.model.output_ids())
    }

    /// The model that this embedder holds, for the caller to run.
    pub fn loaded_model(&self) -> (model: &Model)
        ensures
            *model == self.model(),
    {
        &self.model
    }

    /// Begins the embedding of a batch: decides what the batch needs, and
    /// where the model has to run, says on which inputs and for which node.
    ///
    /// A batch without any token is done at once, with one empty vector per
    /// sequence. Any other batch is done at once only where the model has
    /// no output node, and that is a failure. Otherwise the model has to
    /// run on the padded batch, and `embed_outcome` makes the vectors of
    /// what the run hands back.
    pub fn start(&self, batch: &Vec<Vec<i32>>) -> (step: Step)
        ensures
            match step {
                Step::Done(Ok(vectors)) => immediate_result(batch_rows(batch@)) == Some(
                    vector_rows(vectors@),
                ),
                Step::Done(Err(e)) => {
                    &&& immediate_result(batch_rows(batch@)) is None
                    &&& self.requested_output() == Err::<NodeId, EmbedError>(e)
                },
                Step::Run { inputs, output, sequences } => {
                    &&& immediate_result(batch_rows(batch@)) is None
                    &&& self.feeds(inputs@, batch_rows(batch@))
                    &&& self.requested_output() == Ok::<NodeId, EmbedError>(output)
                    &&& sequences == batch@.len()
                },
            },
    {
        match self.prepare(batch) {
            Prepared::Immediate(vectors) => Step::Done(Ok(vectors)),
            Prepared::Forward(inputs) => match self.output_node() {
                Ok(output) => Step::Run { inputs, output, sequences: batch.len() },
                Err(e) => Step::Done(Err(e)),
            },
        }
    }
}

} // verus!
