//! The inference runtime, as far as this crate relies on it.
//!
//! Everything here is trusted: the types are opaque to the verifier, and
//! the contracts of the two lookups are taken from the runtime's source,
//! not proved. Loading a model and running it are left to the caller, who
//! hands the outcomes to `Embeddings::from_loaded` and to `embed_outcome`.
use rten::{Model, ModelLoadError, NodeId, RunError};
use vstd::prelude::*;

verus! {

/// `rten::Model`: a loaded model, ready to run.
#[verifier::external_type_specification]
#[verifier::external_body]
pub struct ExModel(Model);

/// `rten::NodeId`: the identifier of a node in a model's graph.
#[verifier::external_type_specification]
#[verifier::external_body]
pub struct ExNodeId(NodeId);

/// `rten::ModelLoadError`: why the runtime rejected a serialized model.
#[verifier::external_type_specification]
#[verifier::external_body]
pub struct ExModelLoadError(ModelLoadError);

/// `rten::RunError`: why a model run failed.
#[verifier::external_type_specification]
#[verifier::external_body]
pub struct ExRunError(RunError);

/// The node that a model has under a name, if it has one: what
/// `rten::Model::find_node` returns.
pub uninterp spec fn node_named(model: Model, name: Seq<char>) -> Option<NodeId>;

/// The output nodes of a model, in the order in which `rten::Model::output_ids`
/// lists them.
pub uninterp spec fn output_nodes(model: Model) -> Seq<NodeId>;

/// `rten::Model::find_node` looks a name up in the model's table of node
/// names. The result depends on the model and the name alone. Nothing is
/// claimed about which names a model has.
pub assume_specification[ Model::find_node ](model: &Model, id: &str) -> (r: Option<NodeId>)
    ensures
        r == node_named(*model, id@),
;

/// `rten::Model::output_ids` returns the list of output nodes that the model
/// holds. The result depends on the model alone. Nothing is claimed about
/// what the list holds.
pub assume_specification[ Model::output_ids ](model: &Model) -> (r: &[NodeId])
    ensures
        r@ == output_nodes(*model),
;

} // verus!
