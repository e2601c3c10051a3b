use kitoken_embed::batch::{build_grid, GridKind};
use kitoken_embed::error::{EmbedError, RequiredInput};
use kitoken_embed::nodes::{bind_inputs, require_inputs, resolve_output_node};
use rten::NodeId;

fn node(n: u32) -> NodeId {
    NodeId::from_u32(n)
}

#[test]
fn both_required_inputs_are_handed_on() {
    assert_eq!(require_inputs(Some(node(3)), Some(node(5))).unwrap(), (node(3), node(5)));
}

#[test]
fn missing_required_input_is_named() {
    assert!(matches!(
        require_inputs(None, Some(node(5))),
        Err(EmbedError::RequiredNodeMissing(RequiredInput::InputIds))
    ));
    assert!(matches!(
        require_inputs(Some(node(3)), None),
        Err(EmbedError::RequiredNodeMissing(RequiredInput::AttentionMask))
    ));
    assert!(matches!(
        require_inputs(None, None),
        Err(EmbedError::RequiredNodeMissing(RequiredInput::InputIds))
    ));
}

#[test]
fn pooled_node_is_preferred() {
    let declared = [node(1), node(2), node(3)];
    assert_eq!(resolve_output_node(Some(node(9)), &declared).unwrap(), node(9));
    assert_eq!(resolve_output_node(Some(node(9)), &[]).unwrap(), node(9));
}

#[test]
fn fallback_is_the_last_declared_output() {
    let declared = [node(1), node(2), node(3)];
    assert_eq!(resolve_output_node(None, &declared).unwrap(), node(3));
    assert_eq!(resolve_output_node(None, &declared[..1]).unwrap(), node(1));
}

#[test]
fn no_pooled_node_and_no_output_is_an_error() {
    assert!(matches!(resolve_output_node(None, &[]), Err(EmbedError::ModelHasNoOutputs)));
}

#[test]
fn type_ids_are_left_out_when_the_model_has_no_node_for_them() {
    let batch = vec![vec![1, 2, 3], vec![4, 5]];
    let bound = bind_inputs(
        build_grid(GridKind::TokenIds, &batch),
        build_grid(GridKind::AttentionMask, &batch),
        build_grid(GridKind::TypeIds, &batch),
        node(10),
        node(11),
        None,
    );
    assert_eq!(bound.len(), 2);
    assert_eq!(bound[0].node, node(10));
    assert_eq!(bound[0].grid.cells, vec![1, 2, 3, 4, 5, 0]);
    assert_eq!(bound[1].node, node(11));
    assert_eq!(bound[1].grid.cells, vec![1, 1, 1, 1, 1, 0]);
}

#[test]
fn type_ids_are_bound_when_the_model_has_a_node_for_them() {
    let batch = vec![vec![1, 2, 3], vec![4, 5]];
    let bound = bind_inputs(
        build_grid(GridKind::TokenIds, &batch),
        build_grid(GridKind::AttentionMask, &batch),
        build_grid(GridKind::TypeIds, &batch),
        node(10),
        node(11),
        Some(node(12)),
    );
    assert_eq!(bound.len(), 3);
    assert_eq!(bound[0].node, node(10));
    assert_eq!(bound[1].node, node(11));
    assert_eq!(bound[2].node, node(12));
    assert_eq!((bound[2].grid.rows, bound[2].grid.cols), (2, 3));
    assert_eq!(bound[2].grid.cells, vec![0; 6]);
}
