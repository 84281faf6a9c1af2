use command_pattern::commands::{AddEdge, AddNode, Command, Operation};
use command_pattern::example::example;
use command_pattern::graph::{Edge, Graph, Node};
use command_pattern::history::{History, HistoryError};

#[test]
fn test() {
    let mut history: History = History::new(Graph::new());

    assert_eq!(history.committed(), 0);

    // Add a node to the graph at (0, 0)
    history.append(Operation::AddNode(AddNode::new([0, 0])));

    // Add a node to the graph at (1, 1)
    history.append(Operation::AddNode(AddNode::new([1, 1])));

    // Check that the graph is still unchanged
    assert_eq!(history.applied(), 0);
    assert_eq!(history.committed(), 2);
    let empty_node_vec: Vec<Node> = vec![];
    assert_eq!(history.target().nodes, empty_node_vec);

    // Execute the commands and check that the changes have now been made
    history.apply();
    assert_eq!(history.applied(), 2);
    assert_eq!(history.committed(), 2);
    assert_eq!(history.target().nodes, [[0, 0], [1, 1]]);

    // Connect the two nodes into a vertex
    history.append(Operation::AddEdge(AddEdge::new([0, 0], [1, 1])));
    history.apply();
    assert_eq!(history.committed(), 3);
    assert_eq!(history.target().edges, [[[0, 0], [1, 1]]]);

    // Undo the last action
    assert_eq!(history.undo(), Ok(()));
    assert_eq!(history.committed(), 2);
    let empty_edge_vec: Vec<Edge> = vec![];
    assert_eq!(history.target().edges, empty_edge_vec);
    assert_eq!(history.log_len(), 3);

    // Redo the last action
    assert_eq!(history.redo(), Ok(()));
    assert_eq!(history.committed(), 3);
    assert_eq!(history.target().edges, [[[0, 0], [1, 1]]]);

    // Undo the last action and perform a new action, rewriting the history
    assert_eq!(history.undo(), Ok(()));
    history.append(Operation::AddNode(AddNode::new([2, 2])));
    history.apply();
    assert_eq!(history.committed(), 3);
    assert_eq!(history.target().nodes, [[0, 0], [1, 1], [2, 2]]);
    assert_eq!(history.target().edges, empty_edge_vec);
    assert_eq!(history.log_len(), 3);
}

fn two_nodes_and_edge() -> History {
    let mut history = History::new(Graph::new());
    history.append(Operation::AddNode(AddNode::new([0, 0])));
    history.append(Operation::AddNode(AddNode::new([1, 1])));
    history.apply();
    history.append(Operation::AddEdge(AddEdge::new([0, 0], [1, 1])));
    history.apply();
    history
}

#[test]
fn new_history_is_empty() {
    let history = History::new(Graph::new());
    assert_eq!(history.committed(), 0);
    assert_eq!(history.applied(), 0);
    assert_eq!(history.log_len(), 0);
}

#[test]
fn append_queues_without_running() {
    let mut history = History::new(Graph::new());
    history.append(Operation::AddNode(AddNode::new([0, 0])));
    history.append(Operation::AddNode(AddNode::new([1, 1])));
    assert_eq!(history.committed(), 2);
    assert_eq!(history.applied(), 0);
    assert!(history.target().nodes.is_empty());
}

#[test]
fn apply_runs_queued_in_order() {
    let mut history = History::new(Graph::new());
    history.append(Operation::AddNode(AddNode::new([0, 0])));
    history.append(Operation::AddNode(AddNode::new([1, 1])));
    history.apply();
    assert_eq!(history.applied(), 2);
    assert_eq!(history.target().nodes, vec![[0, 0], [1, 1]]);
}

#[test]
fn apply_twice_changes_nothing() {
    let mut history = two_nodes_and_edge();
    let nodes = history.target().nodes.clone();
    let edges = history.target().edges.clone();
    history.apply();
    assert_eq!(history.committed(), 3);
    assert_eq!(history.applied(), 3);
    assert_eq!(history.target().nodes, nodes);
    assert_eq!(history.target().edges, edges);
}

#[test]
fn undo_inverts_latest_and_keeps_it_logged() {
    let mut history = two_nodes_and_edge();
    assert_eq!(history.undo(), Ok(()));
    assert_eq!(history.committed(), 2);
    assert_eq!(history.applied(), 2);
    assert!(history.target().edges.is_empty());
    assert_eq!(history.log_len(), 3);
}

#[test]
fn undo_then_redo_restores_graph() {
    let mut history = two_nodes_and_edge();
    let nodes = history.target().nodes.clone();
    let edges = history.target().edges.clone();
    assert_eq!(history.undo(), Ok(()));
    assert_eq!(history.redo(), Ok(()));
    assert_eq!(history.committed(), 3);
    assert_eq!(history.applied(), 3);
    assert_eq!(history.target().nodes, nodes);
    assert_eq!(history.target().edges, edges);
    assert_eq!(history.target().edges, vec![[[0, 0], [1, 1]]]);
}

#[test]
fn append_after_undo_drops_future() {
    let mut history = two_nodes_and_edge();
    assert_eq!(history.undo(), Ok(()));
    history.append(Operation::AddNode(AddNode::new([2, 2])));
    history.apply();
    assert_eq!(history.log_len(), 3);
    assert_eq!(history.committed(), 3);
    assert_eq!(history.applied(), 3);
    assert_eq!(history.target().nodes, vec![[0, 0], [1, 1], [2, 2]]);
    assert!(history.target().edges.is_empty());
    assert_eq!(history.redo(), Err(HistoryError::NothingToRedo));
    assert_eq!(history.undo(), Ok(()));
    assert_eq!(history.redo(), Ok(()));
    assert_eq!(history.target().nodes, vec![[0, 0], [1, 1], [2, 2]]);
    assert!(history.target().edges.is_empty());
}

#[test]
fn undo_on_empty_history_fails() {
    let mut history = History::new(Graph::new());
    assert_eq!(history.undo(), Err(HistoryError::NothingToUndo));
    assert_eq!(history.committed(), 0);
    assert_eq!(history.applied(), 0);
}

#[test]
fn undo_with_unapplied_entry_fails() {
    let mut history = two_nodes_and_edge();
    history.append(Operation::AddNode(AddNode::new([3, 3])));
    assert_eq!(history.undo(), Err(HistoryError::NothingToUndo));
    assert_eq!(history.committed(), 4);
    assert_eq!(history.applied(), 3);
    assert_eq!(history.log_len(), 4);
    assert_eq!(history.target().edges, vec![[[0, 0], [1, 1]]]);
}

#[test]
fn redo_without_future_fails() {
    let mut history = two_nodes_and_edge();
    assert_eq!(history.redo(), Err(HistoryError::NothingToRedo));
    assert_eq!(history.committed(), 3);
    assert_eq!(history.applied(), 3);
}

#[test]
fn undo_of_duplicate_removes_all_copies() {
    let mut history = History::new(Graph::new());
    history.append(Operation::AddNode(AddNode::new([5, 5])));
    history.append(Operation::AddNode(AddNode::new([5, 5])));
    history.apply();
    assert_eq!(history.undo(), Ok(()));
    assert!(history.target().nodes.is_empty());
    assert_eq!(history.redo(), Ok(()));
    assert_eq!(history.target().nodes, vec![[5, 5]]);
}

#[test]
fn commands_run_on_a_graph() {
    let mut graph = Graph::new();
    let node = AddNode::new([4, 2]);
    let edge = AddEdge::new([4, 2], [2, 4]);
    node.execute(&mut graph);
    edge.execute(&mut graph);
    assert_eq!(graph.nodes, vec![[4, 2]]);
    assert_eq!(graph.edges, vec![[[4, 2], [2, 4]]]);
    edge.rollback(&mut graph);
    node.rollback(&mut graph);
    assert!(graph.nodes.is_empty());
    assert!(graph.edges.is_empty());
}

#[test]
fn example_runs() {
    example();
}
