//! A short use of the library.
use vstd::prelude::*;
use crate::commands::{AddNode, Operation};
use crate::graph::Graph;
use crate::history::History;

verus! {

/// Starts a history over an empty graph and commits the addition of one node.
pub fn example() {
    let graph: Graph = Graph::new();
    let mut history: History = History::new(graph);
    history.append(Operation::AddNode(AddNode::new([0, 0])));
}

} // verus!
