//! Reversible commands on a graph. A command records the values it acts on;
//! the graph is handed to it at the moment it runs.
use vstd::prelude::*;
use crate::graph::{without, Graph, GraphView, Node};

verus! {

/// A change to a graph together with its exact inverse.
pub trait Command {
    /// The graph after the change.
    spec fn forward(&self, g: GraphView) -> GraphView;

    /// The graph after the inverse change.
    spec fn backward(&self, g: GraphView) -> GraphView;

    /// Makes the change.
    fn execute(&self, graph: &mut Graph)
        ensures
            final(graph)@ == self.forward(old(graph)@),
    ;

    /// Undoes the change: removes what `execute` added.
    fn rollback(&self, graph: &mut Graph)
        ensures
            final(graph)@ == self.backward(old(graph)@),
    ;
}

/// Adds one node.
#[derive(Clone, Copy, Debug)]
pub struct AddNode {
    pub node: Node,
}

impl AddNode {
    pub fn new(node: Node) -> (r: AddNode)
        ensures
            r.node == node,
    {
        AddNode { node }
    }
}

impl Command for AddNode {
    open spec fn forward(&self, g: GraphView) -> GraphView {
        GraphView { nodes: g.nodes.push(self.node), edges: g.edges }
    }

    open spec fn backward(&self, g: GraphView) -> GraphView {
        GraphView { nodes: without(g.nodes, self.node), edges: g.edges }
    }

    fn execute(&self, graph: &mut Graph) {
        graph.add_node(self.node);
    }

    fn rollback(&self, graph: &mut Graph) {
        graph.remove_node(self.node);
    }
}

/// Adds one edge, from `node1` to `node2`.
#[derive(Clone, Copy, Debug)]
pub struct AddEdge {
    pub node1: Node,
    pub node2: Node,
}

impl AddEdge {
    pub fn new(node1: Node, node2: Node) -> (r: AddEdge)
        ensures
            r.node1 == node1,
            r.node2 == node2,
    {
        AddEdge { node1, node2 }
    }
}

impl Command for AddEdge {
    open spec fn forward(&self, g: GraphView) -> GraphView {
        GraphView { nodes: g.nodes, edges: g.edges.push([self.node1, self.node2]) }
    }

    open spec fn backward(&self, g: GraphView) -> GraphView {
        GraphView { nodes: g.nodes, edges: without(g.edges, [self.node1, self.node2]) }
    }

    fn execute(&self, graph: &mut Graph) {
        graph.add_edge(self.node1, self.node2);
    }

    fn rollback(&self, graph: &mut Graph) {
        graph.remove_edge(self.node1, self.node2);
    }
}

/// Any of the commands, as a history records them.
#[derive(Clone, Copy, Debug)]
pub enum Operation {
    AddNode(AddNode),
    AddEdge(AddEdge),
}

impl Command for Operation {
    open spec fn forward(&self, g: GraphView) -> GraphView {
        match self {
            Operation::AddNode(c) => c.forward(g),
            Operation::AddEdge(c) => c.forward(g),
        }
    }

    open spec fn backward(&self, g: GraphView) -> GraphView {
        match self {
            Operation::AddNode(c) => c.backward(g),
            Operation::AddEdge(c) => c.backward(g),
        }
    }

    fn execute(&self, graph: &mut Graph) {
        match self {
            Operation::AddNode(c) => c.execute(graph),
            Operation::AddEdge(c) => c.execute(graph),
        }
    }

    fn rollback(&self, graph: &mut Graph) {
        match self {
            Operation::AddNode(c) => c.rollback(graph),
            Operation::AddEdge(c) => c.rollback(graph),
        }
    }
}

} // verus!
