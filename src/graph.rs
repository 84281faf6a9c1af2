//! The graph that commands act on: two ordered lists, of nodes and of edges.
use vstd::prelude::*;

verus! {

/// A node: a coordinate of two small integers, compared by value.
pub type Node = [u8; 2];

/// An edge: an ordered pair of nodes.
pub type Edge = [Node; 2];

/// The abstract content of a graph.
pub struct GraphView {
    pub nodes: Seq<Node>,
    pub edges: Seq<Edge>,
}

/// `s` with every element equal to `x` taken out, the others kept in order.
pub open spec fn without<T>(s: Seq<T>, x: T) -> Seq<T> {
    s.filter(|y: T| y != x)
}

/// Nodes and edges in insertion order; duplicates are allowed.
#[derive(Debug)]
pub struct Graph {
    pub nodes: Vec<Node>,
    pub edges: Vec<Edge>,
}

impl View for Graph {
    type V = GraphView;

    open spec fn view(&self) -> GraphView {
        GraphView { nodes: self.nodes@, edges: self.edges@ }
    }
}

fn same_node(a: Node, b: Node) -> (r: bool)
    ensures
        r == (a == b),
{
    let r = a[0] == b[0] && a[1] == b[1];
    if r {
        assert(a =~= b);
    }
    r
}

fn same_edge(a: Edge, b: Edge) -> (r: bool)
    ensures
        r == (a == b),
{
    let r = same_node(a[0], b[0]) && same_node(a[1], b[1]);
    if r {
        assert(a =~= b);
    }
    r
}

/// Unfolds `without` on a prefix one element longer.
proof fn lemma_without_step<T>(s: Seq<T>, x: T, i: int)
    requires
        0 <= i < s.len(),
    ensures
        without(s.take(i + 1), x) == if s[i] != x {
            without(s.take(i), x).push(s[i])
        } else {
            without(s.take(i), x)
        },
{
    reveal(Seq::filter);
    assert(s.take(i + 1).drop_last() =~= s.take(i));
}

/// Taking out a value that does not occur changes nothing.
pub proof fn lemma_without_absent<T>(s: Seq<T>, x: T)
    requires
        !s.contains(x),
    ensures
        without(s, x) == s,
    decreases s.len(),
{
    reveal(Seq::filter);
    if s.len() > 0 {
        assert(!s.drop_last().contains(x)) by {
            if s.drop_last().contains(x) {
                let k = choose|k: int| 0 <= k < s.drop_last().len() && s.drop_last()[k] == x;
                assert(s[k] == x);
            }
        }
        lemma_without_absent(s.drop_last(), x);
        assert(s.drop_last().push(s.last()) =~= s);
    }
}

/// Taking out `x` after pushing `x` is taking it out before.
pub proof fn lemma_without_push_same<T>(s: Seq<T>, x: T)
    ensures
        without(s.push(x), x) == without(s, x),
{
    reveal(Seq::filter);
    assert(s.push(x).drop_last() =~= s);
}

impl Graph {
    /// An empty graph.
    pub fn new() -> (g: Graph)
        ensures
            g@.nodes == Seq::<Node>::empty(),
            g@.edges == Seq::<Edge>::empty(),
    {
        Graph { nodes: Vec::new(), edges: Vec::new() }
    }

    /// Appends `node` to the nodes.
    pub fn add_node(&mut self, node: Node)
        ensures
            final(self)@.nodes == old(self)@.nodes.push(node),
            final(self)@.edges == old(self)@.edges,
    {
        self.nodes.push(node);
    }

    /// Removes every node equal to `node`; nothing happens where there is none.
    pub fn remove_node(&mut self, node: Node)
        ensures
            final(self)@.nodes == without(old(self)@.nodes, node),
            final(self)@.edges == old(self)@.edges,
    {
        let mut kept: Vec<Node> = Vec::new();
        let n: usize = self.nodes.len();
        let mut i: usize = 0;
        while i < n
            invariant
                n == self.nodes@.len(),
                i <= n,
                kept@ == without(self.nodes@.take(i as int), node),
            decreases n - i,
        {
            let cur = self.nodes[i];
            proof {
                lemma_without_step(self.nodes@, node, i as int);
            }
            if !same_node(cur, node) {
                kept.push(cur);
            }
            i = i + 1;
        }
        assert(self.nodes@.take(n as int) =~= self.nodes@);
        self.nodes = kept;
    }

    /// Appends the edge from `node1` to `node2` to the edges.
    pub fn add_edge(&mut self, node1: Node, node2: Node)
        ensures
            final(self)@.edges == old(self)@.edges.push([node1, node2]),
            final(self)@.nodes == old(self)@.nodes,
    {
        self.edges.push([node1, node2]);
    }

    /// Removes every edge equal to the one from `node1` to `node2`; nothing
    /// happens where there is none.
    pub fn remove_edge(&mut self, node1: Node, node2: Node)
        ensures
            final(self)@.edges == without(old(self)@.edges, [node1, node2]),
            final(self)@.nodes == old(self)@.nodes,
    {
        let edge: Edge = [node1, node2];
        let mut kept: Vec<Edge> = Vec::new();
        let n: usize = self.edges.len();
        let mut i: usize = 0;
        while i < n
            invariant
                n == self.edges@.len(),
                i <= n,
                kept@ == without(self.edges@.take(i as int), edge),
            decreases n - i,
        {
            let cur = self.edges[i];
            proof {
                lemma_without_step(self.edges@, edge, i as int);
            }
            if !same_edge(cur, edge) {
                kept.push(cur);
            }
            i = i + 1;
        }
        assert(self.edges@.take(n as int) =~= self.edges@);
        self.edges = kept;
    }
}

} // verus!
