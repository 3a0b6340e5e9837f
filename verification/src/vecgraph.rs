//! A small adjacency-vector digraph implementing the whole capability
//! set: node and edge enumeration, oriented endpoints, outgoing,
//! incoming, incident and undirected adjacency, and the dense
//! identifier bijection.
//!
//! Nodes are created in a batch by [`VecGraph::new`] and edges are
//! appended by [`VecGraph::add_edge`]; handles enumerate in creation
//! order and identifiers equal creation ranks.  Undirected adjacency
//! lists the outgoing records before the incoming ones; a self-loop
//! contributes one record per incidence, so it appears twice at its
//! node.

use vstd::prelude::*;

verus! {

use crate::attributes::{AttributedGraph, EdgeAttributes, NodeAttributes};
use crate::traits::{
    Directed, DirectedEdge, FiniteDigraph, FiniteGraph, GraphIterator, GraphType, IndexGraph,
    Undirected,
};

/// A node handle of a [`VecGraph`]: the node's creation rank.
#[derive(Clone, Copy, PartialEq, Eq, Structural)]
pub struct Node(pub(crate) usize);

/// An edge handle of a [`VecGraph`]: the edge's creation rank.
#[derive(Clone, Copy, PartialEq, Eq, Structural)]
pub struct Edge(pub(crate) usize);

/// A half-edge of a [`VecGraph`].
#[derive(Clone, Copy)]
pub struct DirEdge {
    is_out: bool,
    edge: Edge,
}

/// A digraph stored as an edge vector plus per-node adjacency vectors.
pub struct VecGraph {
    /// Number of nodes; node identifiers are `0..nodes`.
    nodes: usize,
    /// Edge identifier to `(source id, sink id)`.
    edges: Vec<(usize, usize)>,
    /// Node identifier to `(edge id, sink id)` of its outgoing edges.
    outs: Vec<Vec<(usize, usize)>>,
    /// Node identifier to `(edge id, source id)` of its incoming edges.
    ins: Vec<Vec<(usize, usize)>>,
}

impl DirectedEdge for DirEdge {
    type Edge = Edge;

    closed spec fn spec_is_outgoing(&self) -> bool {
        self.is_out
    }

    closed spec fn spec_edge(&self) -> Edge {
        self.edge
    }

    fn is_incoming(&self) -> (b: bool) {
        !self.is_out
    }

    fn is_outgoing(&self) -> (b: bool) {
        self.is_out
    }

    fn edge(&self) -> (e: Edge) {
        self.edge
    }
}

impl GraphType for VecGraph {
    type Node = Node;

    type Edge = Edge;
}

/// Iterator over all nodes of a [`VecGraph`].
#[derive(Clone, Copy)]
pub struct VecNodeIt {
    cur: usize,
}

/// Iterator over all edges of a [`VecGraph`].
#[derive(Clone, Copy)]
pub struct VecEdgeIt {
    cur: usize,
}

/// Iterator over the outgoing records of one node of a [`VecGraph`].
#[derive(Clone, Copy)]
pub struct VecOutIt {
    u: usize,
    i: usize,
}

/// Iterator over the incoming records of one node of a [`VecGraph`].
#[derive(Clone, Copy)]
pub struct VecInIt {
    u: usize,
    i: usize,
}

/// Iterator over the neighbor records of one node of a [`VecGraph`].
#[derive(Clone, Copy)]
pub struct VecNeighIt {
    u: usize,
    i: usize,
}

/// Iterator over the incidence records of one node of a [`VecGraph`].
#[derive(Clone, Copy)]
pub struct VecIncidentIt {
    u: usize,
    i: usize,
}

impl GraphIterator<VecGraph> for VecNodeIt {
    type Item = Node;

    closed spec fn remaining(&self, g: &VecGraph) -> Seq<Node> {
        g.spec_nodes().skip(self.cur as int)
    }

    closed spec fn valid_for(&self, g: &VecGraph) -> bool {
        self.cur <= g.nodes
    }

    fn next(&mut self, g: &VecGraph) -> (r: Option<Node>) {
        if self.cur < g.nodes {
            let c: usize = self.cur;
            self.cur = c + 1;
            proof {
                assert(old(self).remaining(g)[0] == Node(c));
                assert(self.remaining(g) =~= old(self).remaining(g).skip(1));
            }
            Option::Some(Node(c))
        } else {
            Option::None
        }
    }

    fn size_hint(&self, g: &VecGraph) -> (r: (usize, Option<usize>)) {
        let n: usize = g.nodes - self.cur;
        (n, Option::Some(n))
    }

    fn count(self, g: &VecGraph) -> (n: usize) {
        g.nodes - self.cur
    }
}

impl GraphIterator<VecGraph> for VecEdgeIt {
    type Item = Edge;

    closed spec fn remaining(&self, g: &VecGraph) -> Seq<Edge> {
        g.spec_edges().skip(self.cur as int)
    }

    closed spec fn valid_for(&self, g: &VecGraph) -> bool {
        self.cur <= g.edges@.len()
    }

    fn next(&mut self, g: &VecGraph) -> (r: Option<Edge>) {
        if self.cur < g.edges.len() {
            let c: usize = self.cur;
            self.cur = c + 1;
            proof {
                assert(old(self).remaining(g)[0] == Edge(c));
                assert(self.remaining(g) =~= old(self).remaining(g).skip(1));
            }
            Option::Some(Edge(c))
        } else {
            Option::None
        }
    }

    fn size_hint(&self, g: &VecGraph) -> (r: (usize, Option<usize>)) {
        let n: usize = g.edges.len() - self.cur;
        (n, Option::Some(n))
    }

    fn count(self, g: &VecGraph) -> (n: usize) {
        g.edges.len() - self.cur
    }
}

impl GraphIterator<VecGraph> for VecOutIt {
    type Item = (Edge, Node);

    closed spec fn remaining(&self, g: &VecGraph) -> Seq<(Edge, Node)> {
        g.spec_outs(Node(self.u)).skip(self.i as int)
    }

    closed spec fn valid_for(&self, g: &VecGraph) -> bool {
        g.wf() && self.u < g.nodes && self.i <= g.outs@[self.u as int]@.len()
    }

    fn next(&mut self, g: &VecGraph) -> (r: Option<(Edge, Node)>) {
        if self.i < g.outs[self.u].len() {
            let p: (usize, usize) = g.outs[self.u][self.i];
            let c: usize = self.i;
            self.i = c + 1;
            proof {
                assert(old(self).remaining(g)[0] == (Edge(p.0), Node(p.1)));
                assert(self.remaining(g) =~= old(self).remaining(g).skip(1));
            }
            Option::Some((Edge(p.0), Node(p.1)))
        } else {
            Option::None
        }
    }

    fn size_hint(&self, g: &VecGraph) -> (r: (usize, Option<usize>)) {
        let n: usize = g.outs[self.u].len() - self.i;
        (n, Option::Some(n))
    }

    fn count(self, g: &VecGraph) -> (n: usize) {
        g.outs[self.u].len() - self.i
    }
}

impl GraphIterator<VecGraph> for VecInIt {
    type Item = (Edge, Node);

    closed spec fn remaining(&self, g: &VecGraph) -> Seq<(Edge, Node)> {
        g.spec_ins(Node(self.u)).skip(self.i as int)
    }

    closed spec fn valid_for(&self, g: &VecGraph) -> bool {
        g.wf() && self.u < g.nodes && self.i <= g.ins@[self.u as int]@.len()
    }

    fn next(&mut self, g: &VecGraph) -> (r: Option<(Edge, Node)>) {
        if self.i < g.ins[self.u].len() {
            let p: (usize, usize) = g.ins[self.u][self.i];
            let c: usize = self.i;
            self.i = c + 1;
            proof {
                assert(old(self).remaining(g)[0] == (Edge(p.0), Node(p.1)));
                assert(self.remaining(g) =~= old(self).remaining(g).skip(1));
            }
            Option::Some((Edge(p.0), Node(p.1)))
        } else {
            Option::None
        }
    }

    fn size_hint(&self, g: &VecGraph) -> (r: (usize, Option<usize>)) {
        let n: usize = g.ins[self.u].len() - self.i;
        (n, Option::Some(n))
    }

    fn count(self, g: &VecGraph) -> (n: usize) {
        g.ins[self.u].len() - self.i
    }
}

impl GraphIterator<VecGraph> for VecNeighIt {
    type Item = (Edge, Node);

    closed spec fn remaining(&self, g: &VecGraph) -> Seq<(Edge, Node)> {
        g.spec_neighs(Node(self.u)).skip(self.i as int)
    }

    closed spec fn valid_for(&self, g: &VecGraph) -> bool {
        g.wf() && self.u < g.nodes
            && self.i <= g.outs@[self.u as int]@.len() + g.ins@[self.u as int]@.len()
    }

    fn next(&mut self, g: &VecGraph) -> (r: Option<(Edge, Node)>) {
        let ol: usize = g.outs[self.u].len();
        if self.i < ol {
            let p: (usize, usize) = g.outs[self.u][self.i];
            let c: usize = self.i;
            self.i = c + 1;
            proof {
                assert(old(self).remaining(g)[0] == (Edge(p.0), Node(p.1)));
                assert(self.remaining(g) =~= old(self).remaining(g).skip(1));
            }
            Option::Some((Edge(p.0), Node(p.1)))
        } else if self.i - ol < g.ins[self.u].len() {
            let p: (usize, usize) = g.ins[self.u][self.i - ol];
            let c: usize = self.i;
            self.i = c + 1;
            proof {
                assert(old(self).remaining(g)[0] == (Edge(p.0), Node(p.1)));
                assert(self.remaining(g) =~= old(self).remaining(g).skip(1));
            }
            Option::Some((Edge(p.0), Node(p.1)))
        } else {
            Option::None
        }
    }

    fn size_hint(&self, g: &VecGraph) -> (r: (usize, Option<usize>)) {
        let n: usize = g.outs[self.u].len() + g.ins[self.u].len() - self.i;
        (n, Option::Some(n))
    }

    fn count(self, g: &VecGraph) -> (n: usize) {
        g.outs[self.u].len() + g.ins[self.u].len() - self.i
    }
}

impl GraphIterator<VecGraph> for VecIncidentIt {
    type Item = (DirEdge, Node);

    closed spec fn remaining(&self, g: &VecGraph) -> Seq<(DirEdge, Node)> {
        (g.spec_outs(Node(self.u)).map_values(
            |q: (Edge, Node)| (DirEdge { is_out: true, edge: q.0 }, q.1),
        ) + g.spec_ins(Node(self.u)).map_values(
            |q: (Edge, Node)| (DirEdge { is_out: false, edge: q.0 }, q.1),
        )).skip(self.i as int)
    }

    closed spec fn valid_for(&self, g: &VecGraph) -> bool {
        g.wf() && self.u < g.nodes
            && self.i <= g.outs@[self.u as int]@.len() + g.ins@[self.u as int]@.len()
    }

    fn next(&mut self, g: &VecGraph) -> (r: Option<(DirEdge, Node)>) {
        let ol: usize = g.outs[self.u].len();
        if self.i < ol {
            let p: (usize, usize) = g.outs[self.u][self.i];
            let c: usize = self.i;
            self.i = c + 1;
            let d = DirEdge { is_out: true, edge: Edge(p.0) };
            proof {
                assert(old(self).remaining(g)[0] == (d, Node(p.1)));
                assert(self.remaining(g) =~= old(self).remaining(g).skip(1));
            }
            Option::Some((d, Node(p.1)))
        } else if self.i - ol < g.ins[self.u].len() {
            let p: (usize, usize) = g.ins[self.u][self.i - ol];
            let c: usize = self.i;
            self.i = c + 1;
            let d = DirEdge { is_out: false, edge: Edge(p.0) };
            proof {
                assert(old(self).remaining(g)[0] == (d, Node(p.1)));
                assert(self.remaining(g) =~= old(self).remaining(g).skip(1));
            }
            Option::Some((d, Node(p.1)))
        } else {
            Option::None
        }
    }

    fn size_hint(&self, g: &VecGraph) -> (r: (usize, Option<usize>)) {
        let n: usize = g.outs[self.u].len() + g.ins[self.u].len() - self.i;
        (n, Option::Some(n))
    }

    fn count(self, g: &VecGraph) -> (n: usize) {
        g.outs[self.u].len() + g.ins[self.u].len() - self.i
    }
}

impl FiniteGraph for VecGraph {
    type NodeIt = VecNodeIt;

    type EdgeIt = VecEdgeIt;

    closed spec fn wf(&self) -> bool {
        &&& self.outs@.len() == self.nodes
        &&& self.ins@.len() == self.nodes
        &&& 2 * self.edges@.len() <= usize::MAX
        &&& forall|e: int| 0 <= e < self.edges@.len()
            ==> (#[trigger] self.edges@[e]).0 < self.nodes && self.edges@[e].1 < self.nodes
        &&& forall|u: int, i: int|
            0 <= u < self.nodes && 0 <= i < self.outs@[u]@.len()
            ==> (#[trigger] self.outs@[u]@[i]).0 < self.edges@.len()
                && self.edges@[self.outs@[u]@[i].0 as int].0 == u as usize
                && self.edges@[self.outs@[u]@[i].0 as int].1 == self.outs@[u]@[i].1
        &&& forall|v: int, i: int|
            0 <= v < self.nodes && 0 <= i < self.ins@[v]@.len()
            ==> (#[trigger] self.ins@[v]@[i]).0 < self.edges@.len()
                && self.edges@[self.ins@[v]@[i].0 as int].1 == v as usize
                && self.edges@[self.ins@[v]@[i].0 as int].0 == self.ins@[v]@[i].1
        &&& forall|e: int| 0 <= e < self.edges@.len()
            ==> self.outs@[(#[trigger] self.edges@[e]).0 as int]@.contains(
                (e as usize, self.edges@[e].1))
        &&& forall|e: int| 0 <= e < self.edges@.len()
            ==> self.ins@[(#[trigger] self.edges@[e]).1 as int]@.contains(
                (e as usize, self.edges@[e].0))
        &&& forall|u: int, i: int, j: int|
            0 <= u < self.nodes && 0 <= i < j < self.outs@[u]@.len()
            ==> (#[trigger] self.outs@[u]@[i]).0 != (#[trigger] self.outs@[u]@[j]).0
        &&& forall|u: int, i: int, j: int|
            0 <= u < self.nodes && 0 <= i < j < self.ins@[u]@.len()
            ==> (#[trigger] self.ins@[u]@[i]).0 != (#[trigger] self.ins@[u]@[j]).0
        &&& forall|u: int| 0 <= u < self.nodes
            ==> (#[trigger] self.outs@[u]@.len()) + self.ins@[u]@.len()
                <= 2 * self.edges@.len()
    }

    closed spec fn spec_num_nodes(&self) -> nat {
        self.nodes as nat
    }

    closed spec fn spec_num_edges(&self) -> nat {
        self.edges@.len()
    }

    closed spec fn spec_nodes(&self) -> Seq<Node> {
        Seq::new(self.nodes as nat, |i: int| Node(i as usize))
    }

    closed spec fn spec_edges(&self) -> Seq<Edge> {
        Seq::new(self.edges@.len(), |i: int| Edge(i as usize))
    }

    closed spec fn spec_valid_node(&self, u: Node) -> bool {
        u.0 < self.nodes
    }

    closed spec fn spec_valid_edge(&self, e: Edge) -> bool {
        e.0 < self.edges@.len()
    }

    closed spec fn spec_ends(&self, e: Edge) -> (Node, Node) {
        (Node(self.edges@[e.0 as int].0), Node(self.edges@[e.0 as int].1))
    }

    proof fn lemma_enumeration(&self) {
        assert forall|u: Node| #[trigger] self.spec_valid_node(u) implies
            self.spec_nodes().contains(u) by {
            assert(self.spec_nodes()[u.0 as int] == u);
        }
        assert forall|e: Edge| #[trigger] self.spec_valid_edge(e) implies
            self.spec_edges().contains(e) by {
            assert(self.spec_edges()[e.0 as int] == e);
        }
    }

    fn num_nodes(&self) -> (n: usize) {
        self.nodes
    }

    fn num_edges(&self) -> (m: usize) {
        self.edges.len()
    }

    fn nodes_iter(&self) -> (it: VecNodeIt) {
        let it = VecNodeIt { cur: 0 };
        proof {
            assert(it.remaining(self) =~= self.spec_nodes());
        }
        it
    }

    fn edges_iter(&self) -> (it: VecEdgeIt) {
        let it = VecEdgeIt { cur: 0 };
        proof {
            assert(it.remaining(self) =~= self.spec_edges());
        }
        it
    }

    fn enodes(&self, e: Edge) -> (uv: (Node, Node)) {
        let p: (usize, usize) = self.edges[e.0];
        (Node(p.0), Node(p.1))
    }
}

impl FiniteDigraph for VecGraph {
    closed spec fn spec_src(&self, e: Edge) -> Node {
        Node(self.edges@[e.0 as int].0)
    }

    closed spec fn spec_snk(&self, e: Edge) -> Node {
        Node(self.edges@[e.0 as int].1)
    }

    proof fn lemma_endpoints(&self, e: Edge) {
    }

    fn src(&self, e: Edge) -> (u: Node) {
        Node(self.edges[e.0].0)
    }

    fn snk(&self, e: Edge) -> (v: Node) {
        Node(self.edges[e.0].1)
    }
}

impl Undirected for VecGraph {
    type NeighIt = VecNeighIt;

    open spec fn spec_neighs(&self, u: Node) -> Seq<(Edge, Node)> {
        self.spec_outs(u) + self.spec_ins(u)
    }

    proof fn lemma_neighs(&self) {
        self.lemma_adjacency();
        assert forall|e: Edge| #[trigger] self.spec_valid_edge(e) implies
            self.spec_neighs(self.spec_ends(e).0).contains((e, self.spec_ends(e).1))
            && self.spec_neighs(self.spec_ends(e).1).contains((e, self.spec_ends(e).0)) by {
            let s = self.spec_src(e);
            let t = self.spec_snk(e);
            let i = choose|i: int|
                0 <= i < self.spec_outs(s).len() && self.spec_outs(s)[i] == (e, t);
            assert(self.spec_neighs(s)[i] == (e, t));
            let j = choose|j: int|
                0 <= j < self.spec_ins(t).len() && self.spec_ins(t)[j] == (e, s);
            assert(self.spec_neighs(t)[self.spec_outs(t).len() + j] == (e, s));
        }
    }

    fn neigh_iter(&self, u: Node) -> (it: VecNeighIt) {
        let it = VecNeighIt { u: u.0, i: 0 };
        proof {
            assert(it.remaining(self) =~= self.spec_neighs(u));
        }
        it
    }
}

impl Directed for VecGraph {
    type OutIt = VecOutIt;

    type InIt = VecInIt;

    type DirectedEdge = DirEdge;

    type IncidentIt = VecIncidentIt;

    closed spec fn spec_outs(&self, u: Node) -> Seq<(Edge, Node)> {
        self.outs@[u.0 as int]@.map_values(|p: (usize, usize)| (Edge(p.0), Node(p.1)))
    }

    closed spec fn spec_ins(&self, u: Node) -> Seq<(Edge, Node)> {
        self.ins@[u.0 as int]@.map_values(|p: (usize, usize)| (Edge(p.0), Node(p.1)))
    }

    open spec fn spec_incidents(&self, u: Node) -> Seq<(bool, Edge, Node)> {
        self.spec_outs(u).map_values(|q: (Edge, Node)| (true, q.0, q.1))
        + self.spec_ins(u).map_values(|q: (Edge, Node)| (false, q.0, q.1))
    }

    proof fn lemma_adjacency(&self) {
        assert forall|e: Edge| #[trigger] self.spec_valid_edge(e) implies
            self.spec_outs(self.spec_src(e)).contains((e, self.spec_snk(e))) by {
            let k: int = e.0 as int;
            let s: int = self.edges@[k].0 as int;
            let i = choose|i: int|
                0 <= i < self.outs@[s]@.len()
                && self.outs@[s]@[i] == (e.0, self.edges@[k].1);
            assert(self.spec_outs(self.spec_src(e))[i] == (e, self.spec_snk(e)));
        }
        assert forall|e: Edge| #[trigger] self.spec_valid_edge(e) implies
            self.spec_ins(self.spec_snk(e)).contains((e, self.spec_src(e))) by {
            let k: int = e.0 as int;
            let t: int = self.edges@[k].1 as int;
            let i = choose|i: int|
                0 <= i < self.ins@[t]@.len()
                && self.ins@[t]@[i] == (e.0, self.edges@[k].0);
            assert(self.spec_ins(self.spec_snk(e))[i] == (e, self.spec_src(e)));
        }
        assert forall|e: Edge| #[trigger] self.spec_valid_edge(e) implies
            self.spec_incidents(self.spec_src(e)).contains((true, e, self.spec_snk(e)))
            && self.spec_incidents(self.spec_snk(e)).contains(
                (false, e, self.spec_src(e))) by {
            let s = self.spec_src(e);
            let t = self.spec_snk(e);
            let i = choose|i: int|
                0 <= i < self.spec_outs(s).len() && self.spec_outs(s)[i] == (e, t);
            assert(self.spec_incidents(s)[i] == (true, e, t));
            let j = choose|j: int|
                0 <= j < self.spec_ins(t).len() && self.spec_ins(t)[j] == (e, s);
            assert(self.spec_incidents(t)[self.spec_outs(t).len() + j] == (false, e, s));
        }
    }

    fn out_iter(&self, u: Node) -> (it: VecOutIt) {
        let it = VecOutIt { u: u.0, i: 0 };
        proof {
            assert(it.remaining(self) =~= self.spec_outs(u));
        }
        it
    }

    fn in_iter(&self, u: Node) -> (it: VecInIt) {
        let it = VecInIt { u: u.0, i: 0 };
        proof {
            assert(it.remaining(self) =~= self.spec_ins(u));
        }
        it
    }

    fn incident_iter(&self, u: Node) -> (it: VecIncidentIt) {
        let it = VecIncidentIt { u: u.0, i: 0 };
        proof {
            assert(crate::traits::directed_items_view(it.remaining(self))
                =~= self.spec_incidents(u));
        }
        it
    }
}

impl IndexGraph for VecGraph {
    closed spec fn spec_node_id(&self, u: Node) -> int {
        u.0 as int
    }

    closed spec fn spec_id2node(&self, id: int) -> Node {
        Node(id as usize)
    }

    closed spec fn spec_edge_id(&self, e: Edge) -> int {
        e.0 as int
    }

    closed spec fn spec_id2edge(&self, id: int) -> Edge {
        Edge(id as usize)
    }

    proof fn lemma_index_bijection(&self) {
    }

    fn node_id(&self, u: Node) -> (id: usize) {
        u.0
    }

    fn id2node(&self, id: usize) -> (u: Node) {
        Node(id)
    }

    fn edge_id(&self, e: Edge) -> (id: usize) {
        e.0
    }

    fn id2edge(&self, id: usize) -> (e: Edge) {
        Edge(id)
    }
}

impl VecGraph {
    /// A graph with `n` isolated nodes and no edges.
    pub fn new(n: usize) -> (g: VecGraph)
        ensures
            g.wf(),
            g.spec_num_nodes() == n,
            g.spec_num_edges() == 0,
            forall|u: Node| g.spec_valid_node(u)
                ==> #[trigger] g.spec_outs(u) == Seq::<(Edge, Node)>::empty(),
            forall|u: Node| g.spec_valid_node(u)
                ==> #[trigger] g.spec_ins(u) == Seq::<(Edge, Node)>::empty(),
    {
        let mut outs: Vec<Vec<(usize, usize)>> = Vec::new();
        let mut ins: Vec<Vec<(usize, usize)>> = Vec::new();
        let mut k: usize = 0;
        while k < n
            invariant
                k <= n,
                outs@.len() == k,
                ins@.len() == k,
                forall|j: int| 0 <= j < k ==> (#[trigger] outs@[j])@.len() == 0,
                forall|j: int| 0 <= j < k ==> (#[trigger] ins@[j])@.len() == 0,
            decreases n - k,
        {
            outs.push(Vec::new());
            ins.push(Vec::new());
            k = k + 1;
        }
        let g = VecGraph { nodes: n, edges: Vec::new(), outs, ins };
        proof {
            assert forall|u: Node| g.spec_valid_node(u) implies
                #[trigger] g.spec_outs(u) == Seq::<(Edge, Node)>::empty()
                && g.spec_ins(u) == Seq::<(Edge, Node)>::empty() by {
                assert(g.spec_outs(u) =~= Seq::<(Edge, Node)>::empty());
                assert(g.spec_ins(u) =~= Seq::<(Edge, Node)>::empty());
            }
        }
        g
    }

    /// Append an edge directed from `u` to `v` and return its handle.
    /// Existing handles, identifiers and adjacency records are kept;
    /// the new edge's record is appended to `u`'s outgoing and `v`'s
    /// incoming lists.
    pub fn add_edge(&mut self, u: Node, v: Node) -> (e: Edge)
        requires
            old(self).wf(),
            old(self).spec_valid_node(u),
            old(self).spec_valid_node(v),
            2 * (old(self).spec_num_edges() + 1) <= usize::MAX,
        ensures
            final(self).wf(),
            final(self).spec_num_nodes() == old(self).spec_num_nodes(),
            final(self).spec_num_edges() == old(self).spec_num_edges() + 1,
            final(self).spec_valid_edge(e),
            final(self).spec_edge_id(e) == old(self).spec_num_edges(),
            final(self).spec_src(e) == u,
            final(self).spec_snk(e) == v,
            final(self).spec_ends(e) == (u, v),
            forall|e2: Edge| #[trigger] old(self).spec_valid_edge(e2)
                ==> final(self).spec_valid_edge(e2)
                    && final(self).spec_src(e2) == old(self).spec_src(e2)
                    && final(self).spec_snk(e2) == old(self).spec_snk(e2)
                    && final(self).spec_ends(e2) == old(self).spec_ends(e2)
                    && final(self).spec_edge_id(e2) == old(self).spec_edge_id(e2),
            forall|w: Node| #[trigger] old(self).spec_valid_node(w)
                ==> final(self).spec_node_id(w) == old(self).spec_node_id(w),
            forall|id: int| 0 <= id < old(self).spec_num_nodes()
                ==> #[trigger] final(self).spec_id2node(id) == old(self).spec_id2node(id),
            forall|id: int| 0 <= id < old(self).spec_num_edges()
                ==> #[trigger] final(self).spec_id2edge(id) == old(self).spec_id2edge(id),
            forall|w: Node| #[trigger] final(self).spec_valid_node(w)
                == old(self).spec_valid_node(w),
            final(self).spec_outs(u) == old(self).spec_outs(u).push((e, v)),
            final(self).spec_ins(v) == old(self).spec_ins(v).push((e, u)),
            forall|w: Node| old(self).spec_valid_node(w) && w != u
                ==> #[trigger] final(self).spec_outs(w) == old(self).spec_outs(w),
            forall|w: Node| old(self).spec_valid_node(w) && w != v
                ==> #[trigger] final(self).spec_ins(w) == old(self).spec_ins(w),
    {
        let m: usize = self.edges.len();
        self.edges.push((u.0, v.0));
        let orow = &mut self.outs[u.0];
        orow.push((m, v.0));
        let irow = &mut self.ins[v.0];
        irow.push((m, u.0));
        let e = Edge(m);
        proof {
            self.lemma_add_edge_wf(*old(self), u, v, e);
            assert(self.spec_outs(u) =~= old(self).spec_outs(u).push((e, v)));
            assert(self.spec_ins(v) =~= old(self).spec_ins(v).push((e, u)));
            assert forall|w: Node| old(self).spec_valid_node(w) && w != u implies
                #[trigger] self.spec_outs(w) == old(self).spec_outs(w) by {
                assert(self.outs@[w.0 as int] == old(self).outs@[w.0 as int]);
            }
            assert forall|w: Node| old(self).spec_valid_node(w) && w != v implies
                #[trigger] self.spec_ins(w) == old(self).spec_ins(w) by {
                assert(self.ins@[w.0 as int] == old(self).ins@[w.0 as int]);
            }
        }
        e
    }

    /// The state after `add_edge`'s three pushes is well-formed again.
    proof fn lemma_add_edge_wf(&self, prev: VecGraph, u: Node, v: Node, e: Edge)
        requires
            prev.wf(),
            u.0 < prev.nodes,
            v.0 < prev.nodes,
            2 * (prev.edges@.len() + 1) <= usize::MAX,
            e.0 == prev.edges@.len(),
            self.nodes == prev.nodes,
            self.edges@ == prev.edges@.push((u.0, v.0)),
            self.outs@[u.0 as int]@ == prev.outs@[u.0 as int]@.push((e.0, v.0)),
            self.ins@[v.0 as int]@ == prev.ins@[v.0 as int]@.push((e.0, u.0)),
            self.outs@.len() == prev.outs@.len(),
            self.ins@.len() == prev.ins@.len(),
            forall|w: int| 0 <= w < prev.nodes && w != u.0
                ==> #[trigger] self.outs@[w] == prev.outs@[w],
            forall|w: int| 0 <= w < prev.nodes && w != v.0
                ==> #[trigger] self.ins@[w] == prev.ins@[w],
        ensures
            self.wf(),
    {
        let m: int = prev.edges@.len() as int;
        assert forall|x: int| 0 <= x < self.edges@.len() implies
            self.outs@[(#[trigger] self.edges@[x]).0 as int]@.contains(
                (x as usize, self.edges@[x].1)) by {
            if x < m {
                let s: int = prev.edges@[x].0 as int;
                let i = choose|i: int|
                    0 <= i < prev.outs@[s]@.len()
                    && prev.outs@[s]@[i] == (x as usize, prev.edges@[x].1);
                assert(self.outs@[s]@[i] == (x as usize, self.edges@[x].1));
            } else {
                let s: int = u.0 as int;
                let i: int = prev.outs@[s]@.len() as int;
                assert(self.outs@[s]@[i] == (x as usize, self.edges@[x].1));
            }
        }
        assert forall|x: int| 0 <= x < self.edges@.len() implies
            self.ins@[(#[trigger] self.edges@[x]).1 as int]@.contains(
                (x as usize, self.edges@[x].0)) by {
            if x < m {
                let t: int = prev.edges@[x].1 as int;
                let i = choose|i: int|
                    0 <= i < prev.ins@[t]@.len()
                    && prev.ins@[t]@[i] == (x as usize, prev.edges@[x].0);
                assert(self.ins@[t]@[i] == (x as usize, self.edges@[x].0));
            } else {
                let t: int = v.0 as int;
                let i: int = prev.ins@[t]@.len() as int;
                assert(self.ins@[t]@[i] == (x as usize, self.edges@[x].0));
            }
        }
    }
}

/// Node attributes for a [`VecGraph`], stored densely by node
/// identifier.
pub struct VecNodeAttributes<Attr> {
    data: Vec<Attr>,
}

/// Edge attributes for a [`VecGraph`], stored densely by edge
/// identifier.
pub struct VecEdgeAttributes<Attr> {
    data: Vec<Attr>,
}

impl<Attr: Copy> VecNodeAttributes<Attr> {
    /// A container with one slot per node of `g`, all holding `init`.
    pub fn new(g: &VecGraph, init: Attr) -> (a: VecNodeAttributes<Attr>)
        requires
            g.wf(),
        ensures
            forall|u: Node| g.spec_valid_node(u)
                ==> #[trigger] a.spec_has_node(u) && a.spec_node(u) == init,
    {
        let n: usize = g.num_nodes();
        let mut data: Vec<Attr> = Vec::new();
        let mut k: usize = 0;
        while k < n
            invariant
                k <= n,
                data@.len() == k,
                forall|j: int| 0 <= j < k ==> #[trigger] data@[j] == init,
            decreases n - k,
        {
            data.push(init);
            k = k + 1;
        }
        proof {
            g.lemma_index_bijection();
        }
        VecNodeAttributes { data }
    }
}

impl<Attr> NodeAttributes<VecGraph, Attr> for VecNodeAttributes<Attr> {
    closed spec fn spec_has_node(&self, u: Node) -> bool {
        u.0 < self.data@.len()
    }

    closed spec fn spec_node(&self, u: Node) -> Attr {
        self.data@[u.0 as int]
    }

    fn node(&self, u: Node) -> (a: &Attr) {
        &self.data[u.0]
    }

    fn node_mut(&mut self, u: Node) -> (a: &mut Attr) {
        &mut self.data[u.0]
    }
}

impl<Attr: Copy> VecEdgeAttributes<Attr> {
    /// A container with one slot per edge of `g`, all holding `init`.
    pub fn new(g: &VecGraph, init: Attr) -> (a: VecEdgeAttributes<Attr>)
        requires
            g.wf(),
        ensures
            forall|e: Edge| g.spec_valid_edge(e)
                ==> #[trigger] a.spec_has_edge(e) && a.spec_edge(e) == init,
    {
        let m: usize = g.num_edges();
        let mut data: Vec<Attr> = Vec::new();
        let mut k: usize = 0;
        while k < m
            invariant
                k <= m,
                data@.len() == k,
                forall|j: int| 0 <= j < k ==> #[trigger] data@[j] == init,
            decreases m - k,
        {
            data.push(init);
            k = k + 1;
        }
        proof {
            g.lemma_index_bijection();
        }
        VecEdgeAttributes { data }
    }
}

impl<Attr> EdgeAttributes<VecGraph, Attr> for VecEdgeAttributes<Attr> {
    closed spec fn spec_has_edge(&self, e: Edge) -> bool {
        e.0 < self.data@.len()
    }

    closed spec fn spec_edge(&self, e: Edge) -> Attr {
        self.data@[e.0 as int]
    }

    fn edge(&self, e: Edge) -> (a: &Attr) {
        &self.data[e.0]
    }

    fn edge_mut(&mut self, e: Edge) -> (a: &mut Attr) {
        &mut self.data[e.0]
    }
}

/// A [`VecGraph`] owned together with a dense node attribute
/// container, splittable for traversal with mutation.
pub struct AttributedVecGraph<Attr> {
    g: VecGraph,
    attrs: VecNodeAttributes<Attr>,
}

impl<Attr> AttributedVecGraph<Attr> {
    /// Combine a graph and a node attribute container.
    pub fn new(g: VecGraph, attrs: VecNodeAttributes<Attr>) -> (r: AttributedVecGraph<Attr>)
        ensures
            r.spec_graph() == g,
            r.spec_attrs() == attrs,
    {
        AttributedVecGraph { g, attrs }
    }

    /// The attribute part of this object.
    pub closed spec fn spec_attrs(&self) -> VecNodeAttributes<Attr> {
        self.attrs
    }
}

impl<'a, Attr: 'a> AttributedGraph<'a> for AttributedVecGraph<Attr> {
    type Graph = VecGraph;

    type Attributes = &'a mut VecNodeAttributes<Attr>;

    closed spec fn spec_graph(&self) -> VecGraph {
        self.g
    }

    fn split(&'a mut self) -> (r: (&'a VecGraph, &'a mut VecNodeAttributes<Attr>)) {
        (&self.g, &mut self.attrs)
    }
}

} // verus!
