//! Capability traits for finite graphs.
//!
//! A graph is described by the subset of these traits it implements:
//! size and enumeration queries ([`FiniteGraph`]), oriented endpoints
//! ([`FiniteDigraph`]), neighbor enumeration ([`Undirected`]), outgoing,
//! incoming and incident enumeration ([`Directed`]) and a dense
//! identifier bijection ([`IndexGraph`]).  Algorithms state exactly the
//! capabilities they need as bounds.
//!
//! Traversal follows a context-passing protocol: a [`GraphIterator`]
//! holds only positional state and receives the graph as an explicit
//! argument on every step, so the graph stays free for other queries
//! while an iteration is in progress.
//!
//! Every operation is a total function over valid inputs; there is no
//! error reporting.  Passing a handle or identifier that does not
//! belong to the graph is a caller error, stated as the `requires`
//! clause of each method: callers must discharge it, and
//! implementations owe nothing when it is violated.

use vstd::prelude::*;

verus! {

/// A traversal object over a graph of type `G`.
///
/// The iterator captures no borrow of the graph; instead the graph is
/// handed to every step.  `remaining` is the abstract sequence of items
/// the iterator will still produce when driven with graph `g`; each
/// implementation defines it together with a consistency condition
/// `valid_for` that the producing graph establishes and every step
/// preserves.
pub trait GraphIterator<G>: Sized {
    type Item;

    /// The sequence of items this iterator will still produce on `g`.
    spec fn remaining(&self, g: &G) -> Seq<Self::Item>;

    /// The iterator is in a consistent state for graph `g`.
    spec fn valid_for(&self, g: &G) -> bool;

    /// Produce the next item, or `None` once exhausted (and forever after).
    fn next(&mut self, g: &G) -> (r: Option<Self::Item>)
        requires
            old(self).valid_for(g),
        ensures
            final(self).valid_for(g),
            match r {
                Option::Some(x) =>
                    old(self).remaining(g).len() > 0
                    && x == old(self).remaining(g)[0]
                    && final(self).remaining(g) == old(self).remaining(g).skip(1),
                Option::None =>
                    old(self).remaining(g).len() == 0
                    && final(self).remaining(g) == old(self).remaining(g),
            },
    ;

    /// A lower bound and an optional upper bound on the number of items left.
    fn size_hint(&self, g: &G) -> (r: (usize, Option<usize>))
        requires
            self.valid_for(g),
        ensures
            r.0 <= self.remaining(g).len(),
            match r.1 {
                Option::Some(hi) => self.remaining(g).len() <= hi,
                Option::None => true,
            },
    ;

    /// Consume the iterator and return the exact number of items left.
    fn count(self, g: &G) -> (n: usize)
        requires
            self.valid_for(g),
        ensures
            n == self.remaining(g).len(),
    ;
}

/// Associated node and edge handle types of a graph.
///
/// Handles are opaque, copyable keys; they carry no data and are only
/// meaningful for calls against the graph (or a view of the graph) that
/// produced them.
pub trait GraphType {
    type Node: Copy;
    type Edge: Copy;
}

/// A graph with finitely many nodes and edges.
pub trait FiniteGraph: GraphType + Sized {
    type NodeIt: GraphIterator<Self, Item = Self::Node>;
    type EdgeIt: GraphIterator<Self, Item = Self::Edge>;

    /// Structural well-formedness of this graph value.  Constructors of
    /// implementing types establish it and read-only queries keep it.
    spec fn wf(&self) -> bool;

    /// Number of nodes.
    spec fn spec_num_nodes(&self) -> nat;

    /// Number of edges.
    spec fn spec_num_edges(&self) -> nat;

    /// The stable enumeration order of all node handles.
    spec fn spec_nodes(&self) -> Seq<Self::Node>;

    /// The stable enumeration order of all edge handles.
    spec fn spec_edges(&self) -> Seq<Self::Edge>;

    /// `u` is a handle of this graph.
    spec fn spec_valid_node(&self, u: Self::Node) -> bool;

    /// `e` is a handle of this graph.
    spec fn spec_valid_edge(&self, e: Self::Edge) -> bool;

    /// The endpoint pair of edge `e`; the pair is unordered in the sense
    /// that only [`FiniteDigraph`] relates it to an orientation.
    spec fn spec_ends(&self, e: Self::Edge) -> (Self::Node, Self::Node);

    /// The enumerations are exact: they have the advertised lengths,
    /// produce valid handles, cover every valid handle and repeat none,
    /// and every edge connects valid nodes.
    proof fn lemma_enumeration(&self)
        requires
            self.wf(),
        ensures
            self.spec_nodes().len() == self.spec_num_nodes(),
            self.spec_edges().len() == self.spec_num_edges(),
            forall|i: int| 0 <= i < self.spec_nodes().len()
                ==> self.spec_valid_node(#[trigger] self.spec_nodes()[i]),
            forall|u: Self::Node| #[trigger] self.spec_valid_node(u)
                ==> self.spec_nodes().contains(u),
            forall|i: int, j: int| 0 <= i < j < self.spec_nodes().len()
                ==> #[trigger] self.spec_nodes()[i] != #[trigger] self.spec_nodes()[j],
            forall|i: int| 0 <= i < self.spec_edges().len()
                ==> self.spec_valid_edge(#[trigger] self.spec_edges()[i]),
            forall|e: Self::Edge| #[trigger] self.spec_valid_edge(e)
                ==> self.spec_edges().contains(e),
            forall|i: int, j: int| 0 <= i < j < self.spec_edges().len()
                ==> #[trigger] self.spec_edges()[i] != #[trigger] self.spec_edges()[j],
            forall|e: Self::Edge| #[trigger] self.spec_valid_edge(e)
                ==> self.spec_valid_node(self.spec_ends(e).0)
                    && self.spec_valid_node(self.spec_ends(e).1),
    ;

    fn num_nodes(&self) -> (n: usize)
        requires
            self.wf(),
        ensures
            n == self.spec_num_nodes(),
    ;

    fn num_edges(&self) -> (m: usize)
        requires
            self.wf(),
        ensures
            m == self.spec_num_edges(),
    ;

    /// A fresh traversal of all nodes, in the stable order `spec_nodes`.
    fn nodes_iter(&self) -> (it: Self::NodeIt)
        requires
            self.wf(),
        ensures
            it.valid_for(self),
            it.remaining(self) == self.spec_nodes(),
    ;

    /// A fresh traversal of all edges, in the stable order `spec_edges`.
    fn edges_iter(&self) -> (it: Self::EdgeIt)
        requires
            self.wf(),
        ensures
            it.valid_for(self),
            it.remaining(self) == self.spec_edges(),
    ;

    /// The endpoint pair of edge `e`.
    fn enodes(&self, e: Self::Edge) -> (uv: (Self::Node, Self::Node))
        requires
            self.wf(),
            self.spec_valid_edge(e),
        ensures
            uv == self.spec_ends(e),
    ;
}

/// A finite graph whose edges carry an orientation.
pub trait FiniteDigraph: FiniteGraph {
    /// The source node of edge `e`.
    spec fn spec_src(&self, e: Self::Edge) -> Self::Node;

    /// The sink node of edge `e`.
    spec fn spec_snk(&self, e: Self::Edge) -> Self::Node;

    /// The unordered endpoint pair is the oriented pair, in one of the
    /// two orders.
    proof fn lemma_endpoints(&self, e: Self::Edge)
        requires
            self.wf(),
            self.spec_valid_edge(e),
        ensures
            self.spec_ends(e) == (self.spec_src(e), self.spec_snk(e))
            || self.spec_ends(e) == (self.spec_snk(e), self.spec_src(e)),
    ;

    fn src(&self, e: Self::Edge) -> (u: Self::Node)
        requires
            self.wf(),
            self.spec_valid_edge(e),
        ensures
            u == self.spec_src(e),
    ;

    fn snk(&self, e: Self::Edge) -> (v: Self::Node)
        requires
            self.wf(),
            self.spec_valid_edge(e),
        ensures
            v == self.spec_snk(e),
    ;
}

/// A finite graph with undirected neighbor enumeration.
pub trait Undirected: FiniteGraph {
    type NeighIt: GraphIterator<Self, Item = (Self::Edge, Self::Node)>;

    /// The `(edge, neighbor)` records of all edges incident to `u`, in
    /// the order `neigh_iter` produces them.  A self-loop at `u`
    /// contributes one record per incidence, each with neighbor `u`.
    spec fn spec_neighs(&self, u: Self::Node) -> Seq<(Self::Edge, Self::Node)>;

    /// Every record of `spec_neighs(u)` is an edge with endpoints `u`
    /// and the recorded neighbor, and every incidence of a valid edge is
    /// recorded at both of its endpoints.
    proof fn lemma_neighs(&self)
        requires
            self.wf(),
        ensures
            forall|u: Self::Node, i: int|
                self.spec_valid_node(u) && 0 <= i < self.spec_neighs(u).len()
                ==> self.spec_valid_edge((#[trigger] self.spec_neighs(u)[i]).0)
                    && (self.spec_ends(self.spec_neighs(u)[i].0)
                            == (u, self.spec_neighs(u)[i].1)
                        || self.spec_ends(self.spec_neighs(u)[i].0)
                            == (self.spec_neighs(u)[i].1, u)),
            forall|e: Self::Edge| #[trigger] self.spec_valid_edge(e)
                ==> self.spec_neighs(self.spec_ends(e).0).contains((e, self.spec_ends(e).1))
                    && self.spec_neighs(self.spec_ends(e).1).contains((e, self.spec_ends(e).0)),
    ;

    /// A fresh traversal of the `(edge, neighbor)` records at `u`.
    fn neigh_iter(&self, u: Self::Node) -> (it: Self::NeighIt)
        requires
            self.wf(),
            self.spec_valid_node(u),
        ensures
            it.valid_for(self),
            it.remaining(self) == self.spec_neighs(u),
    ;
}

/// A half-edge: an edge handle together with the orientation under
/// which it was reached from a node.  Exactly one of `is_outgoing` and
/// `is_incoming` holds.
pub trait DirectedEdge: Sized {
    type Edge: Copy;

    /// The half-edge points away from the node it was enumerated at.
    spec fn spec_is_outgoing(&self) -> bool;

    /// The underlying plain edge handle.
    spec fn spec_edge(&self) -> Self::Edge;

    fn is_incoming(&self) -> (b: bool)
        ensures
            b == !self.spec_is_outgoing(),
    ;

    fn is_outgoing(&self) -> (b: bool)
        ensures
            b == self.spec_is_outgoing(),
    ;

    fn edge(&self) -> (e: Self::Edge)
        ensures
            e == self.spec_edge(),
    ;
}

/// The spec view of one incidence record: orientation flag, plain edge
/// handle and neighbor.
pub open spec fn directed_item_view<D: DirectedEdge, N>(x: (D, N)) -> (bool, D::Edge, N) {
    (x.0.spec_is_outgoing(), x.0.spec_edge(), x.1)
}

/// The spec view of a sequence of incidence records.
pub open spec fn directed_items_view<D: DirectedEdge, N>(s: Seq<(D, N)>) -> Seq<(bool, D::Edge, N)> {
    s.map_values(|x: (D, N)| directed_item_view::<D, N>(x))
}

/// A finite digraph with oriented adjacency enumeration.
pub trait Directed: FiniteDigraph {
    type OutIt: GraphIterator<Self, Item = (Self::Edge, Self::Node)>;
    type InIt: GraphIterator<Self, Item = (Self::Edge, Self::Node)>;
    type DirectedEdge: DirectedEdge<Edge = Self::Edge>;
    type IncidentIt: GraphIterator<Self, Item = (Self::DirectedEdge, Self::Node)>;

    /// The `(edge, neighbor)` records of the edges leaving `u`, in the
    /// order `out_iter` produces them.
    spec fn spec_outs(&self, u: Self::Node) -> Seq<(Self::Edge, Self::Node)>;

    /// The `(edge, neighbor)` records of the edges entering `u`, in the
    /// order `in_iter` produces them.
    spec fn spec_ins(&self, u: Self::Node) -> Seq<(Self::Edge, Self::Node)>;

    /// The `(is_outgoing, edge, neighbor)` records of all incidences at
    /// `u`, in the order `incident_iter` produces them.
    spec fn spec_incidents(&self, u: Self::Node) -> Seq<(bool, Self::Edge, Self::Node)>;

    /// The oriented adjacency records are exact: a record of
    /// `spec_outs(u)` is an edge with source `u` and sink the recorded
    /// neighbor (symmetrically for `spec_ins`), no edge is recorded
    /// twice at a node with the same orientation, every valid edge is
    /// recorded at both its source and its sink, and the incidence
    /// records are exactly the outgoing and incoming records with their
    /// orientation flags.
    proof fn lemma_adjacency(&self)
        requires
            self.wf(),
        ensures
            forall|u: Self::Node, i: int|
                self.spec_valid_node(u) && 0 <= i < self.spec_outs(u).len()
                ==> self.spec_valid_edge((#[trigger] self.spec_outs(u)[i]).0)
                    && self.spec_src(self.spec_outs(u)[i].0) == u
                    && self.spec_snk(self.spec_outs(u)[i].0) == self.spec_outs(u)[i].1,
            forall|u: Self::Node, i: int, j: int|
                self.spec_valid_node(u) && 0 <= i < j < self.spec_outs(u).len()
                ==> (#[trigger] self.spec_outs(u)[i]).0 != (#[trigger] self.spec_outs(u)[j]).0,
            forall|e: Self::Edge| #[trigger] self.spec_valid_edge(e)
                ==> self.spec_outs(self.spec_src(e)).contains((e, self.spec_snk(e))),
            forall|u: Self::Node, i: int|
                self.spec_valid_node(u) && 0 <= i < self.spec_ins(u).len()
                ==> self.spec_valid_edge((#[trigger] self.spec_ins(u)[i]).0)
                    && self.spec_snk(self.spec_ins(u)[i].0) == u
                    && self.spec_src(self.spec_ins(u)[i].0) == self.spec_ins(u)[i].1,
            forall|u: Self::Node, i: int, j: int|
                self.spec_valid_node(u) && 0 <= i < j < self.spec_ins(u).len()
                ==> (#[trigger] self.spec_ins(u)[i]).0 != (#[trigger] self.spec_ins(u)[j]).0,
            forall|e: Self::Edge| #[trigger] self.spec_valid_edge(e)
                ==> self.spec_ins(self.spec_snk(e)).contains((e, self.spec_src(e))),
            forall|u: Self::Node, i: int|
                self.spec_valid_node(u) && 0 <= i < self.spec_incidents(u).len()
                ==> self.spec_valid_edge((#[trigger] self.spec_incidents(u)[i]).1)
                    && (self.spec_incidents(u)[i].0
                        ==> self.spec_src(self.spec_incidents(u)[i].1) == u
                            && self.spec_snk(self.spec_incidents(u)[i].1)
                                == self.spec_incidents(u)[i].2)
                    && (!self.spec_incidents(u)[i].0
                        ==> self.spec_snk(self.spec_incidents(u)[i].1) == u
                            && self.spec_src(self.spec_incidents(u)[i].1)
                                == self.spec_incidents(u)[i].2),
            forall|u: Self::Node, i: int, j: int|
                self.spec_valid_node(u) && 0 <= i < j < self.spec_incidents(u).len()
                ==> !((#[trigger] self.spec_incidents(u)[i]).0
                        == (#[trigger] self.spec_incidents(u)[j]).0
                    && self.spec_incidents(u)[i].1 == self.spec_incidents(u)[j].1),
            forall|e: Self::Edge| #[trigger] self.spec_valid_edge(e)
                ==> self.spec_incidents(self.spec_src(e)).contains((true, e, self.spec_snk(e)))
                    && self.spec_incidents(self.spec_snk(e)).contains(
                        (false, e, self.spec_src(e))),
    ;

    /// A fresh traversal of the edges leaving `u`.
    fn out_iter(&self, u: Self::Node) -> (it: Self::OutIt)
        requires
            self.wf(),
            self.spec_valid_node(u),
        ensures
            it.valid_for(self),
            it.remaining(self) == self.spec_outs(u),
    ;

    /// A fresh traversal of the edges entering `u`.
    fn in_iter(&self, u: Self::Node) -> (it: Self::InIt)
        requires
            self.wf(),
            self.spec_valid_node(u),
        ensures
            it.valid_for(self),
            it.remaining(self) == self.spec_ins(u),
    ;

    /// A fresh traversal of all incidences at `u`, each as a half-edge
    /// whose flag says whether `u` is its source, with the neighbor.
    fn incident_iter(&self, u: Self::Node) -> (it: Self::IncidentIt)
        requires
            self.wf(),
            self.spec_valid_node(u),
        ensures
            it.valid_for(self),
            directed_items_view(it.remaining(self)) == self.spec_incidents(u),
    ;
}

/// A finite graph whose handles are in bijection with dense zero-based
/// integer identifiers, usable as indices of auxiliary arrays.
pub trait IndexGraph: FiniteGraph {
    /// The identifier of node `u`.
    spec fn spec_node_id(&self, u: Self::Node) -> int;

    /// The node with identifier `id`.
    spec fn spec_id2node(&self, id: int) -> Self::Node;

    /// The identifier of edge `e`.
    spec fn spec_edge_id(&self, e: Self::Edge) -> int;

    /// The edge with identifier `id`.
    spec fn spec_id2edge(&self, id: int) -> Self::Edge;

    /// Node identifiers range over `[0, num_nodes)` and edge identifiers
    /// over `[0, num_edges)`, and both assignments are bijections.
    proof fn lemma_index_bijection(&self)
        requires
            self.wf(),
        ensures
            forall|u: Self::Node| #[trigger] self.spec_valid_node(u)
                ==> 0 <= self.spec_node_id(u) < self.spec_num_nodes()
                    && self.spec_id2node(self.spec_node_id(u)) == u,
            forall|id: int| 0 <= id < self.spec_num_nodes()
                ==> self.spec_valid_node(#[trigger] self.spec_id2node(id))
                    && self.spec_node_id(self.spec_id2node(id)) == id,
            forall|e: Self::Edge| #[trigger] self.spec_valid_edge(e)
                ==> 0 <= self.spec_edge_id(e) < self.spec_num_edges()
                    && self.spec_id2edge(self.spec_edge_id(e)) == e,
            forall|id: int| 0 <= id < self.spec_num_edges()
                ==> self.spec_valid_edge(#[trigger] self.spec_id2edge(id))
                    && self.spec_edge_id(self.spec_id2edge(id)) == id,
    ;

    fn node_id(&self, u: Self::Node) -> (id: usize)
        requires
            self.wf(),
            self.spec_valid_node(u),
        ensures
            id == self.spec_node_id(u),
    ;

    fn id2node(&self, id: usize) -> (u: Self::Node)
        requires
            self.wf(),
            id < self.spec_num_nodes(),
        ensures
            u == self.spec_id2node(id as int),
    ;

    fn edge_id(&self, e: Self::Edge) -> (id: usize)
        requires
            self.wf(),
            self.spec_valid_edge(e),
        ensures
            id == self.spec_edge_id(e),
    ;

    fn id2edge(&self, id: usize) -> (e: Self::Edge)
        requires
            self.wf(),
            id < self.spec_num_edges(),
        ensures
            e == self.spec_id2edge(id as int),
    ;
}

} // verus!
