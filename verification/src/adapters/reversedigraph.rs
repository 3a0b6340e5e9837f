//! Reverse the direction of the edges of a digraph.
//!
//! [`reverse`] borrows a digraph and returns a [`ReverseDigraph`] view
//! in which every edge's orientation is flipped: sources become sinks,
//! outgoing adjacency becomes incoming adjacency and vice versa.  Node
//! and edge handles, identifiers, counts and undirected adjacency pass
//! through unchanged, and nothing is copied.

use vstd::prelude::*;

verus! {

use crate::traits::{
    Directed, DirectedEdge, FiniteDigraph, FiniteGraph, GraphIterator, GraphType, IndexGraph,
    Undirected, directed_items_view,
};

/// A digraph wrapping a borrowed graph with every edge in the opposite
/// direction.
///
/// The sets of outgoing and incoming edges are swapped, so incoming
/// edges become outgoing edges and vice versa.  Handles and identifiers
/// are those of the wrapped graph.
#[derive(Clone, Copy)]
pub struct ReverseDigraph<'a, G>(&'a G);

/// A half-edge of a [`ReverseDigraph`]: the wrapped graph's half-edge
/// with its orientation flag inverted.
#[derive(Clone, Copy, PartialEq, Eq)]
pub struct ReverseDirectedEdge<E>(E);

/// An iterator of the wrapped graph, replayed against the view.
#[derive(Clone)]
pub struct ReverseWrapIt<I>(I);

/// An incidence iterator of the wrapped graph, replayed against the
/// view with every half-edge's orientation inverted.
#[derive(Clone)]
pub struct ReverseIncidentIt<I>(I);

/// Present `g` with all edge directions reversed.
pub fn reverse<'a, G: Directed>(g: &'a G) -> (r: ReverseDigraph<'a, G>)
    ensures
        r.inner() == *g,
{
    ReverseDigraph(g)
}

impl<'a, G> ReverseDigraph<'a, G> {
    /// The wrapped graph.
    pub closed spec fn inner(&self) -> G {
        *self.0
    }
}

impl<'a, G, I> GraphIterator<ReverseDigraph<'a, G>> for ReverseWrapIt<I> where
    I: GraphIterator<G>,
 {
    type Item = I::Item;

    closed spec fn remaining(&self, g: &ReverseDigraph<'a, G>) -> Seq<I::Item> {
        self.0.remaining(g.0)
    }

    closed spec fn valid_for(&self, g: &ReverseDigraph<'a, G>) -> bool {
        self.0.valid_for(g.0)
    }

    fn next(&mut self, g: &ReverseDigraph<'a, G>) -> (r: Option<I::Item>) {
        self.0.next(g.0)
    }

    fn size_hint(&self, g: &ReverseDigraph<'a, G>) -> (r: (usize, Option<usize>)) {
        self.0.size_hint(g.0)
    }

    fn count(self, g: &ReverseDigraph<'a, G>) -> (n: usize) {
        self.0.count(g.0)
    }
}

impl<E> DirectedEdge for ReverseDirectedEdge<E> where E: DirectedEdge {
    type Edge = E::Edge;

    closed spec fn spec_is_outgoing(&self) -> bool {
        !self.0.spec_is_outgoing()
    }

    closed spec fn spec_edge(&self) -> E::Edge {
        self.0.spec_edge()
    }

    fn is_incoming(&self) -> (b: bool) {
        self.0.is_outgoing()
    }

    fn is_outgoing(&self) -> (b: bool) {
        self.0.is_incoming()
    }

    fn edge(&self) -> (e: E::Edge) {
        self.0.edge()
    }
}

impl<'g, G> GraphType for ReverseDigraph<'g, G> where G: GraphType {
    type Node = G::Node;

    type Edge = G::Edge;
}

impl<'g, G> FiniteGraph for ReverseDigraph<'g, G> where G: FiniteGraph {
    type NodeIt = ReverseWrapIt<G::NodeIt>;

    type EdgeIt = ReverseWrapIt<G::EdgeIt>;

    closed spec fn wf(&self) -> bool {
        (*self.0).wf()
    }

    closed spec fn spec_num_nodes(&self) -> nat {
        (*self.0).spec_num_nodes()
    }

    closed spec fn spec_num_edges(&self) -> nat {
        (*self.0).spec_num_edges()
    }

    closed spec fn spec_nodes(&self) -> Seq<G::Node> {
        (*self.0).spec_nodes()
    }

    closed spec fn spec_edges(&self) -> Seq<G::Edge> {
        (*self.0).spec_edges()
    }

    closed spec fn spec_valid_node(&self, u: G::Node) -> bool {
        (*self.0).spec_valid_node(u)
    }

    closed spec fn spec_valid_edge(&self, e: G::Edge) -> bool {
        (*self.0).spec_valid_edge(e)
    }

    closed spec fn spec_ends(&self, e: G::Edge) -> (G::Node, G::Node) {
        (*self.0).spec_ends(e)
    }

    proof fn lemma_enumeration(&self) {
        self.0.lemma_enumeration();
    }

    fn num_nodes(&self) -> (n: usize) {
        self.0.num_nodes()
    }

    fn num_edges(&self) -> (m: usize) {
        self.0.num_edges()
    }

    fn nodes_iter(&self) -> (it: ReverseWrapIt<G::NodeIt>) {
        ReverseWrapIt(self.0.nodes_iter())
    }

    fn edges_iter(&self) -> (it: ReverseWrapIt<G::EdgeIt>) {
        ReverseWrapIt(self.0.edges_iter())
    }

    fn enodes(&self, e: G::Edge) -> (uv: (G::Node, G::Node)) {
        self.0.enodes(e)
    }
}

impl<'g, G> FiniteDigraph for ReverseDigraph<'g, G> where G: FiniteDigraph {
    closed spec fn spec_src(&self, e: G::Edge) -> G::Node {
        (*self.0).spec_snk(e)
    }

    closed spec fn spec_snk(&self, e: G::Edge) -> G::Node {
        (*self.0).spec_src(e)
    }

    proof fn lemma_endpoints(&self, e: G::Edge) {
        self.0.lemma_endpoints(e);
    }

    fn src(&self, e: G::Edge) -> (u: G::Node) {
        self.0.snk(e)
    }

    fn snk(&self, e: G::Edge) -> (v: G::Node) {
        self.0.src(e)
    }
}

impl<'g, G> Undirected for ReverseDigraph<'g, G> where G: Undirected {
    type NeighIt = ReverseWrapIt<G::NeighIt>;

    closed spec fn spec_neighs(&self, u: G::Node) -> Seq<(G::Edge, G::Node)> {
        (*self.0).spec_neighs(u)
    }

    proof fn lemma_neighs(&self) {
        self.0.lemma_neighs();
    }

    fn neigh_iter(&self, u: G::Node) -> (it: ReverseWrapIt<G::NeighIt>) {
        ReverseWrapIt(self.0.neigh_iter(u))
    }
}

impl<'g, G> IndexGraph for ReverseDigraph<'g, G> where G: IndexGraph {
    closed spec fn spec_node_id(&self, u: G::Node) -> int {
        (*self.0).spec_node_id(u)
    }

    closed spec fn spec_id2node(&self, id: int) -> G::Node {
        (*self.0).spec_id2node(id)
    }

    closed spec fn spec_edge_id(&self, e: G::Edge) -> int {
        (*self.0).spec_edge_id(e)
    }

    closed spec fn spec_id2edge(&self, id: int) -> G::Edge {
        (*self.0).spec_id2edge(id)
    }

    proof fn lemma_index_bijection(&self) {
        self.0.lemma_index_bijection();
    }

    fn node_id(&self, u: G::Node) -> (id: usize) {
        self.0.node_id(u)
    }

    fn id2node(&self, id: usize) -> (u: G::Node) {
        self.0.id2node(id)
    }

    fn edge_id(&self, e: G::Edge) -> (id: usize) {
        self.0.edge_id(e)
    }

    fn id2edge(&self, id: usize) -> (e: G::Edge) {
        self.0.id2edge(id)
    }
}

/// Invert the orientation flag of one incidence record view.
pub open spec fn flip_record<E, N>(t: (bool, E, N)) -> (bool, E, N) {
    (!t.0, t.1, t.2)
}

/// Invert the orientation flag of every incidence record view.
pub open spec fn flip_records<E, N>(s: Seq<(bool, E, N)>) -> Seq<(bool, E, N)> {
    s.map_values(|t: (bool, E, N)| flip_record::<E, N>(t))
}

impl<'a, G, I, N, D> GraphIterator<ReverseDigraph<'a, G>> for ReverseIncidentIt<I> where
    I: GraphIterator<G, Item = (D, N)>,
    D: DirectedEdge,
 {
    type Item = (ReverseDirectedEdge<D>, N);

    closed spec fn remaining(&self, g: &ReverseDigraph<'a, G>) -> Seq<(ReverseDirectedEdge<D>, N)> {
        self.0.remaining(g.0).map_values(|x: (D, N)| (ReverseDirectedEdge(x.0), x.1))
    }

    closed spec fn valid_for(&self, g: &ReverseDigraph<'a, G>) -> bool {
        self.0.valid_for(g.0)
    }

    fn next(&mut self, g: &ReverseDigraph<'a, G>) -> (r: Option<(ReverseDirectedEdge<D>, N)>) {
        let r = self.0.next(g.0);
        match r {
            Option::Some((e, v)) => {
                proof {
                    assert(self.remaining(g) =~= old(self).remaining(g).skip(1));
                }
                Option::Some((ReverseDirectedEdge(e), v))
            },
            Option::None => Option::None,
        }
    }

    fn size_hint(&self, g: &ReverseDigraph<'a, G>) -> (r: (usize, Option<usize>)) {
        self.0.size_hint(g.0)
    }

    fn count(self, g: &ReverseDigraph<'a, G>) -> (n: usize) {
        self.0.count(g.0)
    }
}

impl<'g, G> Directed for ReverseDigraph<'g, G> where G: Directed {
    type OutIt = ReverseWrapIt<G::InIt>;

    type InIt = ReverseWrapIt<G::OutIt>;

    type DirectedEdge = ReverseDirectedEdge<G::DirectedEdge>;

    type IncidentIt = ReverseIncidentIt<G::IncidentIt>;

    closed spec fn spec_outs(&self, u: G::Node) -> Seq<(G::Edge, G::Node)> {
        (*self.0).spec_ins(u)
    }

    closed spec fn spec_ins(&self, u: G::Node) -> Seq<(G::Edge, G::Node)> {
        (*self.0).spec_outs(u)
    }

    closed spec fn spec_incidents(&self, u: G::Node) -> Seq<(bool, G::Edge, G::Node)> {
        flip_records((*self.0).spec_incidents(u))
    }

    proof fn lemma_adjacency(&self) {
        self.0.lemma_adjacency();
        assert forall|e: G::Edge| #[trigger] self.spec_valid_edge(e) implies
            self.spec_incidents(self.spec_src(e)).contains((true, e, self.spec_snk(e)))
            && self.spec_incidents(self.spec_snk(e)).contains((false, e, self.spec_src(e))) by {
            let g = *self.0;
            let s = g.spec_src(e);
            let t = g.spec_snk(e);
            let i = choose|i: int|
                0 <= i < g.spec_incidents(t).len() && g.spec_incidents(t)[i] == (false, e, s);
            assert(self.spec_incidents(t)[i] == (true, e, s));
            let j = choose|j: int|
                0 <= j < g.spec_incidents(s).len() && g.spec_incidents(s)[j] == (true, e, t);
            assert(self.spec_incidents(s)[j] == (false, e, t));
        }
    }

    fn out_iter(&self, u: G::Node) -> (it: ReverseWrapIt<G::InIt>) {
        ReverseWrapIt(self.0.in_iter(u))
    }

    fn in_iter(&self, u: G::Node) -> (it: ReverseWrapIt<G::OutIt>) {
        ReverseWrapIt(self.0.out_iter(u))
    }

    fn incident_iter(&self, u: G::Node) -> (it: ReverseIncidentIt<G::IncidentIt>) {
        let it = ReverseIncidentIt(self.0.incident_iter(u));
        proof {
            assert(directed_items_view(it.remaining(self)) =~= self.spec_incidents(u));
        }
        it
    }
}

/// Reversal keeps the graph itself intact: well-formedness, node and
/// edge counts, the enumeration orders, handle validity and the
/// unordered endpoint pairs of the view are those of the wrapped graph.
pub proof fn lemma_reverse_finite<'a, G: FiniteGraph>(r: ReverseDigraph<'a, G>)
    ensures
        r.wf() == r.inner().wf(),
        r.spec_num_nodes() == r.inner().spec_num_nodes(),
        r.spec_num_edges() == r.inner().spec_num_edges(),
        r.spec_nodes() == r.inner().spec_nodes(),
        r.spec_edges() == r.inner().spec_edges(),
        forall|u: G::Node| #[trigger] r.spec_valid_node(u) == r.inner().spec_valid_node(u),
        forall|e: G::Edge| #[trigger] r.spec_valid_edge(e) == r.inner().spec_valid_edge(e),
        forall|e: G::Edge| #[trigger] r.spec_ends(e) == r.inner().spec_ends(e),
{
}

/// Reversal swaps the oriented endpoints of every edge: the source of
/// the view is the sink of the wrapped graph and vice versa.
pub proof fn lemma_reverse_src_snk<'a, G: FiniteDigraph>(r: ReverseDigraph<'a, G>)
    ensures
        forall|e: G::Edge| #[trigger] r.spec_src(e) == r.inner().spec_snk(e),
        forall|e: G::Edge| #[trigger] r.spec_snk(e) == r.inner().spec_src(e),
{
}

/// Reversal swaps outgoing and incoming adjacency record for record,
/// and keeps each incidence record up to the inversion of its
/// orientation flag.
pub proof fn lemma_reverse_adjacency<'a, G: Directed>(r: ReverseDigraph<'a, G>)
    ensures
        forall|u: G::Node| #[trigger] r.spec_outs(u) == r.inner().spec_ins(u),
        forall|u: G::Node| #[trigger] r.spec_ins(u) == r.inner().spec_outs(u),
        forall|u: G::Node|
            #[trigger] r.spec_incidents(u) == flip_records(r.inner().spec_incidents(u)),
{
}

/// Reversal does not apply to undirected adjacency: the neighbor
/// records of the view are those of the wrapped graph.
pub proof fn lemma_reverse_undirected<'a, G: Undirected>(r: ReverseDigraph<'a, G>)
    ensures
        forall|u: G::Node| #[trigger] r.spec_neighs(u) == r.inner().spec_neighs(u),
{
}

/// Reversal leaves the identifier bijection untouched in both
/// directions, for nodes and for edges.
pub proof fn lemma_reverse_index<'a, G: IndexGraph>(r: ReverseDigraph<'a, G>)
    ensures
        forall|u: G::Node| #[trigger] r.spec_node_id(u) == r.inner().spec_node_id(u),
        forall|id: int| #[trigger] r.spec_id2node(id) == r.inner().spec_id2node(id),
        forall|e: G::Edge| #[trigger] r.spec_edge_id(e) == r.inner().spec_edge_id(e),
        forall|id: int| #[trigger] r.spec_id2edge(id) == r.inner().spec_id2edge(id),
{
}

/// Reversing twice is observationally the wrapped graph: every query
/// of the directed capability set answers on the double view exactly
/// as on the graph itself.
pub proof fn lemma_double_reverse<'a, 'b, G: Directed>(
    rr: ReverseDigraph<'a, ReverseDigraph<'b, G>>,
)
    ensures
        rr.wf() == rr.inner().inner().wf(),
        rr.spec_num_nodes() == rr.inner().inner().spec_num_nodes(),
        rr.spec_num_edges() == rr.inner().inner().spec_num_edges(),
        rr.spec_nodes() == rr.inner().inner().spec_nodes(),
        rr.spec_edges() == rr.inner().inner().spec_edges(),
        forall|u: G::Node|
            #[trigger] rr.spec_valid_node(u) == rr.inner().inner().spec_valid_node(u),
        forall|e: G::Edge|
            #[trigger] rr.spec_valid_edge(e) == rr.inner().inner().spec_valid_edge(e),
        forall|e: G::Edge| #[trigger] rr.spec_ends(e) == rr.inner().inner().spec_ends(e),
        forall|e: G::Edge| #[trigger] rr.spec_src(e) == rr.inner().inner().spec_src(e),
        forall|e: G::Edge| #[trigger] rr.spec_snk(e) == rr.inner().inner().spec_snk(e),
        forall|u: G::Node| #[trigger] rr.spec_outs(u) == rr.inner().inner().spec_outs(u),
        forall|u: G::Node| #[trigger] rr.spec_ins(u) == rr.inner().inner().spec_ins(u),
        forall|u: G::Node|
            #[trigger] rr.spec_incidents(u) == rr.inner().inner().spec_incidents(u),
{
    let g = rr.inner().inner();
    assert forall|u: G::Node| #[trigger] rr.spec_incidents(u) == g.spec_incidents(u) by {
        assert(rr.spec_incidents(u) =~= g.spec_incidents(u));
    }
}

/// Reversing twice also leaves undirected adjacency untouched.
pub proof fn lemma_double_reverse_undirected<'a, 'b, G: Undirected>(
    rr: ReverseDigraph<'a, ReverseDigraph<'b, G>>,
)
    ensures
        forall|u: G::Node| #[trigger] rr.spec_neighs(u) == rr.inner().inner().spec_neighs(u),
{
}

/// Reversing twice also leaves the identifier bijection untouched.
pub proof fn lemma_double_reverse_index<'a, 'b, G: IndexGraph>(
    rr: ReverseDigraph<'a, ReverseDigraph<'b, G>>,
)
    ensures
        forall|u: G::Node|
            #[trigger] rr.spec_node_id(u) == rr.inner().inner().spec_node_id(u),
        forall|id: int| #[trigger] rr.spec_id2node(id) == rr.inner().inner().spec_id2node(id),
        forall|e: G::Edge|
            #[trigger] rr.spec_edge_id(e) == rr.inner().inner().spec_edge_id(e),
        forall|id: int| #[trigger] rr.spec_id2edge(id) == rr.inner().inner().spec_id2edge(id),
{
}

} // verus!
