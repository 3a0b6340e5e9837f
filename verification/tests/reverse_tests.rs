use rs_graph::attributes::AttributedGraph;
use rs_graph::attributes::EdgeAttributes;
use rs_graph::attributes::NodeAttributes;
use rs_graph::reverse;
use rs_graph::traits::Directed;
use rs_graph::traits::DirectedEdge;
use rs_graph::traits::FiniteDigraph;
use rs_graph::traits::FiniteGraph;
use rs_graph::traits::GraphIterator;
use rs_graph::traits::IndexGraph;
use rs_graph::traits::Undirected;
use rs_graph::vecgraph::AttributedVecGraph;
use rs_graph::vecgraph::VecEdgeAttributes;
use rs_graph::vecgraph::VecGraph;
use rs_graph::vecgraph::VecNodeAttributes;

/// A star digraph: node 0 is the center, edges go center -> leaf.
fn star(leaves: usize) -> VecGraph {
    let mut g = VecGraph::new(leaves + 1);
    for i in 1..=leaves {
        let c = g.id2node(0);
        let l = g.id2node(i);
        g.add_edge(c, l);
    }
    g
}

/// A small sample digraph with a parallel edge and a self-loop.
fn sample() -> VecGraph {
    let mut g = VecGraph::new(4);
    let n0 = g.id2node(0);
    let n1 = g.id2node(1);
    let n2 = g.id2node(2);
    let n3 = g.id2node(3);
    g.add_edge(n0, n1);
    g.add_edge(n1, n2);
    g.add_edge(n1, n2);
    g.add_edge(n2, n0);
    g.add_edge(n3, n3);
    g.add_edge(n0, n3);
    g
}

/// Drain an out/in/neigh iterator into `(edge id, neighbor id)` pairs.
fn collect_pairs<G, I>(g: &G, mut it: I) -> Vec<(usize, usize)>
where
    G: IndexGraph,
    I: GraphIterator<G, Item = (G::Edge, G::Node)>,
{
    let mut res = Vec::new();
    while let Some((e, v)) = it.next(g) {
        res.push((g.edge_id(e), g.node_id(v)));
    }
    res
}

/// Drain an incident iterator into `(edge id, is_outgoing, neighbor id)`.
fn collect_incidents<G, I, D>(g: &G, mut it: I) -> Vec<(usize, bool, usize)>
where
    G: IndexGraph,
    D: DirectedEdge<Edge = G::Edge>,
    I: GraphIterator<G, Item = (D, G::Node)>,
{
    let mut res = Vec::new();
    while let Some((d, v)) = it.next(g) {
        assert_eq!(d.is_outgoing(), !d.is_incoming());
        res.push((g.edge_id(d.edge()), d.is_outgoing(), g.node_id(v)));
    }
    res
}

#[test]
fn reverse_keeps_counts() {
    let g = sample();
    let r = reverse(&g);
    assert_eq!(r.num_nodes(), g.num_nodes());
    assert_eq!(r.num_edges(), g.num_edges());
    assert_eq!(r.num_nodes(), 4);
    assert_eq!(r.num_edges(), 6);
}

#[test]
fn reverse_swaps_src_and_snk() {
    let g = sample();
    let r = reverse(&g);
    let mut it = g.edges_iter();
    while let Some(e) = it.next(&g) {
        assert_eq!(r.node_id(r.src(e)), g.node_id(g.snk(e)));
        assert_eq!(r.node_id(r.snk(e)), g.node_id(g.src(e)));
    }
}

#[test]
fn reverse_swaps_out_and_in() {
    let g = sample();
    let r = reverse(&g);
    for id in 0..g.num_nodes() {
        let u = g.id2node(id);
        let mut out_r = collect_pairs(&r, r.out_iter(u));
        let mut in_g = collect_pairs(&g, g.in_iter(u));
        out_r.sort();
        in_g.sort();
        assert_eq!(out_r, in_g);
        let mut in_r = collect_pairs(&r, r.in_iter(u));
        let mut out_g = collect_pairs(&g, g.out_iter(u));
        in_r.sort();
        out_g.sort();
        assert_eq!(in_r, out_g);
    }
}

#[test]
fn reverse_flips_incident_flags() {
    let g = sample();
    let r = reverse(&g);
    for id in 0..g.num_nodes() {
        let u = g.id2node(id);
        let inc_g = collect_incidents(&g, g.incident_iter(u));
        let inc_r = collect_incidents(&r, r.incident_iter(u));
        assert_eq!(inc_g.len(), inc_r.len());
        let mut flipped: Vec<(usize, bool, usize)> =
            inc_g.iter().map(|&(e, out, v)| (e, !out, v)).collect();
        let mut got = inc_r.clone();
        flipped.sort();
        got.sort();
        assert_eq!(got, flipped);
    }
}

#[test]
fn reverse_keeps_identifiers() {
    let g = sample();
    let r = reverse(&g);
    for id in 0..g.num_nodes() {
        let u = r.id2node(id);
        assert_eq!(r.node_id(u), id);
        assert_eq!(r.node_id(u), g.node_id(g.id2node(id)));
    }
    for id in 0..g.num_edges() {
        let e = r.id2edge(id);
        assert_eq!(r.edge_id(e), id);
        assert_eq!(r.edge_id(e), g.edge_id(g.id2edge(id)));
    }
}

#[test]
fn reverse_keeps_undirected_neighbors() {
    let g = sample();
    let r = reverse(&g);
    for id in 0..g.num_nodes() {
        let u = g.id2node(id);
        let n_g = collect_pairs(&g, g.neigh_iter(u));
        let n_r = collect_pairs(&r, r.neigh_iter(u));
        assert_eq!(n_g, n_r);
    }
}

#[test]
fn reverse_keeps_enodes_and_enumeration() {
    let g = sample();
    let r = reverse(&g);
    let mut nodes_g = Vec::new();
    let mut it = g.nodes_iter();
    while let Some(u) = it.next(&g) {
        nodes_g.push(g.node_id(u));
    }
    let mut nodes_r = Vec::new();
    let mut it = r.nodes_iter();
    while let Some(u) = it.next(&r) {
        nodes_r.push(r.node_id(u));
    }
    assert_eq!(nodes_g, nodes_r);
    let mut it = r.edges_iter();
    while let Some(e) = it.next(&r) {
        let (a, b) = r.enodes(e);
        let (c, d) = g.enodes(e);
        assert_eq!(r.node_id(a), g.node_id(c));
        assert_eq!(r.node_id(b), g.node_id(d));
    }
}

#[test]
fn double_reverse_restores_all_queries() {
    let g = sample();
    let r = reverse(&g);
    let rr = reverse(&r);
    assert_eq!(rr.num_nodes(), g.num_nodes());
    assert_eq!(rr.num_edges(), g.num_edges());
    let mut it = g.edges_iter();
    while let Some(e) = it.next(&g) {
        assert_eq!(rr.node_id(rr.src(e)), g.node_id(g.src(e)));
        assert_eq!(rr.node_id(rr.snk(e)), g.node_id(g.snk(e)));
    }
    for id in 0..g.num_nodes() {
        let u = g.id2node(id);
        assert_eq!(collect_pairs(&rr, rr.out_iter(u)), collect_pairs(&g, g.out_iter(u)));
        assert_eq!(collect_pairs(&rr, rr.in_iter(u)), collect_pairs(&g, g.in_iter(u)));
        assert_eq!(collect_pairs(&rr, rr.neigh_iter(u)), collect_pairs(&g, g.neigh_iter(u)));
        assert_eq!(
            collect_incidents(&rr, rr.incident_iter(u)),
            collect_incidents(&g, g.incident_iter(u)),
        );
    }
}

#[test]
fn star_digraph_scenario() {
    let g = star(42);
    assert_eq!(g.num_nodes(), 43);
    assert_eq!(g.num_edges(), 42);
    let center = g.id2node(0);
    assert_eq!(g.out_iter(center).count(&g), 42);
    assert_eq!(g.in_iter(center).count(&g), 0);
    let mut it = g.edges_iter();
    while let Some(e) = it.next(&g) {
        assert_eq!(g.node_id(g.src(e)), 0);
        assert!(g.node_id(g.snk(e)) > 0);
    }

    let r = reverse(&g);
    assert_eq!(r.num_nodes(), 43);
    assert_eq!(r.num_edges(), 42);
    assert_eq!(r.out_iter(center).count(&r), 0);
    assert_eq!(r.in_iter(center).count(&r), 42);
    let mut it = r.edges_iter();
    while let Some(e) = it.next(&r) {
        assert!(r.node_id(r.src(e)) > 0);
        assert_eq!(r.node_id(r.snk(e)), 0);
    }
    for (_, v) in collect_pairs(&r, r.in_iter(center)) {
        assert!(v > 0);
    }
}

#[test]
fn iterator_protocol_is_exact() {
    let g = sample();
    let u = g.id2node(1);
    let mut it = g.neigh_iter(u);
    let (lo, hi) = it.size_hint(&g);
    assert_eq!(hi, Some(lo));
    let mut steps: usize = 0;
    while let Some(_) = it.next(&g) {
        steps += 1;
    }
    assert_eq!(steps, lo);
    // fuse semantics: exhausted iterators keep answering None
    assert!(it.next(&g).is_none());
    assert!(it.next(&g).is_none());
    assert_eq!(g.neigh_iter(u).count(&g), steps);
}

#[test]
fn sample_adjacency_content() {
    let g = sample();
    let n1 = g.id2node(1);
    let mut out1 = collect_pairs(&g, g.out_iter(n1));
    out1.sort();
    assert_eq!(out1, vec![(1, 2), (2, 2)]);
    let in1 = collect_pairs(&g, g.in_iter(n1));
    assert_eq!(in1, vec![(0, 0)]);
    let neigh1 = collect_pairs(&g, g.neigh_iter(n1));
    assert_eq!(neigh1, vec![(1, 2), (2, 2), (0, 0)]);
}

#[test]
fn self_loop_appears_once_per_incidence() {
    let g = sample();
    let n3 = g.id2node(3);
    let neigh = collect_pairs(&g, g.neigh_iter(n3));
    // the self-loop (edge 4) is recorded twice, the incoming edge 5 once
    assert_eq!(neigh, vec![(4, 3), (4, 3), (5, 0)]);
    let inc = collect_incidents(&g, g.incident_iter(n3));
    assert_eq!(inc, vec![(4, true, 3), (4, false, 3), (5, false, 0)]);
}

#[test]
fn node_attributes_read_and_write() {
    let g = star(3);
    let mut attrs: VecNodeAttributes<u64> = VecNodeAttributes::new(&g, 7);
    for id in 0..g.num_nodes() {
        assert_eq!(*attrs.node(g.id2node(id)), 7);
    }
    let u = g.id2node(2);
    *attrs.node_mut(u) = 99;
    assert_eq!(*attrs.node(u), 99);
    assert_eq!(*attrs.node(g.id2node(1)), 7);
}

#[test]
fn edge_attributes_read_and_write() {
    let g = star(3);
    let mut attrs: VecEdgeAttributes<i32> = VecEdgeAttributes::new(&g, -1);
    for id in 0..g.num_edges() {
        assert_eq!(*attrs.edge(g.id2edge(id)), -1);
    }
    let e = g.id2edge(0);
    *attrs.edge_mut(e) = 5;
    assert_eq!(*attrs.edge(e), 5);
    assert_eq!(*attrs.edge(g.id2edge(1)), -1);
}

#[test]
fn attributed_graph_splits() {
    let g = star(4);
    let attrs: VecNodeAttributes<usize> = VecNodeAttributes::new(&g, 0);
    let mut ag = AttributedVecGraph::new(g, attrs);
    let (topo, view) = ag.split();
    // iterate the topology while mutating attributes through the view
    let mut it = topo.nodes_iter();
    while let Some(u) = it.next(topo) {
        *view.node_mut(u) = topo.node_id(u) + 10;
    }
    for id in 0..topo.num_nodes() {
        assert_eq!(*view.node(topo.id2node(id)), id + 10);
    }
}
