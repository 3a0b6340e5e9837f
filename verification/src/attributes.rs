//! Extend a graph with attributes.
//!
//! Sometimes one needs additional data associated with the nodes or
//! edges of a graph.  These traits give read and write access to such
//! per-element payload values; the storage and its initialization
//! policy belong to the implementing container, which only uses the
//! graph's handles as keys.  Dense containers keyed by a
//! [`crate::vecgraph::VecGraph`]'s identifiers live beside that graph.

use vstd::prelude::*;

verus! {

use crate::traits::GraphType;

/// Object with associated node attributes.
pub trait NodeAttributes<G: GraphType, Attr> {
    /// Node `u` has an attribute slot in this container.
    spec fn spec_has_node(&self, u: G::Node) -> bool;

    /// The attribute currently associated with node `u`.
    spec fn spec_node(&self, u: G::Node) -> Attr;

    /// Return the attribute associated with a node.
    fn node(&self, u: G::Node) -> (a: &Attr)
        requires
            self.spec_has_node(u),
        ensures
            *a == self.spec_node(u),
    ;

    /// Return the mutable attribute associated with a node.  Writing
    /// through it changes exactly the attribute of `u`.
    fn node_mut(&mut self, u: G::Node) -> (a: &mut Attr)
        requires
            old(self).spec_has_node(u),
        ensures
            *a == old(self).spec_node(u),
            forall|w: G::Node|
                #[trigger] final(self).spec_has_node(w) == old(self).spec_has_node(w),
            final(self).spec_node(u) == *final(a),
            forall|w: G::Node| old(self).spec_has_node(w) && w != u
                ==> #[trigger] final(self).spec_node(w) == old(self).spec_node(w),
    ;
}

/// Object with associated edge attributes.
pub trait EdgeAttributes<G: GraphType, Attr> {
    /// Edge `e` has an attribute slot in this container.
    spec fn spec_has_edge(&self, e: G::Edge) -> bool;

    /// The attribute currently associated with edge `e`.
    spec fn spec_edge(&self, e: G::Edge) -> Attr;

    /// Return the attribute associated with an edge.
    fn edge(&self, e: G::Edge) -> (a: &Attr)
        requires
            self.spec_has_edge(e),
        ensures
            *a == self.spec_edge(e),
    ;

    /// Return the mutable attribute associated with an edge.  Writing
    /// through it changes exactly the attribute of `e`.
    fn edge_mut(&mut self, e: G::Edge) -> (a: &mut Attr)
        requires
            old(self).spec_has_edge(e),
        ensures
            *a == old(self).spec_edge(e),
            forall|d: G::Edge|
                #[trigger] final(self).spec_has_edge(d) == old(self).spec_has_edge(d),
            final(self).spec_edge(e) == *final(a),
            forall|d: G::Edge| old(self).spec_has_edge(d) && d != e
                ==> #[trigger] final(self).spec_edge(d) == old(self).spec_edge(d),
    ;
}

/// A trait to split a combined object into its graph and its
/// attributes, so a caller can traverse the topology while mutating
/// attribute values, without re-borrow conflicts.  The lifetime
/// parameter is the scope of the borrow that `split` hands out.
pub trait AttributedGraph<'a> {
    type Graph;

    type Attributes;

    /// The topology part of this object.
    spec fn spec_graph(&self) -> Self::Graph;

    /// Split into a read-only topology reference and a live attribute
    /// view; the topology is not mutated through the view.
    fn split(&'a mut self) -> (r: (&'a Self::Graph, Self::Attributes))
        ensures
            *r.0 == old(self).spec_graph(),
            final(self).spec_graph() == old(self).spec_graph(),
    ;
}

} // verus!
