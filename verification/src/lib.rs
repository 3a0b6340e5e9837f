//! Capability-based interfaces for finite graphs, a zero-copy
//! reverse-digraph view, and traits for per-node and per-edge
//! attribute access.
//!
//! Algorithms are written against the capability traits in [`traits`]
//! and work unchanged on any graph implementing them — a concrete
//! store such as [`vecgraph::VecGraph`] or a view such as
//! [`ReverseDigraph`], which presents a borrowed digraph with every
//! edge orientation flipped at no cost beyond the delegated calls.

pub mod adapters;
pub mod attributes;
pub mod traits;
pub mod vecgraph;

pub use adapters::reversedigraph::reverse;
pub use adapters::reversedigraph::ReverseDigraph;
