//! The dense directed graph that backs a context, and what is taken on trust
//! about it.
//!
//! The graph itself is petgraph's adjacency-matrix graph. Nothing in it is
//! verified here: each function below states, in terms of three abstract
//! values, what the matching petgraph method does, and the rest of the crate
//! is proved against those statements.

use petgraph::matrix_graph::MatrixGraph;
use petgraph::matrix_graph::NodeIndex as GraphIndex;
use petgraph::Directed;
use vstd::prelude::*;

verus! {

/// A directed `petgraph::matrix_graph::MatrixGraph` with `u64` node weights,
/// `u64` edge weights and `u32` indices. Its contents are visible to proofs
/// only through `graph_nodes`, `graph_edges` and `graph_edge_tally`.
#[verifier::external_body]
pub struct DenseGraph {
    inner: MatrixGraph<u64, u64, Directed, Option<u64>, u32>,
}

/// The live nodes of a graph: each node's index with the weight stored at it.
pub uninterp spec fn graph_nodes(g: DenseGraph) -> Map<u32, u64>;

/// The edges of a graph: each occupied cell of the adjacency matrix, as
/// `(source, target)`, with the weight stored in it.
pub uninterp spec fn graph_edges(g: DenseGraph) -> Map<(u32, u32), u64>;

/// The graph's own running count of edges: raised when an edge is added,
/// lowered when one is removed by name, and left alone when a node is removed.
pub uninterp spec fn graph_edge_tally(g: DenseGraph) -> nat;

/// The cells that stay occupied when node `a` is removed: all but those
/// between `a` and a live node, in either direction.
pub open spec fn cells_kept(edges: Map<(u32, u32), u64>, live: Set<u32>, a: u32) -> Map<
    (u32, u32),
    u64,
> {
    Map::new(
        |e: (u32, u32)|
            edges.contains_key(e) && !(e.0 == a && live.contains(e.1)) && !(e.1 == a
                && live.contains(e.0)),
        |e: (u32, u32)| edges[e],
    )
}

/// `MatrixGraph::default`: a graph without nodes or edges, its edge count zero.
#[verifier::external_body]
pub(crate) fn graph_new() -> (g: DenseGraph)
    ensures
        graph_nodes(g) =~= Map::empty(),
        graph_edges(g) =~= Map::empty(),
        graph_edge_tally(g) == 0,
{
    DenseGraph { inner: MatrixGraph::default() }
}

/// `MatrixGraph::clone`: a graph with the same nodes, edges and edge count.
#[verifier::external_body]
pub(crate) fn graph_clone(g: &DenseGraph) -> (copy: DenseGraph)
    ensures
        graph_nodes(copy) == graph_nodes(*g),
        graph_edges(copy) == graph_edges(*g),
        graph_edge_tally(copy) == graph_edge_tally(*g),
{
    DenseGraph { inner: g.inner.clone() }
}

/// `MatrixGraph::add_node`: stores `weight` at an index that no live node has
/// and returns that index; edges and edge count are untouched. The index is
/// the most recently freed one if any is free, else the next unused one, which
/// fits in `u32` while fewer than `u32::MAX` nodes are live.
#[verifier::external_body]
pub(crate) fn graph_add_node(g: &mut DenseGraph, weight: u64) -> (ix: u32)
    requires
        graph_nodes(*old(g)).dom().finite(),
        graph_nodes(*old(g)).len() < u32::MAX,
    ensures
        !graph_nodes(*old(g)).contains_key(ix),
        graph_nodes(*final(g)) == graph_nodes(*old(g)).insert(ix, weight),
        graph_edges(*final(g)) == graph_edges(*old(g)),
        graph_edge_tally(*final(g)) == graph_edge_tally(*old(g)),
{
    g.inner.add_node(weight).index() as u32
}

/// `MatrixGraph::remove_node`: frees the node `a` and returns its weight. It
/// empties every matrix cell between `a` and a live node, in both directions,
/// and does not adjust the edge count. The method panics where `a` is not
/// live.
#[verifier::external_body]
pub(crate) fn graph_remove_node(g: &mut DenseGraph, a: u32) -> (weight: u64)
    requires
        graph_nodes(*old(g)).contains_key(a),
    ensures
        weight == graph_nodes(*old(g))[a],
        graph_nodes(*final(g)) == graph_nodes(*old(g)).remove(a),
        graph_edges(*final(g)) == cells_kept(graph_edges(*old(g)), graph_nodes(*old(g)).dom(), a),
        graph_edge_tally(*final(g)) == graph_edge_tally(*old(g)),
{
    g.inner.remove_node(GraphIndex::new(a as usize))
}

/// `MatrixGraph::add_edge`: fills the cell from `a` to `b` with `weight` and
/// raises the edge count by one; other cells and the nodes stay. The method
/// panics where the cell is occupied, and is documented for live nodes only.
/// It may enlarge the matrix, whose size is the square of a bound on the
/// indices in use; like any allocation, that is taken to succeed.
#[verifier::external_body]
pub(crate) fn graph_add_edge(g: &mut DenseGraph, a: u32, b: u32, weight: u64)
    requires
        graph_nodes(*old(g)).contains_key(a),
        graph_nodes(*old(g)).contains_key(b),
        !graph_edges(*old(g)).contains_key((a, b)),
    ensures
        graph_nodes(*final(g)) == graph_nodes(*old(g)),
        graph_edges(*final(g)) == graph_edges(*old(g)).insert((a, b), weight),
        graph_edge_tally(*final(g)) == graph_edge_tally(*old(g)) + 1,
{
    g.inner.add_edge(GraphIndex::new(a as usize), GraphIndex::new(b as usize), weight)
}

/// `MatrixGraph::remove_edge`: empties the cell from `a` to `b`, returns the
/// weight that was in it and lowers the edge count by one; other cells and the
/// nodes stay. The method panics where the cell is empty.
#[verifier::external_body]
pub(crate) fn graph_remove_edge(g: &mut DenseGraph, a: u32, b: u32) -> (weight: u64)
    requires
        graph_edges(*old(g)).contains_key((a, b)),
        graph_edge_tally(*old(g)) > 0,
    ensures
        weight == graph_edges(*old(g))[(a, b)],
        graph_nodes(*final(g)) == graph_nodes(*old(g)),
        graph_edges(*final(g)) == graph_edges(*old(g)).remove((a, b)),
        graph_edge_tally(*final(g)) == graph_edge_tally(*old(g)) - 1,
{
    g.inner.remove_edge(GraphIndex::new(a as usize), GraphIndex::new(b as usize))
}

/// `MatrixGraph::edge_weight`: the weight in the cell from `a` to `b`. The
/// method panics where the cell is empty.
#[verifier::external_body]
pub(crate) fn graph_edge_weight(g: &DenseGraph, a: u32, b: u32) -> (weight: u64)
    requires
        graph_edges(*g).contains_key((a, b)),
    ensures
        weight == graph_edges(*g)[(a, b)],
{
    *g.inner.edge_weight(GraphIndex::new(a as usize), GraphIndex::new(b as usize))
}

/// `MatrixGraph::has_edge`: whether the cell from `a` to `b` is occupied. A
/// cell beyond the matrix counts as empty.
#[verifier::external_body]
pub(crate) fn graph_has_edge(g: &DenseGraph, a: u32, b: u32) -> (present: bool)
    ensures
        present == graph_edges(*g).contains_key((a, b)),
{
    g.inner.has_edge(GraphIndex::new(a as usize), GraphIndex::new(b as usize))
}

/// `MatrixGraph::node_count`: the number of live nodes.
#[verifier::external_body]
pub(crate) fn graph_node_count(g: &DenseGraph) -> (count: usize)
    ensures
        count == graph_nodes(*g).len(),
{
    g.inner.node_count()
}

/// `MatrixGraph::edge_count`: the graph's running count of edges.
#[verifier::external_body]
pub(crate) fn graph_edge_count(g: &DenseGraph) -> (count: usize)
    ensures
        count == graph_edge_tally(*g),
{
    g.inner.edge_count()
}

} // verus!
