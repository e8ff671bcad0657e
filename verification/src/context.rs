//! The context: a directed graph of vertices with a lookup index beside it.
//!
//! The graph assigns each vertex a handle and stores the weighted edges; the
//! index maps each handle to the vertex. Every operation that changes one
//! changes the other in the same call, and `Context::wf` says what that keeps
//! true.

use crate::contextoid::Contextoid;
use crate::graph::{
    graph_add_edge, graph_add_node, graph_clone, graph_edge_count, graph_edge_tally,
    graph_edge_weight, graph_edges, graph_has_edge, graph_new, graph_node_count, graph_nodes,
    graph_remove_edge, graph_remove_node, DenseGraph,
};
use crate::protocols::{Datable, Identifiable, SpaceTemporal, Spatial, Temporal};
use crate::text::{decimal, u64_to_decimal};
use std::collections::HashMap;
use vstd::prelude::*;
use vstd::string::StringExecFns;

verus! {

broadcast use vstd::std_specs::hash::group_hash_axioms;

/// The handle of a vertex within the context that issued it.
#[derive(Debug, Copy, Clone, Hash, Eq, PartialEq, Structural)]
pub struct NodeIndex {
    ix: u32,
}

impl View for NodeIndex {
    type V = u32;

    closed spec fn view(&self) -> u32 {
        self.ix
    }
}

impl NodeIndex {
    /// The handle with the given position.
    pub fn new(ix: u32) -> (h: Self)
        ensures
            h@ == ix,
    {
        Self { ix }
    }

    /// The position this handle stands for.
    pub fn index(&self) -> (ix: usize)
        ensures
            ix == self@,
    {
        self.ix as usize
    }
}

/// Why an edge was not added.
#[derive(Debug, Copy, Clone, Hash, Eq, PartialEq, Structural)]
pub enum EdgeError {
    /// The source handle names no vertex of the context.
    MissingSource,
    /// The target handle names no vertex of the context.
    MissingTarget,
    /// There is an edge from the source to the target already.
    EdgeExists,
}

/// The edges that remain when the vertex `n` leaves: those that neither start
/// nor end at it.
pub open spec fn without_node(edges: Map<(u32, u32), u64>, n: u32) -> Map<(u32, u32), u64> {
    Map::new(|e: (u32, u32)| edges.contains_key(e) && e.0 != n && e.1 != n, |e: (u32, u32)| edges[e])
}

/// Whether an edge from `a` to `b` can be added to a context with these
/// vertices and these edges, and if not, why: the source is looked at first,
/// the target second, the edge itself last.
pub open spec fn edge_verdict(nodes: Set<u32>, edges: Set<(u32, u32)>, a: u32, b: u32) -> Result<
    (),
    EdgeError,
> {
    if !nodes.contains(a) {
        Err(EdgeError::MissingSource)
    } else if !nodes.contains(b) {
        Err(EdgeError::MissingTarget)
    } else if edges.contains((a, b)) {
        Err(EdgeError::EdgeExists)
    } else {
        Ok(())
    }
}

/// A named graph of vertices that live elsewhere: the context refers to each
/// vertex and never owns or changes it.
pub struct Context<'l, D, S, T, ST> where D: Datable, S: Spatial, T: Temporal, ST: SpaceTemporal {
    id: u64,
    name: String,
    // Holds each vertex's identity as the node weight, and the weighted edges.
    graph: DenseGraph,
    // Holds each vertex under the handle the graph gave it.
    context_map: HashMap<u32, &'l Contextoid<D, S, T, ST>>,
    // Every handle in use lies below this bound.
    upper: u64,
}

impl<'l, D, S, T, ST> Context<'l, D, S, T, ST> where
    D: Datable,
    S: Spatial,
    T: Temporal,
    ST: SpaceTemporal,
 {
    pub closed spec fn spec_id(&self) -> u64 {
        self.id
    }

    pub closed spec fn spec_name(&self) -> Seq<char> {
        self.name@
    }

    /// The vertices of the context, each under its handle: what the lookup
    /// index holds.
    pub closed spec fn nodes(&self) -> Map<u32, Contextoid<D, S, T, ST>> {
        Map::new(|k: u32| self.context_map@.contains_key(k), |k: u32| *self.context_map@[k])
    }

    /// The directed edges of the context, each as `(source, target)` with its
    /// weight: what the graph holds.
    pub closed spec fn edges(&self) -> Map<(u32, u32), u64> {
        graph_edges(self.graph)
    }

    /// The number of vertices by the lookup index.
    pub open spec fn spec_size(&self) -> nat {
        self.nodes().len()
    }

    /// The number of vertices by the graph.
    pub closed spec fn spec_node_count(&self) -> nat {
        graph_nodes(self.graph).len()
    }

    /// The number of edges by the graph's own count.
    pub closed spec fn spec_edge_count(&self) -> nat {
        graph_edge_tally(self.graph)
    }

    /// The graph and the index hold the same handles, each graph node carries
    /// the identity of the vertex indexed under its handle, every edge joins
    /// two vertices of the context, and the graph's edge count is the number
    /// of its edges.
    pub closed spec fn wf(&self) -> bool {
        &&& graph_nodes(self.graph).dom() =~= self.context_map@.dom()
        &&& forall|k: u32| #[trigger]
            self.context_map@.contains_key(k) ==> graph_nodes(self.graph)[k]
                == self.context_map@[k].spec_id() && k < self.upper
        &&& self.upper <= 0x1_0000_0000
        &&& graph_edges(self.graph).dom().finite()
        &&& graph_edge_tally(self.graph) == graph_edges(self.graph).len()
        &&& forall|e: (u32, u32)| #[trigger]
            graph_edges(self.graph).contains_key(e) ==> self.context_map@.contains_key(e.0)
                && self.context_map@.contains_key(e.1)
    }

    /// An empty context.
    pub fn new(id: u64, name: String) -> (c: Self)
        ensures
            c.wf(),
            c.spec_id() == id,
            c.spec_name() == name@,
            c.nodes() == Map::<u32, Contextoid<D, S, T, ST>>::empty(),
            c.edges() == Map::<(u32, u32), u64>::empty(),
    {
        let c = Self { id, name, graph: graph_new(), context_map: HashMap::new(), upper: 0 };
        proof {
            assert(c.nodes() =~= Map::empty());
        }
        c
    }

    /// An empty context whose lookup index has room for `capacity` vertices.
    /// The capacity affects allocation only.
    pub fn with_capacity(id: u64, name: String, capacity: usize) -> (c: Self)
        ensures
            c.wf(),
            c.spec_id() == id,
            c.spec_name() == name@,
            c.nodes() == Map::<u32, Contextoid<D, S, T, ST>>::empty(),
            c.edges() == Map::<(u32, u32), u64>::empty(),
    {
        let c = Self {
            id,
            name,
            graph: graph_new(),
            context_map: HashMap::with_capacity(capacity),
            upper: 0,
        };
        proof {
            assert(c.nodes() =~= Map::empty());
        }
        c
    }

    pub fn id(&self) -> (id: u64)
        ensures
            id == self.spec_id(),
    {
        self.id
    }

    pub fn name(&self) -> (name: &str)
        ensures
            name@ == self.spec_name(),
    {
        self.name.as_str()
    }

    /// Adds the vertex to the graph and to the index and returns its handle,
    /// which no vertex of the context had. Nothing is checked against the
    /// vertices already there: equal vertices get distinct handles.
    pub fn add_contextoid(&mut self, value: &'l Contextoid<D, S, T, ST>) -> (index: NodeIndex)
        requires
            old(self).wf(),
            old(self).nodes().len() < u32::MAX,
        ensures
            final(self).wf(),
            final(self).spec_id() == old(self).spec_id(),
            final(self).spec_name() == old(self).spec_name(),
            !old(self).nodes().contains_key(index@),
            final(self).nodes() == old(self).nodes().insert(index@, *value),
            final(self).edges() == old(self).edges(),
    {
        proof {
            assert(old(self).nodes().dom() =~= graph_nodes(old(self).graph).dom());
        }
        let ix = graph_add_node(&mut self.graph, value.id());
        self.context_map.insert(ix, value);
        if ix as u64 >= self.upper {
            self.upper = ix as u64 + 1;
        }
        proof {
            assert(final(self).nodes() =~= old(self).nodes().insert(ix, *value));
        }
        NodeIndex { ix }
    }

    pub fn contains_contextoid(&self, index: NodeIndex) -> (found: bool)
        ensures
            found == self.nodes().contains_key(index@),
    {
        self.context_map.contains_key(&index.ix)
    }

    /// The vertex under the handle, where there is one.
    pub fn get_contextoid(&self, index: NodeIndex) -> (found: Option<&&'l Contextoid<D, S, T, ST>>)
        ensures
            match found {
                Some(v) => self.nodes().contains_key(index@) && **v == self.nodes()[index@],
                None => !self.nodes().contains_key(index@),
            },
    {
        self.context_map.get(&index.ix)
    }

    /// Removes the vertex under the handle together with every edge that
    /// starts or ends at it. A handle that names no vertex changes nothing.
    pub fn remove_contextoid(&mut self, index: NodeIndex)
        requires
            old(self).wf(),
        ensures
            final(self).wf(),
            final(self).spec_id() == old(self).spec_id(),
            final(self).spec_name() == old(self).spec_name(),
            final(self).nodes() == old(self).nodes().remove(index@),
            final(self).edges() == without_node(old(self).edges(), index@),
            !old(self).nodes().contains_key(index@) ==> *final(self) == *old(self),
    {
        let ix = index.ix;
        let ghost before = graph_edges(self.graph);
        if !self.context_map.contains_key(&ix) {
            proof {
                assert(self.nodes() =~= self.nodes().remove(ix));
                assert(without_node(before, ix) =~= before);
            }
            return ;
        }
        // The graph empties the cells of a node it removes without lowering
        // its edge count, so the edges are taken out one by one first.
        let upper = self.upper;
        let mut i: u64 = 0;
        while i < upper
            invariant
                i <= upper,
                upper == old(self).upper,
                old(self).wf(),
                before == graph_edges(old(self).graph),
                self.id == old(self).id,
                self.name == old(self).name,
                self.upper == old(self).upper,
                self.context_map == old(self).context_map,
                graph_nodes(self.graph) == graph_nodes(old(self).graph),
                graph_edges(self.graph).dom().finite(),
                graph_edge_tally(self.graph) == graph_edges(self.graph).len(),
                forall|e: (u32, u32)| #[trigger]
                    graph_edges(self.graph).contains_key(e) ==> before.contains_key(e)
                        && graph_edges(self.graph)[e] == before[e],
                forall|e: (u32, u32)|
                    before.contains_key(e) && e.0 != ix && e.1 != ix ==> #[trigger] graph_edges(
                        self.graph,
                    ).contains_key(e),
                forall|j: u32|
                    j < i ==> !graph_edges(self.graph).contains_key((ix, j)) && !graph_edges(
                        self.graph,
                    ).contains_key((j, ix)),
            decreases upper - i,
        {
            let j = i as u32;
            if graph_has_edge(&self.graph, ix, j) {
                graph_remove_edge(&mut self.graph, ix, j);
            }
            if graph_has_edge(&self.graph, j, ix) {
                graph_remove_edge(&mut self.graph, j, ix);
            }
            i += 1;
        }
        proof {
            assert forall|e: (u32, u32)| #[trigger]
                graph_edges(self.graph).contains_key(e) implies e.0 != ix && e.1 != ix by {
                assert(before.contains_key(e));
                assert(old(self).context_map@.contains_key(e.0));
                assert(old(self).context_map@.contains_key(e.1));
            }
            assert(graph_edges(self.graph) =~= without_node(before, ix));
        }
        let ghost severed = graph_edges(self.graph);
        graph_remove_node(&mut self.graph, ix);
        self.context_map.remove(&ix);
        proof {
            assert(graph_edges(self.graph) =~= severed);
            assert(final(self).nodes() =~= old(self).nodes().remove(ix));
        }
    }

    /// Adds a directed edge from `a` to `b` with the given weight, where both
    /// are vertices of the context and no edge runs from `a` to `b` yet.
    /// Otherwise the context stays as it is and the error says what was in
    /// the way.
    pub fn add_edge(&mut self, a: NodeIndex, b: NodeIndex, weight: u64) -> (added: Result<
        (),
        EdgeError,
    >)
        requires
            old(self).wf(),
        ensures
            final(self).wf(),
            final(self).spec_id() == old(self).spec_id(),
            final(self).spec_name() == old(self).spec_name(),
            final(self).nodes() == old(self).nodes(),
            added == edge_verdict(old(self).nodes().dom(), old(self).edges().dom(), a@, b@),
            added.is_ok() ==> final(self).edges() == old(self).edges().insert((a@, b@), weight),
            added.is_err() ==> *final(self) == *old(self),
    {
        if !self.context_map.contains_key(&a.ix) {
            return Err(EdgeError::MissingSource);
        }
        if !self.context_map.contains_key(&b.ix) {
            return Err(EdgeError::MissingTarget);
        }
        if graph_has_edge(&self.graph, a.ix, b.ix) {
            return Err(EdgeError::EdgeExists);
        }
        graph_add_edge(&mut self.graph, a.ix, b.ix, weight);
        Ok(())
    }

    /// Whether an edge runs from `a` to `b`. The direction counts.
    pub fn contains_edge(&self, a: NodeIndex, b: NodeIndex) -> (found: bool)
        ensures
            found == self.edges().contains_key((a@, b@)),
    {
        graph_has_edge(&self.graph, a.ix, b.ix)
    }

    /// The weight of the edge from `a` to `b`, where there is one.
    pub fn edge_weight(&self, a: NodeIndex, b: NodeIndex) -> (weight: Option<u64>)
        ensures
            weight == if self.edges().contains_key((a@, b@)) {
                Some(self.edges()[(a@, b@)])
            } else {
                None
            },
    {
        if graph_has_edge(&self.graph, a.ix, b.ix) {
            Some(graph_edge_weight(&self.graph, a.ix, b.ix))
        } else {
            None
        }
    }

    /// The number of vertices, counted in the lookup index.
    pub fn size(&self) -> (n: usize)
        ensures
            n == self.spec_size(),
    {
        proof {
            assert(self.nodes().dom() =~= self.context_map@.dom());
        }
        self.context_map.len()
    }

    pub fn is_empty(&self) -> (empty: bool)
        ensures
            empty == (self.spec_size() == 0),
            empty == (self.nodes() == Map::<u32, Contextoid<D, S, T, ST>>::empty()),
    {
        proof {
            assert(self.nodes().dom() =~= self.context_map@.dom());
            if self.context_map@.len() == 0 {
                assert(self.nodes() =~= Map::empty());
            }
        }
        self.context_map.is_empty()
    }

    /// The number of vertices, counted in the graph.
    pub fn node_count(&self) -> (n: usize)
        ensures
            n == self.spec_node_count(),
            self.wf() ==> n == self.nodes().len(),
    {
        proof {
            assert(self.nodes().dom() =~= self.context_map@.dom());
        }
        graph_node_count(&self.graph)
    }

    /// The number of edges, by the graph's count.
    pub fn edge_count(&self) -> (n: usize)
        ensures
            n == self.spec_edge_count(),
            self.wf() ==> n == self.edges().len(),
    {
        graph_edge_count(&self.graph)
    }

    /// The text that describes a context with these four properties.
    pub open spec fn text(id: u64, name: Seq<char>, node_count: nat, edge_count: nat) -> Seq<
        char,
    > {
        "Context: id: "@ + decimal(id as nat) + ", name: "@ + name + ", node_count: "@ + decimal(
            node_count,
        ) + ", edge_count: "@ + decimal(edge_count)
    }

    /// Describes the context by its identity, its name and its two counts.
    pub fn to_string(&self) -> (s: String)
        ensures
            s@ == Self::text(
                self.spec_id(),
                self.spec_name(),
                self.spec_node_count(),
                self.spec_edge_count(),
            ),
    {
        let mut s = String::from_str("Context: id: ");
        s.append(u64_to_decimal(self.id).as_str());
        s.append(", name: ");
        s.append(self.name.as_str());
        s.append(", node_count: ");
        s.append(u64_to_decimal(self.node_count() as u64).as_str());
        s.append(", edge_count: ");
        s.append(u64_to_decimal(self.edge_count() as u64).as_str());
        s
    }

    /// In every well-formed context the lookup index and the graph agree on
    /// the number of vertices, and both give the number of handles in use.
    pub proof fn lemma_size_is_node_count(self)
        requires
            self.wf(),
        ensures
            self.spec_size() == self.spec_node_count(),
    {
        assert(self.nodes().dom() =~= self.context_map@.dom());
    }

    /// In every well-formed context the graph's edge count is the number of
    /// edges, and every edge joins two vertices of the context.
    pub proof fn lemma_edge_count_is_number_of_edges(self)
        requires
            self.wf(),
        ensures
            self.spec_edge_count() == self.edges().len(),
            forall|a: u32, b: u32| #[trigger]
                self.edges().contains_key((a, b)) ==> self.nodes().contains_key(a)
                    && self.nodes().contains_key(b),
    {
    }

    /// A vertex added to a context is found under the handle it was given,
    /// and found unchanged.
    pub proof fn lemma_added_vertex_is_found(
        before: Self,
        after: Self,
        index: NodeIndex,
        value: Contextoid<D, S, T, ST>,
    )
        requires
            after.nodes() == before.nodes().insert(index@, value),
        ensures
            after.nodes().contains_key(index@),
            after.nodes()[index@] == value,
    {
    }

    /// Once a vertex is removed its handle finds nothing, and the context is
    /// smaller by exactly one.
    pub proof fn lemma_removed_vertex_is_gone(before: Self, after: Self, index: NodeIndex)
        requires
            before.wf(),
            before.nodes().contains_key(index@),
            after.nodes() == before.nodes().remove(index@),
        ensures
            !after.nodes().contains_key(index@),
            after.spec_size() == before.spec_size() - 1,
    {
        assert(before.nodes().dom() =~= before.context_map@.dom());
        assert(after.nodes().dom() =~= before.nodes().dom().remove(index@));
    }

    /// Removing a vertex that is not there, as after an earlier removal of
    /// it, leaves vertices and edges as they were.
    pub proof fn lemma_removal_is_idempotent(before: Self, index: NodeIndex)
        requires
            before.wf(),
            !before.nodes().contains_key(index@),
        ensures
            before.nodes().remove(index@) == before.nodes(),
            without_node(before.edges(), index@) == before.edges(),
    {
        assert(before.nodes().remove(index@) =~= before.nodes());
        assert(without_node(before.edges(), index@) =~= before.edges());
    }

    /// An edge added from `a` to a different vertex `b` runs from `a` to `b`
    /// only: unless an edge from `b` to `a` was there before, there is none.
    pub proof fn lemma_added_edge_is_directed(
        before: Self,
        after: Self,
        a: NodeIndex,
        b: NodeIndex,
        weight: u64,
    )
        requires
            a@ != b@,
            !before.edges().contains_key((b@, a@)),
            after.edges() == before.edges().insert((a@, b@), weight),
        ensures
            after.edges().contains_key((a@, b@)),
            after.edges()[(a@, b@)] == weight,
            !after.edges().contains_key((b@, a@)),
    {
    }
}

impl<'l, D, S, T, ST> Clone for Context<'l, D, S, T, ST> where
    D: Datable,
    S: Spatial,
    T: Temporal,
    ST: SpaceTemporal,
 {
    /// A context of its own with the same identity, name, vertices and edges.
    /// The vertices themselves are shared, not copied.
    fn clone(&self) -> (c: Self)
        ensures
            c.wf() == self.wf(),
            c.spec_id() == self.spec_id(),
            c.spec_name() == self.spec_name(),
            c.nodes() == self.nodes(),
            c.edges() == self.edges(),
            c.spec_node_count() == self.spec_node_count(),
            c.spec_edge_count() == self.spec_edge_count(),
    {
        let c = Self {
            id: self.id,
            name: self.name.clone(),
            graph: graph_clone(&self.graph),
            context_map: self.context_map.clone(),
            upper: self.upper,
        };
        proof {
            assert(c.context_map@ =~= self.context_map@);
            assert(c.nodes() =~= self.nodes());
        }
        c
    }
}

impl<'l, D, S, T, ST> Default for Context<'l, D, S, T, ST> where
    D: Datable,
    S: Spatial,
    T: Temporal,
    ST: SpaceTemporal,
 {
    /// The empty context with identity 0 and the name `default`.
    fn default() -> (c: Self)
        ensures
            c.wf(),
            c.spec_id() == 0,
            c.spec_name() == "default"@,
            c.nodes() == Map::<u32, Contextoid<D, S, T, ST>>::empty(),
            c.edges() == Map::<(u32, u32), u64>::empty(),
    {
        Self::new(0, String::from_str("default"))
    }
}

} // verus!
