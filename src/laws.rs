use vstd::prelude::*;

use crate::graph::GraphView;
use crate::store::{
    GraphError,
    spec_create,
    spec_push_edge,
    spec_push_undirected_edge,
    spec_push_vertex,
};

verus! {

/// Every mutation of a graph that was never created is rejected with
/// `NotFound` and leaves the graphs as they were; unlabelled vertices are the
/// case `label == ()`.
pub proof fn lemma_absent_graph_rejected<G, K, E, V>(
    m: Map<G, GraphView<K, E, V>>,
    id: G,
    vid: K,
    label: V,
    from: K,
    to: K,
    forward: E,
    backward: E,
)
    requires
        !m.contains_key(id),
    ensures
        spec_push_vertex(m, id, vid, label) == (m, Err::<(), GraphError>(GraphError::NotFound)),
        spec_push_edge(m, id, from, to, forward) == (m, Err::<(), GraphError>(GraphError::NotFound)),
        spec_push_undirected_edge(m, id, from, to, forward, backward) == (
            m,
            Err::<(), GraphError>(GraphError::NotFound),
        ),
{
}

/// Creating a graph and then creating it again: the second attempt fails
/// with `AlreadyExists` and the graph from the first stays empty.
pub proof fn lemma_create_twice<G, K, E, V>(m: Map<G, GraphView<K, E, V>>, id: G)
    requires
        !m.contains_key(id),
    ensures
        spec_create(m, id).1 == Ok::<(), GraphError>(()),
        spec_create(spec_create(m, id).0, id) == (
            spec_create(m, id).0,
            Err::<(), GraphError>(GraphError::AlreadyExists),
        ),
        spec_create(spec_create(m, id).0, id).0[id] == GraphView::<K, E, V>::empty(),
{
}

/// Labelling a vertex twice keeps only the second label, as if the first
/// had never been given.
pub proof fn lemma_vertex_overwritten<K, E, V>(g: GraphView<K, E, V>, v: K, first: V, second: V)
    ensures
        g.add_vertex(v, first).add_vertex(v, second) == g.add_vertex(v, second),
        g.add_vertex(v, first).add_vertex(v, second).vertices[v] == second,
{
    assert(g.add_vertex(v, first).add_vertex(v, second).vertices =~= g.add_vertex(
        v,
        second,
    ).vertices);
}

/// A directed edge becomes the last arc leaving its source, after the arcs
/// that were there; the arcs leaving any other vertex, the target included,
/// are untouched.
pub proof fn lemma_edge_appended<K, E, V>(g: GraphView<K, E, V>, from: K, to: K, label: E)
    ensures
        g.add_edge(from, to, label).arcs(from) == g.arcs(from).push((to, label)),
        g.add_edge(from, to, label).arcs(from).last() == (to, label),
        forall|k: K|
            k != from ==> (#[trigger] g.add_edge(from, to, label).adjacency.contains_key(k)
                <==> g.adjacency.contains_key(k)) && g.add_edge(from, to, label).arcs(k)
                == g.arcs(k),
{
}

/// An undirected edge gives `from` an arc to `to` and `to` an arc back to
/// `from`, each carrying its own label.
pub proof fn lemma_undirected_both_ways<K, E, V>(
    g: GraphView<K, E, V>,
    from: K,
    to: K,
    forward: E,
    backward: E,
)
    ensures
        g.add_undirected_edge(from, to, forward, backward).arcs(from).contains((to, forward)),
        g.add_undirected_edge(from, to, forward, backward).arcs(to).contains((from, backward)),
{
    let g1 = g.add_edge(from, to, forward);
    let g2 = g1.add_edge(to, from, backward);
    assert(g2.arcs(to).last() == (from, backward));
    assert(g2.arcs(to)[g2.arcs(to).len() - 1] == (from, backward));
    if from == to {
        assert(g2.arcs(from) == g1.arcs(from).push((from, backward)));
        assert(g1.arcs(from)[g1.arcs(from).len() - 1] == (to, forward));
        assert(g2.arcs(from)[g1.arcs(from).len() - 1] == (to, forward));
    } else {
        assert(g2.arcs(from) == g1.arcs(from));
        assert(g2.arcs(from)[g2.arcs(from).len() - 1] == (to, forward));
    }
}

/// Adding edges, directed or not, never labels a vertex, and on an existing
/// graph it always succeeds, whether or not its ends are labelled vertices.
pub proof fn lemma_edges_leave_vertices<G, K, E, V>(
    m: Map<G, GraphView<K, E, V>>,
    id: G,
    from: K,
    to: K,
    forward: E,
    backward: E,
)
    requires
        m.contains_key(id),
    ensures
        spec_push_edge(m, id, from, to, forward).1 == Ok::<(), GraphError>(()),
        spec_push_edge(m, id, from, to, forward).0[id].vertices == m[id].vertices,
        spec_push_undirected_edge(m, id, from, to, forward, backward).1 == Ok::<(), GraphError>(()),
        spec_push_undirected_edge(m, id, from, to, forward, backward).0[id].vertices
            == m[id].vertices,
{
}

/// The same directed edge added twice gives two equal arcs: nothing is
/// merged.
pub proof fn lemma_repeated_edge_kept<K, E, V>(g: GraphView<K, E, V>, from: K, to: K, label: E)
    ensures
        g.add_edge(from, to, label).add_edge(from, to, label).arcs(from) == g.arcs(from).push(
            (to, label),
        ).push((to, label)),
{
}

} // verus!
