use std::collections::HashMap;
use std::hash::Hash;
use vstd::prelude::*;
use vstd::std_specs::hash::obeys_key_model;

verus! {

broadcast use vstd::std_specs::hash::group_hash_axioms;

/// The mathematical content of a graph: a label for each vertex, and for each
/// source vertex the outgoing arcs in the order they were added.
#[verifier::reject_recursive_types(K)]
pub ghost struct GraphView<K, E, V> {
    pub vertices: Map<K, V>,
    pub adjacency: Map<K, Seq<(K, E)>>,
}

impl<K, E, V> GraphView<K, E, V> {
    /// A graph with no vertices and no arcs.
    pub open spec fn empty() -> Self {
        GraphView { vertices: Map::empty(), adjacency: Map::empty() }
    }

    /// The arcs leaving `k`; empty when none was ever added.
    pub open spec fn arcs(self, k: K) -> Seq<(K, E)> {
        if self.adjacency.contains_key(k) {
            self.adjacency[k]
        } else {
            Seq::empty()
        }
    }

    /// Sets the label of `k`, replacing any earlier one.
    pub open spec fn add_vertex(self, k: K, label: V) -> Self {
        GraphView { vertices: self.vertices.insert(k, label), ..self }
    }

    /// Appends the arc `(to, label)` to the arcs leaving `from`.
    pub open spec fn add_edge(self, from: K, to: K, label: E) -> Self {
        GraphView {
            adjacency: self.adjacency.insert(from, self.arcs(from).push((to, label))),
            ..self
        }
    }

    /// The arc `from -> to` labelled `forward`, then the arc `to -> from`
    /// labelled `backward`.
    pub open spec fn add_undirected_edge(self, from: K, to: K, forward: E, backward: E) -> Self {
        self.add_edge(from, to, forward).add_edge(to, from, backward)
    }
}

/// A graph over vertex identifiers `K`, with edge labels `E` and vertex
/// labels `V`. An arc may name a vertex that has no label. Identifiers are
/// `Copy`, so one value can stand at both ends of arcs and in what a change
/// reports without being cloned.
#[verifier::reject_recursive_types(K)]
pub struct Graph<K, E, V> {
    vertices: HashMap<K, V>,
    adjacency: HashMap<K, Vec<(K, E)>>,
}

impl<K, E, V> View for Graph<K, E, V> {
    type V = GraphView<K, E, V>;

    closed spec fn view(&self) -> GraphView<K, E, V> {
        GraphView {
            vertices: self.vertices@,
            adjacency: self.adjacency@.map_values(|arcs: Vec<(K, E)>| arcs@),
        }
    }
}

impl<K: Copy + Eq + Hash, E, V> Graph<K, E, V> {
    /// The identifiers hash and compare as their values do.
    pub open spec fn wf(&self) -> bool {
        obeys_key_model::<K>()
    }

    /// A graph with no vertices and no arcs.
    pub fn new() -> (g: Self)
        requires
            obeys_key_model::<K>(),
        ensures
            g.wf(),
            g@ == GraphView::<K, E, V>::empty(),
    {
        let g = Graph { vertices: HashMap::new(), adjacency: HashMap::new() };
        assert(g@.adjacency =~= Map::empty());
        g
    }

    /// Labels `vid` with `vertex`; a label it already had is replaced.
    pub fn push_vertex(&mut self, vid: K, vertex: V)
        requires
            old(self).wf(),
        ensures
            final(self).wf(),
            final(self)@ == old(self)@.add_vertex(vid, vertex),
    {
        self.vertices.insert(vid, vertex);
    }

    /// Appends the arc `(to, edge)` to the arcs leaving `from`. Neither end
    /// needs a label, and none is given to it.
    pub fn push_edge(&mut self, from: K, to: K, edge: E)
        requires
            old(self).wf(),
        ensures
            final(self).wf(),
            final(self)@ == old(self)@.add_edge(from, to, edge),
    {
        let mut arcs: Vec<(K, E)> = match self.adjacency.remove(&from) {
            Some(arcs) => arcs,
            None => Vec::new(),
        };
        arcs.push((to, edge));
        self.adjacency.insert(from, arcs);
        assert(self@.adjacency =~= old(self)@.add_edge(from, to, edge).adjacency);
    }

    /// The label of `vid`, if it has one.
    pub fn vertex(&self, vid: &K) -> (r: Option<&V>)
        requires
            self.wf(),
        ensures
            r == (if self@.vertices.contains_key(*vid) {
                Some(&self@.vertices[*vid])
            } else {
                None::<&V>
            }),
    {
        self.vertices.get(vid)
    }

    /// The arcs leaving `vid`, if any was ever added.
    pub fn arcs(&self, vid: &K) -> (r: Option<&Vec<(K, E)>>)
        requires
            self.wf(),
        ensures
            self@.adjacency.contains_key(*vid) <==> r is Some,
            r matches Some(arcs) ==> arcs@ == self@.adjacency[*vid],
    {
        self.adjacency.get(vid)
    }

    /// How many vertices have a label.
    pub fn vertex_count(&self) -> (n: usize)
        requires
            self.wf(),
        ensures
            n == self@.vertices.len(),
    {
        self.vertices.len()
    }

    /// How many vertices have arcs leaving them.
    pub fn source_count(&self) -> (n: usize)
        requires
            self.wf(),
        ensures
            n == self@.adjacency.len(),
    {
        proof {
            assert(self@.adjacency.dom() =~= self.adjacency@.dom());
        }
        self.adjacency.len()
    }
}

impl<K: Copy + Eq + Hash, E> Graph<K, E, ()> {
    /// Adds `vid` to a graph whose vertices carry no label.
    pub fn push_vid(&mut self, vid: K)
        requires
            old(self).wf(),
        ensures
            final(self).wf(),
            final(self)@ == old(self)@.add_vertex(vid, ()),
    {
        self.push_vertex(vid, ());
    }
}

impl<K: Copy + Eq + Hash, E: Clone, V> Graph<K, E, V> {
    /// Adds the arc `from -> to` and the arc `to -> from`. The first carries a
    /// clone of `edge`, the second `edge` itself, so the two labels are never
    /// the same object.
    pub fn push_undirected_edge(&mut self, from: K, to: K, edge: E)
        requires
            old(self).wf(),
        ensures
            final(self).wf(),
            exists|forward: E|
                cloned(edge, forward) && final(self)@ == old(self)@.add_undirected_edge(
                    from,
                    to,
                    forward,
                    edge,
                ),
    {
        let forward = edge.clone();
        self.push_edge(from, to, forward);
        self.push_edge(to, from, edge);
        assert(cloned(edge, forward));
    }
}

} // verus!
