use std::collections::HashMap;
use std::hash::Hash;
use vstd::prelude::*;
use vstd::std_specs::hash::obeys_key_model;

use crate::graph::{Graph, GraphView};

verus! {

broadcast use vstd::std_specs::hash::group_hash_axioms;

/// Why an operation on a store was rejected.
#[derive(Debug, Clone, Copy, PartialEq, Eq)]
pub enum GraphError {
    /// No graph has the given identifier.
    NotFound,
    /// A graph with the given identifier exists already.
    AlreadyExists,
}

/// What a successful operation changed; one is recorded per success.
#[derive(Debug, Clone, PartialEq)]
pub enum Event<G, K, E, V> {
    GraphCreated(G),
    VertexAdded(K, V),
    VerticesAdded(K),
    EdgeAdded(K, K, E),
    UndirectedEdgeAdded(K, K, E),
}

/// The graphs and result after `create(id)`.
pub open spec fn spec_create<G, K, E, V>(m: Map<G, GraphView<K, E, V>>, id: G) -> (
    Map<G, GraphView<K, E, V>>,
    Result<(), GraphError>,
) {
    if m.contains_key(id) {
        (m, Err(GraphError::AlreadyExists))
    } else {
        (m.insert(id, GraphView::empty()), Ok(()))
    }
}

/// The graphs and result after `push_vertex(id, vid, label)`.
pub open spec fn spec_push_vertex<G, K, E, V>(
    m: Map<G, GraphView<K, E, V>>,
    id: G,
    vid: K,
    label: V,
) -> (Map<G, GraphView<K, E, V>>, Result<(), GraphError>) {
    if m.contains_key(id) {
        (m.insert(id, m[id].add_vertex(vid, label)), Ok(()))
    } else {
        (m, Err(GraphError::NotFound))
    }
}

/// The graphs and result after `push_edge(id, from, to, label)`.
pub open spec fn spec_push_edge<G, K, E, V>(
    m: Map<G, GraphView<K, E, V>>,
    id: G,
    from: K,
    to: K,
    label: E,
) -> (Map<G, GraphView<K, E, V>>, Result<(), GraphError>) {
    if m.contains_key(id) {
        (m.insert(id, m[id].add_edge(from, to, label)), Ok(()))
    } else {
        (m, Err(GraphError::NotFound))
    }
}

/// The graphs and result after an undirected edge whose arc `from -> to`
/// carries `forward` and whose arc `to -> from` carries `backward`.
pub open spec fn spec_push_undirected_edge<G, K, E, V>(
    m: Map<G, GraphView<K, E, V>>,
    id: G,
    from: K,
    to: K,
    forward: E,
    backward: E,
) -> (Map<G, GraphView<K, E, V>>, Result<(), GraphError>) {
    if m.contains_key(id) {
        (m.insert(id, m[id].add_undirected_edge(from, to, forward, backward)), Ok(()))
    } else {
        (m, Err(GraphError::NotFound))
    }
}

/// Graphs addressed by identifiers `G`, with the record of every change made
/// to them.
#[verifier::reject_recursive_types(G)]
#[verifier::reject_recursive_types(K)]
pub struct GraphStore<G, K, E, V> {
    graphs: HashMap<G, Graph<K, E, V>>,
    events: Vec<Event<G, K, E, V>>,
}

impl<G: Copy + Eq + Hash, K: Copy + Eq + Hash, E, V> GraphStore<G, K, E, V> {
    /// The graphs held, by identifier.
    pub closed spec fn graphs(&self) -> Map<G, GraphView<K, E, V>> {
        self.graphs@.map_values(|g: Graph<K, E, V>| g@)
    }

    /// The changes recorded so far, oldest first.
    pub closed spec fn events(&self) -> Seq<Event<G, K, E, V>> {
        self.events@
    }

    /// Both kinds of identifier hash and compare as their values do.
    pub open spec fn wf(&self) -> bool {
        obeys_key_model::<G>() && obeys_key_model::<K>()
    }

    /// A store with no graph and no recorded change.
    pub fn new() -> (s: Self)
        requires
            obeys_key_model::<G>(),
            obeys_key_model::<K>(),
        ensures
            s.wf(),
            s.graphs() == Map::<G, GraphView<K, E, V>>::empty(),
            s.events() == Seq::<Event<G, K, E, V>>::empty(),
    {
        let s = GraphStore { graphs: HashMap::new(), events: Vec::new() };
        assert(s.graphs() =~= Map::empty());
        s
    }

    /// Creates an empty graph under `id`, unless one is there already.
    pub fn create(&mut self, id: G) -> (r: Result<(), GraphError>)
        requires
            old(self).wf(),
        ensures
            final(self).wf(),
            (final(self).graphs(), r) == spec_create(old(self).graphs(), id),
            r is Ok ==> final(self).events() == old(self).events().push(Event::GraphCreated(id)),
            r is Err ==> final(self).events() == old(self).events(),
    {
        if self.graphs.contains_key(&id) {
            return Err(GraphError::AlreadyExists);
        }
        let g: Graph<K, E, V> = Graph::new();
        self.graphs.insert(id, g);
        self.events.push(Event::GraphCreated(id));
        assert(self.graphs() =~= old(self).graphs().insert(id, GraphView::empty()));
        Ok(())
    }

    /// Takes graph `id` out of the store for one mutation, after which the
    /// caller puts it back; fails with `NotFound`, touching nothing, when there
    /// is no such graph.
    fn take_graph(&mut self, id: &G) -> (r: Result<Graph<K, E, V>, GraphError>)
        requires
            old(self).wf(),
        ensures
            final(self).wf(),
            final(self).events() == old(self).events(),
            old(self).graphs().contains_key(*id) <==> r is Ok,
            r matches Ok(g) ==> g.wf() && g@ == old(self).graphs()[*id],
            r is Ok ==> final(self).graphs() == old(self).graphs().remove(*id),
            r is Err ==> final(self).graphs() == old(self).graphs(),
            r is Err ==> r == Err::<Graph<K, E, V>, GraphError>(GraphError::NotFound),
    {
        match self.graphs.remove(id) {
            Some(g) => {
                assert(self.graphs() =~= old(self).graphs().remove(*id));
                Ok(g)
            },
            None => {
                assert(self.graphs() =~= old(self).graphs());
                Err(GraphError::NotFound)
            },
        }
    }

    /// Labels vertex `vid` of graph `id` with `vertex`, replacing any
    /// earlier label.
    pub fn push_vertex(&mut self, id: G, vid: K, vertex: V) -> (r: Result<(), GraphError>)
        where
            V: Clone,
        requires
            old(self).wf(),
        ensures
            final(self).wf(),
            (final(self).graphs(), r) == spec_push_vertex(old(self).graphs(), id, vid, vertex),
            r is Ok ==> exists|label: V|
                cloned(vertex, label) && final(self).events() == old(self).events().push(
                    Event::VertexAdded(vid, label),
                ),
            r is Err ==> final(self).events() == old(self).events(),
    {
        let mut g = match self.take_graph(&id) {
            Ok(g) => g,
            Err(e) => return Err(e),
        };
        let label = vertex.clone();
        g.push_vertex(vid, vertex);
        let ghost taken = self.graphs();
        let ghost changed = g@;
        self.graphs.insert(id, g);
        assert(self.graphs() =~= taken.insert(id, changed));
        self.events.push(Event::VertexAdded(vid, label));
        assert(cloned(vertex, label));
        Ok(())
    }

    /// Appends the arc `(to, edge)` to the arcs leaving `from` in graph `id`.
    /// Neither end needs to be a labelled vertex.
    pub fn push_edge(&mut self, id: G, from: K, to: K, edge: E) -> (r: Result<(), GraphError>)
        where
            E: Clone,
        requires
            old(self).wf(),
        ensures
            final(self).wf(),
            (final(self).graphs(), r) == spec_push_edge(old(self).graphs(), id, from, to, edge),
            r is Ok ==> exists|label: E|
                cloned(edge, label) && final(self).events() == old(self).events().push(
                    Event::EdgeAdded(from, to, label),
                ),
            r is Err ==> final(self).events() == old(self).events(),
    {
        let mut g = match self.take_graph(&id) {
            Ok(g) => g,
            Err(e) => return Err(e),
        };
        let label = edge.clone();
        g.push_edge(from, to, edge);
        let ghost taken = self.graphs();
        let ghost changed = g@;
        self.graphs.insert(id, g);
        assert(self.graphs() =~= taken.insert(id, changed));
        self.events.push(Event::EdgeAdded(from, to, label));
        assert(cloned(edge, label));
        Ok(())
    }

    /// Adds the arcs `from -> to` and `to -> from` to graph `id`, each with
    /// its own copy of `edge`.
    pub fn push_undirected_edge(&mut self, id: G, from: K, to: K, edge: E) -> (r: Result<
        (),
        GraphError,
    >)
        where
            E: Clone,
        requires
            old(self).wf(),
        ensures
            final(self).wf(),
            exists|forward: E|
                cloned(edge, forward) && (final(self).graphs(), r) == spec_push_undirected_edge(
                    old(self).graphs(),
                    id,
                    from,
                    to,
                    forward,
                    edge,
                ),
            r is Ok ==> exists|label: E|
                cloned(edge, label) && final(self).events() == old(self).events().push(
                    Event::UndirectedEdgeAdded(from, to, label),
                ),
            r is Err ==> final(self).events() == old(self).events(),
    {
        let mut g = match self.take_graph(&id) {
            Ok(g) => g,
            Err(e) => {
                assert(cloned(edge, edge));
                return Err(e);
            },
        };
        let label = edge.clone();
        g.push_undirected_edge(from, to, edge);
        let ghost taken = self.graphs();
        let ghost changed = g@;
        self.graphs.insert(id, g);
        assert(self.graphs() =~= taken.insert(id, changed));
        self.events.push(Event::UndirectedEdgeAdded(from, to, label));
        assert(cloned(edge, label));
        let ghost forward = choose|forward: E|
            cloned(edge, forward) && g@ == old(self).graphs()[id].add_undirected_edge(
                from,
                to,
                forward,
                edge,
            );
        assert(self.graphs() =~= spec_push_undirected_edge(
            old(self).graphs(),
            id,
            from,
            to,
            forward,
            edge,
        ).0);
        Ok(())
    }

    /// The graph under `id`, if there is one.
    pub fn graph(&self, id: &G) -> (r: Option<&Graph<K, E, V>>)
        requires
            self.wf(),
        ensures
            self.graphs().contains_key(*id) <==> r is Some,
            r matches Some(g) ==> g.wf() && g@ == self.graphs()[*id],
    {
        self.graphs.get(id)
    }

    /// The changes recorded so far, oldest first.
    pub fn notifications(&self) -> (r: &Vec<Event<G, K, E, V>>)
        ensures
            r@ == self.events(),
    {
        &self.events
    }
}

impl<G: Copy + Eq + Hash, K: Copy + Eq + Hash, E> GraphStore<G, K, E, ()> {
    /// Adds vertex `vid` to graph `id`, whose vertices carry no label.
    pub fn push_vid(&mut self, id: G, vid: K) -> (r: Result<(), GraphError>)
        requires
            old(self).wf(),
        ensures
            final(self).wf(),
            (final(self).graphs(), r) == spec_push_vertex(old(self).graphs(), id, vid, ()),
            r is Ok ==> final(self).events() == old(self).events().push(Event::VerticesAdded(vid)),
            r is Err ==> final(self).events() == old(self).events(),
    {
        let mut g = match self.take_graph(&id) {
            Ok(g) => g,
            Err(e) => return Err(e),
        };
        g.push_vid(vid);
        let ghost taken = self.graphs();
        let ghost changed = g@;
        self.graphs.insert(id, g);
        assert(self.graphs() =~= taken.insert(id, changed));
        self.events.push(Event::VerticesAdded(vid));
        Ok(())
    }
}

} // verus!
