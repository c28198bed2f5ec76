use pallet_graph::graph::Graph;
use pallet_graph::store::{Event, GraphError, GraphStore};

#[derive(Debug, Clone, Copy, PartialEq)]
enum Direction {
    Right,
}

#[test]
fn absent_graph_rejects_every_mutation() {
    let mut s: GraphStore<u64, &str, u32, u32> = GraphStore::new();
    assert_eq!(s.push_vertex(1, "A", 3), Err(GraphError::NotFound));
    assert_eq!(s.push_edge(1, "A", "B", 4), Err(GraphError::NotFound));
    assert_eq!(s.push_undirected_edge(1, "A", "B", 4), Err(GraphError::NotFound));
    assert!(s.graph(&1).is_none());
    assert!(s.notifications().is_empty());

    let mut u: GraphStore<u64, &str, u32, ()> = GraphStore::new();
    assert_eq!(u.push_vid(1, "A"), Err(GraphError::NotFound));
    assert!(u.graph(&1).is_none());
    assert!(u.notifications().is_empty());
}

#[test]
fn create_twice_fails_and_keeps_first_graph() {
    let mut s: GraphStore<u64, &str, u32, u32> = GraphStore::new();
    assert_eq!(s.create(9), Ok(()));
    assert_eq!(s.push_vertex(9, "A", 1), Ok(()));
    assert_eq!(s.create(9), Err(GraphError::AlreadyExists));
    let g = s.graph(&9).unwrap();
    assert_eq!(g.vertex(&"A"), Some(&1));
    assert_eq!(g.vertex_count(), 1);
    assert_eq!(
        s.notifications(),
        &vec![Event::GraphCreated(9), Event::VertexAdded("A", 1)]
    );
}

#[test]
fn create_gives_empty_graph() {
    let mut s: GraphStore<u64, &str, u32, u32> = GraphStore::new();
    assert_eq!(s.create(2), Ok(()));
    let g = s.graph(&2).unwrap();
    assert_eq!(g.vertex_count(), 0);
    assert_eq!(g.source_count(), 0);
    assert!(s.graph(&3).is_none());
}

#[test]
fn second_vertex_label_overwrites_first() {
    let mut s: GraphStore<u64, &str, u32, String> = GraphStore::new();
    s.create(1).unwrap();
    assert_eq!(s.push_vertex(1, "v", "first".to_string()), Ok(()));
    assert_eq!(s.push_vertex(1, "v", "second".to_string()), Ok(()));
    let g = s.graph(&1).unwrap();
    assert_eq!(g.vertex(&"v"), Some(&"second".to_string()));
    assert_eq!(g.vertex_count(), 1);
}

#[test]
fn directed_edge_is_last_arc_of_source_only() {
    let mut s: GraphStore<u64, &str, u32, ()> = GraphStore::new();
    s.create(1).unwrap();
    s.push_edge(1, "a", "c", 7).unwrap();
    assert_eq!(s.push_edge(1, "a", "b", 8), Ok(()));
    let g = s.graph(&1).unwrap();
    assert_eq!(g.arcs(&"a"), Some(&vec![("c", 7), ("b", 8)]));
    assert_eq!(g.arcs(&"a").unwrap().last(), Some(&("b", 8)));
    assert!(g.arcs(&"b").is_none());
    assert_eq!(
        s.notifications().last(),
        Some(&Event::EdgeAdded("a", "b", 8))
    );
}

#[test]
fn undirected_edge_gives_arcs_both_ways() {
    let mut s: GraphStore<u64, &str, Vec<u8>, ()> = GraphStore::new();
    s.create(1).unwrap();
    assert_eq!(s.push_undirected_edge(1, "a", "b", vec![1, 2]), Ok(()));
    let g = s.graph(&1).unwrap();
    let forward = g.arcs(&"a").unwrap();
    let backward = g.arcs(&"b").unwrap();
    assert_eq!(forward, &vec![("b", vec![1, 2])]);
    assert_eq!(backward, &vec![("a", vec![1, 2])]);
    assert_ne!(forward[0].1.as_ptr(), backward[0].1.as_ptr());
    assert_eq!(
        s.notifications().last(),
        Some(&Event::UndirectedEdgeAdded("a", "b", vec![1, 2]))
    );
    assert_eq!(s.notifications().len(), 2);
}

#[test]
fn undirected_self_loop_gives_two_arcs() {
    let mut g: Graph<&str, u32, ()> = Graph::new();
    g.push_undirected_edge("a", "a", 3);
    assert_eq!(g.arcs(&"a"), Some(&vec![("a", 3), ("a", 3)]));
    assert_eq!(g.source_count(), 1);
}

#[test]
fn edges_between_unknown_vertices_add_no_vertex() {
    let mut s: GraphStore<u64, &str, u32, u32> = GraphStore::new();
    s.create(1).unwrap();
    assert_eq!(s.push_edge(1, "x", "y", 1), Ok(()));
    assert_eq!(s.push_undirected_edge(1, "p", "q", 2), Ok(()));
    let g = s.graph(&1).unwrap();
    assert_eq!(g.vertex_count(), 0);
    assert!(g.vertex(&"x").is_none());
    assert!(g.vertex(&"q").is_none());
    assert_eq!(g.source_count(), 3);
}

#[test]
fn unlabelled_vertices_and_one_edge() {
    let mut s: GraphStore<u64, &str, Direction, ()> = GraphStore::new();
    assert_eq!(s.create(1), Ok(()));
    assert_eq!(s.push_vid(1, "A"), Ok(()));
    assert_eq!(s.push_vid(1, "E"), Ok(()));
    assert_eq!(s.push_edge(1, "A", "E", Direction::Right), Ok(()));
    let g = s.graph(&1).unwrap();
    assert_eq!(g.vertex_count(), 2);
    assert_eq!(g.vertex(&"A"), Some(&()));
    assert_eq!(g.vertex(&"E"), Some(&()));
    assert_eq!(g.source_count(), 1);
    assert_eq!(g.arcs(&"A"), Some(&vec![("E", Direction::Right)]));
    assert_eq!(
        s.notifications(),
        &vec![
            Event::GraphCreated(1),
            Event::VerticesAdded("A"),
            Event::VerticesAdded("E"),
            Event::EdgeAdded("A", "E", Direction::Right),
        ]
    );
}

#[test]
fn undirected_edge_without_vertices() {
    let mut s: GraphStore<u64, &str, u32, ()> = GraphStore::new();
    s.create(1).unwrap();
    assert_eq!(s.push_undirected_edge(1, "A", "B", 5), Ok(()));
    let g = s.graph(&1).unwrap();
    assert_eq!(g.source_count(), 2);
    assert_eq!(g.arcs(&"A"), Some(&vec![("B", 5)]));
    assert_eq!(g.arcs(&"B"), Some(&vec![("A", 5)]));
    assert_eq!(g.vertex_count(), 0);
}

#[test]
fn repeated_edge_is_not_merged() {
    let mut s: GraphStore<u64, &str, char, ()> = GraphStore::new();
    s.create(1).unwrap();
    s.push_edge(1, "A", "B", 'X').unwrap();
    s.push_edge(1, "A", "B", 'X').unwrap();
    let g = s.graph(&1).unwrap();
    assert_eq!(g.arcs(&"A"), Some(&vec![("B", 'X'), ("B", 'X')]));
    assert_eq!(s.notifications().len(), 3);
}

#[test]
fn graph_methods_without_store() {
    let mut g: Graph<u32, u32, u32> = Graph::new();
    g.push_vertex(1, 10);
    g.push_vertex(1, 11);
    g.push_edge(1, 2, 5);
    assert_eq!(g.vertex(&1), Some(&11));
    assert_eq!(g.vertex_count(), 1);
    assert_eq!(g.arcs(&1), Some(&vec![(2, 5)]));
    assert!(g.arcs(&2).is_none());

    let mut u: Graph<u32, u32, ()> = Graph::new();
    u.push_vid(4);
    assert_eq!(u.vertex(&4), Some(&()));
}

#[test]
fn failed_call_records_nothing() {
    let mut s: GraphStore<u64, &str, u32, u32> = GraphStore::new();
    s.create(1).unwrap();
    assert_eq!(s.push_edge(2, "a", "b", 1), Err(GraphError::NotFound));
    assert_eq!(s.create(1), Err(GraphError::AlreadyExists));
    assert_eq!(s.notifications(), &vec![Event::GraphCreated(1)]);
    assert_eq!(s.graph(&1).unwrap().source_count(), 0);
}
