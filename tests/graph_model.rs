use petgraph::algo::is_isomorphic_matching;
use petgraph::Graph;
use sunscreen_compiler_common::{
    CompilationResult, DebugData, Edge, EdgeInfo, GraphRecord, Group, NodeIndex, NodeInfo,
};

#[derive(Clone, Debug, PartialEq, Eq)]
enum Op {
    Input,
    Add,
    Neg,
}

fn edge(s: usize, t: usize, info: EdgeInfo) -> Edge {
    Edge {
        source: NodeIndex(s),
        target: NodeIndex(t),
        info,
    }
}

fn sample() -> CompilationResult<Op> {
    let mut g = CompilationResult::new();
    let a = g.add_node(NodeInfo::new(Op::Input, None));
    let b = g.add_node(NodeInfo::new(Op::Input, None));
    let s = g.add_node(NodeInfo::new(Op::Add, None));
    g.add_edge(a, s, EdgeInfo::Left);
    g.add_edge(b, s, EdgeInfo::Right);
    let n = g.add_node(NodeInfo::new(Op::Neg, None));
    g.add_edge(s, n, EdgeInfo::Unary);
    g
}

fn to_petgraph(g: &CompilationResult<Op>) -> Graph<NodeInfo<Op>, EdgeInfo> {
    let mut p = Graph::new();
    for n in g.nodes() {
        p.add_node(n.clone());
    }
    for e in g.edges() {
        p.add_edge(
            petgraph::graph::NodeIndex::new(e.source.0),
            petgraph::graph::NodeIndex::new(e.target.0),
            e.info,
        );
    }
    p
}

#[test]
fn edge_info_predicates() {
    assert!(EdgeInfo::Left.is_left());
    assert!(!EdgeInfo::Left.is_right());
    assert!(!EdgeInfo::Left.is_unary());
    assert!(EdgeInfo::Right.is_right());
    assert!(!EdgeInfo::Right.is_left());
    assert!(EdgeInfo::Unary.is_unary());
    assert!(!EdgeInfo::Unary.is_left());
    for e in [EdgeInfo::Unordered, EdgeInfo::Ordered(2)] {
        assert!(!e.is_left() && !e.is_right() && !e.is_unary());
    }
}

#[test]
fn node_info_new_keeps_fields() {
    let n = NodeInfo::new(Op::Add, Some(7));
    assert_eq!(n.operation, Op::Add);
    assert_eq!(n.group_id, Some(7));
    assert_eq!(NodeInfo::new(Op::Neg, None).group_id, None);
}

#[test]
fn empty_graph_has_no_nodes_or_edges() {
    let g: CompilationResult<Op> = CompilationResult::new();
    assert_eq!(g.node_count(), 0);
    assert_eq!(g.edge_count(), 0);
    assert!(g.metadata().groups.is_empty());
}

#[test]
fn nodes_and_edges_iterate_in_insertion_order() {
    let g = sample();
    let ops: Vec<Op> = g.nodes().iter().map(|n| n.operation.clone()).collect();
    assert_eq!(ops, vec![Op::Input, Op::Input, Op::Add, Op::Neg]);
    assert_eq!(
        g.edges(),
        &vec![
            edge(0, 2, EdgeInfo::Left),
            edge(1, 2, EdgeInfo::Right),
            edge(2, 3, EdgeInfo::Unary)
        ]
    );
    assert_eq!(g.node(NodeIndex(3)).operation, Op::Neg);
}

#[test]
fn node_index_is_insertion_position() {
    let mut g = CompilationResult::new();
    for i in 0..5usize {
        let id = g.add_node(NodeInfo::new(Op::Input, None));
        assert_eq!(id, NodeIndex(i));
        assert_eq!(id.index(), i);
    }
    assert_eq!(g.node_count(), 5);
}

#[test]
fn incoming_edges_lists_only_edges_into_target() {
    let g = sample();
    assert_eq!(
        g.incoming_edges(NodeIndex(2)),
        vec![edge(0, 2, EdgeInfo::Left), edge(1, 2, EdgeInfo::Right)]
    );
    assert_eq!(g.incoming_edges(NodeIndex(3)), vec![edge(2, 3, EdgeInfo::Unary)]);
    assert!(g.incoming_edges(NodeIndex(0)).is_empty());
}

#[test]
fn record_round_trip_gives_same_graph() {
    let original = sample();
    let record = sample().into_record();
    assert_eq!(record.nodes.len(), 4);
    assert_eq!(record.edges[2], edge(2, 3, EdgeInfo::Unary));
    let back = CompilationResult::from_record(record).unwrap();
    assert_eq!(back.nodes(), original.nodes());
    assert_eq!(back.edges(), original.edges());
    assert!(is_isomorphic_matching(
        &to_petgraph(&back),
        &to_petgraph(&original),
        |a, b| a == b,
        |a, b| a == b
    ));
}

#[test]
fn isomorphism_tells_edge_labels_apart() {
    let mut swapped = CompilationResult::new();
    let a = swapped.add_node(NodeInfo::new(Op::Input, None));
    let b = swapped.add_node(NodeInfo::new(Op::Input, None));
    let s = swapped.add_node(NodeInfo::new(Op::Add, None));
    swapped.add_edge(a, s, EdgeInfo::Left);
    swapped.add_edge(b, s, EdgeInfo::Left);
    let n = swapped.add_node(NodeInfo::new(Op::Neg, None));
    swapped.add_edge(s, n, EdgeInfo::Unary);
    assert!(!is_isomorphic_matching(
        &to_petgraph(&swapped),
        &to_petgraph(&sample()),
        |a, b| a == b,
        |a, b| a == b
    ));
}

#[test]
fn from_record_rejects_edge_to_missing_node() {
    let record = GraphRecord {
        nodes: vec![NodeInfo::new(Op::Input, None), NodeInfo::new(Op::Neg, None)],
        edges: vec![edge(0, 1, EdgeInfo::Unary), edge(1, 2, EdgeInfo::Unary)],
        metadata: DebugData::new(),
    };
    assert!(CompilationResult::from_record(record).is_none());
}

#[test]
fn from_record_rejects_edge_from_missing_node() {
    let record = GraphRecord {
        nodes: vec![NodeInfo::new(Op::Input, None)],
        edges: vec![edge(5, 0, EdgeInfo::Unordered)],
        metadata: DebugData::new(),
    };
    assert!(CompilationResult::from_record(record).is_none());
}

#[test]
fn from_record_accepts_empty_record() {
    let record: GraphRecord<Op> = GraphRecord {
        nodes: vec![],
        edges: vec![],
        metadata: DebugData::new(),
    };
    let g = CompilationResult::from_record(record).unwrap();
    assert_eq!(g.node_count(), 0);
}

#[test]
fn from_record_keeps_metadata() {
    let mut group = Group::new("square".to_owned());
    group.add_node(&NodeInfo::new(Op::Input, Some(0)));
    let record = GraphRecord {
        nodes: vec![NodeInfo::new(Op::Input, Some(0))],
        edges: vec![],
        metadata: DebugData {
            groups: vec![group],
        },
    };
    let g = CompilationResult::from_record(record).unwrap();
    assert_eq!(g.metadata().groups.len(), 1);
    assert_eq!(g.metadata().groups[0].label, "square");
    assert_eq!(g.metadata().groups[0].node_ids, vec![0]);
}

#[test]
fn add_group_records_metadata() {
    let mut g = sample();
    g.add_group(Group::new("first".to_owned()));
    g.add_group(Group::new("second".to_owned()));
    let labels: Vec<&str> = g.metadata().groups.iter().map(|x| x.label.as_str()).collect();
    assert_eq!(labels, vec!["first", "second"]);
    assert_eq!(g.node_count(), 4);
}

#[test]
fn default_graph_is_empty() {
    let g: CompilationResult<Op> = CompilationResult::default();
    assert_eq!(g.node_count(), 0);
    assert_eq!(g.edge_count(), 0);
}
