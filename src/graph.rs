use vstd::prelude::*;

use crate::debug::{DebugData, Group};

verus! {

/// How the source of an edge (the operand) relates to its target (the
/// operation that consumes it).
#[derive(Clone, Copy, Debug, PartialEq, Eq, Structural)]
pub enum EdgeInfo {
    /// The source node is the left operand of the target.
    Left,
    /// The source node is the right operand of the target.
    Right,
    /// The source node is the only operand of the target.
    Unary,
    /// The source node is one of N operands whose order does not matter.
    Unordered,
    /// The source node is operand `i` of N ordered operands.
    Ordered(usize),
}

impl EdgeInfo {
    /// Whether this edge is a left operand.
    pub fn is_left(&self) -> (r: bool)
        ensures
            r == (*self is Left),
    {
        matches!(self, EdgeInfo::Left)
    }

    /// Whether this edge is a right operand.
    pub fn is_right(&self) -> (r: bool)
        ensures
            r == (*self is Right),
    {
        matches!(self, EdgeInfo::Right)
    }

    /// Whether this edge is a unary operand.
    pub fn is_unary(&self) -> (r: bool)
        ensures
            r == (*self is Unary),
    {
        matches!(self, EdgeInfo::Unary)
    }
}

/// The stable identity of a node: its position in insertion order.
#[derive(Clone, Copy, Debug, PartialEq, Eq, Structural)]
pub struct NodeIndex(pub usize);

impl NodeIndex {
    /// The index of the node.
    pub fn index(&self) -> (r: usize)
        ensures
            r == self.0,
    {
        self.0
    }
}

/// A directed edge from an operand to the operation that consumes it.
#[derive(Clone, Copy, Debug, PartialEq, Eq, Structural)]
pub struct Edge {
    pub source: NodeIndex,
    pub target: NodeIndex,
    pub info: EdgeInfo,
}

/// A node of the compilation graph: an operation and, when debugging is on,
/// the group id it was stamped with.
#[derive(Clone, Debug, PartialEq, Eq)]
pub struct NodeInfo<O> {
    /// The operation this node performs.
    pub operation: O,
    /// The group id of the node; `None` when debugging is off.
    pub group_id: Option<u64>,
}

impl<O> NodeInfo<O> {
    /// Creates a new `NodeInfo`.
    pub fn new(operation: O, group_id: Option<u64>) -> (r: Self)
        ensures
            r.operation == operation,
            r.group_id == group_id,
    {
        NodeInfo { operation, group_id }
    }
}

/// Every edge of `edges` joins two of the first `n` nodes.
pub open spec fn edges_within(edges: Seq<Edge>, n: nat) -> bool {
    forall|i: int|
        0 <= i < edges.len() ==> (#[trigger] edges[i]).source.0 < n && edges[i].target.0 < n
}

/// The edges of `edges` that end at `target`, in insertion order.
pub open spec fn incoming(edges: Seq<Edge>, target: NodeIndex) -> Seq<Edge>
    decreases edges.len(),
{
    if edges.len() == 0 {
        Seq::empty()
    } else {
        let rest = incoming(edges.drop_last(), target);
        if edges.last().target == target {
            rest.push(edges.last())
        } else {
            rest
        }
    }
}

/// No edge ends at a node that does not exist yet.
pub proof fn lemma_incoming_absent(edges: Seq<Edge>, fresh: NodeIndex)
    requires
        edges_within(edges, fresh.0 as nat),
    ensures
        incoming(edges, fresh) == Seq::<Edge>::empty(),
    decreases edges.len(),
{
    if edges.len() > 0 {
        let rest = edges.drop_last();
        assert(edges_within(rest, fresh.0 as nat)) by {
            assert forall|i: int| 0 <= i < rest.len() implies
                (#[trigger] rest[i]).source.0 < fresh.0 && rest[i].target.0 < fresh.0 by {
                assert(rest[i] == edges[i]);
            }
        }
        lemma_incoming_absent(rest, fresh);
        assert(edges[edges.len() - 1].target.0 < fresh.0);
    }
}

/// The structural record of a compiled graph: its nodes and its edges
/// (source, target, kind) in insertion order, and its debug metadata.
#[derive(Clone, Debug)]
pub struct GraphRecord<O> {
    pub nodes: Vec<NodeInfo<O>>,
    pub edges: Vec<Edge>,
    pub metadata: DebugData,
}

/// What reading back a record yields: the same nodes and edges when every
/// edge joins two of its nodes, nothing otherwise.
pub open spec fn decoded<O>(nodes: Seq<NodeInfo<O>>, edges: Seq<Edge>) -> Option<
    (Seq<NodeInfo<O>>, Seq<Edge>),
> {
    if edges_within(edges, nodes.len()) {
        Some((nodes, edges))
    } else {
        None
    }
}

/// The result of a frontend compiler: a directed graph of operations whose
/// node identities are stable (nodes are never renumbered), and the debug
/// metadata gathered while it was built.
#[derive(Clone, Debug)]
pub struct CompilationResult<O> {
    nodes: Vec<NodeInfo<O>>,
    edges: Vec<Edge>,
    metadata: DebugData,
}

impl<O> CompilationResult<O> {
    /// Every edge joins two existing nodes. Every operation keeps this.
    pub open spec fn well_formed(&self) -> bool {
        edges_within(self.edge_list(), self.node_list().len())
    }

    /// The nodes, in insertion order; a node's index is its position.
    pub closed spec fn node_list(&self) -> Seq<NodeInfo<O>> {
        self.nodes@
    }

    /// The edges, in insertion order.
    pub closed spec fn edge_list(&self) -> Seq<Edge> {
        self.edges@
    }

    /// The debug metadata.
    pub closed spec fn debug_data(&self) -> DebugData {
        self.metadata
    }

    /// Creates an empty graph.
    pub fn new() -> (r: Self)
        ensures
            r.node_list() == Seq::<NodeInfo<O>>::empty(),
            r.edge_list() == Seq::<Edge>::empty(),
            r.well_formed(),
            r.debug_data().groups@ == Seq::<Group>::empty(),
    {
        CompilationResult { nodes: Vec::new(), edges: Vec::new(), metadata: DebugData::new() }
    }

    /// Appends a node and returns its index.
    pub fn add_node(&mut self, info: NodeInfo<O>) -> (r: NodeIndex)
        requires
            old(self).well_formed(),
        ensures
            final(self).well_formed(),
            r.0 == old(self).node_list().len(),
            final(self).node_list() == old(self).node_list().push(info),
            final(self).edge_list() == old(self).edge_list(),
            final(self).debug_data() == old(self).debug_data(),
    {
        let r = NodeIndex(self.nodes.len());
        self.nodes.push(info);
        r
    }

    /// Appends an edge from `from` to `to`; both must be nodes of the graph.
    pub fn add_edge(&mut self, from: NodeIndex, to: NodeIndex, info: EdgeInfo)
        requires
            old(self).well_formed(),
            from.0 < old(self).node_list().len(),
            to.0 < old(self).node_list().len(),
        ensures
            final(self).well_formed(),
            final(self).node_list() == old(self).node_list(),
            final(self).edge_list() == old(self).edge_list().push(
                Edge { source: from, target: to, info },
            ),
            final(self).debug_data() == old(self).debug_data(),
    {
        self.edges.push(Edge { source: from, target: to, info });
        proof {
            assert(edges_within(self.edges@, self.nodes@.len())) by {
                assert forall|i: int| 0 <= i < self.edges@.len() implies
                    (#[trigger] self.edges@[i]).source.0 < self.nodes@.len()
                    && self.edges@[i].target.0 < self.nodes@.len() by {
                    if i < self.edges@.len() - 1 {
                        assert(self.edges@[i] == old(self).edges@[i]);
                    }
                }
            }
        }
    }

    /// Records a closed group in the debug metadata.
    pub fn add_group(&mut self, group: Group)
        requires
            old(self).well_formed(),
        ensures
            final(self).well_formed(),
            final(self).node_list() == old(self).node_list(),
            final(self).edge_list() == old(self).edge_list(),
            final(self).debug_data().groups@ == old(self).debug_data().groups@.push(group),
    {
        self.metadata.groups.push(group);
    }

    /// The number of nodes.
    pub fn node_count(&self) -> (r: usize)
        ensures
            r == self.node_list().len(),
    {
        self.nodes.len()
    }

    /// The number of edges.
    pub fn edge_count(&self) -> (r: usize)
        ensures
            r == self.edge_list().len(),
    {
        self.edges.len()
    }

    /// The nodes, in insertion order.
    pub fn nodes(&self) -> (r: &Vec<NodeInfo<O>>)
        ensures
            r@ == self.node_list(),
    {
        &self.nodes
    }

    /// The edges, in insertion order.
    pub fn edges(&self) -> (r: &Vec<Edge>)
        ensures
            r@ == self.edge_list(),
    {
        &self.edges
    }

    /// The debug metadata.
    pub fn metadata(&self) -> (r: &DebugData)
        ensures
            *r == self.debug_data(),
    {
        &self.metadata
    }

    /// The node at `index`.
    pub fn node(&self, index: NodeIndex) -> (r: &NodeInfo<O>)
        requires
            index.0 < self.node_list().len(),
        ensures
            *r == self.node_list()[index.0 as int],
    {
        &self.nodes[index.0]
    }

    /// The edges that end at `target`, in insertion order.
    pub fn incoming_edges(&self, target: NodeIndex) -> (r: Vec<Edge>)
        ensures
            r@ == incoming(self.edge_list(), target),
    {
        let mut r: Vec<Edge> = Vec::new();
        let mut i: usize = 0;
        while i < self.edges.len()
            invariant
                i <= self.edges@.len(),
                r@ == incoming(self.edges@.subrange(0, i as int), target),
            decreases self.edges@.len() - i,
        {
            let e = self.edges[i];
            assert(self.edges@.subrange(0, i + 1).drop_last() == self.edges@.subrange(0, i as int));
            if e.target == target {
                r.push(e);
            }
            i += 1;
        }
        assert(self.edges@.subrange(0, self.edges@.len() as int) == self.edges@);
        r
    }

    /// The structural record of the graph.
    pub fn into_record(self) -> (r: GraphRecord<O>)
        ensures
            r.nodes@ == self.node_list(),
            r.edges@ == self.edge_list(),
            r.metadata == self.debug_data(),
    {
        let CompilationResult { nodes, edges, metadata } = self;
        GraphRecord { nodes, edges, metadata }
    }

    /// Reads a graph back from its structural record; `None` when an edge
    /// names a node the record does not hold.
    pub fn from_record(record: GraphRecord<O>) -> (r: Option<Self>)
        ensures
            match r {
                Some(g) => g.well_formed() && decoded(record.nodes@, record.edges@) == Some(
                    (g.node_list(), g.edge_list()),
                ) && g.debug_data() == record.metadata,
                None => decoded(record.nodes@, record.edges@) is None,
            },
    {
        let n = record.nodes.len();
        let mut i: usize = 0;
        while i < record.edges.len()
            invariant
                n == record.nodes@.len(),
                i <= record.edges@.len(),
                edges_within(record.edges@.subrange(0, i as int), n as nat),
            decreases record.edges@.len() - i,
        {
            let e = record.edges[i];
            if e.source.0 >= n || e.target.0 >= n {
                assert(record.edges@[i as int] == e);
                return None;
            }
            assert(edges_within(record.edges@.subrange(0, i + 1), n as nat)) by {
                assert forall|k: int| 0 <= k < i + 1 implies
                    (#[trigger] record.edges@.subrange(0, i + 1)[k]).source.0 < n
                    && record.edges@.subrange(0, i + 1)[k].target.0 < n by {
                    if k < i {
                        assert(record.edges@.subrange(0, i + 1)[k]
                            == record.edges@.subrange(0, i as int)[k]);
                    }
                }
            }
            i += 1;
        }
        assert(record.edges@.subrange(0, record.edges@.len() as int) == record.edges@);
        let GraphRecord { nodes, edges, metadata } = record;
        Some(CompilationResult { nodes, edges, metadata })
    }
}

impl<O> Default for CompilationResult<O> {
    /// An empty graph.
    fn default() -> (r: Self)
        ensures
            r.well_formed(),
            r.node_list() == Seq::<NodeInfo<O>>::empty(),
            r.edge_list() == Seq::<Edge>::empty(),
            r.debug_data().groups@ == Seq::<Group>::empty(),
    {
        Self::new()
    }
}

/// Reading back the record of any graph gives back that graph: the same
/// nodes and the same edges, in the same order.
pub proof fn lemma_record_round_trip<O>(g: &CompilationResult<O>, record: &GraphRecord<O>)
    requires
        g.well_formed(),
        record.nodes@ == g.node_list(),
        record.edges@ == g.edge_list(),
    ensures
        decoded(record.nodes@, record.edges@) == Some((g.node_list(), g.edge_list())),
{
}

} // verus!
