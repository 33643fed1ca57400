use vstd::prelude::*;

use crate::debug::Group;
use crate::graph::{
    incoming, lemma_incoming_absent, CompilationResult, Edge, EdgeInfo, NodeIndex, NodeInfo,
};

verus! {

/// Each node carries the group id of its position when debugging is on,
/// and none when it is off.
pub open spec fn stamped<O>(nodes: Seq<NodeInfo<O>>, debugging: bool) -> bool {
    forall|i: int|
        0 <= i < nodes.len() ==> (#[trigger] nodes[i]).group_id == if debugging {
            Some(i as u64)
        } else {
            None::<u64>
        }
}

/// The node that `add_node` appends for `operation` to a graph of `n` nodes.
pub open spec fn new_node<O>(operation: O, debugging: bool, n: nat) -> NodeInfo<O> {
    NodeInfo { operation, group_id: if debugging { Some(n as u64) } else { None } }
}

/// `after` is `before` with `id` recorded in the innermost open group, if
/// there is one.
pub open spec fn recorded_in_top(before: Seq<Group>, after: Seq<Group>, id: u64) -> bool {
    &&& after.len() == before.len()
    &&& forall|i: int| 0 <= i < before.len() - 1 ==> after[i] == before[i]
    &&& before.len() > 0 ==> {
        &&& after.last().label == before.last().label
        &&& after.last().node_ids@ == before.last().node_ids@.push(id)
    }
}

/// A compilation context: the graph under construction, the data given by
/// the front-end that drives it and, in debug mode, the group-id counter and
/// the stack of open groups.
#[derive(Clone, Debug)]
pub struct Context<O, D> {
    graph: CompilationResult<O>,
    data: D,
    debugging: bool,
    group_counter: u64,
    group_stack: Vec<Group>,
}

impl<O, D> Context<O, D> {
    /// The graph under construction.
    pub closed spec fn compiled(&self) -> CompilationResult<O> {
        self.graph
    }

    /// The data given by the front-end (for instance accumulated constraints).
    pub closed spec fn payload(&self) -> D {
        self.data
    }

    /// Whether nodes are stamped with group ids.
    pub closed spec fn debugging(&self) -> bool {
        self.debugging
    }

    /// The group id the next node will get.
    pub closed spec fn next_group_id(&self) -> u64 {
        self.group_counter
    }

    /// The open groups, innermost last.
    pub closed spec fn open_groups(&self) -> Seq<Group> {
        self.group_stack@
    }

    /// The graph is well formed, its nodes are stamped in creation order and,
    /// in debug mode, the counter equals the number of nodes created.
    pub open spec fn well_formed(&self) -> bool {
        &&& self.compiled().well_formed()
        &&& stamped(self.compiled().node_list(), self.debugging())
        &&& self.debugging() ==> self.next_group_id() == self.compiled().node_list().len()
        &&& !self.debugging() ==> self.open_groups().len() == 0
    }

    /// Creates a context with an empty graph and debugging off.
    pub fn new(data: D) -> (r: Self)
        ensures
            r.well_formed(),
            !r.debugging(),
            r.payload() == data,
            r.compiled().node_list() == Seq::<NodeInfo<O>>::empty(),
            r.compiled().edge_list() == Seq::<Edge>::empty(),
            r.compiled().debug_data().groups@ == Seq::<Group>::empty(),
    {
        Context {
            graph: CompilationResult::new(),
            data,
            debugging: false,
            group_counter: 0,
            group_stack: Vec::new(),
        }
    }

    /// Creates a context with an empty graph and debugging on: every node is
    /// stamped with a group id, starting from 0.
    pub fn new_debug(data: D) -> (r: Self)
        ensures
            r.well_formed(),
            r.debugging(),
            r.payload() == data,
            r.next_group_id() == 0,
            r.open_groups() == Seq::<Group>::empty(),
            r.compiled().node_list() == Seq::<NodeInfo<O>>::empty(),
            r.compiled().edge_list() == Seq::<Edge>::empty(),
            r.compiled().debug_data().groups@ == Seq::<Group>::empty(),
    {
        Context {
            graph: CompilationResult::new(),
            data,
            debugging: true,
            group_counter: 0,
            group_stack: Vec::new(),
        }
    }

    /// The graph under construction.
    pub fn graph(&self) -> (r: &CompilationResult<O>)
        ensures
            *r == self.compiled(),
    {
        &self.graph
    }

    /// Ends the compilation and hands over its graph.
    pub fn into_graph(self) -> (r: CompilationResult<O>)
        ensures
            r == self.compiled(),
    {
        self.graph
    }

    /// The data given by the front-end.
    pub fn data(&self) -> (r: &D)
        ensures
            *r == self.payload(),
    {
        &self.data
    }

    /// Mutable access to the data given by the front-end; the graph and the
    /// group state are left as they are.
    pub fn data_mut(&mut self) -> (r: &mut D)
        ensures
            *r == old(self).payload(),
            final(self).payload() == *final(r),
            final(self).compiled() == old(self).compiled(),
            final(self).debugging() == old(self).debugging(),
            final(self).next_group_id() == old(self).next_group_id(),
            final(self).open_groups() == old(self).open_groups(),
    {
        &mut self.data
    }

    /// Whether debugging is on.
    pub fn is_debug(&self) -> (r: bool)
        ensures
            r == self.debugging(),
    {
        self.debugging
    }

    /// The group id the next node will get.
    pub fn group_counter(&self) -> (r: u64)
        ensures
            r == self.next_group_id(),
    {
        self.group_counter
    }

    /// The open groups, innermost last.
    pub fn group_stack(&self) -> (r: &Vec<Group>)
        ensures
            r@ == self.open_groups(),
    {
        &self.group_stack
    }

    /// Appends a node for `operation`. In debug mode it is stamped with the
    /// next group id, which is also recorded in the innermost open group.
    pub fn add_node(&mut self, operation: O) -> (r: NodeIndex)
        requires
            old(self).well_formed(),
        ensures
            final(self).well_formed(),
            r.0 == old(self).compiled().node_list().len(),
            final(self).compiled().node_list() == old(self).compiled().node_list().push(
                new_node(operation, old(self).debugging(), old(self).compiled().node_list().len()),
            ),
            final(self).compiled().edge_list() == old(self).compiled().edge_list(),
            final(self).compiled().debug_data() == old(self).compiled().debug_data(),
            final(self).debugging() == old(self).debugging(),
            final(self).payload() == old(self).payload(),
            old(self).debugging() ==> recorded_in_top(
                old(self).open_groups(),
                final(self).open_groups(),
                old(self).next_group_id(),
            ),
    {
        let node = if self.debugging {
            let id = self.group_counter;
            let node = NodeInfo::new(operation, Some(id));
            if self.group_stack.len() > 0 {
                let mut top = self.group_stack.pop().unwrap();
                top.add_node(&node);
                self.group_stack.push(top);
            }
            node
        } else {
            NodeInfo::new(operation, None)
        };
        let r = self.graph.add_node(node);
        if self.debugging {
            let n = self.graph.node_count();
            self.group_counter = self.group_counter + 1;
            assert(self.group_counter == n);
        }
        proof {
            let nodes = self.graph.node_list();
            assert forall|i: int| 0 <= i < nodes.len() implies (#[trigger] nodes[i]).group_id
                == if self.debugging {
                Some(i as u64)
            } else {
                None::<u64>
            } by {
                if i < nodes.len() - 1 {
                    assert(nodes[i] == old(self).graph.node_list()[i]);
                }
            }
        }
        r
    }

    /// Appends a node for a binary `operation` with a `Left` edge from `left`
    /// and a `Right` edge from `right`: the only edges that end at it.
    pub fn add_binary_operation(&mut self, operation: O, left: NodeIndex, right: NodeIndex) -> (r:
        NodeIndex)
        requires
            old(self).well_formed(),
            left.0 < old(self).compiled().node_list().len(),
            right.0 < old(self).compiled().node_list().len(),
        ensures
            final(self).well_formed(),
            r.0 == old(self).compiled().node_list().len(),
            final(self).compiled().node_list() == old(self).compiled().node_list().push(
                new_node(operation, old(self).debugging(), old(self).compiled().node_list().len()),
            ),
            final(self).compiled().edge_list() == old(self).compiled().edge_list().push(
                Edge { source: left, target: r, info: EdgeInfo::Left },
            ).push(Edge { source: right, target: r, info: EdgeInfo::Right }),
            incoming(final(self).compiled().edge_list(), r) == seq![
                Edge { source: left, target: r, info: EdgeInfo::Left },
                Edge { source: right, target: r, info: EdgeInfo::Right },
            ],
            forall|t: NodeIndex|
                t.0 < old(self).compiled().node_list().len() ==> #[trigger] incoming(
                    final(self).compiled().edge_list(),
                    t,
                ) == incoming(old(self).compiled().edge_list(), t),
            final(self).compiled().debug_data() == old(self).compiled().debug_data(),
            final(self).debugging() == old(self).debugging(),
            final(self).payload() == old(self).payload(),
            old(self).debugging() ==> recorded_in_top(
                old(self).open_groups(),
                final(self).open_groups(),
                old(self).next_group_id(),
            ),
    {
        let node = self.add_node(operation);
        self.graph.add_edge(left, node, EdgeInfo::Left);
        self.graph.add_edge(right, node, EdgeInfo::Right);
        proof {
            let before = old(self).graph.edge_list();
            lemma_incoming_absent(before, node);
            let e1 = Edge { source: left, target: node, info: EdgeInfo::Left };
            let e2 = Edge { source: right, target: node, info: EdgeInfo::Right };
            assert(before.push(e1).drop_last() == before);
            assert(before.push(e1).push(e2).drop_last() == before.push(e1));
            assert(incoming(before.push(e1), node) == seq![e1]);
            assert(incoming(before.push(e1).push(e2), node) == seq![e1].push(e2));
            assert(seq![e1].push(e2) =~= seq![e1, e2]);
            assert forall|t: NodeIndex| t.0 < old(self).graph.node_list().len()
                implies #[trigger] incoming(before.push(e1).push(e2), t) == incoming(before, t) by {
                assert(incoming(before.push(e1), t) == incoming(before, t));
                assert(incoming(before.push(e1).push(e2), t) == incoming(before.push(e1), t));
            }
        }
        node
    }

    /// Appends a node for a unary `operation` with a `Unary` edge from
    /// `parent`: the only edge that ends at it.
    pub fn add_unary_operation(&mut self, operation: O, parent: NodeIndex) -> (r: NodeIndex)
        requires
            old(self).well_formed(),
            parent.0 < old(self).compiled().node_list().len(),
        ensures
            final(self).well_formed(),
            r.0 == old(self).compiled().node_list().len(),
            final(self).compiled().node_list() == old(self).compiled().node_list().push(
                new_node(operation, old(self).debugging(), old(self).compiled().node_list().len()),
            ),
            final(self).compiled().edge_list() == old(self).compiled().edge_list().push(
                Edge { source: parent, target: r, info: EdgeInfo::Unary },
            ),
            incoming(final(self).compiled().edge_list(), r) == seq![
                Edge { source: parent, target: r, info: EdgeInfo::Unary },
            ],
            forall|t: NodeIndex|
                t.0 < old(self).compiled().node_list().len() ==> #[trigger] incoming(
                    final(self).compiled().edge_list(),
                    t,
                ) == incoming(old(self).compiled().edge_list(), t),
            final(self).compiled().debug_data() == old(self).compiled().debug_data(),
            final(self).debugging() == old(self).debugging(),
            final(self).payload() == old(self).payload(),
            old(self).debugging() ==> recorded_in_top(
                old(self).open_groups(),
                final(self).open_groups(),
                old(self).next_group_id(),
            ),
    {
        let node = self.add_node(operation);
        self.graph.add_edge(parent, node, EdgeInfo::Unary);
        proof {
            let before = old(self).graph.edge_list();
            lemma_incoming_absent(before, node);
            let e = Edge { source: parent, target: node, info: EdgeInfo::Unary };
            assert(before.push(e).drop_last() == before);
            assert(incoming(before.push(e), node) =~= seq![e]);
            assert forall|t: NodeIndex| t.0 < old(self).graph.node_list().len()
                implies #[trigger] incoming(before.push(e), t) == incoming(before, t) by {
                assert(before.push(e).drop_last() == before);
            }
        }
        node
    }

    /// Appends an edge from `from` to `to`, for operations with more than
    /// two operands.
    pub fn add_edge(&mut self, from: NodeIndex, to: NodeIndex, edge: EdgeInfo)
        requires
            old(self).well_formed(),
            from.0 < old(self).compiled().node_list().len(),
            to.0 < old(self).compiled().node_list().len(),
        ensures
            final(self).well_formed(),
            final(self).compiled().node_list() == old(self).compiled().node_list(),
            final(self).compiled().edge_list() == old(self).compiled().edge_list().push(
                Edge { source: from, target: to, info: edge },
            ),
            final(self).compiled().debug_data() == old(self).compiled().debug_data(),
            final(self).debugging() == old(self).debugging(),
            final(self).next_group_id() == old(self).next_group_id(),
            final(self).open_groups() == old(self).open_groups(),
            final(self).payload() == old(self).payload(),
    {
        self.graph.add_edge(from, to, edge);
    }

    /// Opens a group named `label`: nodes created until it is closed are
    /// recorded in it (in the innermost group only, when groups nest). With
    /// debugging off nothing is recorded and the call changes nothing.
    pub fn push_group(&mut self, label: String)
        requires
            old(self).well_formed(),
        ensures
            final(self).well_formed(),
            final(self).compiled() == old(self).compiled(),
            final(self).debugging() == old(self).debugging(),
            final(self).next_group_id() == old(self).next_group_id(),
            final(self).payload() == old(self).payload(),
            old(self).debugging() ==> {
                &&& final(self).open_groups().len() == old(self).open_groups().len() + 1
                &&& final(self).open_groups().drop_last() == old(self).open_groups()
                &&& final(self).open_groups().last().label@ == label@
                &&& final(self).open_groups().last().node_ids@ == Seq::<u64>::empty()
            },
            !old(self).debugging() ==> final(self).open_groups() == old(self).open_groups(),
    {
        if self.debugging {
            self.group_stack.push(Group::new(label));
            assert(self.group_stack@.drop_last() == old(self).group_stack@);
        }
    }

    /// Closes the innermost open group and records it in the graph's debug
    /// metadata. With no open group nothing changes.
    pub fn pop_group(&mut self)
        requires
            old(self).well_formed(),
        ensures
            final(self).well_formed(),
            final(self).compiled().node_list() == old(self).compiled().node_list(),
            final(self).compiled().edge_list() == old(self).compiled().edge_list(),
            final(self).debugging() == old(self).debugging(),
            final(self).next_group_id() == old(self).next_group_id(),
            final(self).payload() == old(self).payload(),
            old(self).open_groups().len() > 0 ==> {
                &&& final(self).open_groups() == old(self).open_groups().drop_last()
                &&& final(self).compiled().debug_data().groups@
                    == old(self).compiled().debug_data().groups@.push(old(self).open_groups().last())
            },
            old(self).open_groups().len() == 0 ==> final(self).compiled() == old(self).compiled()
                && final(self).open_groups() == old(self).open_groups(),
    {
        match self.group_stack.pop() {
            Some(group) => self.graph.add_group(group),
            None => {},
        }
    }
}

/// In debug mode the group ids of the nodes are strictly increasing in
/// creation order, every node has one, and the counter equals the number of
/// nodes created.
pub proof fn lemma_group_ids_increasing<O, D>(ctx: &Context<O, D>)
    requires
        ctx.well_formed(),
        ctx.debugging(),
    ensures
        forall|i: int|
            0 <= i < ctx.compiled().node_list().len() ==> (
            #[trigger] ctx.compiled().node_list()[i]).group_id is Some,
        forall|i: int, j: int|
            0 <= i < j < ctx.compiled().node_list().len() ==> (
            #[trigger] ctx.compiled().node_list()[i]).group_id->0 < (
            #[trigger] ctx.compiled().node_list()[j]).group_id->0,
        ctx.next_group_id() == ctx.compiled().node_list().len(),
{
    let nodes = ctx.compiled().node_list();
    assert forall|i: int, j: int| 0 <= i < j < nodes.len() implies (
    #[trigger] nodes[i]).group_id->0 < (#[trigger] nodes[j]).group_id->0 by {
        assert(nodes[i].group_id == Some(i as u64));
        assert(nodes[j].group_id == Some(j as u64));
    }
}

} // verus!