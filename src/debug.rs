use vstd::prelude::*;

use crate::graph::NodeInfo;

verus! {

/// The nodes attributed to one logical program construct (an operation or
/// a gadget), for the debugger.
#[derive(Clone, Debug)]
pub struct Group {
    /// The name of the construct.
    pub label: String,
    /// The group ids of the nodes created while the construct was open.
    pub node_ids: Vec<u64>,
}

impl Group {
    /// Creates an empty group with the given label.
    pub fn new(name: String) -> (r: Self)
        ensures
            r.label@ == name@,
            r.node_ids@ == Seq::<u64>::empty(),
    {
        Group { label: name, node_ids: Vec::new() }
    }

    /// Records a node in the group, by its group id. A node without a
    /// group id (debugging off) leaves the group unchanged.
    pub fn add_node<O>(&mut self, node: &NodeInfo<O>)
        ensures
            final(self).label == old(self).label,
            final(self).node_ids@ == match node.group_id {
                Some(id) => old(self).node_ids@.push(id),
                None => old(self).node_ids@,
            },
    {
        match node.group_id {
            Some(id) => self.node_ids.push(id),
            None => {},
        }
    }
}

/// Debug metadata that travels with a compiled graph: the groups that were
/// closed during its compilation, in the order they were closed.
#[derive(Clone, Debug)]
pub struct DebugData {
    pub groups: Vec<Group>,
}

impl DebugData {
    /// Creates metadata with no groups.
    pub fn new() -> (r: Self)
        ensures
            r.groups@ == Seq::<Group>::empty(),
    {
        DebugData { groups: Vec::new() }
    }
}

} // verus!
