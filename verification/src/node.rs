//! The members of the cluster.

use vstd::prelude::*;

verus! {

/// A node of the cluster, as the cluster describes it.
#[derive(Debug)]
pub struct Node {
    /// The node's identifier.
    pub id: String,
    /// The address of the node's API.
    pub api_addr: String,
    /// The address of the node's Raft service.
    pub raft_addr: String,
    /// Whether the node votes.
    pub voter: bool,
    /// Whether the node can be reached.
    pub reachable: bool,
    /// Whether the node is the leader.
    pub leader: bool,
    /// The latency to the node in seconds, as the bits of a 64-bit IEEE 754
    /// number.
    pub time_bits: u64,
    /// What went wrong when the node was contacted, if anything did.
    pub error: Option<String>,
}

/// The leader among `nodes`: the first node that says it is, if one does.
pub fn leader(nodes: Vec<Node>) -> (found: Option<Node>)
    ensures
        match found {
            Some(node) => exists|i: int|
                0 <= i < nodes@.len() && node == #[trigger] nodes@[i] && node.leader && forall|
                    j: int,
                | 0 <= j < i ==> !(#[trigger] nodes@[j]).leader,
            None => forall|i: int| 0 <= i < nodes@.len() ==> !(#[trigger] nodes@[i]).leader,
        },
{
    let mut rest = nodes;
    let mut i: usize = 0;
    while i < rest.len()
        invariant
            i <= rest@.len(),
            rest@ == nodes@,
            forall|j: int| 0 <= j < i ==> !(#[trigger] nodes@[j]).leader,
        decreases rest@.len() - i,
    {
        if rest[i].leader {
            let node = rest.swap_remove(i);
            assert(node == nodes@[i as int]);
            return Some(node);
        }
        i += 1;
    }
    None
}

} // verus!
