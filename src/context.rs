use vstd::prelude::*;

use crate::directory::{others, AddressDirectory, NodeAddress};
use crate::error::DirectoryError;

verus! {

/// What one node sees during one round: its index and address, the round, the
/// node count, every other node's address and the shared setup data. It only
/// borrows the directory and the setup data, and lives for one round.
pub struct RoundContext<'a, T> {
    round: u32,
    node_index: usize,
    directory: &'a AddressDirectory,
    setup: &'a T,
}

impl<'a, T> RoundContext<'a, T> {
    pub closed spec fn spec_round(&self) -> u32 {
        self.round
    }

    pub closed spec fn spec_node_index(&self) -> usize {
        self.node_index
    }

    pub closed spec fn spec_directory(&self) -> Seq<NodeAddress> {
        self.directory@
    }

    pub closed spec fn spec_setup(&self) -> T {
        *self.setup
    }

    pub open spec fn wf(&self) -> bool {
        self.spec_node_index() < self.spec_directory().len()
    }

    /// The context of node `node_index` in `round`; `None` when no node has that
    /// index.
    pub fn new(directory: &'a AddressDirectory, setup: &'a T, round: u32, node_index: usize) -> (r:
        Option<RoundContext<'a, T>>)
        ensures
            node_index < directory@.len() <==> r is Some,
            r matches Some(c) ==> {
                &&& c.wf()
                &&& c.spec_round() == round
                &&& c.spec_node_index() == node_index
                &&& c.spec_directory() == directory@
                &&& c.spec_setup() == *setup
            },
    {
        if node_index < directory.node_count() {
            Some(RoundContext { round, node_index, directory, setup })
        } else {
            None
        }
    }

    pub fn round_number(&self) -> (r: u32)
        ensures
            r == self.spec_round(),
    {
        self.round
    }

    pub fn node_index(&self) -> (r: usize)
        ensures
            r == self.spec_node_index(),
    {
        self.node_index
    }

    pub fn node_count(&self) -> (r: usize)
        ensures
            r == self.spec_directory().len(),
    {
        self.directory.node_count()
    }

    /// This node's own address.
    pub fn self_address(&self) -> (r: NodeAddress)
        requires
            self.wf(),
        ensures
            r == self.spec_directory()[self.spec_node_index() as int],
    {
        self.directory.entry(self.node_index)
    }

    /// The address of any node.
    pub fn address_of(&self, index: usize) -> (r: Result<NodeAddress, DirectoryError>)
        ensures
            index < self.spec_directory().len() ==> r == Ok::<NodeAddress, DirectoryError>(
                self.spec_directory()[index as int],
            ),
            index >= self.spec_directory().len() ==> r == Err::<NodeAddress, DirectoryError>(
                DirectoryError::UnknownNode { index },
            ),
    {
        self.directory.address_of(index)
    }

    /// The addresses of every other node, in index order.
    pub fn other_addresses(&self) -> (r: Vec<NodeAddress>)
        ensures
            r@ == others(self.spec_directory(), self.spec_node_index() as int),
    {
        self.directory.addresses_except(self.node_index)
    }

    /// The setup data shared by every node.
    pub fn setup_data(&self) -> (r: &'a T)
        ensures
            *r == self.spec_setup(),
    {
        self.setup
    }
}

} // verus!
