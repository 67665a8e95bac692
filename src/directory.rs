use vstd::prelude::*;

use crate::error::DirectoryError;

verus! {

/// A node's network identity: the 32 bytes of its public key.
#[derive(Clone, Copy, Debug, PartialEq, Eq)]
pub struct NodeAddress {
    pub node_id: [u8; 32],
}

/// Read-only map from node index to node address, built once after every node
/// has spawned. It has no method that changes it.
pub struct AddressDirectory {
    entries: Vec<NodeAddress>,
}

/// The addresses of `entries` without the one at `index` (all of them when no
/// node has that index), in index order.
pub open spec fn others(entries: Seq<NodeAddress>, index: int) -> Seq<NodeAddress> {
    if 0 <= index < entries.len() {
        entries.remove(index)
    } else {
        entries
    }
}

impl View for AddressDirectory {
    type V = Seq<NodeAddress>;

    closed spec fn view(&self) -> Seq<NodeAddress> {
        self.entries@
    }
}

impl AddressDirectory {
    /// Builds the directory from the address of each node, by node index.
    pub fn from_addresses(entries: Vec<NodeAddress>) -> (d: AddressDirectory)
        ensures
            d@ == entries@,
            d@.len() == entries@.len(),
    {
        AddressDirectory { entries }
    }

    /// The number of nodes in the directory.
    pub fn node_count(&self) -> (r: usize)
        ensures
            r == self@.len(),
    {
        self.entries.len()
    }

    /// The address of a node whose index is known to be in range.
    pub fn entry(&self, index: usize) -> (r: NodeAddress)
        requires
            index < self@.len(),
        ensures
            r == self@[index as int],
    {
        self.entries[index]
    }

    /// The address of the node with this index.
    pub fn address_of(&self, index: usize) -> (r: Result<NodeAddress, DirectoryError>)
        ensures
            index < self@.len() ==> r == Ok::<NodeAddress, DirectoryError>(self@[index as int]),
            index >= self@.len() ==> r == Err::<NodeAddress, DirectoryError>(
                DirectoryError::UnknownNode { index },
            ),
    {
        if index < self.entries.len() {
            Ok(self.entries[index])
        } else {
            Err(DirectoryError::UnknownNode { index })
        }
    }

    /// The addresses of every node but the one with index `self_index`, in index
    /// order.
    pub fn addresses_except(&self, self_index: usize) -> (r: Vec<NodeAddress>)
        ensures
            r@ == others(self@, self_index as int),
    {
        let ghost s = self.entries@;
        let mut r: Vec<NodeAddress> = Vec::new();
        let mut k: usize = 0;
        while k < self.entries.len()
            invariant
                s == self.entries@,
                k <= s.len(),
                k <= self_index ==> r@ == s.take(k as int),
                k > self_index ==> r@ == s.take(self_index as int) + s.subrange(
                    self_index as int + 1,
                    k as int,
                ),
            decreases s.len() - k,
        {
            if k != self_index {
                let a = self.entries[k];
                r.push(a);
            }
            proof {
                if k < self_index {
                    assert(s.take(k as int + 1) =~= s.take(k as int).push(s[k as int]));
                } else if k == self_index {
                    assert(s.subrange(self_index as int + 1, k as int + 1) =~= Seq::<
                        NodeAddress,
                    >::empty());
                    assert(s.take(k as int) + Seq::<NodeAddress>::empty() =~= s.take(k as int));
                } else {
                    assert(s.subrange(self_index as int + 1, k as int + 1) =~= s.subrange(
                        self_index as int + 1,
                        k as int,
                    ).push(s[k as int]));
                    assert(s.take(self_index as int) + s.subrange(self_index as int + 1, k as int + 1)
                        =~= (s.take(self_index as int) + s.subrange(self_index as int + 1, k as int)).push(
                        s[k as int],
                    ));
                }
            }
            k += 1;
        }
        assert(s.take(s.len() as int) =~= s);
        proof {
            if (self_index as int) < s.len() {
                assert(s.remove(self_index as int) =~= s.take(self_index as int) + s.subrange(
                    self_index as int + 1,
                    s.len() as int,
                ));
            }
        }
        r
    }
}

} // verus!
