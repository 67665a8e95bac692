use vstd::prelude::*;

verus! {

/// The single terminal cause that a simulation run reports.
#[derive(Clone, Copy, Debug, PartialEq, Eq, Structural)]
pub enum HarnessError {
    /// Node count or round limit is zero; the run never starts.
    Configuration,
    /// The setup-data factory failed; no node is spawned.
    Setup,
    /// The node with this index failed to spawn.
    Spawn { node: usize },
    /// The tick of `node` in `round` failed.
    Round { round: u32, node: usize },
    /// The check of `node` after `round` did not hold.
    Check { round: u32, node: usize },
}

/// A failed lookup in the address directory.
#[derive(Clone, Copy, Debug, PartialEq, Eq, Structural)]
pub enum DirectoryError {
    /// No node has this index.
    UnknownNode { index: usize },
}

} // verus!
