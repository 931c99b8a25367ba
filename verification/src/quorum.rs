//! Replication quorum sizes for a cluster's managed ledgers.

use vstd::prelude::*;

verus! {

/// The largest quorum ever configured, however many bookies a cluster has.
pub const MAX_QUORUM: u32 = 3;

/// How many bookies a ledger is striped over and how many must store and
/// acknowledge each entry.
#[derive(Clone, Copy, Debug, PartialEq, Eq, Structural)]
pub struct QuorumConfig {
    pub ensemble_size: u32,
    pub write_quorum: u32,
    pub ack_quorum: u32,
}

/// The quorum size for a cluster of `bookies` storage nodes: all of them, but at most three.
pub open spec fn quorum_size(bookies: nat) -> nat {
    if bookies < 3 {
        bookies
    } else {
        3
    }
}

/// The quorum configuration for a cluster of `bookies` storage nodes.
pub open spec fn quorum_for(bookies: nat) -> QuorumConfig {
    QuorumConfig {
        ensemble_size: quorum_size(bookies) as u32,
        write_quorum: quorum_size(bookies) as u32,
        ack_quorum: quorum_size(bookies) as u32,
    }
}

/// Derives the quorum configuration from the number of bookies in a cluster.
pub fn quorum(bookie_count: u32) -> (q: QuorumConfig)
    ensures
        q == quorum_for(bookie_count as nat),
        q.ensemble_size == quorum_size(bookie_count as nat),
        q.write_quorum == q.ensemble_size,
        q.ack_quorum == q.ensemble_size,
{
    let size: u32 = if bookie_count < MAX_QUORUM {
        bookie_count
    } else {
        MAX_QUORUM
    };
    QuorumConfig { ensemble_size: size, write_quorum: size, ack_quorum: size }
}

/// All three quorum sizes are the smaller of the bookie count and three, so
/// they never exceed the bookies there are.
pub proof fn lemma_quorum_is_capped_minimum(bookies: nat)
    ensures
        quorum_size(bookies) <= bookies,
        quorum_size(bookies) <= 3,
        quorum_size(bookies) == bookies || quorum_size(bookies) == 3,
        quorum_for(bookies).ensemble_size == quorum_size(bookies),
        quorum_for(bookies).write_quorum == quorum_size(bookies),
        quorum_for(bookies).ack_quorum == quorum_size(bookies),
{
}

} // verus!
