//! Consensus-side data: identifiers, heights and state commitments of tracked chains.

use crate::error::Error;
use crate::host::Host;
use crate::messaging::Proof;
use crate::router::RequestResponse;
use crate::state_machine::StateMachine;
use crate::store::TableKey;
use vstd::prelude::*;

verus! {

/// Identifies a verification algorithm.
pub type ConsensusClientId = [u8; 4];

/// Identifies one trusted consensus state instance.
pub type ConsensusStateId = [u8; 4];

/// The root of a remote chain at some height.
#[derive(Debug, Clone, Copy, PartialEq, Eq)]
pub struct StateCommitment {
    /// Timestamp in seconds.
    pub timestamp: u64,
    /// Root of the protocol's own commitment trie, where the chain keeps one.
    pub ismp_root: Option<[u8; 32]>,
    /// Root of the chain's state trie.
    pub state_root: [u8; 32],
}

/// A height and the commitment that a consensus proof established for it.
#[derive(Debug, Clone, Copy, PartialEq, Eq)]
pub struct IntermediateState {
    pub height: u64,
    pub commitment: StateCommitment,
}

/// A state machine as tracked through one consensus state.
#[derive(Debug, Clone, Copy, PartialEq, Eq, Hash, PartialOrd, Ord)]
pub struct StateMachineId {
    pub state_id: StateMachine,
    pub consensus_state_id: ConsensusStateId,
}

/// A height of a tracked state machine.
#[derive(Debug, Clone, Copy, PartialEq, Eq, Hash, PartialOrd, Ord)]
pub struct StateMachineHeight {
    pub id: StateMachineId,
    pub height: u64,
}

impl TableKey for StateMachineId {
    fn same(&self, other: &Self) -> (r: bool) {
        self.state_id == other.state_id && self.consensus_state_id.same(&other.consensus_state_id)
    }
}

impl TableKey for StateMachineHeight {
    fn same(&self, other: &Self) -> (r: bool) {
        self.height == other.height && self.id.same(&other.id)
    }
}

/// The verification algorithms of the consensus clients that a host registered, told apart by
/// client id. What they decide is taken as given: no handler assumes anything of their results.
pub trait ConsensusClient {
    /// Verifies `proof` against the trusted state; returns the new trusted state and the
    /// commitments that the proof establishes, per state machine.
    fn verify_consensus(
        &self,
        host: &Host,
        consensus_client_id: ConsensusClientId,
        consensus_state_id: ConsensusStateId,
        trusted_consensus_state: Vec<u8>,
        proof: Vec<u8>,
    ) -> Result<(Vec<u8>, Vec<(StateMachine, IntermediateState)>), Error>;

    /// Verifies that two proofs show conflicting consensus.
    fn verify_fraud_proof(
        &self,
        host: &Host,
        consensus_client_id: ConsensusClientId,
        trusted_consensus_state: Vec<u8>,
        proof_1: Vec<u8>,
        proof_2: Vec<u8>,
    ) -> Result<(), Error>;

    /// Verifies that `item` is committed under `root`.
    fn verify_membership(
        &self,
        host: &Host,
        consensus_client_id: ConsensusClientId,
        item: &RequestResponse,
        root: &StateCommitment,
        proof: &Proof,
    ) -> Result<(), Error>;

    /// The storage paths of `item` in the remote state.
    fn state_trie_key(
        &self,
        consensus_client_id: ConsensusClientId,
        item: &RequestResponse,
    ) -> Vec<Vec<u8>>;

    /// The values, present or absent, stored under `keys` in the state under `root`.
    fn verify_state_proof(
        &self,
        host: &Host,
        consensus_client_id: ConsensusClientId,
        keys: Vec<Vec<u8>>,
        root: &StateCommitment,
        proof: &Proof,
    ) -> Result<Vec<Option<Vec<u8>>>, Error>;
}

} // verus!
