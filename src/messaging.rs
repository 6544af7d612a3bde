//! The messages that the handlers accept.

use crate::consensus::{
    ConsensusClientId, ConsensusStateId, IntermediateState, StateMachineHeight, StateMachineId,
};
use crate::router::{Request, Response};
use vstd::prelude::*;

verus! {

/// A proof against the commitment of a state machine at a height.
#[derive(Debug, Clone, PartialEq, Eq)]
pub struct Proof {
    pub height: StateMachineHeight,
    pub proof: Vec<u8>,
}

/// A consensus update for one consensus state.
#[derive(Debug, Clone, PartialEq, Eq)]
pub struct ConsensusMessage {
    pub consensus_state_id: ConsensusStateId,
    pub consensus_proof: Vec<u8>,
}

/// Two conflicting consensus proofs.
#[derive(Debug, Clone, PartialEq, Eq)]
pub struct FraudProofMessage {
    pub consensus_state_id: ConsensusStateId,
    pub proof_1: Vec<u8>,
    pub proof_2: Vec<u8>,
}

/// Requests to deliver, with a proof that they were committed on their source.
#[derive(Debug, Clone, PartialEq, Eq)]
pub struct RequestMessage {
    pub requests: Vec<Request>,
    pub proof: Proof,
}

/// Responses to deliver, with a proof that they were committed on their source.
#[derive(Debug, Clone, PartialEq, Eq)]
pub struct ResponseMessage {
    pub responses: Vec<Response>,
    pub proof: Proof,
}

/// Outbound requests that their destination never received in time.
#[derive(Debug, Clone, PartialEq, Eq)]
pub struct TimeoutMessage {
    pub requests: Vec<Request>,
    pub timeout_proof: Proof,
}

/// Bootstraps a tracked chain.
#[derive(Debug, Clone, PartialEq, Eq)]
pub struct CreateConsensusClient {
    pub consensus_client_id: ConsensusClientId,
    pub consensus_state_id: ConsensusStateId,
    pub consensus_state: Vec<u8>,
    pub state_machine_commitments: Vec<(StateMachineId, IntermediateState)>,
}

#[derive(Debug, Clone, PartialEq, Eq)]
pub enum Message {
    Consensus(ConsensusMessage),
    FraudProof(FraudProofMessage),
    Request(RequestMessage),
    Response(ResponseMessage),
    Timeout(TimeoutMessage),
    CreateConsensusClient(CreateConsensusClient),
}

} // verus!
