//! Failures of the message handlers.

use crate::consensus::{ConsensusClientId, ConsensusStateId, StateMachineHeight};
use crate::state_machine::StateMachine;
use vstd::prelude::*;

verus! {

#[derive(Debug, Clone, PartialEq, Eq)]
pub enum Error {
    /// No consensus client is registered under this id.
    UnknownConsensusClient { consensus_client_id: ConsensusClientId },
    /// No consensus client is recorded for this consensus state.
    ConsensusStateIdNotRecognized { consensus_state_id: ConsensusStateId },
    /// The trusted state or its update time is missing.
    ConsensusStateNotFound { consensus_state_id: ConsensusStateId },
    /// No commitment is stored at this height.
    StateCommitmentNotFound { height: StateMachineHeight },
    /// The last consensus update is still inside its challenge window.
    ChallengePeriodNotElapsed {
        consensus_client_id: ConsensusClientId,
        current_time: u64,
        update_time: u64,
    },
    /// The trusted state is older than the unbonding period.
    UnbondingPeriodElapsed { consensus_state_id: ConsensusStateId },
    /// The consensus state was frozen after a fraud proof.
    FrozenConsensusClient { consensus_state_id: ConsensusStateId },
    /// The state machine is frozen at this height.
    FrozenStateMachine { height: StateMachineHeight },
    MembershipProofVerificationFailed,
    NonMembershipProofVerificationFailed,
    ConsensusProofVerificationFailed,
    /// The request that a response or timeout refers to was never committed here.
    RequestCommitmentNotFound { nonce: u64, source: StateMachine, dest: StateMachine },
    /// The destination had not passed the request's timeout at the proven height.
    RequestTimeoutVerificationFailed { nonce: u64, source: StateMachine, dest: StateMachine },
    /// An administrative message was routed through the message handler.
    CannotHandleMessage,
    ImplementationSpecific(String),
}

} // verus!
