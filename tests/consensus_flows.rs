use ismp::consensus::{
    ConsensusClient, ConsensusClientId, ConsensusStateId, IntermediateState, StateCommitment,
    StateMachineHeight, StateMachineId,
};
use ismp::error::Error;
use ismp::handlers::handle_incoming_message;
use ismp::host::{ClientConfig, Host};
use ismp::messaging::{ConsensusMessage, Message, Proof, RequestMessage};
use ismp::router::{dispatch, Post, Request, RequestResponse};
use ismp::state_machine::StateMachine;
use ismp::util::hash_request;

const ETHEREUM_CONSENSUS_ID: ConsensusClientId = [0, 0, 0, 1];

/// Returns a fixed trusted state and fixed commitments for every consensus proof.
#[derive(Clone)]
struct DummyClient {
    consensus_state: Vec<u8>,
    state_machine_commitments: Vec<(StateMachine, IntermediateState)>,
}

impl ConsensusClient for DummyClient {
    fn verify_consensus(
        &self,
        _host: &Host,
        _consensus_client_id: ConsensusClientId,
        _consensus_state_id: ConsensusStateId,
        _trusted_consensus_state: Vec<u8>,
        _proof: Vec<u8>,
    ) -> Result<(Vec<u8>, Vec<(StateMachine, IntermediateState)>), Error> {
        Ok((self.consensus_state.clone(), self.state_machine_commitments.clone()))
    }

    fn verify_fraud_proof(
        &self,
        _host: &Host,
        _consensus_client_id: ConsensusClientId,
        _trusted_consensus_state: Vec<u8>,
        _proof_1: Vec<u8>,
        _proof_2: Vec<u8>,
    ) -> Result<(), Error> {
        Err(Error::ImplementationSpecific("no fraud".to_string()))
    }

    fn verify_membership(
        &self,
        _host: &Host,
        _consensus_client_id: ConsensusClientId,
        _item: &RequestResponse,
        _root: &StateCommitment,
        _proof: &Proof,
    ) -> Result<(), Error> {
        Ok(())
    }

    fn state_trie_key(
        &self,
        _consensus_client_id: ConsensusClientId,
        _item: &RequestResponse,
    ) -> Vec<Vec<u8>> {
        vec![]
    }

    fn verify_state_proof(
        &self,
        _host: &Host,
        _consensus_client_id: ConsensusClientId,
        _keys: Vec<Vec<u8>>,
        _root: &StateCommitment,
        _proof: &Proof,
    ) -> Result<Vec<Option<Vec<u8>>>, Error> {
        Ok(vec![])
    }
}

fn root(tag: &[u8]) -> [u8; 32] {
    keccak_hash::keccak(tag).0
}

fn ethereum_height() -> StateMachineHeight {
    StateMachineHeight {
        id: StateMachineId { state_id: StateMachine::Ethereum, consensus_state_id: ETHEREUM_CONSENSUS_ID },
        height: 0,
    }
}

fn post_request() -> Request {
    Request::Post(Post {
        source_chain: StateMachine::Ethereum,
        dest_chain: StateMachine::Arbitrum,
        nonce: 45,
        from: vec![1, 2, 3],
        to: vec![2, 4, 6],
        timeout_timestamp: 45,
        data: vec![1, 2, 3, 7, 8, 89],
    })
}

/// An Ethereum host whose client has no challenge period and a ten second unbonding period,
/// with the consensus state last updated at 45 and the clock at 50.
fn dummy_host(commitment: StateCommitment, with_state: bool) -> (Host, DummyClient) {
    let mut host = Host::new(StateMachine::Ethereum, 50);
    host.register_client(ETHEREUM_CONSENSUS_ID, ClientConfig { challenge_period: 0, unbonding_period: 10 });
    let height = ethereum_height();
    host.store_state_machine_commitment(height, commitment);
    host.store_consensus_state_id(ETHEREUM_CONSENSUS_ID, ETHEREUM_CONSENSUS_ID);
    if with_state {
        host.store_consensus_state(ETHEREUM_CONSENSUS_ID, vec![2, 4, 5, 6]);
    }
    host.store_consensus_update_time(ETHEREUM_CONSENSUS_ID, 45);
    host.store_latest_commitment_height(height);
    let client = DummyClient {
        consensus_state: vec![2, 4, 5, 6],
        state_machine_commitments: vec![(
            StateMachine::Ethereum,
            IntermediateState { height: 0, commitment },
        )],
    };
    (host, client)
}

fn ethereum_commitment() -> StateCommitment {
    StateCommitment { timestamp: 45, ismp_root: Some(root(b"ismp root")), state_root: root(b"state root") }
}

#[test]
fn create_consensus_message() {
    let (mut host, client) = dummy_host(ethereum_commitment(), true);
    let message = Message::Consensus(ConsensusMessage {
        consensus_state_id: ETHEREUM_CONSENSUS_ID,
        consensus_proof: vec![1, 2, 3, 4],
    });
    handle_incoming_message(&mut host, &client, message).expect("Error handling message");
}

#[test]
fn create_consensus_message_within_challenge_period() {
    let (mut host, client) = dummy_host(ethereum_commitment(), true);
    let consensus_msg = Message::Consensus(ConsensusMessage {
        consensus_state_id: ETHEREUM_CONSENSUS_ID,
        consensus_proof: vec![1, 2, 3, 4],
    });
    handle_incoming_message(&mut host, &client, consensus_msg).expect("Error handling message");
    // The commitment already stored at height 0 is not replaced.
    assert_eq!(host.state_machine_commitment(ethereum_height()), Ok(ethereum_commitment()));
}

#[test]
fn test_frozen_clients_cant_parse_msgs() {
    let (mut host, client) = dummy_host(ethereum_commitment(), false);
    let request_msg = Message::Request(RequestMessage {
        requests: vec![post_request()],
        proof: Proof { height: ethereum_height(), proof: vec![1, 2, 3, 4] },
    });
    host.freeze_state_machine(ethereum_height());
    assert!(handle_incoming_message(&mut host, &client, request_msg).is_err());
}

#[test]
fn test_duplicate() {
    let (mut host, client) = dummy_host(ethereum_commitment(), true);
    let consensus_msg = Message::Consensus(ConsensusMessage {
        consensus_state_id: ETHEREUM_CONSENSUS_ID,
        consensus_proof: vec![1, 2, 3, 4],
    });
    handle_incoming_message(&mut host, &client, consensus_msg).expect("Error handling message");
    assert_eq!(host.is_expired(ETHEREUM_CONSENSUS_ID, ETHEREUM_CONSENSUS_ID), Ok(()));
}

#[test]
fn request_commitment_retrieves_works() {
    let mut host = Host::new(StateMachine::Polkadot(1000), 0);
    let req = Request::Post(Post {
        nonce: 0,
        source_chain: StateMachine::Polkadot(1000),
        dest_chain: StateMachine::Polkadot(2004),
        from: Vec::new(),
        to: Vec::new(),
        timeout_timestamp: 0,
        data: Vec::new(),
    });
    assert!(host.request_commitment(&req).is_err());
    assert!(dispatch(&mut host, req.clone()).is_ok());
    assert_eq!(host.request_commitment(&req), Ok(hash_request(&req)));
}

#[test]
fn bounce_frozen_state_messages() {
    let polkadot: ConsensusClientId = [0, 0, 1, 44];
    let mut host = Host::new(StateMachine::Polkadot(2006), 1000);
    host.register_client(polkadot, ClientConfig { challenge_period: 60, unbonding_period: 7 * 24 * 60 * 60 });
    host.store_consensus_state_id(polkadot, polkadot);
    host.store_consensus_state(polkadot, vec![]);
    host.store_consensus_update_time(polkadot, 1000 - 61);

    let id1 = StateMachineId { state_id: StateMachine::Polkadot(1), consensus_state_id: polkadot };
    let id2 = StateMachineId { state_id: StateMachine::Polkadot(2), consensus_state_id: polkadot };
    let height1 = StateMachineHeight { id: id1, height: 100 };
    let height2 = StateMachineHeight { id: id2, height: 200 };
    host.freeze_state_machine(height2);

    let commit1 = StateCommitment { timestamp: 123456789, ismp_root: Some([0; 32]), state_root: [0; 32] };
    let commit2 = StateCommitment { timestamp: 234567890, ismp_root: Some([0; 32]), state_root: [0; 32] };
    let client = DummyClient {
        consensus_state: vec![],
        state_machine_commitments: vec![
            (StateMachine::Polkadot(1), IntermediateState { height: 100, commitment: commit1 }),
            (StateMachine::Polkadot(2), IntermediateState { height: 200, commitment: commit2 }),
        ],
    };
    handle_incoming_message(
        &mut host,
        &client,
        Message::Consensus(ConsensusMessage { consensus_state_id: polkadot, consensus_proof: vec![] }),
    )
    .unwrap();

    assert_eq!(host.state_machine_commitment(height1), Ok(commit1));
    assert_eq!(
        host.state_machine_commitment(height2),
        Err(Error::StateCommitmentNotFound { height: height2 })
    );
}
