use ismp::consensus::{
    ConsensusClient, ConsensusClientId, ConsensusStateId, IntermediateState, StateCommitment,
    StateMachineHeight, StateMachineId,
};
use ismp::error::Error;
use ismp::handlers::consensus::{create_client, freeze_client, update_client};
use ismp::handlers::request::handle_request_message;
use ismp::handlers::{handle_incoming_message, response, timeout, validate_state_machine, MessageResult};
use ismp::host::{ClientConfig, Delivery, Host};
use ismp::messaging::{
    ConsensusMessage, CreateConsensusClient, FraudProofMessage, Message, Proof, RequestMessage,
    ResponseMessage, TimeoutMessage,
};
use ismp::router::{dispatch, Post, Request, RequestResponse, Response};
use ismp::state_machine::StateMachine;

const CLIENT: ConsensusClientId = [1u8; 4];
const STATE: ConsensusStateId = [2u8; 4];
const T: u64 = 1_000_000;
const HOST: StateMachine = StateMachine::Polkadot(1000);
const REMOTE: StateMachine = StateMachine::Kusama(2000);

/// A consensus client whose verdicts are fixed in advance.
struct ScriptedClient {
    intermediates: Vec<(StateMachine, IntermediateState)>,
    membership_ok: bool,
    values: Vec<Option<Vec<u8>>>,
}

impl ScriptedClient {
    fn accepting() -> Self {
        ScriptedClient { intermediates: vec![], membership_ok: true, values: vec![None] }
    }
}

impl ConsensusClient for ScriptedClient {
    fn verify_consensus(
        &self,
        _host: &Host,
        _consensus_client_id: ConsensusClientId,
        _consensus_state_id: ConsensusStateId,
        _trusted_consensus_state: Vec<u8>,
        _proof: Vec<u8>,
    ) -> Result<(Vec<u8>, Vec<(StateMachine, IntermediateState)>), Error> {
        Ok((vec![7], self.intermediates.clone()))
    }

    fn verify_fraud_proof(
        &self,
        _host: &Host,
        _consensus_client_id: ConsensusClientId,
        _trusted_consensus_state: Vec<u8>,
        proof_1: Vec<u8>,
        proof_2: Vec<u8>,
    ) -> Result<(), Error> {
        if proof_1 != proof_2 {
            Ok(())
        } else {
            Err(Error::ImplementationSpecific("proofs agree".to_string()))
        }
    }

    fn verify_membership(
        &self,
        _host: &Host,
        _consensus_client_id: ConsensusClientId,
        _item: &RequestResponse,
        _root: &StateCommitment,
        _proof: &Proof,
    ) -> Result<(), Error> {
        if self.membership_ok {
            Ok(())
        } else {
            Err(Error::ImplementationSpecific("bad proof".to_string()))
        }
    }

    fn state_trie_key(
        &self,
        _consensus_client_id: ConsensusClientId,
        _item: &RequestResponse,
    ) -> Vec<Vec<u8>> {
        vec![vec![0]]
    }

    fn verify_state_proof(
        &self,
        _host: &Host,
        _consensus_client_id: ConsensusClientId,
        _keys: Vec<Vec<u8>>,
        _root: &StateCommitment,
        _proof: &Proof,
    ) -> Result<Vec<Option<Vec<u8>>>, Error> {
        Ok(self.values.clone())
    }
}

fn commitment(timestamp: u64) -> StateCommitment {
    StateCommitment { timestamp, ismp_root: None, state_root: [3u8; 32] }
}

fn remote_id() -> StateMachineId {
    StateMachineId { state_id: REMOTE, consensus_state_id: STATE }
}

fn height(h: u64) -> StateMachineHeight {
    StateMachineHeight { id: remote_id(), height: h }
}

/// A host tracking `REMOTE` through `STATE`, with a commitment at height 10 whose timestamp is
/// `remote_time`, last updated `age` seconds before `T`.
fn tracked_host(challenge: u64, unbonding: u64, age: u64, remote_time: u64) -> Host {
    let mut host = Host::new(HOST, T - age);
    host.register_client(CLIENT, ClientConfig { challenge_period: challenge, unbonding_period: unbonding });
    let created = create_client(
        &mut host,
        CreateConsensusClient {
            consensus_client_id: CLIENT,
            consensus_state_id: STATE,
            consensus_state: vec![1, 2, 3],
            state_machine_commitments: vec![(
                remote_id(),
                IntermediateState { height: 10, commitment: commitment(remote_time) },
            )],
        },
    );
    assert!(created.is_ok());
    assert!(host.set_timestamp(T));
    host
}

fn at(h: u64) -> Proof {
    Proof { height: height(h), proof: vec![] }
}

fn consensus_message() -> ConsensusMessage {
    ConsensusMessage { consensus_state_id: STATE, consensus_proof: vec![] }
}

fn post(source: StateMachine, dest: StateMachine, nonce: u64, timeout: u64) -> Request {
    Request::Post(Post {
        source_chain: source,
        dest_chain: dest,
        nonce,
        from: vec![0u8; 32],
        to: vec![0u8; 32],
        timeout_timestamp: timeout,
        data: vec![0u8; 64],
    })
}

#[test]
fn create_client_records_genesis_state() {
    let host = tracked_host(3600, 86400, 0, 50);
    assert_eq!(host.consensus_client_from_state_id(STATE), Some(CLIENT));
    assert_eq!(host.consensus_state(STATE), Ok(vec![1, 2, 3]));
    assert_eq!(host.consensus_update_time(STATE), Ok(T));
    assert_eq!(host.latest_commitment_height(remote_id()), Some(10));
    assert_eq!(host.state_machine_commitment(height(10)), Ok(commitment(50)));
}

#[test]
fn create_client_rejects_unknown_client() {
    let mut host = Host::new(HOST, T);
    let res = create_client(
        &mut host,
        CreateConsensusClient {
            consensus_client_id: CLIENT,
            consensus_state_id: STATE,
            consensus_state: vec![],
            state_machine_commitments: vec![],
        },
    );
    assert_eq!(res, Err(Error::UnknownConsensusClient { consensus_client_id: CLIENT }));
    assert_eq!(host.consensus_client_from_state_id(STATE), None);
}

#[test]
fn challenge_window_rejects_then_accepts() {
    // Last update half an hour before T, challenge period one hour.
    let mut host = tracked_host(3600, 86400, 1800, 0);
    let client = ScriptedClient::accepting();
    let res = update_client(&mut host, &client, consensus_message());
    assert!(matches!(
        res,
        Err(Error::ChallengePeriodNotElapsed { current_time: T, update_time, .. }) if update_time == T - 1800
    ));
    // At exactly the challenge period the update is still refused.
    assert!(host.set_timestamp(T - 1800 + 3600));
    assert!(matches!(
        update_client(&mut host, &client, consensus_message()),
        Err(Error::ChallengePeriodNotElapsed { .. })
    ));
    assert!(host.set_timestamp(T - 1800 + 3601));
    let res = update_client(&mut host, &client, consensus_message());
    match res {
        Ok(MessageResult::ConsensusMessage(r)) => {
            assert_eq!(r.consensus_client_id, CLIENT);
            assert_eq!(r.consensus_state_id, STATE);
            assert!(r.state_updates.is_empty());
        }
        _ => panic!("update after the challenge period should succeed"),
    }
    assert_eq!(host.consensus_update_time(STATE), Ok(T - 1800 + 3601));
    assert_eq!(host.consensus_state(STATE), Ok(vec![7]));
}

#[test]
fn expiry_boundary_is_strict() {
    // Unbonding period one hour, challenge period one minute.
    let mut host = tracked_host(60, 3600, 3600, 0);
    let client = ScriptedClient::accepting();
    assert!(update_client(&mut host, &client, consensus_message()).is_ok());

    let mut host = tracked_host(60, 3600, 3601, 0);
    let res = update_client(&mut host, &client, consensus_message());
    assert_eq!(res.err(), Some(Error::UnbondingPeriodElapsed { consensus_state_id: STATE }));
}

#[test]
fn frozen_state_machine_height_is_refused_and_lower_heights_accepted() {
    let mut host = tracked_host(60, 86400, 600, 0);
    host.store_state_machine_commitment(height(99), commitment(0));
    host.store_state_machine_commitment(height(100), commitment(0));
    host.freeze_state_machine(height(100));
    let client = ScriptedClient::accepting();
    let request = post(REMOTE, HOST, 1, 0);

    let msg = RequestMessage { requests: vec![request.clone()], proof: at(100) };
    let res = handle_request_message(&mut host, &client, msg);
    assert_eq!(res.err(), Some(Error::FrozenStateMachine { height: height(100) }));
    assert!(matches!(
        validate_state_machine(&host, height(101)),
        Err(Error::FrozenStateMachine { .. })
    ));

    let msg = RequestMessage { requests: vec![request.clone()], proof: at(99) };
    match handle_request_message(&mut host, &client, msg) {
        Ok(MessageResult::Request(results)) => {
            assert_eq!(results.len(), 1);
            let ok = results[0].as_ref().unwrap();
            assert_eq!((ok.source_chain, ok.dest_chain, ok.nonce), (REMOTE, HOST, 1));
        }
        _ => panic!("request below the frozen height should be accepted"),
    }
    assert_eq!(host.delivered().len(), 1);
    assert!(matches!(&host.delivered()[0], Delivery::Request(r) if *r == request));
}

#[test]
fn freezing_keeps_the_lowest_height() {
    let mut host = tracked_host(60, 86400, 600, 0);
    host.freeze_state_machine(height(100));
    host.freeze_state_machine(height(150));
    assert!(host.is_state_machine_frozen(height(99)).is_ok());
    assert!(host.is_state_machine_frozen(height(100)).is_err());
    host.freeze_state_machine(height(50));
    assert!(host.is_state_machine_frozen(height(50)).is_err());
}

#[test]
fn consensus_update_skips_lower_heights() {
    let mut host = tracked_host(60, 86400, 600, 0);
    let client = ScriptedClient {
        intermediates: vec![
            (REMOTE, IntermediateState { height: 15, commitment: commitment(5) }),
            (REMOTE, IntermediateState { height: 13, commitment: commitment(3) }),
        ],
        membership_ok: true,
        values: vec![],
    };
    match update_client(&mut host, &client, consensus_message()) {
        Ok(MessageResult::ConsensusMessage(r)) => {
            assert_eq!(r.state_updates, vec![(height(10), height(15))]);
        }
        _ => panic!("consensus update should succeed"),
    }
    assert_eq!(host.latest_commitment_height(remote_id()), Some(15));
    assert_eq!(host.state_machine_commitment(height(15)), Ok(commitment(5)));
    assert_eq!(
        host.state_machine_commitment(height(13)),
        Err(Error::StateCommitmentNotFound { height: height(13) })
    );
}

#[test]
fn consensus_update_heights_five_then_three() {
    let mut host = Host::new(HOST, T - 600);
    host.register_client(CLIENT, ClientConfig { challenge_period: 60, unbonding_period: 86400 });
    create_client(
        &mut host,
        CreateConsensusClient {
            consensus_client_id: CLIENT,
            consensus_state_id: STATE,
            consensus_state: vec![],
            state_machine_commitments: vec![],
        },
    )
    .unwrap();
    assert!(host.set_timestamp(T));
    let client = ScriptedClient {
        intermediates: vec![
            (REMOTE, IntermediateState { height: 5, commitment: commitment(5) }),
            (REMOTE, IntermediateState { height: 3, commitment: commitment(3) }),
        ],
        membership_ok: true,
        values: vec![],
    };
    assert!(update_client(&mut host, &client, consensus_message()).is_ok());
    assert_eq!(host.latest_commitment_height(remote_id()), Some(5));
    assert!(host.state_machine_commitment(height(3)).is_err());
}

#[test]
fn latest_height_never_decreases_across_updates() {
    let mut host = tracked_host(60, 86400, 600, 0);
    let up = ScriptedClient {
        intermediates: vec![(REMOTE, IntermediateState { height: 20, commitment: commitment(1) })],
        membership_ok: true,
        values: vec![],
    };
    assert!(update_client(&mut host, &up, consensus_message()).is_ok());
    assert!(host.set_timestamp(T + 600));
    let down = ScriptedClient {
        intermediates: vec![(REMOTE, IntermediateState { height: 12, commitment: commitment(1) })],
        membership_ok: true,
        values: vec![],
    };
    assert!(update_client(&mut host, &down, consensus_message()).is_ok());
    assert_eq!(host.latest_commitment_height(remote_id()), Some(20));
}

#[test]
fn duplicate_heights_in_one_update_keep_the_first() {
    let mut host = tracked_host(60, 86400, 600, 0);
    let client = ScriptedClient {
        intermediates: vec![
            (REMOTE, IntermediateState { height: 11, commitment: commitment(1) }),
            (REMOTE, IntermediateState { height: 11, commitment: commitment(2) }),
        ],
        membership_ok: true,
        values: vec![],
    };
    assert!(update_client(&mut host, &client, consensus_message()).is_ok());
    assert_eq!(host.state_machine_commitment(height(11)), Ok(commitment(1)));
}

#[test]
fn frozen_consensus_state_refuses_everything() {
    let mut host = tracked_host(60, 86400, 600, 0);
    let client = ScriptedClient::accepting();
    let res = freeze_client(
        &mut host,
        &client,
        FraudProofMessage { consensus_state_id: STATE, proof_1: vec![1], proof_2: vec![2] },
    );
    assert!(matches!(res, Ok(MessageResult::FrozenClient(s)) if s == STATE));
    assert_eq!(host.consensus_update_time(STATE), Ok(T));
    host.freeze_consensus_client(STATE);
    assert!(host.is_consensus_client_frozen(STATE).is_err());

    assert!(host.set_timestamp(T + 3600));
    let frozen = Some(Error::FrozenConsensusClient { consensus_state_id: STATE });
    assert_eq!(update_client(&mut host, &client, consensus_message()).err(), frozen);
    let proof = at(10);
    let req = post(REMOTE, HOST, 0, 0);
    let msg = RequestMessage { requests: vec![req.clone()], proof: proof.clone() };
    let res = handle_request_message(&mut host, &client, msg);
    assert_eq!(res.err(), frozen);
    let answer = Response { request: req.clone(), response: vec![] };
    let msg = ResponseMessage { responses: vec![answer], proof: proof.clone() };
    let res = response::handle(&mut host, &client, msg);
    assert_eq!(res.err(), frozen);
    let msg = TimeoutMessage { requests: vec![req], timeout_proof: proof };
    let res = timeout::handle(&mut host, &client, msg);
    assert_eq!(res.err(), frozen);
}

#[test]
fn fraud_proof_that_fails_verification_changes_nothing() {
    let mut host = tracked_host(60, 86400, 600, 0);
    let client = ScriptedClient::accepting();
    let res = freeze_client(
        &mut host,
        &client,
        FraudProofMessage { consensus_state_id: STATE, proof_1: vec![1], proof_2: vec![1] },
    );
    assert!(matches!(res, Err(Error::ImplementationSpecific(_))));
    assert!(host.is_consensus_client_frozen(STATE).is_ok());
}

#[test]
fn timeout_requires_the_remote_clock_past_the_timeout_and_absence() {
    let client = ScriptedClient::accepting();
    let request = post(HOST, REMOTE, 0, 100);

    // The destination's committed time is 99: not yet timed out.
    let mut host = tracked_host(60, 86400, 600, 99);
    assert!(dispatch(&mut host, request.clone()).is_ok());
    let msg = TimeoutMessage { requests: vec![request.clone()], timeout_proof: at(10) };
    let res = timeout::handle(&mut host, &client, msg);
    assert_eq!(
        res.err(),
        Some(Error::RequestTimeoutVerificationFailed { nonce: 0, source: HOST, dest: REMOTE })
    );
    assert!(host.request_commitment(&request).is_ok());

    // At 101, with a proof of absence, the timeout is accepted and the commitment deleted.
    let mut host = tracked_host(60, 86400, 600, 101);
    assert!(dispatch(&mut host, request.clone()).is_ok());
    let msg = TimeoutMessage { requests: vec![request.clone()], timeout_proof: at(10) };
    match timeout::handle(&mut host, &client, msg) {
        Ok(MessageResult::Timeout(results)) => assert_eq!(results.len(), 1),
        _ => panic!("timeout should be accepted"),
    }
    assert!(host.request_commitment(&request).is_err());
    assert!(matches!(&host.delivered()[0], Delivery::Timeout(r) if *r == request));
}

#[test]
fn timeout_with_the_request_present_is_refused() {
    let client = ScriptedClient { intermediates: vec![], membership_ok: true, values: vec![Some(vec![1])] };
    let request = post(HOST, REMOTE, 0, 100);
    let mut host = tracked_host(60, 86400, 600, 101);
    assert!(dispatch(&mut host, request.clone()).is_ok());
    let msg = TimeoutMessage { requests: vec![request.clone()], timeout_proof: at(10) };
    let res = timeout::handle(&mut host, &client, msg);
    assert_eq!(res.err(), Some(Error::NonMembershipProofVerificationFailed));
    assert!(host.request_commitment(&request).is_ok());
}

#[test]
fn timeout_of_an_uncommitted_request_is_refused() {
    let client = ScriptedClient::accepting();
    let request = post(HOST, REMOTE, 4, 100);
    let mut host = tracked_host(60, 86400, 600, 101);
    let msg = TimeoutMessage { requests: vec![request], timeout_proof: at(10) };
    let res = timeout::handle(&mut host, &client, msg);
    assert_eq!(res.err(), Some(Error::RequestCommitmentNotFound { nonce: 4, source: HOST, dest: REMOTE }));
}

#[test]
fn response_releases_the_request_commitment() {
    let client = ScriptedClient::accepting();
    let request = post(HOST, REMOTE, 3, 100);
    let mut host = tracked_host(60, 86400, 600, 0);
    assert!(dispatch(&mut host, request.clone()).is_ok());
    let response = Response { request: request.clone(), response: vec![42] };
    let msg = ResponseMessage { responses: vec![response.clone()], proof: at(10) };
    match response::handle(&mut host, &client, msg) {
        Ok(MessageResult::Response(results)) => assert!(results[0].is_ok()),
        _ => panic!("response should be accepted"),
    }
    assert!(host.request_commitment(&request).is_err());
    assert!(matches!(&host.delivered()[0], Delivery::Response(r) if *r == response));

    // The same response again finds no commitment.
    let msg = ResponseMessage { responses: vec![response], proof: at(10) };
    let res = response::handle(&mut host, &client, msg);
    assert_eq!(res.err(), Some(Error::RequestCommitmentNotFound { nonce: 3, source: HOST, dest: REMOTE }));
}

#[test]
fn bad_membership_proof_is_refused() {
    let client = ScriptedClient { intermediates: vec![], membership_ok: false, values: vec![] };
    let mut host = tracked_host(60, 86400, 600, 0);
    let msg = RequestMessage { requests: vec![post(REMOTE, HOST, 0, 0)], proof: at(10) };
    let res = handle_request_message(&mut host, &client, msg);
    assert_eq!(res.err(), Some(Error::MembershipProofVerificationFailed));
    assert!(host.delivered().is_empty());
}

#[test]
fn missing_commitment_and_unknown_state_are_reported() {
    let client = ScriptedClient::accepting();
    let mut host = tracked_host(60, 86400, 600, 0);
    let msg = RequestMessage { requests: vec![], proof: Proof { height: height(11), proof: vec![] } };
    let res = handle_request_message(&mut host, &client, msg);
    assert_eq!(res.err(), Some(Error::StateCommitmentNotFound { height: height(11) }));

    let other = StateMachineHeight {
        id: StateMachineId { state_id: REMOTE, consensus_state_id: [9u8; 4] },
        height: 10,
    };
    let msg = RequestMessage { requests: vec![], proof: Proof { height: other, proof: vec![] } };
    let res = handle_request_message(&mut host, &client, msg);
    assert_eq!(res.err(), Some(Error::ConsensusStateIdNotRecognized { consensus_state_id: [9u8; 4] }));
}

#[test]
fn entry_point_routes_and_refuses_admin_messages() {
    let client = ScriptedClient::accepting();
    let mut host = tracked_host(60, 86400, 600, 0);
    let admin = Message::CreateConsensusClient(CreateConsensusClient {
        consensus_client_id: CLIENT,
        consensus_state_id: STATE,
        consensus_state: vec![],
        state_machine_commitments: vec![],
    });
    assert_eq!(handle_incoming_message(&mut host, &client, admin).err(), Some(Error::CannotHandleMessage));
    let res = handle_incoming_message(&mut host, &client, Message::Consensus(consensus_message()));
    assert!(matches!(res, Ok(MessageResult::ConsensusMessage(_))));
}
