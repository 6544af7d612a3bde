//! Conformance checks of the safety rules, run against a host and a consensus client. Each
//! check sets up host state, sends messages, and passes when every message is refused for the
//! rule under test; the contracts say on which hosts each check passes.

use crate::consensus::{
    ConsensusClient, ConsensusClientId, ConsensusStateId, IntermediateState, StateCommitment,
    StateMachineHeight, StateMachineId,
};
use crate::error::Error;
use crate::handlers::consensus::update_client;
use crate::handlers::request::handle_request_message;
use crate::handlers::{response, timeout, MessageResult};
use crate::host::Host;
use crate::messaging::{ConsensusMessage, Proof, RequestMessage, ResponseMessage, TimeoutMessage};
use crate::router::{
    dispatch, write_response, Post, PostView, Request, RequestResponse, RequestView, Response,
    ResponseView,
};
use crate::state_machine::StateMachine;
use crate::util::{keccak_of, request_hash, response_preimage};
use vstd::prelude::*;

verus! {

/// A consensus client that accepts every proof and establishes no commitment: the trusted
/// state stays as it was and every state proof is empty.
pub struct MockClient;

impl ConsensusClient for MockClient {
    fn verify_consensus(
        &self,
        host: &Host,
        consensus_client_id: ConsensusClientId,
        consensus_state_id: ConsensusStateId,
        trusted_consensus_state: Vec<u8>,
        proof: Vec<u8>,
    ) -> Result<(Vec<u8>, Vec<(StateMachine, IntermediateState)>), Error> {
        Ok((trusted_consensus_state, Vec::new()))
    }

    fn verify_fraud_proof(
        &self,
        host: &Host,
        consensus_client_id: ConsensusClientId,
        trusted_consensus_state: Vec<u8>,
        proof_1: Vec<u8>,
        proof_2: Vec<u8>,
    ) -> Result<(), Error> {
        Ok(())
    }

    fn verify_membership(
        &self,
        host: &Host,
        consensus_client_id: ConsensusClientId,
        item: &RequestResponse,
        root: &StateCommitment,
        proof: &Proof,
    ) -> Result<(), Error> {
        Ok(())
    }

    fn state_trie_key(
        &self,
        consensus_client_id: ConsensusClientId,
        item: &RequestResponse,
    ) -> Vec<Vec<u8>> {
        Vec::new()
    }

    fn verify_state_proof(
        &self,
        host: &Host,
        consensus_client_id: ConsensusClientId,
        keys: Vec<Vec<u8>>,
        root: &StateCommitment,
        proof: &Proof,
    ) -> Result<Vec<Option<Vec<u8>>>, Error> {
        Ok(Vec::new())
    }
}

/// `n` zero bytes.
pub open spec fn zeros(n: nat) -> Seq<u8> {
    Seq::new(n, |i: int| 0u8)
}

/// A post request from `source` to `dest` with nonce and timeout 0, 32-byte zero module ids
/// and a 64-byte zero body.
pub open spec fn zero_post_view(source: StateMachine, dest: StateMachine) -> RequestView {
    RequestView::Post(
        PostView {
            source_chain: source,
            dest_chain: dest,
            nonce: 0,
            from: zeros(32),
            to: zeros(32),
            timeout_timestamp: 0,
            data: zeros(64),
        },
    )
}

fn zero_bytes(n: usize) -> (r: Vec<u8>)
    ensures
        r@ == zeros(n as nat),
{
    let r = vec![0u8; n];
    assert(r@ =~= zeros(n as nat));
    r
}

fn zero_post(source: StateMachine, dest: StateMachine) -> (r: Request)
    ensures
        r@ == zero_post_view(source, dest),
{
    Request::Post(
        Post {
            source_chain: source,
            dest_chain: dest,
            nonce: 0,
            from: zero_bytes(32),
            to: zero_bytes(32),
            timeout_timestamp: 0,
            data: zero_bytes(64),
        },
    )
}

fn proof_at(height: StateMachineHeight) -> (r: Proof)
    ensures
        r.height == height,
{
    Proof { height, proof: Vec::new() }
}

fn is_challenge_error(r: &Result<MessageResult, Error>) -> (b: bool)
    ensures
        b == (r matches Err(e) && e is ChallengePeriodNotElapsed),
{
    match r {
        Err(Error::ChallengePeriodNotElapsed { .. }) => true,
        _ => false,
    }
}

fn is_frozen_height_error(r: &Result<MessageResult, Error>) -> (b: bool)
    ensures
        b == (r matches Err(e) && e is FrozenStateMachine),
{
    match r {
        Err(Error::FrozenStateMachine { .. }) => true,
        _ => false,
    }
}

/// Sets up consensus state `consensus_state_id` of client `consensus_client_id` with its last
/// update half a challenge period ago, then checks that a consensus, request, response and
/// timeout message are each refused with `ChallengePeriodNotElapsed`. Passes exactly when the
/// client is registered, the consensus state is not frozen, and its state machine is not frozen
/// at the commitment's height.
pub fn check_challenge_period<C: ConsensusClient>(
    host: &mut Host,
    client: &C,
    consensus_client_id: ConsensusClientId,
    consensus_state_id: ConsensusStateId,
    cs_state: Vec<u8>,
    state_id: StateMachine,
    intermediate_state: IntermediateState,
    consensus_proof: Vec<u8>,
) -> (r: Result<(), &'static str>)
    requires
        old(host).wf(),
    ensures
        final(host).wf(),
        r is Ok <==> {
            let height = StateMachineHeight {
                id: StateMachineId { state_id, consensus_state_id },
                height: intermediate_state.height,
            };
            &&& old(host)@.clients.contains_key(consensus_client_id)
            &&& !old(host)@.frozen_clients.contains(consensus_state_id)
            &&& !old(host)@.state_machine_frozen(height)
        },
{
    let height = StateMachineHeight {
        id: StateMachineId { state_id, consensus_state_id },
        height: intermediate_state.height,
    };
    host.store_consensus_state(consensus_state_id, cs_state);
    host.store_consensus_state_id(consensus_state_id, consensus_client_id);
    host.store_state_machine_commitment(height, intermediate_state.commitment);
    let challenge_period = match host.challenge_period(consensus_client_id) {
        Ok(p) => p,
        Err(_) => return Err("consensus client is not registered"),
    };
    let now = host.timestamp();
    let half = challenge_period / 2;
    let previous_update_time = if now >= half {
        now - half
    } else {
        0
    };
    host.store_consensus_update_time(consensus_state_id, previous_update_time);

    let msg = ConsensusMessage { consensus_state_id, consensus_proof };
    let res = update_client(host, client, msg);
    if !is_challenge_error(&res) {
        return Err("consensus update inside the challenge period was not refused");
    }
    let here = host.host_state_machine();
    let request = zero_post(here, StateMachine::Kusama(2000));
    let res = handle_request_message(
        host,
        client,
        RequestMessage { requests: vec![request.duplicate()], proof: proof_at(height) },
    );
    if !is_challenge_error(&res) {
        return Err("request inside the challenge period was not refused");
    }
    let response = Response { request: request.duplicate(), response: Vec::new() };
    let res = response::handle(
        host,
        client,
        ResponseMessage { responses: vec![response], proof: proof_at(height) },
    );
    if !is_challenge_error(&res) {
        return Err("response inside the challenge period was not refused");
    }
    let res = timeout::handle(
        host,
        client,
        TimeoutMessage { requests: vec![request], timeout_proof: proof_at(height) },
    );
    if !is_challenge_error(&res) {
        return Err("timeout inside the challenge period was not refused");
    }
    Ok(())
}

/// Sets up consensus state `consensus_state_id` of client `consensus_client_id` with its last
/// update one second more than an unbonding period ago, then checks that a consensus update is
/// refused with `UnbondingPeriodElapsed`. Passes exactly when the client is registered, the
/// consensus state is not frozen, the challenge period does not exceed the unbonding period, and
/// the clock has run for longer than an unbonding period.
pub fn check_client_expiry<C: ConsensusClient>(
    host: &mut Host,
    client: &C,
    consensus_client_id: ConsensusClientId,
    consensus_state_id: ConsensusStateId,
    cs_state: Vec<u8>,
    consensus_proof: Vec<u8>,
) -> (r: Result<(), &'static str>)
    requires
        old(host).wf(),
    ensures
        final(host).wf(),
        r is Ok <==> {
            &&& old(host)@.clients.contains_key(consensus_client_id)
            &&& !old(host)@.frozen_clients.contains(consensus_state_id)
            &&& old(host)@.clients[consensus_client_id].challenge_period
                <= old(host)@.clients[consensus_client_id].unbonding_period
            &&& old(host)@.now > old(host)@.clients[consensus_client_id].unbonding_period
        },
{
    let config = match host.consensus_client(consensus_client_id) {
        Ok(c) => c,
        Err(_) => return Err("consensus client is not registered"),
    };
    let now = host.timestamp();
    if now <= config.unbonding_period {
        return Err("the clock has not run for an unbonding period");
    }
    host.store_consensus_state(consensus_state_id, cs_state);
    host.store_consensus_state_id(consensus_state_id, consensus_client_id);
    host.store_consensus_update_time(consensus_state_id, now - config.unbonding_period - 1);
    let msg = ConsensusMessage { consensus_state_id, consensus_proof };
    match update_client(host, client, msg) {
        Err(Error::UnbondingPeriodElapsed { .. }) => Ok(()),
        _ => Err("consensus update after the unbonding period was not refused"),
    }
}

/// Sets up consensus state `consensus_state_id` of client `consensus_client_id`, updated two
/// challenge periods ago, and freezes its state machine `state_id` at the commitment's height;
/// then checks that a request, response and timeout message proven at that height are each
/// refused with `FrozenStateMachine`. Passes exactly when the client is registered and the
/// consensus state is not frozen.
pub fn frozen_check<C: ConsensusClient>(
    host: &mut Host,
    client: &C,
    consensus_client_id: ConsensusClientId,
    consensus_state_id: ConsensusStateId,
    cs_state: Vec<u8>,
    state_id: StateMachine,
    intermediate_state: IntermediateState,
) -> (r: Result<(), &'static str>)
    requires
        old(host).wf(),
    ensures
        final(host).wf(),
        r is Ok <==> {
            &&& old(host)@.clients.contains_key(consensus_client_id)
            &&& !old(host)@.frozen_clients.contains(consensus_state_id)
        },
{
    let height = StateMachineHeight {
        id: StateMachineId { state_id, consensus_state_id },
        height: intermediate_state.height,
    };
    host.store_consensus_state(consensus_state_id, cs_state);
    host.store_consensus_state_id(consensus_state_id, consensus_client_id);
    host.store_state_machine_commitment(height, intermediate_state.commitment);
    let challenge_period = match host.challenge_period(consensus_client_id) {
        Ok(p) => p,
        Err(_) => return Err("consensus client is not registered"),
    };
    let now = host.timestamp();
    let previous_update_time = if challenge_period <= now / 2 {
        now - challenge_period * 2
    } else {
        0
    };
    host.store_consensus_update_time(consensus_state_id, previous_update_time);
    host.freeze_state_machine(height);

    let here = host.host_state_machine();
    let request = zero_post(here, StateMachine::Kusama(2000));
    let res = handle_request_message(
        host,
        client,
        RequestMessage { requests: vec![request.duplicate()], proof: proof_at(height) },
    );
    if !is_frozen_height_error(&res) {
        return Err("request at a frozen height was not refused");
    }
    let response = Response { request: request.duplicate(), response: Vec::new() };
    let res = response::handle(
        host,
        client,
        ResponseMessage { responses: vec![response], proof: proof_at(height) },
    );
    if !is_frozen_height_error(&res) {
        return Err("response at a frozen height was not refused");
    }
    let res = timeout::handle(
        host,
        client,
        TimeoutMessage { requests: vec![request], timeout_proof: proof_at(height) },
    );
    if !is_frozen_height_error(&res) {
        return Err("timeout at a frozen height was not refused");
    }
    Ok(())
}

/// Checks that the router commits an outbound request and response and refuses to commit
/// either a second time: a post from this host to `KUSAMA-2000` is dispatched twice, then a
/// response to a post from `KUSAMA-2000` to this host is written twice. Passes exactly when this
/// host is not `KUSAMA-2000` and neither commitment existed before.
pub fn write_outgoing_commitments(host: &mut Host) -> (r: Result<(), &'static str>)
    requires
        old(host).wf(),
    ensures
        final(host).wf(),
        r is Ok <==> {
            let here = old(host)@.host_state_machine;
            let req = zero_post_view(here, StateMachine::Kusama(2000));
            let resp = ResponseView {
                request: zero_post_view(StateMachine::Kusama(2000), here),
                response: zeros(64),
            };
            &&& here != StateMachine::Kusama(2000)
            &&& !old(host)@.requests.contains(request_hash(req))
            &&& !old(host)@.responses.contains(keccak_of(response_preimage(resp)))
        },
        r is Ok ==> {
            let here = old(host)@.host_state_machine;
            let req = zero_post_view(here, StateMachine::Kusama(2000));
            let resp = ResponseView {
                request: zero_post_view(StateMachine::Kusama(2000), here),
                response: zeros(64),
            };
            &&& final(host)@.requests == old(host)@.requests.insert(request_hash(req))
            &&& final(host)@.responses == old(host)@.responses.insert(
                keccak_of(response_preimage(resp)),
            )
        },
{
    let here = host.host_state_machine();
    let request = zero_post(here, StateMachine::Kusama(2000));
    if dispatch(host, request.duplicate()).is_err() {
        return Err("router failed to dispatch request");
    }
    if host.request_commitment(&request).is_err() {
        return Err("expected request commitment to be found in storage");
    }
    if dispatch(host, request.duplicate()).is_ok() {
        return Err("expected router to refuse a duplicate request");
    }
    let answered = zero_post(StateMachine::Kusama(2000), here);
    let response = Response { request: answered, response: zero_bytes(64) };
    if write_response(host, response.duplicate()).is_err() {
        return Err("router failed to write response");
    }
    if write_response(host, response.duplicate()).is_ok() {
        return Err("expected router to refuse a duplicate response");
    }
    Ok(())
}

} // verus!
