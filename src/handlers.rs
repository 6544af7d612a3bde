//! Entry point of the message handlers, their results, and the checks shared by the request,
//! response and timeout handlers.

pub mod consensus;
pub mod request;
pub mod response;
pub mod timeout;

use crate::consensus::{
    ConsensusClient, ConsensusClientId, ConsensusStateId, IntermediateState, StateMachineHeight,
};
use crate::error::Error;
use crate::handlers::consensus::{
    apply_all, consensus_gate, consensus_update_effect, freeze_client, freeze_client_outcome,
    update_client, update_client_outcome,
};
use crate::handlers::request::{dispatch_all, handle_request_message, request_outcome};
use crate::handlers::response::{respond_all, response_outcome};
use crate::handlers::timeout::{timeout_all, timeout_outcome};
use crate::host::{Host, HostView};
use crate::messaging::{ConsensusMessage, Message, RequestMessage, ResponseMessage, TimeoutMessage};
use crate::router::{
    names_request, success_of, DispatchResult, Request, RequestView, Response, ResponseView,
};
use crate::state_machine::StateMachine;
use crate::util::request_hash;
use vstd::prelude::*;

verus! {

/// The outcome of a consensus update.
pub struct ConsensusUpdateResult {
    pub consensus_client_id: ConsensusClientId,
    pub consensus_state_id: ConsensusStateId,
    /// For each state machine that advanced: its previous latest height and its new height.
    pub state_updates: Vec<(StateMachineHeight, StateMachineHeight)>,
}

/// The outcome of creating a consensus client.
#[derive(Debug, Clone, Copy, PartialEq, Eq)]
pub struct ConsensusClientCreatedResult {
    pub consensus_client_id: ConsensusClientId,
    pub consensus_state_id: ConsensusStateId,
}

/// The outcome of a message that was handled.
pub enum MessageResult {
    ConsensusMessage(ConsensusUpdateResult),
    FrozenClient(ConsensusStateId),
    Request(Vec<DispatchResult>),
    Response(Vec<DispatchResult>),
    Timeout(Vec<DispatchResult>),
}

impl HostView {
    /// Seconds since the last update of a consensus state.
    pub open spec fn elapsed(self, state_id: ConsensusStateId) -> int {
        self.now - self.update_times[state_id]
    }
}

/// The checks that every proof against a state machine height must pass, in order; `Ok` holds
/// the consensus client that verifies the proof.
pub open spec fn preamble(h: HostView, height: StateMachineHeight) -> Result<
    ConsensusClientId,
    Error,
> {
    let sid = height.id.consensus_state_id;
    if !h.state_clients.contains_key(sid) {
        Err(Error::ConsensusStateIdNotRecognized { consensus_state_id: sid })
    } else if !h.clients.contains_key(h.state_clients[sid]) {
        Err(Error::UnknownConsensusClient { consensus_client_id: h.state_clients[sid] })
    } else if h.frozen_clients.contains(sid) {
        Err(Error::FrozenConsensusClient { consensus_state_id: sid })
    } else if h.state_machine_frozen(height) {
        Err(Error::FrozenStateMachine { height })
    } else if !h.update_times.contains_key(sid) {
        Err(Error::ConsensusStateNotFound { consensus_state_id: sid })
    } else if h.elapsed(sid) <= h.clients[h.state_clients[sid]].challenge_period {
        Err(
            Error::ChallengePeriodNotElapsed {
                consensus_client_id: h.state_clients[sid],
                current_time: h.now,
                update_time: h.update_times[sid],
            },
        )
    } else if h.elapsed(sid) > h.clients[h.state_clients[sid]].unbonding_period {
        Err(Error::UnbondingPeriodElapsed { consensus_state_id: sid })
    } else {
        Ok(h.state_clients[sid])
    }
}

/// Checks that a proof at `height` may be used: the consensus state is known and not frozen,
/// the state machine is not frozen at `height`, the challenge period since the last consensus
/// update has passed and the unbonding period has not.
pub fn validate_state_machine(host: &Host, height: StateMachineHeight) -> (r: Result<
    ConsensusClientId,
    Error,
>)
    requires
        host.wf(),
    ensures
        r == preamble(host@, height),
{
    let sid = height.id.consensus_state_id;
    let client_id = match host.consensus_client_from_state_id(sid) {
        Some(c) => c,
        None => return Err(Error::ConsensusStateIdNotRecognized { consensus_state_id: sid }),
    };
    let config = match host.consensus_client(client_id) {
        Ok(c) => c,
        Err(e) => return Err(e),
    };
    match host.is_consensus_client_frozen(sid) {
        Ok(_) => {},
        Err(e) => return Err(e),
    }
    match host.is_state_machine_frozen(height) {
        Ok(_) => {},
        Err(e) => return Err(e),
    }
    let update_time = match host.consensus_update_time(sid) {
        Ok(t) => t,
        Err(e) => return Err(e),
    };
    let now = host.timestamp();
    if now <= update_time || now - update_time <= config.challenge_period {
        return Err(
            Error::ChallengePeriodNotElapsed {
                consensus_client_id: client_id,
                current_time: now,
                update_time,
            },
        );
    }
    if now - update_time > config.unbonding_period {
        return Err(Error::UnbondingPeriodElapsed { consensus_state_id: sid });
    }
    Ok(client_id)
}

/// Whether the checks of `preamble` pass at `height`: the consensus state is known and not
/// frozen, the state machine is not frozen at `height`, more than the challenge period and at
/// most the unbonding period have passed since the last consensus update.
pub open spec fn proof_height_usable(h: HostView, height: StateMachineHeight) -> bool {
    let sid = height.id.consensus_state_id;
    &&& h.state_clients.contains_key(sid)
    &&& h.clients.contains_key(h.state_clients[sid])
    &&& !h.frozen_clients.contains(sid)
    &&& !h.state_machine_frozen(height)
    &&& h.update_times.contains_key(sid)
    &&& h.elapsed(sid) > h.clients[h.state_clients[sid]].challenge_period
    &&& h.elapsed(sid) <= h.clients[h.state_clients[sid]].unbonding_period
}

pub open spec fn request_views(v: Seq<Request>) -> Seq<RequestView> {
    v.map_values(|r: Request| r@)
}

pub open spec fn response_views(v: Seq<Response>) -> Seq<ResponseView> {
    v.map_values(|r: Response| r@)
}

/// Whether this host holds an outbound commitment to `r`.
pub open spec fn committed(h: HostView, r: RequestView) -> bool {
    r.encodable() && h.requests.contains(request_hash(r))
}

/// The host without its outbound commitment to `r`.
pub open spec fn without_request(h: HostView, r: RequestView) -> HostView {
    if r.encodable() {
        HostView { requests: h.requests.remove(request_hash(r)), ..h }
    } else {
        h
    }
}

/// The error for a request that this host never committed.
pub open spec fn commitment_missing(r: RequestView) -> Error {
    Error::RequestCommitmentNotFound {
        nonce: r.nonce(),
        source: r.source_chain(),
        dest: r.dest_chain(),
    }
}

/// `e` is the error for the first request of `reqs` that this host never committed.
pub open spec fn first_missing(h: HostView, reqs: Seq<RequestView>, e: Error) -> bool {
    exists|i: int|
        0 <= i < reqs.len() && !committed(h, #[trigger] reqs[i]) && (forall|j: int|
            0 <= j < i ==> committed(h, #[trigger] reqs[j])) && e == commitment_missing(reqs[i])
}

/// One result per item: the record of the item where it was accepted, a refusal naming it where
/// it was not.
pub open spec fn results_match(
    results: Seq<DispatchResult>,
    reqs: Seq<RequestView>,
    accepted: Seq<bool>,
) -> bool {
    &&& results.len() == reqs.len()
    &&& accepted.len() == reqs.len()
    &&& forall|i: int|
        0 <= i < reqs.len() ==> match #[trigger] results[i] {
            Ok(s) => accepted[i] && s == success_of(reqs[i]),
            Err(e) => !accepted[i] && names_request(e, reqs[i]),
        }
}

/// Checks that every request of `reqs` has an outbound commitment on this host.
pub fn check_commitments(host: &Host, reqs: &Vec<Request>) -> (r: Result<(), Error>)
    requires
        host.wf(),
    ensures
        match r {
            Ok(_) => forall|i: int|
                0 <= i < reqs.len() ==> committed(host@, #[trigger] request_views(reqs@)[i]),
            Err(e) => first_missing(host@, request_views(reqs@), e),
        },
{
    let mut i: usize = 0;
    while i < reqs.len()
        invariant
            host.wf(),
            i <= reqs.len(),
            forall|j: int| 0 <= j < i ==> committed(host@, #[trigger] request_views(reqs@)[j]),
        decreases reqs.len() - i,
    {
        match host.request_commitment(&reqs[i]) {
            Ok(_) => {},
            Err(e) => {
                proof {
                    assert(request_views(reqs@)[i as int] == reqs@[i as int]@);
                }
                return Err(e);
            },
        }
        i = i + 1;
    }
    Ok(())
}

/// A message was handled as its handler promises; an administrative message is refused.
pub open spec fn message_outcome(
    h: HostView,
    n: HostView,
    message: Message,
    r: Result<MessageResult, Error>,
) -> bool {
    match message {
        Message::Consensus(m) => update_client_outcome(h, n, m, r),
        Message::FraudProof(m) => freeze_client_outcome(h, n, m, r),
        Message::Request(m) => request_outcome(h, n, m, r),
        Message::Response(m) => response_outcome(h, n, m, r),
        Message::Timeout(m) => timeout_outcome(h, n, m, r),
        Message::CreateConsensusClient(_) => r == Err::<MessageResult, Error>(
            Error::CannotHandleMessage,
        ) && n == h,
    }
}

/// The entry point for messages: hands each to its handler, with that handler's contract.
/// Creating a consensus client is an administrative act and is refused here.
pub fn handle_incoming_message<C: ConsensusClient>(
    host: &mut Host,
    client: &C,
    message: Message,
) -> (r: Result<MessageResult, Error>)
    requires
        old(host).wf(),
    ensures
        final(host).wf(),
        message_outcome(old(host)@, final(host)@, message, r),
{
    match message {
        Message::Consensus(m) => update_client(host, client, m),
        Message::FraudProof(m) => freeze_client(host, client, m),
        Message::Request(m) => handle_request_message(host, client, m),
        Message::Response(m) => response::handle(host, client, m),
        Message::Timeout(m) => timeout::handle(host, client, m),
        Message::CreateConsensusClient(_) => Err(Error::CannotHandleMessage),
    }
}

/// Freezing a consensus state twice is the same as freezing it once.
pub proof fn lemma_freeze_idempotent(h: HostView, state_id: ConsensusStateId)
    ensures
        h.with_frozen_client(state_id).with_frozen_client(state_id) == h.with_frozen_client(
            state_id,
        ),
{
    assert(h.with_frozen_client(state_id).frozen_clients =~= h.with_frozen_client(
        state_id,
    ).frozen_clients.insert(state_id));
}

/// The consensus state is tracked: it has a registered client, trusted bytes and an update time.
pub open spec fn tracks(h: HostView, state_id: ConsensusStateId) -> bool {
    &&& h.state_clients.contains_key(state_id)
    &&& h.clients.contains_key(h.state_clients[state_id])
    &&& h.consensus_states.contains_key(state_id)
    &&& h.update_times.contains_key(state_id)
}

/// A frozen consensus state refuses every consensus update, which leaves the host unchanged.
pub proof fn lemma_frozen_refuses_consensus(
    h: HostView,
    n: HostView,
    msg: ConsensusMessage,
    r: Result<MessageResult, Error>,
)
    requires
        h.frozen_clients.contains(msg.consensus_state_id),
        tracks(h, msg.consensus_state_id),
        update_client_outcome(h, n, msg, r),
    ensures
        r == Err::<MessageResult, Error>(
            Error::FrozenConsensusClient { consensus_state_id: msg.consensus_state_id },
        ),
        n == h,
{
}

/// A frozen consensus state refuses every request message proven against one of its state
/// machines, which leaves the host unchanged.
pub proof fn lemma_frozen_refuses_requests(
    h: HostView,
    n: HostView,
    msg: RequestMessage,
    r: Result<MessageResult, Error>,
)
    requires
        h.frozen_clients.contains(msg.proof.height.id.consensus_state_id),
        tracks(h, msg.proof.height.id.consensus_state_id),
        request_outcome(h, n, msg, r),
    ensures
        r == Err::<MessageResult, Error>(
            Error::FrozenConsensusClient {
                consensus_state_id: msg.proof.height.id.consensus_state_id,
            },
        ),
        n == h,
{
}

/// A frozen consensus state refuses every response message proven against one of its state
/// machines, which leaves the host unchanged.
pub proof fn lemma_frozen_refuses_responses(
    h: HostView,
    n: HostView,
    msg: ResponseMessage,
    r: Result<MessageResult, Error>,
)
    requires
        h.frozen_clients.contains(msg.proof.height.id.consensus_state_id),
        tracks(h, msg.proof.height.id.consensus_state_id),
        response_outcome(h, n, msg, r),
    ensures
        r == Err::<MessageResult, Error>(
            Error::FrozenConsensusClient {
                consensus_state_id: msg.proof.height.id.consensus_state_id,
            },
        ),
        n == h,
{
}

/// A frozen consensus state refuses every timeout message proven against one of its state
/// machines, which leaves the host unchanged.
pub proof fn lemma_frozen_refuses_timeouts(
    h: HostView,
    n: HostView,
    msg: TimeoutMessage,
    r: Result<MessageResult, Error>,
)
    requires
        h.frozen_clients.contains(msg.timeout_proof.height.id.consensus_state_id),
        tracks(h, msg.timeout_proof.height.id.consensus_state_id),
        timeout_outcome(h, n, msg, r),
    ensures
        r == Err::<MessageResult, Error>(
            Error::FrozenConsensusClient {
                consensus_state_id: msg.timeout_proof.height.id.consensus_state_id,
            },
        ),
        n == h,
{
}

/// `n` has the consensus bookkeeping of `h`: the same clients, consensus states, update times
/// and frozen consensus states.
pub open spec fn same_consensus(h: HostView, n: HostView) -> bool {
    &&& n.clients == h.clients
    &&& n.state_clients == h.state_clients
    &&& n.consensus_states == h.consensus_states
    &&& n.update_times == h.update_times
    &&& n.frozen_clients == h.frozen_clients
}

proof fn lemma_apply_all_same_consensus(
    h: HostView,
    sid: ConsensusStateId,
    items: Seq<(StateMachine, IntermediateState)>,
)
    ensures
        same_consensus(h, apply_all(h, sid, items).0),
    decreases items.len(),
{
    if items.len() > 0 {
        lemma_apply_all_same_consensus(h, sid, items.drop_last());
    }
}

proof fn lemma_dispatch_all_same_consensus(h: HostView, reqs: Seq<RequestView>)
    ensures
        same_consensus(h, dispatch_all(h, reqs).0),
    decreases reqs.len(),
{
    if reqs.len() > 0 {
        lemma_dispatch_all_same_consensus(h, reqs.drop_last());
    }
}

proof fn lemma_respond_all_same_consensus(h: HostView, resps: Seq<ResponseView>)
    ensures
        same_consensus(h, respond_all(h, resps).0),
    decreases resps.len(),
{
    if resps.len() > 0 {
        lemma_respond_all_same_consensus(h, resps.drop_last());
    }
}

proof fn lemma_timeout_all_same_consensus(h: HostView, reqs: Seq<RequestView>)
    ensures
        same_consensus(h, timeout_all(h, reqs)),
    decreases reqs.len(),
{
    if reqs.len() > 0 {
        lemma_timeout_all_same_consensus(h, reqs.drop_last());
    }
}

/// No message undoes a freeze or forgets a consensus state: a tracked, frozen consensus state
/// stays tracked and frozen whatever message is handled, so every later message involving it
/// is refused as well.
pub proof fn lemma_frozen_state_persists(
    h: HostView,
    n: HostView,
    message: Message,
    r: Result<MessageResult, Error>,
    state_id: ConsensusStateId,
)
    requires
        tracks(h, state_id),
        h.frozen_clients.contains(state_id),
        message_outcome(h, n, message, r),
    ensures
        tracks(n, state_id),
        n.frozen_clients.contains(state_id),
        n.state_clients[state_id] == h.state_clients[state_id],
{
    match message {
        Message::Consensus(m) => {
            let sid = m.consensus_state_id;
            if consensus_gate(h, sid) is Ok {
                if let Ok(MessageResult::ConsensusMessage(res)) = r {
                    let (ns, items) = choose|
                        ns: Seq<u8>,
                        items: Seq<(StateMachine, IntermediateState)>,
                    |
                        #[trigger] consensus_update_effect(h, sid, ns, items) == (
                            n,
                            res.state_updates@,
                        );
                    let h0 = HostView {
                        consensus_states: h.consensus_states.insert(sid, ns),
                        update_times: h.update_times.insert(sid, h.now),
                        ..h
                    };
                    lemma_apply_all_same_consensus(h0, sid, items);
                }
            }
        },
        Message::Request(m) => {
            lemma_dispatch_all_same_consensus(h, request_views(m.requests@));
        },
        Message::Response(m) => {
            lemma_respond_all_same_consensus(h, response_views(m.responses@));
        },
        Message::Timeout(m) => {
            lemma_timeout_all_same_consensus(h, request_views(m.requests@));
        },
        _ => {},
    }
}

} // verus!
