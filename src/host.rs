//! The host: persistent protocol state of the local chain, its clock and its registered
//! consensus clients.

use crate::consensus::{
    ConsensusClientId, ConsensusStateId, StateCommitment, StateMachineHeight, StateMachineId,
};
use crate::error::Error;
use crate::router::{Request, RequestView, Response, ResponseView};
use crate::state_machine::StateMachine;
use crate::store::Table;
use crate::util::{hash_request, is_encodable, request_hash};
use vstd::prelude::*;

verus! {

/// Settings of a registered consensus client, in seconds.
#[derive(Debug, Clone, Copy, PartialEq, Eq, Structural)]
pub struct ClientConfig {
    /// Delay after a consensus update during which the new state is provisional.
    pub challenge_period: u64,
    /// Maximum age of a trusted consensus state.
    pub unbonding_period: u64,
}

/// Work that the router queued for a module of this host.
pub enum Delivery {
    Request(Request),
    Response(Response),
    Timeout(Request),
}

pub enum DeliveryView {
    Request(RequestView),
    Response(ResponseView),
    Timeout(RequestView),
}

impl View for Delivery {
    type V = DeliveryView;

    open spec fn view(&self) -> DeliveryView {
        match self {
            Delivery::Request(r) => DeliveryView::Request(r@),
            Delivery::Response(r) => DeliveryView::Response(r@),
            Delivery::Timeout(r) => DeliveryView::Timeout(r@),
        }
    }
}

/// The abstract state of a host.
pub struct HostView {
    pub host_state_machine: StateMachine,
    /// The host clock, in seconds.
    pub now: u64,
    pub clients: Map<ConsensusClientId, ClientConfig>,
    pub consensus_states: Map<ConsensusStateId, Seq<u8>>,
    pub state_clients: Map<ConsensusStateId, ConsensusClientId>,
    pub update_times: Map<ConsensusStateId, u64>,
    pub frozen_clients: Set<ConsensusStateId>,
    pub commitments: Map<StateMachineHeight, StateCommitment>,
    pub latest_heights: Map<StateMachineId, u64>,
    /// The lowest frozen height of each frozen state machine.
    pub frozen_heights: Map<StateMachineId, u64>,
    /// Commitments to outbound requests.
    pub requests: Set<Seq<u8>>,
    /// Commitments to outbound responses.
    pub responses: Set<Seq<u8>>,
    pub delivered: Seq<DeliveryView>,
}

impl HostView {
    /// Frozen at `h` means frozen at some height at or below it.
    pub open spec fn state_machine_frozen(self, h: StateMachineHeight) -> bool {
        self.frozen_heights.contains_key(h.id) && h.height >= self.frozen_heights[h.id]
    }

    /// The host state with `state_id` added to the frozen consensus states.
    pub open spec fn with_frozen_client(self, state_id: ConsensusStateId) -> HostView {
        HostView { frozen_clients: self.frozen_clients.insert(state_id), ..self }
    }

    /// The host state with only the delivery queue replaced.
    pub open spec fn with_delivered(self, d: Seq<DeliveryView>) -> HostView {
        HostView { delivered: d, ..self }
    }
}

/// The views of a set of 32-byte hashes.
pub open spec fn hashes(t: Set<[u8; 32]>) -> Set<Seq<u8>> {
    Set::new(|s: Seq<u8>| exists|a: [u8; 32]| t.contains(a) && a@ == s)
}

proof fn lemma_hashes_insert(t: Set<[u8; 32]>, a: [u8; 32])
    ensures
        hashes(t.insert(a)) == hashes(t).insert(a@),
{
    assert forall|s: Seq<u8>| #[trigger] hashes(t.insert(a)).contains(s) == hashes(t).insert(
        a@,
    ).contains(s) by {
        if hashes(t.insert(a)).contains(s) {
            let b = choose|b: [u8; 32]| t.insert(a).contains(b) && b@ == s;
            if b != a {
                assert(t.contains(b) && b@ == s);
            }
        }
        if hashes(t).contains(s) {
            let b = choose|b: [u8; 32]| t.contains(b) && b@ == s;
            assert(t.insert(a).contains(b) && b@ == s);
        }
        if s == a@ {
            assert(t.insert(a).contains(a) && a@ == s);
        }
    }
    assert(hashes(t.insert(a)) =~= hashes(t).insert(a@));
}

proof fn lemma_hashes_remove(t: Set<[u8; 32]>, a: [u8; 32])
    ensures
        hashes(t.remove(a)) == hashes(t).remove(a@),
{
    assert forall|s: Seq<u8>| #[trigger] hashes(t.remove(a)).contains(s) == hashes(t).remove(
        a@,
    ).contains(s) by {
        if hashes(t.remove(a)).contains(s) {
            let b = choose|b: [u8; 32]| t.remove(a).contains(b) && b@ == s;
            assert(t.contains(b) && b@ == s);
            if s == a@ {
                assert(b =~= a);
            }
        }
        if hashes(t).remove(a@).contains(s) {
            let b = choose|b: [u8; 32]| t.contains(b) && b@ == s;
            assert(t.remove(a).contains(b) && b@ == s);
        }
    }
    assert(hashes(t.remove(a)) =~= hashes(t).remove(a@));
}

proof fn lemma_hashes_contains(t: Set<[u8; 32]>, a: [u8; 32])
    ensures
        hashes(t).contains(a@) == t.contains(a),
{
    if hashes(t).contains(a@) {
        let b = choose|b: [u8; 32]| t.contains(b) && b@ == a@;
        assert(b =~= a);
    }
    if t.contains(a) {
        assert(t.contains(a) && a@ == a@);
    }
}

pub struct Host {
    host_state_machine: StateMachine,
    now: u64,
    clients: Table<ConsensusClientId, ClientConfig>,
    consensus_states: Table<ConsensusStateId, Vec<u8>>,
    state_clients: Table<ConsensusStateId, ConsensusClientId>,
    update_times: Table<ConsensusStateId, u64>,
    frozen_clients: Table<ConsensusStateId, ()>,
    commitments: Table<StateMachineHeight, StateCommitment>,
    latest_heights: Table<StateMachineId, u64>,
    frozen_heights: Table<StateMachineId, u64>,
    requests: Table<[u8; 32], ()>,
    responses: Table<[u8; 32], ()>,
    delivered: Vec<Delivery>,
}

impl View for Host {
    type V = HostView;

    closed spec fn view(&self) -> HostView {
        HostView {
            host_state_machine: self.host_state_machine,
            now: self.now,
            clients: self.clients.view(),
            consensus_states: self.consensus_states.view().map_values(|v: Vec<u8>| v@),
            state_clients: self.state_clients.view(),
            update_times: self.update_times.view(),
            frozen_clients: self.frozen_clients.view().dom(),
            commitments: self.commitments.view(),
            latest_heights: self.latest_heights.view(),
            frozen_heights: self.frozen_heights.view(),
            requests: hashes(self.requests.view().dom()),
            responses: hashes(self.responses.view().dom()),
            delivered: self.delivered@.map_values(|d: Delivery| d@),
        }
    }
}

impl Host {
    /// Every table has unique keys.
    pub closed spec fn wf(&self) -> bool {
        &&& self.clients.wf()
        &&& self.consensus_states.wf()
        &&& self.state_clients.wf()
        &&& self.update_times.wf()
        &&& self.frozen_clients.wf()
        &&& self.commitments.wf()
        &&& self.latest_heights.wf()
        &&& self.frozen_heights.wf()
        &&& self.requests.wf()
        &&& self.responses.wf()
    }

    /// An empty host for `host_state_machine` whose clock reads `now`.
    pub fn new(host_state_machine: StateMachine, now: u64) -> (r: Host)
        ensures
            r.wf(),
            r@.host_state_machine == host_state_machine,
            r@.now == now,
            r@.clients == Map::<ConsensusClientId, ClientConfig>::empty(),
            r@.consensus_states == Map::<ConsensusStateId, Seq<u8>>::empty(),
            r@.state_clients == Map::<ConsensusStateId, ConsensusClientId>::empty(),
            r@.update_times == Map::<ConsensusStateId, u64>::empty(),
            r@.frozen_clients == Set::<ConsensusStateId>::empty(),
            r@.commitments == Map::<StateMachineHeight, StateCommitment>::empty(),
            r@.latest_heights == Map::<StateMachineId, u64>::empty(),
            r@.frozen_heights == Map::<StateMachineId, u64>::empty(),
            r@.requests == Set::<Seq<u8>>::empty(),
            r@.responses == Set::<Seq<u8>>::empty(),
            r@.delivered == Seq::<DeliveryView>::empty(),
    {
        let r = Host {
            host_state_machine,
            now,
            clients: Table::new(),
            consensus_states: Table::new(),
            state_clients: Table::new(),
            update_times: Table::new(),
            frozen_clients: Table::new(),
            commitments: Table::new(),
            latest_heights: Table::new(),
            frozen_heights: Table::new(),
            requests: Table::new(),
            responses: Table::new(),
            delivered: Vec::new(),
        };
        proof {
            assert(r@.consensus_states =~= Map::<ConsensusStateId, Seq<u8>>::empty());
            assert(r@.frozen_clients =~= Set::<ConsensusStateId>::empty());
            assert(r@.requests =~= Set::<Seq<u8>>::empty());
            assert(r@.responses =~= Set::<Seq<u8>>::empty());
            assert(r@.delivered =~= Seq::<DeliveryView>::empty());
        }
        r
    }

    /// The identity of the local chain.
    pub fn host_state_machine(&self) -> (r: StateMachine)
        ensures
            r == self@.host_state_machine,
    {
        self.host_state_machine
    }

    /// The host clock, in seconds.
    pub fn timestamp(&self) -> (r: u64)
        ensures
            r == self@.now,
    {
        self.now
    }

    /// Moves the clock to `now`; a clock never goes back, so an earlier time is refused.
    pub fn set_timestamp(&mut self, now: u64) -> (r: bool)
        ensures
            r == (now >= old(self)@.now),
            final(self)@ == (if r {
                (HostView { now, ..old(self)@ })
            } else {
                old(self)@
            }),
            final(self).wf() == old(self).wf(),
    {
        if now >= self.now {
            self.now = now;
            true
        } else {
            false
        }
    }

    /// Registers the consensus client `id`, or replaces its settings.
    pub fn register_client(&mut self, id: ConsensusClientId, config: ClientConfig)
        requires
            old(self).wf(),
        ensures
            final(self).wf(),
            final(self)@ == (HostView {
                clients: old(self)@.clients.insert(id, config),
                ..old(self)@
            }),
    {
        self.clients.insert(id, config);
    }

    /// The settings of the consensus client `id`.
    pub fn consensus_client(&self, id: ConsensusClientId) -> (r: Result<ClientConfig, Error>)
        requires
            self.wf(),
        ensures
            match r {
                Ok(c) => self@.clients.contains_key(id) && c == self@.clients[id],
                Err(e) => !self@.clients.contains_key(id) && e == (Error::UnknownConsensusClient {
                    consensus_client_id: id,
                }),
            },
    {
        match self.clients.get(&id) {
            Some(c) => Ok(*c),
            None => Err(Error::UnknownConsensusClient { consensus_client_id: id }),
        }
    }

    /// The challenge period of the consensus client `id`.
    pub fn challenge_period(&self, id: ConsensusClientId) -> (r: Result<u64, Error>)
        requires
            self.wf(),
        ensures
            match r {
                Ok(p) => self@.clients.contains_key(id) && p == self@.clients[id].challenge_period,
                Err(e) => !self@.clients.contains_key(id) && e == (Error::UnknownConsensusClient {
                    consensus_client_id: id,
                }),
            },
    {
        match self.consensus_client(id) {
            Ok(c) => Ok(c.challenge_period),
            Err(e) => Err(e),
        }
    }

    /// The consensus client recorded for a consensus state.
    pub fn consensus_client_from_state_id(&self, state_id: ConsensusStateId) -> (r: Option<
        ConsensusClientId,
    >)
        requires
            self.wf(),
        ensures
            r == (if self@.state_clients.contains_key(state_id) {
                Some(self@.state_clients[state_id])
            } else {
                None::<ConsensusClientId>
            }),
    {
        match self.state_clients.get(&state_id) {
            Some(c) => Some(*c),
            None => None,
        }
    }

    /// The trusted bytes of a consensus state.
    pub fn consensus_state(&self, state_id: ConsensusStateId) -> (r: Result<Vec<u8>, Error>)
        requires
            self.wf(),
        ensures
            match r {
                Ok(v) => self@.consensus_states.contains_key(state_id) && v@
                    == self@.consensus_states[state_id],
                Err(e) => !self@.consensus_states.contains_key(state_id) && e == (
                Error::ConsensusStateNotFound { consensus_state_id: state_id }),
            },
    {
        match self.consensus_states.get(&state_id) {
            Some(v) => {
                let c = v.clone();
                assert(c@ =~= v@);
                Ok(c)
            },
            None => Err(Error::ConsensusStateNotFound { consensus_state_id: state_id }),
        }
    }

    /// When a consensus state was last updated.
    pub fn consensus_update_time(&self, state_id: ConsensusStateId) -> (r: Result<u64, Error>)
        requires
            self.wf(),
        ensures
            match r {
                Ok(t) => self@.update_times.contains_key(state_id) && t
                    == self@.update_times[state_id],
                Err(e) => !self@.update_times.contains_key(state_id) && e == (
                Error::ConsensusStateNotFound { consensus_state_id: state_id }),
            },
    {
        match self.update_times.get(&state_id) {
            Some(t) => Ok(*t),
            None => Err(Error::ConsensusStateNotFound { consensus_state_id: state_id }),
        }
    }

    /// The latest height committed for a state machine, if any.
    pub fn latest_commitment_height(&self, id: StateMachineId) -> (r: Option<u64>)
        requires
            self.wf(),
        ensures
            r == (if self@.latest_heights.contains_key(id) {
                Some(self@.latest_heights[id])
            } else {
                None::<u64>
            }),
    {
        match self.latest_heights.get(&id) {
            Some(h) => Some(*h),
            None => None,
        }
    }

    /// The commitment stored at a height.
    pub fn state_machine_commitment(&self, height: StateMachineHeight) -> (r: Result<
        StateCommitment,
        Error,
    >)
        requires
            self.wf(),
        ensures
            match r {
                Ok(c) => self@.commitments.contains_key(height) && c == self@.commitments[height],
                Err(e) => !self@.commitments.contains_key(height) && e == (
                Error::StateCommitmentNotFound { height }),
            },
    {
        match self.commitments.get(&height) {
            Some(c) => Ok(*c),
            None => Err(Error::StateCommitmentNotFound { height }),
        }
    }

    /// `Ok` when the state machine is not frozen at `height`.
    pub fn is_state_machine_frozen(&self, height: StateMachineHeight) -> (r: Result<(), Error>)
        requires
            self.wf(),
        ensures
            match r {
                Ok(_) => !self@.state_machine_frozen(height),
                Err(e) => self@.state_machine_frozen(height) && e == (Error::FrozenStateMachine {
                    height,
                }),
            },
    {
        match self.frozen_heights.get(&height.id) {
            Some(f) => {
                if height.height >= *f {
                    Err(Error::FrozenStateMachine { height })
                } else {
                    Ok(())
                }
            },
            None => Ok(()),
        }
    }

    /// `Ok` when the consensus state is not frozen.
    pub fn is_consensus_client_frozen(&self, state_id: ConsensusStateId) -> (r: Result<(), Error>)
        requires
            self.wf(),
        ensures
            match r {
                Ok(_) => !self@.frozen_clients.contains(state_id),
                Err(e) => self@.frozen_clients.contains(state_id) && e == (
                Error::FrozenConsensusClient { consensus_state_id: state_id }),
            },
    {
        if self.frozen_clients.contains(&state_id) {
            Err(Error::FrozenConsensusClient { consensus_state_id: state_id })
        } else {
            Ok(())
        }
    }

    /// `Ok` when the consensus state was updated within the unbonding period of client
    /// `client_id`.
    pub fn is_expired(&self, client_id: ConsensusClientId, state_id: ConsensusStateId) -> (r:
        Result<(), Error>)
        requires
            self.wf(),
        ensures
            !self@.clients.contains_key(client_id) ==> r == Err::<(), Error>(
                Error::UnknownConsensusClient { consensus_client_id: client_id },
            ),
            self@.clients.contains_key(client_id) && !self@.update_times.contains_key(state_id)
                ==> r == Err::<(), Error>(
                Error::ConsensusStateNotFound { consensus_state_id: state_id },
            ),
            self@.clients.contains_key(client_id) && self@.update_times.contains_key(state_id)
                ==> r == (if self@.now - self@.update_times[state_id]
                > self@.clients[client_id].unbonding_period {
                Err::<(), Error>(Error::UnbondingPeriodElapsed { consensus_state_id: state_id })
            } else {
                Ok::<(), Error>(())
            }),
    {
        let config = match self.consensus_client(client_id) {
            Ok(c) => c,
            Err(e) => return Err(e),
        };
        let last = match self.consensus_update_time(state_id) {
            Ok(t) => t,
            Err(e) => return Err(e),
        };
        if self.now > last && self.now - last > config.unbonding_period {
            Err(Error::UnbondingPeriodElapsed { consensus_state_id: state_id })
        } else {
            Ok(())
        }
    }

    /// `Ok(hash)` when an outbound commitment to `req` exists.
    pub fn request_commitment(&self, req: &Request) -> (r: Result<[u8; 32], Error>)
        requires
            self.wf(),
        ensures
            r is Ok <==> req@.encodable() && self@.requests.contains(request_hash(req@)),
            r matches Ok(h) ==> h@ == request_hash(req@),
            r matches Err(e) ==> e == (Error::RequestCommitmentNotFound {
                nonce: req@.nonce(),
                source: req@.source_chain(),
                dest: req@.dest_chain(),
            }),
    {
        let missing = Error::RequestCommitmentNotFound {
            nonce: req.nonce(),
            source: req.source_chain(),
            dest: req.dest_chain(),
        };
        if !is_encodable(req) {
            return Err(missing);
        }
        let h = hash_request(req);
        proof {
            lemma_hashes_contains(self.requests.view().dom(), h);
        }
        if self.requests.contains(&h) {
            Ok(h)
        } else {
            Err(missing)
        }
    }

    /// Whether an outbound commitment with hash `h` exists for a response.
    pub fn has_response_commitment(&self, h: &[u8; 32]) -> (r: bool)
        requires
            self.wf(),
        ensures
            r == self@.responses.contains(h@),
    {
        proof {
            lemma_hashes_contains(self.responses.view().dom(), *h);
        }
        self.responses.contains(h)
    }

    /// Whether an outbound commitment with hash `h` exists for a request.
    pub fn has_request_commitment(&self, h: &[u8; 32]) -> (r: bool)
        requires
            self.wf(),
        ensures
            r == self@.requests.contains(h@),
    {
        proof {
            lemma_hashes_contains(self.requests.view().dom(), *h);
        }
        self.requests.contains(h)
    }

    /// What the router has queued for modules of this host, oldest first.
    pub fn delivered(&self) -> (r: &Vec<Delivery>)
        ensures
            r@.map_values(|d: Delivery| d@) == self@.delivered,
    {
        &self.delivered
    }

    /// Stores the trusted bytes of a consensus state.
    pub fn store_consensus_state(&mut self, state_id: ConsensusStateId, state: Vec<u8>)
        requires
            old(self).wf(),
        ensures
            final(self).wf(),
            final(self)@ == (HostView {
                consensus_states: old(self)@.consensus_states.insert(state_id, state@),
                ..old(self)@
            }),
    {
        let ghost s = state@;
        self.consensus_states.insert(state_id, state);
        proof {
            assert(self@.consensus_states =~= old(self)@.consensus_states.insert(state_id, s));
        }
    }

    /// Records which consensus client verifies a consensus state.
    pub fn store_consensus_state_id(
        &mut self,
        state_id: ConsensusStateId,
        client_id: ConsensusClientId,
    )
        requires
            old(self).wf(),
        ensures
            final(self).wf(),
            final(self)@ == (HostView {
                state_clients: old(self)@.state_clients.insert(state_id, client_id),
                ..old(self)@
            }),
    {
        self.state_clients.insert(state_id, client_id);
    }

    /// Records when a consensus state was last updated.
    pub fn store_consensus_update_time(&mut self, state_id: ConsensusStateId, timestamp: u64)
        requires
            old(self).wf(),
        ensures
            final(self).wf(),
            final(self)@ == (HostView {
                update_times: old(self)@.update_times.insert(state_id, timestamp),
                ..old(self)@
            }),
    {
        self.update_times.insert(state_id, timestamp);
    }

    /// Stores the commitment of a state machine at a height.
    pub fn store_state_machine_commitment(
        &mut self,
        height: StateMachineHeight,
        commitment: StateCommitment,
    )
        requires
            old(self).wf(),
        ensures
            final(self).wf(),
            final(self)@ == (HostView {
                commitments: old(self)@.commitments.insert(height, commitment),
                ..old(self)@
            }),
    {
        self.commitments.insert(height, commitment);
    }

    /// Records `height` as the latest committed height of its state machine.
    pub fn store_latest_commitment_height(&mut self, height: StateMachineHeight)
        requires
            old(self).wf(),
        ensures
            final(self).wf(),
            final(self)@ == (HostView {
                latest_heights: old(self)@.latest_heights.insert(height.id, height.height),
                ..old(self)@
            }),
    {
        self.latest_heights.insert(height.id, height.height);
    }

    /// Freezes a state machine at `height` and every height above it.
    pub fn freeze_state_machine(&mut self, height: StateMachineHeight)
        requires
            old(self).wf(),
        ensures
            final(self).wf(),
            final(self)@ == (HostView {
                frozen_heights: old(self)@.frozen_heights.insert(
                    height.id,
                    if old(self)@.frozen_heights.contains_key(height.id)
                        && old(self)@.frozen_heights[height.id] < height.height {
                        old(self)@.frozen_heights[height.id]
                    } else {
                        height.height
                    },
                ),
                ..old(self)@
            }),
    {
        let lowest = match self.frozen_heights.get(&height.id) {
            Some(f) => if *f < height.height {
                *f
            } else {
                height.height
            },
            None => height.height,
        };
        self.frozen_heights.insert(height.id, lowest);
    }

    /// Freezes a consensus state for good.
    pub fn freeze_consensus_client(&mut self, state_id: ConsensusStateId)
        requires
            old(self).wf(),
        ensures
            final(self).wf(),
            final(self)@ == old(self)@.with_frozen_client(state_id),
    {
        self.frozen_clients.insert(state_id, ());
        proof {
            assert(self@.frozen_clients =~= old(self)@.frozen_clients.insert(state_id));
        }
    }

    /// Deletes the outbound commitment to `req`, if there is one.
    pub fn delete_request_commitment(&mut self, req: &Request)
        requires
            old(self).wf(),
        ensures
            final(self).wf(),
            final(self)@ == (if req@.encodable() {
                (HostView {
                    requests: old(self)@.requests.remove(request_hash(req@)),
                    ..old(self)@
                })
            } else {
                old(self)@
            }),
    {
        if is_encodable(req) {
            let h = hash_request(req);
            proof {
                lemma_hashes_remove(self.requests.view().dom(), h);
            }
            self.requests.remove(&h);
            proof {
                assert(self.requests.view().dom() =~= old(self).requests.view().dom().remove(h));
            }
        }
    }

    /// Adds an outbound request commitment.
    pub(crate) fn store_request_commitment(&mut self, h: [u8; 32])
        requires
            old(self).wf(),
        ensures
            final(self).wf(),
            final(self)@ == (HostView { requests: old(self)@.requests.insert(h@), ..old(self)@ }),
    {
        proof {
            lemma_hashes_insert(self.requests.view().dom(), h);
        }
        self.requests.insert(h, ());
        proof {
            assert(self.requests.view().dom() =~= old(self).requests.view().dom().insert(h));
        }
    }

    /// Adds an outbound response commitment.
    pub(crate) fn store_response_commitment(&mut self, h: [u8; 32])
        requires
            old(self).wf(),
        ensures
            final(self).wf(),
            final(self)@ == (HostView { responses: old(self)@.responses.insert(h@), ..old(self)@ }),
    {
        proof {
            lemma_hashes_insert(self.responses.view().dom(), h);
        }
        self.responses.insert(h, ());
        proof {
            assert(self.responses.view().dom() =~= old(self).responses.view().dom().insert(h));
        }
    }

    /// Queues work for a module of this host.
    pub(crate) fn deliver(&mut self, d: Delivery)
        requires
            old(self).wf(),
        ensures
            final(self).wf(),
            final(self)@ == old(self)@.with_delivered(old(self)@.delivered.push(d@)),
    {
        let ghost v = d@;
        self.delivered.push(d);
        proof {
            assert(self@.delivered =~= old(self)@.delivered.push(v));
        }
    }
}

} // verus!
