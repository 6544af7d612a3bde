//! Consensus updates, creation of consensus clients and freezing on fraud.

use crate::consensus::{
    ConsensusClient, ConsensusClientId, ConsensusStateId, IntermediateState, StateMachineHeight,
    StateMachineId,
};
use crate::error::Error;
use crate::handlers::{ConsensusClientCreatedResult, ConsensusUpdateResult, MessageResult};
use crate::host::{Host, HostView};
use crate::messaging::{ConsensusMessage, CreateConsensusClient, FraudProofMessage};
use crate::state_machine::StateMachine;
use vstd::prelude::*;

verus! {

/// The checks that a consensus update must pass, in order; `Ok` holds the consensus client of
/// the consensus state.
pub open spec fn consensus_gate(h: HostView, sid: ConsensusStateId) -> Result<
    ConsensusClientId,
    Error,
> {
    if !h.state_clients.contains_key(sid) {
        Err(Error::ConsensusStateIdNotRecognized { consensus_state_id: sid })
    } else if !h.clients.contains_key(h.state_clients[sid]) {
        Err(Error::UnknownConsensusClient { consensus_client_id: h.state_clients[sid] })
    } else if !h.consensus_states.contains_key(sid) || !h.update_times.contains_key(sid) {
        Err(Error::ConsensusStateNotFound { consensus_state_id: sid })
    } else if h.frozen_clients.contains(sid) {
        Err(Error::FrozenConsensusClient { consensus_state_id: sid })
    } else if h.elapsed(sid) <= h.clients[h.state_clients[sid]].challenge_period {
        Err(
            Error::ChallengePeriodNotElapsed {
                consensus_client_id: h.state_clients[sid],
                current_time: h.now,
                update_time: h.update_times[sid],
            },
        )
    } else if h.elapsed(sid) > h.clients[h.state_clients[sid]].unbonding_period {
        Err(Error::UnbondingPeriodElapsed { consensus_state_id: sid })
    } else {
        Ok(h.state_clients[sid])
    }
}

/// One verified commitment applied to the host: skipped when its state machine is frozen at
/// that height, when a later height is already tracked, or when a commitment already exists
/// there; otherwise stored as the new latest height, with the transition it records.
pub open spec fn apply_one(
    h: HostView,
    sid: ConsensusStateId,
    item: (StateMachine, IntermediateState),
) -> (HostView, Option<(StateMachineHeight, StateMachineHeight)>) {
    let id = StateMachineId { state_id: item.0, consensus_state_id: sid };
    let sh = StateMachineHeight { id, height: item.1.height };
    let prev = if h.latest_heights.contains_key(id) {
        h.latest_heights[id]
    } else {
        0u64
    };
    if h.state_machine_frozen(sh) || prev > item.1.height || h.commitments.contains_key(sh) {
        (h, None)
    } else {
        (
            HostView {
                commitments: h.commitments.insert(sh, item.1.commitment),
                latest_heights: h.latest_heights.insert(id, item.1.height),
                ..h
            },
            Some((StateMachineHeight { id, height: prev }, sh)),
        )
    }
}

/// Verified commitments applied in order, with the transitions recorded.
pub open spec fn apply_all(
    h: HostView,
    sid: ConsensusStateId,
    items: Seq<(StateMachine, IntermediateState)>,
) -> (HostView, Seq<(StateMachineHeight, StateMachineHeight)>)
    decreases items.len(),
{
    if items.len() == 0 {
        (h, Seq::empty())
    } else {
        let (h1, u1) = apply_all(h, sid, items.drop_last());
        let (h2, o) = apply_one(h1, sid, items.last());
        (
            h2,
            match o {
                Some(u) => u1.push(u),
                None => u1,
            },
        )
    }
}

/// A verified consensus update applied to the host: the new trusted state, the update time set
/// to now, then the commitments.
pub open spec fn consensus_update_effect(
    h: HostView,
    sid: ConsensusStateId,
    new_state: Seq<u8>,
    items: Seq<(StateMachine, IntermediateState)>,
) -> (HostView, Seq<(StateMachineHeight, StateMachineHeight)>) {
    apply_all(
        HostView {
            consensus_states: h.consensus_states.insert(sid, new_state),
            update_times: h.update_times.insert(sid, h.now),
            ..h
        },
        sid,
        items,
    )
}

fn apply_intermediate(
    host: &mut Host,
    sid: ConsensusStateId,
    item: (StateMachine, IntermediateState),
) -> (r: Option<(StateMachineHeight, StateMachineHeight)>)
    requires
        old(host).wf(),
    ensures
        final(host).wf(),
        (final(host)@, r) == apply_one(old(host)@, sid, item),
{
    let (state_id, state) = item;
    let id = StateMachineId { state_id, consensus_state_id: sid };
    let sh = StateMachineHeight { id, height: state.height };
    if host.is_state_machine_frozen(sh).is_err() {
        return None;
    }
    let prev = match host.latest_commitment_height(id) {
        Some(h) => h,
        None => 0,
    };
    if prev > state.height {
        return None;
    }
    if host.state_machine_commitment(sh).is_ok() {
        return None;
    }
    host.store_state_machine_commitment(sh, state.commitment);
    host.store_latest_commitment_height(sh);
    Some((StateMachineHeight { id, height: prev }, sh))
}

/// Applies the outcome of a verified consensus proof: stores the new trusted state, sets the
/// update time to now, and stores each commitment that is not skipped.
pub fn apply_consensus_update(
    host: &mut Host,
    consensus_client_id: ConsensusClientId,
    consensus_state_id: ConsensusStateId,
    new_state: Vec<u8>,
    intermediates: Vec<(StateMachine, IntermediateState)>,
) -> (r: ConsensusUpdateResult)
    requires
        old(host).wf(),
    ensures
        final(host).wf(),
        (final(host)@, r.state_updates@) == consensus_update_effect(
            old(host)@,
            consensus_state_id,
            new_state@,
            intermediates@,
        ),
        r.consensus_client_id == consensus_client_id,
        r.consensus_state_id == consensus_state_id,
{
    let now = host.timestamp();
    host.store_consensus_state(consensus_state_id, new_state);
    host.store_consensus_update_time(consensus_state_id, now);
    let ghost start = host@;
    let mut state_updates: Vec<(StateMachineHeight, StateMachineHeight)> = Vec::new();
    let mut i: usize = 0;
    while i < intermediates.len()
        invariant
            host.wf(),
            i <= intermediates.len(),
            (host@, state_updates@) == apply_all(
                start,
                consensus_state_id,
                intermediates@.subrange(0, i as int),
            ),
        decreases intermediates.len() - i,
    {
        let item = intermediates[i];
        match apply_intermediate(host, consensus_state_id, item) {
            Some(u) => state_updates.push(u),
            None => {},
        }
        proof {
            assert(intermediates@.subrange(0, i + 1).drop_last() =~= intermediates@.subrange(
                0,
                i as int,
            ));
        }
        i = i + 1;
    }
    proof {
        assert(intermediates@.subrange(0, intermediates.len() as int) =~= intermediates@);
    }
    ConsensusUpdateResult { consensus_client_id, consensus_state_id, state_updates }
}

/// Every latest height tracked in `a` is still tracked in `b`, at the same height or above.
pub open spec fn latest_heights_advanced(a: HostView, b: HostView) -> bool {
    forall|id: StateMachineId| #[trigger]
        a.latest_heights.contains_key(id) ==> b.latest_heights.contains_key(id)
            && b.latest_heights[id] >= a.latest_heights[id]
}

/// Applying verified commitments never lowers a latest height.
pub proof fn lemma_apply_all_advances(
    h: HostView,
    sid: ConsensusStateId,
    items: Seq<(StateMachine, IntermediateState)>,
)
    ensures
        latest_heights_advanced(h, apply_all(h, sid, items).0),
    decreases items.len(),
{
    if items.len() > 0 {
        lemma_apply_all_advances(h, sid, items.drop_last());
    }
}

/// A successful consensus update never lowers the latest committed height of any state
/// machine: whatever the consensus client verified, a height below the latest one is skipped.
pub proof fn lemma_consensus_update_advances(
    h: HostView,
    sid: ConsensusStateId,
    new_state: Seq<u8>,
    items: Seq<(StateMachine, IntermediateState)>,
)
    ensures
        latest_heights_advanced(h, consensus_update_effect(h, sid, new_state, items).0),
{
    let h0 = HostView {
        consensus_states: h.consensus_states.insert(sid, new_state),
        update_times: h.update_times.insert(sid, h.now),
        ..h
    };
    lemma_apply_all_advances(h0, sid, items);
    assert(h0.latest_heights == h.latest_heights);
    assert(consensus_update_effect(h, sid, new_state, items) == apply_all(h0, sid, items));
}

/// A consensus update ended as `update_client` promises: from host `h` to host `n` with result `r`.
pub open spec fn update_client_outcome(
    h: HostView,
    n: HostView,
    msg: ConsensusMessage,
    r: Result<MessageResult, Error>,
) -> bool {
    &&& match consensus_gate(h, msg.consensus_state_id) {
        Err(e) => r == Err::<MessageResult, Error>(e) && n == h,
        Ok(cid) => match r {
            Ok(MessageResult::ConsensusMessage(res)) => {
                &&& res.consensus_client_id == cid
                &&& res.consensus_state_id == msg.consensus_state_id
                &&& exists|ns: Seq<u8>, items: Seq<(StateMachine, IntermediateState)>|
                    #[trigger] consensus_update_effect(
                        h,
                        msg.consensus_state_id,
                        ns,
                        items,
                    ) == (n, res.state_updates@)
            },
            Ok(_) => false,
            Err(_) => n == h,
        }
    }
    &&& r is Ok ==> latest_heights_advanced(h, n)
}

/// Handles a consensus update: checks that the consensus state is known, not frozen, out of its
/// challenge window and within its unbonding period; has `client` verify the proof; then applies
/// the result.
pub fn update_client<C: ConsensusClient>(
    host: &mut Host,
    client: &C,
    msg: ConsensusMessage,
) -> (r: Result<MessageResult, Error>)
    requires
        old(host).wf(),
    ensures
        final(host).wf(),
        update_client_outcome(old(host)@, final(host)@, msg, r),
{
    let sid = msg.consensus_state_id;
    let cid = match host.consensus_client_from_state_id(sid) {
        Some(c) => c,
        None => return Err(Error::ConsensusStateIdNotRecognized { consensus_state_id: sid }),
    };
    let delay = match host.challenge_period(cid) {
        Ok(d) => d,
        Err(e) => return Err(e),
    };
    let trusted = match host.consensus_state(sid) {
        Ok(t) => t,
        Err(e) => return Err(e),
    };
    let update_time = match host.consensus_update_time(sid) {
        Ok(t) => t,
        Err(e) => return Err(e),
    };
    let now = host.timestamp();
    match host.is_consensus_client_frozen(sid) {
        Ok(_) => {},
        Err(e) => return Err(e),
    }
    if now <= update_time || now - update_time <= delay {
        return Err(
            Error::ChallengePeriodNotElapsed {
                consensus_client_id: cid,
                current_time: now,
                update_time,
            },
        );
    }
    match host.is_expired(cid, sid) {
        Ok(_) => {},
        Err(e) => return Err(e),
    }
    let (new_state, intermediates) = match client.verify_consensus(
        host,
        cid,
        sid,
        trusted,
        msg.consensus_proof,
    ) {
        Ok(v) => v,
        Err(e) => return Err(e),
    };
    let ghost ns = new_state@;
    let ghost items = intermediates@;
    let res = apply_consensus_update(host, cid, sid, new_state, intermediates);
    proof {
        lemma_consensus_update_advances(old(host)@, sid, ns, items);
    }
    Ok(MessageResult::ConsensusMessage(res))
}

/// Genesis commitments stored in order, each as the latest height of its state machine.
pub open spec fn store_genesis(
    h: HostView,
    items: Seq<(StateMachineId, IntermediateState)>,
) -> HostView
    decreases items.len(),
{
    if items.len() == 0 {
        h
    } else {
        let h1 = store_genesis(h, items.drop_last());
        let (id, state) = items.last();
        HostView {
            commitments: h1.commitments.insert(
                StateMachineHeight { id, height: state.height },
                state.commitment,
            ),
            latest_heights: h1.latest_heights.insert(id, state.height),
            ..h1
        }
    }
}

/// A new consensus client applied to the host: trusted state, client of the consensus state,
/// genesis commitments, and the update time set to now.
pub open spec fn create_client_effect(h: HostView, m: CreateConsensusClient) -> HostView {
    let h1 = store_genesis(
        HostView {
            consensus_states: h.consensus_states.insert(m.consensus_state_id, m.consensus_state@),
            state_clients: h.state_clients.insert(m.consensus_state_id, m.consensus_client_id),
            ..h
        },
        m.state_machine_commitments@,
    );
    HostView { update_times: h1.update_times.insert(m.consensus_state_id, h1.now), ..h1 }
}

/// Bootstraps a tracked chain for a registered consensus client.
pub fn create_client(host: &mut Host, message: CreateConsensusClient) -> (r: Result<
    ConsensusClientCreatedResult,
    Error,
>)
    requires
        old(host).wf(),
    ensures
        final(host).wf(),
        old(host)@.clients.contains_key(message.consensus_client_id) ==> r == Ok::<
            ConsensusClientCreatedResult,
            Error,
        >(
            ConsensusClientCreatedResult {
                consensus_client_id: message.consensus_client_id,
                consensus_state_id: message.consensus_state_id,
            },
        ) && final(host)@ == create_client_effect(old(host)@, message),
        !old(host)@.clients.contains_key(message.consensus_client_id) ==> r == Err::<
            ConsensusClientCreatedResult,
            Error,
        >(Error::UnknownConsensusClient { consensus_client_id: message.consensus_client_id })
            && final(host)@ == old(host)@,
{
    let ghost m = message;
    match host.consensus_client(message.consensus_client_id) {
        Ok(_) => {},
        Err(e) => return Err(e),
    }
    let sid = message.consensus_state_id;
    let cid = message.consensus_client_id;
    host.store_consensus_state(sid, message.consensus_state);
    host.store_consensus_state_id(sid, cid);
    let ghost start = host@;
    let commitments = message.state_machine_commitments;
    let mut i: usize = 0;
    while i < commitments.len()
        invariant
            host.wf(),
            i <= commitments.len(),
            commitments@ == m.state_machine_commitments@,
            host@ == store_genesis(start, commitments@.subrange(0, i as int)),
        decreases commitments.len() - i,
    {
        let (id, state) = commitments[i];
        let height = StateMachineHeight { id, height: state.height };
        host.store_state_machine_commitment(height, state.commitment);
        host.store_latest_commitment_height(height);
        proof {
            assert(commitments@.subrange(0, i + 1).drop_last() =~= commitments@.subrange(
                0,
                i as int,
            ));
        }
        i = i + 1;
    }
    proof {
        assert(commitments@.subrange(0, commitments.len() as int) =~= commitments@);
    }
    let now = host.timestamp();
    host.store_consensus_update_time(sid, now);
    Ok(ConsensusClientCreatedResult { consensus_client_id: cid, consensus_state_id: sid })
}

/// The checks that a fraud proof must pass before its verification, in order.
pub open spec fn fraud_gate(h: HostView, sid: ConsensusStateId) -> Result<
    ConsensusClientId,
    Error,
> {
    if !h.state_clients.contains_key(sid) {
        Err(Error::ConsensusStateIdNotRecognized { consensus_state_id: sid })
    } else if !h.clients.contains_key(h.state_clients[sid]) {
        Err(Error::UnknownConsensusClient { consensus_client_id: h.state_clients[sid] })
    } else if !h.consensus_states.contains_key(sid) {
        Err(Error::ConsensusStateNotFound { consensus_state_id: sid })
    } else {
        Ok(h.state_clients[sid])
    }
}

/// A verified fraud proof applied to the host: the consensus state is frozen and its update
/// time set to now.
pub open spec fn freeze_effect(h: HostView, sid: ConsensusStateId) -> HostView {
    HostView { update_times: h.update_times.insert(sid, h.now), ..h.with_frozen_client(sid) }
}

/// A fraud proof was handled as `freeze_client` promises.
pub open spec fn freeze_client_outcome(
    h: HostView,
    n: HostView,
    msg: FraudProofMessage,
    r: Result<MessageResult, Error>,
) -> bool {
    &&& match fraud_gate(h, msg.consensus_state_id) {
        Err(e) => r == Err::<MessageResult, Error>(e) && n == h,
        Ok(_) => match r {
            Ok(MessageResult::FrozenClient(s)) => s == msg.consensus_state_id && n
                == freeze_effect(h, msg.consensus_state_id),
            Ok(_) => false,
            Err(_) => n == h,
        }
    }
}

/// Freezes a consensus state on a fraud proof that `client` accepts.
pub fn freeze_client<C: ConsensusClient>(
    host: &mut Host,
    client: &C,
    msg: FraudProofMessage,
) -> (r: Result<MessageResult, Error>)
    requires
        old(host).wf(),
    ensures
        final(host).wf(),
        freeze_client_outcome(old(host)@, final(host)@, msg, r),
{
    let sid = msg.consensus_state_id;
    let cid = match host.consensus_client_from_state_id(sid) {
        Some(c) => c,
        None => return Err(Error::ConsensusStateIdNotRecognized { consensus_state_id: sid }),
    };
    match host.consensus_client(cid) {
        Ok(_) => {},
        Err(e) => return Err(e),
    }
    let trusted = match host.consensus_state(sid) {
        Ok(t) => t,
        Err(e) => return Err(e),
    };
    match client.verify_fraud_proof(host, cid, trusted, msg.proof_1, msg.proof_2) {
        Ok(_) => {},
        Err(e) => return Err(e),
    }
    host.freeze_consensus_client(sid);
    let now = host.timestamp();
    host.store_consensus_update_time(sid, now);
    Ok(MessageResult::FrozenClient(sid))
}

} // verus!
