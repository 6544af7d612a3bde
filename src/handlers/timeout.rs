//! Timeouts of requests that this host sent and that their destination never received.

use crate::consensus::{ConsensusClient, StateMachineHeight};
use crate::error::Error;
use crate::handlers::{
    check_commitments, committed, first_missing, preamble, proof_height_usable, request_views,
    results_match, validate_state_machine, without_request, MessageResult,
};
use crate::host::{DeliveryView, Host, HostView};
use crate::messaging::TimeoutMessage;
use crate::router::{
    dispatch_timeout, names_request, success_of, DispatchResult, Request, RequestResponse,
    RequestView,
};
use vstd::prelude::*;

verus! {

/// The destination's committed time at `height` is past the timeout of every request.
pub open spec fn all_timed_out(
    h: HostView,
    height: StateMachineHeight,
    reqs: Seq<RequestView>,
) -> bool {
    forall|i: int|
        0 <= i < reqs.len() ==> h.commitments[height].timestamp
            > #[trigger] reqs[i].timeout_timestamp()
}

/// `e` is the error for the first request of `reqs` whose timeout the destination had not
/// passed at `height`.
pub open spec fn first_not_timed_out(
    h: HostView,
    height: StateMachineHeight,
    reqs: Seq<RequestView>,
    e: Error,
) -> bool {
    exists|i: int|
        0 <= i < reqs.len() && h.commitments[height].timestamp
            <= #[trigger] reqs[i].timeout_timestamp()
            && (forall|j: int|
            0 <= j < i ==> h.commitments[height].timestamp > #[trigger] reqs[j].timeout_timestamp())
            && e == (Error::RequestTimeoutVerificationFailed {
            nonce: reqs[i].nonce(),
            source: reqs[i].source_chain(),
            dest: reqs[i].dest_chain(),
        })
}

/// Timeouts handed to the modules that sent the requests, in order, each releasing the
/// commitment to its request.
pub open spec fn timeout_all(h: HostView, reqs: Seq<RequestView>) -> HostView
    decreases reqs.len(),
{
    if reqs.len() == 0 {
        h
    } else {
        let h1 = timeout_all(h, reqs.drop_last());
        without_request(
            h1.with_delivered(h1.delivered.push(DeliveryView::Timeout(reqs.last()))),
            reqs.last(),
        )
    }
}

/// Checks that a state proof found nothing: every value is absent.
pub fn check_absent(values: &Vec<Option<Vec<u8>>>) -> (r: Result<(), Error>)
    ensures
        r is Ok <==> forall|i: int| 0 <= i < values.len() ==> #[trigger] values@[i] is None,
        r matches Err(e) ==> e == Error::NonMembershipProofVerificationFailed,
{
    let mut i: usize = 0;
    while i < values.len()
        invariant
            i <= values.len(),
            forall|j: int| 0 <= j < i ==> #[trigger] values@[j] is None,
        decreases values.len() - i,
    {
        if values[i].is_some() {
            return Err(Error::NonMembershipProofVerificationFailed);
        }
        i = i + 1;
    }
    Ok(())
}

/// Checks that the destination's committed time at `height` is past each request's timeout.
fn check_timed_out(
    host: &Host,
    height: StateMachineHeight,
    timestamp: u64,
    reqs: &Vec<Request>,
) -> (r: Result<(), Error>)
    requires
        host.wf(),
        host@.commitments.contains_key(height),
        timestamp == host@.commitments[height].timestamp,
    ensures
        match r {
            Ok(_) => all_timed_out(host@, height, request_views(reqs@)),
            Err(e) => first_not_timed_out(host@, height, request_views(reqs@), e),
        },
{
    let ghost views = request_views(reqs@);
    let mut i: usize = 0;
    while i < reqs.len()
        invariant
            i <= reqs.len(),
            views == request_views(reqs@),
            timestamp == host@.commitments[height].timestamp,
            forall|j: int| 0 <= j < i ==> timestamp > #[trigger] views[j].timeout_timestamp(),
        decreases reqs.len() - i,
    {
        let req = &reqs[i];
        if timestamp <= req.timeout() {
            proof {
                assert(views[i as int] == reqs@[i as int]@);
            }
            return Err(
                Error::RequestTimeoutVerificationFailed {
                    nonce: req.nonce(),
                    source: req.source_chain(),
                    dest: req.dest_chain(),
                },
            );
        }
        i = i + 1;
    }
    Ok(())
}

/// Hands each timeout to the router, then deletes the commitment to its request.
pub fn dispatch_timeouts(host: &mut Host, requests: &Vec<Request>) -> (r: Vec<DispatchResult>)
    requires
        old(host).wf(),
    ensures
        final(host).wf(),
        final(host)@ == timeout_all(old(host)@, request_views(requests@)),
        results_match(
            r@,
            request_views(requests@),
            Seq::new(requests@.len(), |i: int| true),
        ),
{
    let ghost start = host@;
    let ghost reqs = request_views(requests@);
    let mut results: Vec<DispatchResult> = Vec::new();
    let mut i: usize = 0;
    while i < requests.len()
        invariant
            host.wf(),
            i <= requests.len(),
            reqs == request_views(requests@),
            host@ == timeout_all(start, reqs.subrange(0, i as int)),
            results_match(results@, reqs.subrange(0, i as int), Seq::new(i as nat, |k: int| true)),
        decreases requests.len() - i,
    {
        let req = requests[i].duplicate();
        proof {
            assert(reqs.subrange(0, i + 1).drop_last() =~= reqs.subrange(0, i as int));
            assert(reqs.subrange(0, i + 1).last() == req@);
        }
        let res = dispatch_timeout(host, req);
        host.delete_request_commitment(&requests[i]);
        results.push(res);
        i = i + 1;
        proof {
            let s = reqs.subrange(0, i as int);
            let acc = Seq::new(i as nat, |k: int| true);
            assert forall|j: int| 0 <= j < s.len() implies match #[trigger] results@[j] {
                Ok(x) => acc[j] && x == success_of(s[j]),
                Err(e) => !acc[j] && names_request(e, s[j]),
            } by {
                if j < i - 1 {
                    assert(s[j] == reqs.subrange(0, i - 1)[j]);
                }
            }
        }
    }
    proof {
        assert(reqs.subrange(0, requests.len() as int) =~= reqs);
    }
    results
}

/// A timeout message was handled as `handle` promises.
pub open spec fn timeout_outcome(
    h: HostView,
    n: HostView,
    msg: TimeoutMessage,
    r: Result<MessageResult, Error>,
) -> bool {
    &&& match preamble(h, msg.timeout_proof.height) {
        Err(e) => r == Err::<MessageResult, Error>(e) && n == h,
        Ok(_) => if !(forall|i: int|
            0 <= i < msg.requests.len() ==> committed(
                h,
                #[trigger] request_views(msg.requests@)[i],
            )) {
            r matches Err(e) && first_missing(h, request_views(msg.requests@), e)
                && n == h
        } else if !h.commitments.contains_key(msg.timeout_proof.height) {
            r == Err::<MessageResult, Error>(
                Error::StateCommitmentNotFound { height: msg.timeout_proof.height },
            ) && n == h
        } else if !all_timed_out(
            h,
            msg.timeout_proof.height,
            request_views(msg.requests@),
        ) {
            r matches Err(e) && first_not_timed_out(
                h,
                msg.timeout_proof.height,
                request_views(msg.requests@),
                e,
            ) && n == h
        } else {
            match r {
                Ok(MessageResult::Timeout(results)) => n == timeout_all(
                    h,
                    request_views(msg.requests@),
                ) && results_match(
                    results@,
                    request_views(msg.requests@),
                    Seq::new(msg.requests@.len(), |i: int| true),
                ),
                Ok(_) => false,
                Err(e) => e == Error::NonMembershipProofVerificationFailed && n == h,
            }
        }
    }
    &&& r is Ok ==> {
        &&& proof_height_usable(h, msg.timeout_proof.height)
        &&& h.commitments.contains_key(msg.timeout_proof.height)
        &&& all_timed_out(h, msg.timeout_proof.height, request_views(msg.requests@))
    }
}

/// Handles timeouts of requests of this host: runs the shared checks at the proof height,
/// checks that each request was committed here and that the destination's committed time at
/// that height is past its timeout, has `client` prove that the destination holds none of the
/// requests, then notifies the sending modules and deletes the commitments.
pub fn handle<C: ConsensusClient>(host: &mut Host, client: &C, msg: TimeoutMessage) -> (r: Result<
    MessageResult,
    Error,
>)
    requires
        old(host).wf(),
    ensures
        final(host).wf(),
        timeout_outcome(old(host)@, final(host)@, msg, r),
{
    let height = msg.timeout_proof.height;
    let cid = match validate_state_machine(host, height) {
        Ok(c) => c,
        Err(e) => return Err(e),
    };
    match check_commitments(host, &msg.requests) {
        Ok(_) => {},
        Err(e) => return Err(e),
    }
    let state = match host.state_machine_commitment(height) {
        Ok(c) => c,
        Err(e) => return Err(e),
    };
    match check_timed_out(host, height, state.timestamp, &msg.requests) {
        Ok(_) => {},
        Err(e) => return Err(e),
    }
    let ghost reqs = msg.requests@;
    let item = RequestResponse::Request(msg.requests);
    let keys = client.state_trie_key(cid, &item);
    let values = match client.verify_state_proof(host, cid, keys, &state, &msg.timeout_proof) {
        Ok(v) => v,
        Err(_) => return Err(Error::NonMembershipProofVerificationFailed),
    };
    match check_absent(&values) {
        Ok(_) => {},
        Err(e) => return Err(e),
    }
    let requests = match item {
        RequestResponse::Request(v) => v,
        RequestResponse::Response(_) => Vec::new(),
    };
    assert(requests@ == reqs);
    let results = dispatch_timeouts(host, &requests);
    Ok(MessageResult::Timeout(results))
}

} // verus!
