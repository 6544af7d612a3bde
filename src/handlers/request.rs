//! Delivery of requests proven to be committed on their source.

use crate::consensus::ConsensusClient;
use crate::error::Error;
use crate::handlers::{
    preamble, proof_height_usable, request_views, results_match, validate_state_machine,
    MessageResult,
};
use crate::host::{Host, HostView};
use crate::messaging::RequestMessage;
use crate::router::{
    dispatch, dispatch_effect, names_request, success_of, DispatchResult, Request,
    RequestResponse, RequestView,
};
use vstd::prelude::*;

verus! {

/// Requests dispatched in order: the host after them, and which of them the router accepted.
pub open spec fn dispatch_all(h: HostView, reqs: Seq<RequestView>) -> (HostView, Seq<bool>)
    decreases reqs.len(),
{
    if reqs.len() == 0 {
        (h, Seq::empty())
    } else {
        let (h1, a) = dispatch_all(h, reqs.drop_last());
        match dispatch_effect(h1, reqs.last()) {
            Some(h2) => (h2, a.push(true)),
            None => (h1, a.push(false)),
        }
    }
}

/// Dispatches each request in order, collecting one result per request; a refused request does
/// not undo those before it.
pub fn dispatch_requests(host: &mut Host, requests: &Vec<Request>) -> (r: Vec<DispatchResult>)
    requires
        old(host).wf(),
    ensures
        final(host).wf(),
        final(host)@ == dispatch_all(old(host)@, request_views(requests@)).0,
        results_match(
            r@,
            request_views(requests@),
            dispatch_all(old(host)@, request_views(requests@)).1,
        ),
{
    let ghost start = host@;
    let ghost reqs = request_views(requests@);
    let mut results: Vec<DispatchResult> = Vec::new();
    let mut i: usize = 0;
    while i < requests.len()
        invariant
            host.wf(),
            i <= requests.len(),
            reqs == request_views(requests@),
            host@ == dispatch_all(start, reqs.subrange(0, i as int)).0,
            results_match(
                results@,
                reqs.subrange(0, i as int),
                dispatch_all(start, reqs.subrange(0, i as int)).1,
            ),
        decreases requests.len() - i,
    {
        let req = requests[i].duplicate();
        proof {
            assert(reqs.subrange(0, i + 1).drop_last() =~= reqs.subrange(0, i as int));
            assert(reqs.subrange(0, i + 1).last() == req@);
        }
        let res = dispatch(host, req);
        results.push(res);
        i = i + 1;
        proof {
            let s = reqs.subrange(0, i as int);
            let acc = dispatch_all(start, s).1;
            assert forall|j: int| 0 <= j < s.len() implies match #[trigger] results@[j] {
                Ok(x) => acc[j] && x == success_of(s[j]),
                Err(e) => !acc[j] && names_request(e, s[j]),
            } by {
                if j < i - 1 {
                    assert(s[j] == reqs.subrange(0, i - 1)[j]);
                }
            }
        }
    }
    proof {
        assert(reqs.subrange(0, requests.len() as int) =~= reqs);
    }
    results
}

/// A request message was handled as `handle_request_message` promises.
pub open spec fn request_outcome(
    h: HostView,
    n: HostView,
    msg: RequestMessage,
    r: Result<MessageResult, Error>,
) -> bool {
    &&& match preamble(h, msg.proof.height) {
        Err(e) => r == Err::<MessageResult, Error>(e) && n == h,
        Ok(_) => if !h.commitments.contains_key(msg.proof.height) {
            r == Err::<MessageResult, Error>(
                Error::StateCommitmentNotFound { height: msg.proof.height },
            ) && n == h
        } else {
            match r {
                Ok(MessageResult::Request(results)) => {
                    let out = dispatch_all(h, request_views(msg.requests@));
                    n == out.0 && results_match(
                        results@,
                        request_views(msg.requests@),
                        out.1,
                    )
                },
                Ok(_) => false,
                Err(e) => e == Error::MembershipProofVerificationFailed && n == h,
            }
        }
    }
    &&& r is Ok ==> proof_height_usable(h, msg.proof.height)
}

/// Handles requests proven to be committed on their source: runs the shared checks at the
/// proof height, has `client` verify the membership proof against the stored commitment, then
/// dispatches each request in order.
pub fn handle_request_message<C: ConsensusClient>(
    host: &mut Host,
    client: &C,
    msg: RequestMessage,
) -> (r: Result<MessageResult, Error>)
    requires
        old(host).wf(),
    ensures
        final(host).wf(),
        request_outcome(old(host)@, final(host)@, msg, r),
{
    let cid = match validate_state_machine(host, msg.proof.height) {
        Ok(c) => c,
        Err(e) => return Err(e),
    };
    let root = match host.state_machine_commitment(msg.proof.height) {
        Ok(c) => c,
        Err(e) => return Err(e),
    };
    let ghost reqs = msg.requests@;
    let item = RequestResponse::Request(msg.requests);
    if client.verify_membership(host, cid, &item, &root, &msg.proof).is_err() {
        return Err(Error::MembershipProofVerificationFailed);
    }
    let requests = match item {
        RequestResponse::Request(v) => v,
        RequestResponse::Response(_) => Vec::new(),
    };
    assert(requests@ == reqs);
    let results = dispatch_requests(host, &requests);
    Ok(MessageResult::Request(results))
}

} // verus!
