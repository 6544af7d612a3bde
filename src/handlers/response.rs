//! Delivery of responses to requests that this host sent.

use crate::consensus::ConsensusClient;
use crate::error::Error;
use crate::handlers::{
    committed, first_missing, preamble, proof_height_usable, response_views, results_match,
    validate_state_machine, without_request, MessageResult,
};
use crate::host::{Host, HostView};
use crate::messaging::ResponseMessage;
use crate::router::{
    names_request, success_of, write_response, write_response_effect, DispatchResult,
    RequestResponse, RequestView, Response, ResponseView,
};
use vstd::prelude::*;

verus! {

/// The requests that a list of responses answer.
pub open spec fn requests_of(v: Seq<ResponseView>) -> Seq<RequestView> {
    v.map_values(|r: ResponseView| r.request)
}

/// Responses written in order, each accepted one releasing the commitment to its request: the
/// host after them, and which of them the router accepted.
pub open spec fn respond_all(h: HostView, resps: Seq<ResponseView>) -> (HostView, Seq<bool>)
    decreases resps.len(),
{
    if resps.len() == 0 {
        (h, Seq::empty())
    } else {
        let (h1, a) = respond_all(h, resps.drop_last());
        match write_response_effect(h1, resps.last()) {
            Some(h2) => (without_request(h2, resps.last().request), a.push(true)),
            None => (h1, a.push(false)),
        }
    }
}

/// Checks that every response answers a request with an outbound commitment on this host.
pub fn check_response_commitments(host: &Host, resps: &Vec<Response>) -> (r: Result<(), Error>)
    requires
        host.wf(),
    ensures
        match r {
            Ok(_) => forall|i: int|
                0 <= i < resps.len() ==> committed(
                    host@,
                    #[trigger] requests_of(response_views(resps@))[i],
                ),
            Err(e) => first_missing(host@, requests_of(response_views(resps@)), e),
        },
{
    let ghost reqs = requests_of(response_views(resps@));
    let mut i: usize = 0;
    while i < resps.len()
        invariant
            host.wf(),
            i <= resps.len(),
            reqs == requests_of(response_views(resps@)),
            forall|j: int| 0 <= j < i ==> committed(host@, #[trigger] reqs[j]),
        decreases resps.len() - i,
    {
        match host.request_commitment(&resps[i].request) {
            Ok(_) => {},
            Err(e) => {
                proof {
                    assert(reqs[i as int] == resps@[i as int].request@);
                }
                return Err(e);
            },
        }
        i = i + 1;
    }
    Ok(())
}

/// Writes each response in order, deleting the commitment to its request once the router
/// accepted it; collects one result per response.
pub fn write_responses(host: &mut Host, responses: &Vec<Response>) -> (r: Vec<DispatchResult>)
    requires
        old(host).wf(),
    ensures
        final(host).wf(),
        final(host)@ == respond_all(old(host)@, response_views(responses@)).0,
        results_match(
            r@,
            requests_of(response_views(responses@)),
            respond_all(old(host)@, response_views(responses@)).1,
        ),
{
    let ghost start = host@;
    let ghost resps = response_views(responses@);
    let mut results: Vec<DispatchResult> = Vec::new();
    let mut i: usize = 0;
    while i < responses.len()
        invariant
            host.wf(),
            i <= responses.len(),
            resps == response_views(responses@),
            host@ == respond_all(start, resps.subrange(0, i as int)).0,
            results_match(
                results@,
                requests_of(resps.subrange(0, i as int)),
                respond_all(start, resps.subrange(0, i as int)).1,
            ),
        decreases responses.len() - i,
    {
        let resp = responses[i].duplicate();
        proof {
            assert(resps.subrange(0, i + 1).drop_last() =~= resps.subrange(0, i as int));
            assert(resps.subrange(0, i + 1).last() == resp@);
        }
        let res = write_response(host, resp);
        if res.is_ok() {
            host.delete_request_commitment(&responses[i].request);
        }
        results.push(res);
        i = i + 1;
        proof {
            let s = resps.subrange(0, i as int);
            let acc = respond_all(start, s).1;
            assert forall|j: int| 0 <= j < s.len() implies match #[trigger] results@[j] {
                Ok(x) => acc[j] && x == success_of(requests_of(s)[j]),
                Err(e) => !acc[j] && names_request(e, requests_of(s)[j]),
            } by {
                if j < i - 1 {
                    assert(s[j] == resps.subrange(0, i - 1)[j]);
                }
            }
        }
    }
    proof {
        assert(resps.subrange(0, responses.len() as int) =~= resps);
    }
    results
}

/// A response message was handled as `handle` promises.
pub open spec fn response_outcome(
    h: HostView,
    n: HostView,
    msg: ResponseMessage,
    r: Result<MessageResult, Error>,
) -> bool {
    &&& match preamble(h, msg.proof.height) {
        Err(e) => r == Err::<MessageResult, Error>(e) && n == h,
        Ok(_) => if !h.commitments.contains_key(msg.proof.height) {
            r == Err::<MessageResult, Error>(
                Error::StateCommitmentNotFound { height: msg.proof.height },
            ) && n == h
        } else if !(forall|i: int|
            0 <= i < msg.responses.len() ==> committed(
                h,
                #[trigger] requests_of(response_views(msg.responses@))[i],
            )) {
            r matches Err(e) && first_missing(
                h,
                requests_of(response_views(msg.responses@)),
                e,
            ) && n == h
        } else {
            match r {
                Ok(MessageResult::Response(results)) => {
                    let out = respond_all(h, response_views(msg.responses@));
                    n == out.0 && results_match(
                        results@,
                        requests_of(response_views(msg.responses@)),
                        out.1,
                    )
                },
                Ok(_) => false,
                Err(e) => e == Error::MembershipProofVerificationFailed && n == h,
            }
        }
    }
    &&& r is Ok ==> proof_height_usable(h, msg.proof.height)
}

/// Handles responses to requests of this host: runs the shared checks at the proof height,
/// checks that each answered request was committed here, has `client` verify the membership
/// proof, then writes each response in order and releases its request's commitment.
pub fn handle<C: ConsensusClient>(host: &mut Host, client: &C, msg: ResponseMessage) -> (r: Result<
    MessageResult,
    Error,
>)
    requires
        old(host).wf(),
    ensures
        final(host).wf(),
        response_outcome(old(host)@, final(host)@, msg, r),
{
    let cid = match validate_state_machine(host, msg.proof.height) {
        Ok(c) => c,
        Err(e) => return Err(e),
    };
    let root = match host.state_machine_commitment(msg.proof.height) {
        Ok(c) => c,
        Err(e) => return Err(e),
    };
    match check_response_commitments(host, &msg.responses) {
        Ok(_) => {},
        Err(e) => return Err(e),
    }
    let ghost resps = msg.responses@;
    let item = RequestResponse::Response(msg.responses);
    if client.verify_membership(host, cid, &item, &root, &msg.proof).is_err() {
        return Err(Error::MembershipProofVerificationFailed);
    }
    let responses = match item {
        RequestResponse::Response(v) => v,
        RequestResponse::Request(_) => Vec::new(),
    };
    assert(responses@ == resps);
    let results = write_responses(host, &responses);
    Ok(MessageResult::Response(results))
}

} // verus!
