//! Requests, responses and the router that commits outbound traffic and queues inbound traffic.

use crate::host::{Delivery, DeliveryView, Host, HostView};
use crate::state_machine::StateMachine;
use crate::util::{hash_request, hash_response, is_encodable, request_hash, response_hash};
use vstd::prelude::*;

verus! {

/// A module-to-module message.
#[derive(Debug, Clone, PartialEq, Eq)]
pub struct Post {
    /// The source state machine of this request.
    pub source_chain: StateMachine,
    /// The destination state machine of this request.
    pub dest_chain: StateMachine,
    /// The nonce of this request on the source chain.
    pub nonce: u64,
    /// Module id of the sending module.
    pub from: Vec<u8>,
    /// Module id of the receiving module.
    pub to: Vec<u8>,
    /// Timestamp, in seconds, at which this request expires.
    pub timeout_timestamp: u64,
    /// Encoded request body.
    pub data: Vec<u8>,
}

/// A read of remote storage.
#[derive(Debug, Clone, PartialEq, Eq)]
pub struct Get {
    /// The source state machine of this request.
    pub source_chain: StateMachine,
    /// The destination state machine of this request.
    pub dest_chain: StateMachine,
    /// The nonce of this request on the source chain.
    pub nonce: u64,
    /// Module id of the sending module.
    pub from: Vec<u8>,
    /// Storage keys to read.
    pub keys: Vec<Vec<u8>>,
    /// Height at which to read the destination state machine.
    pub height: u64,
    /// Timestamp, in seconds, at which this request expires.
    pub timeout_timestamp: u64,
}

#[derive(Debug, Clone, PartialEq, Eq)]
pub enum Request {
    Post(Post),
    Get(Get),
}

/// A reply to a request.
#[derive(Debug, Clone, PartialEq, Eq)]
pub struct Response {
    /// The request that this response answers.
    pub request: Request,
    /// The response body.
    pub response: Vec<u8>,
}

/// Items whose membership in a remote state is proved together.
pub enum RequestResponse {
    Request(Vec<Request>),
    Response(Vec<Response>),
}

/// The record of a request or response that the router accepted.
#[derive(Debug, Clone, Copy, PartialEq, Eq, Structural)]
pub struct DispatchSuccess {
    pub dest_chain: StateMachine,
    pub source_chain: StateMachine,
    pub nonce: u64,
}

/// A request or response that the router refused.
#[derive(Debug, Clone, PartialEq, Eq)]
pub struct DispatchError {
    /// What went wrong.
    pub msg: String,
    pub nonce: u64,
    pub source: StateMachine,
    pub dest: StateMachine,
}

pub type DispatchResult = Result<DispatchSuccess, DispatchError>;

pub struct PostView {
    pub source_chain: StateMachine,
    pub dest_chain: StateMachine,
    pub nonce: u64,
    pub from: Seq<u8>,
    pub to: Seq<u8>,
    pub timeout_timestamp: u64,
    pub data: Seq<u8>,
}

pub struct GetView {
    pub source_chain: StateMachine,
    pub dest_chain: StateMachine,
    pub nonce: u64,
    pub from: Seq<u8>,
    pub keys: Seq<Seq<u8>>,
    pub height: u64,
    pub timeout_timestamp: u64,
}

pub enum RequestView {
    Post(PostView),
    Get(GetView),
}

pub struct ResponseView {
    pub request: RequestView,
    pub response: Seq<u8>,
}

impl View for Post {
    type V = PostView;

    open spec fn view(&self) -> PostView {
        PostView {
            source_chain: self.source_chain,
            dest_chain: self.dest_chain,
            nonce: self.nonce,
            from: self.from@,
            to: self.to@,
            timeout_timestamp: self.timeout_timestamp,
            data: self.data@,
        }
    }
}

impl View for Get {
    type V = GetView;

    open spec fn view(&self) -> GetView {
        GetView {
            source_chain: self.source_chain,
            dest_chain: self.dest_chain,
            nonce: self.nonce,
            from: self.from@,
            keys: self.keys.deep_view(),
            height: self.height,
            timeout_timestamp: self.timeout_timestamp,
        }
    }
}

impl View for Request {
    type V = RequestView;

    open spec fn view(&self) -> RequestView {
        match self {
            Request::Post(p) => RequestView::Post(p@),
            Request::Get(g) => RequestView::Get(g@),
        }
    }
}

impl View for Response {
    type V = ResponseView;

    open spec fn view(&self) -> ResponseView {
        ResponseView { request: self.request@, response: self.response@ }
    }
}

impl RequestView {
    pub open spec fn source_chain(self) -> StateMachine {
        match self {
            RequestView::Post(p) => p.source_chain,
            RequestView::Get(g) => g.source_chain,
        }
    }

    pub open spec fn dest_chain(self) -> StateMachine {
        match self {
            RequestView::Post(p) => p.dest_chain,
            RequestView::Get(g) => g.dest_chain,
        }
    }

    pub open spec fn nonce(self) -> u64 {
        match self {
            RequestView::Post(p) => p.nonce,
            RequestView::Get(g) => g.nonce,
        }
    }

    pub open spec fn timeout_timestamp(self) -> u64 {
        match self {
            RequestView::Post(p) => p.timeout_timestamp,
            RequestView::Get(g) => g.timeout_timestamp,
        }
    }
}

fn copy_bytes(v: &Vec<u8>) -> (r: Vec<u8>)
    ensures
        r@ == v@,
{
    let r = v.clone();
    assert(r@ =~= v@);
    r
}

fn copy_keys(keys: &Vec<Vec<u8>>) -> (r: Vec<Vec<u8>>)
    ensures
        r.deep_view() == keys.deep_view(),
{
    let mut r: Vec<Vec<u8>> = Vec::new();
    let mut i: usize = 0;
    while i < keys.len()
        invariant
            i <= keys.len(),
            r.len() == i,
            forall|j: int| 0 <= j < i ==> #[trigger] r@[j]@ == keys@[j]@,
        decreases keys.len() - i,
    {
        r.push(copy_bytes(&keys[i]));
        i = i + 1;
    }
    assert(r.deep_view() =~= keys.deep_view());
    r
}

impl Request {
    /// The source chain.
    pub fn source_chain(&self) -> (r: StateMachine)
        ensures
            r == self@.source_chain(),
    {
        match self {
            Request::Get(get) => get.source_chain,
            Request::Post(post) => post.source_chain,
        }
    }

    /// The destination chain.
    pub fn dest_chain(&self) -> (r: StateMachine)
        ensures
            r == self@.dest_chain(),
    {
        match self {
            Request::Get(get) => get.dest_chain,
            Request::Post(post) => post.dest_chain,
        }
    }

    /// The request nonce.
    pub fn nonce(&self) -> (r: u64)
        ensures
            r == self@.nonce(),
    {
        match self {
            Request::Get(get) => get.nonce,
            Request::Post(post) => post.nonce,
        }
    }

    /// The body of a post request.
    pub fn data(&self) -> (r: Option<Vec<u8>>)
        ensures
            match self@ {
                RequestView::Post(p) => r matches Some(d) && d@ == p.data,
                RequestView::Get(_) => r is None,
            },
    {
        match self {
            Request::Get(_) => None,
            Request::Post(post) => Some(copy_bytes(&post.data)),
        }
    }

    /// The storage keys of a get request.
    pub fn keys(&self) -> (r: Option<Vec<Vec<u8>>>)
        ensures
            match self@ {
                RequestView::Get(g) => r matches Some(k) && k.deep_view() == g.keys,
                RequestView::Post(_) => r is None,
            },
    {
        match self {
            Request::Post(_) => None,
            Request::Get(get) => Some(copy_keys(&get.keys)),
        }
    }

    /// The timestamp, in seconds, at which this request expires.
    pub fn timeout(&self) -> (r: u64)
        ensures
            r == self@.timeout_timestamp(),
    {
        match self {
            Request::Post(post) => post.timeout_timestamp,
            Request::Get(get) => get.timeout_timestamp,
        }
    }

    /// A copy of this request.
    pub fn duplicate(&self) -> (r: Request)
        ensures
            r@ == self@,
    {
        match self {
            Request::Post(p) => Request::Post(
                Post {
                    source_chain: p.source_chain,
                    dest_chain: p.dest_chain,
                    nonce: p.nonce,
                    from: copy_bytes(&p.from),
                    to: copy_bytes(&p.to),
                    timeout_timestamp: p.timeout_timestamp,
                    data: copy_bytes(&p.data),
                },
            ),
            Request::Get(g) => Request::Get(
                Get {
                    source_chain: g.source_chain,
                    dest_chain: g.dest_chain,
                    nonce: g.nonce,
                    from: copy_bytes(&g.from),
                    keys: copy_keys(&g.keys),
                    height: g.height,
                    timeout_timestamp: g.timeout_timestamp,
                },
            ),
        }
    }
}

impl Response {
    /// A copy of this response.
    pub fn duplicate(&self) -> (r: Response)
        ensures
            r@ == self@,
    {
        Response { request: self.request.duplicate(), response: copy_bytes(&self.response) }
    }
}

/// What dispatching `r` does to the host: `Some` with the new state when the router accepts it,
/// `None` when it refuses it and the host is left as it was.
///
/// A request to this host is queued for its module. A request from this host is committed by
/// hash, once: a second dispatch of the same request is refused.
pub open spec fn dispatch_effect(h: HostView, r: RequestView) -> Option<HostView> {
    if r.dest_chain() == h.host_state_machine {
        Some(h.with_delivered(h.delivered.push(DeliveryView::Request(r))))
    } else if r.source_chain() == h.host_state_machine && r.encodable() && !h.requests.contains(
        request_hash(r),
    ) {
        Some(HostView { requests: h.requests.insert(request_hash(r)), ..h })
    } else {
        None
    }
}

/// What writing the response `r` does to the host, as for `dispatch_effect`.
///
/// A response to a request of this host is queued for its module. A response from this host is
/// committed by hash, once; a response to a get request is never committed.
pub open spec fn write_response_effect(h: HostView, r: ResponseView) -> Option<HostView> {
    if r.request.source_chain() == h.host_state_machine {
        Some(h.with_delivered(h.delivered.push(DeliveryView::Response(r))))
    } else if r.request.dest_chain() == h.host_state_machine {
        match response_hash(r) {
            Some(x) => if h.responses.contains(x) {
                None
            } else {
                Some(HostView { responses: h.responses.insert(x), ..h })
            },
            None => Some(h),
        }
    } else {
        None
    }
}

/// The record of an accepted request.
pub open spec fn success_of(r: RequestView) -> DispatchSuccess {
    DispatchSuccess { dest_chain: r.dest_chain(), source_chain: r.source_chain(), nonce: r.nonce() }
}

/// Whether a refusal names the request.
pub open spec fn names_request(e: DispatchError, r: RequestView) -> bool {
    e.nonce == r.nonce() && e.source == r.source_chain() && e.dest == r.dest_chain()
}

fn refusal(req: &Request, msg: &str) -> (e: DispatchError)
    ensures
        names_request(e, req@),
{
    DispatchError {
        msg: String::from_str(msg),
        nonce: req.nonce(),
        source: req.source_chain(),
        dest: req.dest_chain(),
    }
}

/// Routes a request: queues it for a module when it is addressed to this host, commits it when
/// it leaves this host, and refuses a request that it already committed.
pub fn dispatch(host: &mut Host, request: Request) -> (r: DispatchResult)
    requires
        old(host).wf(),
    ensures
        final(host).wf(),
        match dispatch_effect(old(host)@, request@) {
            Some(n) => r == Ok::<DispatchSuccess, DispatchError>(success_of(request@))
                && final(host)@ == n,
            None => r matches Err(e) && names_request(e, request@) && final(host)@ == old(
                host,
            )@,
        },
{
    let here = host.host_state_machine();
    let success = DispatchSuccess {
        dest_chain: request.dest_chain(),
        source_chain: request.source_chain(),
        nonce: request.nonce(),
    };
    if request.dest_chain() == here {
        host.deliver(Delivery::Request(request));
        return Ok(success);
    }
    if request.source_chain() != here {
        return Err(refusal(&request, "request neither leaves nor reaches this host"));
    }
    if !is_encodable(&request) {
        return Err(refusal(&request, "request has no canonical encoding"));
    }
    let h = hash_request(&request);
    if host.has_request_commitment(&h) {
        return Err(refusal(&request, "duplicate request"));
    }
    host.store_request_commitment(h);
    Ok(success)
}

/// Routes a response: queues it for a module when it answers a request of this host, commits it
/// when it leaves this host, and refuses a response that it already committed.
pub fn write_response(host: &mut Host, response: Response) -> (r: DispatchResult)
    requires
        old(host).wf(),
    ensures
        final(host).wf(),
        match write_response_effect(old(host)@, response@) {
            Some(n) => r == Ok::<DispatchSuccess, DispatchError>(success_of(response@.request))
                && final(host)@ == n,
            None => r matches Err(e) && names_request(e, response@.request) && final(host)@ == old(
                host,
            )@,
        },
{
    let here = host.host_state_machine();
    let success = DispatchSuccess {
        dest_chain: response.request.dest_chain(),
        source_chain: response.request.source_chain(),
        nonce: response.request.nonce(),
    };
    if response.request.source_chain() == here {
        host.deliver(Delivery::Response(response));
        return Ok(success);
    }
    if response.request.dest_chain() != here {
        return Err(refusal(&response.request, "response neither leaves nor reaches this host"));
    }
    match hash_response(&response) {
        Some(h) => {
            if host.has_response_commitment(&h) {
                return Err(refusal(&response.request, "duplicate response"));
            }
            host.store_response_commitment(h);
        },
        None => {},
    }
    Ok(success)
}

/// Queues the notice that a request of this host timed out, for the module that sent it.
pub fn dispatch_timeout(host: &mut Host, request: Request) -> (r: DispatchResult)
    requires
        old(host).wf(),
    ensures
        final(host).wf(),
        r == Ok::<DispatchSuccess, DispatchError>(success_of(request@)),
        final(host)@ == old(host)@.with_delivered(
            old(host)@.delivered.push(DeliveryView::Timeout(request@)),
        ),
{
    let success = DispatchSuccess {
        dest_chain: request.dest_chain(),
        source_chain: request.source_chain(),
        nonce: request.nonce(),
    };
    host.deliver(Delivery::Timeout(request));
    Ok(success)
}

/// An outbound request that the router accepted is committed, and dispatching the same request
/// again is refused.
pub proof fn lemma_outbound_request_once(h: HostView, r: RequestView)
    requires
        r.source_chain() == h.host_state_machine,
        r.dest_chain() != h.host_state_machine,
        dispatch_effect(h, r) is Some,
    ensures
        dispatch_effect(h, r)->Some_0.requests.contains(request_hash(r)),
        dispatch_effect(dispatch_effect(h, r)->Some_0, r) is None,
{
}

/// An outbound response to a post request that the router accepted is committed, and writing
/// the same response again is refused.
pub proof fn lemma_outbound_response_once(h: HostView, r: ResponseView)
    requires
        r.request is Post,
        r.request.dest_chain() == h.host_state_machine,
        r.request.source_chain() != h.host_state_machine,
        write_response_effect(h, r) is Some,
    ensures
        response_hash(r) matches Some(x) && write_response_effect(h, r)->Some_0.responses.contains(
            x,
        ),
        write_response_effect(write_response_effect(h, r)->Some_0, r) is None,
{
}

} // verus!
