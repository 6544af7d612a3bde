//! Canonical byte serialisation of requests and responses, and their hashes.

use crate::router::{Post, Request, RequestView, Response, ResponseView};
use crate::state_machine::text_of;
use parity_scale_codec::Encode;
use vstd::prelude::*;

verus! {

/// The Keccak-256 digest of `b`.
pub uninterp spec fn keccak_of(b: Seq<u8>) -> Seq<u8>;

/// Relies on `keccak_hash::keccak`: the 32-byte Keccak-256 digest of the input, which depends on
/// the input bytes alone.
#[verifier::external_body]
fn keccak256(bytes: &[u8]) -> (r: [u8; 32])
    ensures
        r@ == keccak_of(bytes@),
{
    keccak_hash::keccak(bytes).0
}

/// `n` as eight big-endian bytes.
pub open spec fn be64(n: u64) -> Seq<u8> {
    seq![
        ((n >> 56u64) & 0xffu64) as u8,
        ((n >> 48u64) & 0xffu64) as u8,
        ((n >> 40u64) & 0xffu64) as u8,
        ((n >> 32u64) & 0xffu64) as u8,
        ((n >> 24u64) & 0xffu64) as u8,
        ((n >> 16u64) & 0xffu64) as u8,
        ((n >> 8u64) & 0xffu64) as u8,
        (n & 0xffu64) as u8,
    ]
}

/// The lowest `width` bytes of `n`, least significant first.
pub open spec fn le_bytes(n: nat, width: nat) -> Seq<u8>
    decreases width,
{
    if width == 0 {
        Seq::empty()
    } else {
        seq![(n % 256) as u8] + le_bytes(n / 256, (width - 1) as nat)
    }
}

/// SCALE compact encoding of a collection length that fits in 32 bits.
pub open spec fn compact_len(n: nat) -> Seq<u8> {
    if n < 64 {
        seq![(n * 4) as u8]
    } else if n < 16384 {
        le_bytes(n * 4 + 1, 2)
    } else if n < 1073741824 {
        le_bytes(n * 4 + 2, 4)
    } else {
        seq![3u8] + le_bytes(n, 4)
    }
}

/// SCALE encoding of the items of a list of byte strings, without the list's length.
pub open spec fn scale_items(keys: Seq<Seq<u8>>) -> Seq<u8>
    decreases keys.len(),
{
    if keys.len() == 0 {
        Seq::empty()
    } else {
        scale_items(keys.drop_last()) + compact_len(keys.last().len()) + keys.last()
    }
}

/// SCALE encoding of a list of byte strings.
pub open spec fn scale_keys(keys: Seq<Seq<u8>>) -> Seq<u8> {
    compact_len(keys.len()) + scale_items(keys)
}

/// Whether a list of byte strings has a SCALE encoding: every length fits in 32 bits.
pub open spec fn keys_encodable(keys: Seq<Seq<u8>>) -> bool {
    keys.len() <= u32::MAX && forall|i: int| 0 <= i < keys.len() ==> #[trigger] keys[i].len()
        <= u32::MAX
}

/// Relies on `parity_scale_codec::Encode::encode` for `Vec<Vec<u8>>`: the compact length of the
/// list, then each item as its compact length and its bytes. The codec panics on a length above
/// `u32::MAX`, which `requires` leaves out.
#[verifier::external_body]
fn encode_keys(keys: &Vec<Vec<u8>>) -> (r: Vec<u8>)
    requires
        keys_encodable(keys.deep_view()),
    ensures
        r@ == scale_keys(keys.deep_view()),
{
    keys.encode()
}

impl RequestView {
    /// Whether the canonical serialisation of this request exists.
    pub open spec fn encodable(self) -> bool {
        match self {
            RequestView::Post(_) => true,
            RequestView::Get(g) => keys_encodable(g.keys),
        }
    }
}

/// The bytes that are hashed to commit to a request.
pub open spec fn request_preimage(r: RequestView) -> Seq<u8> {
    match r {
        RequestView::Post(p) => text_of(p.source_chain) + text_of(p.dest_chain) + be64(p.nonce)
            + be64(p.timeout_timestamp) + p.from + p.to + p.data,
        RequestView::Get(g) => text_of(g.source_chain) + text_of(g.dest_chain) + be64(g.nonce)
            + be64(g.height) + be64(g.timeout_timestamp) + g.from + scale_keys(g.keys),
    }
}

/// The commitment to a request.
pub open spec fn request_hash(r: RequestView) -> Seq<u8> {
    keccak_of(request_preimage(r))
}

/// The bytes that are hashed to commit to a response to a post request.
pub open spec fn response_preimage(r: ResponseView) -> Seq<u8> {
    match r.request {
        RequestView::Post(p) => text_of(p.source_chain) + text_of(p.dest_chain) + be64(p.nonce)
            + be64(p.timeout_timestamp) + p.data + p.from + p.to + r.response,
        RequestView::Get(_) => Seq::empty(),
    }
}

/// The commitment to a response; responses to get requests have none.
pub open spec fn response_hash(r: ResponseView) -> Option<Seq<u8>> {
    match r.request {
        RequestView::Post(_) => Some(keccak_of(response_preimage(r))),
        RequestView::Get(_) => None,
    }
}

pub(crate) fn push_all(out: &mut Vec<u8>, bytes: &[u8])
    ensures
        final(out)@ == old(out)@ + bytes@,
{
    let mut i: usize = 0;
    while i < bytes.len()
        invariant
            i <= bytes@.len(),
            out@ == old(out)@ + bytes@.subrange(0, i as int),
        decreases bytes@.len() - i,
    {
        out.push(bytes[i]);
        i = i + 1;
        proof {
            assert(out@ =~= old(out)@ + bytes@.subrange(0, i as int));
        }
    }
    proof {
        assert(bytes@.subrange(0, bytes@.len() as int) =~= bytes@);
    }
}

fn push_be64(n: u64, out: &mut Vec<u8>)
    ensures
        final(out)@ == old(out)@ + be64(n),
{
    out.push(((n >> 56u64) & 0xffu64) as u8);
    out.push(((n >> 48u64) & 0xffu64) as u8);
    out.push(((n >> 40u64) & 0xffu64) as u8);
    out.push(((n >> 32u64) & 0xffu64) as u8);
    out.push(((n >> 24u64) & 0xffu64) as u8);
    out.push(((n >> 16u64) & 0xffu64) as u8);
    out.push(((n >> 8u64) & 0xffu64) as u8);
    out.push((n & 0xffu64) as u8);
    proof {
        assert(final(out)@ =~= old(out)@ + be64(n));
    }
}

/// Whether every length in `keys` fits in 32 bits.
fn check_keys_encodable(keys: &Vec<Vec<u8>>) -> (r: bool)
    ensures
        r == keys_encodable(keys.deep_view()),
{
    assert(keys.deep_view().len() == keys.len());
    if keys.len() > u32::MAX as usize {
        return false;
    }
    let mut i: usize = 0;
    while i < keys.len()
        invariant
            i <= keys.len(),
            keys.len() <= u32::MAX,
            forall|j: int| 0 <= j < i ==> #[trigger] keys.deep_view()[j].len() <= u32::MAX,
        decreases keys.len() - i,
    {
        if keys[i].len() > u32::MAX as usize {
            assert(keys.deep_view()[i as int] == keys@[i as int]@);
            return false;
        }
        i = i + 1;
    }
    true
}

/// Whether `req` has a canonical serialisation, and so a commitment.
pub fn is_encodable(req: &Request) -> (r: bool)
    ensures
        r == req@.encodable(),
{
    match req {
        Request::Post(_) => true,
        Request::Get(g) => check_keys_encodable(&g.keys),
    }
}

fn post_head(p: &Post) -> (r: Vec<u8>)
    ensures
        r@ == text_of(p.source_chain) + text_of(p.dest_chain) + be64(p.nonce) + be64(
            p.timeout_timestamp,
        ),
{
    let mut buf = p.source_chain.text();
    let dest = p.dest_chain.text();
    push_all(&mut buf, dest.as_slice());
    push_be64(p.nonce, &mut buf);
    push_be64(p.timeout_timestamp, &mut buf);
    buf
}

/// The bytes that are hashed to commit to `req`.
pub fn request_bytes(req: &Request) -> (r: Vec<u8>)
    requires
        req@.encodable(),
    ensures
        r@ == request_preimage(req@),
{
    match req {
        Request::Post(p) => {
            let mut buf = post_head(p);
            push_all(&mut buf, p.from.as_slice());
            push_all(&mut buf, p.to.as_slice());
            push_all(&mut buf, p.data.as_slice());
            buf
        },
        Request::Get(g) => {
            let mut buf = g.source_chain.text();
            let dest = g.dest_chain.text();
            push_all(&mut buf, dest.as_slice());
            push_be64(g.nonce, &mut buf);
            push_be64(g.height, &mut buf);
            push_be64(g.timeout_timestamp, &mut buf);
            push_all(&mut buf, g.from.as_slice());
            let keys = encode_keys(&g.keys);
            push_all(&mut buf, keys.as_slice());
            buf
        },
    }
}

/// The Keccak-256 commitment to a request.
pub fn hash_request(req: &Request) -> (r: [u8; 32])
    requires
        req@.encodable(),
    ensures
        r@ == request_hash(req@),
{
    let buf = request_bytes(req);
    keccak256(buf.as_slice())
}

/// The Keccak-256 commitment to a response; `None` for a response to a get request, which is
/// never committed.
pub fn hash_response(res: &Response) -> (r: Option<[u8; 32]>)
    ensures
        match response_hash(res@) {
            Some(h) => r matches Some(x) && x@ == h,
            None => r is None,
        },
{
    match &res.request {
        Request::Post(p) => {
            let mut buf = post_head(p);
            push_all(&mut buf, p.data.as_slice());
            push_all(&mut buf, p.from.as_slice());
            push_all(&mut buf, p.to.as_slice());
            push_all(&mut buf, res.response.as_slice());
            Some(keccak256(buf.as_slice()))
        },
        Request::Get(_) => None,
    }
}

} // verus!
