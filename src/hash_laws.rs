//! What can be proved of request commitments: the serialisation that is hashed determines the
//! request, among requests whose variable-length fields have the same lengths.

use crate::router::{PostView, RequestView};
use crate::state_machine::{decimal, digit, text_of, StateMachine};
use crate::util::{be64, request_hash, request_preimage};
use vstd::prelude::*;

verus! {

proof fn lemma_concat_split<T>(x1: Seq<T>, y1: Seq<T>, x2: Seq<T>, y2: Seq<T>)
    requires
        x1 + y1 == x2 + y2,
        x1.len() == x2.len(),
    ensures
        x1 == x2,
        y1 == y2,
{
    assert(x1 =~= (x1 + y1).subrange(0, x1.len() as int));
    assert(x2 =~= (x2 + y2).subrange(0, x2.len() as int));
    assert(y1 =~= (x1 + y1).subrange(x1.len() as int, (x1 + y1).len() as int));
    assert(y2 =~= (x2 + y2).subrange(x2.len() as int, (x2 + y2).len() as int));
}

proof fn lemma_low_byte(v: u64, w: u64)
    requires
        (v & 0xffu64) as u8 == (w & 0xffu64) as u8,
    ensures
        v & 0xffu64 == w & 0xffu64,
{
    assert(v & 0xffu64 < 256) by (bit_vector);
    assert(w & 0xffu64 < 256) by (bit_vector);
}

proof fn lemma_be64_injective(x: u64, y: u64)
    requires
        be64(x) == be64(y),
    ensures
        x == y,
{
    assert(be64(x)[0] == be64(y)[0]);
    assert(be64(x)[1] == be64(y)[1]);
    assert(be64(x)[2] == be64(y)[2]);
    assert(be64(x)[3] == be64(y)[3]);
    assert(be64(x)[4] == be64(y)[4]);
    assert(be64(x)[5] == be64(y)[5]);
    assert(be64(x)[6] == be64(y)[6]);
    assert(be64(x)[7] == be64(y)[7]);
    lemma_low_byte(x >> 56u64, y >> 56u64);
    lemma_low_byte(x >> 48u64, y >> 48u64);
    lemma_low_byte(x >> 40u64, y >> 40u64);
    lemma_low_byte(x >> 32u64, y >> 32u64);
    lemma_low_byte(x >> 24u64, y >> 24u64);
    lemma_low_byte(x >> 16u64, y >> 16u64);
    lemma_low_byte(x >> 8u64, y >> 8u64);
    lemma_low_byte(x, y);
    assert(x == y) by (bit_vector)
        requires
            (x >> 56u64) & 0xffu64 == (y >> 56u64) & 0xffu64,
            (x >> 48u64) & 0xffu64 == (y >> 48u64) & 0xffu64,
            (x >> 40u64) & 0xffu64 == (y >> 40u64) & 0xffu64,
            (x >> 32u64) & 0xffu64 == (y >> 32u64) & 0xffu64,
            (x >> 24u64) & 0xffu64 == (y >> 24u64) & 0xffu64,
            (x >> 16u64) & 0xffu64 == (y >> 16u64) & 0xffu64,
            (x >> 8u64) & 0xffu64 == (y >> 8u64) & 0xffu64,
            x & 0xffu64 == y & 0xffu64,
    ;
}

proof fn lemma_decimal_len(n: nat)
    ensures
        decimal(n).len() >= 1,
        decimal(n).len() == 1 <==> n < 10,
    decreases n,
{
    if n >= 10 {
        lemma_decimal_len(n / 10);
    }
}

proof fn lemma_decimal_injective(n: nat, m: nat)
    requires
        decimal(n) == decimal(m),
    ensures
        n == m,
    decreases n,
{
    lemma_decimal_len(n);
    lemma_decimal_len(m);
    if n < 10 {
        assert(decimal(n)[0] == digit(n));
        assert(decimal(m)[0] == digit(m));
    } else {
        let a = decimal(n / 10);
        let b = decimal(m / 10);
        assert(a.push(digit(n % 10)) == b.push(digit(m % 10)));
        assert(a.push(digit(n % 10)).last() == digit(n % 10));
        assert(b.push(digit(m % 10)).last() == digit(m % 10));
        assert(a =~= a.push(digit(n % 10)).drop_last());
        assert(b =~= b.push(digit(m % 10)).drop_last());
        lemma_decimal_injective(n / 10, m / 10);
    }
}

/// The first letter of each canonical text.
spec fn initial(s: StateMachine) -> u8 {
    match s {
        StateMachine::Ethereum => 69,
        StateMachine::Arbitrum => 65,
        StateMachine::Optimism => 79,
        StateMachine::Polkadot(_) => 80,
        StateMachine::Kusama(_) => 75,
    }
}

proof fn lemma_initial(s: StateMachine)
    ensures
        text_of(s).len() >= 1,
        text_of(s)[0] == initial(s),
{
    match s {
        StateMachine::Polkadot(a) => {
            let p = seq![80u8, 79, 76, 75, 65, 68, 79, 84, 45];
            assert((p + decimal(a as nat))[0] == p[0]);
        },
        StateMachine::Kusama(a) => {
            let p = seq![75u8, 85, 83, 65, 77, 65, 45];
            assert((p + decimal(a as nat))[0] == p[0]);
        },
        _ => {},
    }
}

proof fn lemma_text_injective(s: StateMachine, t: StateMachine)
    requires
        text_of(s) == text_of(t),
    ensures
        s == t,
{
    lemma_initial(s);
    lemma_initial(t);
    assert(initial(s) == initial(t));
    match (s, t) {
        (StateMachine::Polkadot(a), StateMachine::Polkadot(b)) => {
            let p = seq![80u8, 79, 76, 75, 65, 68, 79, 84, 45];
            lemma_concat_split(p, decimal(a as nat), p, decimal(b as nat));
            lemma_decimal_injective(a as nat, b as nat);
        },
        (StateMachine::Kusama(a), StateMachine::Kusama(b)) => {
            let p = seq![75u8, 85, 83, 65, 77, 65, 45];
            lemma_concat_split(p, decimal(a as nat), p, decimal(b as nat));
            lemma_decimal_injective(a as nat, b as nat);
        },
        _ => {},
    }
}

/// The bytes hashed to commit to a post request determine the request, among post requests
/// whose chain texts and module ids have the same lengths: distinct such requests are committed
/// by hashes of distinct byte strings, so a shared commitment would be a Keccak-256 collision.
/// Equal requests always have equal commitments.
pub proof fn lemma_post_preimage_injective(a: PostView, b: PostView)
    requires
        text_of(a.source_chain).len() == text_of(b.source_chain).len(),
        text_of(a.dest_chain).len() == text_of(b.dest_chain).len(),
        a.from.len() == b.from.len(),
        a.to.len() == b.to.len(),
    ensures
        request_preimage(RequestView::Post(a)) == request_preimage(RequestView::Post(b)) <==> a
            == b,
        a == b ==> request_hash(RequestView::Post(a)) == request_hash(RequestView::Post(b)),
{
    if request_preimage(RequestView::Post(a)) == request_preimage(RequestView::Post(b)) {
        let sa = text_of(a.source_chain);
        let sb = text_of(b.source_chain);
        let da = text_of(a.dest_chain);
        let db = text_of(b.dest_chain);
        let g1a = sa + da;
        let g1b = sb + db;
        let g2a = g1a + be64(a.nonce);
        let g2b = g1b + be64(b.nonce);
        let g3a = g2a + be64(a.timeout_timestamp);
        let g3b = g2b + be64(b.timeout_timestamp);
        let g4a = g3a + a.from;
        let g4b = g3b + b.from;
        let g5a = g4a + a.to;
        let g5b = g4b + b.to;
        lemma_concat_split(g5a, a.data, g5b, b.data);
        lemma_concat_split(g4a, a.to, g4b, b.to);
        lemma_concat_split(g3a, a.from, g3b, b.from);
        lemma_concat_split(g2a, be64(a.timeout_timestamp), g2b, be64(b.timeout_timestamp));
        lemma_concat_split(g1a, be64(a.nonce), g1b, be64(b.nonce));
        lemma_concat_split(sa, da, sb, db);
        lemma_be64_injective(a.nonce, b.nonce);
        lemma_be64_injective(a.timeout_timestamp, b.timeout_timestamp);
        lemma_text_injective(a.source_chain, b.source_chain);
        lemma_text_injective(a.dest_chain, b.dest_chain);
    }
}

} // verus!
