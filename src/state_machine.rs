//! Identifiers of state machines and their canonical textual form.

use crate::util::push_all;
use vstd::prelude::*;

verus! {

/// A remote or local chain.
#[derive(Debug, Clone, Copy, PartialEq, Eq, Structural, Hash, PartialOrd, Ord)]
pub enum StateMachine {
    Ethereum,
    Arbitrum,
    Optimism,
    Polkadot(u32),
    Kusama(u32),
}

/// ASCII code of a decimal digit.
pub open spec fn digit(d: nat) -> u8 {
    (48 + d) as u8
}

/// Decimal digits of `n`, most significant first, without leading zeros.
pub open spec fn decimal(n: nat) -> Seq<u8>
    decreases n,
{
    if n < 10 {
        seq![digit(n)]
    } else {
        decimal(n / 10).push(digit(n % 10))
    }
}

/// The canonical text of a state machine, as ASCII bytes: `ETHEREUM`, `ARBITRUM`,
/// `OPTIMISM`, `POLKADOT-<id>` or `KUSAMA-<id>` with the id in decimal.
pub open spec fn text_of(s: StateMachine) -> Seq<u8> {
    match s {
        StateMachine::Ethereum => seq![69u8, 84, 72, 69, 82, 69, 85, 77],
        StateMachine::Arbitrum => seq![65u8, 82, 66, 73, 84, 82, 85, 77],
        StateMachine::Optimism => seq![79u8, 80, 84, 73, 77, 73, 83, 77],
        StateMachine::Polkadot(id) => seq![80u8, 79, 76, 75, 65, 68, 79, 84, 45]
            + decimal(id as nat),
        StateMachine::Kusama(id) => seq![75u8, 85, 83, 65, 77, 65, 45] + decimal(
            id as nat,
        ),
    }
}

/// Appends the decimal digits of `n`.
fn push_decimal(n: u32, out: &mut Vec<u8>)
    ensures
        final(out)@ == old(out)@ + decimal(n as nat),
    decreases n,
{
    if n >= 10 {
        push_decimal(n / 10, out);
    }
    out.push((48 + n % 10) as u8);
    proof {
        assert(final(out)@ =~= old(out)@ + decimal(n as nat));
    }
}

impl StateMachine {
    /// The canonical text of this state machine, as ASCII bytes.
    pub fn text(&self) -> (r: Vec<u8>)
        ensures
            r@ == text_of(*self),
    {
        let mut out: Vec<u8> = Vec::new();
        match self {
            StateMachine::Ethereum => {
                push_all(&mut out, &[69u8, 84, 72, 69, 82, 69, 85, 77]);
            },
            StateMachine::Arbitrum => {
                push_all(&mut out, &[65u8, 82, 66, 73, 84, 82, 85, 77]);
            },
            StateMachine::Optimism => {
                push_all(&mut out, &[79u8, 80, 84, 73, 77, 73, 83, 77]);
            },
            StateMachine::Polkadot(id) => {
                push_all(&mut out, &[80u8, 79, 76, 75, 65, 68, 79, 84, 45]);
                push_decimal(*id, &mut out);
            },
            StateMachine::Kusama(id) => {
                push_all(&mut out, &[75u8, 85, 83, 65, 77, 65, 45]);
                push_decimal(*id, &mut out);
            },
        }
        proof {
            assert(out@ =~= text_of(*self));
        }
        out
    }
}

} // verus!
