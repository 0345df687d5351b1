//! Values shared by every contract: account identities, token movements and
//! the wrapping id counters.

use vstd::prelude::*;

verus! {

/// A Stellar account or contract, identified by its strkey (`G...` or `C...`).
pub type AccountId = String;

/// One side of a token movement.
#[derive(Clone, Debug, PartialEq)]
pub enum Party {
    /// The contract that is running the invocation.
    ThisContract,
    /// Any other account or contract.
    Account(AccountId),
}

/// A token movement the host must perform on the contract's behalf.
///
/// With `by_allowance` the contract moves the funds as a spender, out of an
/// allowance that `from` granted it earlier; otherwise `from` itself
/// authorised the call.
#[derive(Clone, Debug, PartialEq)]
pub struct TokenTransfer {
    pub token: AccountId,
    pub from: Party,
    pub to: Party,
    pub amount: i128,
    pub by_allowance: bool,
}

/// The value a counter holds, reading an absent entry as zero.
pub open spec fn counter_value(stored: Option<u64>) -> u64 {
    match stored {
        Some(v) => v,
        None => 0,
    }
}

/// The successor of a counter value, wrapping from `u64::MAX` to zero.
pub open spec fn successor(v: u64) -> u64 {
    if v == u64::MAX {
        0
    } else {
        (v + 1) as u64
    }
}

/// The `n`-th value after `v`, wrapping around like the counter does.
pub open spec fn nth_successor(v: u64, n: nat) -> u64 {
    ((v + n) % 0x1_0000_0000_0000_0000) as u64
}

/// Allocate the next id of a counter stored under one key: the stored value
/// (zero when absent) plus one, wrapping. The result is both the new id and
/// the value to store back.
pub fn next_sequence(stored: Option<u64>) -> (next: u64)
    ensures
        next == successor(counter_value(stored)),
        next == nth_successor(counter_value(stored), 1),
        stored is None ==> next == 1,
        stored is Some && stored->0 < u64::MAX ==> next == stored->0 + 1,
        stored == Some(u64::MAX) ==> next == 0,
{
    let seq: u64 = match stored {
        Some(v) => v,
        None => 0,
    };
    seq.wrapping_add(1)
}

/// Taking `n + 1` steps is taking `n` steps and one more.
pub proof fn lemma_nth_successor_step(v: u64, n: nat)
    ensures
        nth_successor(v, n + 1) == successor(nth_successor(v, n)),
{
    let m: int = 0x1_0000_0000_0000_0000;
    let a = v + n;
    assert(a >= 0);
    let r = a % m;
    assert((a + 1) % m == (r + 1) % m) by (nonlinear_arith)
        requires m > 0, r == a % m, a >= 0;
    if r == m - 1 {
        assert((r + 1) % m == 0) by (nonlinear_arith)
            requires r + 1 == m, m > 0;
    } else {
        assert(0 <= r < m - 1) by (nonlinear_arith)
            requires r == a % m, m > 0, r != m - 1, a >= 0;
        assert((r + 1) % m == r + 1) by (nonlinear_arith)
            requires 0 <= r < m - 1, m > 0;
    }
}

} // verus!
