//! A wrap/unwrap bridge for non-native Stellar assets.
//!
//! Users deposit the underlying token and are credited the same amount of
//! the wrapped token in the contract's own ledger; unwrapping debits that
//! ledger and pays the underlying back. A wrap is credited with what the
//! contract measurably received, and refused unless that equals the amount
//! asked for, so a fee-on-transfer underlying token can never leave the
//! shared pool short of what the wrapped balances promise.

use vstd::prelude::*;
use crate::common::{AccountId, Party, TokenTransfer};

verus! {

/// Why a bridge operation was refused.
#[derive(Clone, Copy, Debug, PartialEq, Eq, Structural)]
pub enum TokenBridgeError {
    AlreadyInitialized,
    NotInitialized,
    Unauthorized,
    InvalidAmount,
    InsufficientWrappedBalance,
    ArithmeticOverflow,
    /// The contract's measured underlying balance gain from a wrap did not
    /// match the amount asked for.
    UnderlyingTransferShortfall,
}

/// The bridge's instance state: its admin, the underlying token and whether
/// it has been initialized.
#[derive(Clone, Debug, PartialEq)]
pub struct TokenBridgeContract {
    pub admin: Option<AccountId>,
    pub underlying_token: Option<AccountId>,
    pub initialized: bool,
}

/// An accepted wrap request: the underlying token and the deposit to make.
/// The contract's underlying balance is measured before and after the
/// deposit, and the wrap is then settled with `credit_wrap`.
#[derive(Clone, Debug, PartialEq)]
pub struct WrapDeposit {
    pub underlying_token: AccountId,
    pub deposit: TokenTransfer,
}

/// An accepted unwrap: the holder's new wrapped balance and the underlying
/// the contract pays back.
#[derive(Clone, Debug, PartialEq)]
pub struct Unwrapping {
    pub new_balance: i128,
    pub underlying_token: AccountId,
    pub withdrawal: TokenTransfer,
}

/// A holder's wrapped balance; an absent entry is zero.
pub open spec fn balance_of(stored: Option<i128>) -> int {
    match stored {
        Some(b) => b as int,
        None => 0,
    }
}

/// The settlement of a wrap of `amount` into a holder's balance, given the
/// contract's underlying balance before and after the deposit.
pub open spec fn credit_wrap_spec(
    stored_balance: Option<i128>,
    amount: i128,
    balance_before: i128,
    balance_after: i128,
) -> Result<i128, TokenBridgeError> {
    let received = balance_after - balance_before;
    if received < i128::MIN || received > i128::MAX {
        Err(TokenBridgeError::ArithmeticOverflow)
    } else if received != amount {
        Err(TokenBridgeError::UnderlyingTransferShortfall)
    } else if balance_of(stored_balance) + received > i128::MAX || balance_of(stored_balance)
        + received < i128::MIN {
        Err(TokenBridgeError::ArithmeticOverflow)
    } else {
        Ok((balance_of(stored_balance) + received) as i128)
    }
}

/// Why an unwrap of `amount` against a stored balance refuses, if it does.
pub open spec fn unwrap_error(
    bridge: TokenBridgeContract,
    stored_balance: Option<i128>,
    amount: i128,
) -> Option<TokenBridgeError> {
    if !bridge.initialized {
        Some(TokenBridgeError::NotInitialized)
    } else if amount <= 0 {
        Some(TokenBridgeError::InvalidAmount)
    } else if balance_of(stored_balance) < amount {
        Some(TokenBridgeError::InsufficientWrappedBalance)
    } else if bridge.underlying_token is None {
        Some(TokenBridgeError::NotInitialized)
    } else {
        None
    }
}

/// Why a wrap of `amount` refuses before any deposit, if it does.
pub open spec fn wrap_error(bridge: TokenBridgeContract, amount: i128) -> Option<TokenBridgeError> {
    if !bridge.initialized {
        Some(TokenBridgeError::NotInitialized)
    } else if amount <= 0 {
        Some(TokenBridgeError::InvalidAmount)
    } else if bridge.underlying_token is None {
        Some(TokenBridgeError::NotInitialized)
    } else {
        None
    }
}

/// The outcome of `initialize` on `bridge`: refused, unchanged, once
/// initialized; otherwise the admin and underlying token are recorded.
pub open spec fn initialize_spec(
    bridge: TokenBridgeContract,
    admin: AccountId,
    underlying_token: AccountId,
) -> (Result<(), TokenBridgeError>, TokenBridgeContract) {
    if bridge.initialized {
        (Err(TokenBridgeError::AlreadyInitialized), bridge)
    } else {
        (
            Ok(()),
            TokenBridgeContract {
                admin: Some(admin),
                underlying_token: Some(underlying_token),
                initialized: true,
            },
        )
    }
}

/// A bridge is initialized at most once: after a successful `initialize`,
/// every further one is refused and changes nothing.
pub proof fn lemma_bridge_initializes_once(
    bridge: TokenBridgeContract,
    admin: AccountId,
    underlying: AccountId,
    other_admin: AccountId,
    other_underlying: AccountId,
)
    ensures
        ({
            let (r, after) = initialize_spec(bridge, admin, underlying);
            r is Ok ==> initialize_spec(after, other_admin, other_underlying) == (
                Err::<(), TokenBridgeError>(TokenBridgeError::AlreadyInitialized),
                after,
            )
        }),
{
}

/// Unwrapping undoes wrapping: a wrap of `amount` that the contract
/// received in full, followed by an unwrap of the same amount, leaves the
/// holder with the (non-negative) balance they started from.
pub proof fn lemma_wrap_then_unwrap_restores(
    bridge: TokenBridgeContract,
    stored_balance: Option<i128>,
    amount: i128,
    balance_before: i128,
    balance_after: i128,
)
    requires
        balance_of(stored_balance) >= 0,
        wrap_error(bridge, amount) is None,
        credit_wrap_spec(stored_balance, amount, balance_before, balance_after) is Ok,
    ensures
        ({
            let credited = credit_wrap_spec(stored_balance, amount, balance_before, balance_after)->Ok_0;
            &&& credited == balance_of(stored_balance) + amount
            &&& unwrap_error(bridge, Some(credited), amount) is None
            &&& credited - amount == balance_of(stored_balance)
        }),
{
}

/// Wrapped balances never go negative: from a non-negative balance, every
/// accepted wrap and unwrap leaves a non-negative balance.
pub proof fn lemma_balances_stay_non_negative(
    bridge: TokenBridgeContract,
    stored_balance: Option<i128>,
    amount: i128,
    balance_before: i128,
    balance_after: i128,
)
    requires
        balance_of(stored_balance) >= 0,
    ensures
        wrap_error(bridge, amount) is None && credit_wrap_spec(
            stored_balance,
            amount,
            balance_before,
            balance_after,
        ) is Ok ==> credit_wrap_spec(stored_balance, amount, balance_before, balance_after)->Ok_0
            >= 0,
        unwrap_error(bridge, stored_balance, amount) is None ==> balance_of(stored_balance) - amount
            >= 0,
{
}


/// One step in a bridge's life, as its books see it. Holders are numbered.
pub enum BridgeStep {
    /// Holder `holder` wraps `amount`; `balance_after` is the bridge's
    /// underlying balance measured after the deposit.
    Wrap { holder: int, amount: i128, balance_after: i128 },
    /// Holder `holder` unwraps `amount`; the underlying token pays out
    /// exactly `amount` from the bridge.
    Unwrap { holder: int, amount: i128 },
    /// Underlying is sent straight to the bridge, leaving `balance_after`.
    Deposit { balance_after: i128 },
}

/// The bridge's books: every holder's wrapped balance and the bridge's
/// underlying balance (the pool every unwrap draws from).
pub struct BridgeBooks {
    pub balances: Seq<i128>,
    pub pool: i128,
}

/// The sum of all wrapped balances.
pub open spec fn total_wrapped(balances: Seq<i128>) -> int
    decreases balances.len(),
{
    if balances.len() == 0 {
        0
    } else {
        total_wrapped(balances.drop_last()) + balances.last()
    }
}

/// The books after one step: an accepted wrap or unwrap changes the
/// holder's balance as `credit_wrap` and `unwrap` say and moves the pool by
/// the transfer; a refused one changes nothing.
pub open spec fn bridge_step(bridge: TokenBridgeContract, books: BridgeBooks, step: BridgeStep) -> BridgeBooks {
    match step {
        BridgeStep::Wrap { holder, amount, balance_after } => {
            if 0 <= holder < books.balances.len() && wrap_error(bridge, amount) is None
                && credit_wrap_spec(
                Some(books.balances[holder]),
                amount,
                books.pool,
                balance_after,
            ) is Ok {
                BridgeBooks {
                    balances: books.balances.update(
                        holder,
                        credit_wrap_spec(
                            Some(books.balances[holder]),
                            amount,
                            books.pool,
                            balance_after,
                        )->Ok_0,
                    ),
                    pool: balance_after,
                }
            } else {
                books
            }
        },
        BridgeStep::Unwrap { holder, amount } => {
            if 0 <= holder < books.balances.len() && unwrap_error(
                bridge,
                Some(books.balances[holder]),
                amount,
            ) is None {
                BridgeBooks {
                    balances: books.balances.update(holder, (books.balances[holder] - amount) as i128),
                    pool: (books.pool - amount) as i128,
                }
            } else {
                books
            }
        },
        BridgeStep::Deposit { balance_after } => {
            if balance_after >= books.pool {
                BridgeBooks { balances: books.balances, pool: balance_after }
            } else {
                books
            }
        },
    }
}

/// The books after each of `steps`, in order.
pub open spec fn run_bridge(bridge: TokenBridgeContract, books: BridgeBooks, steps: Seq<BridgeStep>) -> BridgeBooks
    decreases steps.len(),
{
    if steps.len() == 0 {
        books
    } else {
        bridge_step(bridge, run_bridge(bridge, books, steps.drop_last()), steps.last())
    }
}

proof fn lemma_total_wrapped_update(balances: Seq<i128>, h: int, v: i128)
    requires
        0 <= h < balances.len(),
    ensures
        total_wrapped(balances.update(h, v)) == total_wrapped(balances) - balances[h] + v,
    decreases balances.len(),
{
    if h < balances.len() - 1 {
        assert(balances.update(h, v).drop_last() =~= balances.drop_last().update(h, v));
        lemma_total_wrapped_update(balances.drop_last(), h, v);
    } else {
        assert(balances.update(h, v).drop_last() =~= balances.drop_last());
    }
}

proof fn lemma_total_wrapped_zero(n: nat)
    ensures
        total_wrapped(Seq::new(n, |i: int| 0i128)) == 0,
    decreases n,
{
    if n > 0 {
        assert(Seq::new(n, |i: int| 0i128).drop_last() =~= Seq::new((n - 1) as nat, |i: int| 0i128));
        lemma_total_wrapped_zero((n - 1) as nat);
    }
}

proof fn lemma_total_wrapped_bounds(balances: Seq<i128>, h: int)
    requires
        0 <= h < balances.len(),
        forall|j: int| 0 <= j < balances.len() ==> balances[j] >= 0,
    ensures
        balances[h] <= total_wrapped(balances),
        total_wrapped(balances) >= 0,
    decreases balances.len(),
{
    let rest = balances.drop_last();
    assert forall|j: int| 0 <= j < rest.len() implies rest[j] >= 0 by {
        assert(rest[j] == balances[j]);
    }
    assert(balances.last() == balances[balances.len() - 1]);
    assert(balances[balances.len() - 1] >= 0);
    if h < balances.len() - 1 {
        lemma_total_wrapped_bounds(rest, h);
        assert(rest[h] == balances[h]);
    } else if balances.len() > 1 {
        lemma_total_wrapped_bounds(rest, 0);
    } else {
        assert(total_wrapped(rest) == 0);
    }
    assert(total_wrapped(balances) == total_wrapped(rest) + balances.last());
}

/// The pool backs every wrapped balance: from a fresh bridge (no wrapped
/// balances, a non-negative underlying balance), after any sequence of wraps,
/// unwraps and direct deposits, and whatever the underlying token does to a
/// deposit, every wrapped balance is non-negative and all of them together
/// never exceed the bridge's underlying balance. So every holder's unwrap is
/// covered by the shared pool, whatever the other holders did.
pub proof fn lemma_pool_backs_wrapped_balances(
    bridge: TokenBridgeContract,
    holders: nat,
    pool: i128,
    steps: Seq<BridgeStep>,
)
    requires
        pool >= 0,
    ensures
        ({
            let books = run_bridge(
                bridge,
                BridgeBooks { balances: Seq::new(holders, |i: int| 0i128), pool: pool },
                steps,
            );
            &&& books.balances.len() == holders
            &&& forall|h: int| 0 <= h < holders ==> #[trigger] books.balances[h] >= 0
            &&& total_wrapped(books.balances) <= books.pool
        }),
    decreases steps.len(),
{
    let start = BridgeBooks { balances: Seq::new(holders, |i: int| 0i128), pool: pool };
    if steps.len() == 0 {
        lemma_total_wrapped_zero(holders);
    } else {
        lemma_pool_backs_wrapped_balances(bridge, holders, pool, steps.drop_last());
        let before = run_bridge(bridge, start, steps.drop_last());
        let after = run_bridge(bridge, start, steps);
        assert(after == bridge_step(bridge, before, steps.last()));
        match steps.last() {
            BridgeStep::Wrap { holder, amount, balance_after } => {
                if after != before {
                    let credited = credit_wrap_spec(
                        Some(before.balances[holder]),
                        amount,
                        before.pool,
                        balance_after,
                    )->Ok_0;
                    lemma_total_wrapped_update(before.balances, holder, credited);
                }
            },
            BridgeStep::Unwrap { holder, amount } => {
                if after != before {
                    lemma_total_wrapped_bounds(before.balances, holder);
                    lemma_total_wrapped_update(
                        before.balances,
                        holder,
                        (before.balances[holder] - amount) as i128,
                    );
                }
            },
            BridgeStep::Deposit { balance_after } => {},
        }
    }
}

impl TokenBridgeContract {
    /// Initialise the bridge with its admin and underlying token; refused
    /// once initialized. On success `admin` must authorise the call.
    pub fn initialize(&mut self, admin: AccountId, underlying_token: AccountId) -> (r: Result<
        (),
        TokenBridgeError,
    >)
        ensures
            (r, *final(self)) == initialize_spec(*old(self), admin, underlying_token),
            old(self).initialized ==> r == Err::<(), TokenBridgeError>(
                TokenBridgeError::AlreadyInitialized,
            ) && *final(self) == *old(self),
            !old(self).initialized ==> r is Ok && final(self).initialized && final(self).admin
                == Some(admin) && final(self).underlying_token == Some(underlying_token),
    {
        if self.initialized {
            return Err(TokenBridgeError::AlreadyInitialized);
        }
        self.admin = Some(admin);
        self.underlying_token = Some(underlying_token);
        self.initialized = true;
        Ok(())
    }

    /// Accept a wrap of `amount` by `from` (who has authorised the call):
    /// the deposit of underlying into the contract that must follow.
    pub fn wrap(&self, from: &AccountId, amount: i128) -> (r: Result<WrapDeposit, TokenBridgeError>)
        ensures
            match wrap_error(*self, amount) {
                Some(e) => r == Err::<WrapDeposit, TokenBridgeError>(e),
                None => r == Ok::<WrapDeposit, TokenBridgeError>(WrapDeposit {
                    underlying_token: self.underlying_token->0,
                    deposit: TokenTransfer {
                        token: self.underlying_token->0,
                        from: Party::Account(*from),
                        to: Party::ThisContract,
                        amount: amount,
                        by_allowance: false,
                    },
                }),
            },
            r is Ok <==> self.initialized && amount > 0 && self.underlying_token is Some,
            r is Ok ==> {
                let w = r->Ok_0;
                &&& w.underlying_token == self.underlying_token->0
                &&& w.deposit.token == self.underlying_token->0
                &&& w.deposit.from == Party::Account(*from)
                &&& w.deposit.to == Party::ThisContract
                &&& w.deposit.amount == amount
                &&& !w.deposit.by_allowance
            },
    {
        self.assert_initialized()?;
        if amount <= 0 {
            return Err(TokenBridgeError::InvalidAmount);
        }
        let underlying = match &self.underlying_token {
            Some(u) => u.clone(),
            None => return Err(TokenBridgeError::NotInitialized),
        };
        let deposit = TokenTransfer {
            token: underlying.clone(),
            from: Party::Account(from.clone()),
            to: Party::ThisContract,
            amount,
            by_allowance: false,
        };
        Ok(WrapDeposit { underlying_token: underlying, deposit })
    }

    /// Settle a wrap of `amount` once the deposit was made: the contract's
    /// underlying balance must have grown by exactly `amount`, and then the
    /// holder's wrapped balance grows by what was received. Returns the new
    /// wrapped balance to store.
    pub fn credit_wrap(
        stored_balance: Option<i128>,
        amount: i128,
        balance_before: i128,
        balance_after: i128,
    ) -> (r: Result<i128, TokenBridgeError>)
        ensures
            r == credit_wrap_spec(stored_balance, amount, balance_before, balance_after),
            r matches Ok(b) ==> b == balance_of(stored_balance) + (balance_after - balance_before),
            balance_after - balance_before != amount ==> r is Err,
            r is Ok ==> balance_after - balance_before == amount && r->Ok_0 == (if stored_balance
                is Some {
                stored_balance->0 as int
            } else {
                0
            }) + amount,
            balance_after - balance_before == amount && i128::MIN <= (if stored_balance is Some {
                stored_balance->0 as int
            } else {
                0
            }) + amount <= i128::MAX ==> r is Ok,
    {
        let received = match balance_after.checked_sub(balance_before) {
            Some(d) => d,
            None => return Err(TokenBridgeError::ArithmeticOverflow),
        };
        if received != amount {
            return Err(TokenBridgeError::UnderlyingTransferShortfall);
        }
        Self::credit_wrapped(stored_balance, received)
    }

    /// Accept an unwrap of `amount` by `from` (who has authorised the call):
    /// the holder's new balance and the underlying paid back to them.
    pub fn unwrap(&self, stored_balance: Option<i128>, from: &AccountId, amount: i128) -> (r: Result<
        Unwrapping,
        TokenBridgeError,
    >)
        ensures
            match unwrap_error(*self, stored_balance, amount) {
                Some(e) => r == Err::<Unwrapping, TokenBridgeError>(e),
                None => r == Ok::<Unwrapping, TokenBridgeError>(Unwrapping {
                    new_balance: (balance_of(stored_balance) - amount) as i128,
                    underlying_token: self.underlying_token->0,
                    withdrawal: TokenTransfer {
                        token: self.underlying_token->0,
                        from: Party::ThisContract,
                        to: Party::Account(*from),
                        amount: amount,
                        by_allowance: false,
                    },
                }),
            },
            r is Ok <==> self.initialized && amount > 0 && (if stored_balance is Some {
                stored_balance->0 as int
            } else {
                0
            }) >= amount && self.underlying_token is Some,
            r is Ok ==> {
                let u = r->Ok_0;
                &&& u.new_balance == (if stored_balance is Some {
                    stored_balance->0 as int
                } else {
                    0
                }) - amount
                &&& u.withdrawal.token == self.underlying_token->0
                &&& u.withdrawal.from == Party::ThisContract
                &&& u.withdrawal.to == Party::Account(*from)
                &&& u.withdrawal.amount == amount
                &&& !u.withdrawal.by_allowance
            },
    {
        self.assert_initialized()?;
        if amount <= 0 {
            return Err(TokenBridgeError::InvalidAmount);
        }
        let current = Self::get_wrapped_balance(stored_balance);
        if current < amount {
            return Err(TokenBridgeError::InsufficientWrappedBalance);
        }
        let underlying = match &self.underlying_token {
            Some(u) => u.clone(),
            None => return Err(TokenBridgeError::NotInitialized),
        };
        let new_balance = current - amount;
        let withdrawal = TokenTransfer {
            token: underlying.clone(),
            from: Party::ThisContract,
            to: Party::Account(from.clone()),
            amount,
            by_allowance: false,
        };
        Ok(Unwrapping { new_balance, underlying_token: underlying, withdrawal })
    }

    /// A holder's wrapped balance: the stored value, zero when absent.
    pub fn get_wrapped_balance(stored_balance: Option<i128>) -> (b: i128)
        ensures
            b == balance_of(stored_balance),
            stored_balance is None ==> b == 0,
            stored_balance matches Some(x) ==> b == x,
    {
        match stored_balance {
            Some(b) => b,
            None => 0,
        }
    }

    /// The underlying token, or `NotInitialized`.
    pub fn get_underlying_token(&self) -> (r: Result<AccountId, TokenBridgeError>)
        ensures
            match self.underlying_token {
                Some(u) => r == Ok::<AccountId, TokenBridgeError>(u),
                None => r == Err::<AccountId, TokenBridgeError>(TokenBridgeError::NotInitialized),
            },
    {
        match &self.underlying_token {
            Some(u) => Ok(u.clone()),
            None => Err(TokenBridgeError::NotInitialized),
        }
    }

    /// The admin, or `NotInitialized`.
    pub fn get_admin(&self) -> (r: Result<AccountId, TokenBridgeError>)
        ensures
            match self.admin {
                Some(a) => r == Ok::<AccountId, TokenBridgeError>(a),
                None => r == Err::<AccountId, TokenBridgeError>(TokenBridgeError::NotInitialized),
            },
    {
        match &self.admin {
            Some(a) => Ok(a.clone()),
            None => Err(TokenBridgeError::NotInitialized),
        }
    }

    fn assert_initialized(&self) -> (r: Result<(), TokenBridgeError>)
        ensures
            self.initialized ==> r is Ok,
            !self.initialized ==> r == Err::<(), TokenBridgeError>(TokenBridgeError::NotInitialized),
    {
        if !self.initialized {
            return Err(TokenBridgeError::NotInitialized);
        }
        Ok(())
    }

    /// Add `amount` to a holder's wrapped balance; `ArithmeticOverflow` when
    /// the sum leaves the `i128` range.
    fn credit_wrapped(stored_balance: Option<i128>, amount: i128) -> (r: Result<i128, TokenBridgeError>)
        ensures
            balance_of(stored_balance) + amount > i128::MAX || balance_of(stored_balance) + amount
                < i128::MIN ==> r == Err::<i128, TokenBridgeError>(
                TokenBridgeError::ArithmeticOverflow,
            ),
            i128::MIN <= balance_of(stored_balance) + amount <= i128::MAX ==> r == Ok::<
                i128,
                TokenBridgeError,
            >((balance_of(stored_balance) + amount) as i128),
    {
        let current = Self::get_wrapped_balance(stored_balance);
        match current.checked_add(amount) {
            Some(b) => Ok(b),
            None => Err(TokenBridgeError::ArithmeticOverflow),
        }
    }
}

} // verus!
