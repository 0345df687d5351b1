//! The fee collector: receives protocol fees, keeps a lifetime total per
//! token, and lets its admin withdraw the collected balance.

use vstd::prelude::*;
use crate::common::{AccountId, Party, TokenTransfer};

verus! {

/// When the remaining lifetime (in ledgers) of a token's total-collected
/// entry falls below this on a `collect_fee`, it is extended; about 30 days
/// at 5 s per ledger.
pub const TOTAL_TTL_THRESHOLD: u32 = 518_400;

/// The lifetime a token's total-collected entry is extended to: about 120
/// days at 5 s per ledger.
pub const TOTAL_TTL_TARGET: u32 = 2_073_600;

/// Why a fee-collector operation was refused.
#[derive(Clone, Copy, Debug, PartialEq, Eq, Structural)]
pub enum FeeCollectorError {
    AlreadyInitialized,
    NotInitialized,
    Unauthorized,
    InvalidAmount,
    ArithmeticOverflow,
}

/// The fee collector's instance state.
#[derive(Clone, Debug, PartialEq)]
pub struct FeeCollectorContract {
    /// May withdraw and change the treasury.
    pub admin: Option<AccountId>,
    /// Default recipient of withdrawn fees.
    pub treasury: Option<AccountId>,
    pub initialized: bool,
}

/// A token's lifetime total; an absent entry is zero.
pub open spec fn total_of(stored: Option<i128>) -> int {
    match stored {
        Some(t) => t as int,
        None => 0,
    }
}

/// The outcome of recording a fee of `amount` on a stored total.
pub open spec fn collect_fee_spec(
    collector: FeeCollectorContract,
    stored_total: Option<i128>,
    amount: i128,
) -> Result<i128, FeeCollectorError> {
    if !collector.initialized {
        Err(FeeCollectorError::NotInitialized)
    } else if amount <= 0 {
        Err(FeeCollectorError::InvalidAmount)
    } else if total_of(stored_total) + amount > i128::MAX {
        Err(FeeCollectorError::ArithmeticOverflow)
    } else {
        Ok((total_of(stored_total) + amount) as i128)
    }
}

/// The outcome of `initialize` on `collector`: refused, unchanged, once
/// initialized; otherwise the admin and treasury are recorded.
pub open spec fn initialize_spec(
    collector: FeeCollectorContract,
    admin: AccountId,
    treasury: AccountId,
) -> (Result<(), FeeCollectorError>, FeeCollectorContract) {
    if collector.initialized {
        (Err(FeeCollectorError::AlreadyInitialized), collector)
    } else {
        (
            Ok(()),
            FeeCollectorContract {
                admin: Some(admin),
                treasury: Some(treasury),
                initialized: true,
            },
        )
    }
}

/// The admin whose authorisation an admin operation needs, or why there is
/// none.
pub open spec fn admin_spec(collector: FeeCollectorContract) -> Result<AccountId, FeeCollectorError> {
    if !collector.initialized || collector.admin is None {
        Err(FeeCollectorError::NotInitialized)
    } else {
        Ok(collector.admin->0)
    }
}

/// A fee collector is initialized at most once: after a successful
/// `initialize`, every further one is refused and changes nothing.
pub proof fn lemma_collector_initializes_once(
    collector: FeeCollectorContract,
    admin: AccountId,
    treasury: AccountId,
    other_admin: AccountId,
    other_treasury: AccountId,
)
    ensures
        ({
            let (r, after) = initialize_spec(collector, admin, treasury);
            r is Ok ==> initialize_spec(after, other_admin, other_treasury) == (
                Err::<(), FeeCollectorError>(FeeCollectorError::AlreadyInitialized),
                after,
            )
        }),
{
}

/// Lifetime totals accumulate: recording `a` and then `b` on a total gives
/// the total plus `a + b`, and a total never decreases.
pub proof fn lemma_totals_accumulate(
    collector: FeeCollectorContract,
    stored_total: Option<i128>,
    a: i128,
    b: i128,
)
    ensures
        collect_fee_spec(collector, stored_total, a) matches Ok(t) ==> t > total_of(stored_total),
        collect_fee_spec(collector, stored_total, a) matches Ok(t) ==> (collect_fee_spec(
            collector,
            Some(t),
            b,
        ) matches Ok(u) ==> u == total_of(stored_total) + a + b),
{
}


/// The stored total after recording a fee of each of `amounts` in turn,
/// starting from `stored`; the error of the first refused recording, if any.
pub open spec fn collect_all(
    collector: FeeCollectorContract,
    stored: Option<i128>,
    amounts: Seq<i128>,
) -> Result<Option<i128>, FeeCollectorError>
    decreases amounts.len(),
{
    if amounts.len() == 0 {
        Ok(stored)
    } else {
        match collect_all(collector, stored, amounts.drop_last()) {
            Err(e) => Err(e),
            Ok(t) => match collect_fee_spec(collector, t, amounts.last()) {
                Ok(n) => Ok(Some(n)),
                Err(e) => Err(e),
            },
        }
    }
}

/// The sum of the amounts.
pub open spec fn sum_of(amounts: Seq<i128>) -> int
    decreases amounts.len(),
{
    if amounts.len() == 0 {
        0
    } else {
        sum_of(amounts.drop_last()) + amounts.last()
    }
}

/// Lifetime totals after any number of collections: when recording fees
/// `a_1, ..., a_k` on a token with no entry all succeed, the entry is absent
/// if `k == 0` and otherwise holds exactly `a_1 + ... + a_k`, which is then
/// positive.
pub proof fn lemma_totals_after_collections(collector: FeeCollectorContract, amounts: Seq<i128>)
    ensures
        collect_all(collector, None, amounts) matches Ok(t) ==> {
            &&& amounts.len() == 0 ==> t is None
            &&& amounts.len() > 0 ==> t is Some && t->0 == sum_of(amounts) && sum_of(amounts) > 0
        },
    decreases amounts.len(),
{
    if amounts.len() > 0 {
        let prefix = amounts.drop_last();
        lemma_totals_after_collections(collector, prefix);
        if let Ok(t) = collect_all(collector, None, amounts) {
            let prev = collect_all(collector, None, prefix);
            assert(prev is Ok);
            let p = prev->Ok_0;
            assert(collect_fee_spec(collector, p, amounts.last()) == Ok::<i128, FeeCollectorError>(t->0));
            if prefix.len() == 0 {
                assert(p is None);
                assert(sum_of(prefix) == 0);
            }
        }
    }
}

impl FeeCollectorContract {
    /// Initialise the collector with its admin and treasury; refused once
    /// initialized. On success `admin` must authorise the call.
    pub fn initialize(&mut self, admin: AccountId, treasury: AccountId) -> (r: Result<
        (),
        FeeCollectorError,
    >)
        ensures
            (r, *final(self)) == initialize_spec(*old(self), admin, treasury),
            old(self).initialized ==> r == Err::<(), FeeCollectorError>(
                FeeCollectorError::AlreadyInitialized,
            ) && *final(self) == *old(self),
            !old(self).initialized ==> r is Ok && final(self).initialized && final(self).admin
                == Some(admin) && final(self).treasury == Some(treasury),
    {
        if self.initialized {
            return Err(FeeCollectorError::AlreadyInitialized);
        }
        self.admin = Some(admin);
        self.treasury = Some(treasury);
        self.initialized = true;
        Ok(())
    }

    /// Record that `amount` of a token was collected as a fee (the transfer
    /// itself has already happened): the token's new lifetime total.
    pub fn collect_fee(&self, stored_total: Option<i128>, amount: i128) -> (r: Result<
        i128,
        FeeCollectorError,
    >)
        ensures
            r == collect_fee_spec(*self, stored_total, amount),
            r is Ok <==> self.initialized && amount > 0 && (if stored_total is Some {
                stored_total->0 as int
            } else {
                0
            }) + amount <= i128::MAX,
            r is Ok ==> r->Ok_0 == (if stored_total is Some {
                stored_total->0 as int
            } else {
                0
            }) + amount,
            !self.initialized ==> r == Err::<i128, FeeCollectorError>(
                FeeCollectorError::NotInitialized,
            ),
    {
        self.assert_initialized()?;
        if amount <= 0 {
            return Err(FeeCollectorError::InvalidAmount);
        }
        let current = Self::get_total_collected(stored_total);
        match current.checked_add(amount) {
            Some(t) => Ok(t),
            None => Err(FeeCollectorError::ArithmeticOverflow),
        }
    }

    /// The admin whose authorisation `withdraw` and `set_treasury` need.
    pub fn require_admin(&self) -> (r: Result<AccountId, FeeCollectorError>)
        ensures
            r == admin_spec(*self),
            r is Ok <==> self.initialized && self.admin is Some,
            r is Ok ==> Some(r->Ok_0) == self.admin,
    {
        self.assert_initialized()?;
        match &self.admin {
            Some(a) => Ok(a.clone()),
            None => Err(FeeCollectorError::NotInitialized),
        }
    }

    /// Withdraw `amount` of `token` from the contract to `recipient`, once
    /// the admin has authorised it.
    pub fn withdraw(&self, token: AccountId, amount: i128, recipient: AccountId) -> (r: Result<
        TokenTransfer,
        FeeCollectorError,
    >)
        ensures
            admin_spec(*self) matches Err(e) ==> r == Err::<TokenTransfer, FeeCollectorError>(e),
            admin_spec(*self) is Ok && amount <= 0 ==> r == Err::<TokenTransfer, FeeCollectorError>(
                FeeCollectorError::InvalidAmount,
            ),
            admin_spec(*self) is Ok && amount > 0 ==> r == Ok::<TokenTransfer, FeeCollectorError>(
                TokenTransfer {
                    token: token,
                    from: Party::ThisContract,
                    to: Party::Account(recipient),
                    amount: amount,
                    by_allowance: false,
                },
            ),
            r is Ok <==> self.initialized && self.admin is Some && amount > 0,
    {
        let _admin = self.require_admin()?;
        if amount <= 0 {
            return Err(FeeCollectorError::InvalidAmount);
        }
        Ok(TokenTransfer {
            token,
            from: Party::ThisContract,
            to: Party::Account(recipient),
            amount,
            by_allowance: false,
        })
    }

    /// Replace the treasury, once the admin has authorised it.
    pub fn set_treasury(&mut self, new_treasury: AccountId) -> (r: Result<(), FeeCollectorError>)
        ensures
            admin_spec(*old(self)) matches Err(e) ==> r == Err::<(), FeeCollectorError>(e)
                && *final(self) == *old(self),
            admin_spec(*old(self)) is Ok ==> r is Ok && *final(self) == (FeeCollectorContract {
                treasury: Some(new_treasury),
                ..*old(self)
            }),
    {
        let _admin = self.require_admin()?;
        self.treasury = Some(new_treasury);
        Ok(())
    }

    /// A token's lifetime total collected: the stored value, zero when
    /// absent (which cannot tell "never collected" from an expired entry).
    pub fn get_total_collected(stored_total: Option<i128>) -> (t: i128)
        ensures
            t == total_of(stored_total),
            stored_total is None ==> t == 0,
            stored_total matches Some(x) ==> t == x,
    {
        match stored_total {
            Some(t) => t,
            None => 0,
        }
    }

    /// The admin, or `NotInitialized`.
    pub fn get_admin(&self) -> (r: Result<AccountId, FeeCollectorError>)
        ensures
            match self.admin {
                Some(a) => r == Ok::<AccountId, FeeCollectorError>(a),
                None => r == Err::<AccountId, FeeCollectorError>(FeeCollectorError::NotInitialized),
            },
    {
        match &self.admin {
            Some(a) => Ok(a.clone()),
            None => Err(FeeCollectorError::NotInitialized),
        }
    }

    /// The treasury, or `NotInitialized`.
    pub fn get_treasury(&self) -> (r: Result<AccountId, FeeCollectorError>)
        ensures
            match self.treasury {
                Some(t) => r == Ok::<AccountId, FeeCollectorError>(t),
                None => r == Err::<AccountId, FeeCollectorError>(FeeCollectorError::NotInitialized),
            },
    {
        match &self.treasury {
            Some(t) => Ok(t.clone()),
            None => Err(FeeCollectorError::NotInitialized),
        }
    }

    fn assert_initialized(&self) -> (r: Result<(), FeeCollectorError>)
        ensures
            self.initialized ==> r is Ok,
            !self.initialized ==> r == Err::<(), FeeCollectorError>(FeeCollectorError::NotInitialized),
    {
        if !self.initialized {
            return Err(FeeCollectorError::NotInitialized);
        }
        Ok(())
    }
}

} // verus!
