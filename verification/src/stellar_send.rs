//! The payment contract's shared pieces: its error codes, the configuration
//! it loads on every payment, the protocol-fee split and payment records.

use vstd::prelude::*;
use crate::common::{AccountId, Party, TokenTransfer, counter_value, successor, next_sequence};

verus! {

/// Errors that can be returned by the payment contract.
#[derive(Clone, Copy, Debug, PartialEq, Eq, Structural)]
pub enum StellarSendError {
    /// The contract has already been initialized.
    AlreadyInitialized,
    /// The contract has not been initialized yet.
    NotInitialized,
    /// The caller is not the admin.
    Unauthorized,
    /// The amount specified is zero or negative.
    InvalidAmount,
    /// The fee in basis points exceeds 10 000 (100%).
    InvalidFeeBps,
    /// The sender's token balance is insufficient to cover amount + fee.
    InsufficientBalance,
    /// The path payment did not produce the required minimum destination amount.
    SlippageExceeded,
    /// The payment path provided is empty or malformed.
    InvalidPath,
    /// Arithmetic overflow occurred during fee / amount calculation.
    ArithmeticOverflow,
    /// The fee-collector address stored in config is invalid.
    InvalidFeeCollector,
    /// The subscription id does not exist.
    SubscriptionNotFound,
    /// The subscription has already been cancelled or has run its course.
    SubscriptionInactive,
    /// `execute_subscription` was called before `next_execution_time`.
    SubscriptionNotDue,
    /// The interval between recurring executions must be positive.
    InvalidInterval,
    /// A payment from an address to itself was attempted.
    SelfPaymentNotAllowed,
    /// A batch payment call contained no payment legs.
    EmptyBatch,
    /// The payment request id does not exist.
    RequestNotFound,
    /// The payment request has already been fulfilled.
    RequestAlreadyFulfilled,
    /// The payment request has been cancelled by the requester.
    RequestCancelled,
    /// The payment request's expiry ledger timestamp has passed.
    RequestExpired,
    /// `expiry` must be a timestamp in the future.
    InvalidExpiry,
    /// The request restricts payment to a specific payer and the caller
    /// does not match it.
    WrongPayer,
    /// `max_executions` was set to `Some(0)`, which could never execute.
    InvalidMaxExecutions,
    /// The subscription's `expiry_time` has passed.
    SubscriptionExpired,
    /// No payment record exists for the given sender and sequence number.
    PaymentRecordNotFound,
}

/// The configuration every payment loads: the protocol fee and where it goes.
#[derive(Clone, Debug, PartialEq)]
pub struct Config {
    /// Protocol fee in basis points (100 bps = 1 %).
    pub fee_bps: u32,
    pub fee_collector: AccountId,
}

/// A settled payment, stored per sender and sequence number.
#[derive(Clone, Debug, PartialEq)]
pub struct PaymentRecord {
    pub from: AccountId,
    pub to: AccountId,
    pub token: AccountId,
    pub net_amount: i128,
    pub fee_amount: i128,
    pub memo: String,
    /// Ledger sequence number at which the payment was made.
    pub ledger: u32,
}

/// The basis-point denominator: 10 000 bps = 100 %.
pub const BPS_DENOMINATOR: i128 = 10_000;

/// Whether a mathematical integer fits in an `i128`.
pub open spec fn fits_i128(x: int) -> bool {
    i128::MIN <= x <= i128::MAX
}

/// Integer division rounding toward zero.
pub open spec fn div_toward_zero(x: int, d: int) -> int {
    if x >= 0 {
        x / d
    } else {
        -((-x) / d)
    }
}

/// The protocol fee on `amount` at `fee_bps`: `amount * fee_bps / 10 000`,
/// rounded toward zero.
pub open spec fn fee_on(amount: int, fee_bps: int) -> int {
    div_toward_zero(amount * fee_bps, BPS_DENOMINATOR as int)
}

/// The split of `amount` into `(fee, net)` at `fee_bps`, where `net` is what
/// is left after the fee; `None` when a step leaves the `i128` range.
pub open spec fn split_fee_spec(amount: i128, fee_bps: u32) -> Option<(i128, i128)> {
    if !fits_i128(amount * fee_bps) {
        None
    } else if !fits_i128(amount - fee_on(amount as int, fee_bps as int)) {
        None
    } else {
        Some(
            (
                fee_on(amount as int, fee_bps as int) as i128,
                (amount - fee_on(amount as int, fee_bps as int)) as i128,
            ),
        )
    }
}


/// Splitting a payment conserves it: the fee and the net add up to the
/// amount. With a fee of at most 100 % on a non-negative amount, both parts
/// are non-negative and the fee never exceeds the amount; the split then only
/// fails when `amount * fee_bps` leaves the `i128` range.
pub proof fn lemma_fee_split_conserves(amount: i128, fee_bps: u32)
    ensures
        split_fee_spec(amount, fee_bps) matches Some((fee, net)) ==> fee + net == amount,
        amount >= 0 && fee_bps <= BPS_DENOMINATOR ==> {
            &&& split_fee_spec(amount, fee_bps) is Some <==> fits_i128(amount * fee_bps)
            &&& split_fee_spec(amount, fee_bps) matches Some((fee, net)) ==> 0 <= fee <= amount
                && 0 <= net <= amount
        },
{
    if amount >= 0 && fee_bps <= BPS_DENOMINATOR {
        let p = amount * fee_bps;
        assert(0 <= p <= amount * 10_000) by (nonlinear_arith)
            requires amount >= 0, 0 <= fee_bps <= 10_000, p == amount * fee_bps;
        assert(0 <= p / 10_000 <= amount) by (nonlinear_arith)
            requires 0 <= p <= amount * 10_000, amount >= 0;
    }
}


/// The fee part of a payment of `token` from `from`: paid to the fee
/// collector, and only when positive.
pub open spec fn fee_leg(
    token: AccountId,
    from: AccountId,
    fee_collector: AccountId,
    fee: i128,
    by_allowance: bool,
) -> Option<TokenTransfer> {
    if fee > 0 {
        Some(
            TokenTransfer {
                token: token,
                from: Party::Account(from),
                to: Party::Account(fee_collector),
                amount: fee,
                by_allowance: by_allowance,
            },
        )
    } else {
        None
    }
}

/// The net part of a payment of `token` from `from` to `to`.
pub open spec fn net_leg(
    token: AccountId,
    from: AccountId,
    to: AccountId,
    net: i128,
    by_allowance: bool,
) -> TokenTransfer {
    TokenTransfer {
        token: token,
        from: Party::Account(from),
        to: Party::Account(to),
        amount: net,
        by_allowance: by_allowance,
    }
}

/// The fee is the exact share of the amount at the rate, rounded down: for a
/// non-negative amount, `fee` is the largest integer with
/// `fee * 10 000 <= amount * fee_bps`, the net is the rest, and the split
/// succeeds exactly when `amount * fee_bps` fits in an `i128`.
pub proof fn lemma_fee_is_rounded_down_share(amount: i128, fee_bps: u32)
    requires
        amount >= 0,
    ensures
        split_fee_spec(amount, fee_bps) is Some <==> amount * fee_bps <= i128::MAX,
        split_fee_spec(amount, fee_bps) matches Some((fee, net)) ==> {
            &&& fee * 10_000 <= amount * fee_bps
            &&& amount * fee_bps < (fee + 1) * 10_000
            &&& net == amount - fee
        },
{
    let p = amount * fee_bps;
    assert(p >= 0) by (nonlinear_arith)
        requires amount >= 0, fee_bps >= 0, p == amount * fee_bps;
    let f = p / 10_000;
    assert(f * 10_000 <= p && p < (f + 1) * 10_000) by (nonlinear_arith)
        requires p >= 0, f == p / 10_000;
    assert(0 <= f <= p) by (nonlinear_arith)
        requires p >= 0, f == p / 10_000;
    assert(amount - f >= -p);
}

/// The payment contract's rules that every payment shares.
pub struct StellarSendContract;

impl StellarSendContract {
    /// The stored configuration, or `NotInitialized` when there is none.
    pub fn load_config(stored: Option<Config>) -> (r: Result<Config, StellarSendError>)
        ensures
            match stored {
                Some(c) => r == Ok::<Config, StellarSendError>(c),
                None => r == Err::<Config, StellarSendError>(StellarSendError::NotInitialized),
            },
    {
        match stored {
            Some(c) => Ok(c),
            None => Err(StellarSendError::NotInitialized),
        }
    }

    /// Split `amount` into `(fee, net)` at `fee_bps`; `ArithmeticOverflow`
    /// when the product or the difference leaves the `i128` range.
    pub fn split_fee(amount: i128, fee_bps: u32) -> (r: Result<(i128, i128), StellarSendError>)
        ensures
            match split_fee_spec(amount, fee_bps) {
                Some(p) => r == Ok::<(i128, i128), StellarSendError>(p),
                None => r == Err::<(i128, i128), StellarSendError>(
                    StellarSendError::ArithmeticOverflow,
                ),
            },
            r matches Ok((fee, net)) ==> fee + net == amount,
            amount >= 0 ==> (r is Ok <==> amount * fee_bps <= i128::MAX),
            amount >= 0 && r is Ok ==> r->Ok_0.0 * 10_000 <= amount * fee_bps < (r->Ok_0.0 + 1)
                * 10_000,
    {
        let product = match amount.checked_mul(fee_bps as i128) {
            Some(p) => p,
            None => {
                proof {
                    if amount >= 0 {
                        lemma_fee_is_rounded_down_share(amount, fee_bps);
                    }
                }
                return Err(StellarSendError::ArithmeticOverflow);
            },
        };
        let fee = product / BPS_DENOMINATOR;
        assert(fee == fee_on(amount as int, fee_bps as int));
        proof {
            if amount >= 0 {
                lemma_fee_is_rounded_down_share(amount, fee_bps);
            }
        }
        let net = match amount.checked_sub(fee) {
            Some(n) => n,
            None => return Err(StellarSendError::ArithmeticOverflow),
        };
        Ok((fee, net))
    }

    /// The transfers that carry out a payment of `token` from `from` to `to`
    /// split into `fee` and `net`: the fee to the fee collector (when
    /// positive), then the net amount to the recipient.
    pub fn payment_transfers(
        token: &AccountId,
        from: &AccountId,
        to: &AccountId,
        fee_collector: &AccountId,
        fee: i128,
        net: i128,
        by_allowance: bool,
    ) -> (r: (Option<TokenTransfer>, TokenTransfer))
        ensures
            r.0 == fee_leg(*token, *from, *fee_collector, fee, by_allowance),
            r.1 == net_leg(*token, *from, *to, net, by_allowance),
    {
        let fee_transfer = if fee > 0 {
            Some(
                TokenTransfer {
                    token: token.clone(),
                    from: Party::Account(from.clone()),
                    to: Party::Account(fee_collector.clone()),
                    amount: fee,
                    by_allowance,
                },
            )
        } else {
            None
        };
        let net_transfer = TokenTransfer {
            token: token.clone(),
            from: Party::Account(from.clone()),
            to: Party::Account(to.clone()),
            amount: net,
            by_allowance,
        };
        (fee_transfer, net_transfer)
    }

    /// The next sequence number of a counter (per sender, per request or per
    /// subscription): the stored value plus one, wrapping.
    pub fn next_seq(stored: Option<u64>) -> (next: u64)
        ensures
            next == successor(counter_value(stored)),
    {
        next_sequence(stored)
    }
}

} // verus!
