//! Split / batch payments: one sender fans a single token out to many
//! recipients in one invocation.
//!
//! Batches are all-or-nothing: every leg is validated (positive amount, no
//! self-payment) before any record is built, and the fee is split on every
//! leg exactly as for a single payment. Any refusal leaves nothing to apply.

use vstd::prelude::*;
use crate::common::{AccountId, Party, TokenTransfer, counter_value, nth_successor, lemma_nth_successor_step};
use crate::stellar_send::{
    Config, PaymentRecord, StellarSendContract, StellarSendError, fee_leg, fits_i128, net_leg,
    split_fee_spec,
};

verus! {

/// One leg of a batch: the record to store under `(from, seq)` and the
/// transfers that carry it out, fee first.
#[derive(Clone, Debug, PartialEq)]
pub struct BatchLeg {
    pub seq: u64,
    pub record: PaymentRecord,
    /// The fee to the fee collector, when the fee is positive.
    pub fee_transfer: Option<TokenTransfer>,
    /// The net amount to the recipient.
    pub net_transfer: TokenTransfer,
}

/// An accepted batch: one leg per payment, in input order, and the totals.
/// The sender's payment counter ends at the last leg's `seq`.
#[derive(Clone, Debug, PartialEq)]
pub struct BatchPayment {
    pub legs: Vec<BatchLeg>,
    pub total_net: i128,
    pub total_fee: i128,
}

/// The refusal of a single leg, if any.
pub open spec fn leg_error(leg: (AccountId, i128), from: Seq<char>) -> Option<StellarSendError> {
    if leg.1 <= 0 {
        Some(StellarSendError::InvalidAmount)
    } else if leg.0@ == from {
        Some(StellarSendError::SelfPaymentNotAllowed)
    } else {
        None
    }
}

/// The refusal of the first invalid leg, if any.
pub open spec fn first_leg_error(legs: Seq<(AccountId, i128)>, from: Seq<char>) -> Option<
    StellarSendError,
>
    decreases legs.len(),
{
    if legs.len() == 0 {
        None
    } else {
        match first_leg_error(legs.drop_last(), from) {
            Some(e) => Some(e),
            None => leg_error(legs.last(), from),
        }
    }
}

/// The running `(net, fee)` totals over the legs, in order; `None` as soon as
/// a split or a running total leaves the `i128` range.
pub open spec fn batch_totals(legs: Seq<(AccountId, i128)>, fee_bps: u32) -> Option<(int, int)>
    decreases legs.len(),
{
    if legs.len() == 0 {
        Some((0, 0))
    } else {
        match batch_totals(legs.drop_last(), fee_bps) {
            None => None,
            Some((net, fee)) => match split_fee_spec(legs.last().1, fee_bps) {
                None => None,
                Some((f, n)) => if fits_i128(net + n) && fits_i128(fee + f) {
                    Some((net + n, fee + f))
                } else {
                    None
                },
            },
        }
    }
}

/// The sum of the legs' amounts.
pub open spec fn sum_amounts(legs: Seq<(AccountId, i128)>) -> int
    decreases legs.len(),
{
    if legs.len() == 0 {
        0
    } else {
        sum_amounts(legs.drop_last()) + legs.last().1
    }
}

/// Why a batch is refused, if it is, in the order the checks are made.
pub open spec fn batch_error(
    config: Option<Config>,
    from: Seq<char>,
    payments: Seq<(AccountId, i128)>,
) -> Option<StellarSendError> {
    if payments.len() == 0 {
        Some(StellarSendError::EmptyBatch)
    } else if config is None {
        Some(StellarSendError::NotInitialized)
    } else if first_leg_error(payments, from) is Some {
        first_leg_error(payments, from)
    } else if batch_totals(payments, config->0.fee_bps) is None {
        Some(StellarSendError::ArithmeticOverflow)
    } else {
        None
    }
}

/// `leg` carries out `payment` from `from` in `token` under `config`, as
/// the sender's payment number `seq`, at ledger `ledger`.
pub open spec fn leg_is(
    leg: BatchLeg,
    from: AccountId,
    token: AccountId,
    payment: (AccountId, i128),
    config: Config,
    seq: u64,
    ledger: u32,
) -> bool {
    let (fee, net) = split_fee_spec(payment.1, config.fee_bps)->0;
    &&& leg.seq == seq
    &&& leg.record.from == from
    &&& leg.record.to == payment.0
    &&& leg.record.token == token
    &&& leg.record.fee_amount == fee
    &&& leg.record.net_amount == net
    &&& leg.record.memo@ == "batch_payment"@
    &&& leg.record.ledger == ledger
    &&& leg.fee_transfer == fee_leg(token, from, config.fee_collector, fee, false)
    &&& leg.net_transfer == net_leg(token, from, payment.0, net, false)
}

/// A batch's legs are all valid exactly when every amount is positive and
/// no recipient is the sender.
pub proof fn lemma_first_leg_error_none(legs: Seq<(AccountId, i128)>, from: Seq<char>)
    ensures
        first_leg_error(legs, from) is None <==> forall|i: int|
            0 <= i < legs.len() ==> #[trigger] legs[i].1 > 0 && legs[i].0@ != from,
    decreases legs.len(),
{
    if legs.len() > 0 {
        let rest = legs.drop_last();
        lemma_first_leg_error_none(rest, from);
        if first_leg_error(legs, from) is None {
            assert forall|i: int| 0 <= i < legs.len() implies #[trigger] legs[i].1 > 0 && legs[i].0@
                != from by {
                if i < legs.len() - 1 {
                    assert(rest[i] == legs[i]);
                }
            }
        } else {
            if first_leg_error(rest, from) is Some {
                let i = choose|i: int| 0 <= i < rest.len() && !(#[trigger] rest[i].1 > 0 && rest[i].0@ != from);
                assert(rest[i] == legs[i]);
            } else {
                let i = legs.len() - 1;
                assert(legs[i] == legs.last());
            }
        }
    }
}

/// Every leg of a batch whose totals fit has a fee split that fits.
proof fn lemma_batch_totals_some_split(legs: Seq<(AccountId, i128)>, fee_bps: u32, i: int)
    requires
        0 <= i < legs.len(),
        batch_totals(legs, fee_bps) is Some,
    ensures
        split_fee_spec(legs[i].1, fee_bps) is Some,
    decreases legs.len(),
{
    if i < legs.len() - 1 {
        assert(legs.drop_last()[i] == legs[i]);
        lemma_batch_totals_some_split(legs.drop_last(), fee_bps, i);
    }
}

/// A refusal found among the first `k` legs is the refusal of the batch.
proof fn lemma_first_leg_error_prefix(legs: Seq<(AccountId, i128)>, from: Seq<char>, k: int)
    requires
        0 <= k <= legs.len(),
        first_leg_error(legs.take(k), from) is Some,
    ensures
        first_leg_error(legs, from) == first_leg_error(legs.take(k), from),
    decreases legs.len() - k,
{
    if k < legs.len() {
        assert(legs.take(k + 1).drop_last() =~= legs.take(k));
        lemma_first_leg_error_prefix(legs, from, k + 1);
    } else {
        assert(legs.take(k) =~= legs);
    }
}

/// An overflow among the first `k` legs is an overflow of the batch.
proof fn lemma_batch_totals_prefix(legs: Seq<(AccountId, i128)>, fee_bps: u32, k: int)
    requires
        0 <= k <= legs.len(),
        batch_totals(legs.take(k), fee_bps) is None,
    ensures
        batch_totals(legs, fee_bps) is None,
    decreases legs.len() - k,
{
    if k < legs.len() {
        assert(legs.take(k + 1).drop_last() =~= legs.take(k));
        lemma_batch_totals_prefix(legs, fee_bps, k + 1);
    } else {
        assert(legs.take(k) =~= legs);
    }
}

/// A batch conserves value: whenever it goes through, the net amounts and
/// the fees together add up to exactly the amounts the sender pays.
pub proof fn lemma_batch_conserves(legs: Seq<(AccountId, i128)>, fee_bps: u32)
    ensures
        batch_totals(legs, fee_bps) matches Some((net, fee)) ==> net + fee == sum_amounts(legs),
    decreases legs.len(),
{
    if legs.len() > 0 {
        lemma_batch_conserves(legs.drop_last(), fee_bps);
    }
}

impl StellarSendContract {
    /// Plan a batch payment of `token` from `from` (who has authorised the
    /// call) to every `(recipient, amount)` in `payments`, deducting the
    /// protocol fee from each leg. `stored_config` is the contract's stored
    /// configuration, `stored_seq` the sender's payment counter and `ledger`
    /// the current ledger sequence number.
    pub fn send_batch_payment(
        stored_config: Option<Config>,
        from: AccountId,
        token: AccountId,
        payments: &Vec<(AccountId, i128)>,
        stored_seq: Option<u64>,
        ledger: u32,
    ) -> (r: Result<BatchPayment, StellarSendError>)
        ensures
            match batch_error(stored_config, from@, payments@) {
                Some(e) => r == Err::<BatchPayment, StellarSendError>(e),
                None => r matches Ok(b) && {
                    let config = stored_config->0;
                    &&& b.legs.len() == payments.len()
                    &&& forall|i: int|
                        0 <= i < payments.len() ==> leg_is(
                            #[trigger] b.legs@[i],
                            from,
                            token,
                            payments@[i],
                            config,
                            nth_successor(counter_value(stored_seq), (i + 1) as nat),
                            ledger,
                        )
                    &&& batch_totals(payments@, config.fee_bps) == Some(
                        (b.total_net as int, b.total_fee as int),
                    )
                },
            },
            payments.len() == 0 ==> r == Err::<BatchPayment, StellarSendError>(
                StellarSendError::EmptyBatch,
            ),
            (exists|i: int|
                0 <= i < payments.len() && (#[trigger] payments@[i].1 <= 0 || payments@[i].0@
                    == from@)) ==> r is Err,
            r is Ok ==> {
                let b = r->Ok_0;
                &&& stored_config is Some
                &&& b.legs.len() == payments.len()
                &&& b.total_net + b.total_fee == sum_amounts(payments@)
                &&& forall|i: int|
                    0 <= i < payments.len() ==> {
                        let leg = #[trigger] b.legs@[i];
                        &&& payments@[i].1 > 0
                        &&& payments@[i].0@ != from@
                        &&& leg.record.from == from
                        &&& leg.record.to == payments@[i].0
                        &&& leg.record.token == token
                        &&& leg.record.fee_amount + leg.record.net_amount == payments@[i].1
                        &&& leg.net_transfer.token == token
                        &&& leg.net_transfer.from == Party::Account(from)
                        &&& leg.net_transfer.to == Party::Account(payments@[i].0)
                        &&& leg.net_transfer.amount == leg.record.net_amount
                        &&& (leg.record.fee_amount > 0 <==> leg.fee_transfer is Some)
                    }
            },
    {
        if payments.len() == 0 {
            return Err(StellarSendError::EmptyBatch);
        }
        let config = Self::load_config(stored_config)?;
        let n = payments.len();

        // Validate every leg before building anything.
        let mut i: usize = 0;
        while i < n
            invariant
                n == payments.len(),
                0 <= i <= n,
                first_leg_error(payments@.take(i as int), from@) is None,
                stored_config is Some,
            decreases n - i,
        {
            assert(payments@.take(i + 1).drop_last() =~= payments@.take(i as int));
            assert(payments@.take(i + 1).last() == payments@[i as int]);
            let amount = payments[i].1;
            if amount <= 0 {
                proof {
                    lemma_first_leg_error_prefix(payments@, from@, i + 1);
                }
                return Err(StellarSendError::InvalidAmount);
            }
            if payments[i].0 == from {
                proof {
                    lemma_first_leg_error_prefix(payments@, from@, i + 1);
                }
                return Err(StellarSendError::SelfPaymentNotAllowed);
            }
            i = i + 1;
        }
        assert(payments@.take(n as int) =~= payments@);

        let mut legs: Vec<BatchLeg> = Vec::new();
        let mut total_net: i128 = 0;
        let mut total_fee: i128 = 0;
        let mut seq: u64 = match stored_seq {
            Some(s) => s,
            None => 0,
        };
        let ghost seq0 = counter_value(stored_seq);
        proof {
            assert(nth_successor(seq0, 0) == seq0) by {
                assert(seq0 + 0 < 0x1_0000_0000_0000_0000);
            }
            assert(payments@.take(0) =~= Seq::<(AccountId, i128)>::empty());
        }
        let mut i: usize = 0;
        while i < n
            invariant
                n == payments.len(),
                0 <= i <= n,
                stored_config == Some(config),
                first_leg_error(payments@, from@) is None,
                legs.len() == i,
                seq == nth_successor(seq0, i as nat),
                seq0 == counter_value(stored_seq),
                batch_totals(payments@.take(i as int), config.fee_bps) == Some(
                    (total_net as int, total_fee as int),
                ),
                forall|j: int|
                    0 <= j < i ==> leg_is(
                        #[trigger] legs@[j],
                        from,
                        token,
                        payments@[j],
                        config,
                        nth_successor(seq0, (j + 1) as nat),
                        ledger,
                    ),
            decreases n - i,
        {
            assert(payments@.take(i + 1).drop_last() =~= payments@.take(i as int));
            assert(payments@.take(i + 1).last() == payments@[i as int]);
            let amount = payments[i].1;
            let (fee_amount, net_amount) = match Self::split_fee(amount, config.fee_bps) {
                Ok(p) => p,
                Err(e) => {
                    proof {
                        assert(batch_totals(payments@.take(i + 1), config.fee_bps) is None);
                        lemma_batch_totals_prefix(payments@, config.fee_bps, i + 1);
                    }
                    return Err(e);
                },
            };
            proof {
                lemma_nth_successor_step(seq0, i as nat);
            }
            seq = Self::next_seq(Some(seq));
            let new_net = match total_net.checked_add(net_amount) {
                Some(t) => t,
                None => {
                    proof {
                        assert(batch_totals(payments@.take(i + 1), config.fee_bps) is None);
                        lemma_batch_totals_prefix(payments@, config.fee_bps, i + 1);
                    }
                    return Err(StellarSendError::ArithmeticOverflow);
                },
            };
            let new_fee = match total_fee.checked_add(fee_amount) {
                Some(t) => t,
                None => {
                    proof {
                        assert(batch_totals(payments@.take(i + 1), config.fee_bps) is None);
                        lemma_batch_totals_prefix(payments@, config.fee_bps, i + 1);
                    }
                    return Err(StellarSendError::ArithmeticOverflow);
                },
            };
            total_net = new_net;
            total_fee = new_fee;
            let recipient = payments[i].0.clone();
            let record = PaymentRecord {
                from: from.clone(),
                to: recipient.clone(),
                token: token.clone(),
                net_amount,
                fee_amount,
                memo: "batch_payment".to_owned(),
                ledger,
            };
            let (fee_transfer, net_transfer) = Self::payment_transfers(
                &token,
                &from,
                &recipient,
                &config.fee_collector,
                fee_amount,
                net_amount,
                false,
            );
            legs.push(BatchLeg { seq, record, fee_transfer, net_transfer });
            i = i + 1;
        }
        assert(payments@.take(n as int) =~= payments@);
        proof {
            lemma_batch_conserves(payments@, config.fee_bps);
            lemma_first_leg_error_none(payments@, from@);
            assert forall|i: int| 0 <= i < payments.len() implies {
                let leg = #[trigger] legs@[i];
                &&& payments@[i].1 > 0
                &&& payments@[i].0@ != from@
                &&& leg.record.from == from
                &&& leg.record.to == payments@[i].0
                &&& leg.record.token == token
                &&& leg.record.fee_amount + leg.record.net_amount == payments@[i].1
                &&& leg.net_transfer.token == token
                &&& leg.net_transfer.from == Party::Account(from)
                &&& leg.net_transfer.to == Party::Account(payments@[i].0)
                &&& leg.net_transfer.amount == leg.record.net_amount
                &&& (leg.record.fee_amount > 0 <==> leg.fee_transfer is Some)
            } by {
                assert(leg_is(
                    legs@[i],
                    from,
                    token,
                    payments@[i],
                    config,
                    nth_successor(seq0, (i + 1) as nat),
                    ledger,
                ));
                assert(payments@[i].1 > 0 && payments@[i].0@ != from@);
                assert(split_fee_spec(payments@[i].1, config.fee_bps) is Some) by {
                    lemma_batch_totals_some_split(payments@, config.fee_bps, i);
                }
            }
        }
        Ok(BatchPayment { legs, total_net, total_fee })
    }
}

} // verus!
