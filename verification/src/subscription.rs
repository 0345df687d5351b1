//! Scheduled and recurring payments ("subscriptions").
//!
//! A payer describes a recipient, token, amount and interval. Execution is
//! pull-based: anyone may trigger a due execution, and the contract moves the
//! funds as a spender out of the allowance the payer granted it.
//!
//! Two optional bounds stop a forgotten subscription from charging forever:
//! `max_executions` deactivates the subscription on the execution that
//! reaches it, and `expiry_time` refuses every execution after it without
//! deactivating anything. Each execution advances the schedule by exactly one
//! interval, so a late execution never drifts the cadence; missed intervals
//! can be caught up one execution at a time, within those bounds.

use vstd::prelude::*;
use crate::common::{AccountId, Party, TokenTransfer, counter_value, successor};
use crate::stellar_send::{
    Config, StellarSendContract, StellarSendError, fee_leg, net_leg, split_fee_spec,
};

verus! {

/// A recurring payment authorised by `payer`.
#[derive(Clone, Debug, PartialEq)]
pub struct Subscription {
    pub payer: AccountId,
    pub recipient: AccountId,
    pub token: AccountId,
    /// Gross amount moved on every execution (the fee is deducted from it).
    pub amount: i128,
    /// Number of seconds between two consecutive scheduled executions.
    pub interval_seconds: u64,
    /// Ledger timestamp at which the subscription may next run.
    pub next_execution_time: u64,
    /// False once cancelled, or once `max_executions` has been reached.
    pub active: bool,
    /// Ceiling on total lifetime executions, or `None` for unbounded.
    pub max_executions: Option<u32>,
    /// Ledger timestamp past which no execution runs, or `None`.
    pub expiry_time: Option<u64>,
    /// Number of successful executions so far.
    pub executions_count: u32,
}

/// A newly created subscription and its id (also the id counter's new value).
#[derive(Clone, Debug, PartialEq)]
pub struct NewSubscription {
    pub id: u64,
    pub subscription: Subscription,
}

/// A due execution: the subscription to store once the transfers are made
/// (schedule advanced, execution counted), the amounts, and the transfers the
/// contract makes out of the payer's allowance, fee first.
#[derive(Clone, Debug, PartialEq)]
pub struct SubscriptionCharge {
    pub subscription: Subscription,
    pub net_amount: i128,
    pub fee_amount: i128,
    pub fee_transfer: Option<TokenTransfer>,
    pub net_transfer: TokenTransfer,
}

/// Why `create_subscription` refuses, if it does.
pub open spec fn create_subscription_error(
    payer: Seq<char>,
    recipient: Seq<char>,
    amount: i128,
    interval_seconds: u64,
    start_time: u64,
    max_executions: Option<u32>,
    expiry_time: Option<u64>,
) -> Option<StellarSendError> {
    if amount <= 0 {
        Some(StellarSendError::InvalidAmount)
    } else if interval_seconds == 0 {
        Some(StellarSendError::InvalidInterval)
    } else if payer == recipient {
        Some(StellarSendError::SelfPaymentNotAllowed)
    } else if max_executions == Some(0u32) {
        Some(StellarSendError::InvalidMaxExecutions)
    } else if expiry_time matches Some(e) && e <= start_time {
        Some(StellarSendError::InvalidExpiry)
    } else {
        None
    }
}

/// Why executing a stored subscription at `now` refuses, if it does.
pub open spec fn execute_error(sub: Subscription, config: Option<Config>, now: u64) -> Option<
    StellarSendError,
> {
    if !sub.active {
        Some(StellarSendError::SubscriptionInactive)
    } else if now < sub.next_execution_time {
        Some(StellarSendError::SubscriptionNotDue)
    } else if sub.expiry_time matches Some(e) && now > e {
        Some(StellarSendError::SubscriptionExpired)
    } else if config is None {
        Some(StellarSendError::NotInitialized)
    } else if split_fee_spec(sub.amount, config->0.fee_bps) is None {
        Some(StellarSendError::ArithmeticOverflow)
    } else if record_overflows(sub) {
        Some(StellarSendError::ArithmeticOverflow)
    } else {
        None
    }
}

/// The charge of a due execution under `config`, with the subscription as it
/// is stored afterwards.
pub open spec fn charge_of(sub: Subscription, config: Config) -> SubscriptionCharge {
    let (fee, net) = split_fee_spec(sub.amount, config.fee_bps)->0;
    SubscriptionCharge {
        subscription: recorded(sub),
        net_amount: net,
        fee_amount: fee,
        fee_transfer: fee_leg(sub.token, sub.payer, config.fee_collector, fee, true),
        net_transfer: net_leg(sub.token, sub.payer, sub.recipient, net, true),
    }
}

/// Whether recording one more execution would overflow the schedule or the
/// execution count.
pub open spec fn record_overflows(sub: Subscription) -> bool {
    sub.next_execution_time + sub.interval_seconds > u64::MAX || sub.executions_count + 1
        > u32::MAX
}

/// The subscription after one more execution: the schedule advanced by
/// exactly one interval, one more execution counted, and deactivated on
/// reaching `max_executions`.
pub open spec fn recorded(sub: Subscription) -> Subscription {
    let count = (sub.executions_count + 1) as u32;
    Subscription {
        next_execution_time: (sub.next_execution_time + sub.interval_seconds) as u64,
        executions_count: count,
        active: sub.active && !(sub.max_executions matches Some(m) && count >= m),
        ..sub
    }
}

/// The execution cap holds: a capped subscription has never run more often
/// than its cap, and one that is still active has runs left.
pub open spec fn within_cap(sub: Subscription) -> bool {
    match sub.max_executions {
        Some(m) => sub.executions_count <= m && (sub.active ==> sub.executions_count < m),
        None => true,
    }
}

/// A due execution goes through: an active subscription whose next time has
/// come, that is not past its expiry (executing exactly at the expiry time is
/// allowed), under a configuration whose fee split fits and with room left in
/// the schedule and the count, is executed.
pub proof fn lemma_due_subscription_executes(sub: Subscription, config: Config, now: u64)
    requires
        sub.active,
        sub.next_execution_time <= now,
        !(sub.expiry_time matches Some(e) && now > e),
        split_fee_spec(sub.amount, config.fee_bps) is Some,
        sub.next_execution_time + sub.interval_seconds <= u64::MAX,
        sub.executions_count < u32::MAX,
    ensures
        execute_error(sub, Some(config), now) is None,
{
}

/// Each refusal of an execution has its own cause: `SubscriptionInactive`
/// only for an inactive subscription, `SubscriptionNotDue` only before the
/// next execution time, `SubscriptionExpired` only strictly after the expiry.
pub proof fn lemma_execution_refusal_causes(sub: Subscription, config: Option<Config>, now: u64)
    ensures
        execute_error(sub, config, now) == Some(StellarSendError::SubscriptionInactive) ==> !sub.active,
        execute_error(sub, config, now) == Some(StellarSendError::SubscriptionNotDue) ==> now
            < sub.next_execution_time,
        execute_error(sub, config, now) == Some(StellarSendError::SubscriptionExpired) ==> (
        sub.expiry_time matches Some(e) && now > e),
        sub.active && now >= sub.next_execution_time && (sub.expiry_time matches Some(e) && now
            > e) ==> execute_error(sub, config, now) == Some(StellarSendError::SubscriptionExpired),
{
}

/// An execution advances the schedule by exactly one interval from the
/// scheduled time (never from the execution time), counts one more
/// execution, deactivates exactly when the count reaches the cap, and keeps
/// everything else.
pub proof fn lemma_execution_advances_schedule(sub: Subscription)
    requires
        sub.next_execution_time + sub.interval_seconds <= u64::MAX,
        sub.executions_count < u32::MAX,
    ensures
        ({
            let n = recorded(sub);
            &&& n.next_execution_time == sub.next_execution_time + sub.interval_seconds
            &&& n.executions_count == sub.executions_count + 1
            &&& n.active == (sub.active && !(sub.max_executions matches Some(m)
                && sub.executions_count + 1 >= m))
            &&& n.payer == sub.payer
            &&& n.recipient == sub.recipient
            &&& n.token == sub.token
            &&& n.amount == sub.amount
            &&& n.interval_seconds == sub.interval_seconds
            &&& n.max_executions == sub.max_executions
            &&& n.expiry_time == sub.expiry_time
        }),
{
}

/// Creating a subscription: accepted exactly when the amount and interval
/// are positive, payer and recipient differ, the cap (if any) is positive and
/// the expiry (if any) lies strictly after the start time; the stored
/// subscription is active, starts at `start_time` with no executions, and
/// holds exactly the given fields.
pub proof fn lemma_create_subscription_rules(
    payer: AccountId,
    recipient: AccountId,
    token: AccountId,
    amount: i128,
    interval_seconds: u64,
    start_time: u64,
    max_executions: Option<u32>,
    expiry_time: Option<u64>,
)
    ensures
        create_subscription_error(
            payer@,
            recipient@,
            amount,
            interval_seconds,
            start_time,
            max_executions,
            expiry_time,
        ) is None <==> amount > 0 && interval_seconds > 0 && payer@ != recipient@ && max_executions
            != Some(0u32) && !(expiry_time matches Some(e) && e <= start_time),
        ({
            let n = created_subscription(
                payer,
                recipient,
                token,
                amount,
                interval_seconds,
                start_time,
                max_executions,
                expiry_time,
            );
            &&& n.payer == payer
            &&& n.recipient == recipient
            &&& n.token == token
            &&& n.amount == amount
            &&& n.interval_seconds == interval_seconds
            &&& n.next_execution_time == start_time
            &&& n.active
            &&& n.max_executions == max_executions
            &&& n.expiry_time == expiry_time
            &&& n.executions_count == 0
        }),
{
}

/// Every subscription starts within its cap, and neither executing nor
/// cancelling can take it past: a subscription never runs more often than
/// `max_executions`.
pub proof fn lemma_cap_is_invariant(sub: Subscription, config: Option<Config>, now: u64)
    ensures
        within_cap(sub) && execute_error(sub, config, now) is None ==> within_cap(recorded(sub)),
        within_cap(sub) ==> within_cap(Subscription { active: false, ..sub }),
{
}

/// A new subscription is within its cap.
pub proof fn lemma_new_subscription_within_cap(
    payer: AccountId,
    recipient: AccountId,
    token: AccountId,
    amount: i128,
    interval_seconds: u64,
    start_time: u64,
    max_executions: Option<u32>,
    expiry_time: Option<u64>,
)
    requires
        create_subscription_error(
            payer@,
            recipient@,
            amount,
            interval_seconds,
            start_time,
            max_executions,
            expiry_time,
        ) is None,
    ensures
        within_cap(
            created_subscription(
                payer,
                recipient,
                token,
                amount,
                interval_seconds,
                start_time,
                max_executions,
                expiry_time,
            ),
        ),
{
}

/// No double charge within an interval: right after an execution, the next
/// one is refused until the schedule's next time is reached (or, if the cap
/// was reached, for good).
pub proof fn lemma_one_charge_per_interval(sub: Subscription, config: Option<Config>, now: u64)
    requires
        now < sub.next_execution_time + sub.interval_seconds,
        !record_overflows(sub),
    ensures
        execute_error(recorded(sub), config, now) is Some,
{
}

/// Deactivation is final: an inactive subscription refuses every execution,
/// and executing never turns an inactive subscription back on.
pub proof fn lemma_inactive_is_final(sub: Subscription, config: Option<Config>, now: u64)
    requires
        !sub.active,
    ensures
        execute_error(sub, config, now) == Some(StellarSendError::SubscriptionInactive),
        !recorded(sub).active,
{
}


/// The subscription, and how many executions succeeded, after an execution
/// is attempted for each `(now, stored configuration)` in `calls`, in order.
/// A successful execution stores the recorded subscription; a refused one
/// changes nothing.
pub open spec fn run_executions(sub: Subscription, calls: Seq<(u64, Option<Config>)>) -> (
    Subscription,
    nat,
)
    decreases calls.len(),
{
    if calls.len() == 0 {
        (sub, 0)
    } else {
        let (s, k) = run_executions(sub, calls.drop_last());
        if execute_error(s, calls.last().1, calls.last().0) is None {
            (recorded(s), k + 1)
        } else {
            (s, k)
        }
    }
}

/// Over any sequence of execution attempts, a subscription within its cap
/// counts every success, keeps its cap, and stays within it.
proof fn lemma_run_within_cap(sub: Subscription, calls: Seq<(u64, Option<Config>)>)
    requires
        within_cap(sub),
    ensures
        ({
            let (s, k) = run_executions(sub, calls);
            &&& within_cap(s)
            &&& s.executions_count == sub.executions_count + k
            &&& s.max_executions == sub.max_executions
        }),
    decreases calls.len(),
{
    if calls.len() > 0 {
        lemma_run_within_cap(sub, calls.drop_last());
    }
}

/// The execution cap over any sequence of calls: a new subscription capped at
/// `m` succeeds at most `m` times, whatever the times and configurations of
/// the attempts, its count always equals its successes, and once it has
/// succeeded `m` times it is inactive and refuses every further execution
/// with `SubscriptionInactive`.
pub proof fn lemma_execution_cap_over_any_calls(
    payer: AccountId,
    recipient: AccountId,
    token: AccountId,
    amount: i128,
    interval_seconds: u64,
    start_time: u64,
    m: u32,
    expiry_time: Option<u64>,
    calls: Seq<(u64, Option<Config>)>,
)
    requires
        create_subscription_error(
            payer@,
            recipient@,
            amount,
            interval_seconds,
            start_time,
            Some(m),
            expiry_time,
        ) is None,
    ensures
        ({
            let sub = created_subscription(
                payer,
                recipient,
                token,
                amount,
                interval_seconds,
                start_time,
                Some(m),
                expiry_time,
            );
            let (s, k) = run_executions(sub, calls);
            &&& k <= m
            &&& s.executions_count == k
            &&& k == m ==> !s.active && forall|now: u64, config: Option<Config>|
                #[trigger] execute_error(s, config, now) == Some(
                    StellarSendError::SubscriptionInactive,
                )
        }),
{
    let sub = created_subscription(
        payer,
        recipient,
        token,
        amount,
        interval_seconds,
        start_time,
        Some(m),
        expiry_time,
    );
    lemma_run_within_cap(sub, calls);
}

/// `n` execution attempts, all at ledger time `now` under `config`.
pub open spec fn attempts_at(now: u64, config: Config, n: nat) -> Seq<(u64, Option<Config>)> {
    Seq::new(n, |j: int| (now, Some(config)))
}

/// The number of executions due by `now` for a schedule starting at
/// `start_time` with the given interval.
pub open spec fn due_count(start_time: u64, interval_seconds: u64, now: u64) -> int {
    (now - start_time) / (interval_seconds as int) + 1
}

/// After `j` back-to-back successful catch-up executions the schedule has
/// moved `j` intervals and counted `j` executions.
proof fn lemma_catch_up_prefix(sub: Subscription, config: Config, now: u64, j: nat)
    requires
        sub.active,
        sub.executions_count == 0,
        sub.max_executions is None,
        sub.expiry_time is None,
        sub.interval_seconds > 0,
        now >= sub.next_execution_time,
        split_fee_spec(sub.amount, config.fee_bps) is Some,
        j <= due_count(sub.next_execution_time, sub.interval_seconds, now),
        sub.next_execution_time + due_count(sub.next_execution_time, sub.interval_seconds, now)
            * sub.interval_seconds <= u64::MAX,
        due_count(sub.next_execution_time, sub.interval_seconds, now) <= u32::MAX,
    ensures
        run_executions(sub, attempts_at(now, config, j)) == (
            Subscription {
                next_execution_time: (sub.next_execution_time + j * sub.interval_seconds) as u64,
                executions_count: j as u32,
                ..sub
            },
            j,
        ),
    decreases j,
{
    let t0 = sub.next_execution_time as int;
    let i = sub.interval_seconds as int;
    let k = due_count(sub.next_execution_time, sub.interval_seconds, now);
    if j > 0 {
        let p = (j - 1) as nat;
        lemma_catch_up_prefix(sub, config, now, p);
        assert(attempts_at(now, config, j).drop_last() =~= attempts_at(now, config, p));
        assert(attempts_at(now, config, j).last() == (now, Some(config)));
        let q = (now - t0) / i;
        assert(q * i <= now - t0) by (nonlinear_arith)
            requires i > 0, now - t0 >= 0, q == (now - t0) / i;
        assert(p * i <= q * i) by (nonlinear_arith)
            requires p <= q, i > 0;
        assert(j * i <= k * i) by (nonlinear_arith)
            requires j <= k, i > 0;
        assert(j * i == p * i + i) by (nonlinear_arith)
            requires j == p + 1;
        assert(j * i >= 0) by (nonlinear_arith)
            requires j >= 0, i > 0;
        let prev = Subscription {
            next_execution_time: (t0 + p * i) as u64,
            executions_count: p as u32,
            ..sub
        };
        assert(run_executions(sub, attempts_at(now, config, p)) == (prev, p));
        assert(prev.next_execution_time == t0 + p * i);
        assert(!record_overflows(prev));
        assert(execute_error(prev, Some(config), now) is None);
        assert(recorded(prev) == Subscription {
            next_execution_time: (t0 + j * i) as u64,
            executions_count: j as u32,
            ..sub
        });
        let calls = attempts_at(now, config, j);
        assert(calls.len() > 0);
        assert(run_executions(sub, calls) == (recorded(prev), j));
    } else {
        assert(attempts_at(now, config, 0) =~= Seq::<(u64, Option<Config>)>::empty());
        assert(j * i == 0) by (nonlinear_arith)
            requires j == 0;
        assert(sub == Subscription {
            next_execution_time: (t0 + j * i) as u64,
            executions_count: j as u32,
            ..sub
        });
    }
}

/// Catch-up bursts are bounded by the schedule: with the ledger time fixed at
/// `now`, an unbounded subscription starting at `start_time` can be executed
/// back to back exactly `(now - start_time) / interval + 1` times, each one a
/// full payment; the schedule then stands that many intervals after
/// `start_time`, and the next attempt is refused as not due.
pub proof fn lemma_catch_up_burst(
    payer: AccountId,
    recipient: AccountId,
    token: AccountId,
    amount: i128,
    interval_seconds: u64,
    start_time: u64,
    config: Config,
    now: u64,
)
    requires
        create_subscription_error(
            payer@,
            recipient@,
            amount,
            interval_seconds,
            start_time,
            None,
            None,
        ) is None,
        now >= start_time,
        split_fee_spec(amount, config.fee_bps) is Some,
        start_time + due_count(start_time, interval_seconds, now) * interval_seconds <= u64::MAX,
        due_count(start_time, interval_seconds, now) <= u32::MAX,
    ensures
        ({
            let sub = created_subscription(
                payer,
                recipient,
                token,
                amount,
                interval_seconds,
                start_time,
                None,
                None,
            );
            let k = due_count(start_time, interval_seconds, now) as nat;
            let (s, ok) = run_executions(sub, attempts_at(now, config, k));
            &&& ok == k
            &&& s.next_execution_time == start_time + k * interval_seconds
            &&& s.executions_count == k
            &&& execute_error(s, Some(config), now) == Some(StellarSendError::SubscriptionNotDue)
            &&& run_executions(sub, attempts_at(now, config, k + 1)) == (s, k)
        }),
{
    let sub = created_subscription(
        payer,
        recipient,
        token,
        amount,
        interval_seconds,
        start_time,
        None,
        None,
    );
    let k = due_count(start_time, interval_seconds, now) as nat;
    let t0 = start_time as int;
    let i = interval_seconds as int;
    assert(k >= 1) by (nonlinear_arith)
        requires k == (now - t0) / i + 1, now - t0 >= 0, i > 0;
    lemma_catch_up_prefix(sub, config, now, k);
    let q = (now - t0) / i;
    assert(now - t0 < (q + 1) * i) by (nonlinear_arith)
        requires i > 0, now - t0 >= 0, q == (now - t0) / i;
    assert(attempts_at(now, config, k + 1).drop_last() =~= attempts_at(now, config, k));
    assert(attempts_at(now, config, k + 1).last() == (now, Some(config)));
}

/// The subscription a successful creation stores.
pub open spec fn created_subscription(
    payer: AccountId,
    recipient: AccountId,
    token: AccountId,
    amount: i128,
    interval_seconds: u64,
    start_time: u64,
    max_executions: Option<u32>,
    expiry_time: Option<u64>,
) -> Subscription {
    Subscription {
        payer: payer,
        recipient: recipient,
        token: token,
        amount: amount,
        interval_seconds: interval_seconds,
        next_execution_time: start_time,
        active: true,
        max_executions: max_executions,
        expiry_time: expiry_time,
        executions_count: 0,
    }
}

impl StellarSendContract {
    /// Create a recurring payment from `payer` (who has authorised the call)
    /// to `recipient`. `start_time` is the first allowed execution time.
    /// `max_executions`, when set, must be positive; `expiry_time`, when set,
    /// must lie strictly after `start_time`.
    pub fn create_subscription(
        payer: AccountId,
        recipient: AccountId,
        token: AccountId,
        amount: i128,
        interval_seconds: u64,
        start_time: u64,
        max_executions: Option<u32>,
        expiry_time: Option<u64>,
        stored_seq: Option<u64>,
    ) -> (r: Result<NewSubscription, StellarSendError>)
        ensures
            match create_subscription_error(
                payer@,
                recipient@,
                amount,
                interval_seconds,
                start_time,
                max_executions,
                expiry_time,
            ) {
                Some(e) => r == Err::<NewSubscription, StellarSendError>(e),
                None => r == Ok::<NewSubscription, StellarSendError>(NewSubscription {
                    id: successor(counter_value(stored_seq)),
                    subscription: created_subscription(
                        payer,
                        recipient,
                        token,
                        amount,
                        interval_seconds,
                        start_time,
                        max_executions,
                        expiry_time,
                    ),
                }),
            },
            r is Ok <==> amount > 0 && interval_seconds > 0 && payer@ != recipient@ && max_executions
                != Some(0u32) && !(expiry_time matches Some(e) && e <= start_time),
            r is Ok ==> {
                let n = r->Ok_0.subscription;
                &&& n.payer == payer
                &&& n.recipient == recipient
                &&& n.token == token
                &&& n.amount == amount
                &&& n.interval_seconds == interval_seconds
                &&& n.next_execution_time == start_time
                &&& n.active
                &&& n.max_executions == max_executions
                &&& n.expiry_time == expiry_time
                &&& n.executions_count == 0
            },
            r is Ok && stored_seq is None ==> r->Ok_0.id == 1,
            r is Ok && stored_seq is Some && stored_seq->0 < u64::MAX ==> r->Ok_0.id == stored_seq->0
                + 1,
    {
        if amount <= 0 {
            return Err(StellarSendError::InvalidAmount);
        }
        if interval_seconds == 0 {
            return Err(StellarSendError::InvalidInterval);
        }
        if payer == recipient {
            return Err(StellarSendError::SelfPaymentNotAllowed);
        }
        if let Some(m) = max_executions {
            if m == 0 {
                return Err(StellarSendError::InvalidMaxExecutions);
            }
        }
        if let Some(expiry) = expiry_time {
            if expiry <= start_time {
                return Err(StellarSendError::InvalidExpiry);
            }
        }
        let id = Self::next_seq(stored_seq);
        let subscription = Subscription {
            payer,
            recipient,
            token,
            amount,
            interval_seconds,
            next_execution_time: start_time,
            active: true,
            max_executions,
            expiry_time,
            executions_count: 0,
        };
        Ok(NewSubscription { id, subscription })
    }

    /// Cancel a loaded subscription on behalf of its payer (who has
    /// authorised the call): only an active subscription can be cancelled.
    pub fn cancel_subscription(sub: Subscription) -> (r: Result<Subscription, StellarSendError>)
        ensures
            sub.active ==> r == Ok::<Subscription, StellarSendError>(
                Subscription { active: false, ..sub },
            ),
            !sub.active ==> r == Err::<Subscription, StellarSendError>(
                StellarSendError::SubscriptionInactive,
            ),
    {
        let mut sub = sub;
        if !sub.active {
            return Err(StellarSendError::SubscriptionInactive);
        }
        sub.active = false;
        Ok(sub)
    }

    /// Execute a stored subscription at ledger time `now`: check that it is
    /// due, work out its charge under the stored configuration and the
    /// subscription to store afterwards. Anyone may trigger this: the funds
    /// come out of the allowance the payer granted.
    pub fn execute_subscription(
        stored: Option<Subscription>,
        stored_config: Option<Config>,
        now: u64,
    ) -> (r: Result<SubscriptionCharge, StellarSendError>)
        ensures
            match stored {
                None => r == Err::<SubscriptionCharge, StellarSendError>(
                    StellarSendError::SubscriptionNotFound,
                ),
                Some(sub) => match execute_error(sub, stored_config, now) {
                    Some(e) => r == Err::<SubscriptionCharge, StellarSendError>(e),
                    None => r == Ok::<SubscriptionCharge, StellarSendError>(
                        charge_of(sub, stored_config->0),
                    ),
                },
            },
            ({
                let sub = stored->0;
                stored is Some && sub.active && sub.next_execution_time <= now && !(
                sub.expiry_time matches Some(e) && now > e) && stored_config is Some
                    && split_fee_spec(sub.amount, stored_config->0.fee_bps) is Some
                    && sub.next_execution_time + sub.interval_seconds <= u64::MAX
                    && sub.executions_count < u32::MAX ==> r is Ok
            }),
            r == Err::<SubscriptionCharge, StellarSendError>(StellarSendError::SubscriptionExpired)
                ==> (stored->0.expiry_time matches Some(e) && now > e),
            r == Err::<SubscriptionCharge, StellarSendError>(StellarSendError::SubscriptionNotDue)
                ==> now < stored->0.next_execution_time,
            r == Err::<SubscriptionCharge, StellarSendError>(StellarSendError::SubscriptionInactive)
                ==> !stored->0.active,
            r is Ok ==> {
                let sub = stored->0;
                let c = r->Ok_0;
                &&& stored is Some
                &&& sub.active
                &&& sub.next_execution_time <= now
                &&& !(sub.expiry_time matches Some(e) && now > e)
                &&& c.subscription.next_execution_time == sub.next_execution_time
                    + sub.interval_seconds
                &&& c.subscription.executions_count == sub.executions_count + 1
                &&& c.subscription.active == !(sub.max_executions matches Some(m)
                    && sub.executions_count + 1 >= m)
                &&& c.subscription.payer == sub.payer
                &&& c.subscription.recipient == sub.recipient
                &&& c.subscription.token == sub.token
                &&& c.subscription.amount == sub.amount
                &&& c.subscription.interval_seconds == sub.interval_seconds
                &&& c.subscription.max_executions == sub.max_executions
                &&& c.subscription.expiry_time == sub.expiry_time
                &&& c.fee_amount + c.net_amount == sub.amount
                &&& c.net_transfer.token == sub.token
                &&& c.net_transfer.from == Party::Account(sub.payer)
                &&& c.net_transfer.to == Party::Account(sub.recipient)
                &&& c.net_transfer.amount == c.net_amount
                &&& c.net_transfer.by_allowance
            },
    {
        let sub = Self::load_subscription(stored)?;
        if !sub.active {
            return Err(StellarSendError::SubscriptionInactive);
        }
        if now < sub.next_execution_time {
            return Err(StellarSendError::SubscriptionNotDue);
        }
        if let Some(expiry) = sub.expiry_time {
            if now > expiry {
                return Err(StellarSendError::SubscriptionExpired);
            }
        }
        let config = Self::load_config(stored_config)?;
        let (fee_amount, net_amount) = Self::split_fee(sub.amount, config.fee_bps)?;
        let (fee_transfer, net_transfer) = Self::payment_transfers(
            &sub.token,
            &sub.payer,
            &sub.recipient,
            &config.fee_collector,
            fee_amount,
            net_amount,
            true,
        );
        let next = Self::record_execution(sub)?;
        Ok(SubscriptionCharge { subscription: next, net_amount, fee_amount, fee_transfer, net_transfer })
    }

    /// Record a completed execution: advance the schedule by exactly one
    /// interval (not to "now + interval", so late executions never drift the
    /// cadence), count it, and deactivate on reaching `max_executions`.
    pub fn record_execution(sub: Subscription) -> (r: Result<Subscription, StellarSendError>)
        ensures
            record_overflows(sub) ==> r == Err::<Subscription, StellarSendError>(
                StellarSendError::ArithmeticOverflow,
            ),
            !record_overflows(sub) ==> r == Ok::<Subscription, StellarSendError>(recorded(sub)),
    {
        let mut sub = sub;
        sub.next_execution_time = match sub.next_execution_time.checked_add(sub.interval_seconds) {
            Some(t) => t,
            None => return Err(StellarSendError::ArithmeticOverflow),
        };
        sub.executions_count = match sub.executions_count.checked_add(1) {
            Some(c) => c,
            None => return Err(StellarSendError::ArithmeticOverflow),
        };
        if let Some(max) = sub.max_executions {
            if sub.executions_count >= max {
                sub.active = false;
            }
        }
        Ok(sub)
    }

    /// Fetch a subscription by id: the stored record, or `SubscriptionNotFound`.
    pub fn get_subscription(stored: Option<Subscription>) -> (r: Result<
        Subscription,
        StellarSendError,
    >)
        ensures
            match stored {
                Some(s) => r == Ok::<Subscription, StellarSendError>(s),
                None => r == Err::<Subscription, StellarSendError>(
                    StellarSendError::SubscriptionNotFound,
                ),
            },
    {
        Self::load_subscription(stored)
    }

    /// The stored subscription, or `SubscriptionNotFound`.
    pub fn load_subscription(stored: Option<Subscription>) -> (r: Result<
        Subscription,
        StellarSendError,
    >)
        ensures
            match stored {
                Some(s) => r == Ok::<Subscription, StellarSendError>(s),
                None => r == Err::<Subscription, StellarSendError>(
                    StellarSendError::SubscriptionNotFound,
                ),
            },
    {
        match stored {
            Some(s) => Ok(s),
            None => Err(StellarSendError::SubscriptionNotFound),
        }
    }
}

} // verus!
