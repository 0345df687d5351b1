use stellar_send::common::{Party, TokenTransfer};
use stellar_send::payment_request::{PaymentRequest, PaymentRequestStatus};
use stellar_send::stellar_send::{Config, StellarSendContract as Send, StellarSendError};
use stellar_send::subscription::Subscription;

fn id(s: &str) -> String {
    s.to_string()
}

fn config(fee_bps: u32) -> Config {
    Config { fee_bps, fee_collector: id("CFEES") }
}

fn pay(token: &str, from: &str, to: &str, amount: i128, by_allowance: bool) -> TokenTransfer {
    TokenTransfer {
        token: id(token),
        from: Party::Account(id(from)),
        to: Party::Account(id(to)),
        amount,
        by_allowance,
    }
}

// ---------------------------------------------------------------------------
// Fee split
// ---------------------------------------------------------------------------

#[test]
fn split_fee_rounds_the_fee_down() {
    assert_eq!(Send::split_fee(1_000, 100), Ok((10, 990)));
    assert_eq!(Send::split_fee(999, 100), Ok((9, 990)));
    assert_eq!(Send::split_fee(1_000, 0), Ok((0, 1_000)));
    assert_eq!(Send::split_fee(1_000, 10_000), Ok((1_000, 0)));
    assert_eq!(Send::split_fee(-999, 100), Ok((-9, -990)));
}

#[test]
fn split_fee_overflow_is_an_error() {
    assert_eq!(Send::split_fee(i128::MAX, 2), Err(StellarSendError::ArithmeticOverflow));
    assert_eq!(Send::split_fee(i128::MAX, 1), Ok((i128::MAX / 10_000, i128::MAX - i128::MAX / 10_000)));
}

#[test]
fn load_config_requires_initialization() {
    assert_eq!(Send::load_config(None), Err(StellarSendError::NotInitialized));
    assert_eq!(Send::load_config(Some(config(5))), Ok(config(5)));
}

// ---------------------------------------------------------------------------
// Batch payments
// ---------------------------------------------------------------------------

#[test]
fn batch_splits_every_leg_in_order() {
    let payments = vec![(id("GBOB"), 1_000), (id("GCAROL"), 50), (id("GDAVE"), 999)];
    let b = Send::send_batch_payment(Some(config(100)), id("GALICE"), id("CTOKEN"), &payments, Some(4), 77)
        .unwrap();
    assert_eq!(b.legs.len(), 3);
    assert_eq!(b.total_net, 990 + 50 + 990);
    assert_eq!(b.total_fee, 10 + 0 + 9);
    assert_eq!(b.total_net + b.total_fee, 1_000 + 50 + 999);
    let seqs: Vec<u64> = b.legs.iter().map(|l| l.seq).collect();
    assert_eq!(seqs, vec![5, 6, 7]);

    let first = &b.legs[0];
    assert_eq!(first.record.from, id("GALICE"));
    assert_eq!(first.record.to, id("GBOB"));
    assert_eq!(first.record.token, id("CTOKEN"));
    assert_eq!(first.record.net_amount, 990);
    assert_eq!(first.record.fee_amount, 10);
    assert_eq!(first.record.memo, "batch_payment");
    assert_eq!(first.record.ledger, 77);
    assert_eq!(first.fee_transfer, Some(pay("CTOKEN", "GALICE", "CFEES", 10, false)));
    assert_eq!(first.net_transfer, pay("CTOKEN", "GALICE", "GBOB", 990, false));

    // A zero fee moves nothing to the collector.
    assert_eq!(b.legs[1].fee_transfer, None);
    assert_eq!(b.legs[1].net_transfer, pay("CTOKEN", "GALICE", "GCAROL", 50, false));
}

#[test]
fn batch_sequence_numbers_start_at_one() {
    let payments = vec![(id("GBOB"), 10)];
    let b = Send::send_batch_payment(Some(config(0)), id("GALICE"), id("CT"), &payments, None, 1).unwrap();
    assert_eq!(b.legs[0].seq, 1);
}

#[test]
fn batch_refusals() {
    let none: Vec<(String, i128)> = vec![];
    assert_eq!(
        Send::send_batch_payment(None, id("GA"), id("CT"), &none, None, 1),
        Err(StellarSendError::EmptyBatch)
    );
    let ok = vec![(id("GB"), 10)];
    assert_eq!(
        Send::send_batch_payment(None, id("GA"), id("CT"), &ok, None, 1),
        Err(StellarSendError::NotInitialized)
    );
    // The first invalid leg decides, before anything is built.
    let bad = vec![(id("GB"), 10), (id("GA"), 10), (id("GC"), 0)];
    assert_eq!(
        Send::send_batch_payment(Some(config(100)), id("GA"), id("CT"), &bad, None, 1),
        Err(StellarSendError::SelfPaymentNotAllowed)
    );
    let bad = vec![(id("GB"), 10), (id("GC"), -1), (id("GA"), 10)];
    assert_eq!(
        Send::send_batch_payment(Some(config(100)), id("GA"), id("CT"), &bad, None, 1),
        Err(StellarSendError::InvalidAmount)
    );
    let huge = vec![(id("GB"), i128::MAX), (id("GC"), 1)];
    assert_eq!(
        Send::send_batch_payment(Some(config(0)), id("GA"), id("CT"), &huge, None, 1),
        Err(StellarSendError::ArithmeticOverflow)
    );
}

// ---------------------------------------------------------------------------
// Payment requests
// ---------------------------------------------------------------------------

fn open_request() -> PaymentRequest {
    Send::create_payment_request(
        Some(config(100)),
        10,
        id("GMERCHANT"),
        None,
        id("CTOKEN"),
        1_000,
        id("invoice 42"),
        500,
        Some(8),
    )
    .unwrap()
    .request
}

#[test]
fn create_payment_request_locks_the_fee() {
    let created = Send::create_payment_request(
        Some(config(250)),
        10,
        id("GMERCHANT"),
        Some(id("GCUSTOMER")),
        id("CTOKEN"),
        1_000,
        id("invoice"),
        500,
        None,
    )
    .unwrap();
    assert_eq!(created.id, 1);
    assert_eq!(created.request.fee_bps, 250);
    assert_eq!(created.request.status, PaymentRequestStatus::Open);
    assert_eq!(created.request.payer, Some(id("GCUSTOMER")));
    assert_eq!(created.request.memo, "invoice");
}

#[test]
fn create_payment_request_refusals() {
    let c = Some(config(100));
    let make = |c: Option<Config>, payer: Option<&str>, amount: i128, expiry: u64| {
        Send::create_payment_request(c, 10, id("GM"), payer.map(id), id("CT"), amount, id(""), expiry, None)
    };
    assert_eq!(make(c.clone(), None, 0, 5).map(|r| r.id), Err(StellarSendError::InvalidAmount));
    assert_eq!(make(c.clone(), None, 1, 10).map(|r| r.id), Err(StellarSendError::InvalidExpiry));
    assert_eq!(make(c.clone(), Some("GM"), 1, 11).map(|r| r.id), Err(StellarSendError::SelfPaymentNotAllowed));
    assert_eq!(make(None, None, 1, 11).map(|r| r.id), Err(StellarSendError::NotInitialized));
}

#[test]
fn fulfilment_uses_the_locked_fee_and_current_collector() {
    let req = open_request();
    let later = Config { fee_bps: 5_000, fee_collector: id("CNEWFEES") };
    let f = Send::fulfill_payment_request(Some(req), Some(later), &id("GCUSTOMER"), 500).unwrap();
    assert_eq!(f.fee_amount, 10);
    assert_eq!(f.net_amount, 990);
    assert_eq!(f.request.status, PaymentRequestStatus::Fulfilled);
    assert_eq!(f.fee_transfer, Some(pay("CTOKEN", "GCUSTOMER", "CNEWFEES", 10, false)));
    assert_eq!(f.net_transfer, pay("CTOKEN", "GCUSTOMER", "GMERCHANT", 990, false));
}

#[test]
fn fulfilment_refusals() {
    let req = open_request();
    let c = Some(config(100));
    assert_eq!(
        Send::fulfill_payment_request(None, c.clone(), &id("GC"), 0).map(|f| f.net_amount),
        Err(StellarSendError::RequestNotFound)
    );
    assert_eq!(
        Send::fulfill_payment_request(Some(req.clone()), c.clone(), &id("GC"), 501).map(|f| f.net_amount),
        Err(StellarSendError::RequestExpired)
    );
    let mut restricted = req.clone();
    restricted.payer = Some(id("GCUSTOMER"));
    assert_eq!(
        Send::fulfill_payment_request(Some(restricted.clone()), c.clone(), &id("GOTHER"), 0)
            .map(|f| f.net_amount),
        Err(StellarSendError::WrongPayer)
    );
    assert!(Send::fulfill_payment_request(Some(restricted), c.clone(), &id("GCUSTOMER"), 0).is_ok());
    assert_eq!(
        Send::fulfill_payment_request(Some(req.clone()), None, &id("GC"), 0).map(|f| f.net_amount),
        Err(StellarSendError::NotInitialized)
    );
}

#[test]
fn requests_settle_once() {
    let req = open_request();
    let fulfilled = Send::fulfill_payment_request(Some(req.clone()), Some(config(0)), &id("GC"), 0)
        .unwrap()
        .request;
    assert_eq!(
        Send::cancel_payment_request(fulfilled.clone()).map(|r| r.status),
        Err(StellarSendError::RequestAlreadyFulfilled)
    );
    assert_eq!(
        Send::fulfill_payment_request(Some(fulfilled), Some(config(0)), &id("GC"), 0).map(|f| f.net_amount),
        Err(StellarSendError::RequestAlreadyFulfilled)
    );
    let cancelled = Send::cancel_payment_request(req).unwrap();
    assert_eq!(cancelled.status, PaymentRequestStatus::Cancelled);
    assert_eq!(
        Send::fulfill_payment_request(Some(cancelled.clone()), Some(config(0)), &id("GC"), 0)
            .map(|f| f.net_amount),
        Err(StellarSendError::RequestCancelled)
    );
    assert_eq!(Send::cancel_payment_request(cancelled).map(|r| r.status), Err(StellarSendError::RequestCancelled));
    assert_eq!(Send::get_payment_request(None).map(|r| r.amount), Err(StellarSendError::RequestNotFound));
}

// ---------------------------------------------------------------------------
// Subscriptions
// ---------------------------------------------------------------------------

fn subscribe(max_executions: Option<u32>, expiry_time: Option<u64>) -> Subscription {
    Send::create_subscription(
        id("GPAYER"),
        id("GRECIPIENT"),
        id("CTOKEN"),
        1_000,
        100,
        1_000,
        max_executions,
        expiry_time,
        None,
    )
    .unwrap()
    .subscription
}

#[test]
fn create_subscription_starts_active_at_start_time() {
    let created = Send::create_subscription(
        id("GPAYER"),
        id("GRECIPIENT"),
        id("CTOKEN"),
        1_000,
        100,
        1_000,
        Some(3),
        Some(5_000),
        Some(1),
    )
    .unwrap();
    assert_eq!(created.id, 2);
    let s = created.subscription;
    assert!(s.active);
    assert_eq!(s.next_execution_time, 1_000);
    assert_eq!(s.executions_count, 0);
    assert_eq!(s.max_executions, Some(3));
    assert_eq!(s.expiry_time, Some(5_000));
}

#[test]
fn create_subscription_refusals() {
    let make = |payer: &str, amount: i128, interval: u64, max: Option<u32>, expiry: Option<u64>| {
        Send::create_subscription(id(payer), id("GR"), id("CT"), amount, interval, 1_000, max, expiry, None)
            .map(|c| c.id)
    };
    assert_eq!(make("GP", 0, 1, None, None), Err(StellarSendError::InvalidAmount));
    assert_eq!(make("GP", 1, 0, None, None), Err(StellarSendError::InvalidInterval));
    assert_eq!(make("GR", 1, 1, None, None), Err(StellarSendError::SelfPaymentNotAllowed));
    assert_eq!(make("GP", 1, 1, Some(0), None), Err(StellarSendError::InvalidMaxExecutions));
    assert_eq!(make("GP", 1, 1, None, Some(1_000)), Err(StellarSendError::InvalidExpiry));
    assert_eq!(make("GP", 1, 1, Some(1), Some(1_001)), Ok(1));
}

#[test]
fn execution_pulls_from_the_allowance_and_advances_one_interval() {
    let s = subscribe(None, None);
    assert_eq!(
        Send::execute_subscription(Some(s.clone()), Some(config(100)), 999).map(|c| c.net_amount),
        Err(StellarSendError::SubscriptionNotDue)
    );
    // A late execution: the schedule still advances from the due time.
    let charge = Send::execute_subscription(Some(s), Some(config(100)), 1_250).unwrap();
    assert_eq!(charge.net_amount, 990);
    assert_eq!(charge.fee_amount, 10);
    assert_eq!(charge.fee_transfer, Some(pay("CTOKEN", "GPAYER", "CFEES", 10, true)));
    assert_eq!(charge.net_transfer, pay("CTOKEN", "GPAYER", "GRECIPIENT", 990, true));
    let next = charge.subscription;
    assert_eq!(next.next_execution_time, 1_100);
    assert_eq!(next.executions_count, 1);
    assert!(next.active);
    // Catching up the missed intervals, one execution at a time.
    let next = Send::execute_subscription(Some(next), Some(config(100)), 1_250).unwrap().subscription;
    assert_eq!(next.next_execution_time, 1_200);
    let next = Send::execute_subscription(Some(next), Some(config(100)), 1_250).unwrap().subscription;
    assert_eq!(next.next_execution_time, 1_300);
    assert_eq!(next.executions_count, 3);
    assert_eq!(
        Send::execute_subscription(Some(next), Some(config(100)), 1_250).map(|c| c.net_amount),
        Err(StellarSendError::SubscriptionNotDue)
    );
}

#[test]
fn max_executions_deactivates_on_the_last_charge() {
    let mut s = subscribe(Some(2), None);
    for _ in 0..2 {
        s = Send::execute_subscription(Some(s), Some(config(0)), 10_000).unwrap().subscription;
    }
    assert_eq!(s.executions_count, 2);
    assert!(!s.active);
    assert_eq!(
        Send::execute_subscription(Some(s.clone()), Some(config(0)), 10_000).map(|c| c.net_amount),
        Err(StellarSendError::SubscriptionInactive)
    );
    assert_eq!(Send::cancel_subscription(s).map(|s| s.active), Err(StellarSendError::SubscriptionInactive));
}

#[test]
fn expiry_refuses_without_deactivating() {
    let s = subscribe(None, Some(1_500));
    assert!(Send::execute_subscription(Some(s.clone()), Some(config(0)), 1_500).is_ok());
    assert_eq!(
        Send::execute_subscription(Some(s.clone()), Some(config(0)), 1_501).map(|c| c.net_amount),
        Err(StellarSendError::SubscriptionExpired)
    );
    assert!(s.active);
}

#[test]
fn cancelled_subscriptions_never_run() {
    let s = subscribe(None, None);
    let cancelled = Send::cancel_subscription(s).unwrap();
    assert!(!cancelled.active);
    assert_eq!(
        Send::execute_subscription(Some(cancelled), Some(config(0)), 5_000).map(|c| c.net_amount),
        Err(StellarSendError::SubscriptionInactive)
    );
    assert_eq!(
        Send::execute_subscription(None, Some(config(0)), 5_000).map(|c| c.net_amount),
        Err(StellarSendError::SubscriptionNotFound)
    );
    assert_eq!(Send::get_subscription(None).map(|s| s.amount), Err(StellarSendError::SubscriptionNotFound));
}

#[test]
fn executing_without_configuration_is_refused() {
    let s = subscribe(None, None);
    assert_eq!(
        Send::execute_subscription(Some(s), None, 5_000).map(|c| c.net_amount),
        Err(StellarSendError::NotInitialized)
    );
}

#[test]
fn execution_refuses_when_the_schedule_would_overflow() {
    let mut s = subscribe(None, None);
    s.next_execution_time = u64::MAX;
    s.interval_seconds = 1;
    assert_eq!(
        Send::execute_subscription(Some(s.clone()), Some(config(0)), u64::MAX).map(|c| c.net_amount),
        Err(StellarSendError::ArithmeticOverflow)
    );
    s.next_execution_time = 0;
    s.executions_count = u32::MAX;
    assert_eq!(
        Send::execute_subscription(Some(s), Some(config(0)), 5).map(|c| c.net_amount),
        Err(StellarSendError::ArithmeticOverflow)
    );
}

#[test]
fn capped_subscription_never_runs_more_than_its_cap() {
    let mut s = subscribe(Some(3), None);
    let mut successes = 0;
    for now in [500u64, 1_000, 1_000, 1_000, 5_000, 9_000, 9_000] {
        if let Ok(c) = Send::execute_subscription(Some(s.clone()), Some(config(100)), now) {
            s = c.subscription;
            successes += 1;
        }
    }
    assert_eq!(successes, 3);
    assert_eq!(s.executions_count, 3);
    assert!(!s.active);
}

#[test]
fn schedule_overflow_is_an_error() {
    let mut s = subscribe(None, None);
    s.next_execution_time = u64::MAX - 10;
    assert_eq!(Send::record_execution(s.clone()).map(|s| s.executions_count), Err(StellarSendError::ArithmeticOverflow));
    s.next_execution_time = 0;
    s.executions_count = u32::MAX;
    assert_eq!(Send::record_execution(s).map(|s| s.executions_count), Err(StellarSendError::ArithmeticOverflow));
}
