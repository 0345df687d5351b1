//! Payment requests (invoices).
//!
//! A requester creates a request describing what they want to be paid;
//! anyone (or, when `payer` is set, only that address) can then fulfil it
//! until `expiry`. Fulfilment splits the protocol fee exactly as a direct
//! payment does, at the rate locked in when the request was created, so a
//! later fee change never alters what the requester nets on an open invoice.
//!
//! Lifecycle: `Open` becomes `Fulfilled` or `Cancelled`, and both are final.

use vstd::prelude::*;
use crate::common::{AccountId, Party, TokenTransfer, counter_value, successor};
use crate::stellar_send::{
    Config, StellarSendContract, StellarSendError, fee_leg, net_leg, split_fee_spec,
};

verus! {

/// Lifecycle state of a payment request.
#[derive(Clone, Copy, Debug, PartialEq, Eq, Structural)]
pub enum PaymentRequestStatus {
    Open,
    Fulfilled,
    Cancelled,
}

/// An invoice created by `requester`.
#[derive(Clone, Debug, PartialEq)]
pub struct PaymentRequest {
    pub requester: AccountId,
    /// If set, only this address may fulfil the request.
    pub payer: Option<AccountId>,
    pub token: AccountId,
    pub amount: i128,
    pub memo: String,
    /// Ledger timestamp after which the request can no longer be fulfilled.
    pub expiry: u64,
    /// Fee in basis points locked in when the request was created.
    pub fee_bps: u32,
    pub status: PaymentRequestStatus,
}

/// A newly created request and its id (also the id counter's new value).
#[derive(Clone, Debug, PartialEq)]
pub struct NewPaymentRequest {
    pub id: u64,
    pub request: PaymentRequest,
}

/// A fulfilled request: the record to store back, the amounts and the
/// transfers the payer makes, fee first.
#[derive(Clone, Debug, PartialEq)]
pub struct Fulfilment {
    pub request: PaymentRequest,
    pub net_amount: i128,
    pub fee_amount: i128,
    pub fee_transfer: Option<TokenTransfer>,
    pub net_transfer: TokenTransfer,
}

/// Why `create_payment_request` refuses, if it does.
pub open spec fn create_request_error(
    config: Option<Config>,
    now: u64,
    requester: Seq<char>,
    payer: Option<AccountId>,
    amount: i128,
    expiry: u64,
) -> Option<StellarSendError> {
    if amount <= 0 {
        Some(StellarSendError::InvalidAmount)
    } else if expiry <= now {
        Some(StellarSendError::InvalidExpiry)
    } else if payer matches Some(p) && p@ == requester {
        Some(StellarSendError::SelfPaymentNotAllowed)
    } else if config is None {
        Some(StellarSendError::NotInitialized)
    } else {
        None
    }
}

/// The refusal of any operation on a request that is no longer open.
pub open spec fn closed_error(status: PaymentRequestStatus) -> Option<StellarSendError> {
    match status {
        PaymentRequestStatus::Open => None,
        PaymentRequestStatus::Fulfilled => Some(StellarSendError::RequestAlreadyFulfilled),
        PaymentRequestStatus::Cancelled => Some(StellarSendError::RequestCancelled),
    }
}

/// Why fulfilling a stored request refuses, if it does.
pub open spec fn fulfil_error(
    request: PaymentRequest,
    config: Option<Config>,
    payer: Seq<char>,
    now: u64,
) -> Option<StellarSendError> {
    if closed_error(request.status) is Some {
        closed_error(request.status)
    } else if now > request.expiry {
        Some(StellarSendError::RequestExpired)
    } else if request.payer matches Some(p) && p@ != payer {
        Some(StellarSendError::WrongPayer)
    } else if config is None {
        Some(StellarSendError::NotInitialized)
    } else if split_fee_spec(request.amount, request.fee_bps) is None {
        Some(StellarSendError::ArithmeticOverflow)
    } else {
        None
    }
}

/// The request a successful creation stores.
pub open spec fn created_request(
    config: Config,
    requester: AccountId,
    payer: Option<AccountId>,
    token: AccountId,
    amount: i128,
    memo: String,
    expiry: u64,
) -> PaymentRequest {
    PaymentRequest {
        requester: requester,
        payer: payer,
        token: token,
        amount: amount,
        memo: memo,
        expiry: expiry,
        fee_bps: config.fee_bps,
        status: PaymentRequestStatus::Open,
    }
}

/// The outcome of a successful fulfilment by `payer` under `config`: the fee
/// is split at the request's own locked-in rate and paid to the current fee
/// collector, the rest to the requester.
pub open spec fn fulfilment_of(request: PaymentRequest, config: Config, payer: AccountId) -> Fulfilment {
    let (fee, net) = split_fee_spec(request.amount, request.fee_bps)->0;
    Fulfilment {
        request: PaymentRequest { status: PaymentRequestStatus::Fulfilled, ..request },
        net_amount: net,
        fee_amount: fee,
        fee_transfer: fee_leg(request.token, payer, config.fee_collector, fee, false),
        net_transfer: net_leg(request.token, payer, request.requester, net, false),
    }
}

/// The fee is locked in when the request is created: whatever the fee rate
/// is when it is fulfilled, the requester nets exactly what the rate at
/// creation gives, and whether it can be fulfilled does not depend on the
/// current rate either.
pub proof fn lemma_request_fee_locked_at_creation(
    at_creation: Config,
    at_fulfilment: Config,
    requester: AccountId,
    payer: Option<AccountId>,
    token: AccountId,
    amount: i128,
    memo: String,
    expiry: u64,
    fulfilled_by: AccountId,
    now: u64,
)
    ensures
        ({
            let request = created_request(at_creation, requester, payer, token, amount, memo, expiry);
            let (fee, net) = split_fee_spec(amount, at_creation.fee_bps)->0;
            &&& fulfil_error(request, Some(at_fulfilment), fulfilled_by@, now) == fulfil_error(
                request,
                Some(at_creation),
                fulfilled_by@,
                now,
            )
            &&& fulfilment_of(request, at_fulfilment, fulfilled_by).net_amount == net
            &&& fulfilment_of(request, at_fulfilment, fulfilled_by).fee_amount == fee
        }),
{
}

/// An expired request is never paid: for every open request, whoever it is
/// restricted to, fulfilment after its expiry is refused with
/// `RequestExpired`, whatever the payer and configuration.
pub proof fn lemma_expired_request_refused(
    request: PaymentRequest,
    config: Option<Config>,
    payer: Seq<char>,
    now: u64,
)
    requires
        request.status == PaymentRequestStatus::Open,
        now > request.expiry,
    ensures
        fulfil_error(request, config, payer, now) == Some(StellarSendError::RequestExpired),
{
}

/// Who may fulfil an open request before its expiry: anyone when it names no
/// payer, only the named payer otherwise (others get `WrongPayer`); with a
/// configuration and an amount whose fee split fits, the fulfilment goes
/// through.
pub proof fn lemma_request_payer_rules(
    request: PaymentRequest,
    config: Config,
    payer: Seq<char>,
    now: u64,
)
    requires
        request.status == PaymentRequestStatus::Open,
        now <= request.expiry,
    ensures
        (request.payer matches Some(p) && p@ != payer) ==> fulfil_error(request, Some(config), payer, now)
            == Some(StellarSendError::WrongPayer),
        !(request.payer matches Some(p) && p@ != payer) && split_fee_spec(
            request.amount,
            request.fee_bps,
        ) is Some ==> fulfil_error(request, Some(config), payer, now) is None,
{
}

/// A fulfilment marks the request fulfilled and changes nothing else in it,
/// and the payer pays the request's amount in its token: the net part to the
/// requester and the fee part, when positive, to the fee collector.
pub proof fn lemma_fulfilment_pays_the_request(request: PaymentRequest, config: Config, payer: AccountId)
    requires
        split_fee_spec(request.amount, request.fee_bps) is Some,
    ensures
        ({
            let f = fulfilment_of(request, config, payer);
            &&& f.request.status == PaymentRequestStatus::Fulfilled
            &&& f.request.requester == request.requester
            &&& f.request.payer == request.payer
            &&& f.request.token == request.token
            &&& f.request.amount == request.amount
            &&& f.request.expiry == request.expiry
            &&& f.request.fee_bps == request.fee_bps
            &&& f.net_amount + f.fee_amount == request.amount
            &&& f.net_transfer.token == request.token
            &&& f.net_transfer.from == Party::Account(payer)
            &&& f.net_transfer.to == Party::Account(request.requester)
            &&& f.net_transfer.amount == f.net_amount
            &&& (f.fee_amount > 0 <==> f.fee_transfer is Some)
            &&& f.fee_transfer matches Some(t) ==> t.to == Party::Account(config.fee_collector)
                && t.from == Party::Account(payer) && t.amount == f.fee_amount && t.token
                == request.token
        }),
{
}

/// Creating a request: accepted exactly when the amount is positive, the
/// expiry lies strictly in the future, the named payer (if any) is not the
/// requester and the contract is configured; the stored request is open and
/// holds exactly the given fields and the current fee rate.
pub proof fn lemma_create_request_rules(
    config: Option<Config>,
    now: u64,
    requester: AccountId,
    payer: Option<AccountId>,
    token: AccountId,
    amount: i128,
    memo: String,
    expiry: u64,
)
    ensures
        create_request_error(config, now, requester@, payer, amount, expiry) is None <==> amount > 0
            && expiry > now && !(payer matches Some(p) && p@ == requester@) && config is Some,
        config is Some ==> ({
            let q = created_request(config->0, requester, payer, token, amount, memo, expiry);
            &&& q.requester == requester
            &&& q.payer == payer
            &&& q.token == token
            &&& q.amount == amount
            &&& q.memo == memo
            &&& q.expiry == expiry
            &&& q.fee_bps == config->0.fee_bps
            &&& q.status == PaymentRequestStatus::Open
        }),
{
}

/// Fulfilled and cancelled requests are final: neither can be fulfilled or
/// cancelled again, by anyone, at any time.
pub proof fn lemma_request_settles_once(
    request: PaymentRequest,
    config: Option<Config>,
    payer: Seq<char>,
    now: u64,
)
    requires
        request.status != PaymentRequestStatus::Open,
    ensures
        fulfil_error(request, config, payer, now) == closed_error(request.status),
        closed_error(request.status) is Some,
{
}

impl StellarSendContract {
    /// Create a payment request from `requester` (who has authorised the
    /// call) at ledger time `now`. `payer`, when set, is the only address
    /// that may fulfil it; `expiry` must lie strictly in the future. The
    /// current fee rate is locked into the request.
    pub fn create_payment_request(
        stored_config: Option<Config>,
        now: u64,
        requester: AccountId,
        payer: Option<AccountId>,
        token: AccountId,
        amount: i128,
        memo: String,
        expiry: u64,
        stored_seq: Option<u64>,
    ) -> (r: Result<NewPaymentRequest, StellarSendError>)
        ensures
            match create_request_error(stored_config, now, requester@, payer, amount, expiry) {
                Some(e) => r == Err::<NewPaymentRequest, StellarSendError>(e),
                None => r == Ok::<NewPaymentRequest, StellarSendError>(NewPaymentRequest {
                    id: successor(counter_value(stored_seq)),
                    request: created_request(
                        stored_config->0,
                        requester,
                        payer,
                        token,
                        amount,
                        memo,
                        expiry,
                    ),
                }),
            },
            r is Ok <==> amount > 0 && expiry > now && !(payer matches Some(p) && p@ == requester@)
                && stored_config is Some,
            r is Ok ==> {
                let q = r->Ok_0.request;
                &&& q.requester == requester
                &&& q.payer == payer
                &&& q.token == token
                &&& q.amount == amount
                &&& q.memo == memo
                &&& q.expiry == expiry
                &&& q.fee_bps == stored_config->0.fee_bps
                &&& q.status == PaymentRequestStatus::Open
            },
            r is Ok && stored_seq is None ==> r->Ok_0.id == 1,
            r is Ok && stored_seq is Some && stored_seq->0 < u64::MAX ==> r->Ok_0.id == stored_seq->0
                + 1,
    {
        if amount <= 0 {
            return Err(StellarSendError::InvalidAmount);
        }
        if expiry <= now {
            return Err(StellarSendError::InvalidExpiry);
        }
        if let Some(p) = &payer {
            if *p == requester {
                return Err(StellarSendError::SelfPaymentNotAllowed);
            }
        }
        let config = Self::load_config(stored_config)?;
        let id = Self::next_seq(stored_seq);
        let request = PaymentRequest {
            requester,
            payer,
            token,
            amount,
            memo,
            expiry,
            fee_bps: config.fee_bps,
            status: PaymentRequestStatus::Open,
        };
        Ok(NewPaymentRequest { id, request })
    }

    /// Fulfil a stored request by `payer` (who has authorised the call) at
    /// ledger time `now`: the fee at the request's locked-in rate goes to the
    /// configured fee collector and the net amount to the requester.
    pub fn fulfill_payment_request(
        stored: Option<PaymentRequest>,
        stored_config: Option<Config>,
        payer: &AccountId,
        now: u64,
    ) -> (r: Result<Fulfilment, StellarSendError>)
        ensures
            match stored {
                None => r == Err::<Fulfilment, StellarSendError>(StellarSendError::RequestNotFound),
                Some(req) => match fulfil_error(req, stored_config, payer@, now) {
                    Some(e) => r == Err::<Fulfilment, StellarSendError>(e),
                    None => r == Ok::<Fulfilment, StellarSendError>(
                        fulfilment_of(req, stored_config->0, *payer),
                    ),
                },
            },
            stored is Some && stored->0.status == PaymentRequestStatus::Open && now
                > stored->0.expiry ==> r == Err::<Fulfilment, StellarSendError>(
                StellarSendError::RequestExpired,
            ),
            r is Ok ==> {
                let req = stored->0;
                let f = r->Ok_0;
                &&& stored is Some
                &&& req.status == PaymentRequestStatus::Open
                &&& now <= req.expiry
                &&& (req.payer matches Some(p) ==> p@ == payer@)
                &&& stored_config is Some
                &&& f.request.status == PaymentRequestStatus::Fulfilled
                &&& f.request.requester == req.requester
                &&& f.request.payer == req.payer
                &&& f.request.token == req.token
                &&& f.request.amount == req.amount
                &&& f.request.memo == req.memo
                &&& f.request.expiry == req.expiry
                &&& f.request.fee_bps == req.fee_bps
                &&& f.fee_amount + f.net_amount == req.amount
                &&& f.net_transfer.token == req.token
                &&& f.net_transfer.from == Party::Account(*payer)
                &&& f.net_transfer.to == Party::Account(req.requester)
                &&& f.net_transfer.amount == f.net_amount
            },
    {
        let mut request = Self::load_request(stored)?;
        Self::assert_open(&request)?;
        if now > request.expiry {
            return Err(StellarSendError::RequestExpired);
        }
        if let Some(expected_payer) = &request.payer {
            if *expected_payer != *payer {
                return Err(StellarSendError::WrongPayer);
            }
        }
        let config = Self::load_config(stored_config)?;
        let (fee_amount, net_amount) = Self::split_fee(request.amount, request.fee_bps)?;
        request.status = PaymentRequestStatus::Fulfilled;
        let (fee_transfer, net_transfer) = Self::payment_transfers(
            &request.token,
            payer,
            &request.requester,
            &config.fee_collector,
            fee_amount,
            net_amount,
            false,
        );
        Ok(Fulfilment { request, net_amount, fee_amount, fee_transfer, net_transfer })
    }

    /// Cancel a loaded request on behalf of its requester (who has
    /// authorised the call): only an open request can be cancelled.
    pub fn cancel_payment_request(request: PaymentRequest) -> (r: Result<
        PaymentRequest,
        StellarSendError,
    >)
        ensures
            match closed_error(request.status) {
                Some(e) => r == Err::<PaymentRequest, StellarSendError>(e),
                None => r == Ok::<PaymentRequest, StellarSendError>(
                    PaymentRequest { status: PaymentRequestStatus::Cancelled, ..request },
                ),
            },
    {
        let mut request = request;
        Self::assert_open(&request)?;
        request.status = PaymentRequestStatus::Cancelled;
        Ok(request)
    }

    /// Fetch a payment request by id: the stored record, or `RequestNotFound`.
    pub fn get_payment_request(stored: Option<PaymentRequest>) -> (r: Result<
        PaymentRequest,
        StellarSendError,
    >)
        ensures
            match stored {
                Some(req) => r == Ok::<PaymentRequest, StellarSendError>(req),
                None => r == Err::<PaymentRequest, StellarSendError>(
                    StellarSendError::RequestNotFound,
                ),
            },
    {
        Self::load_request(stored)
    }

    /// The stored request, or `RequestNotFound`.
    pub fn load_request(stored: Option<PaymentRequest>) -> (r: Result<
        PaymentRequest,
        StellarSendError,
    >)
        ensures
            match stored {
                Some(req) => r == Ok::<PaymentRequest, StellarSendError>(req),
                None => r == Err::<PaymentRequest, StellarSendError>(
                    StellarSendError::RequestNotFound,
                ),
            },
    {
        match stored {
            Some(req) => Ok(req),
            None => Err(StellarSendError::RequestNotFound),
        }
    }

    fn assert_open(request: &PaymentRequest) -> (r: Result<(), StellarSendError>)
        ensures
            match closed_error(request.status) {
                Some(e) => r == Err::<(), StellarSendError>(e),
                None => r is Ok,
            },
    {
        match request.status {
            PaymentRequestStatus::Open => Ok(()),
            PaymentRequestStatus::Fulfilled => Err(StellarSendError::RequestAlreadyFulfilled),
            PaymentRequestStatus::Cancelled => Err(StellarSendError::RequestCancelled),
        }
    }
}

} // verus!
