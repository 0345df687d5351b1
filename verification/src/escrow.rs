//! Conditional transfer: a deposit held by the contract until it is released
//! to the beneficiary or refunded to the depositor.
//!
//! * The beneficiary may claim once the ledger time reaches `unlock_time`;
//!   a named arbiter may release at any time.
//! * A refund only ever pays the depositor. The arbiter may refund at any
//!   time; the depositor alone only after `unlock_time + REFUND_GRACE_SECONDS`,
//!   so the beneficiary always has a full grace window to claim first.
//! * Lifecycle: `Locked` becomes `Released` or `Refunded`, and both are final.

use vstd::prelude::*;
use crate::common::{AccountId, Party, TokenTransfer, counter_value, successor, next_sequence};

verus! {

/// Depositor-initiated refunds are only permitted this many seconds after
/// `unlock_time` has passed: one week.
pub const REFUND_GRACE_SECONDS: u64 = 7 * 24 * 60 * 60;

/// Lifecycle state of an escrow.
#[derive(Clone, Copy, Debug, PartialEq, Eq, Structural)]
pub enum EscrowStatus {
    Locked,
    Released,
    Refunded,
}

/// Why an escrow operation was refused.
#[derive(Clone, Copy, Debug, PartialEq, Eq, Structural)]
pub enum EscrowError {
    EscrowNotFound,
    InvalidAmount,
    InvalidUnlockTime,
    SelfEscrowNotAllowed,
    Unauthorized,
    NotYetUnlocked,
    RefundNotYetAvailable,
    AlreadyReleased,
    AlreadyRefunded,
    ArithmeticOverflow,
}

/// A single escrowed deposit.
#[derive(Clone, Debug, PartialEq)]
pub struct Escrow {
    pub depositor: AccountId,
    pub beneficiary: AccountId,
    pub token: AccountId,
    pub amount: i128,
    /// Ledger timestamp at/after which the beneficiary may claim the funds.
    pub unlock_time: u64,
    /// Optional trusted third party who can release early or refund early.
    pub arbiter: Option<AccountId>,
    pub status: EscrowStatus,
}

/// A newly created escrow: its id (also the new value of the id counter),
/// the record to store, and the deposit the depositor pays into the contract.
#[derive(Clone, Debug, PartialEq)]
pub struct NewEscrow {
    pub id: u64,
    pub escrow: Escrow,
    pub deposit: TokenTransfer,
}

/// A settled escrow: the record with its final status and the payout.
#[derive(Clone, Debug, PartialEq)]
pub struct Settlement {
    pub escrow: Escrow,
    pub payout: TokenTransfer,
}

/// The escrow contract's rules.
pub struct EscrowContract;

/// Whether `caller` is the escrow's arbiter.
pub open spec fn is_arbiter(e: Escrow, caller: Seq<char>) -> bool {
    match e.arbiter {
        Some(a) => a@ == caller,
        None => false,
    }
}

/// The error `create_escrow` gives, if any.
pub open spec fn create_error(
    now: u64,
    depositor: Seq<char>,
    beneficiary: Seq<char>,
    amount: i128,
    unlock_time: u64,
) -> Option<EscrowError> {
    if amount <= 0 {
        Some(EscrowError::InvalidAmount)
    } else if unlock_time <= now {
        Some(EscrowError::InvalidUnlockTime)
    } else if depositor == beneficiary {
        Some(EscrowError::SelfEscrowNotAllowed)
    } else {
        None
    }
}

/// The record a successful `create_escrow` stores.
pub open spec fn locked_escrow(
    depositor: AccountId,
    beneficiary: AccountId,
    token: AccountId,
    amount: i128,
    unlock_time: u64,
    arbiter: Option<AccountId>,
) -> Escrow {
    Escrow {
        depositor: depositor,
        beneficiary: beneficiary,
        token: token,
        amount: amount,
        unlock_time: unlock_time,
        arbiter: arbiter,
        status: EscrowStatus::Locked,
    }
}

/// The error an operation on an escrow in state `status` gives before any
/// caller check: settled escrows are final.
pub open spec fn settled_error(status: EscrowStatus) -> Option<EscrowError> {
    match status {
        EscrowStatus::Locked => None,
        EscrowStatus::Released => Some(EscrowError::AlreadyReleased),
        EscrowStatus::Refunded => Some(EscrowError::AlreadyRefunded),
    }
}

/// The error `release_escrow` gives on a stored escrow, if any.
pub open spec fn release_error(e: Escrow, caller: Seq<char>, now: u64) -> Option<EscrowError> {
    if settled_error(e.status).is_some() {
        settled_error(e.status)
    } else if is_arbiter(e, caller) || (caller == e.beneficiary@ && now >= e.unlock_time) {
        None
    } else if caller == e.beneficiary@ {
        Some(EscrowError::NotYetUnlocked)
    } else {
        Some(EscrowError::Unauthorized)
    }
}

/// The error `refund_escrow` gives on a stored escrow, if any.
pub open spec fn refund_error(e: Escrow, caller: Seq<char>, now: u64) -> Option<EscrowError> {
    if settled_error(e.status).is_some() {
        settled_error(e.status)
    } else if is_arbiter(e, caller) {
        None
    } else if caller != e.depositor@ {
        Some(EscrowError::Unauthorized)
    } else if e.unlock_time + REFUND_GRACE_SECONDS > u64::MAX {
        Some(EscrowError::ArithmeticOverflow)
    } else if now < e.unlock_time + REFUND_GRACE_SECONDS {
        Some(EscrowError::RefundNotYetAvailable)
    } else {
        None
    }
}

/// The escrow with a new status, everything else kept.
pub open spec fn with_status(e: Escrow, status: EscrowStatus) -> Escrow {
    Escrow { status: status, ..e }
}

/// The contract paying `amount` of `token` out to `to`.
pub open spec fn payout_to(token: AccountId, to: AccountId, amount: i128) -> TokenTransfer {
    TokenTransfer {
        token: token,
        from: Party::ThisContract,
        to: Party::Account(to),
        amount: amount,
        by_allowance: false,
    }
}


/// An escrow settles at most once: after a successful release, every
/// further release or refund, by anyone at any time, is refused with
/// `AlreadyReleased`; after a successful refund, with `AlreadyRefunded`.
pub proof fn lemma_escrow_settles_once(
    e: Escrow,
    settler: Seq<char>,
    settled_at: u64,
    caller: Seq<char>,
    now: u64,
)
    ensures
        release_error(e, settler, settled_at).is_none() ==> {
            &&& release_error(with_status(e, EscrowStatus::Released), caller, now)
                == Some(EscrowError::AlreadyReleased)
            &&& refund_error(with_status(e, EscrowStatus::Released), caller, now)
                == Some(EscrowError::AlreadyReleased)
        },
        refund_error(e, settler, settled_at).is_none() ==> {
            &&& release_error(with_status(e, EscrowStatus::Refunded), caller, now)
                == Some(EscrowError::AlreadyRefunded)
            &&& refund_error(with_status(e, EscrowStatus::Refunded), caller, now)
                == Some(EscrowError::AlreadyRefunded)
        },
{
}

/// An escrow pays out exactly what was locked: the deposit taken from the
/// depositor at creation and the payout of a later release or refund move
/// the same amount of the same token, to the beneficiary on release and back
/// to the depositor on refund.
pub proof fn lemma_escrow_pays_out_its_deposit(
    depositor: AccountId,
    beneficiary: AccountId,
    token: AccountId,
    amount: i128,
    unlock_time: u64,
    arbiter: Option<AccountId>,
    caller: Seq<char>,
    now: u64,
)
    ensures
        ({
            let e = locked_escrow(depositor, beneficiary, token, amount, unlock_time, arbiter);
            &&& release_error(e, caller, now) is None ==> payout_to(e.token, e.beneficiary, e.amount)
                == payout_to(token, beneficiary, amount)
            &&& refund_error(e, caller, now) is None ==> payout_to(e.token, e.depositor, e.amount)
                == payout_to(token, depositor, amount)
        }),
{
}

/// The depositor's refund waits for the whole grace period: for a locked
/// escrow whose arbiter is not the depositor, the depositor's refund is
/// refused at every time before `unlock_time + REFUND_GRACE_SECONDS` (before
/// and after `unlock_time` alike) and accepted from then on.
pub proof fn lemma_depositor_refund_timing(e: Escrow, now: u64)
    requires
        e.status == EscrowStatus::Locked,
        !(e.arbiter matches Some(a) && a@ == e.depositor@),
    ensures
        now < e.unlock_time + REFUND_GRACE_SECONDS ==> refund_error(e, e.depositor@, now) is Some,
        now < e.unlock_time + REFUND_GRACE_SECONDS && e.unlock_time + REFUND_GRACE_SECONDS
            <= u64::MAX ==> refund_error(e, e.depositor@, now) == Some(
            EscrowError::RefundNotYetAvailable,
        ),
        now >= e.unlock_time + REFUND_GRACE_SECONDS ==> refund_error(e, e.depositor@, now) is None,
{
}

/// The beneficiary's release waits for `unlock_time`: for a locked escrow
/// whose arbiter is not the beneficiary, the beneficiary's release is refused
/// with `NotYetUnlocked` at every time before `unlock_time` and accepted from
/// then on.
pub proof fn lemma_beneficiary_release_timing(e: Escrow, now: u64)
    requires
        e.status == EscrowStatus::Locked,
        !(e.arbiter matches Some(a) && a@ == e.beneficiary@),
    ensures
        now < e.unlock_time ==> release_error(e, e.beneficiary@, now) == Some(
            EscrowError::NotYetUnlocked,
        ),
        now >= e.unlock_time ==> release_error(e, e.beneficiary@, now) is None,
{
}

/// Settled escrows refuse everything: a released escrow refuses release and
/// refund with `AlreadyReleased`, a refunded one with `AlreadyRefunded`, for
/// every caller at every time.
pub proof fn lemma_settled_escrow_refuses(e: Escrow, caller: Seq<char>, now: u64)
    ensures
        e.status == EscrowStatus::Released ==> release_error(e, caller, now) == Some(
            EscrowError::AlreadyReleased,
        ) && refund_error(e, caller, now) == Some(EscrowError::AlreadyReleased),
        e.status == EscrowStatus::Refunded ==> release_error(e, caller, now) == Some(
            EscrowError::AlreadyRefunded,
        ) && refund_error(e, caller, now) == Some(EscrowError::AlreadyRefunded),
{
}

/// Creating an escrow: it is accepted exactly when the amount is positive,
/// the unlock time lies strictly in the future and depositor and beneficiary
/// differ, and the record it stores holds exactly the given parties, token,
/// amount, unlock time and arbiter (none when none was named), locked.
pub proof fn lemma_create_escrow_rules(
    now: u64,
    depositor: AccountId,
    beneficiary: AccountId,
    token: AccountId,
    amount: i128,
    unlock_time: u64,
    arbiter: Option<AccountId>,
)
    ensures
        create_error(now, depositor@, beneficiary@, amount, unlock_time) is None <==> amount > 0
            && unlock_time > now && depositor@ != beneficiary@,
        amount <= 0 ==> create_error(now, depositor@, beneficiary@, amount, unlock_time) == Some(
            EscrowError::InvalidAmount,
        ),
        ({
            let e = locked_escrow(depositor, beneficiary, token, amount, unlock_time, arbiter);
            &&& e.depositor == depositor
            &&& e.beneficiary == beneficiary
            &&& e.token == token
            &&& e.amount == amount
            &&& e.unlock_time == unlock_time
            &&& e.arbiter == arbiter
            &&& e.status == EscrowStatus::Locked
        }),
{
}

/// A settlement changes only the status, and pays the escrowed amount of the
/// escrowed token out of the contract to the given party.
pub proof fn lemma_settlement_keeps_the_record(e: Escrow, status: EscrowStatus, to: AccountId)
    ensures
        ({
            let s = with_status(e, status);
            &&& s.status == status
            &&& s.depositor == e.depositor
            &&& s.beneficiary == e.beneficiary
            &&& s.token == e.token
            &&& s.amount == e.amount
            &&& s.unlock_time == e.unlock_time
            &&& s.arbiter == e.arbiter
        }),
        ({
            let t = payout_to(e.token, to, e.amount);
            &&& t.token == e.token
            &&& t.from == Party::ThisContract
            &&& t.to == Party::Account(to)
            &&& t.amount == e.amount
            &&& !t.by_allowance
        }),
{
}

/// The grace window: from `unlock_time` until `unlock_time +
/// REFUND_GRACE_SECONDS`, a locked escrow can be claimed by its beneficiary
/// while its depositor (unless also the arbiter) cannot pull it back.
pub proof fn lemma_beneficiary_grace_window(e: Escrow, now: u64)
    requires
        e.status == EscrowStatus::Locked,
        !(e.arbiter matches Some(a) && a@ == e.depositor@),
        e.unlock_time <= now,
        now < e.unlock_time + REFUND_GRACE_SECONDS,
    ensures
        release_error(e, e.beneficiary@, now).is_none(),
        refund_error(e, e.depositor@, now).is_some(),
{
}

/// Who may settle a locked escrow and when: the arbiter at any time, in
/// either direction; the beneficiary by release from `unlock_time` on; the
/// depositor by refund once the grace period after `unlock_time` has passed.
/// Anyone else is refused.
pub proof fn lemma_escrow_settlement_rights(e: Escrow, caller: Seq<char>, now: u64)
    requires
        e.status == EscrowStatus::Locked,
    ensures
        (e.arbiter matches Some(a) && a@ == caller) ==> release_error(e, caller, now).is_none() && refund_error(
            e,
            caller,
            now,
        ).is_none(),
        caller == e.beneficiary@ && now >= e.unlock_time ==> release_error(e, caller, now).is_none(),
        caller == e.depositor@ && now >= e.unlock_time + REFUND_GRACE_SECONDS ==> refund_error(
            e,
            caller,
            now,
        ).is_none(),
        !(e.arbiter matches Some(a) && a@ == caller) && caller != e.beneficiary@ ==> release_error(
            e,
            caller,
            now,
        ) == Some(EscrowError::Unauthorized),
        !(e.arbiter matches Some(a) && a@ == caller) && caller != e.depositor@ ==> refund_error(
            e,
            caller,
            now,
        ) == Some(EscrowError::Unauthorized),
{
}

impl EscrowContract {
    /// Validate a new escrow of `amount` of `token` from `depositor` to
    /// `beneficiary`, locked until `unlock_time`, at ledger time `now`, and
    /// allocate its id from the stored counter. On success the depositor's
    /// deposit into the contract must be made and the record stored under
    /// the new id, which is also the counter's new value.
    pub fn create_escrow(
        now: u64,
        depositor: AccountId,
        beneficiary: AccountId,
        token: AccountId,
        amount: i128,
        unlock_time: u64,
        arbiter: Option<AccountId>,
        stored_seq: Option<u64>,
    ) -> (r: Result<NewEscrow, EscrowError>)
        ensures
            match create_error(now, depositor@, beneficiary@, amount, unlock_time) {
                Some(e) => r == Err::<NewEscrow, EscrowError>(e),
                None => r == Ok::<NewEscrow, EscrowError>(NewEscrow {
                    id: successor(counter_value(stored_seq)),
                    escrow: locked_escrow(depositor, beneficiary, token, amount, unlock_time, arbiter),
                    deposit: TokenTransfer {
                        token: token,
                        from: Party::Account(depositor),
                        to: Party::ThisContract,
                        amount: amount,
                        by_allowance: false,
                    },
                }),
            },
            r is Ok <==> amount > 0 && unlock_time > now && depositor@ != beneficiary@,
            r matches Ok(n) ==> {
                &&& n.escrow.depositor == depositor
                &&& n.escrow.beneficiary == beneficiary
                &&& n.escrow.token == token
                &&& n.escrow.amount == amount
                &&& n.escrow.unlock_time == unlock_time
                &&& n.escrow.arbiter == arbiter
                &&& n.escrow.status == EscrowStatus::Locked
                &&& n.deposit.token == token
                &&& n.deposit.from == Party::Account(depositor)
                &&& n.deposit.to == Party::ThisContract
                &&& n.deposit.amount == amount
                &&& !n.deposit.by_allowance
            },
            r is Ok && stored_seq is None ==> r->Ok_0.id == 1,
            r is Ok && stored_seq is Some && stored_seq->0 < u64::MAX ==> r->Ok_0.id == stored_seq->0
                + 1,
    {
        if amount <= 0 {
            return Err(EscrowError::InvalidAmount);
        }
        if unlock_time <= now {
            return Err(EscrowError::InvalidUnlockTime);
        }
        if depositor == beneficiary {
            return Err(EscrowError::SelfEscrowNotAllowed);
        }
        let deposit = TokenTransfer {
            token: token.clone(),
            from: Party::Account(depositor.clone()),
            to: Party::ThisContract,
            amount,
            by_allowance: false,
        };
        let id = Self::next_id(stored_seq);
        let escrow = Escrow {
            depositor,
            beneficiary,
            token,
            amount,
            unlock_time,
            arbiter,
            status: EscrowStatus::Locked,
        };
        Ok(NewEscrow { id, escrow, deposit })
    }

    /// Release a stored escrow to its beneficiary on behalf of `caller`
    /// (who has authorised the call) at ledger time `now`.
    pub fn release_escrow(stored: Option<Escrow>, caller: &AccountId, now: u64) -> (r: Result<
        Settlement,
        EscrowError,
    >)
        ensures
            match stored {
                None => r == Err::<Settlement, EscrowError>(EscrowError::EscrowNotFound),
                Some(e) => match release_error(e, caller@, now) {
                    Some(err) => r == Err::<Settlement, EscrowError>(err),
                    None => r == Ok::<Settlement, EscrowError>(Settlement {
                        escrow: with_status(e, EscrowStatus::Released),
                        payout: payout_to(e.token, e.beneficiary, e.amount),
                    }),
                },
            },
            stored is Some && r is Ok ==> {
                let e = stored->0;
                &&& e.status == EscrowStatus::Locked
                &&& r->Ok_0.escrow.status == EscrowStatus::Released
                &&& r->Ok_0.escrow.depositor == e.depositor
                &&& r->Ok_0.escrow.beneficiary == e.beneficiary
                &&& r->Ok_0.escrow.token == e.token
                &&& r->Ok_0.escrow.amount == e.amount
                &&& r->Ok_0.escrow.unlock_time == e.unlock_time
                &&& r->Ok_0.escrow.arbiter == e.arbiter
                &&& r->Ok_0.payout.token == e.token
                &&& r->Ok_0.payout.from == Party::ThisContract
                &&& r->Ok_0.payout.to == Party::Account(e.beneficiary)
                &&& r->Ok_0.payout.amount == e.amount
                &&& !r->Ok_0.payout.by_allowance
            },
            stored is Some && r is Ok ==> (stored->0.arbiter matches Some(a) && a@ == caller@) || (
            caller@ == stored->0.beneficiary@ && now >= stored->0.unlock_time),
    {
        let mut escrow = Self::load(stored)?;
        Self::assert_locked(&escrow)?;
        let is_arbiter = match &escrow.arbiter {
            Some(a) => *a == *caller,
            None => false,
        };
        let is_beneficiary = *caller == escrow.beneficiary;
        let is_beneficiary_after_unlock = is_beneficiary && now >= escrow.unlock_time;
        if !is_arbiter && !is_beneficiary_after_unlock {
            if is_beneficiary {
                return Err(EscrowError::NotYetUnlocked);
            }
            return Err(EscrowError::Unauthorized);
        }
        escrow.status = EscrowStatus::Released;
        let payout = TokenTransfer {
            token: escrow.token.clone(),
            from: Party::ThisContract,
            to: Party::Account(escrow.beneficiary.clone()),
            amount: escrow.amount,
            by_allowance: false,
        };
        Ok(Settlement { escrow, payout })
    }

    /// Refund a stored escrow to its depositor on behalf of `caller` (who has
    /// authorised the call) at ledger time `now`.
    pub fn refund_escrow(stored: Option<Escrow>, caller: &AccountId, now: u64) -> (r: Result<
        Settlement,
        EscrowError,
    >)
        ensures
            match stored {
                None => r == Err::<Settlement, EscrowError>(EscrowError::EscrowNotFound),
                Some(e) => match refund_error(e, caller@, now) {
                    Some(err) => r == Err::<Settlement, EscrowError>(err),
                    None => r == Ok::<Settlement, EscrowError>(Settlement {
                        escrow: with_status(e, EscrowStatus::Refunded),
                        payout: payout_to(e.token, e.depositor, e.amount),
                    }),
                },
            },
            stored is Some && r is Ok ==> {
                let e = stored->0;
                &&& e.status == EscrowStatus::Locked
                &&& r->Ok_0.escrow.status == EscrowStatus::Refunded
                &&& r->Ok_0.escrow.depositor == e.depositor
                &&& r->Ok_0.escrow.beneficiary == e.beneficiary
                &&& r->Ok_0.escrow.token == e.token
                &&& r->Ok_0.escrow.amount == e.amount
                &&& r->Ok_0.escrow.unlock_time == e.unlock_time
                &&& r->Ok_0.escrow.arbiter == e.arbiter
                &&& r->Ok_0.payout.token == e.token
                &&& r->Ok_0.payout.from == Party::ThisContract
                &&& r->Ok_0.payout.to == Party::Account(e.depositor)
                &&& r->Ok_0.payout.amount == e.amount
                &&& !r->Ok_0.payout.by_allowance
            },
            stored is Some && r is Ok ==> (stored->0.arbiter matches Some(a) && a@ == caller@) || (
            caller@ == stored->0.depositor@ && now >= stored->0.unlock_time + REFUND_GRACE_SECONDS),
    {
        let mut escrow = Self::load(stored)?;
        Self::assert_locked(&escrow)?;
        let is_arbiter = match &escrow.arbiter {
            Some(a) => *a == *caller,
            None => false,
        };
        if !is_arbiter {
            if *caller != escrow.depositor {
                return Err(EscrowError::Unauthorized);
            }
            let refund_eligible_at = match escrow.unlock_time.checked_add(REFUND_GRACE_SECONDS) {
                Some(t) => t,
                None => return Err(EscrowError::ArithmeticOverflow),
            };
            if now < refund_eligible_at {
                return Err(EscrowError::RefundNotYetAvailable);
            }
        }
        escrow.status = EscrowStatus::Refunded;
        let payout = TokenTransfer {
            token: escrow.token.clone(),
            from: Party::ThisContract,
            to: Party::Account(escrow.depositor.clone()),
            amount: escrow.amount,
            by_allowance: false,
        };
        Ok(Settlement { escrow, payout })
    }

    /// Fetch an escrow by id: the stored record, or `EscrowNotFound`.
    pub fn get_escrow(stored: Option<Escrow>) -> (r: Result<Escrow, EscrowError>)
        ensures
            match stored {
                Some(e) => r == Ok::<Escrow, EscrowError>(e),
                None => r == Err::<Escrow, EscrowError>(EscrowError::EscrowNotFound),
            },
    {
        Self::load(stored)
    }

    fn load(stored: Option<Escrow>) -> (r: Result<Escrow, EscrowError>)
        ensures
            match stored {
                Some(e) => r == Ok::<Escrow, EscrowError>(e),
                None => r == Err::<Escrow, EscrowError>(EscrowError::EscrowNotFound),
            },
    {
        match stored {
            Some(e) => Ok(e),
            None => Err(EscrowError::EscrowNotFound),
        }
    }

    fn assert_locked(escrow: &Escrow) -> (r: Result<(), EscrowError>)
        ensures
            match settled_error(escrow.status) {
                Some(e) => r == Err::<(), EscrowError>(e),
                None => r is Ok,
            },
    {
        match escrow.status {
            EscrowStatus::Locked => Ok(()),
            EscrowStatus::Released => Err(EscrowError::AlreadyReleased),
            EscrowStatus::Refunded => Err(EscrowError::AlreadyRefunded),
        }
    }

    fn next_id(stored_seq: Option<u64>) -> (id: u64)
        ensures
            id == successor(counter_value(stored_seq)),
    {
        next_sequence(stored_seq)
    }
}

} // verus!
