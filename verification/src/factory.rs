//! The factory: deploys and initializes fee collectors, token bridges and
//! payment contracts in one step, so no deployed-but-uninitialized instance
//! is ever visible to a front-runner. Only the factory's own admin may
//! deploy through it.

use vstd::prelude::*;
use crate::common::AccountId;

verus! {

/// Why a factory operation was refused.
#[derive(Clone, Copy, Debug, PartialEq, Eq, Structural)]
pub enum FactoryError {
    AlreadyInitialized,
    NotInitialized,
}

/// The factory's instance state.
#[derive(Clone, Debug, PartialEq)]
pub struct Factory {
    /// Authorises every deployment.
    pub admin: Option<AccountId>,
    pub initialized: bool,
}

/// The `initialize` call a freshly deployed child receives, with its
/// arguments in order.
#[derive(Clone, Debug, PartialEq)]
pub enum ChildInit {
    FeeCollector { admin: AccountId, treasury: AccountId },
    TokenBridge { admin: AccountId, underlying_token: AccountId },
    StellarSend { admin: AccountId, fee_bps: u32, fee_collector: AccountId },
}

/// An accepted deployment: the factory admin who must authorise it, and the
/// initialization to run on the new instance in the same invocation.
#[derive(Clone, Debug, PartialEq)]
pub struct Deployment {
    pub authorizer: AccountId,
    pub init: ChildInit,
}

/// The admin who authorises deployments, or why there is none.
pub open spec fn factory_admin_spec(factory: Factory) -> Result<AccountId, FactoryError> {
    if !factory.initialized || factory.admin is None {
        Err(FactoryError::NotInitialized)
    } else {
        Ok(factory.admin->0)
    }
}

/// The outcome of a deployment request carrying `init`: refused unless the
/// factory is initialized; otherwise authorised by the factory admin and
/// forwarding `init` unchanged.
pub open spec fn deploy_spec(factory: Factory, init: ChildInit) -> Result<Deployment, FactoryError> {
    match factory_admin_spec(factory) {
        Err(e) => Err(e),
        Ok(a) => Ok(Deployment { authorizer: a, init: init }),
    }
}

/// The outcome of `initialize` on `factory`: refused, unchanged, once
/// initialized; otherwise the admin is recorded.
pub open spec fn initialize_spec(factory: Factory, admin: AccountId) -> (
    Result<(), FactoryError>,
    Factory,
) {
    if factory.initialized {
        (Err(FactoryError::AlreadyInitialized), factory)
    } else {
        (Ok(()), Factory { admin: Some(admin), initialized: true })
    }
}

/// A factory is initialized at most once, and only an initialized factory
/// deploys: once it is, every deployment is authorised by the admin it was
/// initialized with.
pub proof fn lemma_factory_initializes_once(
    factory: Factory,
    admin: AccountId,
    other_admin: AccountId,
    init: ChildInit,
)
    ensures
        ({
            let (r, after) = initialize_spec(factory, admin);
            r is Ok ==> {
                &&& initialize_spec(after, other_admin) == (
                    Err::<(), FactoryError>(FactoryError::AlreadyInitialized),
                    after,
                )
                &&& deploy_spec(after, init) == Ok::<Deployment, FactoryError>(
                    Deployment { authorizer: admin, init: init },
                )
            }
        }),
        !factory.initialized ==> deploy_spec(factory, init) == Err::<Deployment, FactoryError>(
            FactoryError::NotInitialized,
        ),
{
}

impl Factory {
    /// Initialise the factory with the admin who authorises every
    /// deployment; refused once initialized. On success `admin` must
    /// authorise the call.
    pub fn initialize(&mut self, admin: AccountId) -> (r: Result<(), FactoryError>)
        ensures
            (r, *final(self)) == initialize_spec(*old(self), admin),
            old(self).initialized ==> r == Err::<(), FactoryError>(FactoryError::AlreadyInitialized)
                && *final(self) == *old(self),
            !old(self).initialized ==> r is Ok && final(self).initialized && final(self).admin
                == Some(admin),
    {
        if self.initialized {
            return Err(FactoryError::AlreadyInitialized);
        }
        self.admin = Some(admin);
        self.initialized = true;
        Ok(())
    }

    /// The factory admin, once initialized.
    pub fn get_admin(&self) -> (r: Result<AccountId, FactoryError>)
        ensures
            r == factory_admin_spec(*self),
            r is Ok <==> self.initialized && self.admin is Some,
            r is Ok ==> Some(r->Ok_0) == self.admin,
    {
        self.assert_initialized()?;
        match &self.admin {
            Some(a) => Ok(a.clone()),
            None => Err(FactoryError::NotInitialized),
        }
    }

    /// Deploy a fee collector initialized with `contract_admin` and
    /// `treasury`, which need not be the factory's own admin.
    pub fn deploy_fee_collector(&self, contract_admin: AccountId, treasury: AccountId) -> (r: Result<
        Deployment,
        FactoryError,
    >)
        ensures
            r == deploy_spec(
                *self,
                ChildInit::FeeCollector { admin: contract_admin, treasury: treasury },
            ),
            r is Ok <==> self.initialized && self.admin is Some,
            r is Ok ==> Some(r->Ok_0.authorizer) == self.admin && r->Ok_0.init
                == (ChildInit::FeeCollector { admin: contract_admin, treasury: treasury }),
    {
        let authorizer = self.require_factory_admin()?;
        Ok(Deployment {
            authorizer,
            init: ChildInit::FeeCollector { admin: contract_admin, treasury },
        })
    }

    /// Deploy a token bridge initialized with `contract_admin` and
    /// `underlying_token`.
    pub fn deploy_token_bridge(
        &self,
        contract_admin: AccountId,
        underlying_token: AccountId,
    ) -> (r: Result<Deployment, FactoryError>)
        ensures
            r == deploy_spec(
                *self,
                ChildInit::TokenBridge { admin: contract_admin, underlying_token: underlying_token },
            ),
            r is Ok <==> self.initialized && self.admin is Some,
            r is Ok ==> Some(r->Ok_0.authorizer) == self.admin && r->Ok_0.init
                == (ChildInit::TokenBridge { admin: contract_admin, underlying_token: underlying_token }),
    {
        let authorizer = self.require_factory_admin()?;
        Ok(Deployment {
            authorizer,
            init: ChildInit::TokenBridge { admin: contract_admin, underlying_token },
        })
    }

    /// Deploy a payment contract initialized with `contract_admin`,
    /// `fee_bps` and an already deployed `fee_collector`.
    pub fn deploy_stellar_send(
        &self,
        contract_admin: AccountId,
        fee_bps: u32,
        fee_collector: AccountId,
    ) -> (r: Result<Deployment, FactoryError>)
        ensures
            r == deploy_spec(
                *self,
                ChildInit::StellarSend {
                    admin: contract_admin,
                    fee_bps: fee_bps,
                    fee_collector: fee_collector,
                },
            ),
            r is Ok <==> self.initialized && self.admin is Some,
            r is Ok ==> Some(r->Ok_0.authorizer) == self.admin && r->Ok_0.init == (ChildInit::StellarSend {
                admin: contract_admin,
                fee_bps: fee_bps,
                fee_collector: fee_collector,
            }),
    {
        let authorizer = self.require_factory_admin()?;
        Ok(Deployment {
            authorizer,
            init: ChildInit::StellarSend { admin: contract_admin, fee_bps, fee_collector },
        })
    }

    fn assert_initialized(&self) -> (r: Result<(), FactoryError>)
        ensures
            self.initialized ==> r is Ok,
            !self.initialized ==> r == Err::<(), FactoryError>(FactoryError::NotInitialized),
    {
        if !self.initialized {
            return Err(FactoryError::NotInitialized);
        }
        Ok(())
    }

    /// The factory admin whose authorisation a deployment needs.
    fn require_factory_admin(&self) -> (r: Result<AccountId, FactoryError>)
        ensures
            r == factory_admin_spec(*self),
    {
        self.assert_initialized()?;
        match &self.admin {
            Some(a) => Ok(a.clone()),
            None => Err(FactoryError::NotInitialized),
        }
    }
}

} // verus!
