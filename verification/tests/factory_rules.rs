use stellar_send::factory::{ChildInit, Factory, FactoryError};
use stellar_send::fee_collector::{FeeCollectorContract, FeeCollectorError};
use stellar_send::token_bridge::{TokenBridgeContract, TokenBridgeError};

fn setup() -> (Factory, String) {
    let mut f = Factory { admin: None, initialized: false };
    f.initialize("GFACTORYADMIN".to_string()).unwrap();
    (f, "GFACTORYADMIN".to_string())
}

/// Run a deployment's `initialize` on a fresh fee collector, as the child does.
fn fee_collector_child(init: &ChildInit) -> FeeCollectorContract {
    let mut child = FeeCollectorContract { admin: None, treasury: None, initialized: false };
    match init {
        ChildInit::FeeCollector { admin, treasury } => {
            child.initialize(admin.clone(), treasury.clone()).unwrap()
        }
        _ => panic!("not a fee collector deployment"),
    }
    child
}

#[test]
fn test_factory_initialize() {
    let (f, admin) = setup();
    assert_eq!(f.get_admin(), Ok(admin));
}

#[test]
fn test_factory_initialize_already_initialized() {
    let (mut f, admin) = setup();
    assert_eq!(f.initialize(admin), Err(FactoryError::AlreadyInitialized));
}

#[test]
fn test_deploy_without_admin_auth_rejected() {
    // The host refuses a deployment the named authorizer has not
    // authorised; what is checked here is that every deployment names the
    // factory admin as that address, whoever the new contract's own admin is.
    let (f, admin) = setup();
    let d = f.deploy_fee_collector("GCONTRACTADMIN".to_string(), "GTREASURY".to_string()).unwrap();
    assert_eq!(d.authorizer, admin);
    assert_ne!(d.authorizer, "GCONTRACTADMIN".to_string());
}

#[test]
fn uninitialized_factory_deploys_nothing() {
    let f = Factory { admin: None, initialized: false };
    assert_eq!(f.get_admin(), Err(FactoryError::NotInitialized));
    assert_eq!(
        f.deploy_fee_collector("GA".to_string(), "GT".to_string()),
        Err(FactoryError::NotInitialized)
    );
    assert_eq!(
        f.deploy_token_bridge("GA".to_string(), "CU".to_string()),
        Err(FactoryError::NotInitialized)
    );
    assert_eq!(
        f.deploy_stellar_send("GA".to_string(), 100, "CF".to_string()),
        Err(FactoryError::NotInitialized)
    );
}

#[test]
fn test_deploy_fee_collector_is_already_initialized() {
    let (f, _) = setup();
    let d = f.deploy_fee_collector("GCONTRACTADMIN".to_string(), "GTREASURY".to_string()).unwrap();
    let child = fee_collector_child(&d.init);
    assert_eq!(child.get_admin(), Ok("GCONTRACTADMIN".to_string()));
    assert_eq!(child.get_treasury(), Ok("GTREASURY".to_string()));
}

#[test]
fn test_deploy_fee_collector_cannot_be_reinitialized() {
    let (f, _) = setup();
    let d = f.deploy_fee_collector("GCONTRACTADMIN".to_string(), "GTREASURY".to_string()).unwrap();
    let mut child = fee_collector_child(&d.init);
    let result = child.initialize("GATTACKER".to_string(), "GATTACKER".to_string());
    assert_eq!(result, Err(FeeCollectorError::AlreadyInitialized));
    assert_eq!(child.get_admin(), Ok("GCONTRACTADMIN".to_string()));
}

#[test]
fn test_deploy_token_bridge_is_already_initialized() {
    let (f, _) = setup();
    let d = f.deploy_token_bridge("GCONTRACTADMIN".to_string(), "CUNDERLYING".to_string()).unwrap();
    let mut child = TokenBridgeContract { admin: None, underlying_token: None, initialized: false };
    match &d.init {
        ChildInit::TokenBridge { admin, underlying_token } => {
            child.initialize(admin.clone(), underlying_token.clone()).unwrap()
        }
        _ => panic!("not a token bridge deployment"),
    }
    let result = child.initialize("GATTACKER".to_string(), "GATTACKER".to_string());
    assert_eq!(result, Err(TokenBridgeError::AlreadyInitialized));
}

#[test]
fn deploy_stellar_send_forwards_its_arguments() {
    let (f, admin) = setup();
    let d = f.deploy_stellar_send("GCONTRACTADMIN".to_string(), 100, "CFEECOLLECTOR".to_string()).unwrap();
    assert_eq!(d.authorizer, admin);
    assert_eq!(
        d.init,
        ChildInit::StellarSend {
            admin: "GCONTRACTADMIN".to_string(),
            fee_bps: 100,
            fee_collector: "CFEECOLLECTOR".to_string(),
        }
    );
}
