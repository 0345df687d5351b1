use std::collections::HashMap;

use stellar_send::common::{Party, TokenTransfer};
use stellar_send::token_bridge::{TokenBridgeContract, TokenBridgeError};

const BRIDGE: &str = "CBRIDGE";
const TOKEN: &str = "CUNDERLYING";

/// One token's balances; `fee_bps` of every transfer is burned, modelling a
/// fee-on-transfer token when positive.
#[derive(Clone, Default)]
struct Token {
    balances: HashMap<String, i128>,
    fee_bps: i128,
}

impl Token {
    fn holder(p: &Party) -> String {
        match p {
            Party::ThisContract => BRIDGE.to_string(),
            Party::Account(a) => a.clone(),
        }
    }
    fn mint(&mut self, to: &str, amount: i128) {
        *self.balances.entry(to.to_string()).or_insert(0) += amount;
    }
    fn balance(&self, of: &str) -> i128 {
        *self.balances.get(of).unwrap_or(&0)
    }
    fn apply(&mut self, t: &TokenTransfer) {
        let from = Self::holder(&t.from);
        let to = Self::holder(&t.to);
        let fb = self.balance(&from);
        assert!(fb >= t.amount, "insufficient balance");
        self.balances.insert(from, fb - t.amount);
        let fee = t.amount * self.fee_bps / 10_000;
        self.mint(&to, t.amount - fee);
    }
}

/// A bridge invocation at a time: state changes are kept only when the call
/// succeeds, as the host rolls back a failed invocation.
struct Bridge {
    state: TokenBridgeContract,
    wrapped: HashMap<String, i128>,
    token: Token,
}

impl Bridge {
    fn new(fee_bps: i128) -> Self {
        Bridge {
            state: TokenBridgeContract { admin: None, underlying_token: None, initialized: false },
            wrapped: HashMap::new(),
            token: Token { balances: HashMap::new(), fee_bps },
        }
    }
    fn initialize(&mut self, admin: &str, token: &str) -> Result<(), TokenBridgeError> {
        self.state.initialize(admin.to_string(), token.to_string())
    }
    fn wrap(&mut self, from: &str, amount: i128) -> Result<i128, TokenBridgeError> {
        let accepted = self.state.wrap(&from.to_string(), amount)?;
        let mut token = self.token.clone();
        let before = token.balance(BRIDGE);
        token.apply(&accepted.deposit);
        let after = token.balance(BRIDGE);
        let stored = self.wrapped.get(from).copied();
        let new_bal = TokenBridgeContract::credit_wrap(stored, amount, before, after)?;
        self.token = token;
        self.wrapped.insert(from.to_string(), new_bal);
        Ok(new_bal)
    }
    fn unwrap(&mut self, from: &str, amount: i128) -> Result<i128, TokenBridgeError> {
        let stored = self.wrapped.get(from).copied();
        let accepted = self.state.unwrap(stored, &from.to_string(), amount)?;
        self.wrapped.insert(from.to_string(), accepted.new_balance);
        self.token.apply(&accepted.withdrawal);
        Ok(accepted.new_balance)
    }
    fn get_wrapped_balance(&self, holder: &str) -> i128 {
        TokenBridgeContract::get_wrapped_balance(self.wrapped.get(holder).copied())
    }
}

fn setup() -> Bridge {
    let mut b = Bridge::new(0);
    b.initialize("GADMIN", TOKEN).unwrap();
    b
}

fn setup_fee_token() -> Bridge {
    let mut b = Bridge::new(1_000);
    b.initialize("GADMIN", TOKEN).unwrap();
    b
}

#[test]
fn test_test_initialize() {
    let mut b = Bridge::new(0);
    b.initialize("GADMIN", TOKEN).unwrap();
    assert_eq!(b.state.get_admin(), Ok("GADMIN".to_string()));
    assert_eq!(b.state.get_underlying_token(), Ok(TOKEN.to_string()));
}

#[test]
fn test_test_initialize_already_initialized() {
    let mut b = setup();
    let result = b.initialize("GADMIN", TOKEN);
    assert_eq!(result, Err(TokenBridgeError::AlreadyInitialized));
}

#[test]
fn test_wrap_credits_balance() {
    let mut b = setup();
    b.token.mint("GUSER", 1_000);
    let new_bal = b.wrap("GUSER", 600).unwrap();
    assert_eq!(new_bal, 600);
    assert_eq!(b.get_wrapped_balance("GUSER"), 600);
    assert_eq!(b.token.balance(BRIDGE), 600);
    assert_eq!(b.token.balance("GUSER"), 400);
}

#[test]
fn test_wrap_invalid_amount() {
    let mut b = setup();
    assert_eq!(b.wrap("GUSER", 0), Err(TokenBridgeError::InvalidAmount));
}

#[test]
fn test_unwrap_returns_underlying() {
    let mut b = setup();
    b.token.mint("GUSER", 1_000);
    b.wrap("GUSER", 1_000).unwrap();
    assert_eq!(b.get_wrapped_balance("GUSER"), 1_000);
    let remaining_wrapped = b.unwrap("GUSER", 400).unwrap();
    assert_eq!(remaining_wrapped, 600);
    assert_eq!(b.get_wrapped_balance("GUSER"), 600);
    assert_eq!(b.token.balance("GUSER"), 400);
}

#[test]
fn test_unwrap_insufficient_balance() {
    let mut b = setup();
    b.token.mint("GUSER", 100);
    b.wrap("GUSER", 100).unwrap();
    assert_eq!(b.unwrap("GUSER", 200), Err(TokenBridgeError::InsufficientWrappedBalance));
}

#[test]
fn test_unwrap_invalid_amount() {
    let mut b = setup();
    b.token.mint("GUSER", 100);
    b.wrap("GUSER", 100).unwrap();
    assert_eq!(b.unwrap("GUSER", 0), Err(TokenBridgeError::InvalidAmount));
}

#[test]
fn test_wrap_and_unwrap_full_cycle() {
    let mut b = setup();
    b.token.mint("GUSER", 5_000);
    b.wrap("GUSER", 5_000).unwrap();
    assert_eq!(b.get_wrapped_balance("GUSER"), 5_000);
    b.unwrap("GUSER", 2_000).unwrap();
    assert_eq!(b.get_wrapped_balance("GUSER"), 3_000);
    b.unwrap("GUSER", 3_000).unwrap();
    assert_eq!(b.get_wrapped_balance("GUSER"), 0);
    assert_eq!(b.token.balance("GUSER"), 5_000);
}

#[test]
fn test_multiple_users_isolated_balances() {
    let mut b = setup();
    b.token.mint("GALICE", 1_000);
    b.token.mint("GBOB", 2_000);
    b.wrap("GALICE", 1_000).unwrap();
    b.wrap("GBOB", 2_000).unwrap();
    assert_eq!(b.get_wrapped_balance("GALICE"), 1_000);
    assert_eq!(b.get_wrapped_balance("GBOB"), 2_000);
    b.unwrap("GALICE", 1_000).unwrap();
    assert_eq!(b.get_wrapped_balance("GALICE"), 0);
    assert_eq!(b.get_wrapped_balance("GBOB"), 2_000);
}

#[test]
fn test_test_not_initialized_errors() {
    let mut b = Bridge::new(0);
    assert_eq!(b.wrap("GUSER", 100), Err(TokenBridgeError::NotInitialized));
    assert_eq!(b.unwrap("GUSER", 100), Err(TokenBridgeError::NotInitialized));
    assert_eq!(b.state.get_admin(), Err(TokenBridgeError::NotInitialized));
    assert_eq!(b.state.get_underlying_token(), Err(TokenBridgeError::NotInitialized));
}

#[test]
fn test_wrap_rejects_fee_on_transfer_underlying_shortfall() {
    let mut b = setup_fee_token();
    b.token.mint("GUSER", 1_000);
    assert_eq!(b.wrap("GUSER", 1_000), Err(TokenBridgeError::UnderlyingTransferShortfall));
}

#[test]
fn test_rejected_wrap_does_not_credit_wrapped_balance() {
    let mut b = setup_fee_token();
    b.token.mint("GUSER", 1_000);
    let _ = b.wrap("GUSER", 1_000);
    assert_eq!(b.get_wrapped_balance("GUSER"), 0);
}

#[test]
fn test_rejected_wrap_rolls_back_the_underlying_transfer() {
    let mut b = setup_fee_token();
    b.token.mint("GUSER", 1_000);
    let _ = b.wrap("GUSER", 1_000);
    assert_eq!(b.token.balance("GUSER"), 1_000);
    assert_eq!(b.token.balance(BRIDGE), 0);
}

#[test]
fn test_one_users_fee_on_transfer_wrap_cannot_drain_the_pool_for_another_user() {
    let mut b = setup_fee_token();
    b.token.mint("GALICE", 1_000);
    b.token.mint("GBOB", 500);
    assert_eq!(b.wrap("GALICE", 1_000), Err(TokenBridgeError::UnderlyingTransferShortfall));
    assert_eq!(b.wrap("GBOB", 500), Err(TokenBridgeError::UnderlyingTransferShortfall));
    assert_eq!(b.token.balance(BRIDGE), 0);
    assert_eq!(b.get_wrapped_balance("GALICE"), 0);
    assert_eq!(b.get_wrapped_balance("GBOB"), 0);
    assert_eq!(b.token.balance("GALICE"), 1_000);
    assert_eq!(b.token.balance("GBOB"), 500);
    assert_eq!(b.unwrap("GBOB", 500), Err(TokenBridgeError::InsufficientWrappedBalance));
}

#[test]
fn credit_wrap_counts_what_was_received() {
    assert_eq!(TokenBridgeContract::credit_wrap(Some(40), 60, 1_000, 1_060), Ok(100));
    assert_eq!(TokenBridgeContract::credit_wrap(None, 60, 0, 60), Ok(60));
    assert_eq!(
        TokenBridgeContract::credit_wrap(Some(40), 60, 1_000, 1_054),
        Err(TokenBridgeError::UnderlyingTransferShortfall)
    );
    assert_eq!(
        TokenBridgeContract::credit_wrap(Some(40), 60, i128::MIN, 1),
        Err(TokenBridgeError::ArithmeticOverflow)
    );
    assert_eq!(
        TokenBridgeContract::credit_wrap(Some(i128::MAX), 1, 0, 1),
        Err(TokenBridgeError::ArithmeticOverflow)
    );
}

#[test]
fn pool_backs_all_wrapped_balances() {
    let mut b = setup();
    for (who, amount) in [("GA", 700i128), ("GB", 300), ("GC", 50)] {
        b.token.mint(who, amount);
        b.wrap(who, amount).unwrap();
    }
    b.unwrap("GB", 120).unwrap();
    b.token.mint(BRIDGE, 9);
    let total: i128 = b.wrapped.values().sum();
    assert_eq!(total, 700 + 180 + 50);
    assert!(total <= b.token.balance(BRIDGE));
    assert_eq!(b.token.balance(BRIDGE), 930 + 9);
}
