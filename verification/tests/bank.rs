use contract_state::bank_account::{BankAccount, Operation};
use contract_state::bank_operations::{
    contract, deposit_money, query_account_balance, withdraw_money,
};
use contract_state::world_state::WorldState;
use contract_state::StateError;

use sha2::{Digest, Sha256};

fn s(text: &str) -> String {
    text.to_owned()
}

#[test]
fn open_with_derived_id_stores_initial_balance() {
    let mut store = WorldState::new();
    let r = contract(
        &mut store,
        Operation::Open,
        &s("Alice"),
        &s("Smith"),
        &s(""),
        Some(100),
    );
    assert_eq!(r, Ok(100));

    // The account must sit under the identifier derived from the names:
    // base64 of the SHA-256 digest of "AliceSmith", computed here
    // independently of the library.
    let digest = Sha256::digest("AliceSmith".as_bytes());
    let expected_id = base64::encode(digest);
    assert_eq!(query_account_balance(&store, &expected_id), Ok(100));
}

#[test]
fn open_with_custom_id_defaults_balance_to_zero() {
    let mut store = WorldState::new();
    let r = contract(
        &mut store,
        Operation::Open,
        &s("Bob"),
        &s("Lee"),
        &s("bob-01"),
        None,
    );
    assert_eq!(r, Ok(0));
    assert_eq!(query_account_balance(&store, &s("bob-01")), Ok(0));
}

#[test]
fn deposit_raises_stored_balance() {
    let mut store = WorldState::new();
    contract(&mut store, Operation::Open, &s("Bob"), &s("Lee"), &s("bob-01"), None).unwrap();
    let r = contract(
        &mut store,
        Operation::Deposit,
        &s(""),
        &s(""),
        &s("bob-01"),
        Some(50),
    );
    assert_eq!(r, Ok(50));
    assert_eq!(query_account_balance(&store, &s("bob-01")), Ok(50));
}

#[test]
fn withdraw_beyond_balance_is_refused_and_changes_nothing() {
    let mut store = WorldState::new();
    contract(&mut store, Operation::Open, &s("Bob"), &s("Lee"), &s("bob-01"), None).unwrap();
    contract(&mut store, Operation::Deposit, &s(""), &s(""), &s("bob-01"), Some(50)).unwrap();
    let r = contract(
        &mut store,
        Operation::Withdraw,
        &s(""),
        &s(""),
        &s("bob-01"),
        Some(1000),
    );
    assert_eq!(r, Err(StateError::InsufficientFunds));
    assert_eq!(query_account_balance(&store, &s("bob-01")), Ok(50));
}

#[test]
fn query_unknown_account_reports_not_found() {
    let mut store = WorldState::new();
    let r = contract(
        &mut store,
        Operation::Query,
        &s(""),
        &s(""),
        &s("unknown-id"),
        None,
    );
    assert_eq!(r, Err(StateError::NotFound));
    // Repeating the query sees the same untouched state.
    let again = contract(
        &mut store,
        Operation::Query,
        &s(""),
        &s(""),
        &s("unknown-id"),
        None,
    );
    assert_eq!(again, Err(StateError::NotFound));
}

#[test]
fn query_twice_never_changes_stored_balance() {
    let mut store = WorldState::new();
    contract(&mut store, Operation::Open, &s("Ann"), &s("Ode"), &s("ann-1"), Some(7)).unwrap();
    let first = contract(&mut store, Operation::Query, &s(""), &s(""), &s("ann-1"), None);
    let second = contract(&mut store, Operation::Query, &s(""), &s(""), &s("ann-1"), None);
    assert_eq!(first, Ok(7));
    assert_eq!(second, Ok(7));
    assert_eq!(query_account_balance(&store, &s("ann-1")), Ok(7));
}

#[test]
fn withdraw_within_balance_returns_difference() {
    let mut account = BankAccount::open(&s("Ann"), &s("Ode"), &s("ann-1"), Some(100));
    let r = account.withdraw_from_balance(30);
    assert_eq!(r, Some(70));
    assert_eq!(account.balance, 70);
}

#[test]
fn withdraw_whole_balance_leaves_zero() {
    let mut account = BankAccount::open(&s("Ann"), &s("Ode"), &s("ann-1"), Some(100));
    assert_eq!(account.withdraw_from_balance(100), Some(0));
    assert_eq!(account.balance, 0);
}

#[test]
fn withdraw_above_balance_leaves_account_unchanged() {
    let mut account = BankAccount::open(&s("Ann"), &s("Ode"), &s("ann-1"), Some(100));
    assert_eq!(account.withdraw_from_balance(101), None);
    assert_eq!(account.balance, 100);
}

#[test]
fn deposit_to_balance_adds_amount() {
    let mut account = BankAccount::open(&s("Ann"), &s("Ode"), &s("ann-1"), Some(1));
    assert_eq!(account.deposit_to_balance(41), Ok(42));
    assert_eq!(account.balance, 42);
}

#[test]
fn deposit_overflow_is_rejected_and_changes_nothing() {
    let mut store = WorldState::new();
    contract(&mut store, Operation::Open, &s("Max"), &s("Rich"), &s("max-1"), Some(u64::MAX))
        .unwrap();
    let r = deposit_money(&mut store, &s("max-1"), Some(1));
    assert_eq!(r, Err(StateError::Overflow));
    assert_eq!(query_account_balance(&store, &s("max-1")), Ok(u64::MAX));
}

#[test]
fn deposit_into_unknown_account_reports_not_found() {
    let mut store = WorldState::new();
    assert_eq!(deposit_money(&mut store, &s("nobody"), Some(5)), Err(StateError::NotFound));
}

#[test]
fn withdraw_from_unknown_account_reports_not_found() {
    let mut store = WorldState::new();
    assert_eq!(withdraw_money(&mut store, &s("nobody"), Some(5)), Err(StateError::NotFound));
}

#[test]
fn absent_amounts_default_to_zero() {
    let mut store = WorldState::new();
    contract(&mut store, Operation::Open, &s("Bob"), &s("Lee"), &s("bob-01"), Some(9)).unwrap();
    assert_eq!(deposit_money(&mut store, &s("bob-01"), None), Ok(9));
    assert_eq!(withdraw_money(&mut store, &s("bob-01"), None), Ok(9));
    assert_eq!(query_account_balance(&store, &s("bob-01")), Ok(9));
}

#[test]
fn open_overwrites_a_prior_record_under_the_same_key() {
    let mut store = WorldState::new();
    contract(&mut store, Operation::Open, &s("Bob"), &s("Lee"), &s("bob-01"), Some(5)).unwrap();
    contract(&mut store, Operation::Open, &s("Rob"), &s("Lee"), &s("bob-01"), Some(8)).unwrap();
    assert_eq!(query_account_balance(&store, &s("bob-01")), Ok(8));
}

#[test]
fn error_messages_match_surfaced_text() {
    assert_eq!(StateError::NotFound.message(), "No such account found");
    assert_eq!(
        StateError::InsufficientFunds.message(),
        "You do not have enough funds to withdraw from this account."
    );
    assert_eq!(StateError::CorruptState.message(), "Stored record does not match the schema");
    assert_eq!(StateError::Overflow.message(), "Deposit would overflow the balance");
    assert_eq!(StateError::UnknownOperation.message(), "No such operation or subject found");
}
