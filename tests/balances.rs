use state_machine::balances::{Call, Pallet};
use state_machine::support::{Dispatch, DispatchError};

#[test]
fn init_balances() {
    let mut balances = Pallet::new();

    assert_eq!(balances.balance(&"alice".to_string()), 0);
    balances.set_balance(&"alice".to_string(), 100);
    assert_eq!(balances.balance(&"alice".to_string()), 100);
    assert_eq!(balances.balance(&"bob".to_string()), 0);
}

#[test]
fn transfer_balance() {
    let mut balances = Pallet::new();

    assert_eq!(
        balances
            .transfer("alice".to_string(), "bob".to_string(), 50)
            .map_err(|e| e.message()),
        Err("Insufficient funds.")
    );

    balances.set_balance(&"alice".to_string(), 100);

    assert_eq!(balances.transfer("alice".to_string(), "bob".to_string(), 55), Ok(()));

    assert_eq!(balances.balance(&"alice".to_string()), 45);
    assert_eq!(balances.balance(&"bob".to_string()), 55);

    assert_eq!(
        balances
            .transfer("alice".to_string(), "bob".to_string(), 50)
            .map_err(|e| e.message()),
        Err("Insufficient funds.")
    );
}

#[test]
fn transfer_beyond_balance_changes_nothing() {
    let mut balances = Pallet::new();
    balances.set_balance(&"alice".to_string(), 10);
    balances.set_balance(&"bob".to_string(), 7);
    assert_eq!(
        balances.transfer("alice".to_string(), "bob".to_string(), 11),
        Err(DispatchError::InsufficientFunds)
    );
    assert_eq!(balances.balance(&"alice".to_string()), 10);
    assert_eq!(balances.balance(&"bob".to_string()), 7);
}

#[test]
fn transfer_of_whole_balance_empties_caller() {
    let mut balances = Pallet::new();
    balances.set_balance(&"alice".to_string(), 10);
    assert_eq!(balances.transfer("alice".to_string(), "bob".to_string(), 10), Ok(()));
    assert_eq!(balances.balance(&"alice".to_string()), 0);
    assert_eq!(balances.balance(&"bob".to_string()), 10);
}

#[test]
fn transfer_conserves_total() {
    let mut balances = Pallet::new();
    balances.set_balance(&"alice".to_string(), 70);
    balances.set_balance(&"bob".to_string(), 20);
    balances.set_balance(&"charlie".to_string(), 5);
    assert_eq!(balances.transfer("alice".to_string(), "charlie".to_string(), 30), Ok(()));
    let total: u128 = ["alice", "bob", "charlie"]
        .iter()
        .map(|a| balances.balance(&a.to_string()))
        .sum();
    assert_eq!(balances.balance(&"alice".to_string()), 40);
    assert_eq!(balances.balance(&"charlie".to_string()), 35);
    assert_eq!(total, 95);
}

#[test]
fn transfer_overflow_changes_nothing() {
    let mut balances = Pallet::new();
    balances.set_balance(&"alice".to_string(), 10);
    balances.set_balance(&"bob".to_string(), u128::MAX - 5);
    assert_eq!(
        balances.transfer("alice".to_string(), "bob".to_string(), 6),
        Err(DispatchError::Overflow)
    );
    assert_eq!(DispatchError::Overflow.message(), "Overflow.");
    assert_eq!(balances.balance(&"alice".to_string()), 10);
    assert_eq!(balances.balance(&"bob".to_string()), u128::MAX - 5);
    assert_eq!(balances.transfer("alice".to_string(), "bob".to_string(), 5), Ok(()));
    assert_eq!(balances.balance(&"bob".to_string()), u128::MAX);
}

#[test]
fn self_transfer_adds_amount() {
    let mut balances = Pallet::new();
    balances.set_balance(&"alice".to_string(), 10);
    assert_eq!(balances.transfer("alice".to_string(), "alice".to_string(), 4), Ok(()));
    assert_eq!(balances.balance(&"alice".to_string()), 14);
    assert_eq!(balances.transfer("alice".to_string(), "alice".to_string(), 0), Ok(()));
    assert_eq!(balances.balance(&"alice".to_string()), 14);
    assert_eq!(
        balances.transfer("alice".to_string(), "alice".to_string(), 15),
        Err(DispatchError::InsufficientFunds)
    );
    assert_eq!(balances.balance(&"alice".to_string()), 14);
}

#[test]
fn balances_dispatch_routes_transfer() {
    let mut balances = Pallet::new();
    balances.set_balance(&"alice".to_string(), 9);
    let call = Call::Transfer { to: "bob".to_string(), amount: 4 };
    assert_eq!(balances.dispatch("alice".to_string(), call), Ok(()));
    assert_eq!(balances.balance(&"alice".to_string()), 5);
    assert_eq!(balances.balance(&"bob".to_string()), 4);
    let call = Call::Transfer { to: "bob".to_string(), amount: 6 };
    assert_eq!(balances.dispatch("alice".to_string(), call), Err(DispatchError::InsufficientFunds));
}
