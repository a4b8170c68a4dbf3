use codedestate::error::ContractError;
use codedestate::escrow::EscrowLedger;
use codedestate::expiration::{BlockInfo, Expiration};
use codedestate::payment::Payment;

fn pay(amount: u128) -> Payment {
    Payment { to_address: "owner".to_string(), denom: "u".to_string(), amount }
}

fn withdraw(ledger: &mut EscrowLedger, amount: u128) -> Result<Payment, ContractError> {
    ledger.authorize_withdrawal(amount, &"owner".to_string(), "u".to_string())
}

#[test]
fn new_ledger_is_empty() {
    assert_eq!(EscrowLedger::new(), EscrowLedger { deposit_total: 0, withdrawn_total: 0 });
}

#[test]
fn deposits_add_up() {
    let mut ledger = EscrowLedger::new();
    assert_eq!(ledger.record_deposit(20), Ok(()));
    assert_eq!(ledger.record_deposit(22), Ok(()));
    assert_eq!(ledger, EscrowLedger { deposit_total: 42, withdrawn_total: 0 });
}

#[test]
fn deposit_that_cannot_be_held_is_refused() {
    let mut ledger = EscrowLedger { deposit_total: u128::MAX - 1, withdrawn_total: 3 };
    assert_eq!(ledger.record_deposit(2), Err(ContractError::Overflow));
    assert_eq!(ledger, EscrowLedger { deposit_total: u128::MAX - 1, withdrawn_total: 3 });
    assert_eq!(ledger.record_deposit(1), Ok(()));
    assert_eq!(ledger.deposit_total, u128::MAX);
}

#[test]
fn withdrawal_up_to_the_deposits_is_granted() {
    let mut ledger = EscrowLedger { deposit_total: 10, withdrawn_total: 0 };
    assert_eq!(withdraw(&mut ledger, 4), Ok(pay(4)));
    assert_eq!(withdraw(&mut ledger, 6), Ok(pay(6)));
    assert_eq!(ledger, EscrowLedger { deposit_total: 10, withdrawn_total: 10 });
    assert_eq!(withdraw(&mut ledger, 0), Ok(pay(0)));
}

#[test]
fn withdrawal_beyond_the_deposits_is_refused() {
    let mut ledger = EscrowLedger { deposit_total: 10, withdrawn_total: 4 };
    assert_eq!(withdraw(&mut ledger, 7), Err(ContractError::UnavailableAmount));
    assert_eq!(ledger, EscrowLedger { deposit_total: 10, withdrawn_total: 4 });
}

#[test]
fn withdrawal_whose_sum_cannot_be_held_is_refused() {
    let mut ledger = EscrowLedger { deposit_total: u128::MAX, withdrawn_total: 2 };
    assert_eq!(withdraw(&mut ledger, u128::MAX), Err(ContractError::UnavailableAmount));
    assert_eq!(ledger.withdrawn_total, 2);
}

#[test]
fn withdrawals_never_exceed_deposits_over_many_calls() {
    let mut ledger = EscrowLedger::new();
    let mut seed: u64 = 7;
    for _ in 0..2000 {
        seed = seed.wrapping_mul(6364136223846793005).wrapping_add(1442695040888963407);
        let amount = u128::from((seed >> 40) % 50);
        if (seed >> 20) % 2 == 0 {
            let _ = ledger.record_deposit(amount);
        } else {
            let _ = withdraw(&mut ledger, amount);
        }
        assert!(ledger.withdrawn_total <= ledger.deposit_total);
    }
    assert!(ledger.deposit_total > 0);
}

#[test]
fn expiration_at_height_is_reached_at_that_height() {
    let expires = Expiration::AtHeight(10);
    assert!(!expires.is_expired(&BlockInfo { height: 9, time: u64::MAX }));
    assert!(expires.is_expired(&BlockInfo { height: 10, time: 0 }));
    assert!(expires.is_expired(&BlockInfo { height: 11, time: 0 }));
}

#[test]
fn expiration_at_time_is_reached_at_that_time() {
    let expires = Expiration::AtTime(1_000);
    assert!(!expires.is_expired(&BlockInfo { height: u64::MAX, time: 999 }));
    assert!(expires.is_expired(&BlockInfo { height: 0, time: 1_000 }));
}

#[test]
fn expiration_never_is_never_reached() {
    assert!(!Expiration::Never.is_expired(&BlockInfo { height: u64::MAX, time: u64::MAX }));
    assert_eq!(Expiration::default(), Expiration::Never);
}
