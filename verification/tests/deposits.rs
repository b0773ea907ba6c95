use gift_bridge::{BridgeError, DepositLedger, ProcessedDeposit};

#[test]
fn a_new_ledger_holds_no_claim() {
    let ledger = DepositLedger::new();
    assert_eq!(ledger.len(), 0);
    assert!(!ledger.is_processed(&[1u8; 32]));
    assert_eq!(ledger.find(&[1u8; 32]), None);
}

#[test]
fn claim_records_the_deposit_once() {
    let mut ledger = DepositLedger::new();
    let record = ProcessedDeposit { used: true, deposit_id: [1u8; 32] };
    assert_eq!(ledger.claim([1u8; 32]), Ok(record));
    assert_eq!(ledger.len(), 1);
    assert!(ledger.is_processed(&[1u8; 32]));
    assert_eq!(ledger.find(&[1u8; 32]), Some(record));
    assert_eq!(ledger.claim([1u8; 32]), Err(BridgeError::DepositAlreadyProcessed));
    assert_eq!(ledger.len(), 1);
}

#[test]
fn claims_of_different_deposits_are_independent() {
    let mut ledger = DepositLedger::new();
    let mut near = [1u8; 32];
    near[31] = 2;
    assert!(ledger.claim([1u8; 32]).is_ok());
    assert!(!ledger.is_processed(&near));
    assert!(ledger.claim(near).is_ok());
    assert!(ledger.claim([0u8; 32]).is_ok());
    assert_eq!(ledger.len(), 3);
    assert!(ledger.is_processed(&[1u8; 32]));
    assert!(ledger.is_processed(&near));
    assert!(ledger.is_processed(&[0u8; 32]));
    assert_eq!(ledger.claim(near), Err(BridgeError::DepositAlreadyProcessed));
    assert_eq!(ledger.len(), 3);
}

#[test]
fn a_copy_of_a_ledger_holds_the_same_claims() {
    let mut ledger = DepositLedger::new();
    assert!(ledger.claim([4u8; 32]).is_ok());
    assert!(ledger.claim([5u8; 32]).is_ok());
    let mut copy = ledger.clone();
    assert_eq!(copy, ledger);
    assert!(copy.claim([6u8; 32]).is_ok());
    assert!(!ledger.is_processed(&[6u8; 32]));
    assert_eq!(ledger.len(), 2);
}
