// End-to-end tests of the transfer protocol: pricing, locking, the
// unlock threshold and replay rules, and the administrative operations.

use quantum_link::errors::BridgeError;
use quantum_link::policy::validate_and_price;
use quantum_link::protocol::{
    add_validator, emergency_pause, emergency_unpause, get_bridge_info, get_lock_info,
    initialize_bridge, lock_assets, remove_validator, unlock_assets, update_bridge_state,
    update_config, validate_bridge, Bridge,
};
use quantum_link::types::ValidatorSignature;

const ADMIN: [u8; 32] = [1u8; 32];
const USER: [u8; 32] = [4u8; 32];
const MINT: [u8; 32] = [5u8; 32];
const DEST: [u8; 32] = [6u8; 32];
const RECIPIENT: [u8; 32] = [7u8; 32];

fn validator_key(n: u16) -> [u8; 32] {
    let mut pk = [0u8; 32];
    pk[0] = (n & 0xff) as u8;
    pk[1] = (n >> 8) as u8;
    pk[2] = 0x77;
    pk
}

fn signature_of(validator: [u8; 32]) -> ValidatorSignature {
    ValidatorSignature {
        validator_id: validator,
        signature: [9u8; 64],
        timestamp: 50,
    }
}

fn bridge_with_validators(threshold: u8, count: u16) -> Bridge {
    let mut bridge = initialize_bridge(ADMIN, threshold).unwrap();
    for n in 1..=count {
        add_validator(&mut bridge, ADMIN, validator_key(n), [3u8; 32], 10).unwrap();
    }
    bridge
}

#[test]
fn test_validate_and_price_exact_values() {
    // 100 bps of 1,000,000 is 10,000; the parts add back up.
    assert_eq!(validate_and_price(1_000_000, 1, 2_000_000, 100), Ok((990_000, 10_000)));
    // Truncating division: 150 bps of 999 is floor(14.985) = 14.
    assert_eq!(validate_and_price(999, 1, 1000, 150), Ok((985, 14)));
    // A zero fee rate charges nothing.
    assert_eq!(validate_and_price(500, 1, 1000, 0), Ok((500, 0)));
    // The bounds are inclusive on both ends.
    assert!(validate_and_price(10, 10, 20, 100).is_ok());
    assert!(validate_and_price(20, 10, 20, 100).is_ok());
    // Outside them the amount is rejected.
    assert_eq!(validate_and_price(9, 10, 20, 100), Err(BridgeError::InvalidAmount));
    assert_eq!(validate_and_price(21, 10, 20, 100), Err(BridgeError::InvalidAmount));
}

#[test]
fn test_lock_scenario_ledger_totals() {
    // Lock(amount=1,000,000, fee_bps=100): net 990,000, fee 10,000,
    // total_locked grows by the net amount.
    let mut bridge = bridge_with_validators(1, 1);
    let id = lock_assets(&mut bridge, USER, MINT, 1_000_000, 5_000_000, DEST, [0u8; 64], 100)
        .unwrap();
    assert_eq!(id, 1);
    let info = get_bridge_info(&bridge);
    assert_eq!(info.total_locked, 990_000);
    assert_eq!(info.total_transfers, 1);
    let lock = get_lock_info(&bridge, id).unwrap();
    assert_eq!(lock.amount, 1_000_000);
    assert_eq!(lock.actual_amount, 990_000);
    assert_eq!(lock.fee, 10_000);
    assert!(!lock.is_processed);
    assert_eq!(lock.status, 0);
}

#[test]
fn test_lock_rejects_out_of_bounds_amounts() {
    // Default bounds are [1,000,000, 1,000,000,000,000].
    let mut bridge = bridge_with_validators(1, 1);
    let before = get_bridge_info(&bridge);
    assert_eq!(
        lock_assets(&mut bridge, USER, MINT, 999_999, u64::MAX, DEST, [0u8; 64], 100),
        Err(BridgeError::InvalidAmount)
    );
    assert_eq!(
        lock_assets(&mut bridge, USER, MINT, 1_000_000_000_001, u64::MAX, DEST, [0u8; 64], 100),
        Err(BridgeError::InvalidAmount)
    );
    // No state mutated: counters unchanged and no transaction created.
    let after = get_bridge_info(&bridge);
    assert_eq!(after.total_locked, before.total_locked);
    assert_eq!(after.total_transfers, before.total_transfers);
    assert!(get_lock_info(&bridge, 1).is_err());
}

#[test]
fn test_lock_rejects_insufficient_balance() {
    let mut bridge = bridge_with_validators(1, 1);
    assert_eq!(
        lock_assets(&mut bridge, USER, MINT, 2_000_000, 1_999_999, DEST, [0u8; 64], 100),
        Err(BridgeError::InsufficientBalance)
    );
}

#[test]
fn test_lock_ids_increase_by_one() {
    let mut bridge = bridge_with_validators(1, 1);
    for expected in 1..=5u64 {
        let id = lock_assets(&mut bridge, USER, MINT, 1_000_000, u64::MAX, DEST, [0u8; 64], 100)
            .unwrap();
        assert_eq!(id, expected);
    }
    // A failed transfer does not free its id: mark id 3 failed, the next
    // lock still takes id 6.
    update_bridge_state(&mut bridge, 3, 3, 0, validator_key(1), 101).unwrap();
    let id = lock_assets(&mut bridge, USER, MINT, 1_000_000, u64::MAX, DEST, [0u8; 64], 102)
        .unwrap();
    assert_eq!(id, 6);
}

#[test]
fn test_unlock_completes_transfer_once() {
    let mut bridge = bridge_with_validators(1, 1);
    let id = lock_assets(&mut bridge, USER, MINT, 1_000_000, u64::MAX, DEST, [0u8; 64], 100)
        .unwrap();
    let sigs = vec![signature_of(validator_key(1))];
    unlock_assets(&mut bridge, id, RECIPIENT, 990_000, sigs.clone(), validator_key(1), 200)
        .unwrap();
    let info = get_bridge_info(&bridge);
    assert_eq!(info.total_unlocked, 990_000);
    let lock = get_lock_info(&bridge, id).unwrap();
    assert!(lock.is_processed);
    assert_eq!(lock.status, 2);

    // The replay guard: the same unlock again fails, and the unlocked
    // total grew exactly once.
    assert_eq!(
        unlock_assets(&mut bridge, id, RECIPIENT, 990_000, sigs, validator_key(1), 201),
        Err(BridgeError::TransactionAlreadyCompleted)
    );
    assert_eq!(get_bridge_info(&bridge).total_unlocked, 990_000);
}

#[test]
fn test_unlock_requires_threshold_signatures() {
    let mut bridge = bridge_with_validators(2, 2);
    let id = lock_assets(&mut bridge, USER, MINT, 1_000_000, u64::MAX, DEST, [0u8; 64], 100)
        .unwrap();
    // One signature against a threshold of two: rejected whatever the
    // amount or recipient.
    let one = vec![signature_of(validator_key(1))];
    assert_eq!(
        unlock_assets(&mut bridge, id, RECIPIENT, 990_000, one.clone(), validator_key(1), 200),
        Err(BridgeError::InsufficientValidatorSignatures)
    );
    assert_eq!(
        unlock_assets(&mut bridge, id, [8u8; 32], 1, one, validator_key(1), 200),
        Err(BridgeError::InsufficientValidatorSignatures)
    );
    // An empty set as well.
    assert_eq!(
        unlock_assets(&mut bridge, id, RECIPIENT, 990_000, vec![], validator_key(1), 200),
        Err(BridgeError::InsufficientValidatorSignatures)
    );
    // Two distinct active signers pass.
    let two = vec![signature_of(validator_key(1)), signature_of(validator_key(2))];
    unlock_assets(&mut bridge, id, RECIPIENT, 990_000, two, validator_key(1), 201).unwrap();
}

#[test]
fn test_removed_validator_signatures_do_not_count() {
    let mut bridge = bridge_with_validators(2, 3);
    let id = lock_assets(&mut bridge, USER, MINT, 1_000_000, u64::MAX, DEST, [0u8; 64], 100)
        .unwrap();
    remove_validator(&mut bridge, ADMIN, validator_key(2)).unwrap();
    // Three signatures, but all from the removed validator: the distinct
    // active signer count is zero, not three.
    let sigs = vec![
        signature_of(validator_key(2)),
        signature_of(validator_key(2)),
        signature_of(validator_key(2)),
    ];
    assert_eq!(
        unlock_assets(&mut bridge, id, RECIPIENT, 990_000, sigs, validator_key(1), 200),
        Err(BridgeError::InsufficientValidatorSignatures)
    );
    // Repeating one live identity does not help either.
    let repeated = vec![signature_of(validator_key(1)), signature_of(validator_key(1))];
    assert_eq!(
        unlock_assets(&mut bridge, id, RECIPIENT, 990_000, repeated, validator_key(1), 201),
        Err(BridgeError::InsufficientValidatorSignatures)
    );
}

#[test]
fn test_pause_blocks_transfers_but_not_queries() {
    let mut bridge = bridge_with_validators(1, 1);
    let id = lock_assets(&mut bridge, USER, MINT, 1_000_000, u64::MAX, DEST, [0u8; 64], 100)
        .unwrap();
    emergency_pause(&mut bridge, ADMIN, 150).unwrap();

    assert_eq!(
        lock_assets(&mut bridge, USER, MINT, 1_000_000, u64::MAX, DEST, [0u8; 64], 151),
        Err(BridgeError::BridgePaused)
    );
    let sigs = vec![signature_of(validator_key(1))];
    assert_eq!(
        unlock_assets(&mut bridge, id, RECIPIENT, 990_000, sigs.clone(), validator_key(1), 152),
        Err(BridgeError::BridgePaused)
    );

    // Queries keep answering while paused.
    let info = get_bridge_info(&bridge);
    assert_eq!(info.total_transfers, 1);
    let lock = get_lock_info(&bridge, id).unwrap();
    assert_eq!(lock.amount, 1_000_000);

    // After unpausing, the held-up unlock goes through.
    emergency_unpause(&mut bridge, ADMIN).unwrap();
    unlock_assets(&mut bridge, id, RECIPIENT, 990_000, sigs, validator_key(1), 153).unwrap();
}

#[test]
fn test_admin_only_operations() {
    let mut bridge = bridge_with_validators(1, 1);
    let intruder = [0xEEu8; 32];
    assert_eq!(
        emergency_pause(&mut bridge, intruder, 100),
        Err(BridgeError::UnauthorizedAdmin)
    );
    assert_eq!(
        emergency_unpause(&mut bridge, intruder),
        Err(BridgeError::UnauthorizedAdmin)
    );
    assert_eq!(
        update_config(&mut bridge, intruder, 1, 10, 100, 1, true),
        Err(BridgeError::UnauthorizedAdmin)
    );
    assert_eq!(
        add_validator(&mut bridge, intruder, validator_key(9), [3u8; 32], 100),
        Err(BridgeError::UnauthorizedAdmin)
    );
    assert_eq!(
        remove_validator(&mut bridge, intruder, validator_key(1)),
        Err(BridgeError::UnauthorizedAdmin)
    );
}

#[test]
fn test_update_config_validation() {
    let mut bridge = bridge_with_validators(1, 1);
    assert_eq!(
        update_config(&mut bridge, ADMIN, 0, 10, 100, 1, true),
        Err(BridgeError::InvalidAmount)
    );
    assert_eq!(
        update_config(&mut bridge, ADMIN, 10, 9, 100, 1, true),
        Err(BridgeError::InvalidAmount)
    );
    assert_eq!(
        update_config(&mut bridge, ADMIN, 10, 20, 1001, 1, true),
        Err(BridgeError::InvalidFee)
    );
    assert_eq!(
        update_config(&mut bridge, ADMIN, 10, 20, 1000, 0, true),
        Err(BridgeError::InvalidValidatorThreshold)
    );
    update_config(&mut bridge, ADMIN, 10, 20, 1000, 1, true).unwrap();
    let info = get_bridge_info(&bridge);
    assert_eq!(info.min_lock_amount, 10);
    assert_eq!(info.max_lock_amount, 20);
    assert_eq!(info.bridge_fee, 1000);
    assert_eq!(info.required_signatures, 1);
}

#[test]
fn test_bridge_not_active_rejected() {
    let mut bridge = bridge_with_validators(1, 1);
    update_config(&mut bridge, ADMIN, 1_000_000, 2_000_000, 100, 1, false).unwrap();
    assert_eq!(
        lock_assets(&mut bridge, USER, MINT, 1_000_000, u64::MAX, DEST, [0u8; 64], 100),
        Err(BridgeError::BridgeNotActive)
    );
    let sigs = vec![signature_of(validator_key(1))];
    assert_eq!(
        unlock_assets(&mut bridge, 1, RECIPIENT, 1, sigs, validator_key(1), 100),
        Err(BridgeError::BridgeNotActive)
    );
}

#[test]
fn test_validator_registry_rules() {
    let mut bridge = bridge_with_validators(1, 1);
    // Registering the same pubkey twice is refused.
    assert_eq!(
        add_validator(&mut bridge, ADMIN, validator_key(1), [3u8; 32], 100),
        Err(BridgeError::ValidatorAlreadyExists)
    );
    // Removing an unknown validator is refused.
    assert_eq!(
        remove_validator(&mut bridge, ADMIN, validator_key(42)),
        Err(BridgeError::ValidatorNotFound)
    );
    // Removal keeps the record but deactivates it, and the active count
    // drops.
    assert_eq!(get_bridge_info(&bridge).validator_count, 1);
    remove_validator(&mut bridge, ADMIN, validator_key(1)).unwrap();
    assert_eq!(get_bridge_info(&bridge).validator_count, 0);
    assert_eq!(bridge.registry.entries.len(), 1);
    assert!(!bridge.registry.entries[0].is_active);
    // An unlock authorized by the removed validator is refused outright.
    let mut b2 = bridge_with_validators(1, 1);
    let id = lock_assets(&mut b2, USER, MINT, 1_000_000, u64::MAX, DEST, [0u8; 64], 100).unwrap();
    remove_validator(&mut b2, ADMIN, validator_key(1)).unwrap();
    let sigs = vec![signature_of(validator_key(1))];
    assert_eq!(
        unlock_assets(&mut b2, id, RECIPIENT, 990_000, sigs, validator_key(1), 200),
        Err(BridgeError::UnauthorizedValidator)
    );
}

#[test]
fn test_validator_capacity_limit() {
    let mut bridge = bridge_with_validators(1, 255);
    assert_eq!(get_bridge_info(&bridge).validator_count, 255);
    assert_eq!(
        add_validator(&mut bridge, ADMIN, validator_key(256), [3u8; 32], 100),
        Err(BridgeError::MaximumValidatorsReached)
    );
}

#[test]
fn test_unlock_argument_errors() {
    let mut bridge = bridge_with_validators(1, 1);
    let id = lock_assets(&mut bridge, USER, MINT, 1_000_000, u64::MAX, DEST, [0u8; 64], 100)
        .unwrap();
    let sigs = vec![signature_of(validator_key(1))];
    // Unknown caller.
    assert_eq!(
        unlock_assets(&mut bridge, id, RECIPIENT, 990_000, sigs.clone(), validator_key(9), 200),
        Err(BridgeError::UnauthorizedValidator)
    );
    // Unknown transfer id.
    assert_eq!(
        unlock_assets(&mut bridge, 77, RECIPIENT, 990_000, sigs.clone(), validator_key(1), 200),
        Err(BridgeError::InvalidBridgeTransaction)
    );
    // A zero amount.
    assert_eq!(
        unlock_assets(&mut bridge, id, RECIPIENT, 0, sigs, validator_key(1), 200),
        Err(BridgeError::InvalidAmount)
    );
}

#[test]
fn test_status_updates_follow_state_machine() {
    let mut bridge = bridge_with_validators(1, 1);
    let id = lock_assets(&mut bridge, USER, MINT, 1_000_000, u64::MAX, DEST, [0u8; 64], 100)
        .unwrap();
    // An unknown status code is refused.
    assert_eq!(
        update_bridge_state(&mut bridge, id, 9, 1, validator_key(1), 101),
        Err(BridgeError::InvalidBridgeState)
    );
    // Pending cannot jump straight to Completed here.
    assert_eq!(
        update_bridge_state(&mut bridge, id, 2, 1, validator_key(1), 101),
        Err(BridgeError::InvalidBridgeState)
    );
    // Pending -> Confirmed -> Completed is the happy path.
    update_bridge_state(&mut bridge, id, 1, 3, validator_key(1), 102).unwrap();
    assert_eq!(get_lock_info(&bridge, id).unwrap().status, 1);
    update_bridge_state(&mut bridge, id, 2, 5, validator_key(1), 103).unwrap();
    assert_eq!(get_lock_info(&bridge, id).unwrap().status, 2);
    // No transition leaves a terminal state.
    assert_eq!(
        update_bridge_state(&mut bridge, id, 0, 5, validator_key(1), 104),
        Err(BridgeError::InvalidBridgeState)
    );
}

#[test]
fn test_unlock_rejects_terminal_records() {
    let mut bridge = bridge_with_validators(1, 1);
    let failed = lock_assets(&mut bridge, USER, MINT, 1_000_000, u64::MAX, DEST, [0u8; 64], 100)
        .unwrap();
    let expired = lock_assets(&mut bridge, USER, MINT, 1_000_000, u64::MAX, DEST, [0u8; 64], 100)
        .unwrap();
    update_bridge_state(&mut bridge, failed, 3, 0, validator_key(1), 101).unwrap();
    update_bridge_state(&mut bridge, expired, 4, 0, validator_key(1), 101).unwrap();
    let sigs = vec![signature_of(validator_key(1))];
    assert_eq!(
        unlock_assets(&mut bridge, failed, RECIPIENT, 990_000, sigs.clone(), validator_key(1), 200),
        Err(BridgeError::TransactionAlreadyFailed)
    );
    assert_eq!(
        unlock_assets(&mut bridge, expired, RECIPIENT, 990_000, sigs, validator_key(1), 200),
        Err(BridgeError::BridgeTransactionExpired)
    );
}

#[test]
fn test_validate_bridge_confirms_pending_transfer() {
    let mut bridge = bridge_with_validators(1, 1);
    let id = lock_assets(&mut bridge, USER, MINT, 1_000_000, u64::MAX, DEST, [0u8; 64], 100)
        .unwrap();
    validate_bridge(&mut bridge, id, [0xABu8; 32], validator_key(1), 110).unwrap();
    // Still pending — attestations do not transition status by themselves.
    let lock = get_lock_info(&bridge, id).unwrap();
    assert_eq!(lock.status, 0);
    assert_eq!(bridge.store.entries[0].confirmations, 1);
    assert_eq!(bridge.store.entries[0].qubic_tx_hash, [0xABu8; 32]);
    assert_eq!(bridge.registry.entries[0].last_activity, 110);
    // While paused the attestation is refused.
    emergency_pause(&mut bridge, ADMIN, 120).unwrap();
    assert_eq!(
        validate_bridge(&mut bridge, id, [0xABu8; 32], validator_key(1), 121),
        Err(BridgeError::BridgePaused)
    );
}

#[test]
fn test_get_lock_info_unknown_id() {
    let bridge = bridge_with_validators(1, 1);
    assert_eq!(
        get_lock_info(&bridge, 5).err(),
        Some(BridgeError::BridgeTransactionNotFound)
    );
}

#[test]
fn test_initialize_rejects_zero_threshold() {
    assert!(matches!(
        initialize_bridge(ADMIN, 0),
        Err(BridgeError::InvalidValidatorThreshold)
    ));
}

#[test]
fn test_error_messages_are_descriptive() {
    assert_eq!(BridgeError::BridgePaused.message(), "Bridge is currently paused");
    assert_eq!(BridgeError::InvalidAmount.message(), "Invalid amount provided");
    assert_eq!(
        BridgeError::InsufficientValidatorSignatures.message(),
        "Insufficient validator signatures"
    );
}

#[test]
fn test_hex_rendering_of_validator_ids() {
    let mut bridge = initialize_bridge(ADMIN, 1).unwrap();
    add_validator(&mut bridge, ADMIN, validator_key(1), [0xABu8; 32], 10).unwrap();
    // The stored cross-chain id is the lowercase hex of the 32 bytes.
    assert_eq!(
        bridge.registry.entries[0].qubic_validator_id,
        "ab".repeat(32)
    );
    add_validator(&mut bridge, ADMIN, validator_key(2), [0x01u8; 32], 10).unwrap();
    assert_eq!(
        bridge.registry.entries[1].qubic_validator_id,
        "01".repeat(32)
    );
}
