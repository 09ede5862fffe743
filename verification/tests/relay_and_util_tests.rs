// Tests of the relay coordinator's decision core, the transaction record
// helpers, the validator service bookkeeping, and the crypto utilities.

use quantum_link::crypto::{generate_keypair, hash};
use quantum_link::relay::{
    generate_validator_signatures, BridgeConfig, RelayCoordinator, TransactionProjection,
};
use quantum_link::state::BridgeTransaction;
use quantum_link::types::{BridgeDirection, BridgeStatus, ValidatorSignature};
use quantum_link::validator_metrics::ValidatorState;
use quantum_link::validators::{register_validator, update_validator_status, validate_transaction};

fn relay_config(threshold: u64) -> BridgeConfig {
    BridgeConfig {
        solana_rpc_url: "http://localhost:8899".to_string(),
        qubic_rpc_url: "http://localhost:9000".to_string(),
        bridge_program_id: [2u8; 32],
        validator_private_key: "SECRET-REDACTED".to_string(),
        confirmation_threshold: threshold,
        max_retry_attempts: 3,
        retry_delay_seconds: 30,
    }
}

fn projection(id: u64, confirmations: u64) -> TransactionProjection {
    TransactionProjection {
        id,
        initiator: [4u8; 32],
        amount: 990_000,
        destination: [6u8; 32],
        status: BridgeStatus::Pending,
        confirmations,
        created_at: 100,
        updated_at: 100,
        direction: BridgeDirection::SolanaToQubic,
    }
}

#[test]
fn test_relay_round_trip_retires_entry() {
    // The relay observes a lock, submits the mirrored unlock, the
    // destination confirms completion, and the reconciler retires the id.
    let mut relay = RelayCoordinator::new(relay_config(1));
    assert!(relay.observe_transaction(projection(7, 1)));
    assert_eq!(relay.pending_count(), 1);

    let sub = relay.take_submission().expect("entry is ripe for submission");
    assert_eq!(sub.lock_id, 7);
    assert_eq!(sub.amount, 990_000);
    assert_eq!(sub.recipient, [6u8; 32]);

    // Backpressure: no second outstanding submission for the same id.
    assert!(relay.take_submission().is_none());

    relay.handle_submission_result(7, true);
    relay.reconcile_transaction(7, BridgeStatus::Completed);
    assert_eq!(relay.pending_count(), 0);

    // Once retired, the id never re-enters the pending-set.
    assert!(!relay.observe_transaction(projection(7, 2)));
    assert_eq!(relay.pending_count(), 0);
}

#[test]
fn test_relay_submission_waits_for_confirmations() {
    let mut relay = RelayCoordinator::new(relay_config(6));
    assert!(relay.observe_transaction(projection(1, 2)));
    // Not enough confirmations yet.
    assert!(relay.take_submission().is_none());
    // A later poll brings the count over the threshold.
    assert!(relay.observe_transaction(projection(1, 6)));
    assert!(relay.take_submission().is_some());
}

#[test]
fn test_relay_retries_and_flags_for_attention() {
    let mut relay = RelayCoordinator::new(relay_config(1));
    assert!(relay.observe_transaction(projection(3, 1)));
    for _ in 0..3 {
        let sub = relay.take_submission().expect("retry is allowed");
        relay.handle_submission_result(sub.lock_id, false);
    }
    // The retry ceiling was reached: the entry is flagged for an
    // operator, but stays pending rather than being auto-failed.
    assert!(relay.pending[0].needs_attention);
    assert!(!relay.pending[0].retired);
    assert_eq!(relay.pending_count(), 1);
}

#[test]
fn test_relay_reconciler_ignores_live_statuses() {
    let mut relay = RelayCoordinator::new(relay_config(1));
    assert!(relay.observe_transaction(projection(5, 1)));
    relay.reconcile_transaction(5, BridgeStatus::Pending);
    relay.reconcile_transaction(5, BridgeStatus::Confirmed);
    assert_eq!(relay.pending_count(), 1);
    relay.reconcile_transaction(5, BridgeStatus::Failed);
    assert_eq!(relay.pending_count(), 0);
}

#[test]
fn test_relay_sweep_retires_confirmed_entries() {
    let mut relay = RelayCoordinator::new(relay_config(3));
    assert!(relay.observe_transaction(projection(1, 5)));
    assert!(relay.observe_transaction(projection(2, 1)));
    relay.process_pending_transactions();
    assert_eq!(relay.pending_count(), 1);
    assert!(relay.pending[0].retired);
    assert!(!relay.pending[1].retired);
}

#[test]
fn test_placeholder_signature_bundle() {
    let sigs = generate_validator_signatures();
    assert_eq!(sigs.len(), 1);
    assert_eq!(sigs[0], vec![0u8; 64]);
}

#[test]
fn test_transaction_record_helpers() {
    let mut tx = BridgeTransaction::new(9, [4u8; 32], [5u8; 32], 500, BridgeDirection::QubicToSolana, 1000);
    assert_eq!(tx.id, 9);
    assert!(tx.is_pending());
    assert!(!tx.is_completed());
    assert!(!tx.is_expired(1000, 60));
    assert!(!tx.is_expired(1060, 60));
    assert!(tx.is_expired(1061, 60));

    // The attached-signature list is capped at ten entries.
    let sig = ValidatorSignature {
        validator_id: [1u8; 32],
        signature: [2u8; 64],
        timestamp: 1001,
    };
    for _ in 0..10 {
        assert!(tx.add_validator_signature(sig));
    }
    assert!(!tx.add_validator_signature(sig));
    assert_eq!(tx.validator_signatures.len(), 10);
    assert!(tx.has_enough_signatures(10));
    assert!(!tx.has_enough_signatures(11));
}

#[test]
fn test_validator_service_bookkeeping() {
    let mut state = ValidatorState::new("validator-1".to_string());
    assert_eq!(state.performance_metrics.total_validations, 0);
    state.record_validation(true);
    state.record_validation(true);
    state.record_validation(false);
    assert_eq!(state.performance_metrics.total_validations, 3);
    assert_eq!(state.performance_metrics.successful_validations, 2);
    assert_eq!(state.performance_metrics.failed_validations, 1);

    state.add_validator("peer-a".to_string(), 100);
    state.add_validator("peer-b".to_string(), 200);
    state.deactivate_validator(&"peer-a".to_string());
    assert!(!state.validators[0].is_active);
    assert!(state.validators[1].is_active);
}

#[test]
fn test_validator_identity_records() {
    let mut record = register_validator([1u8; 32], [2u8; 32]);
    assert!(record.is_active);
    update_validator_status(&mut record, false);
    assert!(!record.is_active);
    assert_eq!(record.validator_pubkey, [1u8; 32]);

    let verdict = validate_transaction([3u8; 32], true);
    assert_eq!(verdict.transaction_hash, [3u8; 32]);
    assert!(verdict.is_valid);
}

#[test]
fn test_sha256_digest() {
    // The digest of "abc" is the published SHA-256 test vector — the
    // result is a real digest, not the input handed back.
    let digest = hash(b"abc");
    assert_eq!(digest.len(), 32);
    assert_eq!(
        hex::encode(&digest),
        "ba7816bf8f01cfea414140de5dae2223b00361a396177a9cb410ff61f20015ad"
    );
    let empty = hash(b"");
    assert_eq!(
        hex::encode(&empty),
        "e3b0c44298fc1c149afbf4c8996fb92427ae41e4649b934ca495991b7852b855"
    );
}

#[test]
fn test_generate_keypair_shape() {
    let (public_key, secret_key) = generate_keypair();
    assert_eq!(public_key, vec![0u8; 32]);
    assert_eq!(secret_key, vec![0u8; 32]);
}
