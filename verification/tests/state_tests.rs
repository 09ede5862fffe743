// Tests of the ledger helpers, the status codec, and validator
// reputation bookkeeping.

use quantum_link::errors::BridgeError;
use quantum_link::protocol::{add_validator, initialize_bridge};
use quantum_link::state::{status_code, status_from_code};
use quantum_link::types::BridgeStatus;

const ADMIN: [u8; 32] = [1u8; 32];

#[test]
fn test_ledger_helpers() {
    let bridge = initialize_bridge(ADMIN, 2).unwrap();
    assert!(!bridge.state.is_emergency_paused());
    // Default bounds: [1,000,000, 1,000,000,000,000], both inclusive.
    assert!(bridge.state.can_bridge(1_000_000));
    assert!(bridge.state.can_bridge(1_000_000_000_000));
    assert!(!bridge.state.can_bridge(999_999));
    assert!(!bridge.state.can_bridge(1_000_000_000_001));
    // The default fee is 100 bps: 1%.
    assert_eq!(bridge.state.calculate_fee(1_000_000), (990_000, 10_000));
}

#[test]
fn test_status_codes_round_trip() {
    let statuses = [
        BridgeStatus::Pending,
        BridgeStatus::Confirmed,
        BridgeStatus::Completed,
        BridgeStatus::Failed,
        BridgeStatus::Expired,
    ];
    for status in statuses {
        assert_eq!(status_from_code(status_code(status)), Some(status));
    }
    assert_eq!(status_code(BridgeStatus::Pending), 0);
    assert_eq!(status_code(BridgeStatus::Completed), 2);
    assert_eq!(status_from_code(9), None);
}

#[test]
fn test_validator_reputation_floors_at_zero() {
    let mut bridge = initialize_bridge(ADMIN, 1).unwrap();
    let validator = [2u8; 32];
    add_validator(&mut bridge, ADMIN, validator, [3u8; 32], 10).unwrap();

    // Two successes, then three failures: the counter floors at zero.
    bridge.registry.record_outcome(&validator, true, 11).unwrap();
    bridge.registry.record_outcome(&validator, true, 12).unwrap();
    assert_eq!(bridge.registry.entries[0].stake, 2);
    bridge.registry.record_outcome(&validator, false, 13).unwrap();
    bridge.registry.record_outcome(&validator, false, 14).unwrap();
    bridge.registry.record_outcome(&validator, false, 15).unwrap();
    assert_eq!(bridge.registry.entries[0].stake, 0);
    assert_eq!(bridge.registry.entries[0].last_activity, 15);

    // Unknown identities are refused.
    assert_eq!(
        bridge.registry.record_outcome(&[9u8; 32], true, 16),
        Err(BridgeError::ValidatorNotFound)
    );
}
