use verification::{ConsensusLimits, LegacyLimits};

#[test]
fn legacy_limits_values() {
    let limits = LegacyLimits::new();
    assert_eq!(limits.max_block_sigops(), 20_000);
    assert_eq!(limits.max_block_size(), 1_000_000);
    assert_eq!(limits.max_transaction_size(), 1_000_000);
}
