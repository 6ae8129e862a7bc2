use pallets::tokensale::math::calculate_initial_unlock;
use pallets::tokensale::{VestingConfig, VestingType};

#[test]
fn initial_unlock_of_linear_vesting() {
    let v = VestingConfig {
        vesting_type: VestingType::Linear,
        initial_unlock_bps: 2000,
        cliff_duration: 0,
        total_duration: 100,
        unlock_interval: 0,
    };
    assert_eq!(calculate_initial_unlock(&v, 1_000_000), 200_000);
}

#[test]
fn config_integrity_checks() {
    let c = pallets::community::Config {
        max_logs_per_community: 10,
        reputation_cooldown: 5,
        max_reputation_delta: 100,
        max_batch_size: 50,
        blocks_per_day: 14_400,
    };
    assert!(c.integrity_test());
    assert!(!pallets::community::Config { blocks_per_day: 0, ..c }.integrity_test());
    let t = pallets::tokensale::Config {
        max_payment_options: 5,
        max_whitelist_size: 100,
        max_rounds_history: 50,
        max_subscriptions_per_round: 1000,
        max_active_rounds: 10,
        refund_grace_period: 100,
        max_batch_refund: 50,
        pallet_account: 7777,
        db_read_weight: 1,
        db_write_weight: 1,
    };
    assert!(t.integrity_test());
    assert!(!pallets::tokensale::Config { max_batch_refund: 0, ..t }.integrity_test());
}
