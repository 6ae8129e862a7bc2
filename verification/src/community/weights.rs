//! Weights of the community calls.
use vstd::prelude::*;
use crate::weights::{linear, linear_exec, Weight};

verus! {

/// Weight of each call of the pallet.
pub trait WeightInfo {
    fn submit_action_log() -> Weight;
    fn set_node_requirement() -> Weight;
    fn update_community_config() -> Weight;
    fn batch_submit_logs(len: u32) -> Weight;
    fn clear_expired_logs() -> Weight;
    fn award_reputation() -> Weight;
    fn deduct_reputation() -> Weight;
    fn reset_reputation() -> Weight;
    fn update_active_members() -> Weight;
    fn cleanup_expired_cooldowns() -> Weight;
    fn delete_community_config() -> Weight;
    fn force_remove_community() -> Weight;
    fn ban_community() -> Weight;
    fn unban_community() -> Weight;
    fn force_update_community_config() -> Weight;
    fn force_reset_community_reputation() -> Weight;
}

/// Conservative default weights.
pub struct SubstrateWeight;

/// The default weights.
impl WeightInfo for SubstrateWeight {
    fn submit_action_log() -> (w: Weight)
        ensures
            w == (Weight { ref_time: 55_000_000, proof_size: 8_000 }),
    {
        Weight::from_parts(55_000_000, 8_000)
    }

    fn set_node_requirement() -> (w: Weight)
        ensures
            w == (Weight { ref_time: 30_000_000, proof_size: 5_000 }),
    {
        Weight::from_parts(30_000_000, 5_000)
    }

    fn update_community_config() -> (w: Weight)
        ensures
            w == (Weight { ref_time: 40_000_000, proof_size: 6_000 }),
    {
        Weight::from_parts(40_000_000, 6_000)
    }

    fn batch_submit_logs(len: u32) -> (w: Weight)
        ensures
            w == (Weight { ref_time: linear(30_000_000, 55_000_000, len), proof_size: linear(5_000, 500, len) }),
    {
        Weight::from_parts(linear_exec(30_000_000, 55_000_000, len), linear_exec(5_000, 500, len))
    }

    fn clear_expired_logs() -> (w: Weight)
        ensures
            w == (Weight { ref_time: 50_000_000, proof_size: 10_000 }),
    {
        Weight::from_parts(50_000_000, 10_000)
    }

    fn award_reputation() -> (w: Weight)
        ensures
            w == (Weight { ref_time: 35_000_000, proof_size: 6_000 }),
    {
        Weight::from_parts(35_000_000, 6_000)
    }

    fn deduct_reputation() -> (w: Weight)
        ensures
            w == (Weight { ref_time: 35_000_000, proof_size: 6_000 }),
    {
        Weight::from_parts(35_000_000, 6_000)
    }

    fn reset_reputation() -> (w: Weight)
        ensures
            w == (Weight { ref_time: 30_000_000, proof_size: 5_000 }),
    {
        Weight::from_parts(30_000_000, 5_000)
    }

    fn update_active_members() -> (w: Weight)
        ensures
            w == (Weight { ref_time: 20_000_000, proof_size: 4_000 }),
    {
        Weight::from_parts(20_000_000, 4_000)
    }

    fn cleanup_expired_cooldowns() -> (w: Weight)
        ensures
            w == (Weight { ref_time: 15_000_000, proof_size: 4_000 }),
    {
        Weight::from_parts(15_000_000, 4_000)
    }

    fn delete_community_config() -> (w: Weight)
        ensures
            w == (Weight { ref_time: 60_000_000, proof_size: 12_000 }),
    {
        Weight::from_parts(60_000_000, 12_000)
    }

    fn force_remove_community() -> (w: Weight)
        ensures
            w == (Weight { ref_time: 80_000_000, proof_size: 15_000 }),
    {
        Weight::from_parts(80_000_000, 15_000)
    }

    fn ban_community() -> (w: Weight)
        ensures
            w == (Weight { ref_time: 25_000_000, proof_size: 5_000 }),
    {
        Weight::from_parts(25_000_000, 5_000)
    }

    fn unban_community() -> (w: Weight)
        ensures
            w == (Weight { ref_time: 25_000_000, proof_size: 5_000 }),
    {
        Weight::from_parts(25_000_000, 5_000)
    }

    fn force_update_community_config() -> (w: Weight)
        ensures
            w == (Weight { ref_time: 40_000_000, proof_size: 6_000 }),
    {
        Weight::from_parts(40_000_000, 6_000)
    }

    fn force_reset_community_reputation() -> (w: Weight)
        ensures
            w == (Weight { ref_time: 100_000_000, proof_size: 20_000 }),
    {
        Weight::from_parts(100_000_000, 20_000)
    }

}

/// The same weights, for tests.
impl WeightInfo for () {
    fn submit_action_log() -> (w: Weight)
        ensures
            w == (Weight { ref_time: 55_000_000, proof_size: 8_000 }),
    {
        Weight::from_parts(55_000_000, 8_000)
    }

    fn set_node_requirement() -> (w: Weight)
        ensures
            w == (Weight { ref_time: 30_000_000, proof_size: 5_000 }),
    {
        Weight::from_parts(30_000_000, 5_000)
    }

    fn update_community_config() -> (w: Weight)
        ensures
            w == (Weight { ref_time: 40_000_000, proof_size: 6_000 }),
    {
        Weight::from_parts(40_000_000, 6_000)
    }

    fn batch_submit_logs(len: u32) -> (w: Weight)
        ensures
            w == (Weight { ref_time: linear(30_000_000, 55_000_000, len), proof_size: linear(5_000, 500, len) }),
    {
        Weight::from_parts(linear_exec(30_000_000, 55_000_000, len), linear_exec(5_000, 500, len))
    }

    fn clear_expired_logs() -> (w: Weight)
        ensures
            w == (Weight { ref_time: 50_000_000, proof_size: 10_000 }),
    {
        Weight::from_parts(50_000_000, 10_000)
    }

    fn award_reputation() -> (w: Weight)
        ensures
            w == (Weight { ref_time: 35_000_000, proof_size: 6_000 }),
    {
        Weight::from_parts(35_000_000, 6_000)
    }

    fn deduct_reputation() -> (w: Weight)
        ensures
            w == (Weight { ref_time: 35_000_000, proof_size: 6_000 }),
    {
        Weight::from_parts(35_000_000, 6_000)
    }

    fn reset_reputation() -> (w: Weight)
        ensures
            w == (Weight { ref_time: 30_000_000, proof_size: 5_000 }),
    {
        Weight::from_parts(30_000_000, 5_000)
    }

    fn update_active_members() -> (w: Weight)
        ensures
            w == (Weight { ref_time: 20_000_000, proof_size: 4_000 }),
    {
        Weight::from_parts(20_000_000, 4_000)
    }

    fn cleanup_expired_cooldowns() -> (w: Weight)
        ensures
            w == (Weight { ref_time: 15_000_000, proof_size: 4_000 }),
    {
        Weight::from_parts(15_000_000, 4_000)
    }

    fn delete_community_config() -> (w: Weight)
        ensures
            w == (Weight { ref_time: 60_000_000, proof_size: 12_000 }),
    {
        Weight::from_parts(60_000_000, 12_000)
    }

    fn force_remove_community() -> (w: Weight)
        ensures
            w == (Weight { ref_time: 80_000_000, proof_size: 15_000 }),
    {
        Weight::from_parts(80_000_000, 15_000)
    }

    fn ban_community() -> (w: Weight)
        ensures
            w == (Weight { ref_time: 25_000_000, proof_size: 5_000 }),
    {
        Weight::from_parts(25_000_000, 5_000)
    }

    fn unban_community() -> (w: Weight)
        ensures
            w == (Weight { ref_time: 25_000_000, proof_size: 5_000 }),
    {
        Weight::from_parts(25_000_000, 5_000)
    }

    fn force_update_community_config() -> (w: Weight)
        ensures
            w == (Weight { ref_time: 40_000_000, proof_size: 6_000 }),
    {
        Weight::from_parts(40_000_000, 6_000)
    }

    fn force_reset_community_reputation() -> (w: Weight)
        ensures
            w == (Weight { ref_time: 100_000_000, proof_size: 20_000 }),
    {
        Weight::from_parts(100_000_000, 20_000)
    }

}

} // verus!
