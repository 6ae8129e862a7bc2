//! Weights of the ceremony calls.
use vstd::prelude::*;
use crate::weights::{linear, linear_exec, Weight};

verus! {

/// Weight of each call of the pallet.
pub trait WeightInfo {
    fn record_ceremony(p: u32) -> Weight;
    fn revoke_ceremony() -> Weight;
    fn approve_ceremony_enclave() -> Weight;
    fn remove_ceremony_enclave() -> Weight;
    fn force_re_ceremony() -> Weight;
    fn cleanup_ceremony() -> Weight;
    fn owner_revoke_ceremony() -> Weight;
    fn revoke_by_mrenclave() -> Weight;
    fn trigger_expiry() -> Weight;
    fn batch_cleanup_ceremonies(n: u32) -> Weight;
    fn renew_ceremony() -> Weight;
    fn on_initialize() -> Weight;
}

/// Conservative default weights.
pub struct SubstrateWeight;

impl WeightInfo for SubstrateWeight {
    fn record_ceremony(p: u32) -> (w: Weight)
        ensures
            w == (Weight { ref_time: linear(50_000_000, 5_000_000, p), proof_size: linear(10_000, 1_000, p) }),
    {
        Weight::from_parts(linear_exec(50_000_000, 5_000_000, p), linear_exec(10_000, 1_000, p))
    }

    fn revoke_ceremony() -> (w: Weight)
        ensures
            w == (Weight { ref_time: 40_000_000, proof_size: 6_000 }),
    {
        Weight::from_parts(40_000_000, 6_000)
    }

    fn approve_ceremony_enclave() -> (w: Weight)
        ensures
            w == (Weight { ref_time: 25_000_000, proof_size: 4_000 }),
    {
        Weight::from_parts(25_000_000, 4_000)
    }

    fn remove_ceremony_enclave() -> (w: Weight)
        ensures
            w == (Weight { ref_time: 20_000_000, proof_size: 3_000 }),
    {
        Weight::from_parts(20_000_000, 3_000)
    }

    fn force_re_ceremony() -> (w: Weight)
        ensures
            w == (Weight { ref_time: 40_000_000, proof_size: 6_000 }),
    {
        Weight::from_parts(40_000_000, 6_000)
    }

    fn cleanup_ceremony() -> (w: Weight)
        ensures
            w == (Weight { ref_time: 30_000_000, proof_size: 6_000 }),
    {
        Weight::from_parts(30_000_000, 6_000)
    }

    fn owner_revoke_ceremony() -> (w: Weight)
        ensures
            w == (Weight { ref_time: 40_000_000, proof_size: 6_000 }),
    {
        Weight::from_parts(40_000_000, 6_000)
    }

    fn revoke_by_mrenclave() -> (w: Weight)
        ensures
            w == (Weight { ref_time: 100_000_000, proof_size: 20_000 }),
    {
        Weight::from_parts(100_000_000, 20_000)
    }

    fn trigger_expiry() -> (w: Weight)
        ensures
            w == (Weight { ref_time: 30_000_000, proof_size: 6_000 }),
    {
        Weight::from_parts(30_000_000, 6_000)
    }

    fn batch_cleanup_ceremonies(n: u32) -> (w: Weight)
        ensures
            w == (Weight { ref_time: linear(20_000_000, 10_000_000, n), proof_size: linear(4_000, 2_000, n) }),
    {
        Weight::from_parts(linear_exec(20_000_000, 10_000_000, n), linear_exec(4_000, 2_000, n))
    }

    fn renew_ceremony() -> (w: Weight)
        ensures
            w == (Weight { ref_time: 40_000_000, proof_size: 8_000 }),
    {
        Weight::from_parts(40_000_000, 8_000)
    }

    fn on_initialize() -> (w: Weight)
        ensures
            w == (Weight { ref_time: 50_000_000, proof_size: 10_000 }),
    {
        Weight::from_parts(50_000_000, 10_000)
    }
}

/// Zero weights, for tests.
impl WeightInfo for () {
    fn record_ceremony(_p: u32) -> (w: Weight)
        ensures
            w == (Weight { ref_time: 0, proof_size: 0 }),
    {
        Weight::zero()
    }

    fn revoke_ceremony() -> (w: Weight)
        ensures
            w == (Weight { ref_time: 0, proof_size: 0 }),
    {
        Weight::zero()
    }

    fn approve_ceremony_enclave() -> (w: Weight)
        ensures
            w == (Weight { ref_time: 0, proof_size: 0 }),
    {
        Weight::zero()
    }

    fn remove_ceremony_enclave() -> (w: Weight)
        ensures
            w == (Weight { ref_time: 0, proof_size: 0 }),
    {
        Weight::zero()
    }

    fn force_re_ceremony() -> (w: Weight)
        ensures
            w == (Weight { ref_time: 0, proof_size: 0 }),
    {
        Weight::zero()
    }

    fn cleanup_ceremony() -> (w: Weight)
        ensures
            w == (Weight { ref_time: 0, proof_size: 0 }),
    {
        Weight::zero()
    }

    fn owner_revoke_ceremony() -> (w: Weight)
        ensures
            w == (Weight { ref_time: 0, proof_size: 0 }),
    {
        Weight::zero()
    }

    fn revoke_by_mrenclave() -> (w: Weight)
        ensures
            w == (Weight { ref_time: 0, proof_size: 0 }),
    {
        Weight::zero()
    }

    fn trigger_expiry() -> (w: Weight)
        ensures
            w == (Weight { ref_time: 0, proof_size: 0 }),
    {
        Weight::zero()
    }

    fn batch_cleanup_ceremonies(_n: u32) -> (w: Weight)
        ensures
            w == (Weight { ref_time: 0, proof_size: 0 }),
    {
        Weight::zero()
    }

    fn renew_ceremony() -> (w: Weight)
        ensures
            w == (Weight { ref_time: 0, proof_size: 0 }),
    {
        Weight::zero()
    }

    fn on_initialize() -> (w: Weight)
        ensures
            w == (Weight { ref_time: 0, proof_size: 0 }),
    {
        Weight::zero()
    }
}

} // verus!
