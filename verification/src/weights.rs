//! Execution weight: computation time and proof size of a call.
use vstd::prelude::*;
use crate::arith::clamp_u64;

verus! {

/// Weight of a call: reference time and proof size.
#[derive(Clone, Copy, Debug, PartialEq, Eq, Structural)]
pub struct Weight {
    pub ref_time: u64,
    pub proof_size: u64,
}

impl Weight {
    pub fn from_parts(ref_time: u64, proof_size: u64) -> (w: Weight)
        ensures
            w == (Weight { ref_time, proof_size }),
    {
        Weight { ref_time, proof_size }
    }

    pub fn zero() -> (w: Weight)
        ensures
            w == (Weight { ref_time: 0, proof_size: 0 }),
    {
        Weight { ref_time: 0, proof_size: 0 }
    }

    pub open spec fn spec_saturating_add(self, other: Weight) -> Weight {
        Weight {
            ref_time: clamp_u64(self.ref_time + other.ref_time),
            proof_size: clamp_u64(self.proof_size + other.proof_size),
        }
    }

    /// Component-wise saturating sum.
    pub fn saturating_add(self, other: Weight) -> (w: Weight)
        ensures
            w == self.spec_saturating_add(other),
    {
        Weight {
            ref_time: self.ref_time.saturating_add(other.ref_time),
            proof_size: self.proof_size.saturating_add(other.proof_size),
        }
    }
}

/// Weight of storage reads and writes.
#[derive(Clone, Copy, Debug, PartialEq, Eq, Structural)]
pub struct DbWeight {
    pub read: u64,
    pub write: u64,
}

impl DbWeight {
    pub open spec fn spec_reads_writes(self, r: u64, w: u64) -> Weight {
        Weight { ref_time: clamp_u64(clamp_u64(self.read * r) + clamp_u64(self.write * w)), proof_size: 0 }
    }

    /// Weight of `r` reads and `w` writes.
    pub fn reads_writes(&self, r: u64, w: u64) -> (x: Weight)
        ensures
            x == self.spec_reads_writes(r, w),
    {
        let rr = sat_mul_u64(self.read, r);
        let ww = sat_mul_u64(self.write, w);
        Weight { ref_time: rr.saturating_add(ww), proof_size: 0 }
    }

    /// Weight of `r` reads.
    pub fn reads(&self, r: u64) -> (x: Weight)
        ensures
            x == self.spec_reads_writes(r, 0),
    {
        self.reads_writes(r, 0)
    }

    /// Weight of `w` writes.
    pub fn writes(&self, w: u64) -> (x: Weight)
        ensures
            x == self.spec_reads_writes(0, w),
    {
        self.reads_writes(0, w)
    }
}

/// Saturating product of two `u64` values.
pub fn sat_mul_u64(a: u64, b: u64) -> (r: u64)
    ensures
        r == clamp_u64(a * b),
{
    proof {
        assert(0 <= a * b) by (nonlinear_arith);
    }
    match a.checked_mul(b) {
        Some(v) => v,
        None => u64::MAX,
    }
}

/// `base + per * n` with saturation at each step.
pub open spec fn linear(base: u64, per: u64, n: u32) -> u64 {
    clamp_u64(base + clamp_u64(per * n))
}

pub fn linear_exec(base: u64, per: u64, n: u32) -> (r: u64)
    ensures
        r == linear(base, per, n),
{
    base.saturating_add(sat_mul_u64(per, n as u64))
}

} // verus!
