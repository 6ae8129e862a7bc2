//! Pricing, sharing and audience arithmetic of the advertising pallet.
use vstd::prelude::*;
use vstd::relations::*;
use crate::arith::{clamp_u128, sat_mul_u128};
use crate::grouprobot::AdDeliveryType;
use crate::kvmap::seq_or_empty;
use super::Pallet;

verus! {

broadcast use vstd::seq_lib::group_to_multiset_ensures;

/// Cost of a delivery: `bid * audience / 1000 * multiplier / 100`, the product saturating.
pub open spec fn spec_cpm_cost(bid_per_mille: u128, audience: u32, delivery_type: AdDeliveryType) -> u128 {
    (clamp_u128(bid_per_mille * audience) / 1000 * delivery_type.spec_cpm_multiplier_bps() / 100) as u128
}

/// `value * pct / 100`, the product saturating.
pub open spec fn spec_percent_of(value: u128, pct: u32) -> u128 {
    clamp_u128(value * pct) / 100
}

/// Audience cap bought by a stake: 20 per whole unit (10^12) up to 50 units,
/// then 4000/150 per unit up to 200 units, then 5000/300 per unit, never above 10000.
pub open spec fn spec_audience_cap(stake: u128) -> u32 {
    let units = stake / 1_000_000_000_000;
    let cap: int = if units <= 50 {
        units * 20
    } else if units <= 200 {
        1000 + (units - 50) * 4000 / 150
    } else {
        5000 + (units - 200) * 5000 / 300
    };
    if cap > 10_000 { 10_000 } else { cap as u32 }
}

/// Smallest element of a non-empty sequence.
pub open spec fn seq_min(s: Seq<u32>) -> u32
    decreases s.len(),
{
    if s.len() <= 1 {
        s[0]
    } else {
        let m = seq_min(s.drop_last());
        if s.last() < m { s.last() } else { m }
    }
}

/// Largest element of a non-empty sequence.
pub open spec fn seq_max(s: Seq<u32>) -> u32
    decreases s.len(),
{
    if s.len() <= 1 {
        s[0]
    } else {
        let m = seq_max(s.drop_last());
        if s.last() > m { s.last() } else { m }
    }
}

pub open spec fn u32_leq() -> spec_fn(u32, u32) -> bool {
    |a: u32, b: u32| a <= b
}

/// Element at the middle position of the sorted sequence (the upper median).
pub open spec fn seq_median(s: Seq<u32>) -> u32 {
    s.sort_by(u32_leq())[(s.len() / 2) as int]
}

/// The audiences of a community's node reports.
pub open spec fn report_audiences(reports: Seq<(u32, u32)>) -> Seq<u32> {
    reports.map_values(|r: (u32, u32)| r.1)
}

/// Outcome of cross-checking node reports: fewer than two reports pass with
/// the first audience, a zero minimum passes with the maximum, a spread of more
/// than `threshold` percent of the minimum is refused with `(min, max)`, and
/// otherwise the median passes.
pub open spec fn spec_validate_reports(reports: Seq<(u32, u32)>, threshold: u32) -> Result<Option<u32>, (u32, u32)> {
    let a = report_audiences(reports);
    if a.len() < 2 {
        Ok(if a.len() == 0 { None } else { Some(a[0]) })
    } else if seq_min(a) == 0 {
        Ok(Some(seq_max(a)))
    } else if (seq_max(a) - seq_min(a)) * 100 / (seq_min(a) as int) > threshold {
        Err((seq_min(a), seq_max(a)))
    } else {
        Ok(Some(seq_median(a)))
    }
}

/// `bid * audience / 1000 * multiplier / 100`.
pub fn compute_cpm_cost(bid_per_mille: u128, audience: u32, delivery_type: &AdDeliveryType) -> (r: u128)
    ensures
        r == spec_cpm_cost(bid_per_mille, audience, *delivery_type),
{
    let base = sat_mul_u128(bid_per_mille, audience as u128) / 1000;
    let m = delivery_type.cpm_multiplier_bps() as u128;
    assert(base * m <= u128::MAX) by (nonlinear_arith)
        requires
            base <= u128::MAX / 1000,
            m <= 100,
    ;
    base * m / 100
}

/// `value * pct / 100`, the product saturating.
pub fn percent_of(value: u128, pct: u32) -> (r: u128)
    ensures
        r == spec_percent_of(value, pct),
{
    sat_mul_u128(value, pct as u128) / 100
}

/// A percentage of at most 100 never exceeds the value.
pub proof fn lemma_percent_of_bounded(value: u128, pct: u32)
    requires
        pct <= 100,
    ensures
        spec_percent_of(value, pct) <= value,
{
    assert(value * pct <= value * 100) by (nonlinear_arith)
        requires
            pct <= 100,
    ;
    assert(value * pct >= 0) by (nonlinear_arith);
}

/// Two percentages that add up to at most 100 take together at most the value.
pub proof fn lemma_percent_shares_bounded(value: u128, p: u32, q: u32)
    requires
        p + q <= 100,
    ensures
        spec_percent_of(value, p) + spec_percent_of(value, q) <= value,
{
    let x = value * p;
    let y = value * q;
    assert(x >= 0 && y >= 0) by (nonlinear_arith)
        requires
            x == value * p,
            y == value * q,
            value >= 0,
            p >= 0,
            q >= 0,
    ;
    assert(x + y <= value * 100) by (nonlinear_arith)
        requires
            x == value * p,
            y == value * q,
            p + q <= 100,
            value >= 0,
    ;
    let cx = clamp_u128(x) as int;
    let cy = clamp_u128(y) as int;
    assert(cx / 100 + cy / 100 <= value) by (nonlinear_arith)
        requires
            0 <= cx <= x,
            0 <= cy <= y,
            x + y <= value * 100,
    ;
}

/// Audience cap bought by a stake.
pub fn compute_audience_cap(stake: u128) -> (r: u32)
    ensures
        r == spec_audience_cap(stake),
        r <= 10_000,
{
    let units: u128 = stake / 1_000_000_000_000;
    let cap: u128 = if units <= 50 {
        units * 20
    } else if units <= 200 {
        let extra = units - 50;
        1000 + extra * 4000 / 150
    } else {
        let extra = units - 200;
        assert(extra * 5000 <= u128::MAX) by (nonlinear_arith)
            requires
                extra <= u128::MAX / 1_000_000_000_000,
        ;
        assert(extra * 5000 / 300 <= u128::MAX / 1_000_000_000) by (nonlinear_arith)
            requires
                extra <= u128::MAX / 1_000_000_000_000,
        ;
        5000 + extra * 5000 / 300
    };
    if cap < 10_000 {
        cap as u32
    } else {
        10_000
    }
}

/// The cap never decreases when the stake grows.
pub proof fn lemma_audience_cap_monotone(a: u128, b: u128)
    requires
        a <= b,
    ensures
        spec_audience_cap(a) <= spec_audience_cap(b),
{
    let ua = a / 1_000_000_000_000;
    let ub = b / 1_000_000_000_000;
    assert(ua <= ub) by (nonlinear_arith)
        requires
            a <= b,
            ua == a / 1_000_000_000_000,
            ub == b / 1_000_000_000_000,
    ;
    if 50 <= ua && ua <= 200 && ub <= 200 {
        assert((ua - 50) * 4000 / 150 <= (ub - 50) * 4000 / 150) by (nonlinear_arith)
            requires
                50 <= ua <= ub,
        ;
    }
    if 200 <= ua {
        assert((ua - 200) * 5000 / 300 <= (ub - 200) * 5000 / 300) by (nonlinear_arith)
            requires
                200 <= ua <= ub,
        ;
    }
    if ua <= 200 && 200 < ub {
        assert(0 <= (ub - 200) * 5000 / 300) by (nonlinear_arith)
            requires
                200 < ub,
        ;
        if ua >= 50 {
            assert((ua - 50) * 4000 / 150 <= 4000) by (nonlinear_arith)
                requires
                    50 <= ua <= 200,
            ;
        }
    }
    if ua <= 50 && 50 < ub && ub <= 200 {
        assert(0 <= (ub - 50) * 4000 / 150) by (nonlinear_arith)
            requires
                50 < ub,
        ;
    }
    assert(150 * 4000 / 150 == 4000);
}

fn min_max(a: &Vec<u32>) -> (r: (u32, u32))
    requires
        a@.len() >= 1,
    ensures
        r.0 == seq_min(a@),
        r.1 == seq_max(a@),
{
    let mut lo = a[0];
    let mut hi = a[0];
    let mut i: usize = 1;
    while i < a.len()
        invariant
            1 <= i <= a@.len(),
            lo == seq_min(a@.take(i as int)),
            hi == seq_max(a@.take(i as int)),
        decreases a@.len() - i,
    {
        assert(a@.take(i + 1).drop_last() =~= a@.take(i as int));
        if a[i] < lo {
            lo = a[i];
        }
        if a[i] > hi {
            hi = a[i];
        }
        i = i + 1;
    }
    assert(a@.take(a@.len() as int) =~= a@);
    (lo, hi)
}

proof fn lemma_min_le_max(s: Seq<u32>)
    requires
        s.len() >= 1,
    ensures
        seq_min(s) <= seq_max(s),
        seq_min(s) <= s[0],
    decreases s.len(),
{
    if s.len() > 1 {
        lemma_min_le_max(s.drop_last());
    }
}

/// Sorts ascending by insertion.
fn sort_u32(v: Vec<u32>) -> (r: Vec<u32>)
    ensures
        sorted_by(r@, u32_leq()),
        r@.to_multiset() == v@.to_multiset(),
{
    let mut a = v;
    let n = a.len();
    let mut i: usize = 1;
    if n == 0 {
        return a;
    }
    while i < n
        invariant
            1 <= i <= n,
            a@.len() == n,
            a@.to_multiset() == v@.to_multiset(),
            sorted_by(a@.take(i as int), u32_leq()),
        decreases n - i,
    {
        proof {
            assert forall|p: int, q: int| 0 <= p < q < i implies a@[p] <= a@[q] by {
                assert(u32_leq()(a@.take(i as int)[p], a@.take(i as int)[q]));
            }
        }
        let mut j: usize = i;
        while j > 0 && a[j - 1] > a[j]
            invariant
                0 <= j <= i < n,
                a@.len() == n,
                a@.to_multiset() == v@.to_multiset(),
                // prefix [0, i] sorted except that position j may be out of place
                forall|p: int, q: int| 0 <= p < q <= i && q != j && p != j ==> a@[p] <= a@[q],
                forall|q: int| j < q <= i ==> a@[j as int] <= a@[q],
                j < i ==> forall|p: int| 0 <= p < j ==> #[trigger] a@[p] <= a@[j + 1],
            decreases j,
        {
            let x = a[j - 1];
            let y = a[j];
            let ghost before = a@;
            a.set(j - 1, y);
            a.set(j, x);
            proof {
                let mid = before.update(j - 1, y);
                assert(mid.to_multiset() == before.to_multiset().insert(y).remove(x)) by {
                    vstd::seq_lib::to_multiset_update(before, j - 1, y);
                }
                assert(a@ == mid.update(j as int, x));
                assert(a@.to_multiset() == mid.to_multiset().insert(x).remove(mid[j as int])) by {
                    vstd::seq_lib::to_multiset_update(mid, j as int, x);
                }
                assert(a@.to_multiset() =~= before.to_multiset());
            }
            j = j - 1;
        }
        proof {
            assert forall|p: int, q: int| 0 <= p < q < i + 1 implies #[trigger] u32_leq()(a@.take(i + 1)[p], a@.take(i + 1)[q]) by {
                if p == j as int {
                } else if q == j as int {
                    if j > 0 {
                    }
                } else {
                }
            }
        }
        i = i + 1;
    }
    assert(a@.take(n as int) =~= a@);
    a
}

impl Pallet {
    /// Cross-checks the audience reports of different nodes for a community.
    pub fn validate_node_reports(&self, community_id_hash: &[u8; 32]) -> (r: Result<Option<u32>, (u32, u32)>)
        ensures
            r == spec_validate_reports(
                seq_or_empty(self.node_audience_reports@, *community_id_hash),
                self.config.node_deviation_threshold_pct,
            ),
    {
        let empty: Vec<(u32, u32)> = Vec::new();
        let reports: &Vec<(u32, u32)> = match self.node_audience_reports.get(community_id_hash) {
            Some(v) => v,
            None => &empty,
        };
        let ghost rs = reports@;
        let mut audiences: Vec<u32> = Vec::new();
        let mut i: usize = 0;
        while i < reports.len()
            invariant
                0 <= i <= rs.len(),
                rs == reports@,
                audiences@ =~= report_audiences(rs.take(i as int)),
            decreases rs.len() - i,
        {
            audiences.push(reports[i].1);
            i = i + 1;
        }
        assert(rs.take(rs.len() as int) =~= rs);
        let ghost a = audiences@;
        if audiences.len() < 2 {
            if audiences.len() == 0 {
                return Ok(None);
            }
            return Ok(Some(audiences[0]));
        }
        let (min_a, max_a) = min_max(&audiences);
        if min_a == 0 {
            return Ok(Some(max_a));
        }
        proof {
            lemma_min_le_max(a);
        }
        let deviation_pct: u64 = ((max_a - min_a) as u64 * 100) / (min_a as u64);
        let threshold = self.config.node_deviation_threshold_pct as u64;
        if deviation_pct > threshold {
            Err((min_a, max_a))
        } else {
            let n = audiences.len();
            let sorted = sort_u32(audiences);
            proof {
                a.lemma_sort_by_ensures(u32_leq());
                assert(total_ordering(u32_leq())) by {
                    reveal(total_ordering);
                    reveal(reflexive);
                    reveal(antisymmetric);
                    reveal(transitive);
                    reveal(strongly_connected);
                }
                vstd::seq_lib::lemma_sorted_unique(sorted@, a.sort_by(u32_leq()), u32_leq());
            }
            proof {
                vstd::seq_lib::to_multiset_len(sorted@);
                vstd::seq_lib::to_multiset_len(a);
            }
            Ok(Some(sorted[n / 2]))
        }
    }
}

/// The audience cap in terms of whole staked units (10^12 each): 20 per unit
/// up to 50 units; from 1000 at 50 units, 4000 more spread evenly over the next
/// 150 units; from 5000 at 200 units, 5000 more spread evenly over the next 300
/// units, rounded down; and the full 10000 from 500 units on.
pub proof fn lemma_audience_cap_tiers(stake: u128)
    ensures
        ({
            let units = stake / 1_000_000_000_000;
            let cap = spec_audience_cap(stake) as int;
            &&& units <= 50 ==> cap == 20 * units
            &&& 50 <= units <= 200 ==> (cap - 1000) * 150 <= (units - 50) * 4000 < (cap - 1000 + 1) * 150
            &&& 200 <= units < 500 ==> (cap - 5000) * 300 <= (units - 200) * 5000 < (cap - 5000 + 1) * 300
            &&& units >= 500 ==> cap == 10_000
        }),
{
    let u = (stake / 1_000_000_000_000) as int;
    if 50 < u <= 200 {
        let q = (u - 50) * 4000 / 150;
        assert(q * 150 <= (u - 50) * 4000 < (q + 1) * 150 && q <= 4000) by (nonlinear_arith)
            requires
                50 < u <= 200,
                q == (u - 50) * 4000 / 150,
        ;
    }
    if u == 50 {
        assert(20 * 50 == 1000);
    }
    if 200 < u {
        let q = (u - 200) * 5000 / 300;
        assert(q * 300 <= (u - 200) * 5000 < (q + 1) * 300) by (nonlinear_arith)
            requires
                200 < u,
                q == (u - 200) * 5000 / 300,
        ;
        if u < 500 {
            assert(q < 5000) by (nonlinear_arith)
                requires
                    200 < u < 500,
                    q == (u - 200) * 5000 / 300,
            ;
        } else {
            assert(q >= 5000) by (nonlinear_arith)
                requires
                    u >= 500,
                    q == (u - 200) * 5000 / 300,
            ;
        }
    }
    if u == 200 {
        assert(1000 + 150 * 4000 / 150 == 5000);
    }
}

proof fn lemma_seq_min_max_bounds(s: Seq<u32>)
    requires
        s.len() >= 1,
    ensures
        s.contains(seq_min(s)),
        s.contains(seq_max(s)),
        forall|i: int| 0 <= i < s.len() ==> seq_min(s) <= #[trigger] s[i] <= seq_max(s),
    decreases s.len(),
{
    if s.len() > 1 {
        let t = s.drop_last();
        lemma_seq_min_max_bounds(t);
        let i0 = choose|i: int| 0 <= i < t.len() && t[i] == seq_min(t);
        let i1 = choose|i: int| 0 <= i < t.len() && t[i] == seq_max(t);
        assert(s[i0] == seq_min(t));
        assert(s[i1] == seq_max(t));
        assert(s[s.len() - 1] == s.last());
        assert forall|i: int| 0 <= i < s.len() implies seq_min(s) <= #[trigger] s[i] <= seq_max(s) by {
            if i < s.len() - 1 {
                assert(s[i] == t[i]);
            }
        }
    } else {
        assert(s[0] == seq_min(s));
    }
}

/// Cross-checking node reports measures the spread between the largest and the
/// smallest reported audience as a percentage of the smallest: with two or more
/// reports, none of them zero, the reports are refused exactly when that spread,
/// in whole percent, exceeds the threshold, and a refusal names the smallest and
/// the largest report; accepted reports with no zero among them lie within the
/// threshold of each other, measured against the smaller.
pub proof fn lemma_validate_reports_spread(reports: Seq<(u32, u32)>, threshold: u32)
    requires
        reports.len() >= 2,
    ensures
        ({
            let a = report_audiences(reports);
            let r = spec_validate_reports(reports, threshold);
            &&& r is Err ==> ({
                let (lo, hi) = r->Err_0;
                &&& a.contains(lo)
                &&& a.contains(hi)
                &&& forall|i: int| 0 <= i < a.len() ==> lo <= #[trigger] a[i] <= hi
                &&& lo > 0
                &&& (hi - lo) * 100 >= (threshold + 1) * lo
            })
            &&& (r is Ok && forall|i: int| 0 <= i < a.len() ==> #[trigger] a[i] > 0) ==>
                forall|i: int, j: int| 0 <= i < a.len() && 0 <= j < a.len() ==>
                    (#[trigger] a[j] - #[trigger] a[i]) * 100 < (threshold + 1) * a[i]
            &&& (forall|i: int| 0 <= i < a.len() ==> #[trigger] a[i] > 0) ==> (r is Err <==>
                exists|i: int, j: int| 0 <= i < a.len() && 0 <= j < a.len()
                    && (#[trigger] a[j] - #[trigger] a[i]) * 100 >= (threshold + 1) * a[i])
        }),
{
    let a = report_audiences(reports);
    assert(a.len() == reports.len());
    lemma_seq_min_max_bounds(a);
    let lo = seq_min(a);
    let hi = seq_max(a);
    let t = threshold as int;
    if lo > 0 {
        let d = (hi - lo) * 100 / (lo as int);
        assert(d > t <==> (hi - lo) * 100 >= (t + 1) * lo) by (nonlinear_arith)
            requires
                lo > 0,
                hi >= lo,
                d == (hi - lo) * 100 / (lo as int),
        ;
        if d <= t {
            assert forall|i: int, j: int| 0 <= i < a.len() && 0 <= j < a.len() implies
                (#[trigger] a[j] - #[trigger] a[i]) * 100 < (t + 1) * a[i] by {
                assert(lo <= a[i] <= hi && lo <= a[j] <= hi);
                assert((a[j] - a[i]) * 100 < (t + 1) * a[i]) by (nonlinear_arith)
                    requires
                        0 < lo <= a[i] <= hi,
                        a[j] <= hi,
                        (hi - lo) * 100 < (t + 1) * lo,
                        t >= 0,
                ;
            }
        } else {
            let i0 = choose|i: int| 0 <= i < a.len() && a[i] == lo;
            let j0 = choose|j: int| 0 <= j < a.len() && a[j] == hi;
            assert((a[j0] - a[i0]) * 100 >= (t + 1) * a[i0]);
        }
    } else {
        let i0 = choose|i: int| 0 <= i < a.len() && a[i] == lo;
        assert(a[i0] == 0);
    }
}

/// A delivery costs the bid per thousand times the audience over a thousand
/// (the product saturating) for a scheduled post; a reply footer costs half of
/// that and a welcome embed thirty percent, rounded down.
pub proof fn lemma_cpm_cost_by_type(bid_per_mille: u128, audience: u32)
    ensures
        spec_cpm_cost(bid_per_mille, audience, AdDeliveryType::ScheduledPost)
            == clamp_u128(bid_per_mille * audience) / 1000,
        spec_cpm_cost(bid_per_mille, audience, AdDeliveryType::ReplyFooter)
            == clamp_u128(bid_per_mille * audience) / 1000 * 50 / 100,
        spec_cpm_cost(bid_per_mille, audience, AdDeliveryType::WelcomeEmbed)
            == clamp_u128(bid_per_mille * audience) / 1000 * 30 / 100,
        bid_per_mille * audience <= u128::MAX ==> spec_cpm_cost(bid_per_mille, audience, AdDeliveryType::ScheduledPost)
            == bid_per_mille * audience / 1000,
{
    let base = clamp_u128(bid_per_mille * audience) / 1000;
    assert(base * 100 / 100 == base) by (nonlinear_arith)
        requires
            base >= 0,
    ;
}

} // verus!
