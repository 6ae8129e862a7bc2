//! The periodic scan of active ceremonies: expiry and at-risk detection.
use vstd::prelude::*;
use crate::arith::clamp_u64;
use crate::grouprobot::CeremonyStatus;
use crate::kvmap::{get_or, KvMap};
use crate::weights::Weight;
use super::{active_consistent, CeremonyRecord, Event, Pallet};

verus! {

/// What the scan learned from the active ceremonies: storage reads, the
/// expired (ceremony, bot key) pairs and the ceremonies at risk with their bot
/// key, threshold and peer count.
pub struct ScanResult {
    pub reads: u64,
    pub expired: Seq<([u8; 32], [u8; 32])>,
    pub at_risk: Seq<([u8; 32], [u8; 32], u8, u32)>,
}

/// The scan over (bot key, ceremony) entries in order at block `n`.
pub open spec fn scan_active(
    es: Seq<([u8; 32], [u8; 32])>,
    cer: Map<[u8; 32], CeremonyRecord>,
    peers: Map<[u8; 32], u32>,
    n: u64,
) -> ScanResult
    decreases es.len(),
{
    if es.len() == 0 {
        ScanResult { reads: 0, expired: Seq::empty(), at_risk: Seq::empty() }
    } else {
        let prev = scan_active(es.drop_last(), cer, peers, n);
        let pk = es.last().0;
        let h = es.last().1;
        let r1 = clamp_u64(prev.reads + 1);
        if cer.contains_key(h) {
            let rec = cer[h];
            let r2 = clamp_u64(r1 + 1);
            if n >= rec.expires_at {
                ScanResult { reads: r2, expired: prev.expired.push((h, pk)), at_risk: prev.at_risk }
            } else {
                let pc = get_or(peers, rec.bot_id_hash, 0u32);
                ScanResult {
                    reads: clamp_u64(r2 + 1),
                    expired: prev.expired,
                    at_risk: if pc <= rec.k { prev.at_risk.push((h, rec.bot_public_key, rec.k, pc)) } else { prev.at_risk },
                }
            }
        } else {
            ScanResult { reads: r1, expired: prev.expired, at_risk: prev.at_risk }
        }
    }
}

/// Ceremonies with each listed one marked expired.
pub open spec fn expire_records(cer: Map<[u8; 32], CeremonyRecord>, expired: Seq<([u8; 32], [u8; 32])>) -> Map<[u8; 32], CeremonyRecord>
    decreases expired.len(),
{
    if expired.len() == 0 {
        cer
    } else {
        let m = expire_records(cer, expired.drop_last());
        let h = expired.last().0;
        if m.contains_key(h) {
            m.insert(h, CeremonyRecord { status: CeremonyStatus::Expired, ..m[h] })
        } else {
            m
        }
    }
}

/// Active ceremonies without the bots of the expired ones.
pub open spec fn drop_expired(active: Map<[u8; 32], [u8; 32]>, expired: Seq<([u8; 32], [u8; 32])>) -> Map<[u8; 32], [u8; 32]>
    decreases expired.len(),
{
    if expired.len() == 0 {
        active
    } else {
        drop_expired(active, expired.drop_last()).remove(expired.last().1)
    }
}

/// Events of the scan: the expiries, then the risks.
pub open spec fn scan_events(expired: Seq<([u8; 32], [u8; 32])>, at_risk: Seq<([u8; 32], [u8; 32], u8, u32)>) -> Seq<Event> {
    expired.map_values(|e: ([u8; 32], [u8; 32])| Event::CeremonyExpired { ceremony_hash: e.0 })
        + at_risk.map_values(|a: ([u8; 32], [u8; 32], u8, u32)| Event::CeremonyAtRisk { ceremony_hash: a.0, bot_public_key: a.1, required_k: a.2, current_peer_count: a.3 })
}

/// Weight of a scan with `reads` reads and `writes` writes.
pub open spec fn scan_weight(reads: u64, writes: u64) -> Weight {
    Weight {
        ref_time: clamp_u64(clamp_u64(reads * 25_000_000) + clamp_u64(writes * 25_000_000)),
        proof_size: clamp_u64(clamp_u64(reads * 5_000) + clamp_u64(writes * 5_000)),
    }
}

proof fn lemma_expire_records(cer: Map<[u8; 32], CeremonyRecord>, es: Seq<([u8; 32], [u8; 32])>)
    ensures
        forall|h: [u8; 32]| #[trigger] expire_records(cer, es).contains_key(h) == cer.contains_key(h),
        forall|h: [u8; 32]| cer.contains_key(h) ==> #[trigger] expire_records(cer, es)[h] == (
            if exists|k: int| 0 <= k < es.len() && es[k].0 == h {
                CeremonyRecord { status: CeremonyStatus::Expired, ..cer[h] }
            } else {
                cer[h]
            }),
    decreases es.len(),
{
    if es.len() > 0 {
        let t = es.drop_last();
        lemma_expire_records(cer, t);
        assert forall|h: [u8; 32]| cer.contains_key(h) implies #[trigger] expire_records(cer, es)[h] == (
            if exists|k: int| 0 <= k < es.len() && es[k].0 == h {
                CeremonyRecord { status: CeremonyStatus::Expired, ..cer[h] }
            } else {
                cer[h]
            }) by {
            if exists|k: int| 0 <= k < t.len() && t[k].0 == h {
                let k = choose|k: int| 0 <= k < t.len() && t[k].0 == h;
                assert(es[k].0 == h);
            }
            if exists|k: int| 0 <= k < es.len() && es[k].0 == h {
                let k = choose|k: int| 0 <= k < es.len() && es[k].0 == h;
                if k < t.len() {
                    assert(t[k].0 == h);
                }
            }
        }
    }
}

proof fn lemma_drop_expired(active: Map<[u8; 32], [u8; 32]>, es: Seq<([u8; 32], [u8; 32])>)
    ensures
        forall|q: [u8; 32]| #[trigger] drop_expired(active, es).contains_key(q)
            == (active.contains_key(q) && !exists|k: int| 0 <= k < es.len() && es[k].1 == q),
        forall|q: [u8; 32]| #[trigger] drop_expired(active, es).contains_key(q) ==> drop_expired(active, es)[q] == active[q],
    decreases es.len(),
{
    if es.len() > 0 {
        let t = es.drop_last();
        let last = es[es.len() - 1];
        lemma_drop_expired(active, t);
        assert(drop_expired(active, es) == drop_expired(active, t).remove(last.1));
        assert forall|q: [u8; 32]| #[trigger] drop_expired(active, es).contains_key(q)
            == (active.contains_key(q) && !exists|k: int| 0 <= k < es.len() && es[k].1 == q) by {
            if q == last.1 {
                assert(es[es.len() - 1].1 == q);
            } else {
                if exists|k: int| 0 <= k < t.len() && t[k].1 == q {
                    let k = choose|k: int| 0 <= k < t.len() && t[k].1 == q;
                    assert(es[k].1 == q);
                }
                if exists|k: int| 0 <= k < es.len() && es[k].1 == q {
                    let k = choose|k: int| 0 <= k < es.len() && es[k].1 == q;
                    assert(k < t.len());
                    assert(t[k].1 == q);
                }
            }
        }
    }
}

fn sat_mul(a: u64, b: u64) -> (r: u64)
    ensures
        r == clamp_u64(a * b),
{
    crate::weights::sat_mul_u64(a, b)
}

/// Expiring a list of active (ceremony, bot key) pairs keeps active
/// ceremonies consistent.
proof fn lemma_scan_keeps_consistency(
    cer: Map<[u8; 32], CeremonyRecord>,
    act0: Map<[u8; 32], [u8; 32]>,
    expired: Seq<([u8; 32], [u8; 32])>,
)
    requires
        forall|pk: [u8; 32]| #[trigger] act0.contains_key(pk) ==> {
            let h = act0[pk];
            &&& cer.contains_key(h)
            &&& cer[h].status == CeremonyStatus::Active
            &&& cer[h].bot_public_key == pk
        },
        forall|h: [u8; 32]| #[trigger] cer.contains_key(h) && cer[h].status == CeremonyStatus::Active ==> {
            let pk = cer[h].bot_public_key;
            &&& act0.contains_key(pk)
            &&& act0[pk] == h
        },
        forall|k: int| 0 <= k < expired.len() ==> {
            &&& act0.contains_key(#[trigger] expired[k].1)
            &&& act0[expired[k].1] == expired[k].0
            &&& cer.contains_key(expired[k].0)
        },
    ensures
        ({
            let cer2 = expire_records(cer, expired);
            let act2 = drop_expired(act0, expired);
            &&& forall|q: [u8; 32]| #[trigger] act2.contains_key(q) ==> {
                let h = act2[q];
                &&& cer2.contains_key(h)
                &&& cer2[h].status == CeremonyStatus::Active
                &&& cer2[h].bot_public_key == q
            }
            &&& forall|h: [u8; 32]| #[trigger] cer2.contains_key(h) && cer2[h].status == CeremonyStatus::Active ==> {
                let q = cer2[h].bot_public_key;
                &&& act2.contains_key(q)
                &&& act2[q] == h
            }
        }),
{
    lemma_expire_records(cer, expired);
    lemma_drop_expired(act0, expired);
    let cer2 = expire_records(cer, expired);
    let act2 = drop_expired(act0, expired);
    assert forall|q: [u8; 32]| #[trigger] act2.contains_key(q) implies ({
        let h = act2[q];
        &&& cer2.contains_key(h)
        &&& cer2[h].status == CeremonyStatus::Active
        &&& cer2[h].bot_public_key == q
    }) by {
        let h = act0[q];
        if exists|k: int| 0 <= k < expired.len() && expired[k].0 == h {
            let k = choose|k: int| 0 <= k < expired.len() && expired[k].0 == h;
            assert(act0[expired[k].1] == h);
            assert(cer[h].bot_public_key == expired[k].1);
        }
    }
    assert forall|h: [u8; 32]| #[trigger] cer2.contains_key(h) && cer2[h].status == CeremonyStatus::Active implies ({
        let q = cer2[h].bot_public_key;
        &&& act2.contains_key(q)
        &&& act2[q] == h
    }) by {
        assert(cer.contains_key(h));
        if exists|k: int| 0 <= k < expired.len() && expired[k].0 == h {
            assert(cer2[h].status == CeremonyStatus::Expired);
        }
        assert(cer2[h] == cer[h]);
        let q = cer[h].bot_public_key;
        assert(act0.contains_key(q) && act0[q] == h);
        if exists|k: int| 0 <= k < expired.len() && expired[k].1 == q {
            let k = choose|k: int| 0 <= k < expired.len() && expired[k].1 == q;
            assert(act0[q] == expired[k].0);
        }
    }
}

impl Pallet {
    /// Block hook at block `n`: every `ceremony_check_interval` blocks, expires
    /// the active ceremonies whose time is up and reports those whose bot has
    /// no more peers than the threshold. `peer_counts` gives the number of
    /// peers of each bot (missing bots have none).
    pub fn on_initialize(&mut self, n: u64, peer_counts: &KvMap<[u8; 32], u32>) -> (w: Weight)
        ensures
            ({
                let interval = old(self).config.ceremony_check_interval;
                if interval == 0 || n % interval != 0 {
                    &&& w == (Weight { ref_time: 0, proof_size: 0 })
                    &&& *final(self) == *old(self)
                } else {
                    let s = scan_active(old(self).active_ceremony.entries(), old(self).ceremonies@, peer_counts@, n);
                    &&& final(self).ceremonies@ == expire_records(old(self).ceremonies@, s.expired)
                    &&& final(self).active_ceremony@ == drop_expired(old(self).active_ceremony@, s.expired)
                    &&& final(self).events@ == old(self).events@ + scan_events(s.expired, s.at_risk)
                    &&& w == scan_weight(s.reads, clamp_u64(2 * s.expired.len() as int))
                    &&& (active_consistent(*old(self)) ==> active_consistent(*final(self)))
                    &&& *final(self) == (Pallet {
                        ceremonies: final(self).ceremonies,
                        active_ceremony: final(self).active_ceremony,
                        events: final(self).events,
                        ..*old(self)
                    })
                }
            }),
    {
        let interval = self.config.ceremony_check_interval;
        if interval == 0 {
            return Weight::zero();
        }
        if n % interval != 0 {
            return Weight::zero();
        }
        let ghost es = self.active_ceremony.entries();
        let ghost cer = self.ceremonies@;
        let mut reads: u64 = 0;
        let mut expired: Vec<([u8; 32], [u8; 32])> = Vec::new();
        let mut at_risk: Vec<([u8; 32], [u8; 32], u8, u32)> = Vec::new();
        let len = self.active_ceremony.len();
        let mut i: usize = 0;
        while i < len
            invariant
                0 <= i <= len,
                len == es.len(),
                es == self.active_ceremony.entries(),
                cer == self.ceremonies@,
                forall|k: int| 0 <= k < expired@.len() ==> {
                    &&& self.active_ceremony@.contains_key(#[trigger] expired@[k].1)
                    &&& self.active_ceremony@[expired@[k].1] == expired@[k].0
                    &&& cer.contains_key(expired@[k].0)
                },
                ({
                    let s = scan_active(es.take(i as int), cer, peer_counts@, n);
                    &&& reads == s.reads
                    &&& expired@ == s.expired
                    &&& at_risk@ == s.at_risk
                }),
            decreases len - i,
        {
            let (pk, h) = self.active_ceremony.entry_at(i);
            let pk = *pk;
            let h = *h;
            proof {
                assert(es.take(i + 1).drop_last() =~= es.take(i as int));
                assert(es.take(i + 1).last() == (pk, h));
            }
            reads = reads.saturating_add(1);
            match self.ceremonies.get(&h) {
                Some(rec) => {
                    reads = reads.saturating_add(1);
                    if n >= rec.expires_at {
                        expired.push((h, pk));
                    } else {
                        let pc = peer_counts.get_or(&rec.bot_id_hash, 0);
                        reads = reads.saturating_add(1);
                        if pc <= rec.k as u32 {
                            at_risk.push((h, rec.bot_public_key, rec.k, pc));
                        }
                    }
                },
                None => {},
            }
            i = i + 1;
        }
        proof {
            assert(es.take(es.len() as int) =~= es);
        }
        let ghost s = scan_active(es, cer, peer_counts@, n);
        let ghost p0 = *self;
        let ghost ev0 = self.events@;
        let ghost act0 = self.active_ceremony@;
        let mut writes: u64 = 0;
        let mut j: usize = 0;
        while j < expired.len()
            invariant
                0 <= j <= expired@.len(),
                expired@ == s.expired,
                self.ceremonies@ == expire_records(cer, s.expired.take(j as int)),
                self.active_ceremony@ == drop_expired(act0, s.expired.take(j as int)),
                self.events@ == ev0 + s.expired.take(j as int).map_values(
                    |e: ([u8; 32], [u8; 32])| Event::CeremonyExpired { ceremony_hash: e.0 }),
                writes == clamp_u64(2 * j as int),
                self.config == old(self).config,
                self.ceremony_history == old(self).ceremony_history,
                self.approved_enclaves == old(self).approved_enclaves,
                self.ceremony_count == old(self).ceremony_count,
            decreases expired@.len() - j,
        {
            let (h, pk) = expired[j];
            proof {
                assert(s.expired.take(j + 1).drop_last() =~= s.expired.take(j as int));
                assert(s.expired.take(j + 1).last() == (h, pk));
            }
            match self.ceremonies.remove(&h) {
                Some(rec) => {
                    let mut updated = rec;
                    updated.status = CeremonyStatus::Expired;
                    self.ceremonies.insert(h, updated);
                },
                None => {},
            }
            writes = writes.saturating_add(1);
            self.active_ceremony.remove(&pk);
            writes = writes.saturating_add(1);
            self.events.push(Event::CeremonyExpired { ceremony_hash: h });
            proof {
                assert(self.ceremonies@ =~= expire_records(cer, s.expired.take(j + 1)));
                assert(s.expired.take(j + 1).map_values(|e: ([u8; 32], [u8; 32])| Event::CeremonyExpired { ceremony_hash: e.0 })
                    =~= s.expired.take(j as int).map_values(|e: ([u8; 32], [u8; 32])| Event::CeremonyExpired { ceremony_hash: e.0 })
                        .push(Event::CeremonyExpired { ceremony_hash: h }));
            }
            j = j + 1;
        }
        proof {
            assert(s.expired.take(s.expired.len() as int) =~= s.expired);
        }
        let ghost ev1 = self.events@;
        let ghost p1 = *self;
        let mut t: usize = 0;
        while t < at_risk.len()
            invariant
                0 <= t <= at_risk@.len(),
                at_risk@ == s.at_risk,
                *self == (Pallet { events: self.events, ..p1 }),
                self.events@ == ev1 + s.at_risk.take(t as int).map_values(
                    |a: ([u8; 32], [u8; 32], u8, u32)| Event::CeremonyAtRisk { ceremony_hash: a.0, bot_public_key: a.1, required_k: a.2, current_peer_count: a.3 }),
            decreases at_risk@.len() - t,
        {
            let (h, bpk, rk, pc) = at_risk[t];
            self.events.push(Event::CeremonyAtRisk { ceremony_hash: h, bot_public_key: bpk, required_k: rk, current_peer_count: pc });
            proof {
                assert(s.at_risk.take(t + 1).map_values(|a: ([u8; 32], [u8; 32], u8, u32)| Event::CeremonyAtRisk { ceremony_hash: a.0, bot_public_key: a.1, required_k: a.2, current_peer_count: a.3 })
                    =~= s.at_risk.take(t as int).map_values(|a: ([u8; 32], [u8; 32], u8, u32)| Event::CeremonyAtRisk { ceremony_hash: a.0, bot_public_key: a.1, required_k: a.2, current_peer_count: a.3 })
                        .push(Event::CeremonyAtRisk { ceremony_hash: h, bot_public_key: bpk, required_k: rk, current_peer_count: pc }));
            }
            t = t + 1;
        }
        proof {
            assert(s.at_risk.take(s.at_risk.len() as int) =~= s.at_risk);
            assert(self.events@ =~= ev0 + scan_events(s.expired, s.at_risk));
            lemma_expire_records(cer, s.expired);
            lemma_drop_expired(act0, s.expired);
            if active_consistent(p0) {
                lemma_scan_keeps_consistency(cer, act0, s.expired);
            }
        }
        let ref_time = sat_mul(reads, 25_000_000).saturating_add(sat_mul(writes, 25_000_000));
        let proof_size = sat_mul(reads, 5_000).saturating_add(sat_mul(writes, 5_000));
        Weight::from_parts(ref_time, proof_size)
    }
}

} // verus!
