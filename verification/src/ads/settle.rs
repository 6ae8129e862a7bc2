//! Delivery receipts, era settlement and community revenue.
use vstd::prelude::*;
use crate::arith::{clamp_u128, clamp_u32, clamp_u64, sat_add_u128, sat_add_u32, sat_add_u64, sat_mul_u128, sat_sub_u128};
use crate::grouprobot::{AdDeliveryType, AdReviewStatus, CampaignStatus, TierFeatureGate};
use crate::kvmap::{get_or, seq_or_empty};
use super::{effective_community_pct, effective_tee_pct, vq128, vq32, vqb, AdCampaign, DeliveryReceipt, Effect, Error, Event, Pallet};
use super::calls::{capped_audience, settle_apply, settle_effects, settle_plan, settle_step, SettleAcc, SettleItem};
use super::math::{compute_cpm_cost, percent_of, spec_validate_reports};

verus! {

/// Facts about the submitting node that come from the node-consensus service.
#[derive(Clone, Copy, Debug)]
pub struct NodeFacts {
    /// Whether the node named in the receipt is active.
    pub node_active: bool,
    /// Whether the caller operates a TEE node.
    pub caller_is_tee: bool,
}

/// The first check a delivery receipt fails, if any.
pub open spec fn receipt_error(
    p: Pallet,
    campaign_id: u64,
    community_id_hash: [u8; 32],
    audience_size: u32,
    facts: NodeFacts,
    gate: TierFeatureGate,
    now: u64,
) -> Option<Error> {
    let c = p.campaigns@[campaign_id];
    let cap = vq32(p.community_audience_cap@, community_id_hash);
    if !p.campaigns@.contains_key(campaign_id) {
        Some(Error::CampaignNotFound)
    } else if !(c.status is Active) {
        Some(Error::CampaignNotActive)
    } else if !(c.review_status is Approved) {
        Some(Error::CampaignNotApproved)
    } else if now > c.expires_at {
        Some(Error::CampaignExpired)
    } else if !facts.node_active {
        Some(Error::NodeNotActive)
    } else if !facts.caller_is_tee {
        Some(Error::NodeNotTee)
    } else if vqb(p.banned_communities@, community_id_hash) {
        Some(Error::CommunityBanned)
    } else if !gate.tee_access {
        Some(Error::TeeNotAvailableForTier)
    } else if gate.can_disable_ads && vq128(p.community_ad_stake@, community_id_hash) == 0 {
        Some(Error::AdsDisabledByTier)
    } else if vq32(p.audience_surge_paused@, community_id_hash) != 0 {
        Some(Error::CommunityAdsPaused)
    } else if capped_audience(audience_size, cap) < p.config.min_audience_size {
        Some(Error::AudienceBelowMinimum)
    } else if seq_or_empty(p.delivery_receipts@, community_id_hash).len() >= p.config.max_receipts_per_community {
        Some(Error::ReceiptsFull)
    } else {
        None
    }
}

/// Receipts with every one marked settled.
pub open spec fn all_settled(s: Seq<DeliveryReceipt>) -> Seq<DeliveryReceipt> {
    Seq::new(s.len(), |i: int| DeliveryReceipt { settled: true, ..s[i] })
}

/// Marks every receipt settled, keeping their order.
fn mark_all_settled(v: &mut Vec<DeliveryReceipt>)
    ensures
        final(v)@ == all_settled(old(v)@),
{
    let mut out: Vec<DeliveryReceipt> = Vec::new();
    let mut i: usize = 0;
    while i < v.len()
        invariant
            0 <= i <= v@.len(),
            v@ == old(v)@,
            out@.len() == i,
            forall|j: int| 0 <= j < i ==> out@[j] == (DeliveryReceipt { settled: true, ..v@[j] }),
        decreases v@.len() - i,
    {
        let r = v[i];
        out.push(DeliveryReceipt { settled: true, ..r });
        i = i + 1;
    }
    assert(out@ =~= all_settled(v@));
    *v = out;
}

impl Pallet {
    /// A TEE node's report that a campaign was delivered to a community. The
    /// audience is cut to the community's cap before anything is recorded.
    pub fn submit_delivery_receipt(
        &mut self,
        who: u64,
        now: u64,
        campaign_id: u64,
        community_id_hash: [u8; 32],
        delivery_type: AdDeliveryType,
        audience_size: u32,
        node_id: [u8; 32],
        node_signature: [u8; 64],
        facts: NodeFacts,
        gate: TierFeatureGate,
    ) -> (r: Result<(), Error>)
        ensures
            match receipt_error(*old(self), campaign_id, community_id_hash, audience_size, facts, gate, now) {
                Some(e) => r == Err::<(), Error>(e) && *final(self) == *old(self),
                None => {
                    let eff = capped_audience(audience_size, vq32(old(self).community_audience_cap@, community_id_hash));
                    let c = old(self).campaigns@[campaign_id];
                    &&& r is Ok
                    &&& final(self).delivery_receipts@ == old(self).delivery_receipts@.insert(
                        community_id_hash,
                        final(self).delivery_receipts@[community_id_hash])
                    &&& final(self).delivery_receipts@[community_id_hash]@ == seq_or_empty(
                        old(self).delivery_receipts@, community_id_hash).push(DeliveryReceipt {
                            campaign_id,
                            community_id_hash,
                            delivery_type,
                            audience_size: eff,
                            node_id,
                            node_signature,
                            delivered_at: now,
                            settled: false,
                        })
                    &&& final(self).community_era_deliveries@ == old(self).community_era_deliveries@.insert(
                        community_id_hash, clamp_u32(vq32(old(self).community_era_deliveries@, community_id_hash) + 1))
                    &&& final(self).campaigns@ == old(self).campaigns@.insert(campaign_id, AdCampaign {
                        total_deliveries: clamp_u64(c.total_deliveries + 1), ..c })
                    &&& final(self).events@ == old(self).events@.push(Event::DeliveryReceiptSubmitted {
                        campaign_id, community_id_hash, audience_size: eff })
                    &&& *final(self) == (Pallet {
                        delivery_receipts: final(self).delivery_receipts,
                        community_era_deliveries: final(self).community_era_deliveries,
                        campaigns: final(self).campaigns,
                        events: final(self).events,
                        ..*old(self)
                    })
                },
            },
    {
        match self.campaigns.get(&campaign_id) {
            None => return Err(Error::CampaignNotFound),
            Some(c) => {
                if c.status != CampaignStatus::Active {
                    return Err(Error::CampaignNotActive);
                }
                if c.review_status != AdReviewStatus::Approved {
                    return Err(Error::CampaignNotApproved);
                }
                if now > c.expires_at {
                    return Err(Error::CampaignExpired);
                }
            },
        }
        if !facts.node_active {
            return Err(Error::NodeNotActive);
        }
        if !facts.caller_is_tee {
            return Err(Error::NodeNotTee);
        }
        if self.banned_communities.get_or(&community_id_hash, false) {
            return Err(Error::CommunityBanned);
        }
        if !gate.tee_access {
            return Err(Error::TeeNotAvailableForTier);
        }
        if gate.can_disable_ads {
            if self.community_ad_stake.get_or(&community_id_hash, 0) == 0 {
                return Err(Error::AdsDisabledByTier);
            }
        }
        if self.audience_surge_paused.get_or(&community_id_hash, 0) != 0 {
            return Err(Error::CommunityAdsPaused);
        }
        let cap = self.community_audience_cap.get_or(&community_id_hash, 0);
        let effective_audience = if cap > 0 && audience_size > cap { cap } else { audience_size };
        if effective_audience < self.config.min_audience_size {
            return Err(Error::AudienceBelowMinimum);
        }
        let n = match self.delivery_receipts.get(&community_id_hash) {
            Some(v) => v.len(),
            None => 0,
        };
        if n >= self.config.max_receipts_per_community as usize {
            return Err(Error::ReceiptsFull);
        }
        let mut receipts = match self.delivery_receipts.remove(&community_id_hash) {
            Some(v) => v,
            None => Vec::new(),
        };
        receipts.push(DeliveryReceipt {
            campaign_id,
            community_id_hash,
            delivery_type,
            audience_size: effective_audience,
            node_id,
            node_signature,
            delivered_at: now,
            settled: false,
        });
        self.delivery_receipts.insert(community_id_hash, receipts);
        proof {
            assert(self.delivery_receipts@ =~= old(self).delivery_receipts@.insert(
                community_id_hash, self.delivery_receipts@[community_id_hash]));
        }
        let d = self.community_era_deliveries.get_or(&community_id_hash, 0);
        self.community_era_deliveries.insert(community_id_hash, sat_add_u32(d, 1));
        let mut c = self.campaigns.remove(&campaign_id).unwrap();
        c.total_deliveries = sat_add_u64(c.total_deliveries, 1);
        self.campaigns.insert(campaign_id, c);
        proof {
            assert(self.campaigns@ =~= old(self).campaigns@.insert(campaign_id, c));
        }
        self.events.push(Event::DeliveryReceiptSubmitted {
            campaign_id,
            community_id_hash,
            audience_size: effective_audience,
        });
        Ok(())
    }

    /// Prices a community's unsettled receipts against the campaigns and escrows as they stand.
    fn plan_settlement(&self, community_id_hash: &[u8; 32], community_pct: u32, tee_pct: u32) -> (items: Vec<SettleItem>)
        ensures
            items@ == settle_plan(
                seq_or_empty(self.delivery_receipts@, *community_id_hash),
                self.campaigns@,
                self.campaign_escrow@,
                vq32(self.community_audience_cap@, *community_id_hash),
                community_pct,
                tee_pct,
            ),
    {
        let empty: Vec<DeliveryReceipt> = Vec::new();
        let receipts: &Vec<DeliveryReceipt> = match self.delivery_receipts.get(community_id_hash) {
            Some(v) => v,
            None => &empty,
        };
        let ghost rs = receipts@;
        let cap = self.community_audience_cap.get_or(community_id_hash, 0);
        let mut items: Vec<SettleItem> = Vec::new();
        let mut i: usize = 0;
        while i < receipts.len()
            invariant
                0 <= i <= rs.len(),
                rs == receipts@,
                rs == seq_or_empty(self.delivery_receipts@, *community_id_hash),
                cap == vq32(self.community_audience_cap@, *community_id_hash),
                items@ == settle_plan(rs.take(i as int), self.campaigns@, self.campaign_escrow@, cap, community_pct, tee_pct),
            decreases rs.len() - i,
        {
            let r = receipts[i];
            assert(rs.take(i + 1).drop_last() =~= rs.take(i as int));
            assert(rs.take(i + 1).last() == r);
            if !r.settled {
                match self.campaigns.get(&r.campaign_id) {
                    Some(campaign) => {
                        let eff = if cap > 0 && r.audience_size > cap { cap } else { r.audience_size };
                        let cost = compute_cpm_cost(campaign.bid_per_mille, eff, &r.delivery_type);
                        let escrow = self.campaign_escrow.get_or(&r.campaign_id, 0);
                        let actual = if cost < escrow { cost } else { escrow };
                        if actual != 0 {
                            items.push(SettleItem {
                                campaign_id: r.campaign_id,
                                cost: actual,
                                community_share: percent_of(actual, community_pct),
                                node_share: percent_of(actual, tee_pct),
                                node_id: r.node_id,
                                advertiser: campaign.advertiser,
                            });
                        }
                    },
                    None => {},
                }
            }
            i = i + 1;
        }
        assert(rs.take(rs.len() as int) =~= rs);
        items
    }

    /// Settles one item against storage.
    fn apply_settle_item(&mut self, community_id_hash: &[u8; 32], it: SettleItem, effects: &mut Vec<Effect>)
        ensures
            ({
                let acc = SettleAcc {
                    escrow: old(self).campaign_escrow@,
                    campaigns: old(self).campaigns@,
                    claimable: vq128(old(self).community_claimable@, *community_id_hash),
                    total: 0,
                    share_total: 0,
                    effects: old(effects)@,
                    events: old(self).events@,
                };
                let next = settle_step(acc, it, old(self).config.treasury_account, old(self).config.reward_pool_account);
                &&& final(self).campaign_escrow@ == next.escrow
                &&& final(self).campaigns@ == next.campaigns
                &&& final(self).community_claimable@ == old(self).community_claimable@.insert(*community_id_hash, next.claimable)
                &&& final(effects)@ == next.effects
                &&& final(self).events@ == next.events
                &&& *final(self) == (Pallet {
                    campaign_escrow: final(self).campaign_escrow,
                    campaigns: final(self).campaigns,
                    community_claimable: final(self).community_claimable,
                    events: final(self).events,
                    ..*old(self)
                })
            }),
    {
        let treasury = self.config.treasury_account;
        let reward_pool = self.config.reward_pool_account;
        let ghost e0 = effects@;
        effects.push(Effect::Unreserve { who: it.advertiser, amount: it.cost });
        effects.push(Effect::Transfer {
            from: it.advertiser,
            to: treasury,
            amount: sat_sub_u128(it.cost, it.node_share),
            fail_as_settlement: true,
            ignore_failure: false,
        });
        if it.node_share != 0 {
            effects.push(Effect::Transfer {
                from: it.advertiser,
                to: reward_pool,
                amount: it.node_share,
                fail_as_settlement: true,
                ignore_failure: false,
            });
            effects.push(Effect::AccrueNodeReward { node_id: it.node_id, amount: it.node_share });
            self.events.push(Event::NodeAdRewardAccrued { node_id: it.node_id, amount: it.node_share });
        }
        assert(effects@ =~= e0 + settle_effects(it, treasury, reward_pool));
        let cl = self.community_claimable.get_or(community_id_hash, 0);
        self.community_claimable.insert(*community_id_hash, sat_add_u128(cl, it.community_share));
        let e = self.campaign_escrow.get_or(&it.campaign_id, 0);
        let new_e = sat_sub_u128(e, it.cost);
        self.campaign_escrow.insert(it.campaign_id, new_e);
        match self.campaigns.remove(&it.campaign_id) {
            Some(mut c) => {
                c.spent = sat_add_u128(c.spent, it.cost);
                if new_e == 0 {
                    c.status = CampaignStatus::Exhausted;
                }
                self.campaigns.insert(it.campaign_id, c);
                proof {
                    assert(self.campaigns@ =~= old(self).campaigns@.insert(it.campaign_id, c));
                }
            },
            None => {
                proof {
                    assert(self.campaigns@ =~= old(self).campaigns@);
                }
            },
        }
    }

    /// Settles a community's receipts for the era: each priced receipt moves its
    /// cost from the advertiser's reserve, the node share to the reward pool and the
    /// rest to the treasury, and credits the community's share as claimable. The
    /// receipts stay, marked settled, so that none is charged twice.
    /// Refused while the community's ads are paused for an audience surge, and
    /// when node reports disagree by more than the allowed spread.
    pub fn settle_era_ads(&mut self, community_id_hash: [u8; 32]) -> (r: Result<Vec<Effect>, Error>)
        ensures
            vq32(old(self).audience_surge_paused@, community_id_hash) != 0 ==> r == Err::<Vec<Effect>, Error>(Error::CommunityAdsPaused),
            vq32(old(self).audience_surge_paused@, community_id_hash) == 0 && spec_validate_reports(
                seq_or_empty(old(self).node_audience_reports@, community_id_hash),
                old(self).config.node_deviation_threshold_pct) is Err ==> r == Err::<Vec<Effect>, Error>(Error::NodeDeviationTooHigh),
            r is Err ==> *final(self) == *old(self),
            r is Ok <==> (vq32(old(self).audience_surge_paused@, community_id_hash) == 0 && spec_validate_reports(
                seq_or_empty(old(self).node_audience_reports@, community_id_hash),
                old(self).config.node_deviation_threshold_pct) is Ok),
            r matches Ok(effects) ==> {
                let cpct = effective_community_pct(old(self).community_ad_pct);
                let tpct = effective_tee_pct(old(self).tee_node_ad_pct);
                let items = settle_plan(
                    seq_or_empty(old(self).delivery_receipts@, community_id_hash),
                    old(self).campaigns@,
                    old(self).campaign_escrow@,
                    vq32(old(self).community_audience_cap@, community_id_hash),
                    cpct,
                    tpct,
                );
                let acc0 = SettleAcc {
                    escrow: old(self).campaign_escrow@,
                    campaigns: old(self).campaigns@,
                    claimable: vq128(old(self).community_claimable@, community_id_hash),
                    total: 0,
                    share_total: 0,
                    effects: Seq::empty(),
                    events: old(self).events@,
                };
                let fin = settle_apply(acc0, items, old(self).config.treasury_account, old(self).config.reward_pool_account);
                &&& effects@ == fin.effects
                &&& final(self).campaign_escrow@ == fin.escrow
                &&& final(self).campaigns@ == fin.campaigns
                &&& final(self).community_claimable@ == (if items.len() == 0 {
                    old(self).community_claimable@
                } else {
                    old(self).community_claimable@.insert(community_id_hash, fin.claimable)
                })
                &&& final(self).node_audience_reports@ == old(self).node_audience_reports@.remove(community_id_hash)
                &&& (old(self).delivery_receipts@.contains_key(community_id_hash) ==> {
                    &&& final(self).delivery_receipts@ == old(self).delivery_receipts@.insert(
                        community_id_hash, final(self).delivery_receipts@[community_id_hash])
                    &&& final(self).delivery_receipts@[community_id_hash]@
                        == all_settled(old(self).delivery_receipts@[community_id_hash]@)
                })
                &&& (!old(self).delivery_receipts@.contains_key(community_id_hash)
                    ==> final(self).delivery_receipts@ == old(self).delivery_receipts@)
                &&& final(self).era_ad_revenue@ == (if fin.total == 0 {
                    old(self).era_ad_revenue@
                } else {
                    old(self).era_ad_revenue@.insert(community_id_hash,
                        clamp_u128(vq128(old(self).era_ad_revenue@, community_id_hash) + fin.total))
                })
                &&& final(self).community_total_revenue@ == (if fin.total == 0 {
                    old(self).community_total_revenue@
                } else {
                    old(self).community_total_revenue@.insert(community_id_hash,
                        clamp_u128(vq128(old(self).community_total_revenue@, community_id_hash) + fin.total))
                })
                &&& final(self).events@ == (if fin.total == 0 {
                    fin.events
                } else {
                    fin.events.push(Event::EraAdsSettled {
                        community_id_hash, total_cost: fin.total, community_share: fin.share_total })
                })
                &&& *final(self) == (Pallet {
                    campaign_escrow: final(self).campaign_escrow,
                    campaigns: final(self).campaigns,
                    community_claimable: final(self).community_claimable,
                    node_audience_reports: final(self).node_audience_reports,
                    delivery_receipts: final(self).delivery_receipts,
                    era_ad_revenue: final(self).era_ad_revenue,
                    community_total_revenue: final(self).community_total_revenue,
                    events: final(self).events,
                    ..*old(self)
                })
            },
    {
        if self.audience_surge_paused.get_or(&community_id_hash, 0) != 0 {
            return Err(Error::CommunityAdsPaused);
        }
        match self.validate_node_reports(&community_id_hash) {
            Err(_) => return Err(Error::NodeDeviationTooHigh),
            Ok(_) => {},
        }
        let _ = self.node_audience_reports.remove(&community_id_hash);
        let cpct = if self.community_ad_pct == 0 { 60u32 } else { self.community_ad_pct };
        let tpct = if self.tee_node_ad_pct == 0 { 32u32 } else { self.tee_node_ad_pct };
        let items = self.plan_settlement(&community_id_hash, cpct, tpct);
        let ghost treasury = self.config.treasury_account;
        let ghost pool = self.config.reward_pool_account;
        let ghost acc0 = SettleAcc {
            escrow: old(self).campaign_escrow@,
            campaigns: old(self).campaigns@,
            claimable: vq128(old(self).community_claimable@, community_id_hash),
            total: 0,
            share_total: 0,
            effects: Seq::empty(),
            events: old(self).events@,
        };
        let ghost mid = *self;
        let mut effects: Vec<Effect> = Vec::new();
        let mut total_cost: u128 = 0;
        let mut share_total: u128 = 0;
        let mut i: usize = 0;
        while i < items.len()
            invariant
                0 <= i <= items@.len(),
                treasury == self.config.treasury_account,
                pool == self.config.reward_pool_account,
                acc0.claimable == vq128(old(self).community_claimable@, community_id_hash),
                ({
                    let acc = settle_apply(acc0, items@.take(i as int), treasury, pool);
                    &&& self.campaign_escrow@ == acc.escrow
                    &&& self.campaigns@ == acc.campaigns
                    &&& (i > 0 ==> self.community_claimable@ == old(self).community_claimable@.insert(community_id_hash, acc.claimable))
                    &&& (i == 0 ==> self.community_claimable@ == old(self).community_claimable@)
                    &&& total_cost == acc.total
                    &&& share_total == acc.share_total
                    &&& effects@ == acc.effects
                    &&& self.events@ == acc.events
                }),
                *self == (Pallet {
                    campaign_escrow: self.campaign_escrow,
                    campaigns: self.campaigns,
                    community_claimable: self.community_claimable,
                    events: self.events,
                    ..mid
                }),
                mid.node_audience_reports@ == old(self).node_audience_reports@.remove(community_id_hash),
                mid == (Pallet { node_audience_reports: mid.node_audience_reports, ..*old(self) }),
            decreases items@.len() - i,
        {
            let it = items[i];
            proof {
                assert(items@.take(i + 1).drop_last() =~= items@.take(i as int));
                assert(items@.take(i + 1).last() == it);
            }
            let ghost acc_i = settle_apply(acc0, items@.take(i as int), treasury, pool);
            let ghost cl_before = self.community_claimable@;
            proof {
                if i == 0 {
                    assert(items@.take(0) =~= Seq::<SettleItem>::empty());
                    assert(acc_i == acc0);
                    assert(cl_before == old(self).community_claimable@);
                    assert(vq128(cl_before, community_id_hash) == acc_i.claimable);
                } else {
                    assert(cl_before == old(self).community_claimable@.insert(community_id_hash, acc_i.claimable));
                    assert(cl_before.contains_key(community_id_hash));
                    assert(cl_before[community_id_hash] == acc_i.claimable);
                    assert(vq128(cl_before, community_id_hash) == acc_i.claimable);
                }
            }
            self.apply_settle_item(&community_id_hash, it, &mut effects);
            proof {
                let n1 = settle_step(acc_i, it, treasury, pool);
                assert(settle_apply(acc0, items@.take(i + 1), treasury, pool) == n1);
                let acc_b = SettleAcc {
                    escrow: acc_i.escrow,
                    campaigns: acc_i.campaigns,
                    claimable: acc_i.claimable,
                    total: 0,
                    share_total: 0,
                    effects: acc_i.effects,
                    events: acc_i.events,
                };
                let n2 = settle_step(acc_b, it, treasury, pool);
                assert(n2.escrow == n1.escrow);
                assert(n2.campaigns == n1.campaigns);
                assert(n2.claimable == n1.claimable);
                assert(n2.effects == n1.effects);
                assert(n2.events == n1.events);
            }
            total_cost = sat_add_u128(total_cost, it.cost);
            share_total = sat_add_u128(share_total, it.community_share);
            i = i + 1;
        }
        proof {
            assert(items@.take(items@.len() as int) =~= items@);
        }
        let ghost before_mark = self.delivery_receipts@;
        match self.delivery_receipts.remove(&community_id_hash) {
            Some(mut v) => {
                mark_all_settled(&mut v);
                self.delivery_receipts.insert(community_id_hash, v);
                proof {
                    assert(self.delivery_receipts@ =~= before_mark.insert(community_id_hash, self.delivery_receipts@[community_id_hash]));
                }
            },
            None => {},
        }
        if total_cost != 0 {
            let e = self.era_ad_revenue.get_or(&community_id_hash, 0);
            self.era_ad_revenue.insert(community_id_hash, sat_add_u128(e, total_cost));
            let t = self.community_total_revenue.get_or(&community_id_hash, 0);
            self.community_total_revenue.insert(community_id_hash, sat_add_u128(t, total_cost));
            self.events.push(Event::EraAdsSettled {
                community_id_hash,
                total_cost,
                community_share: share_total,
            });
        }
        Ok(effects)
    }

    /// The community's admin (anyone while it has none) withdraws the community's
    /// claimable revenue from the treasury.
    pub fn claim_ad_revenue(&mut self, who: u64, community_id_hash: [u8; 32]) -> (r: Result<Vec<Effect>, Error>)
        ensures
            r is Err ==> *final(self) == *old(self),
            ({
                let amount = vq128(old(self).community_claimable@, community_id_hash);
                if !old(self).is_admin(community_id_hash, who) {
                    r == Err::<Vec<Effect>, Error>(Error::NotCommunityAdmin)
                } else if amount == 0 {
                    r == Err::<Vec<Effect>, Error>(Error::NothingToClaim)
                } else {
                    &&& r matches Ok(effects) && effects@ == seq![Effect::Transfer {
                        from: old(self).config.treasury_account, to: who, amount,
                        fail_as_settlement: false, ignore_failure: false }]
                    &&& final(self).community_claimable@ == old(self).community_claimable@.remove(community_id_hash)
                    &&& final(self).events@ == old(self).events@.push(Event::AdRevenueClaimed {
                        community_id_hash, amount, claimer: who })
                    &&& *final(self) == (Pallet {
                        community_claimable: final(self).community_claimable,
                        events: final(self).events,
                        ..*old(self)
                    })
                }
            }),
    {
        if !self.check_admin(who, &community_id_hash) {
            return Err(Error::NotCommunityAdmin);
        }
        let amount = self.community_claimable.get_or(&community_id_hash, 0);
        if amount == 0 {
            return Err(Error::NothingToClaim);
        }
        let mut effects: Vec<Effect> = Vec::new();
        effects.push(Effect::Transfer {
            from: self.config.treasury_account,
            to: who,
            amount,
            fail_as_settlement: false,
            ignore_failure: false,
        });
        let _ = self.community_claimable.remove(&community_id_hash);
        self.events.push(Event::AdRevenueClaimed { community_id_hash, amount, claimer: who });
        Ok(effects)
    }

    /// The community's admin records privately run deliveries and pays the registration fee.
    pub fn register_private_ad(&mut self, who: u64, community_id_hash: [u8; 32], count: u32) -> (r: Result<Vec<Effect>, Error>)
        ensures
            r is Err ==> *final(self) == *old(self),
            count == 0 ==> r == Err::<Vec<Effect>, Error>(Error::ZeroPrivateAdCount),
            count > 0 ==> ({
                let fee = clamp_u128(old(self).config.private_ad_registration_fee * count);
                if !old(self).community_admin@.contains_key(community_id_hash)
                    || old(self).community_admin@[community_id_hash] != who {
                    r == Err::<Vec<Effect>, Error>(Error::NotCommunityAdmin)
                } else {
                    &&& r matches Ok(effects) && effects@ == (if fee > 0 {
                        seq![Effect::Transfer { from: who, to: old(self).config.treasury_account, amount: fee,
                            fail_as_settlement: false, ignore_failure: false }]
                    } else {
                        Seq::<Effect>::empty()
                    })
                    &&& final(self).private_ad_count@ == old(self).private_ad_count@.insert(community_id_hash,
                        clamp_u32(vq32(old(self).private_ad_count@, community_id_hash) + count))
                    &&& final(self).community_era_deliveries@ == old(self).community_era_deliveries@.insert(community_id_hash,
                        clamp_u32(vq32(old(self).community_era_deliveries@, community_id_hash) + count))
                    &&& final(self).events@ == old(self).events@.push(Event::PrivateAdRegistered {
                        community_id_hash, registrar: who, count })
                    &&& *final(self) == (Pallet {
                        private_ad_count: final(self).private_ad_count,
                        community_era_deliveries: final(self).community_era_deliveries,
                        events: final(self).events,
                        ..*old(self)
                    })
                }
            }),
    {
        if count == 0 {
            return Err(Error::ZeroPrivateAdCount);
        }
        match self.community_admin.get(&community_id_hash) {
            None => return Err(Error::NotCommunityAdmin),
            Some(a) => {
                if *a != who {
                    return Err(Error::NotCommunityAdmin);
                }
            },
        }
        let fee = sat_mul_u128(self.config.private_ad_registration_fee, count as u128);
        let mut effects: Vec<Effect> = Vec::new();
        if fee != 0 {
            effects.push(Effect::Transfer {
                from: who,
                to: self.config.treasury_account,
                amount: fee,
                fail_as_settlement: false,
                ignore_failure: false,
            });
        }
        let c = self.private_ad_count.get_or(&community_id_hash, 0);
        self.private_ad_count.insert(community_id_hash, sat_add_u32(c, count));
        let d = self.community_era_deliveries.get_or(&community_id_hash, 0);
        self.community_era_deliveries.insert(community_id_hash, sat_add_u32(d, count));
        self.events.push(Event::PrivateAdRegistered { community_id_hash, registrar: who, count });
        proof {
            assert(effects@ =~= (if fee > 0 {
                seq![Effect::Transfer { from: who, to: old(self).config.treasury_account, amount: fee,
                    fail_as_settlement: false, ignore_failure: false }]
            } else {
                Seq::<Effect>::empty()
            }));
        }
        Ok(effects)
    }
}

/// An accepted delivery receipt records an audience no larger than the one
/// reported, no larger than the community's stake-bound cap where one is set, and
/// no smaller than the minimum audience.
pub proof fn lemma_receipt_audience_within_cap(
    p: Pallet,
    campaign_id: u64,
    community_id_hash: [u8; 32],
    audience_size: u32,
    facts: NodeFacts,
    gate: TierFeatureGate,
    now: u64,
)
    requires
        receipt_error(p, campaign_id, community_id_hash, audience_size, facts, gate, now) is None,
    ensures
        ({
            let cap = vq32(p.community_audience_cap@, community_id_hash);
            let eff = capped_audience(audience_size, cap);
            &&& eff <= audience_size
            &&& cap > 0 ==> eff <= cap
            &&& eff >= p.config.min_audience_size
        }),
{
}

} // verus!
