//! Campaign lifecycle, delivery receipts and era settlement.
use vstd::prelude::*;
use crate::arith::{clamp_u128, clamp_u64, sat_add_u128, sat_add_u64};
use crate::grouprobot::{AdReviewStatus, AdTargetTag, CampaignStatus};
use crate::kvmap::get_or;
use super::{vq128, AdCampaign, DeliveryReceipt, Effect, Error, Event, Pallet};
use super::math::{spec_cpm_cost, spec_percent_of};

verus! {

/// One receipt's share of an era settlement.
#[derive(Clone, Copy, Debug)]
pub struct SettleItem {
    pub campaign_id: u64,
    pub cost: u128,
    pub community_share: u128,
    pub node_share: u128,
    pub node_id: [u8; 32],
    pub advertiser: u64,
}

/// Audience counted for a receipt: the reported size, cut to the cap when there is one.
pub open spec fn capped_audience(audience: u32, cap: u32) -> u32 {
    if cap > 0 && audience > cap { cap } else { audience }
}

/// The settlement items of a community's receipts, priced against the campaigns
/// and escrows as they stood before settlement began.
pub open spec fn settle_plan(
    receipts: Seq<DeliveryReceipt>,
    campaigns: Map<u64, AdCampaign>,
    escrow: Map<u64, u128>,
    cap: u32,
    community_pct: u32,
    tee_pct: u32,
) -> Seq<SettleItem>
    decreases receipts.len(),
{
    if receipts.len() == 0 {
        Seq::empty()
    } else {
        let prev = settle_plan(receipts.drop_last(), campaigns, escrow, cap, community_pct, tee_pct);
        let r = receipts.last();
        if r.settled || !campaigns.contains_key(r.campaign_id) {
            prev
        } else {
            let cost = spec_cpm_cost(
                campaigns[r.campaign_id].bid_per_mille,
                capped_audience(r.audience_size, cap),
                r.delivery_type,
            );
            let esc = vq128(escrow, r.campaign_id);
            let actual = if cost < esc { cost } else { esc };
            if actual == 0 {
                prev
            } else {
                prev.push(
                    SettleItem {
                        campaign_id: r.campaign_id,
                        cost: actual,
                        community_share: spec_percent_of(actual, community_pct),
                        node_share: spec_percent_of(actual, tee_pct),
                        node_id: r.node_id,
                        advertiser: campaigns[r.campaign_id].advertiser,
                    },
                )
            }
        }
    }
}

/// Storage touched by the settlement of successive items.
pub struct SettleAcc {
    pub escrow: Map<u64, u128>,
    pub campaigns: Map<u64, AdCampaign>,
    pub claimable: u128,
    pub total: u128,
    pub share_total: u128,
    pub effects: Seq<Effect>,
    pub events: Seq<Event>,
}

/// The effects that settle one item.
pub open spec fn settle_effects(it: SettleItem, treasury: u64, reward_pool: u64) -> Seq<Effect> {
    let base = seq![
        Effect::Unreserve { who: it.advertiser, amount: it.cost },
        Effect::Transfer {
            from: it.advertiser,
            to: treasury,
            amount: clamp_u128(it.cost - it.node_share),
            fail_as_settlement: true,
            ignore_failure: false,
        },
    ];
    if it.node_share > 0 {
        base + seq![
            Effect::Transfer {
                from: it.advertiser,
                to: reward_pool,
                amount: it.node_share,
                fail_as_settlement: true,
                ignore_failure: false,
            },
            Effect::AccrueNodeReward { node_id: it.node_id, amount: it.node_share },
        ]
    } else {
        base
    }
}

/// Settles one item: the escrow pays the cost, the campaign records it (and is
/// exhausted when its escrow reaches zero), the community earns its share.
pub open spec fn settle_step(acc: SettleAcc, it: SettleItem, treasury: u64, reward_pool: u64) -> SettleAcc {
    let escrow = acc.escrow.insert(it.campaign_id, clamp_u128(vq128(acc.escrow, it.campaign_id) - it.cost));
    let campaigns = if acc.campaigns.contains_key(it.campaign_id) {
        let c = acc.campaigns[it.campaign_id];
        acc.campaigns.insert(
            it.campaign_id,
            AdCampaign {
                spent: clamp_u128(c.spent + it.cost),
                status: if escrow[it.campaign_id] == 0 { CampaignStatus::Exhausted } else { c.status },
                ..c
            },
        )
    } else {
        acc.campaigns
    };
    SettleAcc {
        escrow,
        campaigns,
        claimable: clamp_u128(acc.claimable + it.community_share),
        total: clamp_u128(acc.total + it.cost),
        share_total: clamp_u128(acc.share_total + it.community_share),
        effects: acc.effects + settle_effects(it, treasury, reward_pool),
        events: if it.node_share > 0 {
            acc.events.push(Event::NodeAdRewardAccrued { node_id: it.node_id, amount: it.node_share })
        } else {
            acc.events
        },
    }
}

/// Settles items in order.
pub open spec fn settle_apply(acc: SettleAcc, items: Seq<SettleItem>, treasury: u64, reward_pool: u64) -> SettleAcc
    decreases items.len(),
{
    if items.len() == 0 {
        acc
    } else {
        settle_step(settle_apply(acc, items.drop_last(), treasury, reward_pool), items.last(), treasury, reward_pool)
    }
}

impl Pallet {
    /// Creates a campaign and reserves its whole budget.
    pub fn create_campaign(
        &mut self,
        who: u64,
        now: u64,
        text: Vec<u8>,
        url: Vec<u8>,
        bid_per_mille: u128,
        daily_budget: u128,
        total_budget: u128,
        target: AdTargetTag,
        delivery_types: u8,
        expires_at: u64,
    ) -> (r: Result<Vec<Effect>, Error>)
        requires
            text@.len() <= old(self).config.max_ad_text_length,
            url@.len() <= old(self).config.max_ad_url_length,
        ensures
            text@.len() == 0 ==> r == Err::<Vec<Effect>, Error>(Error::EmptyAdText),
            text@.len() > 0 && !(1 <= delivery_types <= 7) ==> r == Err::<Vec<Effect>, Error>(Error::InvalidDeliveryTypes),
            text@.len() > 0 && 1 <= delivery_types <= 7 && bid_per_mille < old(self).config.min_bid_per_mille
                ==> r == Err::<Vec<Effect>, Error>(Error::BidTooLow),
            text@.len() > 0 && 1 <= delivery_types <= 7 && bid_per_mille >= old(self).config.min_bid_per_mille
                && total_budget == 0 ==> r == Err::<Vec<Effect>, Error>(Error::ZeroBudget),
            r is Err ==> *final(self) == *old(self),
            r is Ok <==> (text@.len() > 0 && 1 <= delivery_types <= 7
                && bid_per_mille >= old(self).config.min_bid_per_mille && total_budget > 0),
            r matches Ok(effects) ==> {
                let id = old(self).next_campaign_id;
                &&& effects@ == seq![Effect::Reserve { who, amount: total_budget }]
                &&& final(self).next_campaign_id == clamp_u64(id + 1)
                &&& final(self).campaigns@ == old(self).campaigns@.insert(id, AdCampaign {
                    advertiser: who,
                    text,
                    url,
                    bid_per_mille,
                    daily_budget,
                    total_budget,
                    spent: 0,
                    target,
                    delivery_types,
                    status: CampaignStatus::Active,
                    review_status: AdReviewStatus::Pending,
                    total_deliveries: 0,
                    created_at: now,
                    expires_at,
                })
                &&& final(self).campaign_escrow@ == old(self).campaign_escrow@.insert(id, total_budget)
                &&& final(self).events@ == old(self).events@.push(Event::CampaignCreated {
                    campaign_id: id, advertiser: who, total_budget, bid_per_mille })
                &&& *final(self) == (Pallet {
                    next_campaign_id: final(self).next_campaign_id,
                    campaigns: final(self).campaigns,
                    campaign_escrow: final(self).campaign_escrow,
                    events: final(self).events,
                    ..*old(self)
                })
            },
    {
        if text.len() == 0 {
            return Err(Error::EmptyAdText);
        }
        if !(delivery_types > 0 && delivery_types <= 7) {
            return Err(Error::InvalidDeliveryTypes);
        }
        if bid_per_mille < self.config.min_bid_per_mille {
            return Err(Error::BidTooLow);
        }
        if total_budget == 0 {
            return Err(Error::ZeroBudget);
        }
        let mut effects: Vec<Effect> = Vec::new();
        effects.push(Effect::Reserve { who, amount: total_budget });
        let id = self.next_campaign_id;
        self.next_campaign_id = sat_add_u64(id, 1);
        let campaign = AdCampaign {
            advertiser: who,
            text,
            url,
            bid_per_mille,
            daily_budget,
            total_budget,
            spent: 0,
            target,
            delivery_types,
            status: CampaignStatus::Active,
            review_status: AdReviewStatus::Pending,
            total_deliveries: 0,
            created_at: now,
            expires_at,
        };
        self.campaigns.insert(id, campaign);
        self.campaign_escrow.insert(id, total_budget);
        self.events.push(Event::CampaignCreated { campaign_id: id, advertiser: who, total_budget, bid_per_mille });
        Ok(effects)
    }

    /// Adds budget to an active, paused or exhausted campaign; an exhausted one becomes active.
    pub fn fund_campaign(&mut self, who: u64, campaign_id: u64, amount: u128) -> (r: Result<Vec<Effect>, Error>)
        ensures
            r is Err ==> *final(self) == *old(self),
            amount == 0 ==> r == Err::<Vec<Effect>, Error>(Error::ZeroBudget),
            amount > 0 && !old(self).campaigns@.contains_key(campaign_id) ==> r == Err::<Vec<Effect>, Error>(Error::CampaignNotFound),
            amount > 0 && old(self).campaigns@.contains_key(campaign_id) ==> {
                let c = old(self).campaigns@[campaign_id];
                if c.advertiser != who {
                    r == Err::<Vec<Effect>, Error>(Error::NotCampaignOwner)
                } else if !(c.status is Active || c.status is Paused || c.status is Exhausted) {
                    r == Err::<Vec<Effect>, Error>(Error::CampaignInactive)
                } else {
                    &&& r matches Ok(effects) && effects@ == seq![Effect::Reserve { who, amount }]
                    &&& final(self).campaigns@ == old(self).campaigns@.insert(campaign_id, AdCampaign {
                        total_budget: clamp_u128(c.total_budget + amount),
                        status: if c.status is Exhausted { CampaignStatus::Active } else { c.status },
                        ..c
                    })
                    &&& final(self).campaign_escrow@ == old(self).campaign_escrow@.insert(
                        campaign_id, clamp_u128(vq128(old(self).campaign_escrow@, campaign_id) + amount))
                    &&& final(self).events@ == old(self).events@.push(Event::CampaignFunded { campaign_id, amount })
                    &&& *final(self) == (Pallet {
                        campaigns: final(self).campaigns,
                        campaign_escrow: final(self).campaign_escrow,
                        events: final(self).events,
                        ..*old(self)
                    })
                }
            },
    {
        if amount == 0 {
            return Err(Error::ZeroBudget);
        }
        match self.campaigns.get(&campaign_id) {
            None => return Err(Error::CampaignNotFound),
            Some(c) => {
                if c.advertiser != who {
                    return Err(Error::NotCampaignOwner);
                }
                if !(c.status == CampaignStatus::Active || c.status == CampaignStatus::Paused
                    || c.status == CampaignStatus::Exhausted) {
                    return Err(Error::CampaignInactive);
                }
            },
        }
        let mut c = self.campaigns.remove(&campaign_id).unwrap();
        c.total_budget = sat_add_u128(c.total_budget, amount);
        if c.status == CampaignStatus::Exhausted {
            c.status = CampaignStatus::Active;
        }
        self.campaigns.insert(campaign_id, c);
        proof {
            assert(self.campaigns@ =~= old(self).campaigns@.insert(campaign_id, c));
        }
        let e = self.campaign_escrow.get_or(&campaign_id, 0);
        self.campaign_escrow.insert(campaign_id, sat_add_u128(e, amount));
        self.events.push(Event::CampaignFunded { campaign_id, amount });
        let mut effects: Vec<Effect> = Vec::new();
        effects.push(Effect::Reserve { who, amount });
        Ok(effects)
    }

    /// Pauses an active campaign of the caller.
    pub fn pause_campaign(&mut self, who: u64, campaign_id: u64) -> (r: Result<(), Error>)
        ensures
            r is Err ==> *final(self) == *old(self),
            !old(self).campaigns@.contains_key(campaign_id) ==> r == Err::<(), Error>(Error::CampaignNotFound),
            old(self).campaigns@.contains_key(campaign_id) ==> {
                let c = old(self).campaigns@[campaign_id];
                if c.advertiser != who {
                    r == Err::<(), Error>(Error::NotCampaignOwner)
                } else if !(c.status is Active) {
                    r == Err::<(), Error>(Error::CampaignNotActive)
                } else {
                    &&& r is Ok
                    &&& final(self).campaigns@ == old(self).campaigns@.insert(campaign_id, AdCampaign {
                        status: CampaignStatus::Paused, ..c })
                    &&& final(self).events@ == old(self).events@.push(Event::CampaignPaused { campaign_id })
                    &&& *final(self) == (Pallet {
                        campaigns: final(self).campaigns,
                        events: final(self).events,
                        ..*old(self)
                    })
                }
            },
    {
        match self.campaigns.get(&campaign_id) {
            None => return Err(Error::CampaignNotFound),
            Some(c) => {
                if c.advertiser != who {
                    return Err(Error::NotCampaignOwner);
                }
                if c.status != CampaignStatus::Active {
                    return Err(Error::CampaignNotActive);
                }
            },
        }
        let mut c = self.campaigns.remove(&campaign_id).unwrap();
        c.status = CampaignStatus::Paused;
        self.campaigns.insert(campaign_id, c);
        proof {
            assert(self.campaigns@ =~= old(self).campaigns@.insert(campaign_id, c));
        }
        self.events.push(Event::CampaignPaused { campaign_id });
        Ok(())
    }

    /// Cancels an active or paused campaign and releases what is left of its escrow.
    pub fn cancel_campaign(&mut self, who: u64, campaign_id: u64) -> (r: Result<Vec<Effect>, Error>)
        ensures
            r is Err ==> *final(self) == *old(self),
            !old(self).campaigns@.contains_key(campaign_id) ==> r == Err::<Vec<Effect>, Error>(Error::CampaignNotFound),
            old(self).campaigns@.contains_key(campaign_id) ==> {
                let c = old(self).campaigns@[campaign_id];
                let remaining = vq128(old(self).campaign_escrow@, campaign_id);
                if c.advertiser != who {
                    r == Err::<Vec<Effect>, Error>(Error::NotCampaignOwner)
                } else if !(c.status is Active || c.status is Paused) {
                    r == Err::<Vec<Effect>, Error>(Error::CampaignInactive)
                } else {
                    &&& r matches Ok(effects) && effects@ == (if remaining > 0 {
                        seq![Effect::Unreserve { who, amount: remaining }]
                    } else {
                        Seq::<Effect>::empty()
                    })
                    &&& final(self).campaigns@ == old(self).campaigns@.insert(campaign_id, AdCampaign {
                        status: CampaignStatus::Cancelled, ..c })
                    &&& final(self).campaign_escrow@ == old(self).campaign_escrow@.remove(campaign_id)
                    &&& final(self).events@ == old(self).events@.push(Event::CampaignCancelled {
                        campaign_id, refunded: remaining })
                    &&& *final(self) == (Pallet {
                        campaigns: final(self).campaigns,
                        campaign_escrow: final(self).campaign_escrow,
                        events: final(self).events,
                        ..*old(self)
                    })
                }
            },
    {
        match self.campaigns.get(&campaign_id) {
            None => return Err(Error::CampaignNotFound),
            Some(c) => {
                if c.advertiser != who {
                    return Err(Error::NotCampaignOwner);
                }
                if !(c.status == CampaignStatus::Active || c.status == CampaignStatus::Paused) {
                    return Err(Error::CampaignInactive);
                }
            },
        }
        let remaining = self.campaign_escrow.get_or(&campaign_id, 0);
        let mut effects: Vec<Effect> = Vec::new();
        if remaining != 0 {
            effects.push(Effect::Unreserve { who, amount: remaining });
        }
        let _ = self.campaign_escrow.remove(&campaign_id);
        let mut c = self.campaigns.remove(&campaign_id).unwrap();
        c.status = CampaignStatus::Cancelled;
        self.campaigns.insert(campaign_id, c);
        proof {
            assert(self.campaigns@ =~= old(self).campaigns@.insert(campaign_id, c));
            assert(effects@ =~= (if remaining > 0 {
                seq![Effect::Unreserve { who, amount: remaining }]
            } else {
                Seq::<Effect>::empty()
            }));
        }
        self.events.push(Event::CampaignCancelled { campaign_id, refunded: remaining });
        Ok(effects)
    }

    /// Governance review of a pending or flagged campaign.
    pub fn review_campaign(&mut self, campaign_id: u64, approved: bool) -> (r: Result<(), Error>)
        ensures
            r is Err ==> *final(self) == *old(self),
            !old(self).campaigns@.contains_key(campaign_id) ==> r == Err::<(), Error>(Error::CampaignNotFound),
            old(self).campaigns@.contains_key(campaign_id) ==> {
                let c = old(self).campaigns@[campaign_id];
                if !(c.review_status is Pending || c.review_status is Flagged) {
                    r == Err::<(), Error>(Error::AlreadyReviewed)
                } else {
                    &&& r is Ok
                    &&& final(self).campaigns@ == old(self).campaigns@.insert(campaign_id, AdCampaign {
                        review_status: if approved { AdReviewStatus::Approved } else { AdReviewStatus::Rejected },
                        ..c
                    })
                    &&& final(self).events@ == old(self).events@.push(Event::CampaignReviewed { campaign_id, approved })
                    &&& *final(self) == (Pallet {
                        campaigns: final(self).campaigns,
                        events: final(self).events,
                        ..*old(self)
                    })
                }
            },
    {
        match self.campaigns.get(&campaign_id) {
            None => return Err(Error::CampaignNotFound),
            Some(c) => {
                if !(c.review_status == AdReviewStatus::Pending || c.review_status == AdReviewStatus::Flagged) {
                    return Err(Error::AlreadyReviewed);
                }
            },
        }
        let mut c = self.campaigns.remove(&campaign_id).unwrap();
        c.review_status = if approved { AdReviewStatus::Approved } else { AdReviewStatus::Rejected };
        self.campaigns.insert(campaign_id, c);
        proof {
            assert(self.campaigns@ =~= old(self).campaigns@.insert(campaign_id, c));
        }
        self.events.push(Event::CampaignReviewed { campaign_id, approved });
        Ok(())
    }

    /// Reports an active campaign that is approved or pending review.
    pub fn flag_campaign(&mut self, who: u64, campaign_id: u64) -> (r: Result<(), Error>)
        ensures
            r is Err ==> *final(self) == *old(self),
            !old(self).campaigns@.contains_key(campaign_id) ==> r == Err::<(), Error>(Error::CampaignNotFound),
            old(self).campaigns@.contains_key(campaign_id) ==> {
                let c = old(self).campaigns@[campaign_id];
                if !(c.status is Active) {
                    r == Err::<(), Error>(Error::CampaignNotActive)
                } else if !(c.review_status is Approved || c.review_status is Pending) {
                    r == Err::<(), Error>(Error::AlreadyReviewed)
                } else {
                    &&& r is Ok
                    &&& final(self).campaigns@ == old(self).campaigns@.insert(campaign_id, AdCampaign {
                        review_status: AdReviewStatus::Flagged, ..c })
                    &&& final(self).events@ == old(self).events@.push(Event::CampaignFlagged { campaign_id, reporter: who })
                    &&& *final(self) == (Pallet {
                        campaigns: final(self).campaigns,
                        events: final(self).events,
                        ..*old(self)
                    })
                }
            },
    {
        match self.campaigns.get(&campaign_id) {
            None => return Err(Error::CampaignNotFound),
            Some(c) => {
                if c.status != CampaignStatus::Active {
                    return Err(Error::CampaignNotActive);
                }
                if !(c.review_status == AdReviewStatus::Approved || c.review_status == AdReviewStatus::Pending) {
                    return Err(Error::AlreadyReviewed);
                }
            },
        }
        let mut c = self.campaigns.remove(&campaign_id).unwrap();
        c.review_status = AdReviewStatus::Flagged;
        self.campaigns.insert(campaign_id, c);
        proof {
            assert(self.campaigns@ =~= old(self).campaigns@.insert(campaign_id, c));
        }
        self.events.push(Event::CampaignFlagged { campaign_id, reporter: who });
        Ok(())
    }
}

} // verus!
