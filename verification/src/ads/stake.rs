//! Staking for an audience cap, slashing, anti-fraud reports and governance settings.
use vstd::prelude::*;
use crate::arith::{clamp_u128, clamp_u32, sat_add_u128, sat_add_u32, sat_mul_u32, sat_sub_u128};
use crate::kvmap::seq_or_empty;
use super::{effective_community_pct, effective_tee_pct, vq128, vq32, vqb, Effect, Error, Event, Pallet};
use super::math::{compute_audience_cap, percent_of, spec_audience_cap, spec_percent_of};

verus! {

/// Threshold above which an audience counts as a surge: `previous` grown by `pct` percent, saturating.
pub open spec fn surge_limit(previous: u32, pct: u32) -> u32 {
    clamp_u32(previous + clamp_u32(previous * pct) / 100)
}

impl Pallet {
    /// Stakes for a community's advertising. The stake sets the community's
    /// audience cap; the first stake also fixes the community's admin, which is
    /// the bot's owner where the registry knows one and the staker otherwise.
    pub fn stake_for_ads(
        &mut self,
        who: u64,
        community_id_hash: [u8; 32],
        amount: u128,
        bot_owner: Option<u64>,
    ) -> (r: Result<Vec<Effect>, Error>)
        ensures
            r is Err ==> *final(self) == *old(self),
            amount == 0 ==> r == Err::<Vec<Effect>, Error>(Error::ZeroStakeAmount),
            amount > 0 && vqb(old(self).banned_communities@, community_id_hash) ==> r == Err::<Vec<Effect>, Error>(Error::CommunityBanned),
            amount > 0 && !vqb(old(self).banned_communities@, community_id_hash) ==> {
                let new_stake = clamp_u128(vq128(old(self).community_ad_stake@, community_id_hash) + amount);
                let cap = spec_audience_cap(new_stake);
                &&& r matches Ok(effects) && effects@ == seq![Effect::Reserve { who, amount }]
                &&& final(self).community_stakers@ == old(self).community_stakers@.insert((community_id_hash, who),
                    clamp_u128(vq128(old(self).community_stakers@, (community_id_hash, who)) + amount))
                &&& final(self).community_admin@ == (if old(self).community_admin@.contains_key(community_id_hash) {
                    old(self).community_admin@
                } else {
                    old(self).community_admin@.insert(community_id_hash,
                        if bot_owner is Some { bot_owner->0 } else { who })
                })
                &&& final(self).community_ad_stake@ == old(self).community_ad_stake@.insert(community_id_hash, new_stake)
                &&& final(self).community_audience_cap@ == old(self).community_audience_cap@.insert(community_id_hash, cap)
                &&& final(self).events@ == old(self).events@.push(Event::AdStaked { community_id_hash, amount, audience_cap: cap })
                &&& *final(self) == (Pallet {
                    community_stakers: final(self).community_stakers,
                    community_admin: final(self).community_admin,
                    community_ad_stake: final(self).community_ad_stake,
                    community_audience_cap: final(self).community_audience_cap,
                    events: final(self).events,
                    ..*old(self)
                })
            },
    {
        if amount == 0 {
            return Err(Error::ZeroStakeAmount);
        }
        if self.banned_communities.get_or(&community_id_hash, false) {
            return Err(Error::CommunityBanned);
        }
        let mut effects: Vec<Effect> = Vec::new();
        effects.push(Effect::Reserve { who, amount });
        let personal = self.community_stakers.get_or(&(community_id_hash, who), 0);
        self.community_stakers.insert((community_id_hash, who), sat_add_u128(personal, amount));
        if !self.community_admin.contains_key(&community_id_hash) {
            let admin = match bot_owner {
                Some(o) => o,
                None => who,
            };
            self.community_admin.insert(community_id_hash, admin);
        }
        let stake = self.community_ad_stake.get_or(&community_id_hash, 0);
        let new_stake = sat_add_u128(stake, amount);
        self.community_ad_stake.insert(community_id_hash, new_stake);
        let cap = compute_audience_cap(new_stake);
        self.community_audience_cap.insert(community_id_hash, cap);
        self.events.push(Event::AdStaked { community_id_hash, amount, audience_cap: cap });
        Ok(effects)
    }

    /// Withdraws part of one's own stake; the community's cap follows the remaining stake.
    pub fn unstake_from_ads(&mut self, who: u64, community_id_hash: [u8; 32], amount: u128) -> (r: Result<Vec<Effect>, Error>)
        ensures
            r is Err ==> *final(self) == *old(self),
            ({
                let personal = vq128(old(self).community_stakers@, (community_id_hash, who));
                let current = vq128(old(self).community_ad_stake@, community_id_hash);
                if amount == 0 {
                    r == Err::<Vec<Effect>, Error>(Error::ZeroStakeAmount)
                } else if personal < amount || current < amount {
                    r == Err::<Vec<Effect>, Error>(Error::InsufficientStake)
                } else {
                    let new_stake = (current - amount) as u128;
                    &&& r matches Ok(effects) && effects@ == seq![Effect::Unreserve { who, amount }]
                    &&& final(self).community_stakers@ == (if personal == amount {
                        old(self).community_stakers@.remove((community_id_hash, who))
                    } else {
                        old(self).community_stakers@.insert((community_id_hash, who), (personal - amount) as u128)
                    })
                    &&& final(self).community_ad_stake@ == old(self).community_ad_stake@.insert(community_id_hash, new_stake)
                    &&& final(self).community_audience_cap@ == old(self).community_audience_cap@.insert(
                        community_id_hash, spec_audience_cap(new_stake))
                    &&& final(self).events@ == old(self).events@.push(Event::AdUnstaked { community_id_hash, amount })
                    &&& *final(self) == (Pallet {
                        community_stakers: final(self).community_stakers,
                        community_ad_stake: final(self).community_ad_stake,
                        community_audience_cap: final(self).community_audience_cap,
                        events: final(self).events,
                        ..*old(self)
                    })
                }
            }),
    {
        if amount == 0 {
            return Err(Error::ZeroStakeAmount);
        }
        let personal = self.community_stakers.get_or(&(community_id_hash, who), 0);
        if personal < amount {
            return Err(Error::InsufficientStake);
        }
        let current = self.community_ad_stake.get_or(&community_id_hash, 0);
        if current < amount {
            return Err(Error::InsufficientStake);
        }
        let mut effects: Vec<Effect> = Vec::new();
        effects.push(Effect::Unreserve { who, amount });
        let new_personal = personal - amount;
        if new_personal == 0 {
            let _ = self.community_stakers.remove(&(community_id_hash, who));
        } else {
            self.community_stakers.insert((community_id_hash, who), new_personal);
        }
        let new_stake = current - amount;
        self.community_ad_stake.insert(community_id_hash, new_stake);
        let cap = compute_audience_cap(new_stake);
        self.community_audience_cap.insert(community_id_hash, cap);
        self.events.push(Event::AdUnstaked { community_id_hash, amount });
        Ok(effects)
    }

    /// Governance slashes a community for fraud: a share of the stake leaves the
    /// admin's reserve, half to the reporter and the rest to the treasury (failed
    /// transfers are tolerated); the cap is halved; the third slash bans the
    /// community from advertising.
    pub fn slash_community(&mut self, community_id_hash: [u8; 32], reporter: u64) -> (r: Result<Vec<Effect>, Error>)
        ensures
            r is Err ==> *final(self) == *old(self),
            ({
                let stake = vq128(old(self).community_ad_stake@, community_id_hash);
                let slash = spec_percent_of(stake, old(self).config.ad_slash_percentage);
                let count = clamp_u32(vq32(old(self).slash_count@, community_id_hash) + 1);
                if stake == 0 {
                    r == Err::<Vec<Effect>, Error>(Error::InsufficientStake)
                } else if slash > 0 && !old(self).community_admin@.contains_key(community_id_hash) {
                    r == Err::<Vec<Effect>, Error>(Error::NotCommunityAdmin)
                } else {
                    let admin = old(self).community_admin@[community_id_hash];
                    let reporter_share = spec_percent_of(slash, 50);
                    let treasury_share = clamp_u128(slash - reporter_share);
                    let treasury = old(self).config.treasury_account;
                    let personal = clamp_u128(vq128(old(self).community_stakers@, (community_id_hash, admin)) - slash);
                    let slashed_events = old(self).events@.push(Event::CommunitySlashed {
                        community_id_hash, slashed_amount: slash, slash_count: count });
                    &&& r matches Ok(effects) && effects@ == (if slash == 0 {
                        Seq::<Effect>::empty()
                    } else {
                        seq![Effect::Unreserve { who: admin, amount: slash }]
                        + (if reporter_share > 0 {
                            seq![Effect::Transfer { from: admin, to: reporter, amount: reporter_share,
                                fail_as_settlement: false, ignore_failure: true }]
                        } else {
                            Seq::<Effect>::empty()
                        })
                        + (if treasury_share > 0 {
                            seq![Effect::Transfer { from: admin, to: treasury, amount: treasury_share,
                                fail_as_settlement: false, ignore_failure: true }]
                        } else {
                            Seq::<Effect>::empty()
                        })
                    })
                    &&& final(self).community_stakers@ == (if slash == 0 {
                        old(self).community_stakers@
                    } else if personal == 0 {
                        old(self).community_stakers@.remove((community_id_hash, admin))
                    } else {
                        old(self).community_stakers@.insert((community_id_hash, admin), personal)
                    })
                    &&& final(self).community_ad_stake@ == old(self).community_ad_stake@.insert(
                        community_id_hash, clamp_u128(stake - slash))
                    &&& final(self).community_audience_cap@ == old(self).community_audience_cap@.insert(
                        community_id_hash, (vq32(old(self).community_audience_cap@, community_id_hash) / 2) as u32)
                    &&& final(self).slash_count@ == old(self).slash_count@.insert(community_id_hash, count)
                    &&& final(self).banned_communities@ == (if count >= 3 {
                        old(self).banned_communities@.insert(community_id_hash, true)
                    } else {
                        old(self).banned_communities@
                    })
                    &&& final(self).events@ == (if count >= 3 {
                        slashed_events.push(Event::CommunityBannedFromAds { community_id_hash })
                    } else {
                        slashed_events
                    })
                    &&& *final(self) == (Pallet {
                        community_stakers: final(self).community_stakers,
                        community_ad_stake: final(self).community_ad_stake,
                        community_audience_cap: final(self).community_audience_cap,
                        slash_count: final(self).slash_count,
                        banned_communities: final(self).banned_communities,
                        events: final(self).events,
                        ..*old(self)
                    })
                }
            }),
    {
        let stake = self.community_ad_stake.get_or(&community_id_hash, 0);
        if stake == 0 {
            return Err(Error::InsufficientStake);
        }
        let slash_amount = percent_of(stake, self.config.ad_slash_percentage);
        let mut effects: Vec<Effect> = Vec::new();
        if slash_amount != 0 {
            let admin = match self.community_admin.get(&community_id_hash) {
                Some(a) => *a,
                None => return Err(Error::NotCommunityAdmin),
            };
            effects.push(Effect::Unreserve { who: admin, amount: slash_amount });
            let reporter_share = percent_of(slash_amount, 50);
            let treasury_share = sat_sub_u128(slash_amount, reporter_share);
            let treasury = self.config.treasury_account;
            if reporter_share != 0 {
                effects.push(Effect::Transfer {
                    from: admin,
                    to: reporter,
                    amount: reporter_share,
                    fail_as_settlement: false,
                    ignore_failure: true,
                });
            }
            if treasury_share != 0 {
                effects.push(Effect::Transfer {
                    from: admin,
                    to: treasury,
                    amount: treasury_share,
                    fail_as_settlement: false,
                    ignore_failure: true,
                });
            }
            let personal = self.community_stakers.get_or(&(community_id_hash, admin), 0);
            let new_personal = sat_sub_u128(personal, slash_amount);
            if new_personal == 0 {
                let _ = self.community_stakers.remove(&(community_id_hash, admin));
            } else {
                self.community_stakers.insert((community_id_hash, admin), new_personal);
            }
            proof {
                assert(effects@ =~= seq![Effect::Unreserve { who: admin, amount: slash_amount }]
                    + (if reporter_share > 0 {
                        seq![Effect::Transfer { from: admin, to: reporter, amount: reporter_share,
                            fail_as_settlement: false, ignore_failure: true }]
                    } else {
                        Seq::<Effect>::empty()
                    })
                    + (if treasury_share > 0 {
                        seq![Effect::Transfer { from: admin, to: treasury, amount: treasury_share,
                            fail_as_settlement: false, ignore_failure: true }]
                    } else {
                        Seq::<Effect>::empty()
                    }));
            }
        }
        self.community_ad_stake.insert(community_id_hash, sat_sub_u128(stake, slash_amount));
        let cap = self.community_audience_cap.get_or(&community_id_hash, 0);
        self.community_audience_cap.insert(community_id_hash, cap / 2);
        let c = self.slash_count.get_or(&community_id_hash, 0);
        let count = sat_add_u32(c, 1);
        self.slash_count.insert(community_id_hash, count);
        self.events.push(Event::CommunitySlashed { community_id_hash, slashed_amount: slash_amount, slash_count: count });
        if count >= 3 {
            self.banned_communities.insert(community_id_hash, true);
            self.events.push(Event::CommunityBannedFromAds { community_id_hash });
        }
        Ok(effects)
    }

    /// Anyone reports a community for fraud; the reports are counted.
    pub fn flag_community(&mut self, who: u64, community_id_hash: [u8; 32]) -> (r: Result<(), Error>)
        ensures
            ({
                let count = clamp_u32(vq32(old(self).community_flag_count@, community_id_hash) + 1);
                &&& r is Ok
                &&& final(self).community_flag_count@ == old(self).community_flag_count@.insert(community_id_hash, count)
                &&& final(self).events@ == old(self).events@.push(Event::CommunityFlagged {
                    community_id_hash, reporter: who, flag_count: count })
                &&& *final(self) == (Pallet {
                    community_flag_count: final(self).community_flag_count,
                    events: final(self).events,
                    ..*old(self)
                })
            }),
    {
        let c = self.community_flag_count.get_or(&community_id_hash, 0);
        let count = sat_add_u32(c, 1);
        self.community_flag_count.insert(community_id_hash, count);
        self.events.push(Event::CommunityFlagged { community_id_hash, reporter: who, flag_count: count });
        Ok(())
    }

    /// A node's count of a community's audience, kept for cross-checking at settlement.
    pub fn report_node_audience(&mut self, community_id_hash: [u8; 32], audience_size: u32, node_id_prefix: u32) -> (r: Result<(), Error>)
        ensures
            r is Err ==> *final(self) == *old(self),
            ({
                let s = seq_or_empty(old(self).node_audience_reports@, community_id_hash);
                if vqb(old(self).banned_communities@, community_id_hash) {
                    r == Err::<(), Error>(Error::CommunityBanned)
                } else if s.len() >= 10 {
                    r == Err::<(), Error>(Error::NodeReportsFull)
                } else {
                    &&& r is Ok
                    &&& final(self).node_audience_reports@ == old(self).node_audience_reports@.insert(
                        community_id_hash, final(self).node_audience_reports@[community_id_hash])
                    &&& final(self).node_audience_reports@[community_id_hash]@ == s.push((node_id_prefix, audience_size))
                    &&& *final(self) == (Pallet { node_audience_reports: final(self).node_audience_reports, ..*old(self) })
                }
            }),
    {
        if self.banned_communities.get_or(&community_id_hash, false) {
            return Err(Error::CommunityBanned);
        }
        let n = match self.node_audience_reports.get(&community_id_hash) {
            Some(v) => v.len(),
            None => 0,
        };
        if n >= 10 {
            return Err(Error::NodeReportsFull);
        }
        let mut reports = match self.node_audience_reports.remove(&community_id_hash) {
            Some(v) => v,
            None => Vec::new(),
        };
        reports.push((node_id_prefix, audience_size));
        self.node_audience_reports.insert(community_id_hash, reports);
        proof {
            assert(self.node_audience_reports@ =~= old(self).node_audience_reports@.insert(
                community_id_hash, self.node_audience_reports@[community_id_hash]));
        }
        Ok(())
    }

    /// A signed caller reports the community's audience for the era. The first
    /// report is only recorded; growth beyond the surge threshold pauses the
    /// community's ads for two reports; a normal report counts a pause down.
    pub fn check_audience_surge(
        &mut self,
        community_id_hash: [u8; 32],
        current_audience: u32,
    ) -> (r: Result<(), Error>)
        ensures
            ({
                let previous = vq32(old(self).previous_era_audience@, community_id_hash);
                let limit = surge_limit(previous, old(self).config.audience_surge_threshold_pct);
                let paused = vq32(old(self).audience_surge_paused@, community_id_hash);
                &&& r is Ok
                &&& final(self).previous_era_audience@ == old(self).previous_era_audience@.insert(community_id_hash, current_audience)
                &&& final(self).audience_surge_paused@ == (if previous == 0 {
                    old(self).audience_surge_paused@
                } else if current_audience > limit {
                    old(self).audience_surge_paused@.insert(community_id_hash, 2)
                } else if paused == 1 {
                    old(self).audience_surge_paused@.remove(community_id_hash)
                } else if paused > 1 {
                    old(self).audience_surge_paused@.insert(community_id_hash, (paused - 1) as u32)
                } else {
                    old(self).audience_surge_paused@
                })
                &&& final(self).events@ == (if previous == 0 {
                    old(self).events@
                } else if current_audience > limit {
                    old(self).events@.push(Event::AudienceSurgePausedEvent {
                        community_id_hash, previous, current: current_audience })
                } else if paused == 1 {
                    old(self).events@.push(Event::AudienceSurgeResumed { community_id_hash })
                } else {
                    old(self).events@
                })
                &&& *final(self) == (Pallet {
                    previous_era_audience: final(self).previous_era_audience,
                    audience_surge_paused: final(self).audience_surge_paused,
                    events: final(self).events,
                    ..*old(self)
                })
            }),
    {
        let previous = self.previous_era_audience.get_or(&community_id_hash, 0);
        let threshold_pct = self.config.audience_surge_threshold_pct;
        if previous == 0 {
            self.previous_era_audience.insert(community_id_hash, current_audience);
            return Ok(());
        }
        let allowed_max = sat_add_u32(previous, sat_mul_u32(previous, threshold_pct) / 100);
        if current_audience > allowed_max {
            self.audience_surge_paused.insert(community_id_hash, 2);
            self.events.push(Event::AudienceSurgePausedEvent {
                community_id_hash,
                previous,
                current: current_audience,
            });
        } else {
            let paused = self.audience_surge_paused.get_or(&community_id_hash, 0);
            if paused > 0 {
                let new_paused = paused - 1;
                if new_paused == 0 {
                    let _ = self.audience_surge_paused.remove(&community_id_hash);
                    self.events.push(Event::AudienceSurgeResumed { community_id_hash });
                } else {
                    self.audience_surge_paused.insert(community_id_hash, new_paused);
                }
            }
        }
        self.previous_era_audience.insert(community_id_hash, current_audience);
        Ok(())
    }

    /// Governance sets the TEE nodes' share; with the community share it may not exceed 100.
    pub fn set_tee_ad_percentage(&mut self, tee_pct: u32) -> (r: Result<(), Error>)
        ensures
            r is Err ==> *final(self) == *old(self),
            clamp_u32(effective_community_pct(old(self).community_ad_pct) + tee_pct) > 100
                ==> r == Err::<(), Error>(Error::InvalidPercentage),
            clamp_u32(effective_community_pct(old(self).community_ad_pct) + tee_pct) <= 100 ==> {
                &&& r is Ok
                &&& *final(self) == (Pallet {
                    tee_node_ad_pct: tee_pct,
                    events: final(self).events,
                    ..*old(self)
                })
                &&& final(self).events@ == old(self).events@.push(Event::TeeAdPercentUpdated { tee_pct })
            },
            r is Ok && tee_pct > 0 ==> effective_community_pct(final(self).community_ad_pct)
                + effective_tee_pct(final(self).tee_node_ad_pct) <= 100,
    {
        let community_pct = if self.community_ad_pct == 0 { 60u32 } else { self.community_ad_pct };
        if sat_add_u32(community_pct, tee_pct) > 100 {
            return Err(Error::InvalidPercentage);
        }
        self.tee_node_ad_pct = tee_pct;
        self.events.push(Event::TeeAdPercentUpdated { tee_pct });
        Ok(())
    }

    /// Governance sets the communities' share: between 50 and 95, and with the
    /// TEE nodes' share at most 100.
    pub fn set_community_ad_percentage(&mut self, community_pct: u32) -> (r: Result<(), Error>)
        ensures
            r is Err ==> *final(self) == *old(self),
            !(50 <= community_pct <= 95)
                || clamp_u32(community_pct + effective_tee_pct(old(self).tee_node_ad_pct)) > 100
                ==> r == Err::<(), Error>(Error::InvalidPercentage),
            (50 <= community_pct <= 95)
                && clamp_u32(community_pct + effective_tee_pct(old(self).tee_node_ad_pct)) <= 100 ==> {
                &&& r is Ok
                &&& *final(self) == (Pallet {
                    community_ad_pct: community_pct,
                    events: final(self).events,
                    ..*old(self)
                })
                &&& final(self).events@ == old(self).events@.push(Event::CommunityAdPercentUpdated { community_pct })
            },
            r is Ok ==> effective_community_pct(final(self).community_ad_pct)
                + effective_tee_pct(final(self).tee_node_ad_pct) <= 100,
    {
        if !(community_pct >= 50 && community_pct <= 95) {
            return Err(Error::InvalidPercentage);
        }
        let tee_pct = if self.tee_node_ad_pct == 0 { 32u32 } else { self.tee_node_ad_pct };
        if sat_add_u32(community_pct, tee_pct) > 100 {
            return Err(Error::InvalidPercentage);
        }
        self.community_ad_pct = community_pct;
        self.events.push(Event::CommunityAdPercentUpdated { community_pct });
        Ok(())
    }

    /// Governance sets or replaces a community's admin.
    pub fn set_community_admin(&mut self, community_id_hash: [u8; 32], new_admin: u64) -> (r: Result<(), Error>)
        ensures
            r is Ok,
            final(self).community_admin@ == old(self).community_admin@.insert(community_id_hash, new_admin),
            *final(self) == (Pallet { community_admin: final(self).community_admin, ..*old(self) }),
    {
        self.community_admin.insert(community_id_hash, new_admin);
        Ok(())
    }
}

/// The effective shares of communities and nodes never add up to more than the
/// cost of a delivery, whatever governance has set within its bounds.
pub proof fn lemma_settlement_shares_within_cost(p: Pallet, cost: u128)
    requires
        effective_community_pct(p.community_ad_pct) + effective_tee_pct(p.tee_node_ad_pct) <= 100,
    ensures
        spec_percent_of(cost, effective_community_pct(p.community_ad_pct))
            + spec_percent_of(cost, effective_tee_pct(p.tee_node_ad_pct)) <= cost,
{
    super::math::lemma_percent_shares_bounded(cost, effective_community_pct(p.community_ad_pct), effective_tee_pct(p.tee_node_ad_pct));
}

} // verus!
