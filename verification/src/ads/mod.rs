//! Group advertising: campaigns with escrowed budgets, CPM settlement per era,
//! stake-anchored audience caps with slashing, and two-way preference lists
//! between advertisers and communities.
//!
//! The pallet's storage is the [`Pallet`] value. Calls into the runtime's
//! currency and node-reward services are returned as [`Effect`]s for the caller
//! to perform; facts the call needs from other pallets are passed in.
use vstd::prelude::*;
use crate::grouprobot::{AdDeliveryType, AdReviewStatus, AdTargetTag, CampaignStatus};
use crate::kvmap::{get_or, KvMap};

pub mod math;
pub mod calls;
pub mod settle;
pub mod stake;
pub mod prefs;


verus! {

/// Constants of the pallet, set by the runtime.
#[derive(Clone, Copy, Debug)]
pub struct Config {
    pub max_ad_text_length: u32,
    pub max_ad_url_length: u32,
    pub max_receipts_per_community: u32,
    pub max_advertiser_blacklist: u32,
    pub max_advertiser_whitelist: u32,
    pub max_community_blacklist: u32,
    pub max_community_whitelist: u32,
    /// Lowest accepted bid per thousand impressions.
    pub min_bid_per_mille: u128,
    /// Lowest audience a delivery must reach.
    pub min_audience_size: u32,
    /// Growth in percent over the previous era that counts as a surge.
    pub audience_surge_threshold_pct: u32,
    /// Spread in percent between node reports above which settlement is refused.
    pub node_deviation_threshold_pct: u32,
    /// Share of the stake taken by a slash, in percent.
    pub ad_slash_percentage: u32,
    pub treasury_account: u64,
    pub reward_pool_account: u64,
    /// Fee per privately registered delivery.
    pub private_ad_registration_fee: u128,
}

/// An advertising campaign.
#[derive(Clone, Debug)]
pub struct AdCampaign {
    pub advertiser: u64,
    pub text: Vec<u8>,
    pub url: Vec<u8>,
    pub bid_per_mille: u128,
    pub daily_budget: u128,
    pub total_budget: u128,
    pub spent: u128,
    pub target: AdTargetTag,
    /// Bit 0: scheduled post, bit 1: reply footer, bit 2: welcome embed.
    pub delivery_types: u8,
    pub status: CampaignStatus,
    pub review_status: AdReviewStatus,
    pub total_deliveries: u64,
    pub created_at: u64,
    pub expires_at: u64,
}

/// A community's advertising schedule for an era.
#[derive(Clone, Debug)]
pub struct CommunityAdSchedule {
    pub community_id_hash: [u8; 32],
    pub scheduled_campaigns: Vec<u64>,
    pub daily_limit: u8,
    pub delivered_this_era: u32,
}

/// A bot's report that a campaign was delivered to a community.
#[derive(Clone, Copy, Debug)]
pub struct DeliveryReceipt {
    pub campaign_id: u64,
    pub community_id_hash: [u8; 32],
    pub delivery_type: AdDeliveryType,
    pub audience_size: u32,
    pub node_id: [u8; 32],
    pub node_signature: [u8; 64],
    pub delivered_at: u64,
    pub settled: bool,
}

/// What the runtime must do after a successful call, in this order. A failure
/// of any effect fails the whole call, which leaves storage as it was, unless
/// the effect says otherwise.
#[derive(Clone, Copy, Debug, PartialEq, Eq)]
pub enum Effect {
    /// Reserve `amount` of `who`'s free balance; its error fails the call.
    Reserve { who: u64, amount: u128 },
    /// Unreserve up to `amount` of `who`'s reserved balance; never fails.
    Unreserve { who: u64, amount: u128 },
    /// Transfer allowing the sender's account to be reaped. `fail_as_settlement`:
    /// a failure fails the call with [`Error::SettlementTransferFailed`];
    /// `ignore_failure`: a failure is ignored; otherwise the currency's error fails the call.
    Transfer { from: u64, to: u64, amount: u128, fail_as_settlement: bool, ignore_failure: bool },
    /// Credit a node's share to the shared reward pool.
    AccrueNodeReward { node_id: [u8; 32], amount: u128 },
}

#[derive(Clone, Copy, Debug, PartialEq, Eq)]
pub enum Event {
    CampaignCreated { campaign_id: u64, advertiser: u64, total_budget: u128, bid_per_mille: u128 },
    CampaignFunded { campaign_id: u64, amount: u128 },
    CampaignPaused { campaign_id: u64 },
    CampaignCancelled { campaign_id: u64, refunded: u128 },
    CampaignReviewed { campaign_id: u64, approved: bool },
    DeliveryReceiptSubmitted { campaign_id: u64, community_id_hash: [u8; 32], audience_size: u32 },
    EraAdsSettled { community_id_hash: [u8; 32], total_cost: u128, community_share: u128 },
    CampaignFlagged { campaign_id: u64, reporter: u64 },
    AdRevenueClaimed { community_id_hash: [u8; 32], amount: u128, claimer: u64 },
    AdStaked { community_id_hash: [u8; 32], amount: u128, audience_cap: u32 },
    AdUnstaked { community_id_hash: [u8; 32], amount: u128 },
    CommunitySlashed { community_id_hash: [u8; 32], slashed_amount: u128, slash_count: u32 },
    CommunityBannedFromAds { community_id_hash: [u8; 32] },
    AdvertiserBlockedCommunity { advertiser: u64, community_id_hash: [u8; 32] },
    AdvertiserUnblockedCommunity { advertiser: u64, community_id_hash: [u8; 32] },
    AdvertiserPreferredCommunity { advertiser: u64, community_id_hash: [u8; 32] },
    CommunityBlockedAdvertiser { community_id_hash: [u8; 32], advertiser: u64 },
    CommunityUnblockedAdvertiser { community_id_hash: [u8; 32], advertiser: u64 },
    CommunityPreferredAdvertiser { community_id_hash: [u8; 32], advertiser: u64 },
    CommunityFlagged { community_id_hash: [u8; 32], reporter: u64, flag_count: u32 },
    AudienceSurgePausedEvent { community_id_hash: [u8; 32], previous: u32, current: u32 },
    AudienceSurgeResumed { community_id_hash: [u8; 32] },
    NodeDeviationRejected { community_id_hash: [u8; 32], min_audience: u32, max_audience: u32 },
    NodeAdRewardAccrued { node_id: [u8; 32], amount: u128 },
    TeeAdPercentUpdated { tee_pct: u32 },
    CommunityAdPercentUpdated { community_pct: u32 },
    PrivateAdRegistered { community_id_hash: [u8; 32], registrar: u64, count: u32 },
}

#[derive(Clone, Copy, Debug, PartialEq, Eq, Structural)]
pub enum Error {
    CampaignNotFound,
    NotCampaignOwner,
    CampaignNotActive,
    BidTooLow,
    ZeroBudget,
    EmptyAdText,
    InvalidDeliveryTypes,
    ReceiptsFull,
    BlacklistFull,
    WhitelistFull,
    AlreadyBlacklisted,
    NotBlacklisted,
    AlreadyWhitelisted,
    NotWhitelisted,
    CommunityBanned,
    NothingToClaim,
    CampaignInactive,
    ZeroStakeAmount,
    InsufficientStake,
    AlreadyReviewed,
    CampaignNotApproved,
    AudienceBelowMinimum,
    CommunityAdsPaused,
    NodeDeviationTooHigh,
    NodeReportsFull,
    NodeNotActive,
    NodeNotTee,
    InvalidPercentage,
    NotCommunityAdmin,
    CampaignExpired,
    SettlementTransferFailed,
    AdsDisabledByTier,
    TeeNotAvailableForTier,
    ZeroPrivateAdCount,
}

/// The pallet's storage.
#[derive(Clone)]
pub struct Pallet {
    pub config: Config,
    pub next_campaign_id: u64,
    pub campaigns: KvMap<u64, AdCampaign>,
    pub campaign_escrow: KvMap<u64, u128>,
    pub community_schedules: KvMap<[u8; 32], CommunityAdSchedule>,
    pub delivery_receipts: KvMap<[u8; 32], Vec<DeliveryReceipt>>,
    pub era_ad_revenue: KvMap<[u8; 32], u128>,
    pub community_total_revenue: KvMap<[u8; 32], u128>,
    pub community_claimable: KvMap<[u8; 32], u128>,
    pub community_ad_stake: KvMap<[u8; 32], u128>,
    pub community_audience_cap: KvMap<[u8; 32], u32>,
    pub advertiser_blacklist: KvMap<u64, Vec<[u8; 32]>>,
    pub advertiser_whitelist: KvMap<u64, Vec<[u8; 32]>>,
    pub community_blacklist: KvMap<[u8; 32], Vec<u64>>,
    pub community_whitelist: KvMap<[u8; 32], Vec<u64>>,
    pub slash_count: KvMap<[u8; 32], u32>,
    pub banned_communities: KvMap<[u8; 32], bool>,
    pub community_admin: KvMap<[u8; 32], u64>,
    pub community_stakers: KvMap<([u8; 32], u64), u128>,
    pub tee_node_ad_pct: u32,
    pub community_ad_pct: u32,
    pub community_era_deliveries: KvMap<[u8; 32], u32>,
    pub private_ad_count: KvMap<[u8; 32], u32>,
    pub previous_era_audience: KvMap<[u8; 32], u32>,
    pub audience_surge_paused: KvMap<[u8; 32], u32>,
    pub community_flag_count: KvMap<[u8; 32], u32>,
    pub node_audience_reports: KvMap<[u8; 32], Vec<(u32, u32)>>,
    /// Events deposited by successful calls, oldest first.
    pub events: Vec<Event>,
}

/// Value of a counter map, zero where absent.
pub open spec fn vq32<K>(m: Map<K, u32>, k: K) -> u32 {
    get_or(m, k, 0u32)
}

/// Value of a balance map, zero where absent.
pub open spec fn vq128<K>(m: Map<K, u128>, k: K) -> u128 {
    get_or(m, k, 0u128)
}

/// Value of a flag map, false where absent.
pub open spec fn vqb<K>(m: Map<K, bool>, k: K) -> bool {
    get_or(m, k, false)
}

/// Effective community share in percent: the stored value, or 60 when unset.
pub open spec fn effective_community_pct(stored: u32) -> u32 {
    if stored == 0 { 60 } else { stored }
}

/// Effective node share in percent: the stored value, or 32 when unset.
pub open spec fn effective_tee_pct(stored: u32) -> u32 {
    if stored == 0 { 32 } else { stored }
}

impl Pallet {
    /// Empty storage under the given constants.
    pub fn new(config: Config) -> (p: Pallet)
        ensures
            p.config == config,
            p.next_campaign_id == 0,
            p.campaigns@ == Map::<u64, AdCampaign>::empty(),
            p.campaign_escrow@ == Map::<u64, u128>::empty(),
            p.community_schedules@ == Map::<[u8; 32], CommunityAdSchedule>::empty(),
            p.delivery_receipts@ == Map::<[u8; 32], Vec<DeliveryReceipt>>::empty(),
            p.era_ad_revenue@ == Map::<[u8; 32], u128>::empty(),
            p.community_total_revenue@ == Map::<[u8; 32], u128>::empty(),
            p.community_claimable@ == Map::<[u8; 32], u128>::empty(),
            p.community_ad_stake@ == Map::<[u8; 32], u128>::empty(),
            p.community_audience_cap@ == Map::<[u8; 32], u32>::empty(),
            p.advertiser_blacklist@ == Map::<u64, Vec<[u8; 32]>>::empty(),
            p.advertiser_whitelist@ == Map::<u64, Vec<[u8; 32]>>::empty(),
            p.community_blacklist@ == Map::<[u8; 32], Vec<u64>>::empty(),
            p.community_whitelist@ == Map::<[u8; 32], Vec<u64>>::empty(),
            p.slash_count@ == Map::<[u8; 32], u32>::empty(),
            p.banned_communities@ == Map::<[u8; 32], bool>::empty(),
            p.community_admin@ == Map::<[u8; 32], u64>::empty(),
            p.community_stakers@ == Map::<([u8; 32], u64), u128>::empty(),
            p.community_era_deliveries@ == Map::<[u8; 32], u32>::empty(),
            p.private_ad_count@ == Map::<[u8; 32], u32>::empty(),
            p.previous_era_audience@ == Map::<[u8; 32], u32>::empty(),
            p.audience_surge_paused@ == Map::<[u8; 32], u32>::empty(),
            p.community_flag_count@ == Map::<[u8; 32], u32>::empty(),
            p.node_audience_reports@ == Map::<[u8; 32], Vec<(u32, u32)>>::empty(),
            p.tee_node_ad_pct == 0,
            p.community_ad_pct == 0,
            p.events@ == Seq::<Event>::empty(),
    {
        Pallet {
            config,
            next_campaign_id: 0,
            campaigns: KvMap::new(),
            campaign_escrow: KvMap::new(),
            community_schedules: KvMap::new(),
            delivery_receipts: KvMap::new(),
            era_ad_revenue: KvMap::new(),
            community_total_revenue: KvMap::new(),
            community_claimable: KvMap::new(),
            community_ad_stake: KvMap::new(),
            community_audience_cap: KvMap::new(),
            advertiser_blacklist: KvMap::new(),
            advertiser_whitelist: KvMap::new(),
            community_blacklist: KvMap::new(),
            community_whitelist: KvMap::new(),
            slash_count: KvMap::new(),
            banned_communities: KvMap::new(),
            community_admin: KvMap::new(),
            community_stakers: KvMap::new(),
            tee_node_ad_pct: 0,
            community_ad_pct: 0,
            community_era_deliveries: KvMap::new(),
            private_ad_count: KvMap::new(),
            previous_era_audience: KvMap::new(),
            audience_surge_paused: KvMap::new(),
            community_flag_count: KvMap::new(),
            node_audience_reports: KvMap::new(),
            events: Vec::new(),
        }
    }

    /// Whether the community has an advertising schedule.
    pub fn is_ads_enabled(&self, community_id_hash: &[u8; 32]) -> (r: bool)
        ensures
            r == self.community_schedules@.contains_key(*community_id_hash),
    {
        self.community_schedules.contains_key(community_id_hash)
    }

    /// Total advertising revenue a community has earned.
    pub fn community_ad_revenue(&self, community_id_hash: &[u8; 32]) -> (r: u128)
        ensures
            r == vq128(self.community_total_revenue@, *community_id_hash),
    {
        self.community_total_revenue.get_or(community_id_hash, 0)
    }

    /// Deliveries counted for the community in the current era.
    pub fn era_delivery_count(&self, community_id_hash: &[u8; 32]) -> (r: u32)
        ensures
            r == vq32(self.community_era_deliveries@, *community_id_hash),
    {
        self.community_era_deliveries.get_or(community_id_hash, 0)
    }

    /// Starts a new era's delivery count for the community.
    pub fn reset_era_deliveries(&mut self, community_id_hash: &[u8; 32])
        ensures
            final(self).community_era_deliveries@ == old(self).community_era_deliveries@.remove(*community_id_hash),
            final(self).campaigns@ == old(self).campaigns@,
            final(self).events@ == old(self).events@,
    {
        let _ = self.community_era_deliveries.remove(community_id_hash);
    }
}

} // verus!
