//! Types shared by the group-robot pallets (advertising, ceremonies, communities).
use vstd::prelude::*;

verus! {

/// Hash identifying a community (chat group).
pub type CommunityIdHash = [u8; 32];

/// Identifier of a robot node.
pub type NodeId = [u8; 32];

/// Hash identifying a bot.
pub type BotIdHash = [u8; 32];

/// Account identifier.
pub type AccountId = u64;

/// Balance of the native currency.
pub type Balance = u128;

/// Block number.
pub type BlockNumber = u64;

/// Lifecycle of an advertising campaign.
#[derive(Clone, Copy, Debug, PartialEq, Eq, Structural)]
pub enum CampaignStatus {
    Active,
    Paused,
    Exhausted,
    Cancelled,
    Expired,
}

/// Content review state of a campaign.
#[derive(Clone, Copy, Debug, PartialEq, Eq, Structural)]
pub enum AdReviewStatus {
    Pending,
    Approved,
    Rejected,
    Flagged,
}

/// Targeting of a campaign.
#[derive(Clone, Copy, Debug, PartialEq, Eq, Structural)]
pub enum AdTargetTag {
    All,
}

/// How an advertisement was delivered.
#[derive(Clone, Copy, Debug, PartialEq, Eq, Structural)]
pub enum AdDeliveryType {
    ScheduledPost,
    ReplyFooter,
    WelcomeEmbed,
}

impl AdDeliveryType {
    /// CPM multiplier in percent: full price for scheduled posts, half for reply
    /// footers, thirty percent for welcome embeds.
    pub open spec fn spec_cpm_multiplier_bps(self) -> u32 {
        match self {
            AdDeliveryType::ScheduledPost => 100,
            AdDeliveryType::ReplyFooter => 50,
            AdDeliveryType::WelcomeEmbed => 30,
        }
    }

    pub fn cpm_multiplier_bps(&self) -> (r: u32)
        ensures
            r == self.spec_cpm_multiplier_bps(),
    {
        match self {
            AdDeliveryType::ScheduledPost => 100,
            AdDeliveryType::ReplyFooter => 50,
            AdDeliveryType::WelcomeEmbed => 30,
        }
    }
}

/// Subscription tier of a bot.
#[derive(Clone, Copy, Debug, PartialEq, Eq, Structural)]
pub enum SubscriptionTier {
    Free,
    Basic,
    Pro,
    Enterprise,
}

impl SubscriptionTier {
    pub open spec fn spec_is_paid(self) -> bool {
        !(self is Free)
    }

    /// Every tier but `Free` is paid.
    pub fn is_paid(&self) -> (r: bool)
        ensures
            r == self.spec_is_paid(),
    {
        match self {
            SubscriptionTier::Free => false,
            _ => true,
        }
    }
}

/// Features that a subscription tier unlocks.
#[derive(Clone, Copy, Debug, PartialEq, Eq, Structural)]
pub struct TierFeatureGate {
    /// Whether TEE nodes may serve the community.
    pub tee_access: bool,
    /// Whether the community may turn advertising off.
    pub can_disable_ads: bool,
    /// Minimum retention of action logs in days; 0 keeps them forever.
    pub log_retention_days: u16,
}

/// Lifecycle of a key ceremony.
#[derive(Clone, Copy, Debug, PartialEq, Eq)]
pub enum CeremonyStatus {
    Active,
    Superseded { replaced_by: [u8; 32] },
    Revoked { revoked_at: u64 },
    Expired,
}

/// Which nodes may serve a community.
#[derive(Clone, Copy, Debug, PartialEq, Eq, Structural)]
pub enum NodeRequirement {
    Any,
    TeeOnly,
    TeePreferred,
    MinTee(u32),
}

impl NodeRequirement {
    /// The requirement a community has before it configured one.
    pub open spec fn spec_default() -> NodeRequirement {
        NodeRequirement::TeeOnly
    }

    pub fn default_requirement() -> (r: NodeRequirement)
        ensures
            r == NodeRequirement::spec_default(),
    {
        NodeRequirement::TeeOnly
    }
}

/// What a bot does to a member who reached the warning limit.
#[derive(Clone, Copy, Debug, PartialEq, Eq, Structural)]
pub enum WarnAction {
    Kick,
    Ban,
    Mute,
}

/// Kind of moderation action recorded in a community's log.
#[derive(Clone, Copy, Debug, PartialEq, Eq, Structural)]
pub enum ActionType {
    Kick,
    Ban,
    Mute,
    Unmute,
    Warn,
    DeleteMessage,
}

impl ActionType {
    /// One-byte encoding of the action: its variant index.
    pub open spec fn spec_encode(self) -> Seq<u8> {
        match self {
            ActionType::Kick => seq![0u8],
            ActionType::Ban => seq![1u8],
            ActionType::Mute => seq![2u8],
            ActionType::Unmute => seq![3u8],
            ActionType::Warn => seq![4u8],
            ActionType::DeleteMessage => seq![5u8],
        }
    }

    pub fn encode(&self) -> (r: Vec<u8>)
        ensures
            r@ == self.spec_encode(),
    {
        let b: u8 = match self {
            ActionType::Kick => 0,
            ActionType::Ban => 1,
            ActionType::Mute => 2,
            ActionType::Unmute => 3,
            ActionType::Warn => 4,
            ActionType::DeleteMessage => 5,
        };
        let mut v: Vec<u8> = Vec::new();
        v.push(b);
        assert(v@ =~= self.spec_encode());
        v
    }
}

} // verus!
