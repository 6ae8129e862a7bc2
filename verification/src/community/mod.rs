//! Community management for group robots: group rule configuration under an
//! optimistic version lock, the node admission policy, signed moderation logs
//! with strictly increasing sequence numbers, member reputation with a
//! cooldown, bans and cleanup.
//!
//! What the bot registry and the subscription service say about the bot bound
//! to a community is passed in as [`CommunityFacts`].
use vstd::prelude::*;
use crate::grouprobot::{ActionType, NodeRequirement, SubscriptionTier, TierFeatureGate, WarnAction};
use crate::kvmap::{seq_or_empty, KvMap};




pub mod logs;
pub mod settings;
pub mod reputation;
pub mod weights;
pub mod laws;

verus! {

/// Whether a community is running or banned by governance.
#[derive(Clone, Copy, Debug, PartialEq, Eq, Structural)]
pub enum CommunityStatus {
    Active,
    Banned,
}

impl CommunityStatus {
    /// A community is active unless banned.
    pub fn default_status() -> (r: CommunityStatus)
        ensures
            r == CommunityStatus::Active,
    {
        CommunityStatus::Active
    }
}

/// Group rules of a community, as kept on chain.
#[derive(Clone, Copy, Debug, PartialEq, Eq)]
pub struct CommunityConfig {
    pub node_requirement: NodeRequirement,
    pub anti_flood_enabled: bool,
    pub flood_limit: u16,
    pub warn_limit: u8,
    pub warn_action: WarnAction,
    pub welcome_enabled: bool,
    /// Whether the community accepts advertising.
    pub ads_enabled: bool,
    /// Members active lately, as the bot counts them.
    pub active_members: u32,
    /// ISO 639-1 language code, in lower-case ASCII.
    pub language: [u8; 2],
    /// Version for optimistic updates.
    pub version: u32,
    pub status: CommunityStatus,
}

impl CommunityConfig {
    pub open spec fn spec_default() -> CommunityConfig {
        CommunityConfig {
            node_requirement: NodeRequirement::TeeOnly,
            anti_flood_enabled: false,
            flood_limit: 10,
            warn_limit: 3,
            warn_action: WarnAction::Kick,
            welcome_enabled: false,
            ads_enabled: false,
            active_members: 0,
            language: [101u8, 110u8],
            version: 0,
            status: CommunityStatus::Active,
        }
    }
}

impl Default for CommunityConfig {
    fn default() -> (r: CommunityConfig)
        ensures
            r == CommunityConfig::spec_default(),
    {
        CommunityConfig {
            node_requirement: NodeRequirement::TeeOnly,
            anti_flood_enabled: false,
            flood_limit: 10,
            warn_limit: 3,
            warn_action: WarnAction::Kick,
            welcome_enabled: false,
            ads_enabled: false,
            active_members: 0,
            language: [101u8, 110u8],
            version: 0,
            status: CommunityStatus::Active,
        }
    }
}

/// Reputation of a member within a community.
#[derive(Clone, Copy, Debug, PartialEq, Eq, Structural)]
pub struct ReputationRecord {
    /// May be negative.
    pub score: i64,
    pub awards: u32,
    pub deductions: u32,
    pub last_updated: u64,
}

impl ReputationRecord {
    pub open spec fn spec_default() -> ReputationRecord {
        ReputationRecord { score: 0, awards: 0, deductions: 0, last_updated: 0 }
    }
}

impl Default for ReputationRecord {
    fn default() -> (r: ReputationRecord)
        ensures
            r == ReputationRecord::spec_default(),
    {
        ReputationRecord { score: 0, awards: 0, deductions: 0, last_updated: 0 }
    }
}

/// A moderation action recorded with the bot's signature.
#[derive(Clone, Copy, Debug, PartialEq, Eq)]
pub struct ActionLog {
    pub community_id_hash: [u8; 32],
    pub action_type: ActionType,
    pub operator: u64,
    pub target_hash: [u8; 32],
    pub sequence: u64,
    pub message_hash: [u8; 32],
    pub signature: [u8; 64],
    pub block_number: u64,
}

/// A log as submitted in a batch: action, target, sequence, message hash and signature.
pub type LogEntry = (ActionType, [u8; 32], u64, [u8; 32], [u8; 64]);

/// Constants of the pallet, set by the runtime.
#[derive(Clone, Copy, Debug)]
pub struct Config {
    pub max_logs_per_community: u32,
    /// Blocks between two reputation changes by one operator for one member.
    pub reputation_cooldown: u64,
    pub max_reputation_delta: u32,
    pub max_batch_size: u32,
    pub blocks_per_day: u32,
}

impl Config {
    /// Whether the constants are usable: every limit and the day length are positive.
    pub fn integrity_test(&self) -> (r: bool)
        ensures
            r == (self.max_logs_per_community > 0 && self.max_reputation_delta > 0
                && self.max_batch_size > 0 && self.blocks_per_day > 0),
    {
        self.max_logs_per_community > 0 && self.max_reputation_delta > 0
            && self.max_batch_size > 0 && self.blocks_per_day > 0
    }
}

/// What the bot registry and the subscription service say about the bot bound
/// to a community.
#[derive(Clone, Copy, Debug)]
pub struct CommunityFacts {
    /// Owner of the bot; `None` when no bot is registered.
    pub owner: Option<u64>,
    pub bot_active: bool,
    /// The bot's Ed25519 public key, if known.
    pub public_key: Option<[u8; 32]>,
    pub tier: SubscriptionTier,
    pub gate: TierFeatureGate,
}

#[derive(Clone, Copy, Debug, PartialEq, Eq)]
pub enum Event {
    ActionLogSubmitted { community_id_hash: [u8; 32], action_type: ActionType, operator: u64, sequence: u64 },
    BatchLogsSubmitted { community_id_hash: [u8; 32], count: u32 },
    NodeRequirementUpdated { community_id_hash: [u8; 32], requirement: NodeRequirement },
    CommunityConfigUpdated { community_id_hash: [u8; 32], version: u32 },
    ExpiredLogsCleared { community_id_hash: [u8; 32], cleared: u32 },
    ReputationAwarded { community_id_hash: [u8; 32], user_hash: [u8; 32], delta: i64, new_score: i64, operator: u64 },
    ReputationDeducted { community_id_hash: [u8; 32], user_hash: [u8; 32], delta: i64, new_score: i64, operator: u64 },
    ReputationReset { community_id_hash: [u8; 32], user_hash: [u8; 32], old_score: i64 },
    ActiveMembersUpdated { community_id_hash: [u8; 32], active_members: u32 },
    CooldownCleaned { community_id_hash: [u8; 32], user_hash: [u8; 32], operator: u64 },
    CommunityConfigDeleted { community_id_hash: [u8; 32] },
    CommunityForceRemoved { community_id_hash: [u8; 32] },
    CommunityBanned { community_id_hash: [u8; 32] },
    CommunityUnbanned { community_id_hash: [u8; 32] },
    CommunityConfigForceUpdated { community_id_hash: [u8; 32], version: u32 },
    CommunityReputationForceReset { community_id_hash: [u8; 32] },
}

#[derive(Clone, Copy, Debug, PartialEq, Eq, Structural)]
pub enum Error {
    LogsFull,
    SameNodeRequirement,
    ConfigVersionConflict,
    NoLogsToClear,
    EmptyBatch,
    BatchTooLarge,
    ReputationOnCooldown,
    ReputationDeltaTooLarge,
    InvalidMaxAge,
    ReputationDeltaZero,
    CommunityNotFound,
    FreeTierNotAllowed,
    RetentionPeriodNotExpired,
    InvalidSignature,
    BotPublicKeyNotFound,
    NotBotOwner,
    InvalidLanguageCode,
    SequenceNotMonotonic,
    BotNotActive,
    CooldownNotExpired,
    CooldownNotFound,
    CommunityBanned,
    CommunityNotBanned,
    CommunityAlreadyInStatus,
}

/// The pallet's storage.
pub struct Pallet {
    pub config: Config,
    pub community_configs: KvMap<[u8; 32], CommunityConfig>,
    /// Logs of each community, oldest first; a missing entry means none.
    pub action_logs: KvMap<[u8; 32], Vec<ActionLog>>,
    /// Reputation by (community, member); a missing entry means the zero record.
    pub member_reputation: KvMap<([u8; 32], [u8; 32]), ReputationRecord>,
    /// Block of the last change by (operator, community, member); missing means never.
    pub reputation_cooldowns: KvMap<(u64, [u8; 32], [u8; 32]), u64>,
    /// Sequence number of the last log of each community.
    pub last_sequence: KvMap<[u8; 32], u64>,
    /// Events deposited by successful calls, oldest first.
    pub events: Vec<Event>,
}

/// Why `who` may not act as the owner of the community's bot, if so.
pub open spec fn owner_error(who: u64, facts: CommunityFacts) -> Option<Error> {
    if facts.owner is None || facts.owner->0 != who {
        Some(Error::NotBotOwner)
    } else {
        None
    }
}

/// Why `who` may not act as the owner of the community's active bot, if so.
pub open spec fn active_owner_error(who: u64, facts: CommunityFacts) -> Option<Error> {
    if owner_error(who, facts) is Some {
        owner_error(who, facts)
    } else if !facts.bot_active {
        Some(Error::BotNotActive)
    } else {
        None
    }
}

/// Whether a community is configured and banned.
pub open spec fn is_banned(p: Pallet, c: [u8; 32]) -> bool {
    p.community_configs@.contains_key(c) && p.community_configs@[c].status == CommunityStatus::Banned
}

/// Whether a byte is a lower-case ASCII letter.
pub open spec fn is_lower(b: u8) -> bool {
    97 <= b <= 122
}

pub(crate) fn ensure_bot_owner(who: u64, facts: &CommunityFacts) -> (r: Result<(), Error>)
    ensures
        r == (match owner_error(who, *facts) {
            Some(e) => Err::<(), Error>(e),
            None => Ok(()),
        }),
{
    match facts.owner {
        Some(o) => if o == who { Ok(()) } else { Err(Error::NotBotOwner) },
        None => Err(Error::NotBotOwner),
    }
}

pub(crate) fn ensure_active_bot_owner(who: u64, facts: &CommunityFacts) -> (r: Result<(), Error>)
    ensures
        r == (match active_owner_error(who, *facts) {
            Some(e) => Err::<(), Error>(e),
            None => Ok(()),
        }),
{
    match ensure_bot_owner(who, facts) {
        Err(e) => Err(e),
        Ok(()) => if facts.bot_active { Ok(()) } else { Err(Error::BotNotActive) },
    }
}

impl Pallet {
    /// Empty storage under the given constants.
    pub fn new(config: Config) -> (p: Pallet)
        ensures
            p.config == config,
            p.community_configs@ == Map::<[u8; 32], CommunityConfig>::empty(),
            p.action_logs@ == Map::<[u8; 32], Vec<ActionLog>>::empty(),
            p.member_reputation@ == Map::<([u8; 32], [u8; 32]), ReputationRecord>::empty(),
            p.reputation_cooldowns@ == Map::<(u64, [u8; 32], [u8; 32]), u64>::empty(),
            p.last_sequence@ == Map::<[u8; 32], u64>::empty(),
            p.events@ == Seq::<Event>::empty(),
    {
        Pallet {
            config,
            community_configs: KvMap::new(),
            action_logs: KvMap::new(),
            member_reputation: KvMap::new(),
            reputation_cooldowns: KvMap::new(),
            last_sequence: KvMap::new(),
            events: Vec::new(),
        }
    }

    pub(crate) fn ensure_not_banned(&self, c: &[u8; 32]) -> (r: Result<(), Error>)
        ensures
            r == (if is_banned(*self, *c) { Err::<(), Error>(Error::CommunityBanned) } else { Ok(()) }),
    {
        match self.community_configs.get(c) {
            Some(cfg) => if cfg.status == CommunityStatus::Banned { Err(Error::CommunityBanned) } else { Ok(()) },
            None => Ok(()),
        }
    }

    /// The community's node admission policy; `TeeOnly` before it is configured.
    pub fn get_node_requirement(&self, community_id_hash: &[u8; 32]) -> (r: NodeRequirement)
        ensures
            r == (if self.community_configs@.contains_key(*community_id_hash) {
                self.community_configs@[*community_id_hash].node_requirement
            } else {
                NodeRequirement::spec_default()
            }),
    {
        match self.community_configs.get(community_id_hash) {
            Some(cfg) => cfg.node_requirement,
            None => NodeRequirement::default_requirement(),
        }
    }

    /// Whether the community has a configuration.
    pub fn is_community_configured(&self, community_id_hash: &[u8; 32]) -> (r: bool)
        ensures
            r == self.community_configs@.contains_key(*community_id_hash),
    {
        self.community_configs.contains_key(community_id_hash)
    }

    /// Whether the community is banned.
    pub fn is_community_banned(&self, community_id_hash: &[u8; 32]) -> (r: bool)
        ensures
            r == is_banned(*self, *community_id_hash),
    {
        self.ensure_not_banned(community_id_hash).is_err()
    }

    /// Number of logs kept for the community.
    pub fn log_count_for(&self, community_id_hash: &[u8; 32]) -> (r: u32)
        ensures
            r == seq_or_empty(self.action_logs@, *community_id_hash).len() as u32,
    {
        let n = match self.action_logs.get(community_id_hash) {
            Some(v) => v.len(),
            None => 0,
        };
        #[verifier::truncate] (n as u32)
    }

    /// Whether the community accepts advertising: configured, willing and not banned.
    pub fn is_ads_enabled(&self, community_id_hash: &[u8; 32]) -> (r: bool)
        ensures
            r == (self.community_configs@.contains_key(*community_id_hash)
                && self.community_configs@[*community_id_hash].ads_enabled
                && self.community_configs@[*community_id_hash].status == CommunityStatus::Active),
    {
        match self.community_configs.get(community_id_hash) {
            Some(cfg) => cfg.ads_enabled && cfg.status == CommunityStatus::Active,
            None => false,
        }
    }

    /// Active members of the community; zero before it is configured.
    pub fn active_members(&self, community_id_hash: &[u8; 32]) -> (r: u32)
        ensures
            r == (if self.community_configs@.contains_key(*community_id_hash) {
                self.community_configs@[*community_id_hash].active_members
            } else {
                0
            }),
    {
        match self.community_configs.get(community_id_hash) {
            Some(cfg) => cfg.active_members,
            None => 0,
        }
    }

    /// Language of the community; English before it is configured.
    pub fn language(&self, community_id_hash: &[u8; 32]) -> (r: [u8; 2])
        ensures
            r == (if self.community_configs@.contains_key(*community_id_hash) {
                self.community_configs@[*community_id_hash].language
            } else {
                [101u8, 110u8]
            }),
    {
        match self.community_configs.get(community_id_hash) {
            Some(cfg) => cfg.language,
            None => [101u8, 110u8],
        }
    }
}

} // verus!
