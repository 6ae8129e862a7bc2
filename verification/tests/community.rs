use pallets::community::{
    CommunityConfig, CommunityFacts, CommunityStatus, Config, Error, Event, LogEntry, Pallet, ReputationRecord,
};
use pallets::community::logs::action_log_message;
use pallets::grouprobot::{ActionType, NodeRequirement, SubscriptionTier, TierFeatureGate, WarnAction};
use sp_core::{ed25519, Pair};

const OWNER: u64 = 1;
const OTHER: u64 = 2;

fn community_hash(n: u8) -> [u8; 32] {
    let mut h = [0u8; 32];
    h[0] = n;
    h
}

fn user_hash(n: u8) -> [u8; 32] {
    let mut h = [0u8; 32];
    h[0] = n;
    h
}

fn test_keypair() -> ed25519::Pair {
    ed25519::Pair::from_seed(&[1u8; 32])
}

fn test_public_key() -> [u8; 32] {
    test_keypair().public().0
}

fn test_sign(c: &[u8; 32], action_type: &ActionType, target_hash: &[u8; 32], sequence: u64, message_hash: &[u8; 32]) -> [u8; 64] {
    let mut msg = Vec::new();
    msg.extend_from_slice(c);
    msg.extend_from_slice(&action_type.encode());
    msg.extend_from_slice(target_hash);
    msg.extend_from_slice(&sequence.to_le_bytes());
    msg.extend_from_slice(message_hash);
    test_keypair().sign(&msg).0
}

fn tier_of(c: &[u8; 32]) -> SubscriptionTier {
    match c[0] {
        1 => SubscriptionTier::Basic,
        2 => SubscriptionTier::Pro,
        5 => SubscriptionTier::Enterprise,
        _ => SubscriptionTier::Free,
    }
}

/// Registry and subscription answers of the test runtime.
fn facts(c: &[u8; 32]) -> CommunityFacts {
    let tier = tier_of(c);
    let log_retention_days = match tier {
        SubscriptionTier::Free => 7,
        SubscriptionTier::Basic => 30,
        SubscriptionTier::Pro => 90,
        SubscriptionTier::Enterprise => 0,
    };
    CommunityFacts {
        owner: if c[0] <= 4 { Some(OWNER) } else { None },
        bot_active: c[0] <= 2 || c[0] == 4,
        public_key: if c[0] <= 4 { Some(test_public_key()) } else { None },
        tier,
        gate: TierFeatureGate { tee_access: true, can_disable_ads: false, log_retention_days },
    }
}

struct Env {
    p: Pallet,
    now: u64,
}

impl Env {
    fn new() -> Env {
        Env {
            p: Pallet::new(Config {
                max_logs_per_community: 10,
                reputation_cooldown: 5,
                max_reputation_delta: 100,
                max_batch_size: 50,
                blocks_per_day: 14_400,
            }),
            now: 1,
        }
    }

    fn submit(&mut self, who: u64, c: [u8; 32], a: ActionType, t: [u8; 32], seq: u64, m: [u8; 32], sig: [u8; 64]) -> Result<(), Error> {
        self.p.submit_action_log(who, self.now, c, a, t, seq, m, sig, facts(&c))
    }

    fn submit_signed(&mut self, c: [u8; 32], a: ActionType, t: [u8; 32], seq: u64, m: [u8; 32]) -> Result<(), Error> {
        let sig = test_sign(&c, &a, &t, seq, &m);
        self.submit(OWNER, c, a, t, seq, m, sig)
    }

    fn batch(&mut self, who: u64, c: [u8; 32], logs: Vec<LogEntry>) -> Result<(), Error> {
        self.p.batch_submit_logs(who, self.now, c, logs, facts(&c))
    }

    fn update(&mut self, who: u64, c: [u8; 32], v: u32, af: bool, fl: u16, wl: u8, wa: WarnAction, we: bool, ads: bool, lang: [u8; 2]) -> Result<(), Error> {
        self.p.update_community_config(who, c, v, af, fl, wl, wa, we, ads, lang, facts(&c))
    }

    fn create(&mut self, c: [u8; 32]) {
        assert!(self.update(OWNER, c, 0, true, 10, 3, WarnAction::Kick, false, false, *b"en").is_ok());
    }

    fn award(&mut self, who: u64, c: [u8; 32], u: [u8; 32], d: u32) -> Result<(), Error> {
        self.p.award_reputation(who, self.now, c, u, d, facts(&c))
    }

    fn deduct(&mut self, who: u64, c: [u8; 32], u: [u8; 32], d: u32) -> Result<(), Error> {
        self.p.deduct_reputation(who, self.now, c, u, d, facts(&c))
    }

    fn clear(&mut self, c: [u8; 32], max_age: u64) -> Result<(), Error> {
        self.p.clear_expired_logs(self.now, c, max_age, facts(&c))
    }

    fn config(&self, c: [u8; 32]) -> Option<CommunityConfig> {
        self.p.community_configs.get(&c).copied()
    }

    fn logs_len(&self, c: [u8; 32]) -> usize {
        self.p.action_logs.get(&c).map(|v| v.len()).unwrap_or(0)
    }

    fn rep(&self, c: [u8; 32], u: [u8; 32]) -> ReputationRecord {
        self.p.member_reputation.get(&(c, u)).copied().unwrap_or_default()
    }

    fn cooldown(&self, op: u64, c: [u8; 32], u: [u8; 32]) -> u64 {
        self.p.reputation_cooldowns.get(&(op, c, u)).copied().unwrap_or(0)
    }

    fn last_sequence(&self, c: [u8; 32]) -> Option<u64> {
        self.p.last_sequence.get(&c).copied()
    }
}

#[test]
fn submit_action_log_works() {
    let mut e = Env::new();
    assert!(e.submit_signed(community_hash(1), ActionType::Ban, [1u8; 32], 42, [2u8; 32]).is_ok());
    assert_eq!(e.logs_len(community_hash(1)), 1);
    let log = e.p.action_logs.get(&community_hash(1)).unwrap()[0];
    assert_eq!(log.operator, OWNER);
    assert_eq!(log.sequence, 42);
    assert_eq!(log.action_type, ActionType::Ban);
}

#[test]
fn submit_action_log_fails_full() {
    let mut e = Env::new();
    for i in 0..10u64 {
        assert!(e.submit_signed(community_hash(1), ActionType::Kick, [1u8; 32], i, [2u8; 32]).is_ok());
    }
    assert_eq!(e.submit_signed(community_hash(1), ActionType::Kick, [1u8; 32], 99, [2u8; 32]), Err(Error::LogsFull));
}

#[test]
fn set_node_requirement_works() {
    let mut e = Env::new();
    e.create(community_hash(1));
    assert!(e.p.set_node_requirement(OWNER, community_hash(1), NodeRequirement::Any, facts(&community_hash(1))).is_ok());
    assert_eq!(e.config(community_hash(1)).unwrap().node_requirement, NodeRequirement::Any);
}

#[test]
fn set_node_requirement_fails_same() {
    let mut e = Env::new();
    e.create(community_hash(1));
    assert_eq!(
        e.p.set_node_requirement(OWNER, community_hash(1), NodeRequirement::TeeOnly, facts(&community_hash(1))),
        Err(Error::SameNodeRequirement)
    );
}

#[test]
fn update_community_config_works() {
    let mut e = Env::new();
    assert!(e.update(OWNER, community_hash(1), 0, true, 20, 5, WarnAction::Ban, true, false, *b"en").is_ok());
    let config = e.config(community_hash(1)).unwrap();
    assert_eq!(config.version, 1);
    assert!(config.anti_flood_enabled);
    assert_eq!(config.flood_limit, 20);
    assert_eq!(config.warn_limit, 5);
    assert_eq!(config.warn_action, WarnAction::Ban);
    assert!(config.welcome_enabled);
}

#[test]
fn update_community_config_cas_conflict() {
    let mut e = Env::new();
    assert!(e.update(OWNER, community_hash(1), 0, true, 20, 5, WarnAction::Ban, true, false, *b"en").is_ok());
    assert_eq!(
        e.update(OWNER, community_hash(1), 0, false, 10, 3, WarnAction::Kick, false, false, *b"en"),
        Err(Error::ConfigVersionConflict)
    );
    assert!(e.update(OWNER, community_hash(1), 1, false, 10, 3, WarnAction::Kick, false, false, *b"en").is_ok());
    assert_eq!(e.config(community_hash(1)).unwrap().version, 2);
}

#[test]
fn batch_submit_logs_works() {
    let mut e = Env::new();
    let sig1 = test_sign(&community_hash(1), &ActionType::Ban, &[1u8; 32], 1, &[2u8; 32]);
    let sig2 = test_sign(&community_hash(1), &ActionType::Kick, &[4u8; 32], 2, &[5u8; 32]);
    let logs = vec![
        (ActionType::Ban, [1u8; 32], 1u64, [2u8; 32], sig1),
        (ActionType::Kick, [4u8; 32], 2u64, [5u8; 32], sig2),
    ];
    assert!(e.batch(OWNER, community_hash(1), logs).is_ok());
    assert_eq!(e.logs_len(community_hash(1)), 2);
}

#[test]
fn batch_submit_logs_fails_empty() {
    let mut e = Env::new();
    assert_eq!(e.batch(OWNER, community_hash(1), vec![]), Err(Error::EmptyBatch));
}

#[test]
fn clear_expired_logs_works() {
    let mut e = Env::new();
    assert!(e.submit_signed(community_hash(1), ActionType::Ban, [1u8; 32], 1, [2u8; 32]).is_ok());
    e.now = 500_000;
    assert!(e.submit_signed(community_hash(1), ActionType::Kick, [1u8; 32], 2, [2u8; 32]).is_ok());
    assert!(e.clear(community_hash(1), 432_000).is_ok());
    assert_eq!(e.logs_len(community_hash(1)), 1);
}

#[test]
fn clear_expired_logs_fails_none() {
    let mut e = Env::new();
    assert_eq!(e.clear(community_hash(1), 432_000), Err(Error::NoLogsToClear));
}

#[test]
fn helper_get_node_requirement() {
    let mut e = Env::new();
    assert_eq!(e.p.get_node_requirement(&community_hash(1)), NodeRequirement::TeeOnly);
    e.create(community_hash(1));
    assert!(e.p.set_node_requirement(OWNER, community_hash(1), NodeRequirement::TeePreferred, facts(&community_hash(1))).is_ok());
    assert_eq!(e.p.get_node_requirement(&community_hash(1)), NodeRequirement::TeePreferred);
}

#[test]
fn helper_is_community_configured() {
    let mut e = Env::new();
    assert!(!e.p.is_community_configured(&community_hash(1)));
    e.create(community_hash(1));
    assert!(e.p.is_community_configured(&community_hash(1)));
}

#[test]
fn update_community_config_ads_enabled() {
    let mut e = Env::new();
    assert!(e.update(OWNER, community_hash(1), 0, true, 10, 3, WarnAction::Kick, false, true, *b"zh").is_ok());
    let config = e.config(community_hash(1)).unwrap();
    assert!(config.ads_enabled);
    assert_eq!(config.language, *b"zh");
    assert_eq!(config.active_members, 0);
}

#[test]
fn update_active_members_works() {
    let mut e = Env::new();
    assert!(e.update(OWNER, community_hash(1), 0, true, 10, 3, WarnAction::Kick, false, true, *b"en").is_ok());
    assert!(e.p.update_active_members(OWNER, community_hash(1), 150, facts(&community_hash(1))).is_ok());
    assert_eq!(e.config(community_hash(1)).unwrap().active_members, 150);
}

#[test]
fn update_active_members_fails_no_config() {
    let mut e = Env::new();
    assert_eq!(
        e.p.update_active_members(OWNER, community_hash(1), 100, facts(&community_hash(1))),
        Err(Error::CommunityNotFound)
    );
}

#[test]
fn update_config_preserves_active_members() {
    let mut e = Env::new();
    assert!(e.update(OWNER, community_hash(1), 0, true, 10, 3, WarnAction::Kick, false, true, *b"en").is_ok());
    assert!(e.p.update_active_members(OWNER, community_hash(1), 200, facts(&community_hash(1))).is_ok());
    assert!(e.update(OWNER, community_hash(1), 1, false, 20, 5, WarnAction::Ban, true, false, *b"zh").is_ok());
    let config = e.config(community_hash(1)).unwrap();
    assert_eq!(config.active_members, 200);
    assert!(!config.ads_enabled);
    assert_eq!(config.language, *b"zh");
}

#[test]
fn award_reputation_works() {
    let mut e = Env::new();
    assert!(e.award(OWNER, community_hash(1), user_hash(1), 10).is_ok());
    let rec = e.rep(community_hash(1), user_hash(1));
    assert_eq!(rec.score, 10);
    assert_eq!(rec.awards, 1);
    assert_eq!(rec.deductions, 0);
}

#[test]
fn deduct_reputation_works() {
    let mut e = Env::new();
    assert!(e.award(OWNER, community_hash(1), user_hash(1), 20).is_ok());
    e.now = 10;
    assert!(e.deduct(OWNER, community_hash(1), user_hash(1), 5).is_ok());
    let rec = e.rep(community_hash(1), user_hash(1));
    assert_eq!(rec.score, 15);
    assert_eq!(rec.awards, 1);
    assert_eq!(rec.deductions, 1);
}

#[test]
fn deduct_can_go_negative() {
    let mut e = Env::new();
    assert!(e.deduct(OWNER, community_hash(1), user_hash(1), 10).is_ok());
    assert_eq!(e.rep(community_hash(1), user_hash(1)).score, -10);
}

#[test]
fn reset_reputation_works() {
    let mut e = Env::new();
    assert!(e.award(OWNER, community_hash(1), user_hash(1), 50).is_ok());
    assert!(e.p.reset_reputation(OWNER, community_hash(1), user_hash(1), facts(&community_hash(1))).is_ok());
    assert_eq!(e.rep(community_hash(1), user_hash(1)).score, 0);
}

#[test]
fn cooldown_enforced() {
    let mut e = Env::new();
    assert!(e.award(OWNER, community_hash(1), user_hash(1), 5).is_ok());
    assert_eq!(e.award(OWNER, community_hash(1), user_hash(1), 5), Err(Error::ReputationOnCooldown));
    e.now = 7;
    assert!(e.award(OWNER, community_hash(1), user_hash(1), 5).is_ok());
    assert_eq!(e.rep(community_hash(1), user_hash(1)).score, 10);
}

#[test]
fn cooldown_different_target_same_block() {
    let mut e = Env::new();
    assert!(e.award(OWNER, community_hash(1), user_hash(1), 5).is_ok());
    assert!(e.award(OWNER, community_hash(1), user_hash(2), 5).is_ok());
    assert_eq!(e.rep(community_hash(1), user_hash(1)).score, 5);
    assert_eq!(e.rep(community_hash(1), user_hash(2)).score, 5);
}

#[test]
fn cooldown_different_target_independent() {
    let mut e = Env::new();
    assert!(e.award(OWNER, community_hash(1), user_hash(1), 5).is_ok());
    assert!(e.award(OWNER, community_hash(1), user_hash(2), 5).is_ok());
}

#[test]
fn delta_too_large_rejected() {
    let mut e = Env::new();
    assert_eq!(e.award(OWNER, community_hash(1), user_hash(1), 101), Err(Error::ReputationDeltaTooLarge));
}

#[test]
fn delta_zero_rejected() {
    let mut e = Env::new();
    assert_eq!(e.award(OWNER, community_hash(1), user_hash(1), 0), Err(Error::ReputationDeltaZero));
    assert_eq!(e.deduct(OWNER, community_hash(1), user_hash(1), 0), Err(Error::ReputationDeltaZero));
}

#[test]
fn global_reputation_aggregates_communities() {
    let mut e = Env::new();
    assert!(e.award(OWNER, community_hash(1), user_hash(1), 10).is_ok());
    assert!(e.award(OWNER, community_hash(2), user_hash(1), 20).is_ok());
    assert_eq!(e.rep(community_hash(1), user_hash(1)).score, 10);
    assert_eq!(e.rep(community_hash(2), user_hash(1)).score, 20);
}

#[test]
fn reputation_storage_reads() {
    let mut e = Env::new();
    assert_eq!(e.rep(community_hash(1), user_hash(1)).score, 0);
    assert!(e.award(OWNER, community_hash(1), user_hash(1), 15).is_ok());
    assert_eq!(e.rep(community_hash(1), user_hash(1)).score, 15);
}

#[test]
fn reset_reputation_cross_community() {
    let mut e = Env::new();
    assert!(e.award(OWNER, community_hash(1), user_hash(1), 10).is_ok());
    assert!(e.award(OWNER, community_hash(2), user_hash(1), 20).is_ok());
    assert!(e.p.reset_reputation(OWNER, community_hash(1), user_hash(1), facts(&community_hash(1))).is_ok());
    assert_eq!(e.rep(community_hash(1), user_hash(1)).score, 0);
    assert_eq!(e.rep(community_hash(2), user_hash(1)).score, 20);
}

#[test]
fn submit_action_log_fails_free_tier() {
    let mut e = Env::new();
    assert_eq!(e.submit_signed(community_hash(4), ActionType::Ban, [1u8; 32], 1, [2u8; 32]), Err(Error::FreeTierNotAllowed));
}

#[test]
fn batch_submit_logs_fails_free_tier() {
    let mut e = Env::new();
    let sig = test_sign(&community_hash(4), &ActionType::Ban, &[1u8; 32], 1, &[2u8; 32]);
    assert_eq!(
        e.batch(OWNER, community_hash(4), vec![(ActionType::Ban, [1u8; 32], 1, [2u8; 32], sig)]),
        Err(Error::FreeTierNotAllowed)
    );
}

#[test]
fn clear_expired_logs_enforces_retention_period() {
    let mut e = Env::new();
    assert!(e.submit_signed(community_hash(1), ActionType::Ban, [1u8; 32], 1, [2u8; 32]).is_ok());
    assert_eq!(e.clear(community_hash(1), 100), Err(Error::RetentionPeriodNotExpired));
}

#[test]
fn h1_set_node_requirement_rejects_non_owner() {
    let mut e = Env::new();
    assert_eq!(
        e.p.set_node_requirement(OTHER, community_hash(1), NodeRequirement::Any, facts(&community_hash(1))),
        Err(Error::NotBotOwner)
    );
}

#[test]
fn h2_update_community_config_rejects_non_owner() {
    let mut e = Env::new();
    assert_eq!(
        e.update(OTHER, community_hash(1), 0, true, 10, 3, WarnAction::Kick, false, false, *b"en"),
        Err(Error::NotBotOwner)
    );
}

#[test]
fn h3_update_active_members_rejects_non_owner() {
    let mut e = Env::new();
    e.create(community_hash(1));
    assert_eq!(
        e.p.update_active_members(OTHER, community_hash(1), 100, facts(&community_hash(1))),
        Err(Error::NotBotOwner)
    );
}

#[test]
fn h4_submit_action_log_rejects_invalid_signature() {
    let mut e = Env::new();
    assert_eq!(
        e.submit(OWNER, community_hash(1), ActionType::Ban, [1u8; 32], 42, [2u8; 32], [0u8; 64]),
        Err(Error::InvalidSignature)
    );
}

#[test]
fn h5_reputation_rejects_non_bot_owner() {
    let mut e = Env::new();
    assert_eq!(e.award(OWNER, community_hash(10), user_hash(1), 5), Err(Error::NotBotOwner));
}

#[test]
fn m2_update_config_rejects_invalid_language_uppercase() {
    let mut e = Env::new();
    assert_eq!(
        e.update(OWNER, community_hash(1), 0, true, 10, 3, WarnAction::Kick, false, false, *b"EN"),
        Err(Error::InvalidLanguageCode)
    );
}

#[test]
fn m2_update_config_rejects_invalid_language_non_alpha() {
    let mut e = Env::new();
    assert_eq!(
        e.update(OWNER, community_hash(1), 0, true, 10, 3, WarnAction::Kick, false, false, [0xFF, 0x00]),
        Err(Error::InvalidLanguageCode)
    );
}

#[test]
fn m2_update_config_accepts_valid_language() {
    let mut e = Env::new();
    assert!(e.update(OWNER, community_hash(1), 0, true, 10, 3, WarnAction::Kick, false, false, *b"zh").is_ok());
    assert_eq!(e.config(community_hash(1)).unwrap().language, *b"zh");
}

#[test]
fn m3_submit_action_log_rejects_non_owner() {
    let mut e = Env::new();
    let sig = test_sign(&community_hash(1), &ActionType::Ban, &[1u8; 32], 1, &[2u8; 32]);
    assert_eq!(
        e.submit(OTHER, community_hash(1), ActionType::Ban, [1u8; 32], 1, [2u8; 32], sig),
        Err(Error::NotBotOwner)
    );
}

#[test]
fn m3_batch_submit_logs_rejects_non_owner() {
    let mut e = Env::new();
    let sig = test_sign(&community_hash(1), &ActionType::Ban, &[1u8; 32], 1, &[2u8; 32]);
    assert_eq!(
        e.batch(OTHER, community_hash(1), vec![(ActionType::Ban, [1u8; 32], 1, [2u8; 32], sig)]),
        Err(Error::NotBotOwner)
    );
}

#[test]
fn m4_submit_action_log_rejects_duplicate_sequence() {
    let mut e = Env::new();
    assert!(e.submit_signed(community_hash(1), ActionType::Ban, [1u8; 32], 10, [2u8; 32]).is_ok());
    assert_eq!(e.last_sequence(community_hash(1)), Some(10));
    assert_eq!(
        e.submit_signed(community_hash(1), ActionType::Kick, [3u8; 32], 10, [4u8; 32]),
        Err(Error::SequenceNotMonotonic)
    );
}

#[test]
fn m4_submit_action_log_rejects_lower_sequence() {
    let mut e = Env::new();
    assert!(e.submit_signed(community_hash(1), ActionType::Ban, [1u8; 32], 20, [2u8; 32]).is_ok());
    assert_eq!(
        e.submit_signed(community_hash(1), ActionType::Kick, [3u8; 32], 5, [4u8; 32]),
        Err(Error::SequenceNotMonotonic)
    );
}

#[test]
fn m4_batch_submit_logs_rejects_non_monotonic_within_batch() {
    let mut e = Env::new();
    let sig1 = test_sign(&community_hash(1), &ActionType::Ban, &[1u8; 32], 5, &[2u8; 32]);
    let sig2 = test_sign(&community_hash(1), &ActionType::Kick, &[3u8; 32], 3, &[4u8; 32]);
    assert_eq!(
        e.batch(OWNER, community_hash(1), vec![
            (ActionType::Ban, [1u8; 32], 5, [2u8; 32], sig1),
            (ActionType::Kick, [3u8; 32], 3, [4u8; 32], sig2),
        ]),
        Err(Error::SequenceNotMonotonic)
    );
}

#[test]
fn m4_batch_submit_logs_rejects_stale_first_sequence() {
    let mut e = Env::new();
    assert!(e.submit_signed(community_hash(1), ActionType::Ban, [1u8; 32], 10, [2u8; 32]).is_ok());
    let sig1 = test_sign(&community_hash(1), &ActionType::Kick, &[3u8; 32], 5, &[4u8; 32]);
    assert_eq!(
        e.batch(OWNER, community_hash(1), vec![(ActionType::Kick, [3u8; 32], 5, [4u8; 32], sig1)]),
        Err(Error::SequenceNotMonotonic)
    );
}

#[test]
fn m4_batch_submit_logs_updates_last_sequence() {
    let mut e = Env::new();
    let sig1 = test_sign(&community_hash(1), &ActionType::Ban, &[1u8; 32], 10, &[2u8; 32]);
    let sig2 = test_sign(&community_hash(1), &ActionType::Kick, &[3u8; 32], 20, &[4u8; 32]);
    assert!(e.batch(OWNER, community_hash(1), vec![
        (ActionType::Ban, [1u8; 32], 10, [2u8; 32], sig1),
        (ActionType::Kick, [3u8; 32], 20, [4u8; 32], sig2),
    ]).is_ok());
    assert_eq!(e.last_sequence(community_hash(1)), Some(20));
}

#[test]
fn m1_r2_submit_action_log_rejects_inactive_bot() {
    let mut e = Env::new();
    assert_eq!(e.submit_signed(community_hash(3), ActionType::Ban, [1u8; 32], 1, [2u8; 32]), Err(Error::BotNotActive));
}

#[test]
fn m1_r2_batch_submit_logs_rejects_inactive_bot() {
    let mut e = Env::new();
    let sig = test_sign(&community_hash(3), &ActionType::Ban, &[1u8; 32], 1, &[2u8; 32]);
    assert_eq!(
        e.batch(OWNER, community_hash(3), vec![(ActionType::Ban, [1u8; 32], 1, [2u8; 32], sig)]),
        Err(Error::BotNotActive)
    );
}

#[test]
fn m1_r2_award_reputation_rejects_inactive_bot() {
    let mut e = Env::new();
    assert_eq!(e.award(OWNER, community_hash(3), user_hash(1), 10), Err(Error::BotNotActive));
}

#[test]
fn m1_r2_deduct_reputation_rejects_inactive_bot() {
    let mut e = Env::new();
    assert_eq!(e.deduct(OWNER, community_hash(3), user_hash(1), 10), Err(Error::BotNotActive));
}

#[test]
fn m1_r2_reset_reputation_rejects_inactive_bot() {
    let mut e = Env::new();
    assert_eq!(
        e.p.reset_reputation(OWNER, community_hash(3), user_hash(1), facts(&community_hash(3))),
        Err(Error::BotNotActive)
    );
}

#[test]
fn m1_r2_update_active_members_rejects_inactive_bot() {
    let mut e = Env::new();
    assert!(e.update(OWNER, community_hash(3), 0, true, 10, 3, WarnAction::Kick, false, false, *b"en").is_ok());
    assert_eq!(
        e.p.update_active_members(OWNER, community_hash(3), 100, facts(&community_hash(3))),
        Err(Error::BotNotActive)
    );
}

#[test]
fn m1_r2_config_operations_allow_inactive_bot() {
    let mut e = Env::new();
    assert!(e.update(OWNER, community_hash(3), 0, true, 10, 3, WarnAction::Kick, false, false, *b"en").is_ok());
    assert!(e.p.set_node_requirement(OWNER, community_hash(3), NodeRequirement::Any, facts(&community_hash(3))).is_ok());
}

#[test]
fn m2_r2_cleanup_expired_cooldowns_works() {
    let mut e = Env::new();
    assert!(e.award(OWNER, community_hash(1), user_hash(1), 5).is_ok());
    assert!(e.cooldown(OWNER, community_hash(1), user_hash(1)) > 0);
    e.now = 10;
    assert!(e.p.cleanup_expired_cooldowns(e.now, OWNER, community_hash(1), user_hash(1)).is_ok());
    assert_eq!(e.cooldown(OWNER, community_hash(1), user_hash(1)), 0);
}

#[test]
fn m2_r2_cleanup_cooldowns_rejects_not_expired() {
    let mut e = Env::new();
    assert!(e.award(OWNER, community_hash(1), user_hash(1), 5).is_ok());
    assert_eq!(
        e.p.cleanup_expired_cooldowns(e.now, OWNER, community_hash(1), user_hash(1)),
        Err(Error::CooldownNotExpired)
    );
}

#[test]
fn m2_r2_cleanup_cooldowns_rejects_nonexistent() {
    let mut e = Env::new();
    assert_eq!(
        e.p.cleanup_expired_cooldowns(e.now, OWNER, community_hash(1), user_hash(99)),
        Err(Error::CooldownNotFound)
    );
}

#[test]
fn m2_r2_cleanup_cooldowns_emits_event() {
    let mut e = Env::new();
    assert!(e.award(OWNER, community_hash(1), user_hash(1), 5).is_ok());
    e.now = 10;
    assert!(e.p.cleanup_expired_cooldowns(e.now, OWNER, community_hash(1), user_hash(1)).is_ok());
    assert_eq!(
        e.p.events.last(),
        Some(&Event::CooldownCleaned { community_id_hash: community_hash(1), user_hash: user_hash(1), operator: OWNER })
    );
}

#[test]
fn m1_r3_cooldown_not_found_error_is_distinct() {
    let mut e = Env::new();
    let result = e.p.cleanup_expired_cooldowns(e.now, OWNER, community_hash(1), user_hash(50));
    assert_eq!(result, Err(Error::CooldownNotFound));
    assert_ne!(result, Err(Error::NoLogsToClear));
}

#[test]
fn m2_r3_batch_respects_configurable_max_size() {
    let mut e = Env::new();
    let action = ActionType::Kick;
    let target = [0u8; 32];
    let msg_hash = [0u8; 32];
    let logs: Vec<LogEntry> = (1..=51u64).map(|seq| {
        let sig = test_sign(&community_hash(1), &action, &target, seq, &msg_hash);
        (action, target, seq, msg_hash, sig)
    }).collect();
    assert_eq!(e.batch(OWNER, community_hash(1), logs), Err(Error::BatchTooLarge));
    let small_logs: Vec<LogEntry> = (1..=2u64).map(|seq| {
        let sig = test_sign(&community_hash(1), &action, &target, seq, &msg_hash);
        (action, target, seq, msg_hash, sig)
    }).collect();
    assert!(e.batch(OWNER, community_hash(1), small_logs).is_ok());
}

#[test]
fn m3_r3_clear_expired_logs_uses_configurable_blocks_per_day() {
    let mut e = Env::new();
    assert!(e.submit_signed(community_hash(1), ActionType::Kick, [0u8; 32], 1, [0u8; 32]).is_ok());
    e.now = 500_000;
    assert_eq!(e.clear(community_hash(1), 431_999), Err(Error::RetentionPeriodNotExpired));
    assert!(e.clear(community_hash(1), 432_000).is_ok());
}

#[test]
fn l2_r3_enterprise_tier_rejects_log_clearing() {
    let mut e = Env::new();
    assert_eq!(e.clear(community_hash(5), 999_999), Err(Error::RetentionPeriodNotExpired));
}

#[test]
fn l2_r3_free_tier_log_clearing_respects_retention() {
    let mut e = Env::new();
    let free_community = community_hash(3);
    assert_eq!(e.clear(free_community, 100_799), Err(Error::RetentionPeriodNotExpired));
    e.now = 200_000;
    assert_eq!(e.clear(free_community, 100_800), Err(Error::NoLogsToClear));
}

#[test]
fn delete_community_config_works() {
    let mut e = Env::new();
    e.create(community_hash(1));
    assert!(e.p.community_configs.contains_key(&community_hash(1)));
    assert!(e.submit_signed(community_hash(1), ActionType::Ban, [1u8; 32], 1, [2u8; 32]).is_ok());
    assert!(e.p.delete_community_config(OWNER, community_hash(1), facts(&community_hash(1))).is_ok());
    assert!(!e.p.community_configs.contains_key(&community_hash(1)));
    assert_eq!(e.logs_len(community_hash(1)), 0);
    assert_eq!(e.last_sequence(community_hash(1)), None);
}

#[test]
fn delete_community_config_fails_not_owner() {
    let mut e = Env::new();
    e.create(community_hash(1));
    assert_eq!(
        e.p.delete_community_config(OTHER, community_hash(1), facts(&community_hash(1))),
        Err(Error::NotBotOwner)
    );
}

#[test]
fn delete_community_config_fails_not_found() {
    let mut e = Env::new();
    assert_eq!(
        e.p.delete_community_config(OWNER, community_hash(1), facts(&community_hash(1))),
        Err(Error::CommunityNotFound)
    );
}

#[test]
fn force_remove_community_works() {
    let mut e = Env::new();
    e.create(community_hash(1));
    assert!(e.award(OWNER, community_hash(1), user_hash(1), 10).is_ok());
    e.p.force_remove_community(community_hash(1));
    assert!(!e.p.community_configs.contains_key(&community_hash(1)));
    assert_eq!(e.rep(community_hash(1), user_hash(1)).score, 0);
}

#[test]
fn ban_community_works() {
    let mut e = Env::new();
    e.create(community_hash(1));
    assert!(e.p.ban_community(community_hash(1)).is_ok());
    assert_eq!(e.config(community_hash(1)).unwrap().status, CommunityStatus::Banned);
}

#[test]
fn ban_community_fails_already_banned() {
    let mut e = Env::new();
    e.create(community_hash(1));
    assert!(e.p.ban_community(community_hash(1)).is_ok());
    assert_eq!(e.p.ban_community(community_hash(1)), Err(Error::CommunityAlreadyInStatus));
}

#[test]
fn ban_community_fails_not_found() {
    let mut e = Env::new();
    assert_eq!(e.p.ban_community(community_hash(99)), Err(Error::CommunityNotFound));
}

#[test]
fn unban_community_works() {
    let mut e = Env::new();
    e.create(community_hash(1));
    assert!(e.p.ban_community(community_hash(1)).is_ok());
    assert!(e.p.unban_community(community_hash(1)).is_ok());
    assert_eq!(e.config(community_hash(1)).unwrap().status, CommunityStatus::Active);
}

#[test]
fn unban_community_fails_not_banned() {
    let mut e = Env::new();
    e.create(community_hash(1));
    assert_eq!(e.p.unban_community(community_hash(1)), Err(Error::CommunityNotBanned));
}

#[test]
fn banned_community_blocks_submit_action_log() {
    let mut e = Env::new();
    e.create(community_hash(1));
    assert!(e.p.ban_community(community_hash(1)).is_ok());
    assert_eq!(e.submit_signed(community_hash(1), ActionType::Ban, [1u8; 32], 1, [2u8; 32]), Err(Error::CommunityBanned));
}

#[test]
fn banned_community_blocks_award_reputation() {
    let mut e = Env::new();
    e.create(community_hash(1));
    assert!(e.p.ban_community(community_hash(1)).is_ok());
    assert_eq!(e.award(OWNER, community_hash(1), user_hash(1), 10), Err(Error::CommunityBanned));
}

#[test]
fn banned_community_blocks_update_config() {
    let mut e = Env::new();
    e.create(community_hash(1));
    assert!(e.p.ban_community(community_hash(1)).is_ok());
    assert_eq!(
        e.update(OWNER, community_hash(1), 1, false, 5, 2, WarnAction::Ban, false, false, *b"zh"),
        Err(Error::CommunityBanned)
    );
}

#[test]
fn force_update_community_config_works() {
    let mut e = Env::new();
    e.create(community_hash(1));
    assert!(e.p.force_update_community_config(community_hash(1), false, 50, 8, WarnAction::Ban, true, true, *b"zh").is_ok());
    let config = e.config(community_hash(1)).unwrap();
    assert_eq!(config.version, 2);
    assert!(!config.anti_flood_enabled);
    assert_eq!(config.flood_limit, 50);
    assert_eq!(config.warn_limit, 8);
    assert_eq!(config.warn_action, WarnAction::Ban);
    assert!(config.welcome_enabled);
    assert!(config.ads_enabled);
    assert_eq!(config.language, *b"zh");
}

#[test]
fn force_update_community_config_creates_new() {
    let mut e = Env::new();
    assert!(e.p.force_update_community_config(community_hash(1), true, 20, 5, WarnAction::Kick, false, false, *b"en").is_ok());
    let config = e.config(community_hash(1)).unwrap();
    assert_eq!(config.version, 1);
    assert_eq!(config.status, CommunityStatus::Active);
}

#[test]
fn force_update_community_config_preserves_status() {
    let mut e = Env::new();
    e.create(community_hash(1));
    assert!(e.p.ban_community(community_hash(1)).is_ok());
    assert!(e.p.force_update_community_config(community_hash(1), false, 50, 8, WarnAction::Ban, true, true, *b"zh").is_ok());
    assert_eq!(e.config(community_hash(1)).unwrap().status, CommunityStatus::Banned);
}

#[test]
fn force_reset_community_reputation_works() {
    let mut e = Env::new();
    e.create(community_hash(1));
    assert!(e.award(OWNER, community_hash(1), user_hash(1), 10).is_ok());
    e.now = 10;
    assert!(e.award(OWNER, community_hash(1), user_hash(2), 20).is_ok());
    assert_eq!(e.rep(community_hash(1), user_hash(1)).score, 10);
    assert_eq!(e.rep(community_hash(1), user_hash(2)).score, 20);
    assert!(e.p.force_reset_community_reputation(community_hash(1)).is_ok());
    assert_eq!(e.rep(community_hash(1), user_hash(1)).score, 0);
    assert_eq!(e.rep(community_hash(1), user_hash(2)).score, 0);
}

#[test]
fn force_reset_community_reputation_fails_not_found() {
    let mut e = Env::new();
    assert_eq!(e.p.force_reset_community_reputation(community_hash(99)), Err(Error::CommunityNotFound));
}

#[test]
fn award_reputation_fails_free_tier() {
    let mut e = Env::new();
    assert_eq!(e.award(OWNER, community_hash(4), user_hash(1), 10), Err(Error::FreeTierNotAllowed));
}

#[test]
fn deduct_reputation_fails_free_tier() {
    let mut e = Env::new();
    assert_eq!(e.deduct(OWNER, community_hash(4), user_hash(1), 10), Err(Error::FreeTierNotAllowed));
}

#[test]
fn community_provider_is_configured() {
    let mut e = Env::new();
    assert!(!e.p.is_community_configured(&community_hash(1)));
    e.create(community_hash(1));
    assert!(e.p.is_community_configured(&community_hash(1)));
}

#[test]
fn community_provider_is_banned() {
    let mut e = Env::new();
    e.create(community_hash(1));
    assert!(!e.p.is_community_banned(&community_hash(1)));
    assert!(e.p.ban_community(community_hash(1)).is_ok());
    assert!(e.p.is_community_banned(&community_hash(1)));
}

#[test]
fn community_provider_ads_disabled_when_banned() {
    let mut e = Env::new();
    assert!(e.update(OWNER, community_hash(1), 0, true, 10, 3, WarnAction::Kick, false, true, *b"en").is_ok());
    assert!(e.p.is_ads_enabled(&community_hash(1)));
    assert!(e.p.ban_community(community_hash(1)).is_ok());
    assert!(!e.p.is_ads_enabled(&community_hash(1)));
}

#[test]
fn community_provider_language() {
    let mut e = Env::new();
    assert_eq!(e.p.language(&community_hash(1)), *b"en");
    assert!(e.update(OWNER, community_hash(1), 0, true, 10, 3, WarnAction::Kick, false, false, *b"zh").is_ok());
    assert_eq!(e.p.language(&community_hash(1)), *b"zh");
}

// Own tests.

#[test]
fn signed_message_layout() {
    let m = action_log_message(&community_hash(7), &ActionType::Ban, &[3u8; 32], 0x0102_0304_0506_0708, &[9u8; 32]);
    assert_eq!(m.len(), 32 + 1 + 32 + 8 + 32);
    assert_eq!(m[0], 7);
    assert_eq!(m[32], ActionType::Ban.encode()[0]);
    assert_eq!(&m[65..73], &[8, 7, 6, 5, 4, 3, 2, 1]);
    assert_eq!(m[73], 9);
}

#[test]
fn batch_with_a_bad_signature_is_refused_whole() {
    let mut e = Env::new();
    let sig1 = test_sign(&community_hash(1), &ActionType::Ban, &[1u8; 32], 1, &[2u8; 32]);
    assert_eq!(
        e.batch(OWNER, community_hash(1), vec![
            (ActionType::Ban, [1u8; 32], 1, [2u8; 32], sig1),
            (ActionType::Kick, [1u8; 32], 2, [2u8; 32], [0u8; 64]),
        ]),
        Err(Error::InvalidSignature)
    );
    assert_eq!(e.logs_len(community_hash(1)), 0);
    assert_eq!(e.last_sequence(community_hash(1)), None);
}

#[test]
fn verified_submission_checks_order() {
    let mut e = Env::new();
    let c = community_hash(1);
    assert_eq!(
        e.p.submit_action_log_with_signature(OWNER, 1, c, ActionType::Kick, [0u8; 32], 1, [0u8; 32], [0u8; 64], facts(&c), false),
        Err(Error::InvalidSignature)
    );
    assert!(e.p.submit_action_log_with_signature(OWNER, 1, c, ActionType::Kick, [0u8; 32], 1, [0u8; 32], [0u8; 64], facts(&c), true).is_ok());
    assert_eq!(
        e.p.submit_action_log_with_signature(OWNER, 1, c, ActionType::Kick, [0u8; 32], 1, [0u8; 32], [0u8; 64], facts(&c), true),
        Err(Error::SequenceNotMonotonic)
    );
}

#[test]
fn award_saturates_at_the_score_limit() {
    let mut e = Env::new();
    let c = community_hash(1);
    e.p.member_reputation.insert((c, user_hash(1)), ReputationRecord { score: i64::MAX - 3, awards: 0, deductions: 0, last_updated: 0 });
    assert!(e.award(OWNER, c, user_hash(1), 10).is_ok());
    assert_eq!(e.rep(c, user_hash(1)).score, i64::MAX);
    assert_eq!(
        e.p.events.last(),
        Some(&Event::ReputationAwarded { community_id_hash: c, user_hash: user_hash(1), delta: 10, new_score: i64::MAX, operator: OWNER })
    );
}
