//! Configuration of a community: rules, node policy, member count, bans and removal.
use vstd::prelude::*;
use crate::arith::clamp_u32;
use crate::grouprobot::{NodeRequirement, WarnAction};
use super::{
    active_owner_error, ensure_active_bot_owner, ensure_bot_owner, is_banned, is_lower, owner_error, CommunityConfig,
    CommunityFacts, CommunityStatus, Error, Event, Pallet,
};

verus! {

/// Why an owner's configuration update fails, if it does.
pub open spec fn update_error(p: Pallet, who: u64, c: [u8; 32], expected_version: u32, language: [u8; 2], facts: CommunityFacts) -> Option<Error> {
    if owner_error(who, facts) is Some {
        owner_error(who, facts)
    } else if !(is_lower(language[0]) && is_lower(language[1])) {
        Some(Error::InvalidLanguageCode)
    } else if p.community_configs@.contains_key(c) {
        if p.community_configs@[c].version != expected_version {
            Some(Error::ConfigVersionConflict)
        } else if p.community_configs@[c].status == CommunityStatus::Banned {
            Some(Error::CommunityBanned)
        } else {
            None
        }
    } else if expected_version != 0 {
        Some(Error::ConfigVersionConflict)
    } else {
        None
    }
}

/// The rules a configuration update installs; the node policy and member count
/// are kept from the existing configuration.
pub open spec fn updated_config(
    existing: Option<CommunityConfig>,
    version: u32,
    status: CommunityStatus,
    anti_flood_enabled: bool,
    flood_limit: u16,
    warn_limit: u8,
    warn_action: WarnAction,
    welcome_enabled: bool,
    ads_enabled: bool,
    language: [u8; 2],
) -> CommunityConfig {
    CommunityConfig {
        node_requirement: match existing {
            Some(e) => e.node_requirement,
            None => NodeRequirement::spec_default(),
        },
        anti_flood_enabled,
        flood_limit,
        warn_limit,
        warn_action,
        welcome_enabled,
        ads_enabled,
        active_members: match existing {
            Some(e) => e.active_members,
            None => 0,
        },
        language,
        version,
        status,
    }
}

/// The configuration of `c`, if any.
pub open spec fn config_of(p: Pallet, c: [u8; 32]) -> Option<CommunityConfig> {
    if p.community_configs@.contains_key(c) {
        Some(p.community_configs@[c])
    } else {
        None
    }
}

fn is_lower_byte(b: u8) -> (r: bool)
    ensures
        r == is_lower(b),
{
    97 <= b && b <= 122
}

impl Pallet {
    fn config_opt(&self, c: &[u8; 32]) -> (r: Option<CommunityConfig>)
        ensures
            r == config_of(*self, *c),
    {
        match self.community_configs.get(c) {
            Some(cfg) => Some(*cfg),
            None => None,
        }
    }

    /// The owner of the community's bot (active or not) changes its node admission policy.
    pub fn set_node_requirement(&mut self, who: u64, community_id_hash: [u8; 32], requirement: NodeRequirement, facts: CommunityFacts) -> (r: Result<(), Error>)
        ensures
            r is Err ==> *final(self) == *old(self),
            ({
                let c = community_id_hash;
                let cfg = old(self).community_configs@[c];
                if owner_error(who, facts) is Some {
                    r == Err::<(), Error>(owner_error(who, facts)->0)
                } else if is_banned(*old(self), c) {
                    r == Err::<(), Error>(Error::CommunityBanned)
                } else if !old(self).community_configs@.contains_key(c) {
                    r == Err::<(), Error>(Error::CommunityNotFound)
                } else if cfg.node_requirement == requirement {
                    r == Err::<(), Error>(Error::SameNodeRequirement)
                } else {
                    &&& r is Ok
                    &&& final(self).community_configs@ == old(self).community_configs@.insert(c,
                        CommunityConfig { node_requirement: requirement, ..cfg })
                    &&& final(self).events@ == old(self).events@.push(Event::NodeRequirementUpdated {
                        community_id_hash: c, requirement })
                    &&& *final(self) == (Pallet {
                        community_configs: final(self).community_configs,
                        events: final(self).events,
                        ..*old(self)
                    })
                }
            }),
    {
        match ensure_bot_owner(who, &facts) {
            Err(e) => return Err(e),
            Ok(()) => {},
        }
        match self.ensure_not_banned(&community_id_hash) {
            Err(e) => return Err(e),
            Ok(()) => {},
        }
        let cfg = match self.config_opt(&community_id_hash) {
            Some(c) => c,
            None => return Err(Error::CommunityNotFound),
        };
        if cfg.node_requirement == requirement {
            return Err(Error::SameNodeRequirement);
        }
        let mut updated = cfg;
        updated.node_requirement = requirement;
        self.community_configs.insert(community_id_hash, updated);
        self.events.push(Event::NodeRequirementUpdated { community_id_hash, requirement });
        Ok(())
    }

    /// The bot owner replaces the group rules, naming the version it read; the
    /// version then grows by one and a banned community cannot be updated.
    pub fn update_community_config(
        &mut self,
        who: u64,
        community_id_hash: [u8; 32],
        expected_version: u32,
        anti_flood_enabled: bool,
        flood_limit: u16,
        warn_limit: u8,
        warn_action: WarnAction,
        welcome_enabled: bool,
        ads_enabled: bool,
        language: [u8; 2],
        facts: CommunityFacts,
    ) -> (r: Result<(), Error>)
        ensures
            r is Err ==> *final(self) == *old(self),
            ({
                let c = community_id_hash;
                match update_error(*old(self), who, c, expected_version, language, facts) {
                    Some(e) => r == Err::<(), Error>(e),
                    None => {
                        &&& r is Ok
                        &&& final(self).community_configs@ == old(self).community_configs@.insert(c, updated_config(
                            config_of(*old(self), c), clamp_u32(expected_version + 1), CommunityStatus::Active,
                            anti_flood_enabled, flood_limit, warn_limit, warn_action, welcome_enabled, ads_enabled, language))
                        &&& final(self).events@ == old(self).events@.push(Event::CommunityConfigUpdated {
                            community_id_hash: c, version: clamp_u32(expected_version + 1) })
                        &&& *final(self) == (Pallet {
                            community_configs: final(self).community_configs,
                            events: final(self).events,
                            ..*old(self)
                        })
                    },
                }
            }),
    {
        match ensure_bot_owner(who, &facts) {
            Err(e) => return Err(e),
            Ok(()) => {},
        }
        if !(is_lower_byte(language[0]) && is_lower_byte(language[1])) {
            return Err(Error::InvalidLanguageCode);
        }
        let new_version = expected_version.saturating_add(1);
        let existing = self.config_opt(&community_id_hash);
        match existing {
            Some(ex) => {
                if ex.version != expected_version {
                    return Err(Error::ConfigVersionConflict);
                }
                if ex.status == CommunityStatus::Banned {
                    return Err(Error::CommunityBanned);
                }
            },
            None => {
                if expected_version != 0 {
                    return Err(Error::ConfigVersionConflict);
                }
            },
        }
        let node_requirement = match existing {
            Some(ex) => ex.node_requirement,
            None => NodeRequirement::default_requirement(),
        };
        let active_members = match existing {
            Some(ex) => ex.active_members,
            None => 0,
        };
        let config = CommunityConfig {
            node_requirement,
            anti_flood_enabled,
            flood_limit,
            warn_limit,
            warn_action,
            welcome_enabled,
            ads_enabled,
            active_members,
            language,
            version: new_version,
            status: CommunityStatus::Active,
        };
        self.community_configs.insert(community_id_hash, config);
        self.events.push(Event::CommunityConfigUpdated { community_id_hash, version: new_version });
        Ok(())
    }

    /// The owner of the community's active bot reports its number of active members.
    pub fn update_active_members(&mut self, who: u64, community_id_hash: [u8; 32], active_members: u32, facts: CommunityFacts) -> (r: Result<(), Error>)
        ensures
            r is Err ==> *final(self) == *old(self),
            ({
                let c = community_id_hash;
                let cfg = old(self).community_configs@[c];
                if active_owner_error(who, facts) is Some {
                    r == Err::<(), Error>(active_owner_error(who, facts)->0)
                } else if !old(self).community_configs@.contains_key(c) {
                    r == Err::<(), Error>(Error::CommunityNotFound)
                } else {
                    &&& r is Ok
                    &&& final(self).community_configs@ == old(self).community_configs@.insert(c,
                        CommunityConfig { active_members, ..cfg })
                    &&& final(self).events@ == old(self).events@.push(Event::ActiveMembersUpdated {
                        community_id_hash: c, active_members })
                    &&& *final(self) == (Pallet {
                        community_configs: final(self).community_configs,
                        events: final(self).events,
                        ..*old(self)
                    })
                }
            }),
    {
        match ensure_active_bot_owner(who, &facts) {
            Err(e) => return Err(e),
            Ok(()) => {},
        }
        let cfg = match self.config_opt(&community_id_hash) {
            Some(c) => c,
            None => return Err(Error::CommunityNotFound),
        };
        let mut updated = cfg;
        updated.active_members = active_members;
        self.community_configs.insert(community_id_hash, updated);
        self.events.push(Event::ActiveMembersUpdated { community_id_hash, active_members });
        Ok(())
    }

    fn remove_community_data(&mut self, c: [u8; 32])
        ensures
            final(self).community_configs@ == old(self).community_configs@.remove(c),
            final(self).action_logs@ == old(self).action_logs@.remove(c),
            final(self).last_sequence@ == old(self).last_sequence@.remove(c),
            final(self).member_reputation@ == old(self).member_reputation@.remove_keys(
                Set::new(|k: ([u8; 32], [u8; 32])| k.0 == c)),
            final(self).config == old(self).config,
            final(self).reputation_cooldowns == old(self).reputation_cooldowns,
            final(self).events == old(self).events,
    {
        self.community_configs.remove(&c);
        self.action_logs.remove(&c);
        self.last_sequence.remove(&c);
        self.member_reputation.clear_prefix(c);
    }

    /// The bot owner deletes a configured community with its logs, sequence
    /// and reputations; cooldowns stay until they are cleaned up.
    pub fn delete_community_config(&mut self, who: u64, community_id_hash: [u8; 32], facts: CommunityFacts) -> (r: Result<(), Error>)
        ensures
            r is Err ==> *final(self) == *old(self),
            ({
                let c = community_id_hash;
                if owner_error(who, facts) is Some {
                    r == Err::<(), Error>(owner_error(who, facts)->0)
                } else if !old(self).community_configs@.contains_key(c) {
                    r == Err::<(), Error>(Error::CommunityNotFound)
                } else {
                    &&& r is Ok
                    &&& final(self).community_configs@ == old(self).community_configs@.remove(c)
                    &&& final(self).action_logs@ == old(self).action_logs@.remove(c)
                    &&& final(self).last_sequence@ == old(self).last_sequence@.remove(c)
                    &&& final(self).member_reputation@ == old(self).member_reputation@.remove_keys(
                        Set::new(|k: ([u8; 32], [u8; 32])| k.0 == c))
                    &&& final(self).reputation_cooldowns == old(self).reputation_cooldowns
                    &&& final(self).config == old(self).config
                    &&& final(self).events@ == old(self).events@.push(Event::CommunityConfigDeleted { community_id_hash: c })
                }
            }),
    {
        match ensure_bot_owner(who, &facts) {
            Err(e) => return Err(e),
            Ok(()) => {},
        }
        if !self.community_configs.contains_key(&community_id_hash) {
            return Err(Error::CommunityNotFound);
        }
        self.remove_community_data(community_id_hash);
        self.events.push(Event::CommunityConfigDeleted { community_id_hash });
        Ok(())
    }

    /// Governance removes a community with its logs, sequence and reputations.
    pub fn force_remove_community(&mut self, community_id_hash: [u8; 32])
        ensures
            ({
                let c = community_id_hash;
                &&& final(self).community_configs@ == old(self).community_configs@.remove(c)
                &&& final(self).action_logs@ == old(self).action_logs@.remove(c)
                &&& final(self).last_sequence@ == old(self).last_sequence@.remove(c)
                &&& final(self).member_reputation@ == old(self).member_reputation@.remove_keys(
                    Set::new(|k: ([u8; 32], [u8; 32])| k.0 == c))
                &&& final(self).reputation_cooldowns == old(self).reputation_cooldowns
                &&& final(self).config == old(self).config
                &&& final(self).events@ == old(self).events@.push(Event::CommunityForceRemoved { community_id_hash: c })
            }),
    {
        self.remove_community_data(community_id_hash);
        self.events.push(Event::CommunityForceRemoved { community_id_hash });
    }

    fn set_status(&mut self, c: [u8; 32], banned: bool) -> (r: Result<(), Error>)
        ensures
            r is Err ==> *final(self) == *old(self),
            ({
                let cfg = old(self).community_configs@[c];
                if !old(self).community_configs@.contains_key(c) {
                    r == Err::<(), Error>(Error::CommunityNotFound)
                } else if banned && cfg.status == CommunityStatus::Banned {
                    r == Err::<(), Error>(Error::CommunityAlreadyInStatus)
                } else if !banned && cfg.status != CommunityStatus::Banned {
                    r == Err::<(), Error>(Error::CommunityNotBanned)
                } else {
                    &&& r is Ok
                    &&& final(self).community_configs@ == old(self).community_configs@.insert(c, CommunityConfig {
                        status: if banned { CommunityStatus::Banned } else { CommunityStatus::Active }, ..cfg })
                    &&& final(self).events@ == old(self).events@.push(if banned {
                        Event::CommunityBanned { community_id_hash: c }
                    } else {
                        Event::CommunityUnbanned { community_id_hash: c }
                    })
                    &&& *final(self) == (Pallet {
                        community_configs: final(self).community_configs,
                        events: final(self).events,
                        ..*old(self)
                    })
                }
            }),
    {
        let cfg = match self.config_opt(&c) {
            Some(x) => x,
            None => return Err(Error::CommunityNotFound),
        };
        if banned && cfg.status == CommunityStatus::Banned {
            return Err(Error::CommunityAlreadyInStatus);
        }
        if !banned && cfg.status != CommunityStatus::Banned {
            return Err(Error::CommunityNotBanned);
        }
        let mut updated = cfg;
        updated.status = if banned { CommunityStatus::Banned } else { CommunityStatus::Active };
        self.community_configs.insert(c, updated);
        if banned {
            self.events.push(Event::CommunityBanned { community_id_hash: c });
        } else {
            self.events.push(Event::CommunityUnbanned { community_id_hash: c });
        }
        Ok(())
    }

    /// Governance bans a configured community that is not banned.
    pub fn ban_community(&mut self, community_id_hash: [u8; 32]) -> (r: Result<(), Error>)
        ensures
            r is Err ==> *final(self) == *old(self),
            ({
                let c = community_id_hash;
                let cfg = old(self).community_configs@[c];
                if !old(self).community_configs@.contains_key(c) {
                    r == Err::<(), Error>(Error::CommunityNotFound)
                } else if cfg.status == CommunityStatus::Banned {
                    r == Err::<(), Error>(Error::CommunityAlreadyInStatus)
                } else {
                    &&& r is Ok
                    &&& final(self).community_configs@ == old(self).community_configs@.insert(c, CommunityConfig {
                        status: CommunityStatus::Banned, ..cfg })
                    &&& final(self).events@ == old(self).events@.push(Event::CommunityBanned { community_id_hash: c })
                    &&& *final(self) == (Pallet {
                        community_configs: final(self).community_configs,
                        events: final(self).events,
                        ..*old(self)
                    })
                }
            }),
    {
        self.set_status(community_id_hash, true)
    }

    /// Governance lifts the ban of a community.
    pub fn unban_community(&mut self, community_id_hash: [u8; 32]) -> (r: Result<(), Error>)
        ensures
            r is Err ==> *final(self) == *old(self),
            ({
                let c = community_id_hash;
                let cfg = old(self).community_configs@[c];
                if !old(self).community_configs@.contains_key(c) {
                    r == Err::<(), Error>(Error::CommunityNotFound)
                } else if cfg.status != CommunityStatus::Banned {
                    r == Err::<(), Error>(Error::CommunityNotBanned)
                } else {
                    &&& r is Ok
                    &&& final(self).community_configs@ == old(self).community_configs@.insert(c, CommunityConfig {
                        status: CommunityStatus::Active, ..cfg })
                    &&& final(self).events@ == old(self).events@.push(Event::CommunityUnbanned { community_id_hash: c })
                    &&& *final(self) == (Pallet {
                        community_configs: final(self).community_configs,
                        events: final(self).events,
                        ..*old(self)
                    })
                }
            }),
    {
        self.set_status(community_id_hash, false)
    }

    /// Governance replaces the group rules without a version check; the version
    /// grows by one (a new configuration gets version 1) and the status is kept.
    pub fn force_update_community_config(
        &mut self,
        community_id_hash: [u8; 32],
        anti_flood_enabled: bool,
        flood_limit: u16,
        warn_limit: u8,
        warn_action: WarnAction,
        welcome_enabled: bool,
        ads_enabled: bool,
        language: [u8; 2],
    ) -> (r: Result<(), Error>)
        ensures
            r is Err ==> *final(self) == *old(self),
            !(is_lower(language[0]) && is_lower(language[1])) ==> r == Err::<(), Error>(Error::InvalidLanguageCode),
            (is_lower(language[0]) && is_lower(language[1])) ==> ({
                let c = community_id_hash;
                let existing = config_of(*old(self), c);
                let version = match existing {
                    Some(e) => clamp_u32(e.version + 1),
                    None => 1u32,
                };
                let status = match existing {
                    Some(e) => e.status,
                    None => CommunityStatus::Active,
                };
                &&& r is Ok
                &&& final(self).community_configs@ == old(self).community_configs@.insert(c, updated_config(
                    existing, version, status, anti_flood_enabled, flood_limit, warn_limit, warn_action,
                    welcome_enabled, ads_enabled, language))
                &&& final(self).events@ == old(self).events@.push(Event::CommunityConfigForceUpdated {
                    community_id_hash: c, version })
                &&& *final(self) == (Pallet {
                    community_configs: final(self).community_configs,
                    events: final(self).events,
                    ..*old(self)
                })
            }),
    {
        if !(is_lower_byte(language[0]) && is_lower_byte(language[1])) {
            return Err(Error::InvalidLanguageCode);
        }
        let existing = self.config_opt(&community_id_hash);
        let (node_requirement, active_members, status, version) = match existing {
            Some(ex) => (ex.node_requirement, ex.active_members, ex.status, ex.version.saturating_add(1)),
            None => (NodeRequirement::default_requirement(), 0, CommunityStatus::default_status(), 1),
        };
        let config = CommunityConfig {
            node_requirement,
            anti_flood_enabled,
            flood_limit,
            warn_limit,
            warn_action,
            welcome_enabled,
            ads_enabled,
            active_members,
            language,
            version,
            status,
        };
        self.community_configs.insert(community_id_hash, config);
        self.events.push(Event::CommunityConfigForceUpdated { community_id_hash, version });
        Ok(())
    }

    /// Governance wipes the reputations of a configured community.
    pub fn force_reset_community_reputation(&mut self, community_id_hash: [u8; 32]) -> (r: Result<(), Error>)
        ensures
            r is Err ==> *final(self) == *old(self),
            !old(self).community_configs@.contains_key(community_id_hash) ==> r == Err::<(), Error>(Error::CommunityNotFound),
            old(self).community_configs@.contains_key(community_id_hash) ==> {
                &&& r is Ok
                &&& final(self).member_reputation@ == old(self).member_reputation@.remove_keys(
                    Set::new(|k: ([u8; 32], [u8; 32])| k.0 == community_id_hash))
                &&& final(self).events@ == old(self).events@.push(Event::CommunityReputationForceReset { community_id_hash })
                &&& *final(self) == (Pallet {
                    member_reputation: final(self).member_reputation,
                    events: final(self).events,
                    ..*old(self)
                })
            },
    {
        if !self.community_configs.contains_key(&community_id_hash) {
            return Err(Error::CommunityNotFound);
        }
        self.member_reputation.clear_prefix(community_id_hash);
        self.events.push(Event::CommunityReputationForceReset { community_id_hash });
        Ok(())
    }
}

} // verus!
