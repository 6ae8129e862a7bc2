//! Member reputation: awards and deductions under a per-operator cooldown,
//! resets and cleanup of expired cooldowns.
use vstd::prelude::*;
use crate::arith::{clamp_u32, clamp_u64};
use crate::kvmap::get_or;
use super::{
    active_owner_error, ensure_active_bot_owner, is_banned, CommunityFacts, Error, Event, Pallet, ReputationRecord,
};

verus! {

/// `x` clamped into the range of `i64`.
pub open spec fn clamp_i64(x: int) -> i64 {
    if x > i64::MAX {
        i64::MAX
    } else if x < i64::MIN {
        i64::MIN
    } else {
        x as i64
    }
}

fn sat_add_i64(a: i64, b: i64) -> (r: i64)
    ensures
        r == clamp_i64(a + b),
{
    match a.checked_add(b) {
        Some(v) => v,
        None => if b > 0 { i64::MAX } else { i64::MIN },
    }
}

fn sat_sub_i64(a: i64, b: i64) -> (r: i64)
    ensures
        r == clamp_i64(a - b),
{
    match a.checked_sub(b) {
        Some(v) => v,
        None => if b > 0 { i64::MIN } else { i64::MAX },
    }
}

/// Why a reputation change of `delta` by `who` fails at block `now`, if it does.
pub open spec fn modify_error(p: Pallet, who: u64, now: u64, c: [u8; 32], user: [u8; 32], delta: u32, facts: CommunityFacts) -> Option<Error> {
    let last = get_or(p.reputation_cooldowns@, (who, c, user), 0u64);
    if active_owner_error(who, facts) is Some {
        active_owner_error(who, facts)
    } else if is_banned(p, c) {
        Some(Error::CommunityBanned)
    } else if !facts.tier.spec_is_paid() {
        Some(Error::FreeTierNotAllowed)
    } else if delta == 0 {
        Some(Error::ReputationDeltaZero)
    } else if delta > p.config.max_reputation_delta {
        Some(Error::ReputationDeltaTooLarge)
    } else if last > 0 && clamp_u64(now - last) < p.config.reputation_cooldown {
        Some(Error::ReputationOnCooldown)
    } else {
        None
    }
}

/// A member's record after an award (or a deduction) of `delta` at block `now`.
pub open spec fn modified_record(rec: ReputationRecord, delta: u32, is_award: bool, now: u64) -> ReputationRecord {
    if is_award {
        ReputationRecord {
            score: clamp_i64(rec.score + delta),
            awards: clamp_u32(rec.awards + 1),
            last_updated: now,
            ..rec
        }
    } else {
        ReputationRecord {
            score: clamp_i64(rec.score - delta),
            deductions: clamp_u32(rec.deductions + 1),
            last_updated: now,
            ..rec
        }
    }
}

impl Pallet {
    /// An operator may change a member's score again only once the cooldown has
    /// passed since its last change; a first change is always allowed.
    fn check_cooldown(&self, who: u64, now: u64, c: &[u8; 32], user: &[u8; 32]) -> (r: Result<(), Error>)
        ensures
            ({
                let last = get_or(self.reputation_cooldowns@, (who, *c, *user), 0u64);
                r == (if last > 0 && clamp_u64(now - last) < self.config.reputation_cooldown {
                    Err::<(), Error>(Error::ReputationOnCooldown)
                } else {
                    Ok(())
                })
            }),
    {
        let last = self.reputation_cooldowns.get_or(&(who, *c, *user), 0);
        if last > 0 && now.saturating_sub(last) < self.config.reputation_cooldown {
            return Err(Error::ReputationOnCooldown);
        }
        Ok(())
    }

    fn do_modify_reputation(
        &mut self,
        who: u64,
        now: u64,
        community_id_hash: [u8; 32],
        user_hash: [u8; 32],
        delta: u32,
        is_award: bool,
        facts: CommunityFacts,
    ) -> (r: Result<(), Error>)
        ensures
            r is Err ==> *final(self) == *old(self),
            ({
                let c = community_id_hash;
                let key = (c, user_hash);
                let rec = modified_record(get_or(old(self).member_reputation@, key, ReputationRecord::spec_default()), delta, is_award, now);
                match modify_error(*old(self), who, now, c, user_hash, delta, facts) {
                    Some(e) => r == Err::<(), Error>(e),
                    None => {
                        &&& r is Ok
                        &&& final(self).member_reputation@ == old(self).member_reputation@.insert(key, rec)
                        &&& final(self).reputation_cooldowns@ == old(self).reputation_cooldowns@.insert((who, c, user_hash), now)
                        &&& final(self).events@ == old(self).events@.push(if is_award {
                            Event::ReputationAwarded { community_id_hash: c, user_hash, delta: delta as i64, new_score: rec.score, operator: who }
                        } else {
                            Event::ReputationDeducted { community_id_hash: c, user_hash, delta: delta as i64, new_score: rec.score, operator: who }
                        })
                        &&& *final(self) == (Pallet {
                            member_reputation: final(self).member_reputation,
                            reputation_cooldowns: final(self).reputation_cooldowns,
                            events: final(self).events,
                            ..*old(self)
                        })
                    },
                }
            }),
    {
        match ensure_active_bot_owner(who, &facts) {
            Err(e) => return Err(e),
            Ok(()) => {},
        }
        match self.ensure_not_banned(&community_id_hash) {
            Err(e) => return Err(e),
            Ok(()) => {},
        }
        if !facts.tier.is_paid() {
            return Err(Error::FreeTierNotAllowed);
        }
        if delta == 0 {
            return Err(Error::ReputationDeltaZero);
        }
        if delta > self.config.max_reputation_delta {
            return Err(Error::ReputationDeltaTooLarge);
        }
        match self.check_cooldown(who, now, &community_id_hash, &user_hash) {
            Err(e) => return Err(e),
            Ok(()) => {},
        }
        let signed_delta = delta as i64;
        let rec = self.member_reputation.get_or(&(community_id_hash, user_hash), ReputationRecord::default());
        let mut updated = rec;
        if is_award {
            updated.score = sat_add_i64(rec.score, signed_delta);
            updated.awards = rec.awards.saturating_add(1);
        } else {
            updated.score = sat_sub_i64(rec.score, signed_delta);
            updated.deductions = rec.deductions.saturating_add(1);
        }
        updated.last_updated = now;
        self.member_reputation.insert((community_id_hash, user_hash), updated);
        self.reputation_cooldowns.insert((who, community_id_hash, user_hash), now);
        if is_award {
            self.events.push(Event::ReputationAwarded {
                community_id_hash, user_hash, delta: signed_delta, new_score: updated.score, operator: who,
            });
        } else {
            self.events.push(Event::ReputationDeducted {
                community_id_hash, user_hash, delta: signed_delta, new_score: updated.score, operator: who,
            });
        }
        Ok(())
    }

    /// The owner of the community's active paid bot raises a member's score by
    /// `delta`, at most once per cooldown for the same member.
    pub fn award_reputation(&mut self, who: u64, now: u64, community_id_hash: [u8; 32], user_hash: [u8; 32], delta: u32, facts: CommunityFacts) -> (r: Result<(), Error>)
        ensures
            r is Err ==> *final(self) == *old(self),
            ({
                let c = community_id_hash;
                let key = (c, user_hash);
                let rec = modified_record(get_or(old(self).member_reputation@, key, ReputationRecord::spec_default()), delta, true, now);
                match modify_error(*old(self), who, now, c, user_hash, delta, facts) {
                    Some(e) => r == Err::<(), Error>(e),
                    None => {
                        &&& r is Ok
                        &&& final(self).member_reputation@ == old(self).member_reputation@.insert(key, rec)
                        &&& final(self).reputation_cooldowns@ == old(self).reputation_cooldowns@.insert((who, c, user_hash), now)
                        &&& final(self).events@ == old(self).events@.push(Event::ReputationAwarded {
                            community_id_hash: c, user_hash, delta: delta as i64, new_score: rec.score, operator: who })
                        &&& *final(self) == (Pallet {
                            member_reputation: final(self).member_reputation,
                            reputation_cooldowns: final(self).reputation_cooldowns,
                            events: final(self).events,
                            ..*old(self)
                        })
                    },
                }
            }),
    {
        self.do_modify_reputation(who, now, community_id_hash, user_hash, delta, true, facts)
    }

    /// The owner of the community's active paid bot lowers a member's score by
    /// `delta`, at most once per cooldown for the same member.
    pub fn deduct_reputation(&mut self, who: u64, now: u64, community_id_hash: [u8; 32], user_hash: [u8; 32], delta: u32, facts: CommunityFacts) -> (r: Result<(), Error>)
        ensures
            r is Err ==> *final(self) == *old(self),
            ({
                let c = community_id_hash;
                let key = (c, user_hash);
                let rec = modified_record(get_or(old(self).member_reputation@, key, ReputationRecord::spec_default()), delta, false, now);
                match modify_error(*old(self), who, now, c, user_hash, delta, facts) {
                    Some(e) => r == Err::<(), Error>(e),
                    None => {
                        &&& r is Ok
                        &&& final(self).member_reputation@ == old(self).member_reputation@.insert(key, rec)
                        &&& final(self).reputation_cooldowns@ == old(self).reputation_cooldowns@.insert((who, c, user_hash), now)
                        &&& final(self).events@ == old(self).events@.push(Event::ReputationDeducted {
                            community_id_hash: c, user_hash, delta: delta as i64, new_score: rec.score, operator: who })
                        &&& *final(self) == (Pallet {
                            member_reputation: final(self).member_reputation,
                            reputation_cooldowns: final(self).reputation_cooldowns,
                            events: final(self).events,
                            ..*old(self)
                        })
                    },
                }
            }),
    {
        self.do_modify_reputation(who, now, community_id_hash, user_hash, delta, false, facts)
    }

    /// The owner of the community's active bot resets a member's reputation.
    pub fn reset_reputation(&mut self, who: u64, community_id_hash: [u8; 32], user_hash: [u8; 32], facts: CommunityFacts) -> (r: Result<(), Error>)
        ensures
            r is Err ==> *final(self) == *old(self),
            active_owner_error(who, facts) is Some ==> r == Err::<(), Error>(active_owner_error(who, facts)->0),
            active_owner_error(who, facts) is None ==> {
                let key = (community_id_hash, user_hash);
                &&& r is Ok
                &&& final(self).member_reputation@ == old(self).member_reputation@.remove(key)
                &&& final(self).events@ == old(self).events@.push(Event::ReputationReset {
                    community_id_hash, user_hash,
                    old_score: get_or(old(self).member_reputation@, key, ReputationRecord::spec_default()).score })
                &&& *final(self) == (Pallet {
                    member_reputation: final(self).member_reputation,
                    events: final(self).events,
                    ..*old(self)
                })
            },
    {
        match ensure_active_bot_owner(who, &facts) {
            Err(e) => return Err(e),
            Ok(()) => {},
        }
        let old_score = self.member_reputation.get_or(&(community_id_hash, user_hash), ReputationRecord::default()).score;
        self.member_reputation.remove(&(community_id_hash, user_hash));
        self.events.push(Event::ReputationReset { community_id_hash, user_hash, old_score });
        Ok(())
    }

    /// Anyone removes a cooldown entry that has run out at block `now`.
    pub fn cleanup_expired_cooldowns(&mut self, now: u64, operator: u64, community_id_hash: [u8; 32], user_hash: [u8; 32]) -> (r: Result<(), Error>)
        ensures
            r is Err ==> *final(self) == *old(self),
            ({
                let key = (operator, community_id_hash, user_hash);
                let last = get_or(old(self).reputation_cooldowns@, key, 0u64);
                if last == 0 {
                    r == Err::<(), Error>(Error::CooldownNotFound)
                } else if clamp_u64(now - last) < old(self).config.reputation_cooldown {
                    r == Err::<(), Error>(Error::CooldownNotExpired)
                } else {
                    &&& r is Ok
                    &&& final(self).reputation_cooldowns@ == old(self).reputation_cooldowns@.remove(key)
                    &&& final(self).events@ == old(self).events@.push(Event::CooldownCleaned {
                        community_id_hash, user_hash, operator })
                    &&& *final(self) == (Pallet {
                        reputation_cooldowns: final(self).reputation_cooldowns,
                        events: final(self).events,
                        ..*old(self)
                    })
                }
            }),
    {
        let key = (operator, community_id_hash, user_hash);
        let last = self.reputation_cooldowns.get_or(&key, 0);
        if last == 0 {
            return Err(Error::CooldownNotFound);
        }
        if now.saturating_sub(last) < self.config.reputation_cooldown {
            return Err(Error::CooldownNotExpired);
        }
        self.reputation_cooldowns.remove(&key);
        self.events.push(Event::CooldownCleaned { community_id_hash, user_hash, operator });
        Ok(())
    }
}

} // verus!
