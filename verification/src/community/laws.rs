//! Properties of communities that span calls.
use vstd::prelude::*;
use crate::arith::clamp_u64;
use crate::kvmap::get_or;
use crate::arith::clamp_u32;
use super::{active_owner_error, is_banned, CommunityFacts, Error, LogEntry, Pallet, ReputationRecord};
use super::logs::increasing_from;
use super::reputation::{clamp_i64, modified_record, modify_error};
use super::settings::update_error;

verus! {

/// A batch accepted after the sequence `prev` ends above it, so that the stored
/// last sequence number of a community only grows.
pub proof fn lemma_batch_sequence_grows(prev: u64, logs: Seq<LogEntry>)
    requires
        logs.len() > 0,
        increasing_from(Some(prev), logs),
    ensures
        logs.last().2 > prev,
    decreases logs.len(),
{
    if logs.len() > 1 {
        lemma_batch_sequence_grows(logs[0].2, logs.drop_first());
        assert(logs.drop_first().last() == logs.last());
    }
}

/// Updates are optimistic: an accepted update of an existing configuration
/// named its current version, which then grows by one.
pub proof fn lemma_update_names_current_version(p: Pallet, who: u64, c: [u8; 32], expected_version: u32, language: [u8; 2], facts: CommunityFacts)
    requires
        update_error(p, who, c, expected_version, language, facts) is None,
    ensures
        p.community_configs@.contains_key(c) ==> expected_version == p.community_configs@[c].version,
        !p.community_configs@.contains_key(c) ==> expected_version == 0,
{
}

/// After a reputation change by an operator at block `now` (which records
/// `now` as the operator's last change for the member), another change by the
/// same operator for the same member is refused until the cooldown has passed.
pub proof fn lemma_cooldown_blocks_repeat(p: Pallet, who: u64, now: u64, later: u64, c: [u8; 32], user: [u8; 32], delta: u32, facts: CommunityFacts)
    requires
        now > 0,
        get_or(p.reputation_cooldowns@, (who, c, user), 0u64) == now,
        clamp_u64(later - now) < p.config.reputation_cooldown,
    ensures
        modify_error(p, who, later, c, user, delta, facts) is Some,
        ({
            let e = modify_error(p, who, later, c, user, delta, facts)->0;
            e == Error::ReputationOnCooldown || e == Error::NotBotOwner || e == Error::BotNotActive
                || e == Error::CommunityBanned || e == Error::FreeTierNotAllowed
                || e == Error::ReputationDeltaZero || e == Error::ReputationDeltaTooLarge
        }),
{
}

/// The reputation rule: when the caller owns the community's active bot, the
/// community is not banned, its tier is paid and `0 < delta <= max`, a change is
/// refused exactly while the operator's last change of the member lies less than
/// the cooldown back; an accepted change moves the score by `delta` (saturating,
/// so a deduction may make it negative), counts one more award or deduction and
/// records block `now` (the new state that `award_reputation` and
/// `deduct_reputation` state through `modified_record`).
pub proof fn lemma_reputation_rule(
    p: Pallet,
    who: u64,
    now: u64,
    c: [u8; 32],
    user: [u8; 32],
    delta: u32,
    is_award: bool,
    rec: ReputationRecord,
    facts: CommunityFacts,
)
    requires
        active_owner_error(who, facts) is None,
        !is_banned(p, c),
        facts.tier.spec_is_paid(),
        0 < delta <= p.config.max_reputation_delta,
    ensures
        ({
            let last = get_or(p.reputation_cooldowns@, (who, c, user), 0u64);
            modify_error(p, who, now, c, user, delta, facts) == (if last > 0
                && clamp_u64(now - last) < p.config.reputation_cooldown {
                Some(Error::ReputationOnCooldown)
            } else {
                None::<Error>
            })
        }),
        is_award ==> modified_record(rec, delta, is_award, now) == (ReputationRecord {
            score: clamp_i64(rec.score + delta),
            awards: clamp_u32(rec.awards + 1),
            last_updated: now,
            ..rec
        }),
        !is_award ==> modified_record(rec, delta, is_award, now) == (ReputationRecord {
            score: clamp_i64(rec.score - delta),
            deductions: clamp_u32(rec.deductions + 1),
            last_updated: now,
            ..rec
        }),
{
}

} // verus!
