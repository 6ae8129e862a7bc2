//! Signed moderation logs: single and batch submission with strictly increasing
//! sequence numbers, and cleanup of old logs.
use vstd::prelude::*;
use crate::arith::{clamp_u32, clamp_u64};
use crate::grouprobot::ActionType;
use crate::kvmap::seq_or_empty;
use super::{
    active_owner_error, ensure_active_bot_owner, is_banned, ActionLog, CommunityFacts, Error, Event, LogEntry, Pallet,
};

verus! {

/// The eight little-endian bytes of `x`.
pub open spec fn le_bytes(x: u64) -> Seq<u8> {
    seq![
        (x % 256) as u8,
        ((x / 256) % 256) as u8,
        ((x / 0x1_0000) % 256) as u8,
        ((x / 0x100_0000) % 256) as u8,
        ((x / 0x1_0000_0000) % 256) as u8,
        ((x / 0x100_0000_0000) % 256) as u8,
        ((x / 0x1_0000_0000_0000) % 256) as u8,
        ((x / 0x100_0000_0000_0000) % 256) as u8,
    ]
}

/// The message a bot signs for a log: community, encoded action, target,
/// little-endian sequence number and message hash, concatenated.
pub open spec fn log_message(c: [u8; 32], action_type: ActionType, target_hash: [u8; 32], sequence: u64, message_hash: [u8; 32]) -> Seq<u8> {
    c@ + action_type.spec_encode() + target_hash@ + le_bytes(sequence) + message_hash@
}

/// Checks of a log submission made before its signature is verified.
pub open spec fn log_precheck(p: Pallet, who: u64, c: [u8; 32], sequence: u64, facts: CommunityFacts) -> Option<Error> {
    if active_owner_error(who, facts) is Some {
        active_owner_error(who, facts)
    } else if is_banned(p, c) {
        Some(Error::CommunityBanned)
    } else if !facts.tier.spec_is_paid() {
        Some(Error::FreeTierNotAllowed)
    } else if p.last_sequence@.contains_key(c) && sequence <= p.last_sequence@[c] {
        Some(Error::SequenceNotMonotonic)
    } else if facts.public_key is None {
        Some(Error::BotPublicKeyNotFound)
    } else {
        None
    }
}

/// Whether `n` more logs overflow the community's log storage.
pub open spec fn logs_full(p: Pallet, c: [u8; 32], n: int) -> bool {
    seq_or_empty(p.action_logs@, c).len() + n > p.config.max_logs_per_community
}

/// `q` is `p` after appending one log of `who` at block `now`.
pub open spec fn log_appended(
    p: Pallet,
    q: Pallet,
    who: u64,
    now: u64,
    c: [u8; 32],
    action_type: ActionType,
    target_hash: [u8; 32],
    sequence: u64,
    message_hash: [u8; 32],
    signature: [u8; 64],
) -> bool {
    let log = ActionLog {
        community_id_hash: c, action_type, operator: who, target_hash, sequence, message_hash, signature, block_number: now,
    };
    &&& q.action_logs@ == p.action_logs@.insert(c, q.action_logs@[c])
    &&& q.action_logs@[c]@ == seq_or_empty(p.action_logs@, c).push(log)
    &&& q.last_sequence@ == p.last_sequence@.insert(c, sequence)
    &&& q.events@ == p.events@.push(Event::ActionLogSubmitted { community_id_hash: c, action_type, operator: who, sequence })
    &&& q == (Pallet { action_logs: q.action_logs, last_sequence: q.last_sequence, events: q.events, ..p })
}

/// Whether the sequence numbers of `logs` increase strictly, starting above `prev`.
pub open spec fn increasing_from(prev: Option<u64>, logs: Seq<LogEntry>) -> bool
    decreases logs.len(),
{
    if logs.len() == 0 {
        true
    } else {
        (prev matches Some(l) ==> logs[0].2 > l) && increasing_from(Some(logs[0].2), logs.drop_first())
    }
}

/// Checks of a batch made before its signatures are verified.
pub open spec fn batch_precheck(p: Pallet, who: u64, c: [u8; 32], logs: Seq<LogEntry>, facts: CommunityFacts) -> Option<Error> {
    let last = if p.last_sequence@.contains_key(c) { Some(p.last_sequence@[c]) } else { None };
    if active_owner_error(who, facts) is Some {
        active_owner_error(who, facts)
    } else if is_banned(p, c) {
        Some(Error::CommunityBanned)
    } else if !facts.tier.spec_is_paid() {
        Some(Error::FreeTierNotAllowed)
    } else if logs.len() == 0 {
        Some(Error::EmptyBatch)
    } else if logs.len() > p.config.max_batch_size {
        Some(Error::BatchTooLarge)
    } else if !increasing_from(last, logs) {
        Some(Error::SequenceNotMonotonic)
    } else if facts.public_key is None {
        Some(Error::BotPublicKeyNotFound)
    } else {
        None
    }
}

/// The stored form of a batch submitted by `who` at block `now`.
pub open spec fn batch_logs(c: [u8; 32], who: u64, now: u64, logs: Seq<LogEntry>) -> Seq<ActionLog> {
    logs.map_values(|e: LogEntry| ActionLog {
        community_id_hash: c, action_type: e.0, operator: who, target_hash: e.1, sequence: e.2,
        message_hash: e.3, signature: e.4, block_number: now,
    })
}

/// The logs of `logs` that are at most `max_age` blocks old at block `now`.
pub open spec fn recent_logs(logs: Seq<ActionLog>, now: u64, max_age: u64) -> Seq<ActionLog>
    decreases logs.len(),
{
    if logs.len() == 0 {
        logs
    } else if clamp_u64(now - logs.last().block_number) <= max_age {
        recent_logs(logs.drop_last(), now, max_age).push(logs.last())
    } else {
        recent_logs(logs.drop_last(), now, max_age)
    }
}

/// Clearing keeps exactly the logs at most `max_age` blocks old, in their order:
/// the kept logs are the filter of the old ones by age.
pub proof fn lemma_recent_logs_is_filter(logs: Seq<ActionLog>, now: u64, max_age: u64)
    ensures
        recent_logs(logs, now, max_age) == logs.filter(|l: ActionLog| clamp_u64(now - l.block_number) <= max_age),
    decreases logs.len(),
{
    reveal(Seq::filter);
    if logs.len() > 0 {
        lemma_recent_logs_is_filter(logs.drop_last(), now, max_age);
    }
}

proof fn lemma_recent_len(logs: Seq<ActionLog>, now: u64, max_age: u64)
    ensures
        recent_logs(logs, now, max_age).len() <= logs.len(),
    decreases logs.len(),
{
    if logs.len() > 0 {
        lemma_recent_len(logs.drop_last(), now, max_age);
    }
}

fn push_bytes<const N: usize>(v: &mut Vec<u8>, bytes: &[u8; N])
    ensures
        final(v)@ == old(v)@ + bytes@,
{
    let ghost v0 = v@;
    let mut i: usize = 0;
    while i < N
        invariant
            0 <= i <= N,
            bytes@.len() == N,
            v@ == v0 + bytes@.take(i as int),
        decreases N - i,
    {
        v.push(bytes[i]);
        assert(bytes@.take(i + 1) =~= bytes@.take(i as int).push(bytes@[i as int]));
        i = i + 1;
    }
    assert(bytes@.take(N as int) =~= bytes@);
}

/// The message a bot signs for a log.
pub fn action_log_message(
    c: &[u8; 32],
    action_type: &ActionType,
    target_hash: &[u8; 32],
    sequence: u64,
    message_hash: &[u8; 32],
) -> (m: Vec<u8>)
    ensures
        m@ == log_message(*c, *action_type, *target_hash, sequence, *message_hash),
{
    let mut m: Vec<u8> = Vec::new();
    push_bytes(&mut m, c);
    let enc = action_type.encode();
    let ghost m1 = m@;
    let mut i: usize = 0;
    while i < enc.len()
        invariant
            0 <= i <= enc@.len(),
            m@ == m1 + enc@.take(i as int),
        decreases enc@.len() - i,
    {
        m.push(enc[i]);
        assert(enc@.take(i + 1) =~= enc@.take(i as int).push(enc@[i as int]));
        i = i + 1;
    }
    assert(enc@.take(enc@.len() as int) =~= enc@);
    push_bytes(&mut m, target_hash);
    let le: [u8; 8] = [
        (sequence % 256) as u8,
        ((sequence / 256) % 256) as u8,
        ((sequence / 0x1_0000) % 256) as u8,
        ((sequence / 0x100_0000) % 256) as u8,
        ((sequence / 0x1_0000_0000) % 256) as u8,
        ((sequence / 0x100_0000_0000) % 256) as u8,
        ((sequence / 0x1_0000_0000_0000) % 256) as u8,
        ((sequence / 0x100_0000_0000_0000) % 256) as u8,
    ];
    assert(le@ =~= le_bytes(sequence));
    push_bytes(&mut m, &le);
    push_bytes(&mut m, message_hash);
    assert(m@ =~= log_message(*c, *action_type, *target_hash, sequence, *message_hash));
    m
}

/// Calls `sp_io::crypto::ed25519_verify` on the signature and public key read
/// from raw bytes with `sp_core::ed25519::Signature::from_raw` and
/// `sp_core::ed25519::Public::from_raw`. Nothing is stated of the result: the
/// verifier it runs depends on an extension of the execution environment.
#[verifier::external_body]
fn ed25519_verify(signature: &[u8; 64], message: &Vec<u8>, public_key: &[u8; 32]) -> (ok: bool) {
    let sig = sp_core::ed25519::Signature::from_raw(*signature);
    let pk = sp_core::ed25519::Public::from_raw(*public_key);
    sp_io::crypto::ed25519_verify(&sig, message.as_slice(), &pk)
}

impl Pallet {
    /// A new log's sequence number must exceed the community's last one.
    fn ensure_sequence_monotonic(&self, c: &[u8; 32], sequence: u64) -> (r: Result<(), Error>)
        ensures
            r == (if self.last_sequence@.contains_key(*c) && sequence <= self.last_sequence@[*c] {
                Err::<(), Error>(Error::SequenceNotMonotonic)
            } else {
                Ok(())
            }),
    {
        match self.last_sequence.get(c) {
            Some(last) => if sequence <= *last {
                return Err(Error::SequenceNotMonotonic);
            },
            None => {},
        }
        Ok(())
    }

    fn log_precheck_exec(&self, who: u64, c: &[u8; 32], sequence: u64, facts: &CommunityFacts) -> (r: Result<[u8; 32], Error>)
        ensures
            match log_precheck(*self, who, *c, sequence, *facts) {
                Some(e) => r == Err::<[u8; 32], Error>(e),
                None => r == Ok::<[u8; 32], Error>(facts.public_key->0),
            },
    {
        match ensure_active_bot_owner(who, facts) {
            Err(e) => return Err(e),
            Ok(()) => {},
        }
        match self.ensure_not_banned(c) {
            Err(e) => return Err(e),
            Ok(()) => {},
        }
        if !facts.tier.is_paid() {
            return Err(Error::FreeTierNotAllowed);
        }
        match self.ensure_sequence_monotonic(c, sequence) {
            Err(e) => return Err(e),
            Ok(()) => {},
        }
        match facts.public_key {
            Some(pk) => Ok(pk),
            None => Err(Error::BotPublicKeyNotFound),
        }
    }

    fn log_count(&self, c: &[u8; 32]) -> (n: usize)
        ensures
            n == seq_or_empty(self.action_logs@, *c).len(),
    {
        match self.action_logs.get(c) {
            Some(v) => v.len(),
            None => 0,
        }
    }

    /// A log submission once its signature was checked, `signature_valid`
    /// saying whether it verified.
    pub fn submit_action_log_with_signature(
        &mut self,
        who: u64,
        now: u64,
        community_id_hash: [u8; 32],
        action_type: ActionType,
        target_hash: [u8; 32],
        sequence: u64,
        message_hash: [u8; 32],
        signature: [u8; 64],
        facts: CommunityFacts,
        signature_valid: bool,
    ) -> (r: Result<(), Error>)
        ensures
            r is Err ==> *final(self) == *old(self),
            ({
                let c = community_id_hash;
                if log_precheck(*old(self), who, c, sequence, facts) is Some {
                    r == Err::<(), Error>(log_precheck(*old(self), who, c, sequence, facts)->0)
                } else if !signature_valid {
                    r == Err::<(), Error>(Error::InvalidSignature)
                } else if logs_full(*old(self), c, 1) {
                    r == Err::<(), Error>(Error::LogsFull)
                } else {
                    &&& r is Ok
                    &&& log_appended(*old(self), *final(self), who, now, c, action_type, target_hash, sequence, message_hash, signature)
                }
            }),
            r is Ok ==> (old(self).last_sequence@.contains_key(community_id_hash)
                ==> final(self).last_sequence@[community_id_hash] > old(self).last_sequence@[community_id_hash]),
    {
        match self.log_precheck_exec(who, &community_id_hash, sequence, &facts) {
            Err(e) => return Err(e),
            Ok(_) => {},
        }
        if !signature_valid {
            return Err(Error::InvalidSignature);
        }
        if self.log_count(&community_id_hash) >= self.config.max_logs_per_community as usize {
            return Err(Error::LogsFull);
        }
        let ghost p0 = *self;
        let log = ActionLog {
            community_id_hash,
            action_type,
            operator: who,
            target_hash,
            sequence,
            message_hash,
            signature,
            block_number: now,
        };
        let mut logs = match self.action_logs.remove(&community_id_hash) {
            Some(v) => v,
            None => Vec::new(),
        };
        logs.push(log);
        self.action_logs.insert(community_id_hash, logs);
        proof {
            assert(self.action_logs@ =~= p0.action_logs@.insert(community_id_hash, self.action_logs@[community_id_hash]));
        }
        self.last_sequence.insert(community_id_hash, sequence);
        self.events.push(Event::ActionLogSubmitted { community_id_hash, action_type, operator: who, sequence });
        Ok(())
    }

    /// The owner of the community's active paid bot records a moderation action
    /// signed by the bot, with a sequence number above the last one.
    pub fn submit_action_log(
        &mut self,
        who: u64,
        now: u64,
        community_id_hash: [u8; 32],
        action_type: ActionType,
        target_hash: [u8; 32],
        sequence: u64,
        message_hash: [u8; 32],
        signature: [u8; 64],
        facts: CommunityFacts,
    ) -> (r: Result<(), Error>)
        ensures
            r is Err ==> *final(self) == *old(self),
            ({
                let c = community_id_hash;
                if log_precheck(*old(self), who, c, sequence, facts) is Some {
                    r == Err::<(), Error>(log_precheck(*old(self), who, c, sequence, facts)->0)
                } else {
                    ||| r == Err::<(), Error>(Error::InvalidSignature)
                    ||| (logs_full(*old(self), c, 1) && r == Err::<(), Error>(Error::LogsFull))
                    ||| (!logs_full(*old(self), c, 1) && r is Ok && log_appended(*old(self), *final(self), who, now, c,
                        action_type, target_hash, sequence, message_hash, signature))
                }
            }),
    {
        let pk = match self.log_precheck_exec(who, &community_id_hash, sequence, &facts) {
            Err(e) => return Err(e),
            Ok(pk) => pk,
        };
        let msg = action_log_message(&community_id_hash, &action_type, &target_hash, sequence, &message_hash);
        let valid = ed25519_verify(&signature, &msg, &pk);
        self.submit_action_log_with_signature(who, now, community_id_hash, action_type, target_hash, sequence,
            message_hash, signature, facts, valid)
    }

    fn batch_precheck_exec(&self, who: u64, c: &[u8; 32], logs: &Vec<LogEntry>, facts: &CommunityFacts) -> (r: Result<[u8; 32], Error>)
        ensures
            match batch_precheck(*self, who, *c, logs@, *facts) {
                Some(e) => r == Err::<[u8; 32], Error>(e),
                None => r == Ok::<[u8; 32], Error>(facts.public_key->0),
            },
    {
        match ensure_active_bot_owner(who, facts) {
            Err(e) => return Err(e),
            Ok(()) => {},
        }
        match self.ensure_not_banned(c) {
            Err(e) => return Err(e),
            Ok(()) => {},
        }
        if !facts.tier.is_paid() {
            return Err(Error::FreeTierNotAllowed);
        }
        if logs.len() == 0 {
            return Err(Error::EmptyBatch);
        }
        if logs.len() > self.config.max_batch_size as usize {
            return Err(Error::BatchTooLarge);
        }
        let mut prev: Option<u64> = match self.last_sequence.get(c) {
            Some(l) => Some(*l),
            None => None,
        };
        let ghost prev0 = prev;
        proof {
            assert(logs@.skip(0) =~= logs@);
        }
        let mut i: usize = 0;
        while i < logs.len()
            invariant
                0 <= i <= logs@.len(),
                increasing_from(prev0, logs@) == increasing_from(prev, logs@.skip(i as int)),
                prev0 == (if self.last_sequence@.contains_key(*c) { Some(self.last_sequence@[*c]) } else { None::<u64> }),
                active_owner_error(who, *facts) is None,
                !is_banned(*self, *c),
                facts.tier.spec_is_paid(),
                logs@.len() > 0,
                logs@.len() <= self.config.max_batch_size,
            decreases logs@.len() - i,
        {
            let s = logs[i].2;
            proof {
                let rest = logs@.skip(i as int);
                assert(rest[0] == logs@[i as int]);
                assert(rest.drop_first() =~= logs@.skip(i + 1));
            }
            match prev {
                Some(l) => if !(s > l) {
                    return Err(Error::SequenceNotMonotonic);
                },
                None => {},
            }
            prev = Some(s);
            i = i + 1;
        }
        match facts.public_key {
            Some(pk) => Ok(pk),
            None => Err(Error::BotPublicKeyNotFound),
        }
    }

    /// A batch submission once its signatures were checked, `signatures_valid`
    /// saying whether all of them verified.
    pub fn batch_submit_logs_with_signatures(
        &mut self,
        who: u64,
        now: u64,
        community_id_hash: [u8; 32],
        logs: Vec<LogEntry>,
        facts: CommunityFacts,
        signatures_valid: bool,
    ) -> (r: Result<(), Error>)
        ensures
            r is Err ==> *final(self) == *old(self),
            ({
                let c = community_id_hash;
                if batch_precheck(*old(self), who, c, logs@, facts) is Some {
                    r == Err::<(), Error>(batch_precheck(*old(self), who, c, logs@, facts)->0)
                } else if !signatures_valid {
                    r == Err::<(), Error>(Error::InvalidSignature)
                } else if logs_full(*old(self), c, logs@.len() as int) {
                    r == Err::<(), Error>(Error::LogsFull)
                } else {
                    &&& r is Ok
                    &&& final(self).action_logs@ == old(self).action_logs@.insert(c, final(self).action_logs@[c])
                    &&& final(self).action_logs@[c]@ == seq_or_empty(old(self).action_logs@, c) + batch_logs(c, who, now, logs@)
                    &&& final(self).last_sequence@ == old(self).last_sequence@.insert(c, logs@.last().2)
                    &&& final(self).events@ == old(self).events@.push(Event::BatchLogsSubmitted {
                        community_id_hash: c, count: logs@.len() as u32 })
                    &&& *final(self) == (Pallet {
                        action_logs: final(self).action_logs,
                        last_sequence: final(self).last_sequence,
                        events: final(self).events,
                        ..*old(self)
                    })
                }
            }),
    {
        match self.batch_precheck_exec(who, &community_id_hash, &logs, &facts) {
            Err(e) => return Err(e),
            Ok(_) => {},
        }
        if !signatures_valid {
            return Err(Error::InvalidSignature);
        }
        let existing = self.log_count(&community_id_hash);
        let max = self.config.max_logs_per_community as usize;
        if existing > max || logs.len() > max - existing {
            return Err(Error::LogsFull);
        }
        let ghost p0 = *self;
        let mut stored = match self.action_logs.remove(&community_id_hash) {
            Some(v) => v,
            None => Vec::new(),
        };
        let ghost s0 = stored@;
        let mut i: usize = 0;
        while i < logs.len()
            invariant
                0 <= i <= logs@.len(),
                stored@ == s0 + batch_logs(community_id_hash, who, now, logs@.take(i as int)),
            decreases logs@.len() - i,
        {
            let e = logs[i];
            stored.push(ActionLog {
                community_id_hash,
                action_type: e.0,
                operator: who,
                target_hash: e.1,
                sequence: e.2,
                message_hash: e.3,
                signature: e.4,
                block_number: now,
            });
            assert(batch_logs(community_id_hash, who, now, logs@.take(i + 1)) =~= batch_logs(
                community_id_hash, who, now, logs@.take(i as int)).push(ActionLog {
                community_id_hash,
                action_type: e.0,
                operator: who,
                target_hash: e.1,
                sequence: e.2,
                message_hash: e.3,
                signature: e.4,
                block_number: now,
            }));
            i = i + 1;
        }
        assert(logs@.take(logs@.len() as int) =~= logs@);
        self.action_logs.insert(community_id_hash, stored);
        proof {
            assert(self.action_logs@ =~= p0.action_logs@.insert(community_id_hash, self.action_logs@[community_id_hash]));
        }
        let last = logs[logs.len() - 1].2;
        self.last_sequence.insert(community_id_hash, last);
        let count = logs.len() as u32;
        self.events.push(Event::BatchLogsSubmitted { community_id_hash, count });
        Ok(())
    }

    /// The owner of the community's active paid bot records several signed
    /// actions at once, with strictly increasing sequence numbers above the
    /// last one.
    pub fn batch_submit_logs(
        &mut self,
        who: u64,
        now: u64,
        community_id_hash: [u8; 32],
        logs: Vec<LogEntry>,
        facts: CommunityFacts,
    ) -> (r: Result<(), Error>)
        ensures
            r is Err ==> *final(self) == *old(self),
            ({
                let c = community_id_hash;
                if batch_precheck(*old(self), who, c, logs@, facts) is Some {
                    r == Err::<(), Error>(batch_precheck(*old(self), who, c, logs@, facts)->0)
                } else {
                    ||| r == Err::<(), Error>(Error::InvalidSignature)
                    ||| (logs_full(*old(self), c, logs@.len() as int) && r == Err::<(), Error>(Error::LogsFull))
                    ||| (!logs_full(*old(self), c, logs@.len() as int) && r is Ok
                        && final(self).action_logs@ == old(self).action_logs@.insert(c, final(self).action_logs@[c])
                        && final(self).action_logs@[c]@ == seq_or_empty(old(self).action_logs@, c) + batch_logs(c, who, now, logs@)
                        && final(self).last_sequence@ == old(self).last_sequence@.insert(c, logs@.last().2)
                        && final(self).events@ == old(self).events@.push(Event::BatchLogsSubmitted {
                            community_id_hash: c, count: logs@.len() as u32 })
                        && *final(self) == (Pallet {
                            action_logs: final(self).action_logs,
                            last_sequence: final(self).last_sequence,
                            events: final(self).events,
                            ..*old(self)
                        }))
                }
            }),
    {
        let pk = match self.batch_precheck_exec(who, &community_id_hash, &logs, &facts) {
            Err(e) => return Err(e),
            Ok(pk) => pk,
        };
        let mut all_valid = true;
        let mut i: usize = 0;
        while i < logs.len()
            invariant
                0 <= i <= logs@.len(),
            decreases logs@.len() - i,
        {
            let e = logs[i];
            let msg = action_log_message(&community_id_hash, &e.0, &e.1, e.2, &e.3);
            if !ed25519_verify(&e.4, &msg, &pk) {
                all_valid = false;
                break;
            }
            i = i + 1;
        }
        self.batch_submit_logs_with_signatures(who, now, community_id_hash, logs, facts, all_valid)
    }

    /// Anyone removes the logs of a community older than `max_age_blocks` at
    /// block `now`, when the bot's tier lets logs expire and `max_age_blocks`
    /// covers the tier's retention.
    pub fn clear_expired_logs(&mut self, now: u64, community_id_hash: [u8; 32], max_age_blocks: u64, facts: CommunityFacts) -> (r: Result<(), Error>)
        ensures
            r is Err ==> *final(self) == *old(self),
            ({
                let c = community_id_hash;
                let logs = seq_or_empty(old(self).action_logs@, c);
                let kept = recent_logs(logs, now, max_age_blocks);
                let cleared = (logs.len() - kept.len()) as u32;
                if max_age_blocks == 0 {
                    r == Err::<(), Error>(Error::InvalidMaxAge)
                } else if facts.gate.log_retention_days == 0
                    || max_age_blocks < clamp_u32(facts.gate.log_retention_days * old(self).config.blocks_per_day) {
                    r == Err::<(), Error>(Error::RetentionPeriodNotExpired)
                } else if cleared == 0 {
                    r == Err::<(), Error>(Error::NoLogsToClear)
                } else {
                    &&& r is Ok
                    &&& final(self).action_logs@ == old(self).action_logs@.insert(c, final(self).action_logs@[c])
                    &&& final(self).action_logs@[c]@ == kept
                    &&& final(self).events@ == old(self).events@.push(Event::ExpiredLogsCleared { community_id_hash: c, cleared })
                    &&& *final(self) == (Pallet {
                        action_logs: final(self).action_logs,
                        events: final(self).events,
                        ..*old(self)
                    })
                }
            }),
    {
        if max_age_blocks == 0 {
            return Err(Error::InvalidMaxAge);
        }
        if facts.gate.log_retention_days == 0 {
            return Err(Error::RetentionPeriodNotExpired);
        }
        let min_retention = crate::arith::sat_mul_u32(facts.gate.log_retention_days as u32, self.config.blocks_per_day);
        if max_age_blocks < min_retention as u64 {
            return Err(Error::RetentionPeriodNotExpired);
        }
        let ghost logs0 = seq_or_empty(self.action_logs@, community_id_hash);
        let mut kept: Vec<ActionLog> = Vec::new();
        let n = match self.action_logs.get(&community_id_hash) {
            Some(v) => {
                let mut i: usize = 0;
                while i < v.len()
                    invariant
                        0 <= i <= v@.len(),
                        v@ == logs0,
                        kept@ == recent_logs(logs0.take(i as int), now, max_age_blocks),
                    decreases v@.len() - i,
                {
                    let l = v[i];
                    assert(logs0.take(i + 1).drop_last() =~= logs0.take(i as int));
                    if now.saturating_sub(l.block_number) <= max_age_blocks {
                        kept.push(l);
                    }
                    i = i + 1;
                }
                assert(logs0.take(logs0.len() as int) =~= logs0);
                v.len()
            },
            None => {
                assert(recent_logs(logs0, now, max_age_blocks) =~= Seq::<ActionLog>::empty());
                0
            },
        };
        proof {
            lemma_recent_len(logs0, now, max_age_blocks);
        }
        let cleared = #[verifier::truncate] ((n - kept.len()) as u32);
        if cleared == 0 {
            return Err(Error::NoLogsToClear);
        }
        let ghost p0 = *self;
        self.action_logs.insert(community_id_hash, kept);
        self.events.push(Event::ExpiredLogsCleared { community_id_hash, cleared });
        Ok(())
    }
}

} // verus!
