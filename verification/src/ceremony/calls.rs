//! Recording, revoking and forcing the renewal of ceremonies, and the enclave
//! whitelist.
use vstd::prelude::*;
use crate::arith::clamp_u64;
use crate::grouprobot::CeremonyStatus;
use crate::kvmap::{seq_or_empty, KeyEq};
use super::laws::{lemma_record_keeps_pointers, pointer_of_key, pointers_agree};
use super::{active_consistent, BotFacts, CeremonyEnclaveInfo, CeremonyRecord, Error, Event, Pallet};

verus! {

/// Why recording a ceremony fails, if it does.
pub open spec fn record_error(
    p: Pallet,
    who: u64,
    ceremony_hash: [u8; 32],
    ceremony_mrenclave: [u8; 32],
    k: u8,
    n: u8,
    bot_public_key: [u8; 32],
    participants: Seq<[u8; 32]>,
    bot: BotFacts,
) -> Option<Error> {
    if bot.owner is None {
        Some(Error::BotNotFound)
    } else if bot.owner->0 != who {
        Some(Error::NotBotOwner)
    } else if !bot.active {
        Some(Error::BotNotActive)
    } else if !bot.tier.spec_is_paid() {
        Some(Error::FreeTierNotAllowed)
    } else if bot.public_key matches Some(pk) && pk != bot_public_key {
        Some(Error::BotPublicKeyMismatch)
    } else if p.ceremonies@.contains_key(ceremony_hash) {
        Some(Error::CeremonyAlreadyExists)
    } else if !(k > 0 && k <= n && n <= 254) {
        Some(Error::InvalidShamirParams)
    } else if participants.len() == 0 {
        Some(Error::EmptyParticipants)
    } else if participants.len() < k {
        Some(Error::InsufficientParticipants)
    } else if participants.len() > n {
        Some(Error::ParticipantCountExceedsN)
    } else if has_duplicate(participants) {
        Some(Error::DuplicateParticipant)
    } else if !p.approved_enclaves@.contains_key(ceremony_mrenclave) {
        Some(Error::EnclaveNotApproved)
    } else if participants.len() > p.config.max_participants {
        Some(Error::TooManyParticipants)
    } else {
        None
    }
}

/// Whether two entries of `s` are equal.
pub open spec fn has_duplicate(s: Seq<[u8; 32]>) -> bool {
    exists|i: int, j: int| 0 <= i < j < s.len() && s[i] == s[j]
}

/// A bot's ceremony history after `h` is recorded: appended at the end, the
/// oldest entry dropped first when the history is full.
pub open spec fn history_after(old_history: Seq<[u8; 32]>, h: [u8; 32], max: u32) -> Seq<[u8; 32]> {
    if old_history.len() >= max && old_history.len() > 0 {
        old_history.drop_first().push(h)
    } else {
        old_history.push(h)
    }
}

/// Whether two enclaves of the list are equal.
fn find_duplicate(v: &Vec<[u8; 32]>) -> (r: bool)
    ensures
        r == has_duplicate(v@),
{
    let mut i: usize = 0;
    while i < v.len()
        invariant
            0 <= i <= v@.len(),
            forall|a: int, b: int| 0 <= a < b < v@.len() && a < i ==> v@[a] != v@[b],
        decreases v@.len() - i,
    {
        let mut j: usize = i + 1;
        while j < v.len()
            invariant
                i < v@.len(),
                i + 1 <= j <= v@.len(),
                forall|a: int, b: int| 0 <= a < b < v@.len() && a < i ==> v@[a] != v@[b],
                forall|b: int| i < b < j ==> v@[i as int] != v@[b],
            decreases v@.len() - j,
        {
            if v[i].key_eq(&v[j]) {
                return true;
            }
            j = j + 1;
        }
        i = i + 1;
    }
    false
}

/// The active ceremony of a bot before a new one is recorded.
pub open spec fn previous_active(p: Pallet, bot_public_key: [u8; 32]) -> Option<[u8; 32]> {
    if p.active_ceremony@.contains_key(bot_public_key) {
        Some(p.active_ceremony@[bot_public_key])
    } else {
        None
    }
}

/// Ceremonies with the bot's previous active ceremony marked as replaced by `new_hash`.
pub open spec fn supersede(
    m: Map<[u8; 32], CeremonyRecord>,
    old: Option<[u8; 32]>,
    new_hash: [u8; 32],
) -> Map<[u8; 32], CeremonyRecord> {
    match old {
        Some(h) => if m.contains_key(h) {
            m.insert(h, CeremonyRecord { status: CeremonyStatus::Superseded { replaced_by: new_hash }, ..m[h] })
        } else {
            m
        },
        None => m,
    }
}

/// Ceremonies with `h` marked revoked at `now`.
pub open spec fn revoked(m: Map<[u8; 32], CeremonyRecord>, h: [u8; 32], now: u64) -> Map<[u8; 32], CeremonyRecord> {
    m.insert(h, CeremonyRecord { status: CeremonyStatus::Revoked { revoked_at: now }, ..m[h] })
}

/// Active ceremonies with `h` dropped where it is the active one of its bot.
pub open spec fn drop_if_active(a: Map<[u8; 32], [u8; 32]>, pk: [u8; 32], h: [u8; 32]) -> Map<[u8; 32], [u8; 32]> {
    if a.contains_key(pk) && a[pk] == h {
        a.remove(pk)
    } else {
        a
    }
}

impl Pallet {
    /// The owner of a paid-tier bot records a ceremony run in an approved
    /// enclave with a `k`-of-`n` split over the given participants; it becomes
    /// the bot's active ceremony, replacing the previous one.
    pub fn record_ceremony(
        &mut self,
        who: u64,
        now: u64,
        ceremony_hash: [u8; 32],
        ceremony_mrenclave: [u8; 32],
        k: u8,
        n: u8,
        bot_public_key: [u8; 32],
        participant_enclaves: Vec<[u8; 32]>,
        bot_id_hash: [u8; 32],
        bot: BotFacts,
    ) -> (r: Result<(), Error>)
        ensures
            r is Err ==> *final(self) == *old(self),
            ({
                let e = record_error(*old(self), who, ceremony_hash, ceremony_mrenclave, k, n, bot_public_key,
                    participant_enclaves@, bot);
                let prev = previous_active(*old(self), bot_public_key);
                match e {
                    Some(err) => r == Err::<(), Error>(err),
                    None => {
                        &&& r is Ok
                        &&& final(self).ceremonies@ == supersede(old(self).ceremonies@, prev, ceremony_hash).insert(
                            ceremony_hash,
                            CeremonyRecord {
                                ceremony_mrenclave,
                                k,
                                n,
                                bot_public_key,
                                participant_count: participant_enclaves@.len() as u8,
                                participant_enclaves,
                                initiator: who,
                                created_at: now,
                                status: CeremonyStatus::Active,
                                expires_at: clamp_u64(now + old(self).config.ceremony_validity_blocks),
                                is_re_ceremony: prev is Some,
                                supersedes: prev,
                                bot_id_hash,
                            },
                        )
                        &&& final(self).active_ceremony@ == old(self).active_ceremony@.insert(bot_public_key, ceremony_hash)
                        &&& final(self).ceremony_history@ == old(self).ceremony_history@.insert(
                            bot_public_key, final(self).ceremony_history@[bot_public_key])
                        &&& final(self).ceremony_history@[bot_public_key]@ == history_after(
                            seq_or_empty(old(self).ceremony_history@, bot_public_key), ceremony_hash,
                            old(self).config.max_ceremony_history)
                        &&& final(self).ceremony_count == clamp_u64(old(self).ceremony_count + 1)
                        &&& final(self).events@ == (match prev {
                            Some(oh) => old(self).events@.push(Event::CeremonySuperseded { old_hash: oh, new_hash: ceremony_hash }),
                            None => old(self).events@,
                        }).push(Event::CeremonyRecorded { ceremony_hash, bot_public_key, k, n })
                        &&& final(self).config == old(self).config
                        &&& final(self).approved_enclaves == old(self).approved_enclaves
                    },
                }
            }),
            active_consistent(*old(self)) ==> active_consistent(*final(self)),
            pointers_agree(*old(self)) && pointer_of_key(*old(self), bot_public_key) ==> pointers_agree(*final(self)),
    {
        let owner = match bot.owner {
            Some(o) => o,
            None => return Err(Error::BotNotFound),
        };
        if owner != who {
            return Err(Error::NotBotOwner);
        }
        if !bot.active {
            return Err(Error::BotNotActive);
        }
        if !bot.tier.is_paid() {
            return Err(Error::FreeTierNotAllowed);
        }
        match bot.public_key {
            Some(pk) => {
                if !pk.key_eq(&bot_public_key) {
                    return Err(Error::BotPublicKeyMismatch);
                }
            },
            None => {},
        }
        if self.ceremonies.contains_key(&ceremony_hash) {
            return Err(Error::CeremonyAlreadyExists);
        }
        if !(k > 0 && k <= n && n <= 254) {
            return Err(Error::InvalidShamirParams);
        }
        if participant_enclaves.len() == 0 {
            return Err(Error::EmptyParticipants);
        }
        if participant_enclaves.len() < k as usize {
            return Err(Error::InsufficientParticipants);
        }
        if participant_enclaves.len() > n as usize {
            return Err(Error::ParticipantCountExceedsN);
        }
        if find_duplicate(&participant_enclaves) {
            return Err(Error::DuplicateParticipant);
        }
        if !self.approved_enclaves.contains_key(&ceremony_mrenclave) {
            return Err(Error::EnclaveNotApproved);
        }
        if participant_enclaves.len() > self.config.max_participants as usize {
            return Err(Error::TooManyParticipants);
        }
        let ghost p0 = *self;
        let participant_count = #[verifier::truncate] (participant_enclaves.len() as u8);
        let expires_at = now.saturating_add(self.config.ceremony_validity_blocks);
        let prev = self.get_active_ceremony(&bot_public_key);
        match prev {
            Some(oh) => {
                match self.ceremonies.remove(&oh) {
                    Some(old_rec) => {
                        let mut rec = old_rec;
                        rec.status = CeremonyStatus::Superseded { replaced_by: ceremony_hash };
                        self.ceremonies.insert(oh, rec);
                        assert(self.ceremonies@ =~= supersede(p0.ceremonies@, prev, ceremony_hash));
                    },
                    None => {
                        assert(self.ceremonies@ =~= supersede(p0.ceremonies@, prev, ceremony_hash));
                    },
                }
                self.events.push(Event::CeremonySuperseded { old_hash: oh, new_hash: ceremony_hash });
            },
            None => {},
        }
        let record = CeremonyRecord {
            ceremony_mrenclave,
            k,
            n,
            bot_public_key,
            participant_count,
            participant_enclaves,
            initiator: who,
            created_at: now,
            status: CeremonyStatus::Active,
            expires_at,
            is_re_ceremony: prev.is_some(),
            supersedes: prev,
            bot_id_hash,
        };
        self.ceremonies.insert(ceremony_hash, record);
        self.active_ceremony.insert(bot_public_key, ceremony_hash);
        let mut history = match self.ceremony_history.remove(&bot_public_key) {
            Some(v) => v,
            None => Vec::new(),
        };
        if history.len() >= self.config.max_ceremony_history as usize && history.len() > 0 {
            let _ = history.remove(0);
        }
        history.push(ceremony_hash);
        self.ceremony_history.insert(bot_public_key, history);
        proof {
            assert(self.ceremony_history@ =~= p0.ceremony_history@.insert(bot_public_key, self.ceremony_history@[bot_public_key]));
        }
        self.ceremony_count = self.ceremony_count.saturating_add(1);
        self.events.push(Event::CeremonyRecorded { ceremony_hash, bot_public_key, k, n });
        proof {
            if pointers_agree(p0) && pointer_of_key(p0, bot_public_key) {
                lemma_record_keeps_pointers(p0, *self, bot_public_key, ceremony_hash, self.ceremonies@[ceremony_hash]);
            }
            if active_consistent(p0) {
                let cer = self.ceremonies@;
                let act = self.active_ceremony@;
                assert forall|pk: [u8; 32]| #[trigger] act.contains_key(pk) implies ({
                    let h = act[pk];
                    &&& cer.contains_key(h)
                    &&& cer[h].status == CeremonyStatus::Active
                    &&& cer[h].bot_public_key == pk
                }) by {
                    if pk != bot_public_key {
                        let h = p0.active_ceremony@[pk];
                        assert(p0.ceremonies@.contains_key(h));
                        assert(p0.ceremonies@[h].bot_public_key == pk);
                        if prev is Some {
                            assert(p0.ceremonies@[prev->0].bot_public_key == bot_public_key);
                        }
                    }
                }
                assert forall|h: [u8; 32]| #[trigger] cer.contains_key(h) && cer[h].status == CeremonyStatus::Active implies ({
                    let pk = cer[h].bot_public_key;
                    &&& act.contains_key(pk)
                    &&& act[pk] == h
                }) by {
                    if h != ceremony_hash && !(prev == Some(h)) {
                        assert(p0.ceremonies@.contains_key(h));
                        assert(p0.ceremonies@[h] == cer[h]);
                        let pk = cer[h].bot_public_key;
                        assert(p0.active_ceremony@.contains_key(pk));
                        if pk == bot_public_key {
                            assert(prev == Some(h));
                        }
                    }
                }
            }
        }
        Ok(())
    }

    fn revoke_checked(&mut self, now: u64, ceremony_hash: [u8; 32], forced: bool) -> (r: Result<(), Error>)
        ensures
            r is Err ==> *final(self) == *old(self),
            ({
                let rec = old(self).ceremonies@[ceremony_hash];
                if !old(self).ceremonies@.contains_key(ceremony_hash) {
                    r == Err::<(), Error>(Error::CeremonyNotFound)
                } else if !(rec.status is Active) {
                    r == Err::<(), Error>(Error::CeremonyNotActive)
                } else {
                    &&& r is Ok
                    &&& final(self).ceremonies@ == revoked(old(self).ceremonies@, ceremony_hash, now)
                    &&& final(self).active_ceremony@ == drop_if_active(old(self).active_ceremony@, rec.bot_public_key, ceremony_hash)
                    &&& final(self).events@ == old(self).events@.push(if forced {
                        Event::ForcedReCeremony { ceremony_hash }
                    } else {
                        Event::CeremonyRevoked { ceremony_hash }
                    })
                    &&& *final(self) == (Pallet {
                        ceremonies: final(self).ceremonies,
                        active_ceremony: final(self).active_ceremony,
                        events: final(self).events,
                        ..*old(self)
                    })
                }
            }),
            active_consistent(*old(self)) ==> active_consistent(*final(self)),
    {
        let ghost p0 = *self;
        let (status, pk) = match self.ceremonies.get(&ceremony_hash) {
            Some(r) => (r.status, r.bot_public_key),
            None => return Err(Error::CeremonyNotFound),
        };
        match status {
            CeremonyStatus::Active => {},
            _ => return Err(Error::CeremonyNotActive),
        }
        let mut rec = match self.ceremonies.remove(&ceremony_hash) {
            Some(r) => r,
            None => return Err(Error::CeremonyNotFound),
        };
        rec.status = CeremonyStatus::Revoked { revoked_at: now };
        self.ceremonies.insert(ceremony_hash, rec);
        assert(self.ceremonies@ =~= revoked(p0.ceremonies@, ceremony_hash, now));
        let is_active = match self.active_ceremony.get(&pk) {
            Some(h) => h.key_eq(&ceremony_hash),
            None => false,
        };
        if is_active {
            self.active_ceremony.remove(&pk);
        }
        assert(self.active_ceremony@ =~= drop_if_active(p0.active_ceremony@, pk, ceremony_hash));
        if forced {
            self.events.push(Event::ForcedReCeremony { ceremony_hash });
        } else {
            self.events.push(Event::CeremonyRevoked { ceremony_hash });
        }
        proof {
            if active_consistent(p0) {
                let cer = self.ceremonies@;
                let act = self.active_ceremony@;
                assert forall|q: [u8; 32]| #[trigger] act.contains_key(q) implies ({
                    let h = act[q];
                    &&& cer.contains_key(h)
                    &&& cer[h].status == CeremonyStatus::Active
                    &&& cer[h].bot_public_key == q
                }) by {
                    let h = p0.active_ceremony@[q];
                    assert(p0.ceremonies@[h].bot_public_key == q);
                }
                assert forall|h: [u8; 32]| #[trigger] cer.contains_key(h) && cer[h].status == CeremonyStatus::Active implies ({
                    let q = cer[h].bot_public_key;
                    &&& act.contains_key(q)
                    &&& act[q] == h
                }) by {
                    assert(p0.ceremonies@[h] == cer[h]);
                }
            }
        }
        Ok(())
    }

    /// Governance revokes an active ceremony; it stops being its bot's active
    /// ceremony. An expired, superseded or revoked ceremony is refused.
    pub fn revoke_ceremony(&mut self, now: u64, ceremony_hash: [u8; 32]) -> (r: Result<(), Error>)
        ensures
            r is Err ==> *final(self) == *old(self),
            ({
                let rec = old(self).ceremonies@[ceremony_hash];
                if !old(self).ceremonies@.contains_key(ceremony_hash) {
                    r == Err::<(), Error>(Error::CeremonyNotFound)
                } else if !(rec.status is Active) {
                    r == Err::<(), Error>(Error::CeremonyNotActive)
                } else {
                    &&& r is Ok
                    &&& final(self).ceremonies@ == revoked(old(self).ceremonies@, ceremony_hash, now)
                    &&& final(self).active_ceremony@ == drop_if_active(old(self).active_ceremony@, rec.bot_public_key, ceremony_hash)
                    &&& final(self).events@ == old(self).events@.push(Event::CeremonyRevoked { ceremony_hash })
                    &&& *final(self) == (Pallet {
                        ceremonies: final(self).ceremonies,
                        active_ceremony: final(self).active_ceremony,
                        events: final(self).events,
                        ..*old(self)
                    })
                }
            }),
            active_consistent(*old(self)) ==> active_consistent(*final(self)),
    {
        self.revoke_checked(now, ceremony_hash, false)
    }

    /// Governance revokes an active ceremony after a security incident, so
    /// that the bot must run a new one.
    pub fn force_re_ceremony(&mut self, now: u64, ceremony_hash: [u8; 32]) -> (r: Result<(), Error>)
        ensures
            r is Err ==> *final(self) == *old(self),
            ({
                let rec = old(self).ceremonies@[ceremony_hash];
                if !old(self).ceremonies@.contains_key(ceremony_hash) {
                    r == Err::<(), Error>(Error::CeremonyNotFound)
                } else if !(rec.status is Active) {
                    r == Err::<(), Error>(Error::CeremonyNotActive)
                } else {
                    &&& r is Ok
                    &&& final(self).ceremonies@ == revoked(old(self).ceremonies@, ceremony_hash, now)
                    &&& final(self).active_ceremony@ == drop_if_active(old(self).active_ceremony@, rec.bot_public_key, ceremony_hash)
                    &&& final(self).events@ == old(self).events@.push(Event::ForcedReCeremony { ceremony_hash })
                    &&& *final(self) == (Pallet {
                        ceremonies: final(self).ceremonies,
                        active_ceremony: final(self).active_ceremony,
                        events: final(self).events,
                        ..*old(self)
                    })
                }
            }),
            active_consistent(*old(self)) ==> active_consistent(*final(self)),
    {
        self.revoke_checked(now, ceremony_hash, true)
    }

    /// Governance approves an enclave for ceremonies, with a description of at
    /// most 128 bytes.
    pub fn approve_ceremony_enclave(&mut self, now: u64, mrenclave: [u8; 32], version: u32, description: Vec<u8>) -> (r: Result<(), Error>)
        ensures
            r is Err ==> *final(self) == *old(self),
            old(self).approved_enclaves@.contains_key(mrenclave) ==> r == Err::<(), Error>(Error::EnclaveAlreadyApproved),
            !old(self).approved_enclaves@.contains_key(mrenclave) && description@.len() > 128
                ==> r == Err::<(), Error>(Error::DescriptionTooLong),
            !old(self).approved_enclaves@.contains_key(mrenclave) && description@.len() <= 128 ==> {
                &&& r is Ok
                &&& final(self).approved_enclaves@ == old(self).approved_enclaves@.insert(mrenclave,
                    CeremonyEnclaveInfo { version, approved_at: now, description })
                &&& final(self).events@ == old(self).events@.push(Event::EnclaveApproved { mrenclave, version })
                &&& *final(self) == (Pallet {
                    approved_enclaves: final(self).approved_enclaves,
                    events: final(self).events,
                    ..*old(self)
                })
            },
    {
        if self.approved_enclaves.contains_key(&mrenclave) {
            return Err(Error::EnclaveAlreadyApproved);
        }
        if description.len() > 128 {
            return Err(Error::DescriptionTooLong);
        }
        self.approved_enclaves.insert(mrenclave, CeremonyEnclaveInfo { version, approved_at: now, description });
        self.events.push(Event::EnclaveApproved { mrenclave, version });
        Ok(())
    }

    /// Governance takes an enclave off the ceremony whitelist.
    pub fn remove_ceremony_enclave(&mut self, mrenclave: [u8; 32]) -> (r: Result<(), Error>)
        ensures
            r is Err ==> *final(self) == *old(self),
            !old(self).approved_enclaves@.contains_key(mrenclave) ==> r == Err::<(), Error>(Error::EnclaveNotFound),
            old(self).approved_enclaves@.contains_key(mrenclave) ==> {
                &&& r is Ok
                &&& final(self).approved_enclaves@ == old(self).approved_enclaves@.remove(mrenclave)
                &&& final(self).events@ == old(self).events@.push(Event::EnclaveRemoved { mrenclave })
                &&& *final(self) == (Pallet {
                    approved_enclaves: final(self).approved_enclaves,
                    events: final(self).events,
                    ..*old(self)
                })
            },
    {
        if !self.approved_enclaves.contains_key(&mrenclave) {
            return Err(Error::EnclaveNotFound);
        }
        self.approved_enclaves.remove(&mrenclave);
        self.events.push(Event::EnclaveRemoved { mrenclave });
        Ok(())
    }
}

} // verus!
