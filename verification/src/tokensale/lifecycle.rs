//! Starting, ending and cancelling rounds, and the per-block expiry scan.
use vstd::prelude::*;

use crate::weights::{DbWeight, Weight};
use super::{raised_native, seq_without, vec_remove_all, Effect, EntityInfo, Error, Event, Pallet, RoundStatus, SaleMode, SaleRound};

verus! {

/// Effects that release the unsold part of a round, if any.
pub open spec fn release_unsold(round: SaleRound) -> Seq<Effect> {
    if round.remaining_amount > 0 {
        seq![Effect::UnreserveTokens { entity_id: round.entity_id, amount: round.remaining_amount, require_full: false }]
    } else {
        Seq::empty()
    }
}

/// Whether a round raised less than its soft cap.
pub open spec fn soft_cap_missed(round: SaleRound, raised: u128) -> bool {
    round.soft_cap > 0 && raised < round.soft_cap
}

/// A round closed at block `now`: cancelled when it missed its soft cap, ended
/// otherwise; the unsold tokens are released either way.
pub open spec fn closed_round(round: SaleRound, raised: u128, now: u64) -> SaleRound {
    if soft_cap_missed(round, raised) {
        SaleRound { remaining_amount: 0, status: RoundStatus::Cancelled, cancelled_at: Some(now), ..round }
    } else {
        SaleRound { remaining_amount: 0, status: RoundStatus::Ended, ..round }
    }
}

/// Whether the expiry scan ends a round at block `now`.
pub open spec fn expires(rounds: Map<u64, SaleRound>, id: u64, now: u64) -> bool {
    rounds.contains_key(id) && rounds[id].status is Active && now > rounds[id].end_block
}

/// State carried through the expiry scan.
pub struct ScanAcc {
    pub rounds: Map<u64, SaleRound>,
    pub effects: Seq<Effect>,
    pub events: Seq<Event>,
    pub kept: Seq<u64>,
    pub weight: Weight,
}

/// The expiry scan's handling of one watched round.
pub open spec fn scan_step(acc: ScanAcc, id: u64, now: u64, raised: Map<(u64, Option<u64>), u128>, db: DbWeight, max_active: u32) -> ScanAcc {
    let w = acc.weight.spec_saturating_add(db.spec_reads_writes(1, 0));
    if expires(acc.rounds, id, now) {
        let round = acc.rounds[id];
        let got = crate::kvmap::get_or(raised, (id, None), 0u128);
        ScanAcc {
            rounds: acc.rounds.insert(id, closed_round(round, got, now)),
            effects: acc.effects + release_unsold(round),
            events: acc.events.push(
                if soft_cap_missed(round, got) {
                    Event::SoftCapNotMet { round_id: id, raised: got, soft_cap: round.soft_cap }
                } else {
                    Event::SaleAutoEnded { round_id: id, sold_amount: round.sold_amount, participants_count: round.participants_count }
                },
            ),
            kept: acc.kept,
            weight: w.spec_saturating_add(db.spec_reads_writes(1, 3)),
        }
    } else {
        ScanAcc {
            kept: if acc.kept.len() < max_active { acc.kept.push(id) } else { acc.kept },
            weight: w,
            ..acc
        }
    }
}

/// The expiry scan over watched rounds, in order.
pub open spec fn scan(acc: ScanAcc, ids: Seq<u64>, now: u64, raised: Map<(u64, Option<u64>), u128>, db: DbWeight, max_active: u32) -> ScanAcc
    decreases ids.len(),
{
    if ids.len() == 0 {
        acc
    } else {
        scan_step(scan(acc, ids.drop_last(), now, raised, db, max_active), ids.last(), now, raised, db, max_active)
    }
}

impl Pallet {
    fn db_weight(&self) -> (d: DbWeight)
        ensures
            d == (DbWeight { read: self.config.db_read_weight, write: self.config.db_write_weight }),
    {
        DbWeight { read: self.config.db_read_weight, write: self.config.db_write_weight }
    }

    /// The creator starts a round that has a payment option (and, for a Dutch
    /// auction, both prices): the whole supply is reserved and the round is
    /// watched for expiry.
    pub fn start_sale(&mut self, who: u64, round_id: u64, entity: EntityInfo) -> (r: Result<Vec<Effect>, Error>)
        ensures
            r is Err ==> *final(self) == *old(self),
            !old(self).sale_rounds@.contains_key(round_id) ==> r == Err::<Vec<Effect>, Error>(Error::RoundNotFound),
            old(self).sale_rounds@.contains_key(round_id) ==> {
                let round = old(self).sale_rounds@[round_id];
                if round.creator != who {
                    r == Err::<Vec<Effect>, Error>(Error::Unauthorized)
                } else if entity.locked {
                    r == Err::<Vec<Effect>, Error>(Error::EntityLocked)
                } else if !(round.status is NotStarted) {
                    r == Err::<Vec<Effect>, Error>(Error::InvalidRoundStatus)
                } else if round.payment_options_count == 0 {
                    r == Err::<Vec<Effect>, Error>(Error::NoPaymentOptions)
                } else if round.mode is DutchAuction && (round.dutch_start_price is None || round.dutch_end_price is None) {
                    r == Err::<Vec<Effect>, Error>(Error::DutchAuctionNotConfigured)
                } else if old(self).active_rounds@.len() >= old(self).config.max_active_rounds {
                    r == Err::<Vec<Effect>, Error>(Error::ActiveRoundsFull)
                } else {
                    &&& r matches Ok(effects) && effects@ == seq![Effect::ReserveTokens {
                        entity_id: round.entity_id, amount: round.total_supply }]
                    &&& final(self).sale_rounds@ == old(self).sale_rounds@.insert(round_id, SaleRound {
                        status: RoundStatus::Active, ..round })
                    &&& final(self).active_rounds@ == old(self).active_rounds@.push(round_id)
                    &&& final(self).events@ == old(self).events@.push(Event::SaleRoundStarted { round_id })
                    &&& *final(self) == (Pallet {
                        sale_rounds: final(self).sale_rounds,
                        active_rounds: final(self).active_rounds,
                        events: final(self).events,
                        ..*old(self)
                    })
                }
            },
    {
        let round = match self.sale_rounds.get(&round_id) {
            Some(r) => *r,
            None => return Err(Error::RoundNotFound),
        };
        if round.creator != who {
            return Err(Error::Unauthorized);
        }
        if entity.locked {
            return Err(Error::EntityLocked);
        }
        if round.status != RoundStatus::NotStarted {
            return Err(Error::InvalidRoundStatus);
        }
        if round.payment_options_count == 0 {
            return Err(Error::NoPaymentOptions);
        }
        if round.mode == SaleMode::DutchAuction {
            if !(round.dutch_start_price.is_some() && round.dutch_end_price.is_some()) {
                return Err(Error::DutchAuctionNotConfigured);
            }
        }
        if self.active_rounds.len() >= self.config.max_active_rounds as usize {
            return Err(Error::ActiveRoundsFull);
        }
        let mut effects: Vec<Effect> = Vec::new();
        effects.push(Effect::ReserveTokens { entity_id: round.entity_id, amount: round.total_supply });
        let mut updated = round;
        updated.status = RoundStatus::Active;
        self.sale_rounds.insert(round_id, updated);
        self.active_rounds.push(round_id);
        self.events.push(Event::SaleRoundStarted { round_id });
        Ok(effects)
    }

    /// Closes a round at block `now`, as `end_sale` and the expiry scan do.
    fn close_round(&mut self, round_id: u64, round: SaleRound, now: u64, effects: &mut Vec<Effect>) -> (missed: bool)
        requires
            old(self).sale_rounds@.contains_key(round_id),
            old(self).sale_rounds@[round_id] == round,
        ensures
            missed == soft_cap_missed(round, raised_native(*old(self), round_id)),
            final(self).sale_rounds@ == old(self).sale_rounds@.insert(round_id, closed_round(round, raised_native(*old(self), round_id), now)),
            final(effects)@ == old(effects)@ + release_unsold(round),
            *final(self) == (Pallet { sale_rounds: final(self).sale_rounds, ..*old(self) }),
    {
        let raised = self.raised_native_of(round_id);
        let ghost e0 = effects@;
        if round.remaining_amount != 0 {
            effects.push(Effect::UnreserveTokens { entity_id: round.entity_id, amount: round.remaining_amount, require_full: false });
        }
        assert(effects@ =~= e0 + release_unsold(round));
        let mut updated = round;
        updated.remaining_amount = 0;
        let missed = round.soft_cap != 0 && raised < round.soft_cap;
        if missed {
            updated.status = RoundStatus::Cancelled;
            updated.cancelled_at = Some(now);
        } else {
            updated.status = RoundStatus::Ended;
        }
        self.sale_rounds.insert(round_id, updated);
        missed
    }

    /// The creator ends an active or paused round once its time is up or it sold
    /// out. A round that missed its soft cap is cancelled instead, so that
    /// subscribers can claim refunds.
    pub fn end_sale(&mut self, who: u64, now: u64, round_id: u64, entity: EntityInfo) -> (r: Result<Vec<Effect>, Error>)
        ensures
            r is Err ==> *final(self) == *old(self),
            !old(self).sale_rounds@.contains_key(round_id) ==> r == Err::<Vec<Effect>, Error>(Error::RoundNotFound),
            old(self).sale_rounds@.contains_key(round_id) ==> {
                let round = old(self).sale_rounds@[round_id];
                let raised = raised_native(*old(self), round_id);
                if round.creator != who {
                    r == Err::<Vec<Effect>, Error>(Error::Unauthorized)
                } else if entity.locked {
                    r == Err::<Vec<Effect>, Error>(Error::EntityLocked)
                } else if !(round.status is Active || round.status is Paused) {
                    r == Err::<Vec<Effect>, Error>(Error::InvalidRoundStatus)
                } else if !(now >= round.end_block || round.remaining_amount == 0) {
                    r == Err::<Vec<Effect>, Error>(Error::SaleNotInTimeWindow)
                } else {
                    &&& r matches Ok(effects) && effects@ == release_unsold(round)
                    &&& final(self).sale_rounds@ == old(self).sale_rounds@.insert(round_id, closed_round(round, raised, now))
                    &&& final(self).active_rounds@ == seq_without(old(self).active_rounds@, round_id)
                    &&& final(self).events@ == old(self).events@.push(if soft_cap_missed(round, raised) {
                        Event::SoftCapNotMet { round_id, raised, soft_cap: round.soft_cap }
                    } else {
                        Event::SaleRoundEnded { round_id, sold_amount: round.sold_amount, participants_count: round.participants_count }
                    })
                    &&& *final(self) == (Pallet {
                        sale_rounds: final(self).sale_rounds,
                        active_rounds: final(self).active_rounds,
                        events: final(self).events,
                        ..*old(self)
                    })
                }
            },
    {
        let round = match self.sale_rounds.get(&round_id) {
            Some(r) => *r,
            None => return Err(Error::RoundNotFound),
        };
        if round.creator != who {
            return Err(Error::Unauthorized);
        }
        if entity.locked {
            return Err(Error::EntityLocked);
        }
        if !(round.status == RoundStatus::Active || round.status == RoundStatus::Paused) {
            return Err(Error::InvalidRoundStatus);
        }
        if !(now >= round.end_block || round.remaining_amount == 0) {
            return Err(Error::SaleNotInTimeWindow);
        }
        let raised = self.raised_native_of(round_id);
        let mut effects: Vec<Effect> = Vec::new();
        let missed = self.close_round(round_id, round, now, &mut effects);
        assert(effects@ =~= release_unsold(round));
        vec_remove_all(&mut self.active_rounds, round_id);
        if missed {
            self.events.push(Event::SoftCapNotMet { round_id, raised, soft_cap: round.soft_cap });
        } else {
            self.events.push(Event::SaleRoundEnded {
                round_id,
                sold_amount: round.sold_amount,
                participants_count: round.participants_count,
            });
        }
        Ok(effects)
    }

    fn cancel_checked(&mut self, now: u64, round_id: u64, round: SaleRound, forced: bool) -> (effects: Vec<Effect>)
        requires
            old(self).sale_rounds@.contains_key(round_id),
            old(self).sale_rounds@[round_id] == round,
        ensures
            effects@ == (if round.status is Active || round.status is Paused { release_unsold(round) } else { Seq::<Effect>::empty() }),
            final(self).sale_rounds@ == old(self).sale_rounds@.insert(round_id, SaleRound {
                remaining_amount: if round.status is Active || round.status is Paused { 0 } else { round.remaining_amount },
                status: RoundStatus::Cancelled,
                cancelled_at: Some(now),
                ..round
            }),
            final(self).active_rounds@ == seq_without(old(self).active_rounds@, round_id),
            final(self).events@ == old(self).events@.push(if forced {
                Event::SaleRoundForceCancelled { round_id }
            } else {
                Event::SaleRoundCancelled { round_id }
            }),
            *final(self) == (Pallet {
                sale_rounds: final(self).sale_rounds,
                active_rounds: final(self).active_rounds,
                events: final(self).events,
                ..*old(self)
            }),
    {
        let mut effects: Vec<Effect> = Vec::new();
        let mut updated = round;
        if (round.status == RoundStatus::Active || round.status == RoundStatus::Paused) && round.remaining_amount != 0 {
            effects.push(Effect::UnreserveTokens { entity_id: round.entity_id, amount: round.remaining_amount, require_full: false });
            updated.remaining_amount = 0;
        }
        assert(effects@ =~= (if round.status is Active || round.status is Paused { release_unsold(round) } else { Seq::<Effect>::empty() }));
        updated.status = RoundStatus::Cancelled;
        updated.cancelled_at = Some(now);
        self.sale_rounds.insert(round_id, updated);
        vec_remove_all(&mut self.active_rounds, round_id);
        if forced {
            self.events.push(Event::SaleRoundForceCancelled { round_id });
        } else {
            self.events.push(Event::SaleRoundCancelled { round_id });
        }
        effects
    }

    /// The creator cancels a round that has not ended; the unsold tokens of a
    /// started round are released and subscribers may claim refunds.
    pub fn cancel_sale(&mut self, who: u64, now: u64, round_id: u64, entity: EntityInfo) -> (r: Result<Vec<Effect>, Error>)
        ensures
            r is Err ==> *final(self) == *old(self),
            !old(self).sale_rounds@.contains_key(round_id) ==> r == Err::<Vec<Effect>, Error>(Error::RoundNotFound),
            old(self).sale_rounds@.contains_key(round_id) ==> {
                let round = old(self).sale_rounds@[round_id];
                let started = round.status is Active || round.status is Paused;
                if round.creator != who {
                    r == Err::<Vec<Effect>, Error>(Error::Unauthorized)
                } else if entity.locked {
                    r == Err::<Vec<Effect>, Error>(Error::EntityLocked)
                } else if !(round.status is NotStarted || started) {
                    r == Err::<Vec<Effect>, Error>(Error::InvalidRoundStatus)
                } else {
                    &&& r matches Ok(effects) && effects@ == (if started { release_unsold(round) } else { Seq::<Effect>::empty() })
                    &&& final(self).sale_rounds@ == old(self).sale_rounds@.insert(round_id, SaleRound {
                        remaining_amount: if started { 0 } else { round.remaining_amount },
                        status: RoundStatus::Cancelled,
                        cancelled_at: Some(now),
                        ..round
                    })
                    &&& final(self).active_rounds@ == seq_without(old(self).active_rounds@, round_id)
                    &&& final(self).events@ == old(self).events@.push(Event::SaleRoundCancelled { round_id })
                    &&& *final(self) == (Pallet {
                        sale_rounds: final(self).sale_rounds,
                        active_rounds: final(self).active_rounds,
                        events: final(self).events,
                        ..*old(self)
                    })
                }
            },
    {
        let round = match self.sale_rounds.get(&round_id) {
            Some(r) => *r,
            None => return Err(Error::RoundNotFound),
        };
        if round.creator != who {
            return Err(Error::Unauthorized);
        }
        if entity.locked {
            return Err(Error::EntityLocked);
        }
        if !(round.status == RoundStatus::NotStarted || round.status == RoundStatus::Active
            || round.status == RoundStatus::Paused) {
            return Err(Error::InvalidRoundStatus);
        }
        Ok(self.cancel_checked(now, round_id, round, false))
    }

    /// Governance cancels a round that has not ended.
    pub fn force_cancel_sale(&mut self, now: u64, round_id: u64) -> (r: Result<Vec<Effect>, Error>)
        ensures
            r is Err ==> *final(self) == *old(self),
            !old(self).sale_rounds@.contains_key(round_id) ==> r == Err::<Vec<Effect>, Error>(Error::RoundNotFound),
            old(self).sale_rounds@.contains_key(round_id) ==> {
                let round = old(self).sale_rounds@[round_id];
                let started = round.status is Active || round.status is Paused;
                if !(round.status is NotStarted || started) {
                    r == Err::<Vec<Effect>, Error>(Error::InvalidRoundStatus)
                } else {
                    &&& r matches Ok(effects) && effects@ == (if started { release_unsold(round) } else { Seq::<Effect>::empty() })
                    &&& final(self).sale_rounds@ == old(self).sale_rounds@.insert(round_id, SaleRound {
                        remaining_amount: if started { 0 } else { round.remaining_amount },
                        status: RoundStatus::Cancelled,
                        cancelled_at: Some(now),
                        ..round
                    })
                    &&& final(self).active_rounds@ == seq_without(old(self).active_rounds@, round_id)
                    &&& final(self).events@ == old(self).events@.push(Event::SaleRoundForceCancelled { round_id })
                    &&& *final(self) == (Pallet {
                        sale_rounds: final(self).sale_rounds,
                        active_rounds: final(self).active_rounds,
                        events: final(self).events,
                        ..*old(self)
                    })
                }
            },
    {
        let round = match self.sale_rounds.get(&round_id) {
            Some(r) => *r,
            None => return Err(Error::RoundNotFound),
        };
        if !(round.status == RoundStatus::NotStarted || round.status == RoundStatus::Active
            || round.status == RoundStatus::Paused) {
            return Err(Error::InvalidRoundStatus);
        }
        Ok(self.cancel_checked(now, round_id, round, true))
    }

    /// Governance ends an active or paused round at once, releasing the unsold tokens.
    pub fn force_end_sale(&mut self, round_id: u64) -> (r: Result<Vec<Effect>, Error>)
        ensures
            r is Err ==> *final(self) == *old(self),
            !old(self).sale_rounds@.contains_key(round_id) ==> r == Err::<Vec<Effect>, Error>(Error::RoundNotFound),
            old(self).sale_rounds@.contains_key(round_id) ==> {
                let round = old(self).sale_rounds@[round_id];
                if !(round.status is Active || round.status is Paused) {
                    r == Err::<Vec<Effect>, Error>(Error::InvalidRoundStatus)
                } else {
                    &&& r matches Ok(effects) && effects@ == release_unsold(round)
                    &&& final(self).sale_rounds@ == old(self).sale_rounds@.insert(round_id, SaleRound {
                        remaining_amount: 0, status: RoundStatus::Ended, ..round })
                    &&& final(self).active_rounds@ == seq_without(old(self).active_rounds@, round_id)
                    &&& final(self).events@ == old(self).events@.push(Event::SaleRoundForceEnded {
                        round_id, sold_amount: round.sold_amount, participants_count: round.participants_count })
                    &&& *final(self) == (Pallet {
                        sale_rounds: final(self).sale_rounds,
                        active_rounds: final(self).active_rounds,
                        events: final(self).events,
                        ..*old(self)
                    })
                }
            },
    {
        let round = match self.sale_rounds.get(&round_id) {
            Some(r) => *r,
            None => return Err(Error::RoundNotFound),
        };
        if !(round.status == RoundStatus::Active || round.status == RoundStatus::Paused) {
            return Err(Error::InvalidRoundStatus);
        }
        let mut effects: Vec<Effect> = Vec::new();
        if round.remaining_amount != 0 {
            effects.push(Effect::UnreserveTokens { entity_id: round.entity_id, amount: round.remaining_amount, require_full: false });
        }
        assert(effects@ =~= release_unsold(round));
        let mut updated = round;
        updated.remaining_amount = 0;
        updated.status = RoundStatus::Ended;
        self.sale_rounds.insert(round_id, updated);
        vec_remove_all(&mut self.active_rounds, round_id);
        self.events.push(Event::SaleRoundForceEnded {
            round_id,
            sold_amount: round.sold_amount,
            participants_count: round.participants_count,
        });
        Ok(effects)
    }

    /// Closes an expired round found by the scan.
    fn do_auto_end_sale(&mut self, round_id: u64, now: u64, effects: &mut Vec<Effect>)
        requires
            old(self).sale_rounds@.contains_key(round_id),
        ensures
            ({
                let round = old(self).sale_rounds@[round_id];
                let raised = raised_native(*old(self), round_id);
                &&& final(self).sale_rounds@ == old(self).sale_rounds@.insert(round_id, closed_round(round, raised, now))
                &&& final(effects)@ == old(effects)@ + release_unsold(round)
                &&& final(self).events@ == old(self).events@.push(if soft_cap_missed(round, raised) {
                    Event::SoftCapNotMet { round_id, raised, soft_cap: round.soft_cap }
                } else {
                    Event::SaleAutoEnded { round_id, sold_amount: round.sold_amount, participants_count: round.participants_count }
                })
                &&& *final(self) == (Pallet { sale_rounds: final(self).sale_rounds, events: final(self).events, ..*old(self) })
            }),
    {
        let round = *self.sale_rounds.get(&round_id).unwrap();
        let raised = self.raised_native_of(round_id);
        let missed = self.close_round(round_id, round, now, effects);
        if missed {
            self.events.push(Event::SoftCapNotMet { round_id, raised, soft_cap: round.soft_cap });
        } else {
            self.events.push(Event::SaleAutoEnded {
                round_id,
                sold_amount: round.sold_amount,
                participants_count: round.participants_count,
            });
        }
    }

    /// Start-of-block hook: every watched round that is active and past its end
    /// block is closed (cancelled if it missed its soft cap), and only the others
    /// stay watched. Returns the weight used and the effects to perform.
    pub fn on_initialize(&mut self, now: u64) -> (r: (Weight, Vec<Effect>))
        ensures
            ({
                let db = DbWeight { read: old(self).config.db_read_weight, write: old(self).config.db_write_weight };
                let acc0 = ScanAcc {
                    rounds: old(self).sale_rounds@,
                    effects: Seq::empty(),
                    events: old(self).events@,
                    kept: Seq::empty(),
                    weight: db.spec_reads_writes(1, 0),
                };
                let fin = scan(acc0, old(self).active_rounds@, now, old(self).raised_funds@, db, old(self).config.max_active_rounds);
                if old(self).active_rounds@.len() == 0 {
                    &&& r.0 == db.spec_reads_writes(1, 0)
                    &&& r.1@ == Seq::<Effect>::empty()
                    &&& *final(self) == *old(self)
                } else {
                    &&& r.0 == fin.weight.spec_saturating_add(db.spec_reads_writes(0, 1))
                    &&& r.1@ == fin.effects
                    &&& final(self).sale_rounds@ == fin.rounds
                    &&& final(self).events@ == fin.events
                    &&& final(self).active_rounds@ == fin.kept
                    &&& *final(self) == (Pallet {
                        sale_rounds: final(self).sale_rounds,
                        events: final(self).events,
                        active_rounds: final(self).active_rounds,
                        ..*old(self)
                    })
                }
            }),
    {
        let db = self.db_weight();
        let mut weight = db.reads(1);
        let mut effects: Vec<Effect> = Vec::new();
        if self.active_rounds.len() == 0 {
            return (weight, effects);
        }
        let mut active: Vec<u64> = Vec::new();
        std::mem::swap(&mut active, &mut self.active_rounds);
        let ghost ids = active@;
        let ghost acc0 = ScanAcc {
            rounds: old(self).sale_rounds@,
            effects: Seq::empty(),
            events: old(self).events@,
            kept: Seq::empty(),
            weight: db.spec_reads_writes(1, 0),
        };
        let ghost mid = *self;
        let max_active = self.config.max_active_rounds;
        let mut remaining: Vec<u64> = Vec::new();
        let mut i: usize = 0;
        while i < active.len()
            invariant
                0 <= i <= ids.len(),
                ids == active@,
                ids == old(self).active_rounds@,
                max_active == old(self).config.max_active_rounds,
                db == (DbWeight { read: old(self).config.db_read_weight, write: old(self).config.db_write_weight }),
                acc0 == (ScanAcc {
                    rounds: old(self).sale_rounds@,
                    effects: Seq::empty(),
                    events: old(self).events@,
                    kept: Seq::empty(),
                    weight: db.spec_reads_writes(1, 0),
                }),
                ({
                    let acc = scan(acc0, ids.take(i as int), now, old(self).raised_funds@, db, max_active);
                    &&& self.sale_rounds@ == acc.rounds
                    &&& effects@ == acc.effects
                    &&& self.events@ == acc.events
                    &&& remaining@ == acc.kept
                    &&& weight == acc.weight
                }),
                *self == (Pallet { sale_rounds: self.sale_rounds, events: self.events, ..mid }),
                mid == (Pallet { active_rounds: mid.active_rounds, ..*old(self) }),
            decreases ids.len() - i,
        {
            let round_id = active[i];
            proof {
                assert(ids.take(i + 1).drop_last() =~= ids.take(i as int));
                assert(ids.take(i + 1).last() == round_id);
                if i == 0 {
                    assert(ids.take(0) =~= Seq::<u64>::empty());
                }
            }
            weight = weight.saturating_add(db.reads(1));
            let should_end = match self.sale_rounds.get(&round_id) {
                Some(r) => r.status == RoundStatus::Active && now > r.end_block,
                None => false,
            };
            if should_end {
                self.do_auto_end_sale(round_id, now, &mut effects);
                weight = weight.saturating_add(db.reads_writes(1, 3));
            } else {
                if remaining.len() < max_active as usize {
                    remaining.push(round_id);
                }
            }
            i = i + 1;
        }
        proof {
            assert(ids.take(ids.len() as int) =~= ids);
        }
        self.active_rounds = remaining;
        weight = weight.saturating_add(db.writes(1));
        (weight, effects)
    }
}

} // verus!
