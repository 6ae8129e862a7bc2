//! Claiming and unlocking bought tokens, refunds of cancelled rounds, payout of
//! the raised funds and cleanup of finished rounds.
use vstd::prelude::*;
use crate::arith::{clamp_u128, clamp_u32, clamp_u64, sat_add_u128, sat_add_u32, sat_add_u64, sat_sub_u128};
use crate::kvmap::seq_or_empty;
use super::{raised_native, seq_without, vec_remove_all, Effect, EntityInfo, Error, Event, Pallet, RoundStatus, SaleRound, Subscription};
use super::math::{calculate_initial_unlock, calculate_unlockable, spec_initial_unlock, spec_unlockable};

verus! {

/// Effects of a refund of `sub` from the pallet's account.
pub open spec fn refund_effects(round: SaleRound, sub: Subscription, pallet: u64, to: u64) -> Seq<Effect> {
    seq![
        Effect::UnreserveTokens { entity_id: round.entity_id, amount: sub.amount, require_full: true },
        Effect::Transfer { from: pallet, to, amount: sub.payment_amount, keep_alive: false },
    ]
}

/// A round after refunding `sub`.
pub open spec fn round_after_refund(round: SaleRound, sub: Subscription) -> SaleRound {
    SaleRound {
        total_refunded_tokens: clamp_u128(round.total_refunded_tokens + sub.amount),
        total_refunded_nex: clamp_u128(round.total_refunded_nex + sub.payment_amount),
        ..round
    }
}

/// Why a claim of `who` in a round fails, if it does.
pub open spec fn claim_error(p: Pallet, who: u64, round_id: u64) -> Option<Error> {
    if !p.sale_rounds@.contains_key(round_id) {
        Some(Error::RoundNotFound)
    } else if !(p.sale_rounds@[round_id].status is Ended) {
        Some(Error::InvalidRoundStatus)
    } else if !p.subscriptions@.contains_key((round_id, who)) {
        Some(Error::NotSubscribed)
    } else if p.subscriptions@[(round_id, who)].claimed {
        Some(Error::AlreadyClaimed)
    } else {
        None
    }
}

/// Why a refund of `subscriber` in a round fails, if it does.
pub open spec fn refund_error(p: Pallet, round_id: u64, subscriber: u64) -> Option<Error> {
    if !p.sale_rounds@.contains_key(round_id) {
        Some(Error::RoundNotFound)
    } else if !(p.sale_rounds@[round_id].status is Cancelled) {
        Some(Error::SaleNotCancelled)
    } else if !p.subscriptions@.contains_key((round_id, subscriber)) {
        Some(Error::NotSubscribed)
    } else if p.subscriptions@[(round_id, subscriber)].refunded {
        Some(Error::AlreadyRefunded)
    } else {
        None
    }
}

/// Why a payout of a round's raised funds fails, if it does (`who` is the
/// caller, `None` for governance).
pub open spec fn withdraw_error(p: Pallet, who: Option<u64>, round_id: u64, entity: EntityInfo) -> Option<Error> {
    if !p.sale_rounds@.contains_key(round_id) {
        Some(Error::RoundNotFound)
    } else {
        let round = p.sale_rounds@[round_id];
        if who is Some && round.creator != who->0 {
            Some(Error::Unauthorized)
        } else if who is Some && entity.locked {
            Some(Error::EntityLocked)
        } else if !(round.status is Ended || round.status is Completed) {
            Some(Error::InvalidRoundStatus)
        } else if round.funds_withdrawn {
            Some(Error::FundsAlreadyWithdrawn)
        } else {
            None
        }
    }
}

/// Subscriptions with the keys of a round's participants removed.
pub open spec fn without_participants(m: Map<(u64, u64), Subscription>, round_id: u64, ps: Seq<u64>) -> Map<(u64, u64), Subscription> {
    m.remove_keys(Set::new(|k: (u64, u64)| k.0 == round_id && ps.contains(k.1)))
}

/// Running state of a governance batch refund.
#[derive(Clone, Copy, Debug, PartialEq, Eq, Structural)]
pub struct BatchRefund {
    pub round_id: u64,
    pub entity_id: u64,
    pub refunded_count: u32,
    pub total_nex: u128,
    pub total_tokens: u128,
}

/// What a batch refund does for a subscriber once the subscriber's tokens were
/// unreserved.
#[derive(Clone, Copy, Debug, PartialEq, Eq, Structural)]
pub enum BatchStep {
    /// Part of the tokens stayed reserved: reserve again the `freed` part (a
    /// failure of that is ignored) and skip the subscriber.
    Rollback { freed: u128 },
    /// Pay the subscriber back with this transfer.
    Pay { transfer: Effect },
}

impl Pallet {
    /// A subscriber of an ended round claims: the initial unlock of the vesting
    /// schedule is moved out of the entity's reserve to the subscriber.
    pub fn claim_tokens(&mut self, who: u64, round_id: u64) -> (r: Result<Vec<Effect>, Error>)
        ensures
            r is Err ==> *final(self) == *old(self),
            claim_error(*old(self), who, round_id) is Some
                ==> r == Err::<Vec<Effect>, Error>(claim_error(*old(self), who, round_id)->0),
            claim_error(*old(self), who, round_id) is None ==> ({
                let round = old(self).sale_rounds@[round_id];
                let key = (round_id, who);
                let sub = old(self).subscriptions@[key];
                let initial = spec_initial_unlock(round.vesting_config, sub.amount);
                &&& r matches Ok(effects) && effects@ == (if initial > 0 {
                    seq![Effect::RepatriateTokens { entity_id: round.entity_id, to: who, amount: initial }]
                } else {
                    Seq::<Effect>::empty()
                })
                &&& final(self).subscriptions@ == old(self).subscriptions@.insert(key, Subscription {
                    claimed: true, unlocked_amount: initial, ..sub })
                &&& final(self).events@ == old(self).events@.push(Event::TokensClaimed {
                    round_id, subscriber: who, amount: initial })
                &&& *final(self) == (Pallet {
                    subscriptions: final(self).subscriptions,
                    events: final(self).events,
                    ..*old(self)
                })
            }),
    {
        let round = match self.sale_rounds.get(&round_id) {
            Some(r) => *r,
            None => return Err(Error::RoundNotFound),
        };
        if round.status != RoundStatus::Ended {
            return Err(Error::InvalidRoundStatus);
        }
        let sub = match self.subscriptions.get(&(round_id, who)) {
            Some(s) => *s,
            None => return Err(Error::NotSubscribed),
        };
        if sub.claimed {
            return Err(Error::AlreadyClaimed);
        }
        let initial = calculate_initial_unlock(&round.vesting_config, sub.amount);
        let mut effects: Vec<Effect> = Vec::new();
        if initial != 0 {
            effects.push(Effect::RepatriateTokens { entity_id: round.entity_id, to: who, amount: initial });
        }
        let mut updated = sub;
        updated.claimed = true;
        updated.unlocked_amount = initial;
        self.subscriptions.insert((round_id, who), updated);
        self.events.push(Event::TokensClaimed { round_id, subscriber: who, amount: initial });
        proof {
            if initial > 0 {
                assert(effects@ =~= seq![Effect::RepatriateTokens { entity_id: round.entity_id, to: who, amount: initial }]);
            } else {
                assert(effects@ =~= Seq::<Effect>::empty());
            }
        }
        Ok(effects)
    }

    /// A subscriber who claimed unlocks what has vested by block `now` beyond
    /// what was unlocked before.
    pub fn unlock_tokens(&mut self, who: u64, now: u64, round_id: u64) -> (r: Result<Vec<Effect>, Error>)
        ensures
            r is Err ==> *final(self) == *old(self),
            ({
                let round = old(self).sale_rounds@[round_id];
                let key = (round_id, who);
                let sub = old(self).subscriptions@[key];
                let u = spec_unlockable(round.vesting_config, sub.amount, sub.unlocked_amount, sub.subscribed_at, now);
                if !old(self).sale_rounds@.contains_key(round_id) {
                    r == Err::<Vec<Effect>, Error>(Error::RoundNotFound)
                } else if !(round.status is Ended) {
                    r == Err::<Vec<Effect>, Error>(Error::InvalidRoundStatus)
                } else if !old(self).subscriptions@.contains_key(key) || !sub.claimed {
                    r == Err::<Vec<Effect>, Error>(Error::NotSubscribed)
                } else {
                    match u {
                        Err(e) => r == Err::<Vec<Effect>, Error>(e),
                        Ok(amount) => if amount == 0 {
                            r == Err::<Vec<Effect>, Error>(Error::NoTokensToUnlock)
                        } else {
                            &&& r matches Ok(effects) && effects@ == seq![Effect::RepatriateTokens {
                                entity_id: round.entity_id, to: who, amount }]
                            &&& final(self).subscriptions@ == old(self).subscriptions@.insert(key, Subscription {
                                unlocked_amount: clamp_u128(sub.unlocked_amount + amount), ..sub })
                            &&& final(self).events@ == old(self).events@.push(Event::TokensUnlocked {
                                round_id, subscriber: who, amount })
                            &&& *final(self) == (Pallet {
                                subscriptions: final(self).subscriptions,
                                events: final(self).events,
                                ..*old(self)
                            })
                        },
                    }
                }
            }),
    {
        let round = match self.sale_rounds.get(&round_id) {
            Some(r) => *r,
            None => return Err(Error::RoundNotFound),
        };
        if round.status != RoundStatus::Ended {
            return Err(Error::InvalidRoundStatus);
        }
        let sub = match self.subscriptions.get(&(round_id, who)) {
            Some(s) => *s,
            None => return Err(Error::NotSubscribed),
        };
        if !sub.claimed {
            return Err(Error::NotSubscribed);
        }
        let amount = match calculate_unlockable(&round.vesting_config, sub.amount, sub.unlocked_amount, sub.subscribed_at, now) {
            Ok(a) => a,
            Err(e) => return Err(e),
        };
        if amount == 0 {
            return Err(Error::NoTokensToUnlock);
        }
        let mut effects: Vec<Effect> = Vec::new();
        effects.push(Effect::RepatriateTokens { entity_id: round.entity_id, to: who, amount });
        let mut updated = sub;
        updated.unlocked_amount = sat_add_u128(sub.unlocked_amount, amount);
        self.subscriptions.insert((round_id, who), updated);
        self.events.push(Event::TokensUnlocked { round_id, subscriber: who, amount });
        Ok(effects)
    }

    fn refund_checked(&mut self, round_id: u64, subscriber: u64, forced: bool) -> (r: Result<Vec<Effect>, Error>)
        ensures
            r is Err ==> *final(self) == *old(self),
            refund_error(*old(self), round_id, subscriber) is Some
                ==> r == Err::<Vec<Effect>, Error>(refund_error(*old(self), round_id, subscriber)->0),
            refund_error(*old(self), round_id, subscriber) is None ==> ({
                let round = old(self).sale_rounds@[round_id];
                let key = (round_id, subscriber);
                let sub = old(self).subscriptions@[key];
                &&& r matches Ok(effects) && effects@ == refund_effects(round, sub, old(self).config.pallet_account, subscriber)
                &&& final(self).subscriptions@ == old(self).subscriptions@.insert(key, Subscription { refunded: true, ..sub })
                &&& final(self).sale_rounds@ == old(self).sale_rounds@.insert(round_id, round_after_refund(round, sub))
                &&& final(self).events@ == old(self).events@.push(if forced {
                    Event::ForceRefundIssued { round_id, subscriber, amount: sub.payment_amount }
                } else {
                    Event::RefundClaimed { round_id, subscriber, amount: sub.payment_amount }
                })
                &&& *final(self) == (Pallet {
                    subscriptions: final(self).subscriptions,
                    sale_rounds: final(self).sale_rounds,
                    events: final(self).events,
                    ..*old(self)
                })
            }),
    {
        let round = match self.sale_rounds.get(&round_id) {
            Some(r) => *r,
            None => return Err(Error::RoundNotFound),
        };
        if round.status != RoundStatus::Cancelled {
            return Err(Error::SaleNotCancelled);
        }
        let sub = match self.subscriptions.get(&(round_id, subscriber)) {
            Some(s) => *s,
            None => return Err(Error::NotSubscribed),
        };
        if sub.refunded {
            return Err(Error::AlreadyRefunded);
        }
        let mut effects: Vec<Effect> = Vec::new();
        effects.push(Effect::UnreserveTokens { entity_id: round.entity_id, amount: sub.amount, require_full: true });
        effects.push(Effect::Transfer {
            from: self.config.pallet_account,
            to: subscriber,
            amount: sub.payment_amount,
            keep_alive: false,
        });
        let mut updated_sub = sub;
        updated_sub.refunded = true;
        self.subscriptions.insert((round_id, subscriber), updated_sub);
        let mut updated = round;
        updated.total_refunded_tokens = sat_add_u128(round.total_refunded_tokens, sub.amount);
        updated.total_refunded_nex = sat_add_u128(round.total_refunded_nex, sub.payment_amount);
        self.sale_rounds.insert(round_id, updated);
        if forced {
            self.events.push(Event::ForceRefundIssued { round_id, subscriber, amount: sub.payment_amount });
        } else {
            self.events.push(Event::RefundClaimed { round_id, subscriber, amount: sub.payment_amount });
        }
        assert(effects@ =~= refund_effects(round, sub, self.config.pallet_account, subscriber));
        Ok(effects)
    }

    /// A subscriber of a cancelled round takes back the payment; the bought
    /// tokens go back to the entity.
    pub fn claim_refund(&mut self, who: u64, round_id: u64) -> (r: Result<Vec<Effect>, Error>)
        ensures
            r is Err ==> *final(self) == *old(self),
            refund_error(*old(self), round_id, who) is Some
                ==> r == Err::<Vec<Effect>, Error>(refund_error(*old(self), round_id, who)->0),
            refund_error(*old(self), round_id, who) is None ==> ({
                let round = old(self).sale_rounds@[round_id];
                let key = (round_id, who);
                let sub = old(self).subscriptions@[key];
                &&& r matches Ok(effects) && effects@ == refund_effects(round, sub, old(self).config.pallet_account, who)
                &&& final(self).subscriptions@ == old(self).subscriptions@.insert(key, Subscription { refunded: true, ..sub })
                &&& final(self).sale_rounds@ == old(self).sale_rounds@.insert(round_id, round_after_refund(round, sub))
                &&& final(self).events@ == old(self).events@.push(Event::RefundClaimed {
                    round_id, subscriber: who, amount: sub.payment_amount })
                &&& *final(self) == (Pallet {
                    subscriptions: final(self).subscriptions,
                    sale_rounds: final(self).sale_rounds,
                    events: final(self).events,
                    ..*old(self)
                })
            }),
    {
        self.refund_checked(round_id, who, false)
    }

    /// Governance refunds a subscriber of a cancelled round.
    pub fn force_refund(&mut self, round_id: u64, subscriber: u64) -> (r: Result<Vec<Effect>, Error>)
        ensures
            r is Err ==> *final(self) == *old(self),
            refund_error(*old(self), round_id, subscriber) is Some
                ==> r == Err::<Vec<Effect>, Error>(refund_error(*old(self), round_id, subscriber)->0),
            refund_error(*old(self), round_id, subscriber) is None ==> ({
                let round = old(self).sale_rounds@[round_id];
                let key = (round_id, subscriber);
                let sub = old(self).subscriptions@[key];
                &&& r matches Ok(effects) && effects@ == refund_effects(round, sub, old(self).config.pallet_account, subscriber)
                &&& final(self).subscriptions@ == old(self).subscriptions@.insert(key, Subscription { refunded: true, ..sub })
                &&& final(self).sale_rounds@ == old(self).sale_rounds@.insert(round_id, round_after_refund(round, sub))
                &&& final(self).events@ == old(self).events@.push(Event::ForceRefundIssued {
                    round_id, subscriber, amount: sub.payment_amount })
                &&& *final(self) == (Pallet {
                    subscriptions: final(self).subscriptions,
                    sale_rounds: final(self).sale_rounds,
                    events: final(self).events,
                    ..*old(self)
                })
            }),
    {
        self.refund_checked(round_id, subscriber, true)
    }

    /// After the refund grace period of a cancelled round, its creator takes
    /// back what was not refunded: the unrefunded tokens are released and the
    /// unrefunded payments go to the entity; the round is completed.
    pub fn reclaim_unclaimed_tokens(&mut self, who: u64, now: u64, round_id: u64, entity: EntityInfo) -> (r: Result<Vec<Effect>, Error>)
        ensures
            r is Err ==> *final(self) == *old(self),
            ({
                let round = old(self).sale_rounds@[round_id];
                let tokens = clamp_u128(round.sold_amount - round.total_refunded_tokens);
                let nex = clamp_u128(raised_native(*old(self), round_id) - round.total_refunded_nex);
                if !old(self).sale_rounds@.contains_key(round_id) {
                    r == Err::<Vec<Effect>, Error>(Error::RoundNotFound)
                } else if round.creator != who {
                    r == Err::<Vec<Effect>, Error>(Error::Unauthorized)
                } else if entity.locked {
                    r == Err::<Vec<Effect>, Error>(Error::EntityLocked)
                } else if !(round.status is Cancelled) || round.cancelled_at is None {
                    r == Err::<Vec<Effect>, Error>(Error::SaleNotCancelled)
                } else if now < clamp_u64(round.cancelled_at->0 + old(self).config.refund_grace_period) {
                    r == Err::<Vec<Effect>, Error>(Error::RefundPeriodNotExpired)
                } else {
                    &&& r matches Ok(effects) && effects@ == (if tokens > 0 {
                        seq![Effect::UnreserveTokens { entity_id: round.entity_id, amount: tokens, require_full: false }]
                    } else {
                        Seq::<Effect>::empty()
                    }) + (if nex > 0 {
                        seq![Effect::Transfer { from: old(self).config.pallet_account, to: entity.account, amount: nex, keep_alive: false }]
                    } else {
                        Seq::<Effect>::empty()
                    })
                    &&& final(self).sale_rounds@ == old(self).sale_rounds@.insert(round_id, SaleRound {
                        funds_withdrawn: true, status: RoundStatus::Completed, ..round })
                    &&& final(self).events@ == old(self).events@.push(Event::ExpiredRefundsReclaimed {
                        round_id, tokens_reclaimed: tokens, nex_reclaimed: nex })
                    &&& *final(self) == (Pallet {
                        sale_rounds: final(self).sale_rounds,
                        events: final(self).events,
                        ..*old(self)
                    })
                }
            }),
    {
        let round = match self.sale_rounds.get(&round_id) {
            Some(r) => *r,
            None => return Err(Error::RoundNotFound),
        };
        if round.creator != who {
            return Err(Error::Unauthorized);
        }
        if entity.locked {
            return Err(Error::EntityLocked);
        }
        if round.status != RoundStatus::Cancelled {
            return Err(Error::SaleNotCancelled);
        }
        let cancelled_at = match round.cancelled_at {
            Some(c) => c,
            None => return Err(Error::SaleNotCancelled),
        };
        let deadline = sat_add_u64(cancelled_at, self.config.refund_grace_period);
        if now < deadline {
            return Err(Error::RefundPeriodNotExpired);
        }
        let tokens = sat_sub_u128(round.sold_amount, round.total_refunded_tokens);
        let raised = self.raised_native_of(round_id);
        let nex = sat_sub_u128(raised, round.total_refunded_nex);
        let mut effects: Vec<Effect> = Vec::new();
        if tokens != 0 {
            effects.push(Effect::UnreserveTokens { entity_id: round.entity_id, amount: tokens, require_full: false });
        }
        let ghost first = effects@;
        if nex != 0 {
            effects.push(Effect::Transfer { from: self.config.pallet_account, to: entity.account, amount: nex, keep_alive: false });
        }
        proof {
            let a = if tokens > 0 {
                seq![Effect::UnreserveTokens { entity_id: round.entity_id, amount: tokens, require_full: false }]
            } else {
                Seq::<Effect>::empty()
            };
            let b = if nex > 0 {
                seq![Effect::Transfer { from: self.config.pallet_account, to: entity.account, amount: nex, keep_alive: false }]
            } else {
                Seq::<Effect>::empty()
            };
            assert(first =~= a);
            assert(effects@ =~= a + b);
        }
        let mut updated = round;
        updated.funds_withdrawn = true;
        updated.status = RoundStatus::Completed;
        self.sale_rounds.insert(round_id, updated);
        self.events.push(Event::ExpiredRefundsReclaimed { round_id, tokens_reclaimed: tokens, nex_reclaimed: nex });
        Ok(effects)
    }

    fn withdraw_checked(&mut self, who: Option<u64>, round_id: u64, entity: EntityInfo) -> (r: Result<Vec<Effect>, Error>)
        ensures
            r is Err ==> *final(self) == *old(self),
            withdraw_error(*old(self), who, round_id, entity) is Some
                ==> r == Err::<Vec<Effect>, Error>(withdraw_error(*old(self), who, round_id, entity)->0),
            withdraw_error(*old(self), who, round_id, entity) is None ==> ({
                let round = old(self).sale_rounds@[round_id];
                let raised = raised_native(*old(self), round_id);
                &&& r matches Ok(effects) && effects@ == (if raised > 0 {
                    seq![Effect::Transfer { from: old(self).config.pallet_account, to: entity.account, amount: raised, keep_alive: false }]
                } else {
                    Seq::<Effect>::empty()
                })
                &&& final(self).sale_rounds@ == old(self).sale_rounds@.insert(round_id, SaleRound { funds_withdrawn: true, ..round })
                &&& final(self).events@ == old(self).events@.push(if who is Some {
                    Event::FundsWithdrawn { round_id, recipient: entity.account, amount: raised }
                } else {
                    Event::ForceFundsWithdrawn { round_id, recipient: entity.account, amount: raised }
                })
                &&& *final(self) == (Pallet {
                    sale_rounds: final(self).sale_rounds,
                    events: final(self).events,
                    ..*old(self)
                })
            }),
    {
        let round = match self.sale_rounds.get(&round_id) {
            Some(r) => *r,
            None => return Err(Error::RoundNotFound),
        };
        match who {
            Some(w) => {
                if round.creator != w {
                    return Err(Error::Unauthorized);
                }
                if entity.locked {
                    return Err(Error::EntityLocked);
                }
            },
            None => {},
        }
        if !(round.status == RoundStatus::Ended || round.status == RoundStatus::Completed) {
            return Err(Error::InvalidRoundStatus);
        }
        if round.funds_withdrawn {
            return Err(Error::FundsAlreadyWithdrawn);
        }
        let raised = self.raised_native_of(round_id);
        let mut effects: Vec<Effect> = Vec::new();
        if raised != 0 {
            effects.push(Effect::Transfer { from: self.config.pallet_account, to: entity.account, amount: raised, keep_alive: false });
        }
        proof {
            if raised > 0 {
                assert(effects@ =~= seq![Effect::Transfer { from: self.config.pallet_account, to: entity.account, amount: raised, keep_alive: false }]);
            } else {
                assert(effects@ =~= Seq::<Effect>::empty());
            }
        }
        let mut updated = round;
        updated.funds_withdrawn = true;
        self.sale_rounds.insert(round_id, updated);
        if who.is_some() {
            self.events.push(Event::FundsWithdrawn { round_id, recipient: entity.account, amount: raised });
        } else {
            self.events.push(Event::ForceFundsWithdrawn { round_id, recipient: entity.account, amount: raised });
        }
        Ok(effects)
    }

    /// The creator of an ended or completed round has the funds raised in the
    /// native currency paid to the entity's account, once.
    pub fn withdraw_funds(&mut self, who: u64, round_id: u64, entity: EntityInfo) -> (r: Result<Vec<Effect>, Error>)
        ensures
            r is Err ==> *final(self) == *old(self),
            withdraw_error(*old(self), Some(who), round_id, entity) is Some
                ==> r == Err::<Vec<Effect>, Error>(withdraw_error(*old(self), Some(who), round_id, entity)->0),
            withdraw_error(*old(self), Some(who), round_id, entity) is None ==> ({
                let round = old(self).sale_rounds@[round_id];
                let raised = raised_native(*old(self), round_id);
                &&& r matches Ok(effects) && effects@ == (if raised > 0 {
                    seq![Effect::Transfer { from: old(self).config.pallet_account, to: entity.account, amount: raised, keep_alive: false }]
                } else {
                    Seq::<Effect>::empty()
                })
                &&& final(self).sale_rounds@ == old(self).sale_rounds@.insert(round_id, SaleRound { funds_withdrawn: true, ..round })
                &&& final(self).events@ == old(self).events@.push(Event::FundsWithdrawn { round_id, recipient: entity.account, amount: raised })
                &&& *final(self) == (Pallet { sale_rounds: final(self).sale_rounds, events: final(self).events, ..*old(self) })
            }),
    {
        self.withdraw_checked(Some(who), round_id, entity)
    }

    /// Governance has the raised funds of an ended or completed round paid to
    /// the entity's account, once.
    pub fn force_withdraw_funds(&mut self, round_id: u64, entity: EntityInfo) -> (r: Result<Vec<Effect>, Error>)
        ensures
            r is Err ==> *final(self) == *old(self),
            withdraw_error(*old(self), None, round_id, entity) is Some
                ==> r == Err::<Vec<Effect>, Error>(withdraw_error(*old(self), None, round_id, entity)->0),
            withdraw_error(*old(self), None, round_id, entity) is None ==> ({
                let round = old(self).sale_rounds@[round_id];
                let raised = raised_native(*old(self), round_id);
                &&& r matches Ok(effects) && effects@ == (if raised > 0 {
                    seq![Effect::Transfer { from: old(self).config.pallet_account, to: entity.account, amount: raised, keep_alive: false }]
                } else {
                    Seq::<Effect>::empty()
                })
                &&& final(self).sale_rounds@ == old(self).sale_rounds@.insert(round_id, SaleRound { funds_withdrawn: true, ..round })
                &&& final(self).events@ == old(self).events@.push(Event::ForceFundsWithdrawn { round_id, recipient: entity.account, amount: raised })
                &&& *final(self) == (Pallet { sale_rounds: final(self).sale_rounds, events: final(self).events, ..*old(self) })
            }),
    {
        self.withdraw_checked(None, round_id, entity)
    }

    /// The creator of a finished round whose funds were paid out frees its
    /// storage: subscriptions, participants, whitelist, payment options and
    /// raised-funds records, and its slot in the entity's round history.
    pub fn cleanup_round(&mut self, who: u64, round_id: u64) -> (r: Result<(), Error>)
        ensures
            r is Err ==> *final(self) == *old(self),
            ({
                let round = old(self).sale_rounds@[round_id];
                let ps = seq_or_empty(old(self).round_participants@, round_id);
                if !old(self).sale_rounds@.contains_key(round_id) {
                    r == Err::<(), Error>(Error::RoundNotFound)
                } else if round.creator != who {
                    r == Err::<(), Error>(Error::Unauthorized)
                } else if !(round.status is Ended || round.status is Completed) || !round.funds_withdrawn {
                    r == Err::<(), Error>(Error::RoundNotCleanable)
                } else {
                    &&& r is Ok
                    &&& final(self).round_participants@ == old(self).round_participants@.remove(round_id)
                    &&& final(self).subscriptions@ == without_participants(old(self).subscriptions@, round_id, ps)
                    &&& final(self).round_whitelist@ == old(self).round_whitelist@.remove_keys(
                        Set::new(|k: (u64, u64)| k.0 == round_id))
                    &&& final(self).whitelist_count@ == old(self).whitelist_count@.remove(round_id)
                    &&& final(self).round_payment_options@ == old(self).round_payment_options@.remove(round_id)
                    &&& final(self).raised_funds@ == old(self).raised_funds@.remove_keys(
                        Set::new(|k: (u64, Option<u64>)| k.0 == round_id))
                    &&& final(self).entity_rounds@ == old(self).entity_rounds@.insert(
                        round.entity_id, final(self).entity_rounds@[round.entity_id])
                    &&& final(self).entity_rounds@[round.entity_id]@
                        == seq_without(seq_or_empty(old(self).entity_rounds@, round.entity_id), round_id)
                    &&& final(self).events@ == old(self).events@.push(Event::RoundStorageCleaned {
                        round_id, subscriptions_removed: ps.len() as u32 })
                    &&& *final(self) == (Pallet {
                        round_participants: final(self).round_participants,
                        subscriptions: final(self).subscriptions,
                        round_whitelist: final(self).round_whitelist,
                        whitelist_count: final(self).whitelist_count,
                        round_payment_options: final(self).round_payment_options,
                        raised_funds: final(self).raised_funds,
                        entity_rounds: final(self).entity_rounds,
                        events: final(self).events,
                        ..*old(self)
                    })
                }
            }),
    {
        let round = match self.sale_rounds.get(&round_id) {
            Some(r) => *r,
            None => return Err(Error::RoundNotFound),
        };
        if round.creator != who {
            return Err(Error::Unauthorized);
        }
        if !(round.status == RoundStatus::Ended || round.status == RoundStatus::Completed) {
            return Err(Error::RoundNotCleanable);
        }
        if !round.funds_withdrawn {
            return Err(Error::RoundNotCleanable);
        }
        let ghost ps = seq_or_empty(self.round_participants@, round_id);
        let participants = match self.round_participants.remove(&round_id) {
            Some(v) => v,
            None => Vec::new(),
        };
        assert(participants@ == ps);
        let removed = #[verifier::truncate] (participants.len() as u32);
        let ghost m0 = self.subscriptions@;
        let ghost before = *self;
        let mut i: usize = 0;
        while i < participants.len()
            invariant
                0 <= i <= ps.len(),
                participants@ == ps,
                self.subscriptions@ == without_participants(m0, round_id, ps.take(i as int)),
                *self == (Pallet { subscriptions: self.subscriptions, ..before }),
            decreases ps.len() - i,
        {
            let pi = participants[i];
            self.subscriptions.remove(&(round_id, pi));
            proof {
                assert(without_participants(m0, round_id, ps.take(i + 1)) =~= without_participants(
                    m0, round_id, ps.take(i as int)).remove((round_id, pi))) by {
                    assert forall|x: u64| ps.take(i + 1).contains(x) <==> (ps.take(i as int).contains(x) || x == pi) by {
                        if ps.take(i + 1).contains(x) {
                            let j = choose|j: int| 0 <= j < i + 1 && #[trigger] ps.take(i + 1)[j] == x;
                            if j < i {
                                assert(ps.take(i as int)[j] == x);
                            }
                        }
                        if ps.take(i as int).contains(x) {
                            let j = choose|j: int| 0 <= j < i && #[trigger] ps.take(i as int)[j] == x;
                            assert(ps.take(i + 1)[j] == x);
                        }
                        if x == pi {
                            assert(ps.take(i + 1)[i as int] == x);
                        }
                    }
                }
            }
            i = i + 1;
        }
        assert(ps.take(ps.len() as int) =~= ps);
        self.round_whitelist.clear_prefix(round_id);
        self.whitelist_count.remove(&round_id);
        self.round_payment_options.remove(&round_id);
        self.raised_funds.clear_prefix(round_id);
        let mut rounds = match self.entity_rounds.remove(&round.entity_id) {
            Some(v) => v,
            None => Vec::new(),
        };
        vec_remove_all(&mut rounds, round_id);
        self.entity_rounds.insert(round.entity_id, rounds);
        proof {
            assert(self.entity_rounds@ =~= old(self).entity_rounds@.insert(round.entity_id, self.entity_rounds@[round.entity_id]));
        }
        self.events.push(Event::RoundStorageCleaned { round_id, subscriptions_removed: removed });
        Ok(())
    }

    /// Starts a governance batch refund of a cancelled round over `len`
    /// subscribers.
    pub fn force_batch_refund_begin(&self, round_id: u64, len: usize) -> (r: Result<BatchRefund, Error>)
        requires
            len <= self.config.max_batch_refund,
        ensures
            len == 0 ==> r == Err::<BatchRefund, Error>(Error::EmptyBatch),
            len > 0 && !self.sale_rounds@.contains_key(round_id) ==> r == Err::<BatchRefund, Error>(Error::RoundNotFound),
            len > 0 && self.sale_rounds@.contains_key(round_id) ==> {
                let round = self.sale_rounds@[round_id];
                if !(round.status is Cancelled) {
                    r == Err::<BatchRefund, Error>(Error::SaleNotCancelled)
                } else {
                    r == Ok::<BatchRefund, Error>(BatchRefund {
                        round_id, entity_id: round.entity_id, refunded_count: 0, total_nex: 0, total_tokens: 0 })
                }
            },
    {
        if len == 0 {
            return Err(Error::EmptyBatch);
        }
        let round = match self.sale_rounds.get(&round_id) {
            Some(r) => *r,
            None => return Err(Error::RoundNotFound),
        };
        if round.status != RoundStatus::Cancelled {
            return Err(Error::SaleNotCancelled);
        }
        Ok(BatchRefund { round_id, entity_id: round.entity_id, refunded_count: 0, total_nex: 0, total_tokens: 0 })
    }

    /// The subscription that a batch refund pays back for `subscriber`, if any:
    /// one that exists and was not refunded. Its tokens are to be unreserved
    /// next.
    pub fn batch_refund_due(&self, batch: &BatchRefund, subscriber: u64) -> (r: Option<Subscription>)
        ensures
            ({
                let key = (batch.round_id, subscriber);
                if self.subscriptions@.contains_key(key) && !self.subscriptions@[key].refunded {
                    r == Some(self.subscriptions@[key])
                } else {
                    r is None
                }
            }),
    {
        match self.subscriptions.get(&(batch.round_id, subscriber)) {
            Some(s) => if s.refunded { None } else { Some(*s) },
            None => None,
        }
    }

    /// What a batch refund does once the tokens of `sub` were unreserved with
    /// `deficit` left reserved: roll back and skip when anything is left, pay
    /// back otherwise.
    pub fn batch_refund_after_unreserve(&self, sub: &Subscription, subscriber: u64, deficit: u128) -> (r: BatchStep)
        ensures
            deficit != 0 ==> r == (BatchStep::Rollback { freed: clamp_u128(sub.amount - deficit) }),
            deficit == 0 ==> r == (BatchStep::Pay { transfer: Effect::Transfer {
                from: self.config.pallet_account, to: subscriber, amount: sub.payment_amount, keep_alive: false } }),
    {
        if deficit != 0 {
            BatchStep::Rollback { freed: sat_sub_u128(sub.amount, deficit) }
        } else {
            BatchStep::Pay { transfer: Effect::Transfer {
                from: self.config.pallet_account, to: subscriber, amount: sub.payment_amount, keep_alive: false } }
        }
    }

    /// Records the outcome of the payment to `subscriber` in a batch refund.
    /// A paid subscriber is marked refunded and counted; after a failed payment
    /// the returned amount of tokens is to be reserved again (a failure of that
    /// is ignored) and the subscriber is skipped.
    pub fn batch_refund_after_transfer(&mut self, batch: &mut BatchRefund, subscriber: u64, paid: bool) -> (rereserve: Option<u128>)
        requires
            old(self).subscriptions@.contains_key((old(batch).round_id, subscriber)),
            !old(self).subscriptions@[(old(batch).round_id, subscriber)].refunded,
        ensures
            ({
                let key = (old(batch).round_id, subscriber);
                let sub = old(self).subscriptions@[key];
                if paid {
                    &&& rereserve is None
                    &&& final(self).subscriptions@ == old(self).subscriptions@.insert(key, Subscription { refunded: true, ..sub })
                    &&& *final(batch) == (BatchRefund {
                        refunded_count: clamp_u32(old(batch).refunded_count + 1),
                        total_nex: clamp_u128(old(batch).total_nex + sub.payment_amount),
                        total_tokens: clamp_u128(old(batch).total_tokens + sub.amount),
                        ..*old(batch)
                    })
                    &&& *final(self) == (Pallet { subscriptions: final(self).subscriptions, ..*old(self) })
                } else {
                    &&& rereserve == Some(sub.amount)
                    &&& *final(batch) == *old(batch)
                    &&& *final(self) == *old(self)
                }
            }),
    {
        let key = (batch.round_id, subscriber);
        let sub = match self.subscriptions.get(&key) {
            Some(s) => *s,
            None => return None,
        };
        if !paid {
            return Some(sub.amount);
        }
        let mut updated = sub;
        updated.refunded = true;
        self.subscriptions.insert(key, updated);
        batch.total_nex = sat_add_u128(batch.total_nex, sub.payment_amount);
        batch.total_tokens = sat_add_u128(batch.total_tokens, sub.amount);
        batch.refunded_count = sat_add_u32(batch.refunded_count, 1);
        None
    }

    /// Ends a batch refund: the round's refund totals grow by what was paid
    /// back, and the batch is reported.
    pub fn force_batch_refund_finish(&mut self, batch: BatchRefund)
        ensures
            final(self).sale_rounds@ == (if batch.refunded_count > 0 && old(self).sale_rounds@.contains_key(batch.round_id) {
                let round = old(self).sale_rounds@[batch.round_id];
                old(self).sale_rounds@.insert(batch.round_id, SaleRound {
                    total_refunded_nex: clamp_u128(round.total_refunded_nex + batch.total_nex),
                    total_refunded_tokens: clamp_u128(round.total_refunded_tokens + batch.total_tokens),
                    ..round
                })
            } else {
                old(self).sale_rounds@
            }),
            final(self).events@ == old(self).events@.push(Event::ForceBatchRefundIssued {
                round_id: batch.round_id, refunded_count: batch.refunded_count, total_nex: batch.total_nex }),
            *final(self) == (Pallet { sale_rounds: final(self).sale_rounds, events: final(self).events, ..*old(self) }),
    {
        if batch.refunded_count > 0 {
            match self.sale_rounds.get(&batch.round_id) {
                Some(r) => {
                    let mut updated = *r;
                    updated.total_refunded_nex = sat_add_u128(r.total_refunded_nex, batch.total_nex);
                    updated.total_refunded_tokens = sat_add_u128(r.total_refunded_tokens, batch.total_tokens);
                    self.sale_rounds.insert(batch.round_id, updated);
                },
                None => {},
            }
        }
        self.events.push(Event::ForceBatchRefundIssued {
            round_id: batch.round_id,
            refunded_count: batch.refunded_count,
            total_nex: batch.total_nex,
        });
    }
}

} // verus!
