//! Subscribing to an active round and adding to a subscription.
use vstd::prelude::*;
use crate::arith::{clamp_u128, clamp_u32, sat_add_u128, sat_add_u32, sat_sub_u128};
use crate::kvmap::{get_or, seq_or_empty};
use super::{Effect, Error, Event, Pallet, PaymentConfig, RoundStatus, SaleMode, SaleRound, Subscription};
use super::laws::{asset_paid_sum, lemma_asset_paid_sum_other, lemma_asset_paid_sum_update, paid_in, round_books};
use super::math::{calculate_payment_amount, spec_payment_amount};

verus! {

/// The first enabled payment option for `asset`.
pub open spec fn find_option(opts: Seq<PaymentConfig>, asset: Option<u64>) -> Option<PaymentConfig>
    decreases opts.len(),
{
    if opts.len() == 0 {
        None
    } else if opts[0].asset_id == asset && opts[0].enabled {
        Some(opts[0])
    } else {
        find_option(opts.drop_first(), asset)
    }
}

/// The purchase cap of `who` in a round: a personal whitelist cap where a
/// whitelist round grants one, else the option's cap.
pub open spec fn effective_max(p: Pallet, round: SaleRound, round_id: u64, who: u64, option: PaymentConfig) -> u128 {
    if round.mode is WhitelistAllocation {
        match get_or(p.round_whitelist@, (round_id, who), None) {
            Some(cap) => cap,
            None => option.max_purchase_per_account,
        }
    } else {
        option.max_purchase_per_account
    }
}

/// The first check a subscription fails, if any.
pub open spec fn subscribe_error(
    p: Pallet,
    who: u64,
    now: u64,
    round_id: u64,
    amount: u128,
    payment_asset: Option<u64>,
    can_insider_trade: bool,
    kyc_level: u8,
) -> Option<Error> {
    let round = p.sale_rounds@[round_id];
    let option = find_option(seq_or_empty(p.round_payment_options@, round_id), payment_asset);
    if !p.sale_rounds@.contains_key(round_id) {
        Some(Error::RoundNotFound)
    } else if !(round.status is Active) {
        Some(Error::InvalidRoundStatus)
    } else if round.remaining_amount < amount {
        Some(Error::SoldOut)
    } else if !(round.start_block <= now <= round.end_block) {
        Some(Error::SaleNotInTimeWindow)
    } else if p.subscriptions@.contains_key((round_id, who)) {
        Some(Error::AlreadySubscribed)
    } else if !can_insider_trade {
        Some(Error::InsiderTradingBlocked)
    } else if round.kyc_required && kyc_level < round.min_kyc_level {
        Some(Error::InsufficientKycLevel)
    } else if round.mode is WhitelistAllocation && !p.round_whitelist@.contains_key((round_id, who)) {
        Some(Error::NotInWhitelist)
    } else if seq_or_empty(p.round_participants@, round_id).len() >= p.config.max_subscriptions_per_round {
        Some(Error::ParticipantsFull)
    } else if option is None {
        Some(Error::InvalidPaymentAsset)
    } else if amount < option->0.min_purchase {
        Some(Error::BelowMinPurchase)
    } else if amount > effective_max(p, round, round_id, who, option->0) {
        Some(Error::ExceedsPurchaseLimit)
    } else if spec_payment_amount(round, amount, option->0, now) is Err {
        Some(spec_payment_amount(round, amount, option->0, now)->Err_0)
    } else {
        None
    }
}

/// The first check an increase of a subscription fails, if any.
pub open spec fn increase_error(
    p: Pallet,
    who: u64,
    now: u64,
    round_id: u64,
    additional_amount: u128,
    payment_asset: Option<u64>,
    can_insider_trade: bool,
    kyc_level: u8,
) -> Option<Error> {
    let round = p.sale_rounds@[round_id];
    let sub = p.subscriptions@[(round_id, who)];
    let option = find_option(seq_or_empty(p.round_payment_options@, round_id), payment_asset);
    if !p.sale_rounds@.contains_key(round_id) {
        Some(Error::RoundNotFound)
    } else if !(round.status is Active) {
        Some(Error::InvalidRoundStatus)
    } else if round.remaining_amount < additional_amount {
        Some(Error::SoldOut)
    } else if additional_amount == 0 {
        Some(Error::InvalidTotalSupply)
    } else if !(round.start_block <= now <= round.end_block) {
        Some(Error::SaleNotInTimeWindow)
    } else if !p.subscriptions@.contains_key((round_id, who)) {
        Some(Error::NotSubscribed)
    } else if !can_insider_trade {
        Some(Error::InsiderTradingBlocked)
    } else if round.kyc_required && kyc_level < round.min_kyc_level {
        Some(Error::InsufficientKycLevel)
    } else if option is None {
        Some(Error::InvalidPaymentAsset)
    } else if clamp_u128(sub.amount + additional_amount) > effective_max(p, round, round_id, who, option->0) {
        Some(Error::ExceedsPurchaseLimit)
    } else if spec_payment_amount(round, additional_amount, option->0, now) is Err {
        Some(spec_payment_amount(round, additional_amount, option->0, now)->Err_0)
    } else {
        None
    }
}

fn find_payment_option(opts: &Vec<PaymentConfig>, asset: Option<u64>) -> (r: Option<PaymentConfig>)
    ensures
        r == find_option(opts@, asset),
{
    let mut i: usize = 0;
    assert(opts@.subrange(0, opts@.len() as int) =~= opts@);
    while i < opts.len()
        invariant
            0 <= i <= opts@.len(),
            find_option(opts@, asset) == find_option(opts@.subrange(i as int, opts@.len() as int), asset),
        decreases opts@.len() - i,
    {
        let o = opts[i];
        let ghost rest = opts@.subrange(i as int, opts@.len() as int);
        assert(rest[0] == o);
        assert(rest.drop_first() =~= opts@.subrange(i + 1, opts@.len() as int));
        let matches = match (o.asset_id, asset) {
            (Some(a), Some(b)) => a == b,
            (None, None) => true,
            _ => false,
        };
        if matches && o.enabled {
            return Some(o);
        }
        i = i + 1;
    }
    None
}

impl Pallet {
    pub(crate) fn payment_option_for(&self, round_id: u64, asset: Option<u64>) -> (r: Option<PaymentConfig>)
        ensures
            r == find_option(seq_or_empty(self.round_payment_options@, round_id), asset),
    {
        match self.round_payment_options.get(&round_id) {
            Some(opts) => find_payment_option(opts, asset),
            None => None,
        }
    }

    fn effective_max_of(&self, round: &SaleRound, round_id: u64, who: u64, option: &PaymentConfig) -> (r: u128)
        ensures
            r == effective_max(*self, *round, round_id, who, *option),
    {
        if round.mode == SaleMode::WhitelistAllocation {
            match self.round_whitelist.get_or(&(round_id, who), None) {
                Some(cap) => cap,
                None => option.max_purchase_per_account,
            }
        } else {
            option.max_purchase_per_account
        }
    }

    /// Buys `amount` tokens of an active round at its current price; the payment
    /// goes to the pallet's account. `can_insider_trade` and `kyc_level` are what
    /// the disclosure and KYC services say of the caller in the round's entity.
    pub fn subscribe(
        &mut self,
        who: u64,
        now: u64,
        round_id: u64,
        amount: u128,
        payment_asset: Option<u64>,
        can_insider_trade: bool,
        kyc_level: u8,
    ) -> (r: Result<Vec<Effect>, Error>)
        ensures
            match subscribe_error(*old(self), who, now, round_id, amount, payment_asset, can_insider_trade, kyc_level) {
                Some(e) => r == Err::<Vec<Effect>, Error>(e) && *final(self) == *old(self),
                None => {
                    let round = old(self).sale_rounds@[round_id];
                    let option = find_option(seq_or_empty(old(self).round_payment_options@, round_id), payment_asset)->0;
                    let pay = spec_payment_amount(round, amount, option, now)->Ok_0;
                    &&& r matches Ok(effects) && effects@ == seq![Effect::Transfer {
                        from: who, to: old(self).config.pallet_account, amount: pay, keep_alive: true }]
                    &&& final(self).subscriptions@ == old(self).subscriptions@.insert((round_id, who), Subscription {
                        subscriber: who,
                        round_id,
                        amount,
                        payment_asset,
                        payment_amount: pay,
                        subscribed_at: now,
                        claimed: false,
                        unlocked_amount: 0,
                        refunded: false,
                    })
                    &&& final(self).sale_rounds@ == old(self).sale_rounds@.insert(round_id, SaleRound {
                        sold_amount: clamp_u128(round.sold_amount + amount),
                        remaining_amount: clamp_u128(round.remaining_amount - amount),
                        participants_count: clamp_u32(round.participants_count + 1),
                        ..round
                    })
                    &&& final(self).round_participants@ == old(self).round_participants@.insert(
                        round_id, final(self).round_participants@[round_id])
                    &&& final(self).round_participants@[round_id]@ == seq_or_empty(old(self).round_participants@, round_id).push(who)
                    &&& final(self).raised_funds@ == old(self).raised_funds@.insert((round_id, payment_asset),
                        clamp_u128(get_or(old(self).raised_funds@, (round_id, payment_asset), 0u128) + pay))
                    &&& final(self).events@ == old(self).events@.push(Event::Subscribed {
                        round_id, subscriber: who, amount, payment_amount: pay })
                    &&& (round_books(*old(self), round_id)
                        && get_or(old(self).raised_funds@, (round_id, payment_asset), 0u128) + pay <= u128::MAX)
                        ==> round_books(*final(self), round_id)
                    &&& *final(self) == (Pallet {
                        subscriptions: final(self).subscriptions,
                        sale_rounds: final(self).sale_rounds,
                        round_participants: final(self).round_participants,
                        raised_funds: final(self).raised_funds,
                        events: final(self).events,
                        ..*old(self)
                    })
                },
            },
    {
        let round = match self.sale_rounds.get(&round_id) {
            Some(r) => *r,
            None => return Err(Error::RoundNotFound),
        };
        if round.status != RoundStatus::Active {
            return Err(Error::InvalidRoundStatus);
        }
        if round.remaining_amount < amount {
            return Err(Error::SoldOut);
        }
        if !(now >= round.start_block && now <= round.end_block) {
            return Err(Error::SaleNotInTimeWindow);
        }
        if self.subscriptions.contains_key(&(round_id, who)) {
            return Err(Error::AlreadySubscribed);
        }
        if !can_insider_trade {
            return Err(Error::InsiderTradingBlocked);
        }
        if round.kyc_required && kyc_level < round.min_kyc_level {
            return Err(Error::InsufficientKycLevel);
        }
        if round.mode == SaleMode::WhitelistAllocation && !self.round_whitelist.contains_key(&(round_id, who)) {
            return Err(Error::NotInWhitelist);
        }
        let n = match self.round_participants.get(&round_id) {
            Some(v) => v.len(),
            None => 0,
        };
        if n >= self.config.max_subscriptions_per_round as usize {
            return Err(Error::ParticipantsFull);
        }
        let option = match self.payment_option_for(round_id, payment_asset) {
            Some(o) => o,
            None => return Err(Error::InvalidPaymentAsset),
        };
        if amount < option.min_purchase {
            return Err(Error::BelowMinPurchase);
        }
        let effective_max = self.effective_max_of(&round, round_id, who, &option);
        if amount > effective_max {
            return Err(Error::ExceedsPurchaseLimit);
        }
        let payment_amount = match calculate_payment_amount(&round, amount, &option, now) {
            Ok(v) => v,
            Err(e) => return Err(e),
        };
        let mut effects: Vec<Effect> = Vec::new();
        effects.push(Effect::Transfer {
            from: who,
            to: self.config.pallet_account,
            amount: payment_amount,
            keep_alive: true,
        });
        self.subscriptions.insert((round_id, who), Subscription {
            subscriber: who,
            round_id,
            amount,
            payment_asset,
            payment_amount,
            subscribed_at: now,
            claimed: false,
            unlocked_amount: 0,
            refunded: false,
        });
        let mut updated = round;
        updated.sold_amount = sat_add_u128(round.sold_amount, amount);
        updated.remaining_amount = sat_sub_u128(round.remaining_amount, amount);
        updated.participants_count = sat_add_u32(round.participants_count, 1);
        self.sale_rounds.insert(round_id, updated);
        let mut participants = match self.round_participants.remove(&round_id) {
            Some(v) => v,
            None => Vec::new(),
        };
        participants.push(who);
        self.round_participants.insert(round_id, participants);
        proof {
            assert(self.round_participants@ =~= old(self).round_participants@.insert(
                round_id, self.round_participants@[round_id]));
        }
        let raised = self.raised_funds.get_or(&(round_id, payment_asset), 0);
        self.raised_funds.insert((round_id, payment_asset), sat_add_u128(raised, payment_amount));
        self.events.push(Event::Subscribed { round_id, subscriber: who, amount, payment_amount });
        proof {
            if round_books(*old(self), round_id)
                && get_or(old(self).raised_funds@, (round_id, payment_asset), 0u128) + payment_amount <= u128::MAX {
                let parts = seq_or_empty(old(self).round_participants@, round_id);
                let s_new = self.subscriptions@[(round_id, who)];
                assert(!parts.contains(who)) by {
                    assert(!old(self).subscriptions@.contains_key((round_id, who)));
                }
                let np = parts.push(who);
                assert(seq_or_empty(self.round_participants@, round_id) == np);
                assert(np.drop_last() =~= parts);
                assert(self.subscriptions@ == old(self).subscriptions@.insert((round_id, who), s_new));
                assert forall|x: Option<u64>| #[trigger] get_or(self.raised_funds@, (round_id, x), 0u128)
                    == asset_paid_sum(self.subscriptions@, round_id, np, x) by {
                    lemma_asset_paid_sum_other(old(self).subscriptions@, round_id, parts, who, s_new, x);
                    assert(asset_paid_sum(self.subscriptions@, round_id, np, x)
                        == asset_paid_sum(old(self).subscriptions@, round_id, parts, x) + paid_in(s_new, x));
                    assert(get_or(old(self).raised_funds@, (round_id, x), 0u128)
                        == asset_paid_sum(old(self).subscriptions@, round_id, parts, x));
                }
                assert(np.no_duplicates()) by {
                    assert forall|i: int, j: int| 0 <= i < np.len() && 0 <= j < np.len() && i != j implies np[i] != np[j] by {
                        if i < parts.len() && j < parts.len() {
                            assert(np[i] == parts[i] && np[j] == parts[j]);
                        } else if i < parts.len() {
                            assert(np[i] == parts[i]);
                            assert(parts.contains(parts[i]));
                        } else if j < parts.len() {
                            assert(np[j] == parts[j]);
                            assert(parts.contains(parts[j]));
                        }
                    }
                }
                assert forall|a: u64| #[trigger] self.subscriptions@.contains_key((round_id, a)) <==> np.contains(a) by {
                    if a != who {
                        if parts.contains(a) {
                            let i = choose|i: int| 0 <= i < parts.len() && parts[i] == a;
                            assert(np[i] == a);
                        }
                        if np.contains(a) {
                            let i = choose|i: int| 0 <= i < np.len() && np[i] == a;
                            assert(i < parts.len());
                            assert(parts[i] == a);
                        }
                        assert(old(self).subscriptions@.contains_key((round_id, a)) <==> parts.contains(a));
                    } else {
                        assert(np[np.len() - 1] == who);
                    }
                }
            }
        }
        Ok(effects)
    }

    /// Adds to an existing subscription of an active round, within the caller's cap.
    pub fn increase_subscription(
        &mut self,
        who: u64,
        now: u64,
        round_id: u64,
        additional_amount: u128,
        payment_asset: Option<u64>,
        can_insider_trade: bool,
        kyc_level: u8,
    ) -> (r: Result<Vec<Effect>, Error>)
        ensures
            match increase_error(*old(self), who, now, round_id, additional_amount, payment_asset, can_insider_trade, kyc_level) {
                Some(e) => r == Err::<Vec<Effect>, Error>(e) && *final(self) == *old(self),
                None => {
                    let round = old(self).sale_rounds@[round_id];
                    let sub = old(self).subscriptions@[(round_id, who)];
                    let option = find_option(seq_or_empty(old(self).round_payment_options@, round_id), payment_asset)->0;
                    let pay = spec_payment_amount(round, additional_amount, option, now)->Ok_0;
                    &&& r matches Ok(effects) && effects@ == seq![Effect::Transfer {
                        from: who, to: old(self).config.pallet_account, amount: pay, keep_alive: true }]
                    &&& final(self).subscriptions@ == old(self).subscriptions@.insert((round_id, who), Subscription {
                        amount: clamp_u128(sub.amount + additional_amount),
                        payment_amount: clamp_u128(sub.payment_amount + pay),
                        ..sub
                    })
                    &&& final(self).sale_rounds@ == old(self).sale_rounds@.insert(round_id, SaleRound {
                        sold_amount: clamp_u128(round.sold_amount + additional_amount),
                        remaining_amount: clamp_u128(round.remaining_amount - additional_amount),
                        ..round
                    })
                    &&& final(self).raised_funds@ == old(self).raised_funds@.insert((round_id, payment_asset),
                        clamp_u128(get_or(old(self).raised_funds@, (round_id, payment_asset), 0u128) + pay))
                    &&& final(self).events@ == old(self).events@.push(Event::SubscriptionIncreased {
                        round_id, subscriber: who, additional_amount, additional_payment: pay })
                    &&& (round_books(*old(self), round_id) && payment_asset == sub.payment_asset
                        && get_or(old(self).raised_funds@, (round_id, payment_asset), 0u128) + pay <= u128::MAX)
                        ==> round_books(*final(self), round_id)
                    &&& *final(self) == (Pallet {
                        subscriptions: final(self).subscriptions,
                        sale_rounds: final(self).sale_rounds,
                        raised_funds: final(self).raised_funds,
                        events: final(self).events,
                        ..*old(self)
                    })
                },
            },
    {
        let round = match self.sale_rounds.get(&round_id) {
            Some(r) => *r,
            None => return Err(Error::RoundNotFound),
        };
        if round.status != RoundStatus::Active {
            return Err(Error::InvalidRoundStatus);
        }
        if round.remaining_amount < additional_amount {
            return Err(Error::SoldOut);
        }
        if additional_amount == 0 {
            return Err(Error::InvalidTotalSupply);
        }
        if !(now >= round.start_block && now <= round.end_block) {
            return Err(Error::SaleNotInTimeWindow);
        }
        let sub = match self.subscriptions.get(&(round_id, who)) {
            Some(s) => *s,
            None => return Err(Error::NotSubscribed),
        };
        if !can_insider_trade {
            return Err(Error::InsiderTradingBlocked);
        }
        if round.kyc_required && kyc_level < round.min_kyc_level {
            return Err(Error::InsufficientKycLevel);
        }
        let option = match self.payment_option_for(round_id, payment_asset) {
            Some(o) => o,
            None => return Err(Error::InvalidPaymentAsset),
        };
        let new_total = sat_add_u128(sub.amount, additional_amount);
        let effective_max = self.effective_max_of(&round, round_id, who, &option);
        if new_total > effective_max {
            return Err(Error::ExceedsPurchaseLimit);
        }
        let additional_payment = match calculate_payment_amount(&round, additional_amount, &option, now) {
            Ok(v) => v,
            Err(e) => return Err(e),
        };
        let mut effects: Vec<Effect> = Vec::new();
        effects.push(Effect::Transfer {
            from: who,
            to: self.config.pallet_account,
            amount: additional_payment,
            keep_alive: true,
        });
        let mut s = sub;
        s.amount = sat_add_u128(sub.amount, additional_amount);
        s.payment_amount = sat_add_u128(sub.payment_amount, additional_payment);
        self.subscriptions.insert((round_id, who), s);
        let mut updated = round;
        updated.sold_amount = sat_add_u128(round.sold_amount, additional_amount);
        updated.remaining_amount = sat_sub_u128(round.remaining_amount, additional_amount);
        self.sale_rounds.insert(round_id, updated);
        let raised = self.raised_funds.get_or(&(round_id, payment_asset), 0);
        self.raised_funds.insert((round_id, payment_asset), sat_add_u128(raised, additional_payment));
        self.events.push(Event::SubscriptionIncreased {
            round_id,
            subscriber: who,
            additional_amount,
            additional_payment,
        });
        proof {
            if round_books(*old(self), round_id) && payment_asset == sub.payment_asset
                && get_or(old(self).raised_funds@, (round_id, payment_asset), 0u128) + additional_payment <= u128::MAX {
                let parts = seq_or_empty(old(self).round_participants@, round_id);
                let s_new = self.subscriptions@[(round_id, who)];
                assert(parts.contains(who)) by {
                    assert(old(self).subscriptions@.contains_key((round_id, who)));
                }
                assert(self.subscriptions@ == old(self).subscriptions@.insert((round_id, who), s_new));
                assert forall|x: Option<u64>| #[trigger] get_or(self.raised_funds@, (round_id, x), 0u128)
                    == asset_paid_sum(self.subscriptions@, round_id, parts, x) by {
                    lemma_asset_paid_sum_update(old(self).subscriptions@, round_id, parts, who, s_new, x);
                    assert(get_or(old(self).raised_funds@, (round_id, x), 0u128)
                        == asset_paid_sum(old(self).subscriptions@, round_id, parts, x));
                }
                assert forall|a: u64| #[trigger] self.subscriptions@.contains_key((round_id, a)) <==> parts.contains(a) by {
                    assert(old(self).subscriptions@.contains_key((round_id, a)) <==> parts.contains(a));
                }
            }
        }
        Ok(effects)
    }
}

/// While a round sells, a purchase moves tokens from the remaining to the sold
/// amount without changing their sum.
pub proof fn lemma_purchase_keeps_supply(round: SaleRound, amount: u128)
    requires
        round.sold_amount + round.remaining_amount == round.total_supply,
        amount <= round.remaining_amount,
    ensures
        clamp_u128(round.sold_amount + amount) + clamp_u128(round.remaining_amount - amount) == round.total_supply,
{
}

} // verus!
