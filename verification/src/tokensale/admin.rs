//! Creating and configuring rounds before they start, and pausing, resuming and
//! extending them while they run.
use vstd::prelude::*;
use crate::arith::{clamp_u32, sat_add_u32, sat_sub_u32};
use crate::kvmap::{get_or, seq_or_empty};
use super::{EntityInfo, Error, Event, Pallet, PaymentConfig, RoundStatus, SaleMode, SaleRound, VestingConfig, VestingType};

verus! {

/// The first check the creation of a round fails, if any.
pub open spec fn create_error(
    p: Pallet,
    who: u64,
    now: u64,
    entity_id: u64,
    mode: SaleMode,
    total_supply: u128,
    start_block: u64,
    end_block: u64,
    min_kyc_level: u8,
    entity: EntityInfo,
) -> Option<Error> {
    if mode is Lottery {
        Some(Error::LotteryNotImplemented)
    } else if !entity.exists {
        Some(Error::EntityNotFound)
    } else if !entity.active {
        Some(Error::EntityNotActive)
    } else if entity.owner is None {
        Some(Error::EntityNotFound)
    } else if entity.owner->0 != who && !entity.caller_is_admin {
        Some(Error::Unauthorized)
    } else if entity.locked {
        Some(Error::EntityLocked)
    } else if total_supply == 0 {
        Some(Error::InvalidTotalSupply)
    } else if end_block <= start_block {
        Some(Error::InvalidTimeWindow)
    } else if min_kyc_level > 4 {
        Some(Error::InvalidKycLevel)
    } else if start_block < now {
        Some(Error::StartBlockInPast)
    } else if p.next_round_id == u64::MAX {
        Some(Error::RoundIdOverflow)
    } else if seq_or_empty(p.entity_rounds@, entity_id).len() >= p.config.max_rounds_history {
        Some(Error::RoundsHistoryFull)
    } else {
        None
    }
}

/// The errors shared by calls that configure a round before it starts.
pub open spec fn config_error(p: Pallet, who: u64, round_id: u64, entity: EntityInfo) -> Option<Error> {
    let round = p.sale_rounds@[round_id];
    if !p.sale_rounds@.contains_key(round_id) {
        Some(Error::RoundNotFound)
    } else if round.creator != who {
        Some(Error::Unauthorized)
    } else if entity.locked {
        Some(Error::EntityLocked)
    } else if !(round.status is NotStarted) {
        Some(Error::InvalidRoundStatus)
    } else {
        None
    }
}

/// Whitelist entries applied in order; `None` when the whitelist would exceed `max`.
pub open spec fn whitelist_add(
    m: Map<(u64, u64), Option<u128>>,
    count: u32,
    round_id: u64,
    entries: Seq<(u64, Option<u128>)>,
    max: u32,
) -> Option<(Map<(u64, u64), Option<u128>>, u32)>
    decreases entries.len(),
{
    if entries.len() == 0 {
        Some((m, count))
    } else {
        match whitelist_add(m, count, round_id, entries.drop_last(), max) {
            None => None,
            Some(prev) => {
                let (a, alloc) = entries.last();
                if !prev.0.contains_key((round_id, a)) {
                    if prev.1 >= max {
                        None
                    } else {
                        Some((prev.0.insert((round_id, a), alloc), clamp_u32(prev.1 + 1)))
                    }
                } else {
                    Some((prev.0.insert((round_id, a), alloc), prev.1))
                }
            },
        }
    }
}

/// Accounts removed in order from a round's whitelist, with the number that were on it.
pub open spec fn whitelist_remove(m: Map<(u64, u64), Option<u128>>, round_id: u64, accounts: Seq<u64>) -> (Map<(u64, u64), Option<u128>>, u32)
    decreases accounts.len(),
{
    if accounts.len() == 0 {
        (m, 0)
    } else {
        let prev = whitelist_remove(m, round_id, accounts.drop_last());
        if prev.0.contains_key((round_id, accounts.last())) {
            (prev.0.remove((round_id, accounts.last())), clamp_u32(prev.1 + 1))
        } else {
            prev
        }
    }
}

/// Whether some earlier entry names account `a`.
pub open spec fn listed_before(entries: Seq<(u64, Option<u128>)>, i: int, a: u64) -> bool {
    exists|j: int| 0 <= j < i && entries[j].0 == a
}

impl Pallet {
    fn config_check(&self, who: u64, round_id: u64, entity: &EntityInfo) -> (r: Result<SaleRound, Error>)
        ensures
            match config_error(*self, who, round_id, *entity) {
                Some(e) => r == Err::<SaleRound, Error>(e),
                None => r == Ok::<SaleRound, Error>(self.sale_rounds@[round_id]),
            },
    {
        let round = match self.sale_rounds.get(&round_id) {
            Some(r) => *r,
            None => return Err(Error::RoundNotFound),
        };
        if round.creator != who {
            return Err(Error::Unauthorized);
        }
        if entity.locked {
            return Err(Error::EntityLocked);
        }
        if round.status != RoundStatus::NotStarted {
            return Err(Error::InvalidRoundStatus);
        }
        Ok(round)
    }

    /// The entity's owner or a token admin creates a round that starts no
    /// earlier than now; it waits for payment options and its start.
    pub fn create_sale_round(
        &mut self,
        who: u64,
        now: u64,
        entity_id: u64,
        mode: SaleMode,
        total_supply: u128,
        start_block: u64,
        end_block: u64,
        kyc_required: bool,
        min_kyc_level: u8,
        soft_cap: u128,
        entity: EntityInfo,
    ) -> (r: Result<(), Error>)
        ensures
            match create_error(*old(self), who, now, entity_id, mode, total_supply, start_block, end_block, min_kyc_level, entity) {
                Some(e) => r == Err::<(), Error>(e) && *final(self) == *old(self),
                None => {
                    let id = old(self).next_round_id;
                    &&& r is Ok
                    &&& final(self).sale_rounds@ == old(self).sale_rounds@.insert(id, SaleRound {
                        id,
                        entity_id,
                        mode,
                        status: RoundStatus::NotStarted,
                        total_supply,
                        sold_amount: 0,
                        remaining_amount: total_supply,
                        participants_count: 0,
                        payment_options_count: 0,
                        vesting_config: VestingConfig::spec_default(),
                        kyc_required,
                        min_kyc_level,
                        start_block,
                        end_block,
                        dutch_start_price: None,
                        dutch_end_price: None,
                        creator: who,
                        created_at: now,
                        funds_withdrawn: false,
                        cancelled_at: None,
                        total_refunded_tokens: 0,
                        total_refunded_nex: 0,
                        soft_cap,
                    })
                    &&& final(self).next_round_id == id + 1
                    &&& final(self).entity_rounds@ == old(self).entity_rounds@.insert(entity_id, final(self).entity_rounds@[entity_id])
                    &&& final(self).entity_rounds@[entity_id]@ == seq_or_empty(old(self).entity_rounds@, entity_id).push(id)
                    &&& final(self).events@ == old(self).events@.push(Event::SaleRoundCreated {
                        round_id: id, entity_id, mode, total_supply })
                    &&& *final(self) == (Pallet {
                        sale_rounds: final(self).sale_rounds,
                        next_round_id: final(self).next_round_id,
                        entity_rounds: final(self).entity_rounds,
                        events: final(self).events,
                        ..*old(self)
                    })
                },
            },
    {
        if mode == SaleMode::Lottery {
            return Err(Error::LotteryNotImplemented);
        }
        if !entity.exists {
            return Err(Error::EntityNotFound);
        }
        if !entity.active {
            return Err(Error::EntityNotActive);
        }
        let owner = match entity.owner {
            Some(o) => o,
            None => return Err(Error::EntityNotFound),
        };
        if !(owner == who || entity.caller_is_admin) {
            return Err(Error::Unauthorized);
        }
        if entity.locked {
            return Err(Error::EntityLocked);
        }
        if total_supply == 0 {
            return Err(Error::InvalidTotalSupply);
        }
        if !(end_block > start_block) {
            return Err(Error::InvalidTimeWindow);
        }
        if min_kyc_level > 4 {
            return Err(Error::InvalidKycLevel);
        }
        if start_block < now {
            return Err(Error::StartBlockInPast);
        }
        let round_id = self.next_round_id;
        if round_id == u64::MAX {
            return Err(Error::RoundIdOverflow);
        }
        let n = match self.entity_rounds.get(&entity_id) {
            Some(v) => v.len(),
            None => 0,
        };
        if n >= self.config.max_rounds_history as usize {
            return Err(Error::RoundsHistoryFull);
        }
        let round = SaleRound {
            id: round_id,
            entity_id,
            mode,
            status: RoundStatus::NotStarted,
            total_supply,
            sold_amount: 0,
            remaining_amount: total_supply,
            participants_count: 0,
            payment_options_count: 0,
            vesting_config: VestingConfig::default(),
            kyc_required,
            min_kyc_level,
            start_block,
            end_block,
            dutch_start_price: None,
            dutch_end_price: None,
            creator: who,
            created_at: now,
            funds_withdrawn: false,
            cancelled_at: None,
            total_refunded_tokens: 0,
            total_refunded_nex: 0,
            soft_cap,
        };
        self.sale_rounds.insert(round_id, round);
        self.next_round_id = round_id + 1;
        let mut rounds = match self.entity_rounds.remove(&entity_id) {
            Some(v) => v,
            None => Vec::new(),
        };
        rounds.push(round_id);
        self.entity_rounds.insert(entity_id, rounds);
        proof {
            assert(self.entity_rounds@ =~= old(self).entity_rounds@.insert(entity_id, self.entity_rounds@[entity_id]));
        }
        self.events.push(Event::SaleRoundCreated { round_id, entity_id, mode, total_supply });
        Ok(())
    }

    /// Adds a way to pay in the native currency to a round that has not started.
    /// A Dutch auction may give price 0, since its price follows the auction.
    pub fn add_payment_option(
        &mut self,
        who: u64,
        round_id: u64,
        asset_id: Option<u64>,
        price: u128,
        min_purchase: u128,
        max_purchase_per_account: u128,
        entity: EntityInfo,
    ) -> (r: Result<(), Error>)
        ensures
            r is Err ==> *final(self) == *old(self),
            ({
                let opts = seq_or_empty(old(self).round_payment_options@, round_id);
                let round = old(self).sale_rounds@[round_id];
                let option = PaymentConfig { asset_id, price, min_purchase, max_purchase_per_account, enabled: true };
                if asset_id is Some {
                    r == Err::<(), Error>(Error::InvalidPaymentAsset)
                } else if min_purchase == 0 {
                    r == Err::<(), Error>(Error::InvalidPrice)
                } else if max_purchase_per_account < min_purchase {
                    r == Err::<(), Error>(Error::InvalidPurchaseLimits)
                } else if config_error(*old(self), who, round_id, entity) is Some {
                    r == Err::<(), Error>(config_error(*old(self), who, round_id, entity)->0)
                } else if !(round.mode is DutchAuction) && price == 0 {
                    r == Err::<(), Error>(Error::InvalidPrice)
                } else if exists|i: int| 0 <= i < opts.len() && #[trigger] opts[i].asset_id == asset_id {
                    r == Err::<(), Error>(Error::DuplicatePaymentOption)
                } else if opts.len() >= old(self).config.max_payment_options {
                    r == Err::<(), Error>(Error::PaymentOptionsFull)
                } else {
                    &&& r is Ok
                    &&& final(self).round_payment_options@ == old(self).round_payment_options@.insert(
                        round_id, final(self).round_payment_options@[round_id])
                    &&& final(self).round_payment_options@[round_id]@ == opts.push(option)
                    &&& final(self).sale_rounds@ == old(self).sale_rounds@.insert(round_id, SaleRound {
                        payment_options_count: clamp_u32(round.payment_options_count + 1), ..round })
                    &&& final(self).events@ == old(self).events@.push(Event::PaymentOptionAdded { round_id, asset_id })
                    &&& *final(self) == (Pallet {
                        round_payment_options: final(self).round_payment_options,
                        sale_rounds: final(self).sale_rounds,
                        events: final(self).events,
                        ..*old(self)
                    })
                }
            }),
    {
        if asset_id.is_some() {
            return Err(Error::InvalidPaymentAsset);
        }
        if min_purchase == 0 {
            return Err(Error::InvalidPrice);
        }
        if max_purchase_per_account < min_purchase {
            return Err(Error::InvalidPurchaseLimits);
        }
        let round = match self.config_check(who, round_id, &entity) {
            Ok(r) => r,
            Err(e) => return Err(e),
        };
        if round.mode != SaleMode::DutchAuction && price == 0 {
            return Err(Error::InvalidPrice);
        }
        let ghost opts = seq_or_empty(self.round_payment_options@, round_id);
        let (dup, n) = match self.round_payment_options.get(&round_id) {
            Some(v) => {
                let mut found = false;
                let mut i: usize = 0;
                while i < v.len()
                    invariant
                        0 <= i <= v@.len(),
                        v@ == opts,
                        asset_id is None,
                        found <==> exists|j: int| 0 <= j < i && #[trigger] opts[j].asset_id == asset_id,
                    decreases v@.len() - i,
                {
                    if v[i].asset_id.is_none() {
                        found = true;
                    }
                    i = i + 1;
                }
                (found, v.len())
            },
            None => (false, 0),
        };
        if dup {
            return Err(Error::DuplicatePaymentOption);
        }
        if n >= self.config.max_payment_options as usize {
            return Err(Error::PaymentOptionsFull);
        }
        let mut options = match self.round_payment_options.remove(&round_id) {
            Some(v) => v,
            None => Vec::new(),
        };
        options.push(PaymentConfig { asset_id, price, min_purchase, max_purchase_per_account, enabled: true });
        self.round_payment_options.insert(round_id, options);
        proof {
            assert(self.round_payment_options@ =~= old(self).round_payment_options@.insert(
                round_id, self.round_payment_options@[round_id]));
        }
        let mut updated = round;
        updated.payment_options_count = sat_add_u32(round.payment_options_count, 1);
        self.sale_rounds.insert(round_id, updated);
        self.events.push(Event::PaymentOptionAdded { round_id, asset_id });
        Ok(())
    }

    /// Sets the vesting schedule of a round that has not started.
    pub fn set_vesting_config(
        &mut self,
        who: u64,
        round_id: u64,
        vesting_type: VestingType,
        initial_unlock_bps: u16,
        cliff_duration: u64,
        total_duration: u64,
        unlock_interval: u64,
        entity: EntityInfo,
    ) -> (r: Result<(), Error>)
        ensures
            r is Err ==> *final(self) == *old(self),
            config_error(*old(self), who, round_id, entity) is Some
                ==> r == Err::<(), Error>(config_error(*old(self), who, round_id, entity)->0),
            config_error(*old(self), who, round_id, entity) is None ==> {
                if initial_unlock_bps > 10000 {
                    r == Err::<(), Error>(Error::InvalidVestingConfig)
                } else if total_duration < cliff_duration {
                    r == Err::<(), Error>(Error::InvalidVestingDuration)
                } else {
                    &&& r is Ok
                    &&& final(self).sale_rounds@ == old(self).sale_rounds@.insert(round_id, SaleRound {
                        vesting_config: VestingConfig { vesting_type, initial_unlock_bps, cliff_duration, total_duration, unlock_interval },
                        ..old(self).sale_rounds@[round_id]
                    })
                    &&& final(self).events@ == old(self).events@.push(Event::VestingConfigSet { round_id })
                    &&& *final(self) == (Pallet { sale_rounds: final(self).sale_rounds, events: final(self).events, ..*old(self) })
                }
            },
    {
        let round = match self.config_check(who, round_id, &entity) {
            Ok(r) => r,
            Err(e) => return Err(e),
        };
        if initial_unlock_bps > 10000 {
            return Err(Error::InvalidVestingConfig);
        }
        if total_duration < cliff_duration {
            return Err(Error::InvalidVestingDuration);
        }
        let mut updated = round;
        updated.vesting_config = VestingConfig { vesting_type, initial_unlock_bps, cliff_duration, total_duration, unlock_interval };
        self.sale_rounds.insert(round_id, updated);
        self.events.push(Event::VestingConfigSet { round_id });
        Ok(())
    }

    /// Sets the start and end prices of a Dutch auction that has not started;
    /// the price must fall and end above zero.
    pub fn configure_dutch_auction(
        &mut self,
        who: u64,
        round_id: u64,
        start_price: u128,
        end_price: u128,
        entity: EntityInfo,
    ) -> (r: Result<(), Error>)
        ensures
            r is Err ==> *final(self) == *old(self),
            ({
                let round = old(self).sale_rounds@[round_id];
                if !old(self).sale_rounds@.contains_key(round_id) {
                    r == Err::<(), Error>(Error::RoundNotFound)
                } else if round.creator != who {
                    r == Err::<(), Error>(Error::Unauthorized)
                } else if entity.locked {
                    r == Err::<(), Error>(Error::EntityLocked)
                } else if !(round.mode is DutchAuction) || !(round.status is NotStarted) {
                    r == Err::<(), Error>(Error::InvalidRoundStatus)
                } else if start_price <= end_price || end_price == 0 {
                    r == Err::<(), Error>(Error::InvalidDutchAuctionConfig)
                } else {
                    &&& r is Ok
                    &&& final(self).sale_rounds@ == old(self).sale_rounds@.insert(round_id, SaleRound {
                        dutch_start_price: Some(start_price), dutch_end_price: Some(end_price), ..round })
                    &&& final(self).events@ == old(self).events@.push(Event::DutchAuctionConfigured { round_id })
                    &&& *final(self) == (Pallet { sale_rounds: final(self).sale_rounds, events: final(self).events, ..*old(self) })
                }
            }),
    {
        let round = match self.sale_rounds.get(&round_id) {
            Some(r) => *r,
            None => return Err(Error::RoundNotFound),
        };
        if round.creator != who {
            return Err(Error::Unauthorized);
        }
        if entity.locked {
            return Err(Error::EntityLocked);
        }
        if round.mode != SaleMode::DutchAuction {
            return Err(Error::InvalidRoundStatus);
        }
        if round.status != RoundStatus::NotStarted {
            return Err(Error::InvalidRoundStatus);
        }
        if !(start_price > end_price) {
            return Err(Error::InvalidDutchAuctionConfig);
        }
        if end_price == 0 {
            return Err(Error::InvalidDutchAuctionConfig);
        }
        let mut updated = round;
        updated.dutch_start_price = Some(start_price);
        updated.dutch_end_price = Some(end_price);
        self.sale_rounds.insert(round_id, updated);
        self.events.push(Event::DutchAuctionConfigured { round_id });
        Ok(())
    }

    /// Whitelists accounts, each with an optional personal cap, in a round that
    /// has not started; fails if the whitelist would outgrow its limit.
    pub fn add_to_whitelist(
        &mut self,
        who: u64,
        round_id: u64,
        accounts: Vec<(u64, Option<u128>)>,
        entity: EntityInfo,
    ) -> (r: Result<(), Error>)
        requires
            accounts@.len() <= old(self).config.max_whitelist_size,
        ensures
            r is Err ==> *final(self) == *old(self),
            config_error(*old(self), who, round_id, entity) is Some
                ==> r == Err::<(), Error>(config_error(*old(self), who, round_id, entity)->0),
            config_error(*old(self), who, round_id, entity) is None ==> ({
                let res = whitelist_add(old(self).round_whitelist@, get_or(old(self).whitelist_count@, round_id, 0u32),
                    round_id, accounts@, old(self).config.max_whitelist_size);
                match res {
                    None => r == Err::<(), Error>(Error::WhitelistFull),
                    Some(done) => {
                        &&& r is Ok
                        &&& final(self).round_whitelist@ == done.0
                        &&& final(self).whitelist_count@ == old(self).whitelist_count@.insert(round_id, done.1)
                        &&& final(self).events@ == old(self).events@.push(Event::WhitelistUpdated { round_id, count: done.1 })
                        &&& *final(self) == (Pallet {
                            round_whitelist: final(self).round_whitelist,
                            whitelist_count: final(self).whitelist_count,
                            events: final(self).events,
                            ..*old(self)
                        })
                    },
                }
            }),
    {
        let _round = match self.config_check(who, round_id, &entity) {
            Ok(r) => r,
            Err(e) => return Err(e),
        };
        let max_size = self.config.max_whitelist_size;
        let count0 = self.whitelist_count.get_or(&round_id, 0);
        let ghost m0 = self.round_whitelist@;
        let ghost es = accounts@;
        // First pass: decide whether the whole list fits, without touching storage.
        let mut count = count0;
        let mut i: usize = 0;
        let ghost mut gm = m0;
        while i < accounts.len()
            invariant
                0 <= i <= es.len(),
                es == accounts@,
                m0 == self.round_whitelist@,
                *self == *old(self),
                config_error(*old(self), who, round_id, entity) is None,
                count0 == get_or(old(self).whitelist_count@, round_id, 0u32),
                max_size == old(self).config.max_whitelist_size,
                whitelist_add(m0, count0, round_id, es.take(i as int), max_size) == Some((gm, count)),
                forall|k: (u64, u64)| #[trigger] gm.contains_key(k) <==> (m0.contains_key(k)
                    || (k.0 == round_id && listed_before(es, i as int, k.1))),
            decreases es.len() - i,
        {
            let (a, alloc) = accounts[i];
            proof {
                assert(es.take(i + 1).drop_last() =~= es.take(i as int));
                assert(es.take(i + 1).last() == (a, alloc));
            }
            let mut seen = self.round_whitelist.contains_key(&(round_id, a));
            let mut j: usize = 0;
            while j < i
                invariant
                    0 <= j <= i < es.len(),
                    es == accounts@,
                    seen <==> (m0.contains_key((round_id, a)) || exists|t: int| 0 <= t < j && es[t].0 == a),
                    m0 == self.round_whitelist@,
                decreases i - j,
            {
                if accounts[j].0 == a {
                    seen = true;
                }
                j = j + 1;
            }
            proof {
                assert(seen == gm.contains_key((round_id, a)));
            }
            if !seen {
                if count >= max_size {
                    proof {
                        assert(whitelist_add(m0, count0, round_id, es.take(i + 1), max_size) is None);
                        lemma_whitelist_add_none_extends(m0, count0, round_id, es, max_size, i + 1);
                        assert(es.take(es.len() as int) =~= es);
                    }
                    return Err(Error::WhitelistFull);
                }
                count = sat_add_u32(count, 1);
            }
            proof {
                gm = gm.insert((round_id, a), alloc);
                assert forall|k: (u64, u64)| #[trigger] gm.contains_key(k) <==> (m0.contains_key(k)
                    || (k.0 == round_id && listed_before(es, i + 1, k.1))) by {
                    if k.0 == round_id && listed_before(es, i + 1, k.1) && !listed_before(es, i as int, k.1) {
                        let t = choose|t: int| 0 <= t < i + 1 && es[t].0 == k.1;
                        assert(t == i);
                    }
                    if k.0 == round_id && listed_before(es, i as int, k.1) {
                        let t = choose|t: int| 0 <= t < i && es[t].0 == k.1;
                        assert(listed_before(es, i + 1, k.1)) by {
                            assert(0 <= t < i + 1 && es[t].0 == k.1);
                        }
                    }
                    if k == (round_id, a) {
                        assert(listed_before(es, i + 1, a)) by {
                            assert(es[i as int].0 == a);
                        }
                    }
                }
            }
            i = i + 1;
        }
        proof {
            assert(es.take(es.len() as int) =~= es);
        }
        // Second pass: apply, knowing that it fits.
        let mut k: usize = 0;
        while k < accounts.len()
            invariant
                0 <= k <= es.len(),
                es == accounts@,
                whitelist_add(m0, count0, round_id, es, max_size) == Some((gm, count)),
                whitelist_add(m0, count0, round_id, es.take(k as int), max_size) is Some,
                self.round_whitelist@ == whitelist_add(m0, count0, round_id, es.take(k as int), max_size).unwrap().0,
                *self == (Pallet { round_whitelist: self.round_whitelist, ..*old(self) }),
            decreases es.len() - k,
        {
            let (a, alloc) = accounts[k];
            proof {
                assert(es.take(k + 1).drop_last() =~= es.take(k as int));
                assert(es.take(k + 1).last() == (a, alloc));
                lemma_whitelist_add_prefix(m0, count0, round_id, es, max_size, k + 1);
            }
            self.round_whitelist.insert((round_id, a), alloc);
            k = k + 1;
        }
        self.whitelist_count.insert(round_id, count);
        self.events.push(Event::WhitelistUpdated { round_id, count });
        Ok(())
    }

    /// Takes accounts off the whitelist of a round that has not started.
    pub fn remove_from_whitelist(&mut self, who: u64, round_id: u64, accounts: Vec<u64>, entity: EntityInfo) -> (r: Result<(), Error>)
        requires
            accounts@.len() <= old(self).config.max_whitelist_size,
        ensures
            r is Err ==> *final(self) == *old(self),
            config_error(*old(self), who, round_id, entity) is Some
                ==> r == Err::<(), Error>(config_error(*old(self), who, round_id, entity)->0),
            config_error(*old(self), who, round_id, entity) is None ==> ({
                let done = whitelist_remove(old(self).round_whitelist@, round_id, accounts@);
                &&& r is Ok
                &&& final(self).round_whitelist@ == done.0
                &&& final(self).whitelist_count@ == (if done.1 > 0 {
                    old(self).whitelist_count@.insert(round_id, clamp_u32(get_or(old(self).whitelist_count@, round_id, 0u32) - done.1))
                } else {
                    old(self).whitelist_count@
                })
                &&& final(self).events@ == old(self).events@.push(Event::WhitelistRemoved { round_id, removed_count: done.1 })
                &&& *final(self) == (Pallet {
                    round_whitelist: final(self).round_whitelist,
                    whitelist_count: final(self).whitelist_count,
                    events: final(self).events,
                    ..*old(self)
                })
            }),
    {
        let _round = match self.config_check(who, round_id, &entity) {
            Ok(r) => r,
            Err(e) => return Err(e),
        };
        let ghost m0 = self.round_whitelist@;
        let mut removed: u32 = 0;
        let mut i: usize = 0;
        while i < accounts.len()
            invariant
                0 <= i <= accounts@.len(),
                (self.round_whitelist@, removed) == whitelist_remove(m0, round_id, accounts@.take(i as int)),
                *self == (Pallet { round_whitelist: self.round_whitelist, ..*old(self) }),
                m0 == old(self).round_whitelist@,
            decreases accounts@.len() - i,
        {
            let a = accounts[i];
            proof {
                assert(accounts@.take(i + 1).drop_last() =~= accounts@.take(i as int));
                assert(accounts@.take(i + 1).last() == a);
            }
            if self.round_whitelist.contains_key(&(round_id, a)) {
                let _ = self.round_whitelist.remove(&(round_id, a));
                removed = sat_add_u32(removed, 1);
            }
            i = i + 1;
        }
        proof {
            assert(accounts@.take(accounts@.len() as int) =~= accounts@);
        }
        if removed > 0 {
            let c = self.whitelist_count.get_or(&round_id, 0);
            self.whitelist_count.insert(round_id, sat_sub_u32(c, removed));
        }
        self.events.push(Event::WhitelistRemoved { round_id, removed_count: removed });
        Ok(())
    }

    /// Removes the payment option at `index` of a round that has not started.
    pub fn remove_payment_option(&mut self, who: u64, round_id: u64, index: u32, entity: EntityInfo) -> (r: Result<(), Error>)
        ensures
            r is Err ==> *final(self) == *old(self),
            config_error(*old(self), who, round_id, entity) is Some
                ==> r == Err::<(), Error>(config_error(*old(self), who, round_id, entity)->0),
            config_error(*old(self), who, round_id, entity) is None ==> ({
                let opts = seq_or_empty(old(self).round_payment_options@, round_id);
                let round = old(self).sale_rounds@[round_id];
                if index >= opts.len() {
                    r == Err::<(), Error>(Error::PaymentOptionNotFound)
                } else {
                    &&& r is Ok
                    &&& final(self).round_payment_options@ == old(self).round_payment_options@.insert(
                        round_id, final(self).round_payment_options@[round_id])
                    &&& final(self).round_payment_options@[round_id]@ == opts.remove(index as int)
                    &&& final(self).sale_rounds@ == old(self).sale_rounds@.insert(round_id, SaleRound {
                        payment_options_count: clamp_u32(round.payment_options_count - 1), ..round })
                    &&& final(self).events@ == old(self).events@.push(Event::PaymentOptionRemoved { round_id, index })
                    &&& *final(self) == (Pallet {
                        round_payment_options: final(self).round_payment_options,
                        sale_rounds: final(self).sale_rounds,
                        events: final(self).events,
                        ..*old(self)
                    })
                }
            }),
    {
        let round = match self.config_check(who, round_id, &entity) {
            Ok(r) => r,
            Err(e) => return Err(e),
        };
        let n = match self.round_payment_options.get(&round_id) {
            Some(v) => v.len(),
            None => 0,
        };
        if (index as usize) >= n {
            return Err(Error::PaymentOptionNotFound);
        }
        let mut options = self.round_payment_options.remove(&round_id).unwrap();
        let _ = options.remove(index as usize);
        self.round_payment_options.insert(round_id, options);
        proof {
            assert(self.round_payment_options@ =~= old(self).round_payment_options@.insert(
                round_id, self.round_payment_options@[round_id]));
        }
        let mut updated = round;
        updated.payment_options_count = sat_sub_u32(round.payment_options_count, 1);
        self.sale_rounds.insert(round_id, updated);
        self.events.push(Event::PaymentOptionRemoved { round_id, index });
        Ok(())
    }

    /// Changes the parameters of a round that has not started; at least one is given.
    pub fn update_sale_round(
        &mut self,
        who: u64,
        now: u64,
        round_id: u64,
        total_supply: Option<u128>,
        start_block: Option<u64>,
        end_block: Option<u64>,
        kyc_required: Option<bool>,
        min_kyc_level: Option<u8>,
        entity: EntityInfo,
    ) -> (r: Result<(), Error>)
        ensures
            r is Err ==> *final(self) == *old(self),
            ({
                let round = old(self).sale_rounds@[round_id];
                let start = if start_block is Some { start_block->0 } else { round.start_block };
                let end = if end_block is Some { end_block->0 } else { round.end_block };
                if total_supply is None && start_block is None && end_block is None && kyc_required is None && min_kyc_level is None {
                    r == Err::<(), Error>(Error::NoUpdateProvided)
                } else if config_error(*old(self), who, round_id, entity) is Some {
                    r == Err::<(), Error>(config_error(*old(self), who, round_id, entity)->0)
                } else if total_supply == Some(0u128) {
                    r == Err::<(), Error>(Error::InvalidTotalSupply)
                } else if start_block is Some && start_block->0 < now {
                    r == Err::<(), Error>(Error::StartBlockInPast)
                } else if end <= start {
                    r == Err::<(), Error>(Error::InvalidTimeWindow)
                } else if min_kyc_level is Some && min_kyc_level->0 > 4 {
                    r == Err::<(), Error>(Error::InvalidKycLevel)
                } else {
                    &&& r is Ok
                    &&& final(self).sale_rounds@ == old(self).sale_rounds@.insert(round_id, SaleRound {
                        total_supply: if total_supply is Some { total_supply->0 } else { round.total_supply },
                        remaining_amount: if total_supply is Some { total_supply->0 } else { round.remaining_amount },
                        start_block: start,
                        end_block: end,
                        kyc_required: if kyc_required is Some { kyc_required->0 } else { round.kyc_required },
                        min_kyc_level: if min_kyc_level is Some { min_kyc_level->0 } else { round.min_kyc_level },
                        ..round
                    })
                    &&& final(self).events@ == old(self).events@.push(Event::SaleRoundUpdated { round_id })
                    &&& *final(self) == (Pallet { sale_rounds: final(self).sale_rounds, events: final(self).events, ..*old(self) })
                }
            }),
    {
        if total_supply.is_none() && start_block.is_none() && end_block.is_none() && kyc_required.is_none()
            && min_kyc_level.is_none() {
            return Err(Error::NoUpdateProvided);
        }
        let round = match self.config_check(who, round_id, &entity) {
            Ok(r) => r,
            Err(e) => return Err(e),
        };
        let mut updated = round;
        match total_supply {
            Some(supply) => {
                if supply == 0 {
                    return Err(Error::InvalidTotalSupply);
                }
                updated.total_supply = supply;
                updated.remaining_amount = supply;
            },
            None => {},
        }
        match start_block {
            Some(start) => {
                if start < now {
                    return Err(Error::StartBlockInPast);
                }
                updated.start_block = start;
            },
            None => {},
        }
        match end_block {
            Some(end) => {
                updated.end_block = end;
            },
            None => {},
        }
        if !(updated.end_block > updated.start_block) {
            return Err(Error::InvalidTimeWindow);
        }
        match kyc_required {
            Some(k) => {
                updated.kyc_required = k;
            },
            None => {},
        }
        match min_kyc_level {
            Some(level) => {
                if level > 4 {
                    return Err(Error::InvalidKycLevel);
                }
                updated.min_kyc_level = level;
            },
            None => {},
        }
        self.sale_rounds.insert(round_id, updated);
        self.events.push(Event::SaleRoundUpdated { round_id });
        Ok(())
    }

    /// The errors shared by calls on a running round.
    pub open spec fn running_error(self, who: u64, round_id: u64, entity: EntityInfo) -> Option<Error> {
        let round = self.sale_rounds@[round_id];
        if !self.sale_rounds@.contains_key(round_id) {
            Some(Error::RoundNotFound)
        } else if round.creator != who {
            Some(Error::Unauthorized)
        } else if entity.locked {
            Some(Error::EntityLocked)
        } else {
            None
        }
    }

    /// Moves the end of an active or paused round later.
    pub fn extend_sale(&mut self, who: u64, round_id: u64, new_end_block: u64, entity: EntityInfo) -> (r: Result<(), Error>)
        ensures
            r is Err ==> *final(self) == *old(self),
            old(self).running_error(who, round_id, entity) is Some
                ==> r == Err::<(), Error>(old(self).running_error(who, round_id, entity)->0),
            old(self).running_error(who, round_id, entity) is None ==> ({
                let round = old(self).sale_rounds@[round_id];
                if !(round.status is Active || round.status is Paused) {
                    r == Err::<(), Error>(Error::InvalidRoundStatus)
                } else if new_end_block <= round.end_block {
                    r == Err::<(), Error>(Error::InvalidExtension)
                } else {
                    &&& r is Ok
                    &&& final(self).sale_rounds@ == old(self).sale_rounds@.insert(round_id, SaleRound { end_block: new_end_block, ..round })
                    &&& final(self).events@ == old(self).events@.push(Event::SaleExtended { round_id, new_end_block })
                    &&& *final(self) == (Pallet { sale_rounds: final(self).sale_rounds, events: final(self).events, ..*old(self) })
                }
            }),
    {
        let round = match self.sale_rounds.get(&round_id) {
            Some(r) => *r,
            None => return Err(Error::RoundNotFound),
        };
        if round.creator != who {
            return Err(Error::Unauthorized);
        }
        if entity.locked {
            return Err(Error::EntityLocked);
        }
        if !(round.status == RoundStatus::Active || round.status == RoundStatus::Paused) {
            return Err(Error::InvalidRoundStatus);
        }
        if !(new_end_block > round.end_block) {
            return Err(Error::InvalidExtension);
        }
        let mut updated = round;
        updated.end_block = new_end_block;
        self.sale_rounds.insert(round_id, updated);
        self.events.push(Event::SaleExtended { round_id, new_end_block });
        Ok(())
    }

    /// Pauses an active round; subscriptions stop until it resumes.
    pub fn pause_sale(&mut self, who: u64, round_id: u64, entity: EntityInfo) -> (r: Result<(), Error>)
        ensures
            r is Err ==> *final(self) == *old(self),
            old(self).running_error(who, round_id, entity) is Some
                ==> r == Err::<(), Error>(old(self).running_error(who, round_id, entity)->0),
            old(self).running_error(who, round_id, entity) is None ==> ({
                let round = old(self).sale_rounds@[round_id];
                if !(round.status is Active) {
                    r == Err::<(), Error>(Error::InvalidRoundStatus)
                } else {
                    &&& r is Ok
                    &&& final(self).sale_rounds@ == old(self).sale_rounds@.insert(round_id, SaleRound { status: RoundStatus::Paused, ..round })
                    &&& final(self).events@ == old(self).events@.push(Event::SaleRoundPaused { round_id })
                    &&& *final(self) == (Pallet { sale_rounds: final(self).sale_rounds, events: final(self).events, ..*old(self) })
                }
            }),
    {
        let round = match self.sale_rounds.get(&round_id) {
            Some(r) => *r,
            None => return Err(Error::RoundNotFound),
        };
        if round.creator != who {
            return Err(Error::Unauthorized);
        }
        if entity.locked {
            return Err(Error::EntityLocked);
        }
        if round.status != RoundStatus::Active {
            return Err(Error::InvalidRoundStatus);
        }
        let mut updated = round;
        updated.status = RoundStatus::Paused;
        self.sale_rounds.insert(round_id, updated);
        self.events.push(Event::SaleRoundPaused { round_id });
        Ok(())
    }

    /// Resumes a paused round.
    pub fn resume_sale(&mut self, who: u64, round_id: u64, entity: EntityInfo) -> (r: Result<(), Error>)
        ensures
            r is Err ==> *final(self) == *old(self),
            old(self).running_error(who, round_id, entity) is Some
                ==> r == Err::<(), Error>(old(self).running_error(who, round_id, entity)->0),
            old(self).running_error(who, round_id, entity) is None ==> ({
                let round = old(self).sale_rounds@[round_id];
                if !(round.status is Paused) {
                    r == Err::<(), Error>(Error::SaleNotPaused)
                } else {
                    &&& r is Ok
                    &&& final(self).sale_rounds@ == old(self).sale_rounds@.insert(round_id, SaleRound { status: RoundStatus::Active, ..round })
                    &&& final(self).events@ == old(self).events@.push(Event::SaleRoundResumed { round_id })
                    &&& *final(self) == (Pallet { sale_rounds: final(self).sale_rounds, events: final(self).events, ..*old(self) })
                }
            }),
    {
        let round = match self.sale_rounds.get(&round_id) {
            Some(r) => *r,
            None => return Err(Error::RoundNotFound),
        };
        if round.creator != who {
            return Err(Error::Unauthorized);
        }
        if entity.locked {
            return Err(Error::EntityLocked);
        }
        if round.status != RoundStatus::Paused {
            return Err(Error::SaleNotPaused);
        }
        let mut updated = round;
        updated.status = RoundStatus::Active;
        self.sale_rounds.insert(round_id, updated);
        self.events.push(Event::SaleRoundResumed { round_id });
        Ok(())
    }
}

/// Once a prefix of a whitelist addition overflows, every longer prefix does too.
proof fn lemma_whitelist_add_none_extends(
    m: Map<(u64, u64), Option<u128>>,
    count: u32,
    round_id: u64,
    es: Seq<(u64, Option<u128>)>,
    max: u32,
    k: int,
)
    requires
        0 <= k <= es.len(),
        whitelist_add(m, count, round_id, es.take(k), max) is None,
    ensures
        whitelist_add(m, count, round_id, es.take(es.len() as int), max) is None,
    decreases es.len() - k,
{
    if k < es.len() {
        assert(es.take(k + 1).drop_last() =~= es.take(k));
        lemma_whitelist_add_none_extends(m, count, round_id, es, max, k + 1);
    }
}

/// A whitelist addition that succeeds as a whole succeeds on every prefix, and
/// each step of it inserts the step's entry.
proof fn lemma_whitelist_add_prefix(
    m: Map<(u64, u64), Option<u128>>,
    count: u32,
    round_id: u64,
    es: Seq<(u64, Option<u128>)>,
    max: u32,
    k: int,
)
    requires
        whitelist_add(m, count, round_id, es, max) is Some,
        0 < k <= es.len(),
    ensures
        whitelist_add(m, count, round_id, es.take(k), max) is Some,
        whitelist_add(m, count, round_id, es.take(k), max).unwrap().0
            == whitelist_add(m, count, round_id, es.take(k - 1), max).unwrap().0.insert((round_id, es[k - 1].0), es[k - 1].1),
    decreases es.len() - k,
{
    assert(es.take(k).drop_last() =~= es.take(k - 1));
    if k < es.len() {
        lemma_whitelist_add_prefix(m, count, round_id, es, max, k + 1);
        assert(es.take(k + 1).drop_last() =~= es.take(k));
    } else {
        assert(es.take(k) =~= es);
    }
}

} // verus!
