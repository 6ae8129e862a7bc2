use std::collections::{HashMap, HashSet};

use pallets::tokensale::math::{calculate_dutch_price, calculate_initial_unlock, calculate_unlockable};
use pallets::tokensale::refunds::BatchStep;
use pallets::tokensale::{
    Config, Effect, EntityInfo, Error, Event, Pallet, RoundStatus, SaleMode, SaleRound, Subscription, TokenSaleStatus,
    VestingConfig, VestingType,
};

const CREATOR: u64 = 1;
const BUYER: u64 = 2;
const BUYER2: u64 = 3;
const ENTITY_ID: u64 = 100;
const ENTITY_ACCOUNT: u64 = 1000;
const INITIAL_BALANCE: u128 = 1_000_000_000;
const TOKEN_SUPPLY: u128 = 10_000_000;
const PALLET_ACCOUNT: u64 = 7777;
const EXISTENTIAL_DEPOSIT: u128 = 1;

/// Why a call of the test runtime failed: an error of the sale, or of the
/// native-currency ledger.
#[derive(Debug, PartialEq)]
enum Fail {
    Sale(Error),
    Balances(&'static str),
}

impl From<Error> for Fail {
    fn from(e: Error) -> Fail {
        Fail::Sale(e)
    }
}

type Res = Result<(), Fail>;

fn err(e: Error) -> Res {
    Err(Fail::Sale(e))
}

/// The sale with the ledgers and services of the test runtime around it.
#[derive(Clone)]
struct Env {
    p: Pallet,
    now: u64,
    native: HashMap<u64, u128>,
    tokens: HashMap<(u64, u64), u128>,
    reserved: HashMap<(u64, u64), u128>,
    locked: HashSet<u64>,
    owner_override: Option<u64>,
    kyc: HashMap<u64, u8>,
    insider_blocked: HashSet<(u64, u64)>,
}

impl Env {
    fn new() -> Env {
        let mut native = HashMap::new();
        for a in [CREATOR, BUYER, BUYER2, ENTITY_ACCOUNT] {
            native.insert(a, INITIAL_BALANCE);
        }
        let mut tokens = HashMap::new();
        tokens.insert((ENTITY_ID, ENTITY_ACCOUNT), TOKEN_SUPPLY);
        Env {
            p: Pallet::new(Config {
                max_payment_options: 5,
                max_whitelist_size: 100,
                max_rounds_history: 50,
                max_subscriptions_per_round: 1000,
                max_active_rounds: 10,
                refund_grace_period: 100,
                max_batch_refund: 50,
                pallet_account: PALLET_ACCOUNT,
                db_read_weight: 25_000_000,
                db_write_weight: 100_000_000,
            }),
            now: 0,
            native,
            tokens,
            reserved: HashMap::new(),
            locked: HashSet::new(),
            owner_override: None,
            kyc: HashMap::new(),
            insider_blocked: HashSet::new(),
        }
    }

    fn owner(&self) -> u64 {
        self.owner_override.unwrap_or(CREATOR)
    }

    fn entity(&self, entity_id: u64, who: u64) -> EntityInfo {
        let exists = entity_id == ENTITY_ID;
        EntityInfo {
            exists,
            active: exists,
            owner: if exists { Some(self.owner()) } else { None },
            caller_is_admin: exists && who == self.owner(),
            locked: self.locked.contains(&entity_id),
            account: if exists { ENTITY_ACCOUNT } else { 0 },
        }
    }

    fn round_entity(&self, round_id: u64, who: u64) -> EntityInfo {
        let id = self.p.sale_rounds.get(&round_id).map(|r| r.entity_id).unwrap_or(ENTITY_ID);
        self.entity(id, who)
    }

    fn balance(&self, a: u64) -> u128 {
        *self.native.get(&a).unwrap_or(&0)
    }

    fn token_balance(&self, a: u64) -> u128 {
        *self.tokens.get(&(ENTITY_ID, a)).unwrap_or(&0)
    }

    fn get_reserved(&self, a: u64) -> u128 {
        *self.reserved.get(&(ENTITY_ID, a)).unwrap_or(&0)
    }

    fn set_reserved(&mut self, a: u64, amount: u128) {
        self.reserved.insert((ENTITY_ID, a), amount);
    }

    fn entity_account(entity_id: u64) -> u64 {
        if entity_id == ENTITY_ID { ENTITY_ACCOUNT } else { 0 }
    }

    fn transfer(&mut self, from: u64, to: u64, amount: u128, keep_alive: bool) -> Res {
        if amount == 0 || from == to {
            return Ok(());
        }
        let b = self.balance(from);
        if b < amount {
            return Err(Fail::Balances("InsufficientBalance"));
        }
        let left = b - amount;
        if keep_alive && left < EXISTENTIAL_DEPOSIT {
            return Err(Fail::Balances("Expendability"));
        }
        if self.balance(to) + amount < EXISTENTIAL_DEPOSIT {
            return Err(Fail::Balances("ExistentialDeposit"));
        }
        self.native.insert(from, if left < EXISTENTIAL_DEPOSIT { 0 } else { left });
        *self.native.entry(to).or_insert(0) += amount;
        Ok(())
    }

    fn reserve(&mut self, entity_id: u64, amount: u128) -> bool {
        let acc = Env::entity_account(entity_id);
        let bal = self.tokens.entry((entity_id, acc)).or_insert(0);
        if *bal < amount {
            return false;
        }
        *bal -= amount;
        *self.reserved.entry((entity_id, acc)).or_insert(0) += amount;
        true
    }

    /// Releases up to `amount`; returns what stayed reserved of it.
    fn unreserve(&mut self, entity_id: u64, amount: u128) -> u128 {
        let acc = Env::entity_account(entity_id);
        let r = self.reserved.entry((entity_id, acc)).or_insert(0);
        let actual = amount.min(*r);
        *r -= actual;
        *self.tokens.entry((entity_id, acc)).or_insert(0) += actual;
        amount - actual
    }

    fn repatriate(&mut self, entity_id: u64, to: u64, amount: u128) -> u128 {
        let acc = Env::entity_account(entity_id);
        let r = self.reserved.entry((entity_id, acc)).or_insert(0);
        let actual = amount.min(*r);
        *r -= actual;
        *self.tokens.entry((entity_id, to)).or_insert(0) += actual;
        actual
    }

    fn apply(&mut self, effects: &[Effect]) -> Res {
        for e in effects {
            match *e {
                Effect::Transfer { from, to, amount, keep_alive } => self.transfer(from, to, amount, keep_alive)?,
                Effect::ReserveTokens { entity_id, amount } => {
                    if !self.reserve(entity_id, amount) {
                        return err(Error::InsufficientTokenSupply);
                    }
                },
                Effect::UnreserveTokens { entity_id, amount, require_full } => {
                    let left = self.unreserve(entity_id, amount);
                    if require_full && left != 0 {
                        return err(Error::IncompleteUnreserve);
                    }
                },
                Effect::RepatriateTokens { entity_id, to, amount } => {
                    if self.repatriate(entity_id, to, amount) != amount {
                        return err(Error::IncompleteUnreserve);
                    }
                },
            }
        }
        Ok(())
    }

    /// Runs a call with its effects as one transaction: on any failure the
    /// whole state is left as it was.
    fn run(&mut self, f: impl FnOnce(&mut Env) -> Result<Vec<Effect>, Error>) -> Res {
        let saved = self.clone();
        let r = match f(self) {
            Ok(effects) => self.apply(&effects),
            Err(e) => Err(Fail::Sale(e)),
        };
        if r.is_err() {
            *self = saved;
        }
        r
    }

    fn plain(&mut self, f: impl FnOnce(&mut Env) -> Result<(), Error>) -> Res {
        self.run(|e| f(e).map(|_| Vec::new()))
    }

    // Calls.

    fn create_sale_round(&mut self, who: u64, entity_id: u64, mode: SaleMode, supply: u128, start: u64, end: u64, kyc: bool, level: u8, soft_cap: u128) -> Res {
        let ent = self.entity(entity_id, who);
        let now = self.now;
        self.plain(|e| e.p.create_sale_round(who, now, entity_id, mode, supply, start, end, kyc, level, soft_cap, ent))
    }

    fn add_payment_option(&mut self, who: u64, round_id: u64, asset: Option<u64>, price: u128, min: u128, max: u128) -> Res {
        let ent = self.round_entity(round_id, who);
        self.plain(|e| e.p.add_payment_option(who, round_id, asset, price, min, max, ent))
    }

    fn set_vesting_config(&mut self, who: u64, round_id: u64, t: VestingType, bps: u16, cliff: u64, total: u64, interval: u64) -> Res {
        let ent = self.round_entity(round_id, who);
        self.plain(|e| e.p.set_vesting_config(who, round_id, t, bps, cliff, total, interval, ent))
    }

    fn configure_dutch_auction(&mut self, who: u64, round_id: u64, start: u128, end: u128) -> Res {
        let ent = self.round_entity(round_id, who);
        self.plain(|e| e.p.configure_dutch_auction(who, round_id, start, end, ent))
    }

    fn add_to_whitelist(&mut self, who: u64, round_id: u64, accounts: Vec<(u64, Option<u128>)>) -> Res {
        let ent = self.round_entity(round_id, who);
        self.plain(|e| e.p.add_to_whitelist(who, round_id, accounts, ent))
    }

    fn remove_from_whitelist(&mut self, who: u64, round_id: u64, accounts: Vec<u64>) -> Res {
        let ent = self.round_entity(round_id, who);
        self.plain(|e| e.p.remove_from_whitelist(who, round_id, accounts, ent))
    }

    fn remove_payment_option(&mut self, who: u64, round_id: u64, index: u32) -> Res {
        let ent = self.round_entity(round_id, who);
        self.plain(|e| e.p.remove_payment_option(who, round_id, index, ent))
    }

    fn update_sale_round(&mut self, who: u64, round_id: u64, supply: Option<u128>, start: Option<u64>, end: Option<u64>, kyc: Option<bool>, level: Option<u8>) -> Res {
        let ent = self.round_entity(round_id, who);
        let now = self.now;
        self.plain(|e| e.p.update_sale_round(who, now, round_id, supply, start, end, kyc, level, ent))
    }

    fn extend_sale(&mut self, who: u64, round_id: u64, new_end: u64) -> Res {
        let ent = self.round_entity(round_id, who);
        self.plain(|e| e.p.extend_sale(who, round_id, new_end, ent))
    }

    fn pause_sale(&mut self, who: u64, round_id: u64) -> Res {
        let ent = self.round_entity(round_id, who);
        self.plain(|e| e.p.pause_sale(who, round_id, ent))
    }

    fn resume_sale(&mut self, who: u64, round_id: u64) -> Res {
        let ent = self.round_entity(round_id, who);
        self.plain(|e| e.p.resume_sale(who, round_id, ent))
    }

    fn start_sale(&mut self, who: u64, round_id: u64) -> Res {
        let ent = self.round_entity(round_id, who);
        self.run(|e| e.p.start_sale(who, round_id, ent))
    }

    fn insider_ok(&self, round_id: u64, who: u64) -> bool {
        let id = self.p.sale_rounds.get(&round_id).map(|r| r.entity_id).unwrap_or(ENTITY_ID);
        !self.insider_blocked.contains(&(id, who))
    }

    fn kyc_level(&self, who: u64) -> u8 {
        *self.kyc.get(&who).unwrap_or(&0)
    }

    fn subscribe(&mut self, who: u64, round_id: u64, amount: u128, asset: Option<u64>) -> Res {
        let ok = self.insider_ok(round_id, who);
        let level = self.kyc_level(who);
        let now = self.now;
        self.run(|e| e.p.subscribe(who, now, round_id, amount, asset, ok, level))
    }

    fn increase_subscription(&mut self, who: u64, round_id: u64, amount: u128, asset: Option<u64>) -> Res {
        let ok = self.insider_ok(round_id, who);
        let level = self.kyc_level(who);
        let now = self.now;
        self.run(|e| e.p.increase_subscription(who, now, round_id, amount, asset, ok, level))
    }

    fn end_sale(&mut self, who: u64, round_id: u64) -> Res {
        let ent = self.round_entity(round_id, who);
        let now = self.now;
        self.run(|e| e.p.end_sale(who, now, round_id, ent))
    }

    fn cancel_sale(&mut self, who: u64, round_id: u64) -> Res {
        let ent = self.round_entity(round_id, who);
        let now = self.now;
        self.run(|e| e.p.cancel_sale(who, now, round_id, ent))
    }

    fn force_cancel_sale(&mut self, round_id: u64) -> Res {
        let now = self.now;
        self.run(|e| e.p.force_cancel_sale(now, round_id))
    }

    fn force_end_sale(&mut self, round_id: u64) -> Res {
        self.run(|e| e.p.force_end_sale(round_id))
    }

    fn claim_tokens(&mut self, who: u64, round_id: u64) -> Res {
        self.run(|e| e.p.claim_tokens(who, round_id))
    }

    fn unlock_tokens(&mut self, who: u64, round_id: u64) -> Res {
        let now = self.now;
        self.run(|e| e.p.unlock_tokens(who, now, round_id))
    }

    fn claim_refund(&mut self, who: u64, round_id: u64) -> Res {
        self.run(|e| e.p.claim_refund(who, round_id))
    }

    fn force_refund(&mut self, round_id: u64, subscriber: u64) -> Res {
        self.run(|e| e.p.force_refund(round_id, subscriber))
    }

    fn reclaim_unclaimed_tokens(&mut self, who: u64, round_id: u64) -> Res {
        let ent = self.round_entity(round_id, who);
        let now = self.now;
        self.run(|e| e.p.reclaim_unclaimed_tokens(who, now, round_id, ent))
    }

    fn withdraw_funds(&mut self, who: u64, round_id: u64) -> Res {
        let ent = self.round_entity(round_id, who);
        self.run(|e| e.p.withdraw_funds(who, round_id, ent))
    }

    fn force_withdraw_funds(&mut self, round_id: u64) -> Res {
        let ent = self.round_entity(round_id, 0);
        self.run(|e| e.p.force_withdraw_funds(round_id, ent))
    }

    fn cleanup_round(&mut self, who: u64, round_id: u64) -> Res {
        self.plain(|e| e.p.cleanup_round(who, round_id))
    }

    /// Governance batch refund, driving the sale's steps as the runtime does.
    fn force_batch_refund(&mut self, round_id: u64, subscribers: Vec<u64>) -> Res {
        let mut batch = match self.p.force_batch_refund_begin(round_id, subscribers.len()) {
            Ok(b) => b,
            Err(e) => return err(e),
        };
        for s in subscribers {
            let sub = match self.p.batch_refund_due(&batch, s) {
                Some(sub) => sub,
                None => continue,
            };
            let deficit = self.unreserve(batch.entity_id, sub.amount);
            match self.p.batch_refund_after_unreserve(&sub, s, deficit) {
                BatchStep::Rollback { freed } => {
                    if freed != 0 {
                        let _ = self.reserve(batch.entity_id, freed);
                    }
                },
                BatchStep::Pay { transfer } => {
                    let paid = self.apply(&[transfer]).is_ok();
                    if let Some(amount) = self.p.batch_refund_after_transfer(&mut batch, s, paid) {
                        let _ = self.reserve(batch.entity_id, amount);
                    }
                },
            }
        }
        self.p.force_batch_refund_finish(batch);
        Ok(())
    }

    fn on_initialize(&mut self, n: u64) {
        let (_w, effects) = self.p.on_initialize(n);
        let _ = self.apply(&effects);
    }

    // Storage reads.

    fn round(&self, round_id: u64) -> Option<SaleRound> {
        self.p.sale_rounds.get(&round_id).copied()
    }

    fn sub(&self, round_id: u64, who: u64) -> Option<Subscription> {
        self.p.subscriptions.get(&(round_id, who)).copied()
    }

    fn options_len(&self, round_id: u64) -> usize {
        self.p.round_payment_options.get(&round_id).map(|v| v.len()).unwrap_or(0)
    }

    fn whitelist_count(&self, round_id: u64) -> u32 {
        *self.p.whitelist_count.get(&round_id).unwrap_or(&0)
    }

    fn raised(&self, round_id: u64) -> u128 {
        *self.p.raised_funds.get(&(round_id, None)).unwrap_or(&0)
    }

    fn participants(&self, round_id: u64) -> Vec<u64> {
        self.p.round_participants.get(&round_id).cloned().unwrap_or_default()
    }

    fn entity_rounds(&self) -> Vec<u64> {
        self.p.entity_rounds.get(&ENTITY_ID).cloned().unwrap_or_default()
    }

    fn last_event(&self) -> Option<Event> {
        self.p.events.last().copied()
    }

    // Set-ups.

    fn setup_round(&mut self) -> u64 {
        assert!(self.create_sale_round(CREATOR, ENTITY_ID, SaleMode::FixedPrice, 1_000_000, 10, 100, false, 0, 0).is_ok());
        0
    }

    fn setup_active_round(&mut self) -> u64 {
        let round_id = self.setup_round();
        assert!(self.add_payment_option(CREATOR, round_id, None, 100, 10, 100_000).is_ok());
        assert!(self.start_sale(CREATOR, round_id).is_ok());
        self.now = 10;
        round_id
    }
}

#[test]
fn create_sale_round_works() {
    let mut e = Env::new();
    let round_id = e.setup_round();
    let round = e.round(round_id).unwrap();
    assert_eq!(round.entity_id, ENTITY_ID);
    assert_eq!(round.total_supply, 1_000_000u128);
    assert_eq!(round.status, RoundStatus::NotStarted);
    assert_eq!(round.funds_withdrawn, false);
}

#[test]
fn create_sale_round_rejects_invalid_entity() {
    let mut e = Env::new();
    assert_eq!(e.create_sale_round(CREATOR, 999, SaleMode::FixedPrice, 1_000, 10, 100, false, 0, 0), err(Error::EntityNotFound));
}

#[test]
fn create_sale_round_rejects_non_owner() {
    let mut e = Env::new();
    assert_eq!(e.create_sale_round(BUYER, ENTITY_ID, SaleMode::FixedPrice, 1_000, 10, 100, false, 0, 0), err(Error::Unauthorized));
}

#[test]
fn create_sale_round_rejects_zero_supply() {
    let mut e = Env::new();
    assert_eq!(e.create_sale_round(CREATOR, ENTITY_ID, SaleMode::FixedPrice, 0, 10, 100, false, 0, 0), err(Error::InvalidTotalSupply));
}

#[test]
fn create_sale_round_rejects_bad_time_window() {
    let mut e = Env::new();
    assert_eq!(e.create_sale_round(CREATOR, ENTITY_ID, SaleMode::FixedPrice, 1_000, 100, 10, false, 0, 0), err(Error::InvalidTimeWindow));
}

#[test]
fn create_sale_round_rejects_invalid_kyc_level() {
    let mut e = Env::new();
    assert_eq!(e.create_sale_round(CREATOR, ENTITY_ID, SaleMode::FixedPrice, 1_000, 10, 100, true, 5, 0), err(Error::InvalidKycLevel));
}

#[test]
fn add_payment_option_works() {
    let mut e = Env::new();
    let round_id = e.setup_round();
    assert!(e.add_payment_option(CREATOR, round_id, None, 100, 10, 10_000).is_ok());
    assert_eq!(e.round(round_id).unwrap().payment_options_count, 1);
    assert_eq!(e.options_len(round_id), 1);
}

#[test]
fn add_payment_option_rejects_zero_price() {
    let mut e = Env::new();
    let round_id = e.setup_round();
    assert_eq!(e.add_payment_option(CREATOR, round_id, None, 0, 10, 10_000), err(Error::InvalidPrice));
}

#[test]
fn add_payment_option_rejects_bad_limits() {
    let mut e = Env::new();
    let round_id = e.setup_round();
    assert_eq!(e.add_payment_option(CREATOR, round_id, None, 100, 1000, 10), err(Error::InvalidPurchaseLimits));
}

#[test]
fn set_vesting_config_works() {
    let mut e = Env::new();
    let round_id = e.setup_round();
    assert!(e.set_vesting_config(CREATOR, round_id, VestingType::Linear, 1000, 100, 1000, 100).is_ok());
    let round = e.round(round_id).unwrap();
    assert_eq!(round.vesting_config.vesting_type, VestingType::Linear);
    assert_eq!(round.vesting_config.initial_unlock_bps, 1000);
}

#[test]
fn set_vesting_config_rejects_cliff_gt_total() {
    let mut e = Env::new();
    let round_id = e.setup_round();
    assert_eq!(e.set_vesting_config(CREATOR, round_id, VestingType::Linear, 1000, 2000, 1000, 100), err(Error::InvalidVestingDuration));
}

#[test]
fn configure_dutch_auction_requires_not_started() {
    let mut e = Env::new();
    assert!(e.create_sale_round(CREATOR, ENTITY_ID, SaleMode::DutchAuction, 1_000_000, 10, 100, false, 0, 0).is_ok());
    assert!(e.configure_dutch_auction(CREATOR, 0, 1000, 100).is_ok());
    let round = e.round(0).unwrap();
    assert_eq!(round.dutch_start_price, Some(1000u128));
    assert_eq!(round.dutch_end_price, Some(100u128));
}

#[test]
fn whitelist_uses_separate_storage() {
    let mut e = Env::new();
    let round_id = e.setup_round();
    assert!(e.add_to_whitelist(CREATOR, round_id, vec![(BUYER, None), (BUYER2, None)]).is_ok());
    assert!(e.p.round_whitelist.contains_key(&(round_id, BUYER)));
    assert!(e.p.round_whitelist.contains_key(&(round_id, BUYER2)));
    assert_eq!(e.whitelist_count(round_id), 2);
    assert!(e.add_to_whitelist(CREATOR, round_id, vec![(BUYER, None)]).is_ok());
    assert_eq!(e.whitelist_count(round_id), 2);
}

#[test]
fn whitelist_rejects_non_not_started() {
    let mut e = Env::new();
    let round_id = e.setup_active_round();
    assert_eq!(e.add_to_whitelist(CREATOR, round_id, vec![(BUYER, None)]), err(Error::InvalidRoundStatus));
}

#[test]
fn start_sale_requires_payment_options() {
    let mut e = Env::new();
    let round_id = e.setup_round();
    assert_eq!(e.start_sale(CREATOR, round_id), err(Error::NoPaymentOptions));
}

#[test]
fn start_sale_locks_entity_tokens() {
    let mut e = Env::new();
    let round_id = e.setup_round();
    assert!(e.add_payment_option(CREATOR, round_id, None, 100, 10, 100_000).is_ok());
    assert!(e.start_sale(CREATOR, round_id).is_ok());
    assert_eq!(e.round(round_id).unwrap().status, RoundStatus::Active);
}

#[test]
fn subscribe_transfers_nex() {
    let mut e = Env::new();
    let round_id = e.setup_active_round();
    let buyer_before = e.balance(BUYER);
    assert!(e.subscribe(BUYER, round_id, 100, None).is_ok());
    let buyer_after = e.balance(BUYER);
    assert_eq!(buyer_before - buyer_after, 10_000u128);
    assert_eq!(e.balance(e.p.pallet_account()), 10_000u128);
    let sub = e.sub(round_id, BUYER).unwrap();
    assert_eq!(sub.amount, 100u128);
    assert_eq!(sub.payment_amount, 10_000u128);
    assert_eq!(sub.refunded, false);
}

#[test]
fn subscribe_rejects_outside_time_window() {
    let mut e = Env::new();
    let round_id = e.setup_round();
    assert!(e.add_payment_option(CREATOR, round_id, None, 100, 10, 100_000).is_ok());
    assert!(e.start_sale(CREATOR, round_id).is_ok());
    assert_eq!(e.subscribe(BUYER, round_id, 100, None), err(Error::SaleNotInTimeWindow));
}

#[test]
fn subscribe_rejects_duplicate() {
    let mut e = Env::new();
    let round_id = e.setup_active_round();
    assert!(e.subscribe(BUYER, round_id, 100, None).is_ok());
    assert_eq!(e.subscribe(BUYER, round_id, 100, None), err(Error::AlreadySubscribed));
}

#[test]
fn subscribe_checks_kyc() {
    let mut e = Env::new();
    assert!(e.create_sale_round(CREATOR, ENTITY_ID, SaleMode::FixedPrice, 1_000_000, 10, 100, true, 2, 0).is_ok());
    assert!(e.add_payment_option(CREATOR, 0, None, 100, 10, 100_000).is_ok());
    assert!(e.start_sale(CREATOR, 0).is_ok());
    e.now = 10;
    assert_eq!(e.subscribe(BUYER, 0, 100, None), err(Error::InsufficientKycLevel));
    e.kyc.insert(BUYER, 2);
    assert!(e.subscribe(BUYER, 0, 100, None).is_ok());
}

#[test]
fn subscribe_checks_whitelist() {
    let mut e = Env::new();
    assert!(e.create_sale_round(CREATOR, ENTITY_ID, SaleMode::WhitelistAllocation, 1_000_000, 10, 100, false, 0, 0).is_ok());
    assert!(e.add_payment_option(CREATOR, 0, None, 100, 10, 100_000).is_ok());
    assert!(e.add_to_whitelist(CREATOR, 0, vec![(BUYER, None)]).is_ok());
    assert!(e.start_sale(CREATOR, 0).is_ok());
    e.now = 10;
    assert_eq!(e.subscribe(BUYER2, 0, 100, None), err(Error::NotInWhitelist));
    assert!(e.subscribe(BUYER, 0, 100, None).is_ok());
}

#[test]
fn end_sale_releases_unsold_tokens() {
    let mut e = Env::new();
    let round_id = e.setup_active_round();
    assert!(e.subscribe(BUYER, round_id, 100, None).is_ok());
    e.now = 101;
    assert!(e.end_sale(CREATOR, round_id).is_ok());
    let round = e.round(round_id).unwrap();
    assert_eq!(round.status, RoundStatus::Ended);
    assert_eq!(round.sold_amount, 100u128);
}

#[test]
fn claim_tokens_distributes_entity_tokens() {
    let mut e = Env::new();
    let round_id = e.setup_active_round();
    assert!(e.subscribe(BUYER, round_id, 100, None).is_ok());
    e.now = 101;
    assert!(e.end_sale(CREATOR, round_id).is_ok());
    assert!(e.claim_tokens(BUYER, round_id).is_ok());
    let sub = e.sub(round_id, BUYER).unwrap();
    assert!(sub.claimed);
    assert_eq!(sub.unlocked_amount, 100u128);
}

#[test]
fn claim_tokens_rejects_double_claim() {
    let mut e = Env::new();
    let round_id = e.setup_active_round();
    assert!(e.subscribe(BUYER, round_id, 100, None).is_ok());
    e.now = 101;
    assert!(e.end_sale(CREATOR, round_id).is_ok());
    assert!(e.claim_tokens(BUYER, round_id).is_ok());
    assert_eq!(e.claim_tokens(BUYER, round_id), err(Error::AlreadyClaimed));
}

#[test]
fn cancel_and_refund_works() {
    let mut e = Env::new();
    let round_id = e.setup_active_round();
    let buyer_before = e.balance(BUYER);
    assert!(e.subscribe(BUYER, round_id, 100, None).is_ok());
    let buyer_after_sub = e.balance(BUYER);
    assert_eq!(buyer_before - buyer_after_sub, 10_000u128);
    assert!(e.cancel_sale(CREATOR, round_id).is_ok());
    assert_eq!(e.round(round_id).unwrap().status, RoundStatus::Cancelled);
    assert!(e.claim_refund(BUYER, round_id).is_ok());
    assert_eq!(e.balance(BUYER), buyer_before);
    assert_eq!(e.claim_refund(BUYER, round_id), err(Error::AlreadyRefunded));
}

#[test]
fn claim_refund_rejects_non_cancelled() {
    let mut e = Env::new();
    let round_id = e.setup_active_round();
    assert!(e.subscribe(BUYER, round_id, 100, None).is_ok());
    assert_eq!(e.claim_refund(BUYER, round_id), err(Error::SaleNotCancelled));
}

#[test]
fn withdraw_funds_works() {
    let mut e = Env::new();
    let round_id = e.setup_active_round();
    assert!(e.subscribe(BUYER, round_id, 100, None).is_ok());
    e.now = 101;
    assert!(e.end_sale(CREATOR, round_id).is_ok());
    let entity_before = e.balance(ENTITY_ACCOUNT);
    assert!(e.withdraw_funds(CREATOR, round_id).is_ok());
    assert_eq!(e.balance(ENTITY_ACCOUNT) - entity_before, 10_000u128);
    assert_eq!(e.withdraw_funds(CREATOR, round_id), err(Error::FundsAlreadyWithdrawn));
}

#[test]
fn calculate_initial_unlock_works() {
    let vesting = VestingConfig {
        vesting_type: VestingType::Linear,
        initial_unlock_bps: 2000,
        cliff_duration: 100,
        total_duration: 1000,
        unlock_interval: 100,
    };
    assert_eq!(calculate_initial_unlock(&vesting, 1_000_000), 200_000u128);
}

#[test]
fn calculate_initial_unlock_no_vesting_returns_total() {
    let vesting = VestingConfig::default();
    assert_eq!(calculate_initial_unlock(&vesting, 1_000_000), 1_000_000u128);
}

#[test]
fn subscribe_rejects_overflow() {
    let mut e = Env::new();
    assert!(e.create_sale_round(CREATOR, ENTITY_ID, SaleMode::FixedPrice, 1_000_000, 10, 100, false, 0, 0).is_ok());
    let huge_price = u128::MAX / 500;
    assert!(e.add_payment_option(CREATOR, 0, None, huge_price, 10, 1_000_000).is_ok());
    assert!(e.start_sale(CREATOR, 0).is_ok());
    e.now = 10;
    assert_eq!(e.subscribe(BUYER, 0, 1000, None), err(Error::ArithmeticOverflow));
}

#[test]
fn end_sale_rejects_premature_end() {
    let mut e = Env::new();
    let round_id = e.setup_active_round();
    assert_eq!(e.end_sale(CREATOR, round_id), err(Error::SaleNotInTimeWindow));
}

#[test]
fn end_sale_allows_when_sold_out() {
    let mut e = Env::new();
    assert!(e.create_sale_round(CREATOR, ENTITY_ID, SaleMode::FixedPrice, 100, 10, 100, false, 0, 0).is_ok());
    assert!(e.add_payment_option(CREATOR, 0, None, 1, 100, 100).is_ok());
    assert!(e.start_sale(CREATOR, 0).is_ok());
    e.now = 10;
    assert!(e.subscribe(BUYER, 0, 100, None).is_ok());
    assert_eq!(e.round(0).unwrap().remaining_amount, 0u128);
    assert!(e.end_sale(CREATOR, 0).is_ok());
    assert_eq!(e.round(0).unwrap().status, RoundStatus::Ended);
}

#[test]
fn end_sale_allows_after_end_block() {
    let mut e = Env::new();
    let round_id = e.setup_active_round();
    e.now = 101;
    assert!(e.end_sale(CREATOR, round_id).is_ok());
    assert_eq!(e.round(round_id).unwrap().status, RoundStatus::Ended);
}

#[test]
fn cliff_vesting_unlock_interval_step_function() {
    let vesting = VestingConfig {
        vesting_type: VestingType::Cliff,
        initial_unlock_bps: 2000,
        cliff_duration: 100,
        total_duration: 1000,
        unlock_interval: 200,
    };
    let total = 1_000_000u128;
    let start = 10u64;
    assert!(calculate_unlockable(&vesting, total, 0, start, 50).is_err());
    assert_eq!(calculate_unlockable(&vesting, total, 200_000, start, 110).unwrap(), 0u128);
    assert_eq!(calculate_unlockable(&vesting, total, 200_000, start, 260).unwrap(), 0u128);
    assert_eq!(calculate_unlockable(&vesting, total, 200_000, start, 310).unwrap(), 177_777u128);
    assert_eq!(calculate_unlockable(&vesting, total, 200_000, start, 460).unwrap(), 177_777u128);
    assert_eq!(calculate_unlockable(&vesting, total, 200_000, start, 510).unwrap(), 355_555u128);
}

#[test]
fn linear_vesting_continuous_unlock() {
    let vesting = VestingConfig {
        vesting_type: VestingType::Linear,
        initial_unlock_bps: 1000,
        cliff_duration: 50,
        total_duration: 500,
        unlock_interval: 100,
    };
    assert_eq!(calculate_unlockable(&vesting, 1_000_000, 100_000, 0, 150).unwrap(), 200_000u128);
}

#[test]
fn on_initialize_auto_ends_expired_sale() {
    let mut e = Env::new();
    let round_id = e.setup_active_round();
    assert!(e.subscribe(BUYER, round_id, 100, None).is_ok());
    assert_eq!(e.p.active_rounds.len(), 1);
    assert_eq!(e.p.active_rounds[0], round_id);
    e.now = 101;
    e.on_initialize(101);
    assert_eq!(e.round(round_id).unwrap().status, RoundStatus::Ended);
    assert!(e.p.active_rounds.is_empty());
}

#[test]
fn on_initialize_does_not_end_before_expiry() {
    let mut e = Env::new();
    let round_id = e.setup_active_round();
    e.on_initialize(10);
    assert_eq!(e.round(round_id).unwrap().status, RoundStatus::Active);
    assert_eq!(e.p.active_rounds.len(), 1);
}

#[test]
fn on_initialize_handles_multiple_rounds() {
    let mut e = Env::new();
    assert!(e.create_sale_round(CREATOR, ENTITY_ID, SaleMode::FixedPrice, 100_000, 10, 50, false, 0, 0).is_ok());
    assert!(e.add_payment_option(CREATOR, 0, None, 100, 10, 100_000).is_ok());
    assert!(e.start_sale(CREATOR, 0).is_ok());
    assert!(e.create_sale_round(CREATOR, ENTITY_ID, SaleMode::FixedPrice, 100_000, 10, 200, false, 0, 0).is_ok());
    assert!(e.add_payment_option(CREATOR, 1, None, 100, 10, 100_000).is_ok());
    assert!(e.start_sale(CREATOR, 1).is_ok());
    assert_eq!(e.p.active_rounds.len(), 2);
    e.now = 51;
    e.on_initialize(51);
    assert_eq!(e.round(0).unwrap().status, RoundStatus::Ended);
    assert_eq!(e.round(1).unwrap().status, RoundStatus::Active);
    assert_eq!(e.p.active_rounds.len(), 1);
    assert_eq!(e.p.active_rounds[0], 1);
}

#[test]
fn payment_options_stored_separately() {
    let mut e = Env::new();
    let round_id = e.setup_round();
    assert!(e.add_payment_option(CREATOR, round_id, None, 100, 10, 10_000).is_ok());
    assert_eq!(e.round(round_id).unwrap().payment_options_count, 1);
    let options = e.p.round_payment_options.get(&round_id).unwrap();
    assert_eq!(options.len(), 1);
    assert_eq!(options[0].price, 100u128);
}

#[test]
fn reclaim_unclaimed_tokens_after_grace_period() {
    let mut e = Env::new();
    let round_id = e.setup_active_round();
    let buyer_before = e.balance(BUYER);
    assert!(e.subscribe(BUYER, round_id, 100, None).is_ok());
    assert!(e.subscribe(BUYER2, round_id, 200, None).is_ok());
    assert!(e.cancel_sale(CREATOR, round_id).is_ok());
    assert_eq!(e.round(round_id).unwrap().cancelled_at, Some(10u64));
    assert!(e.claim_refund(BUYER, round_id).is_ok());
    assert_eq!(e.balance(BUYER), buyer_before);
    let round = e.round(round_id).unwrap();
    assert_eq!(round.total_refunded_tokens, 100u128);
    assert_eq!(round.total_refunded_nex, 10_000u128);
    e.now = 50;
    assert_eq!(e.reclaim_unclaimed_tokens(CREATOR, round_id), err(Error::RefundPeriodNotExpired));
    e.now = 110;
    let entity_before = e.balance(ENTITY_ACCOUNT);
    assert!(e.reclaim_unclaimed_tokens(CREATOR, round_id).is_ok());
    assert_eq!(e.balance(ENTITY_ACCOUNT) - entity_before, 20_000u128);
    let round = e.round(round_id).unwrap();
    assert_eq!(round.status, RoundStatus::Completed);
    assert!(round.funds_withdrawn);
}

#[test]
fn c1_reclaim_blocks_subsequent_withdraw() {
    let mut e = Env::new();
    let round_id = e.setup_active_round();
    assert!(e.subscribe(BUYER, round_id, 100, None).is_ok());
    assert!(e.cancel_sale(CREATOR, round_id).is_ok());
    e.now = 200;
    assert!(e.reclaim_unclaimed_tokens(CREATOR, round_id).is_ok());
    assert_eq!(e.withdraw_funds(CREATOR, round_id), err(Error::FundsAlreadyWithdrawn));
}

#[test]
fn h2_claim_tokens_rejects_completed_from_cancel() {
    let mut e = Env::new();
    let round_id = e.setup_active_round();
    assert!(e.subscribe(BUYER, round_id, 100, None).is_ok());
    assert!(e.cancel_sale(CREATOR, round_id).is_ok());
    e.now = 200;
    assert!(e.reclaim_unclaimed_tokens(CREATOR, round_id).is_ok());
    assert_eq!(e.claim_tokens(BUYER, round_id), err(Error::InvalidRoundStatus));
}

#[test]
fn h3_add_payment_option_rejects_non_none_asset_id() {
    let mut e = Env::new();
    let round_id = e.setup_round();
    assert_eq!(e.add_payment_option(CREATOR, round_id, Some(1), 100, 10, 10_000), err(Error::InvalidPaymentAsset));
}

#[test]
fn reclaim_rejects_non_creator() {
    let mut e = Env::new();
    let round_id = e.setup_active_round();
    assert!(e.subscribe(BUYER, round_id, 100, None).is_ok());
    assert!(e.cancel_sale(CREATOR, round_id).is_ok());
    e.now = 200;
    assert_eq!(e.reclaim_unclaimed_tokens(BUYER, round_id), err(Error::Unauthorized));
}

#[test]
fn dutch_auction_allows_zero_price_in_payment_option() {
    let mut e = Env::new();
    assert!(e.create_sale_round(CREATOR, ENTITY_ID, SaleMode::DutchAuction, 1_000_000, 10, 100, false, 0, 0).is_ok());
    assert!(e.add_payment_option(CREATOR, 0, None, 0, 10, 100_000).is_ok());
    let options = e.p.round_payment_options.get(&0).unwrap();
    assert_eq!(options.len(), 1);
    assert_eq!(options[0].price, 0u128);
}

#[test]
fn non_dutch_rejects_zero_price() {
    let mut e = Env::new();
    let round_id = e.setup_round();
    assert_eq!(e.add_payment_option(CREATOR, round_id, None, 0, 10, 10_000), err(Error::InvalidPrice));
}

#[test]
fn dutch_auction_start_requires_configure() {
    let mut e = Env::new();
    assert!(e.create_sale_round(CREATOR, ENTITY_ID, SaleMode::DutchAuction, 1_000_000, 10, 100, false, 0, 0).is_ok());
    assert!(e.add_payment_option(CREATOR, 0, None, 0, 10, 100_000).is_ok());
    assert_eq!(e.start_sale(CREATOR, 0), err(Error::DutchAuctionNotConfigured));
    assert!(e.configure_dutch_auction(CREATOR, 0, 1000, 100).is_ok());
    assert!(e.start_sale(CREATOR, 0).is_ok());
}

#[test]
fn m2_unlock_tokens_rejects_non_ended_status() {
    let mut e = Env::new();
    let round_id = e.setup_active_round();
    assert!(e.subscribe(BUYER, round_id, 100, None).is_ok());
    e.now = 101;
    assert!(e.end_sale(CREATOR, round_id).is_ok());
    assert!(e.claim_tokens(BUYER, round_id).is_ok());
    assert_eq!(e.unlock_tokens(BUYER, round_id), err(Error::NoTokensToUnlock));
    assert_eq!(e.round(round_id).unwrap().status, RoundStatus::Ended);
}

#[test]
fn m2_unlock_tokens_rejects_cancelled_status() {
    let mut e = Env::new();
    let round_id = e.setup_active_round();
    assert!(e.subscribe(BUYER, round_id, 100, None).is_ok());
    assert!(e.cancel_sale(CREATOR, round_id).is_ok());
    assert_eq!(e.unlock_tokens(BUYER, round_id), err(Error::InvalidRoundStatus));
}

#[test]
fn l3_create_sale_round_rejects_start_block_in_past() {
    let mut e = Env::new();
    e.now = 50;
    assert_eq!(e.create_sale_round(CREATOR, ENTITY_ID, SaleMode::FixedPrice, 1_000_000, 10, 100, false, 0, 0), err(Error::StartBlockInPast));
    assert!(e.create_sale_round(CREATOR, ENTITY_ID, SaleMode::FixedPrice, 1_000_000, 50, 100, false, 0, 0).is_ok());
}

#[test]
fn l5_dutch_auction_rejects_zero_end_price() {
    let mut e = Env::new();
    assert!(e.create_sale_round(CREATOR, ENTITY_ID, SaleMode::DutchAuction, 1_000_000, 10, 100, false, 0, 0).is_ok());
    assert_eq!(e.configure_dutch_auction(CREATOR, 0, 1000, 0), err(Error::InvalidDutchAuctionConfig));
    assert!(e.configure_dutch_auction(CREATOR, 0, 1000, 1).is_ok());
}

#[test]
fn m1_end_sale_zeros_remaining_amount() {
    let mut e = Env::new();
    let round_id = e.setup_active_round();
    assert!(e.subscribe(BUYER, round_id, 100, None).is_ok());
    e.now = 101;
    assert!(e.end_sale(CREATOR, round_id).is_ok());
    let round = e.round(round_id).unwrap();
    assert_eq!(round.status, RoundStatus::Ended);
    assert_eq!(round.remaining_amount, 0u128);
    assert_eq!(round.sold_amount, 100u128);
}

#[test]
fn m1_auto_end_sale_zeros_remaining_amount() {
    let mut e = Env::new();
    let round_id = e.setup_active_round();
    assert!(e.subscribe(BUYER, round_id, 500, None).is_ok());
    e.now = 101;
    e.on_initialize(101);
    let round = e.round(round_id).unwrap();
    assert_eq!(round.status, RoundStatus::Ended);
    assert_eq!(round.remaining_amount, 0u128);
    assert_eq!(round.sold_amount, 500u128);
}

#[test]
fn l2_next_round_id_overflow_detected() {
    let mut e = Env::new();
    e.p.next_round_id = u64::MAX;
    assert_eq!(e.create_sale_round(CREATOR, ENTITY_ID, SaleMode::FixedPrice, 1_000_000, 10, 100, false, 0, 0), err(Error::RoundIdOverflow));
}

#[test]
fn h1_deep_claim_tokens_rejects_partial_repatriation() {
    let mut e = Env::new();
    let round_id = e.setup_active_round();
    assert!(e.subscribe(BUYER, round_id, 100, None).is_ok());
    e.now = 101;
    assert!(e.end_sale(CREATOR, round_id).is_ok());
    e.set_reserved(ENTITY_ACCOUNT, 50);
    assert_eq!(e.claim_tokens(BUYER, round_id), err(Error::IncompleteUnreserve));
}

#[test]
fn h1_deep_unlock_tokens_rejects_partial_repatriation() {
    let mut e = Env::new();
    let round_id = e.setup_round();
    assert!(e.add_payment_option(CREATOR, round_id, None, 100, 10, 100_000).is_ok());
    assert!(e.set_vesting_config(CREATOR, round_id, VestingType::Linear, 5000, 0, 100, 0).is_ok());
    assert!(e.start_sale(CREATOR, round_id).is_ok());
    e.now = 10;
    assert!(e.subscribe(BUYER, round_id, 1000, None).is_ok());
    e.now = 101;
    assert!(e.end_sale(CREATOR, round_id).is_ok());
    assert!(e.claim_tokens(BUYER, round_id).is_ok());
    e.now = 111;
    e.set_reserved(ENTITY_ACCOUNT, 0);
    assert_eq!(e.unlock_tokens(BUYER, round_id), err(Error::IncompleteUnreserve));
}

#[test]
fn h1_deep_claim_and_unlock_full_amount_succeeds() {
    let mut e = Env::new();
    let round_id = e.setup_round();
    assert!(e.add_payment_option(CREATOR, round_id, None, 100, 10, 100_000).is_ok());
    assert!(e.set_vesting_config(CREATOR, round_id, VestingType::Linear, 5000, 0, 100, 0).is_ok());
    assert!(e.start_sale(CREATOR, round_id).is_ok());
    e.now = 10;
    assert!(e.subscribe(BUYER, round_id, 1000, None).is_ok());
    e.now = 101;
    assert!(e.end_sale(CREATOR, round_id).is_ok());
    assert!(e.claim_tokens(BUYER, round_id).is_ok());
    assert_eq!(e.sub(round_id, BUYER).unwrap().unlocked_amount, 500);
    e.now = 111;
    assert!(e.unlock_tokens(BUYER, round_id).is_ok());
    assert_eq!(e.sub(round_id, BUYER).unwrap().unlocked_amount, 1000);
}

#[test]
fn m1_deep_cancel_sale_zeros_remaining_amount() {
    let mut e = Env::new();
    let round_id = e.setup_active_round();
    assert!(e.subscribe(BUYER, round_id, 100, None).is_ok());
    assert_eq!(e.round(round_id).unwrap().remaining_amount, 999_900u128);
    assert!(e.cancel_sale(CREATOR, round_id).is_ok());
    let round_after = e.round(round_id).unwrap();
    assert_eq!(round_after.remaining_amount, 0u128);
    assert_eq!(round_after.status, RoundStatus::Cancelled);
}

#[test]
fn m1_deep_cancel_not_started_keeps_remaining() {
    let mut e = Env::new();
    let round_id = e.setup_round();
    assert!(e.cancel_sale(CREATOR, round_id).is_ok());
    let round = e.round(round_id).unwrap();
    assert_eq!(round.remaining_amount, 1_000_000u128);
    assert_eq!(round.status, RoundStatus::Cancelled);
}

#[test]
fn m2_deep_dutch_price_clamped_to_end_price() {
    let mut e = Env::new();
    assert!(e.create_sale_round(CREATOR, ENTITY_ID, SaleMode::DutchAuction, 1_000_000, 10, 100, false, 0, 0).is_ok());
    assert!(e.add_payment_option(CREATOR, 0, None, 0, 10, 100_000).is_ok());
    let start_price: u128 = u128::MAX / 2;
    let end_price: u128 = 1000;
    assert!(e.configure_dutch_auction(CREATOR, 0, start_price, end_price).is_ok());
    assert!(e.start_sale(CREATOR, 0).is_ok());
    e.now = 55;
    let price = e.p.get_current_price(e.now, 0, None).unwrap();
    assert!(price >= end_price, "Dutch price {} should be >= end_price {}", price, end_price);
}

#[test]
fn m1_r5_add_payment_option_rejects_duplicate_asset_id() {
    let mut e = Env::new();
    let round_id = e.setup_round();
    assert!(e.add_payment_option(CREATOR, round_id, None, 100, 10, 10_000).is_ok());
    assert_eq!(e.add_payment_option(CREATOR, round_id, None, 50, 5, 5_000), err(Error::DuplicatePaymentOption));
    let options = e.p.round_payment_options.get(&round_id).unwrap();
    assert_eq!(options.len(), 1);
    assert_eq!(options[0].price, 100u128);
    assert_eq!(e.round(round_id).unwrap().payment_options_count, 1);
}

#[test]
fn m2_deep_dutch_price_reaches_end_price_at_end() {
    let mut e = Env::new();
    assert!(e.create_sale_round(CREATOR, ENTITY_ID, SaleMode::DutchAuction, 1_000_000, 10, 100, false, 0, 0).is_ok());
    assert!(e.add_payment_option(CREATOR, 0, None, 0, 10, 100_000).is_ok());
    assert!(e.configure_dutch_auction(CREATOR, 0, 10000, 1000).is_ok());
    assert!(e.start_sale(CREATOR, 0).is_ok());
    e.now = 100;
    assert_eq!(e.p.get_current_price(e.now, 0, None).unwrap(), 1000u128);
    e.now = 200;
    assert_eq!(e.p.get_current_price(e.now, 0, None).unwrap(), 1000u128);
}

#[test]
fn p0_force_cancel_sale_works() {
    let mut e = Env::new();
    let round_id = e.setup_active_round();
    assert!(e.subscribe(BUYER, round_id, 100, None).is_ok());
    assert!(e.force_cancel_sale(round_id).is_ok());
    let round = e.round(round_id).unwrap();
    assert_eq!(round.status, RoundStatus::Cancelled);
    assert_eq!(round.remaining_amount, 0u128);
    assert!(round.cancelled_at.is_some());
    assert!(e.p.active_rounds.is_empty());
}

#[test]
fn p0_force_cancel_sale_rejects_ended() {
    let mut e = Env::new();
    let round_id = e.setup_active_round();
    e.now = 101;
    assert!(e.end_sale(CREATOR, round_id).is_ok());
    assert_eq!(e.force_cancel_sale(round_id), err(Error::InvalidRoundStatus));
}

#[test]
fn p0_force_cancel_not_started_works() {
    let mut e = Env::new();
    let round_id = e.setup_round();
    assert!(e.force_cancel_sale(round_id).is_ok());
    assert_eq!(e.round(round_id).unwrap().status, RoundStatus::Cancelled);
}

#[test]
fn p0_force_end_sale_works() {
    let mut e = Env::new();
    let round_id = e.setup_active_round();
    assert!(e.subscribe(BUYER, round_id, 200, None).is_ok());
    assert!(e.force_end_sale(round_id).is_ok());
    let round = e.round(round_id).unwrap();
    assert_eq!(round.status, RoundStatus::Ended);
    assert_eq!(round.sold_amount, 200u128);
    assert_eq!(round.remaining_amount, 0u128);
    assert!(e.p.active_rounds.is_empty());
}

#[test]
fn p0_force_end_sale_rejects_not_active() {
    let mut e = Env::new();
    let round_id = e.setup_round();
    assert_eq!(e.force_end_sale(round_id), err(Error::InvalidRoundStatus));
}

#[test]
fn p1_force_refund_works() {
    let mut e = Env::new();
    let round_id = e.setup_active_round();
    let buyer_before = e.balance(BUYER);
    assert!(e.subscribe(BUYER, round_id, 100, None).is_ok());
    assert!(e.force_cancel_sale(round_id).is_ok());
    assert!(e.force_refund(round_id, BUYER).is_ok());
    assert_eq!(e.balance(BUYER), buyer_before);
    assert!(e.sub(round_id, BUYER).unwrap().refunded);
    assert_eq!(e.round(round_id).unwrap().total_refunded_nex, 10_000u128);
}

#[test]
fn p1_force_refund_rejects_not_cancelled() {
    let mut e = Env::new();
    let round_id = e.setup_active_round();
    assert!(e.subscribe(BUYER, round_id, 100, None).is_ok());
    assert_eq!(e.force_refund(round_id, BUYER), err(Error::SaleNotCancelled));
}

#[test]
fn p1_force_refund_rejects_already_refunded() {
    let mut e = Env::new();
    let round_id = e.setup_active_round();
    assert!(e.subscribe(BUYER, round_id, 100, None).is_ok());
    assert!(e.force_cancel_sale(round_id).is_ok());
    assert!(e.force_refund(round_id, BUYER).is_ok());
    assert_eq!(e.force_refund(round_id, BUYER), err(Error::AlreadyRefunded));
}

#[test]
fn p1_force_withdraw_funds_works() {
    let mut e = Env::new();
    let round_id = e.setup_active_round();
    assert!(e.subscribe(BUYER, round_id, 100, None).is_ok());
    e.now = 101;
    assert!(e.end_sale(CREATOR, round_id).is_ok());
    let entity_before = e.balance(ENTITY_ACCOUNT);
    assert!(e.force_withdraw_funds(round_id).is_ok());
    assert_eq!(e.balance(ENTITY_ACCOUNT) - entity_before, 10_000u128);
    assert!(e.round(round_id).unwrap().funds_withdrawn);
}

#[test]
fn p1_force_withdraw_funds_rejects_active() {
    let mut e = Env::new();
    let round_id = e.setup_active_round();
    assert_eq!(e.force_withdraw_funds(round_id), err(Error::InvalidRoundStatus));
}

#[test]
fn p1_update_sale_round_works() {
    let mut e = Env::new();
    let round_id = e.setup_round();
    assert!(e.update_sale_round(CREATOR, round_id, Some(2_000_000), Some(20), Some(200), Some(true), Some(3)).is_ok());
    let round = e.round(round_id).unwrap();
    assert_eq!(round.total_supply, 2_000_000u128);
    assert_eq!(round.remaining_amount, 2_000_000u128);
    assert_eq!(round.start_block, 20u64);
    assert_eq!(round.end_block, 200u64);
    assert!(round.kyc_required);
    assert_eq!(round.min_kyc_level, 3);
}

#[test]
fn p1_update_sale_round_rejects_non_creator() {
    let mut e = Env::new();
    let round_id = e.setup_round();
    assert_eq!(e.update_sale_round(BUYER, round_id, Some(2_000_000), None, None, None, None), err(Error::Unauthorized));
}

#[test]
fn p1_update_sale_round_rejects_active() {
    let mut e = Env::new();
    let round_id = e.setup_active_round();
    assert_eq!(e.update_sale_round(CREATOR, round_id, Some(2_000_000), None, None, None, None), err(Error::InvalidRoundStatus));
}

#[test]
fn p1_update_sale_round_rejects_no_update() {
    let mut e = Env::new();
    let round_id = e.setup_round();
    assert_eq!(e.update_sale_round(CREATOR, round_id, None, None, None, None, None), err(Error::NoUpdateProvided));
}

#[test]
fn p1_update_sale_round_validates_time_window() {
    let mut e = Env::new();
    let round_id = e.setup_round();
    assert_eq!(e.update_sale_round(CREATOR, round_id, None, Some(200), Some(50), None, None), err(Error::InvalidTimeWindow));
}

#[test]
fn p1_update_sale_round_rejects_zero_supply() {
    let mut e = Env::new();
    let round_id = e.setup_round();
    assert_eq!(e.update_sale_round(CREATOR, round_id, Some(0), None, None, None, None), err(Error::InvalidTotalSupply));
}

#[test]
fn p1_increase_subscription_works() {
    let mut e = Env::new();
    let round_id = e.setup_active_round();
    assert!(e.subscribe(BUYER, round_id, 100, None).is_ok());
    let buyer_mid = e.balance(BUYER);
    assert!(e.increase_subscription(BUYER, round_id, 200, None).is_ok());
    let sub = e.sub(round_id, BUYER).unwrap();
    assert_eq!(sub.amount, 300u128);
    assert_eq!(sub.payment_amount, 30_000u128);
    assert_eq!(buyer_mid - e.balance(BUYER), 20_000u128);
    assert_eq!(e.round(round_id).unwrap().sold_amount, 300u128);
}

#[test]
fn p1_increase_subscription_rejects_not_subscribed() {
    let mut e = Env::new();
    let round_id = e.setup_active_round();
    assert_eq!(e.increase_subscription(BUYER, round_id, 100, None), err(Error::NotSubscribed));
}

#[test]
fn p1_increase_subscription_rejects_exceeds_limit() {
    let mut e = Env::new();
    let round_id = e.setup_active_round();
    assert!(e.subscribe(BUYER, round_id, 50_000, None).is_ok());
    assert_eq!(e.increase_subscription(BUYER, round_id, 60_000, None), err(Error::ExceedsPurchaseLimit));
}

#[test]
fn p1_increase_subscription_rejects_sold_out() {
    let mut e = Env::new();
    assert!(e.create_sale_round(CREATOR, ENTITY_ID, SaleMode::FixedPrice, 200, 10, 100, false, 0, 0).is_ok());
    assert!(e.add_payment_option(CREATOR, 0, None, 100, 10, 200).is_ok());
    assert!(e.start_sale(CREATOR, 0).is_ok());
    e.now = 10;
    assert!(e.subscribe(BUYER, 0, 150, None).is_ok());
    assert_eq!(e.increase_subscription(BUYER, 0, 100, None), err(Error::SoldOut));
}

#[test]
fn p1_remove_from_whitelist_works() {
    let mut e = Env::new();
    let round_id = e.setup_round();
    assert!(e.add_to_whitelist(CREATOR, round_id, vec![(BUYER, None), (BUYER2, None)]).is_ok());
    assert_eq!(e.whitelist_count(round_id), 2);
    assert!(e.remove_from_whitelist(CREATOR, round_id, vec![BUYER]).is_ok());
    assert!(!e.p.round_whitelist.contains_key(&(round_id, BUYER)));
    assert!(e.p.round_whitelist.contains_key(&(round_id, BUYER2)));
    assert_eq!(e.whitelist_count(round_id), 1);
}

#[test]
fn p1_remove_from_whitelist_ignores_nonexistent() {
    let mut e = Env::new();
    let round_id = e.setup_round();
    assert!(e.add_to_whitelist(CREATOR, round_id, vec![(BUYER, None)]).is_ok());
    assert!(e.remove_from_whitelist(CREATOR, round_id, vec![BUYER2]).is_ok());
    assert_eq!(e.whitelist_count(round_id), 1);
}

#[test]
fn p1_remove_from_whitelist_rejects_active() {
    let mut e = Env::new();
    let round_id = e.setup_active_round();
    assert_eq!(e.remove_from_whitelist(CREATOR, round_id, vec![BUYER]), err(Error::InvalidRoundStatus));
}

#[test]
fn p2_remove_payment_option_works() {
    let mut e = Env::new();
    let round_id = e.setup_round();
    assert!(e.add_payment_option(CREATOR, round_id, None, 100, 10, 10_000).is_ok());
    assert_eq!(e.round(round_id).unwrap().payment_options_count, 1);
    assert!(e.remove_payment_option(CREATOR, round_id, 0).is_ok());
    assert_eq!(e.round(round_id).unwrap().payment_options_count, 0);
    assert_eq!(e.options_len(round_id), 0);
}

#[test]
fn p2_remove_payment_option_rejects_invalid_index() {
    let mut e = Env::new();
    let round_id = e.setup_round();
    assert_eq!(e.remove_payment_option(CREATOR, round_id, 0), err(Error::PaymentOptionNotFound));
}

#[test]
fn p2_remove_payment_option_rejects_active() {
    let mut e = Env::new();
    let round_id = e.setup_active_round();
    assert_eq!(e.remove_payment_option(CREATOR, round_id, 0), err(Error::InvalidRoundStatus));
}

#[test]
fn p2_extend_sale_works() {
    let mut e = Env::new();
    let round_id = e.setup_active_round();
    assert!(e.extend_sale(CREATOR, round_id, 200).is_ok());
    assert_eq!(e.round(round_id).unwrap().end_block, 200u64);
}

#[test]
fn p2_extend_sale_rejects_shorter() {
    let mut e = Env::new();
    let round_id = e.setup_active_round();
    assert_eq!(e.extend_sale(CREATOR, round_id, 50), err(Error::InvalidExtension));
}

#[test]
fn p2_extend_sale_rejects_not_active() {
    let mut e = Env::new();
    let round_id = e.setup_round();
    assert_eq!(e.extend_sale(CREATOR, round_id, 200), err(Error::InvalidRoundStatus));
}

#[test]
fn p3_pause_sale_works() {
    let mut e = Env::new();
    let round_id = e.setup_active_round();
    assert!(e.pause_sale(CREATOR, round_id).is_ok());
    assert_eq!(e.round(round_id).unwrap().status, RoundStatus::Paused);
}

#[test]
fn p3_pause_sale_rejects_not_active() {
    let mut e = Env::new();
    let round_id = e.setup_round();
    assert_eq!(e.pause_sale(CREATOR, round_id), err(Error::InvalidRoundStatus));
}

#[test]
fn p3_resume_sale_works() {
    let mut e = Env::new();
    let round_id = e.setup_active_round();
    assert!(e.pause_sale(CREATOR, round_id).is_ok());
    assert!(e.resume_sale(CREATOR, round_id).is_ok());
    assert_eq!(e.round(round_id).unwrap().status, RoundStatus::Active);
}

#[test]
fn p3_resume_sale_rejects_not_paused() {
    let mut e = Env::new();
    let round_id = e.setup_active_round();
    assert_eq!(e.resume_sale(CREATOR, round_id), err(Error::SaleNotPaused));
}

#[test]
fn p3_subscribe_rejects_paused() {
    let mut e = Env::new();
    let round_id = e.setup_active_round();
    assert!(e.pause_sale(CREATOR, round_id).is_ok());
    assert_eq!(e.subscribe(BUYER, round_id, 100, None), err(Error::InvalidRoundStatus));
}

#[test]
fn p3_cancel_paused_sale_works() {
    let mut e = Env::new();
    let round_id = e.setup_active_round();
    assert!(e.subscribe(BUYER, round_id, 100, None).is_ok());
    assert!(e.pause_sale(CREATOR, round_id).is_ok());
    assert!(e.cancel_sale(CREATOR, round_id).is_ok());
    let round = e.round(round_id).unwrap();
    assert_eq!(round.status, RoundStatus::Cancelled);
    assert_eq!(round.remaining_amount, 0u128);
}

#[test]
fn p3_end_paused_sale_works() {
    let mut e = Env::new();
    let round_id = e.setup_active_round();
    assert!(e.pause_sale(CREATOR, round_id).is_ok());
    e.now = 101;
    assert!(e.end_sale(CREATOR, round_id).is_ok());
    assert_eq!(e.round(round_id).unwrap().status, RoundStatus::Ended);
}

#[test]
fn p3_force_end_paused_sale_works() {
    let mut e = Env::new();
    let round_id = e.setup_active_round();
    assert!(e.pause_sale(CREATOR, round_id).is_ok());
    assert!(e.force_end_sale(round_id).is_ok());
    assert_eq!(e.round(round_id).unwrap().status, RoundStatus::Ended);
}

#[test]
fn p3_force_cancel_paused_sale_works() {
    let mut e = Env::new();
    let round_id = e.setup_active_round();
    assert!(e.pause_sale(CREATOR, round_id).is_ok());
    assert!(e.force_cancel_sale(round_id).is_ok());
    assert_eq!(e.round(round_id).unwrap().status, RoundStatus::Cancelled);
}

#[test]
fn p3_on_initialize_skips_paused_round() {
    let mut e = Env::new();
    let round_id = e.setup_active_round();
    assert!(e.pause_sale(CREATOR, round_id).is_ok());
    e.now = 101;
    e.on_initialize(101);
    assert_eq!(e.round(round_id).unwrap().status, RoundStatus::Paused);
}

#[test]
fn p2_extend_paused_sale_works() {
    let mut e = Env::new();
    let round_id = e.setup_active_round();
    assert!(e.pause_sale(CREATOR, round_id).is_ok());
    assert!(e.extend_sale(CREATOR, round_id, 500).is_ok());
    assert_eq!(e.round(round_id).unwrap().end_block, 500u64);
}

#[test]
fn entity_locked_rejects_create_sale_round() {
    let mut e = Env::new();
    e.locked.insert(ENTITY_ID);
    assert_eq!(e.create_sale_round(CREATOR, ENTITY_ID, SaleMode::FixedPrice, 1_000, 10, 100, false, 0, 0), err(Error::EntityLocked));
}

#[test]
fn f2_soft_cap_met_ends_normally() {
    let mut e = Env::new();
    assert!(e.create_sale_round(CREATOR, ENTITY_ID, SaleMode::FixedPrice, 1_000_000, 10, 100, false, 0, 500).is_ok());
    assert!(e.add_payment_option(CREATOR, 0, None, 100, 10, 100_000).is_ok());
    assert!(e.start_sale(CREATOR, 0).is_ok());
    e.now = 10;
    assert!(e.subscribe(BUYER, 0, 10, None).is_ok());
    e.now = 101;
    assert!(e.end_sale(CREATOR, 0).is_ok());
    assert_eq!(e.round(0).unwrap().status, RoundStatus::Ended);
}

#[test]
fn f2_soft_cap_not_met_auto_cancels() {
    let mut e = Env::new();
    assert!(e.create_sale_round(CREATOR, ENTITY_ID, SaleMode::FixedPrice, 1_000_000, 10, 100, false, 0, 50000).is_ok());
    assert!(e.add_payment_option(CREATOR, 0, None, 100, 10, 100_000).is_ok());
    assert!(e.start_sale(CREATOR, 0).is_ok());
    e.now = 10;
    assert!(e.subscribe(BUYER, 0, 10, None).is_ok());
    e.now = 101;
    assert!(e.end_sale(CREATOR, 0).is_ok());
    assert_eq!(e.round(0).unwrap().status, RoundStatus::Cancelled);
}

#[test]
fn f2_soft_cap_auto_end_cancels() {
    let mut e = Env::new();
    assert!(e.create_sale_round(CREATOR, ENTITY_ID, SaleMode::FixedPrice, 1_000_000, 10, 100, false, 0, 999_999_999).is_ok());
    assert!(e.add_payment_option(CREATOR, 0, None, 100, 10, 100_000).is_ok());
    assert!(e.start_sale(CREATOR, 0).is_ok());
    e.now = 101;
    e.on_initialize(101);
    assert_eq!(e.round(0).unwrap().status, RoundStatus::Cancelled);
}

#[test]
fn f2_zero_soft_cap_ends_normally() {
    let mut e = Env::new();
    let round_id = e.setup_active_round();
    e.now = 101;
    assert!(e.end_sale(CREATOR, round_id).is_ok());
    assert_eq!(e.round(round_id).unwrap().status, RoundStatus::Ended);
}

#[test]
fn f4_insider_blocked_from_subscribe() {
    let mut e = Env::new();
    let round_id = e.setup_active_round();
    e.insider_blocked.insert((ENTITY_ID, BUYER));
    assert_eq!(e.subscribe(BUYER, round_id, 100, None), err(Error::InsiderTradingBlocked));
}

#[test]
fn f4_non_insider_can_subscribe() {
    let mut e = Env::new();
    let round_id = e.setup_active_round();
    assert!(e.subscribe(BUYER, round_id, 100, None).is_ok());
}

#[test]
fn f4_insider_blocked_from_increase_subscription() {
    let mut e = Env::new();
    let round_id = e.setup_active_round();
    assert!(e.subscribe(BUYER, round_id, 100, None).is_ok());
    e.insider_blocked.insert((ENTITY_ID, BUYER));
    assert_eq!(e.increase_subscription(BUYER, round_id, 50, None), err(Error::InsiderTradingBlocked));
}

#[test]
fn f5_whitelist_individual_allocation_works() {
    let mut e = Env::new();
    assert!(e.create_sale_round(CREATOR, ENTITY_ID, SaleMode::WhitelistAllocation, 1_000_000, 10, 100, false, 0, 0).is_ok());
    assert!(e.add_payment_option(CREATOR, 0, None, 100, 10, 100_000).is_ok());
    assert!(e.add_to_whitelist(CREATOR, 0, vec![(BUYER, Some(50))]).is_ok());
    assert!(e.start_sale(CREATOR, 0).is_ok());
    e.now = 10;
    assert!(e.subscribe(BUYER, 0, 50, None).is_ok());
    assert_eq!(e.increase_subscription(BUYER, 0, 10, None), err(Error::ExceedsPurchaseLimit));
}

#[test]
fn f5_whitelist_none_allocation_uses_default() {
    let mut e = Env::new();
    assert!(e.create_sale_round(CREATOR, ENTITY_ID, SaleMode::WhitelistAllocation, 1_000_000, 10, 100, false, 0, 0).is_ok());
    assert!(e.add_payment_option(CREATOR, 0, None, 100, 10, 100_000).is_ok());
    assert!(e.add_to_whitelist(CREATOR, 0, vec![(BUYER, None)]).is_ok());
    assert!(e.start_sale(CREATOR, 0).is_ok());
    e.now = 10;
    assert!(e.subscribe(BUYER, 0, 100, None).is_ok());
}

#[test]
fn f6_sale_statistics_works() {
    let mut e = Env::new();
    let round_id = e.setup_active_round();
    assert!(e.subscribe(BUYER, round_id, 200, None).is_ok());
    let stats = e.p.get_sale_statistics(round_id).unwrap();
    assert_eq!(stats.0, 1_000_000u128);
    assert_eq!(stats.1, 200u128);
    assert_eq!(stats.2, 999_800u128);
    assert_eq!(stats.3, 1);
}

#[test]
fn f6_sale_statistics_none_for_missing() {
    let e = Env::new();
    assert!(e.p.get_sale_statistics(999).is_none());
}

#[test]
fn f7_token_sale_provider_active_round() {
    let mut e = Env::new();
    assert_eq!(e.p.active_sale_round(ENTITY_ID), None);
    let round_id = e.setup_active_round();
    assert_eq!(e.p.active_sale_round(ENTITY_ID), Some(round_id));
    assert_eq!(e.p.sale_round_status(round_id), Some(TokenSaleStatus::Active));
    assert_eq!(e.p.sold_amount(round_id), Some(0u128));
    assert_eq!(e.p.remaining_amount(round_id), Some(1_000_000u128));
    assert_eq!(e.p.participants_count(round_id), Some(0));
    assert_eq!(e.p.sale_entity_id(round_id), Some(ENTITY_ID));
    assert_eq!(e.p.sale_total_supply(round_id), Some(1_000_000u128));
}

#[test]
fn f7_token_sale_provider_missing_round() {
    let e = Env::new();
    assert_eq!(e.p.sale_round_status(999), None);
    assert_eq!(e.p.sold_amount(999), None);
}

#[test]
fn f8_cleanup_round_works() {
    let mut e = Env::new();
    let round_id = e.setup_active_round();
    assert!(e.subscribe(BUYER, round_id, 100, None).is_ok());
    e.now = 101;
    assert!(e.end_sale(CREATOR, round_id).is_ok());
    assert!(e.withdraw_funds(CREATOR, round_id).is_ok());
    assert!(e.cleanup_round(CREATOR, round_id).is_ok());
    assert!(e.sub(round_id, BUYER).is_none());
    assert_eq!(e.whitelist_count(round_id), 0);
    assert_eq!(e.options_len(round_id), 0);
}

#[test]
fn f8_cleanup_rejects_active_round() {
    let mut e = Env::new();
    let round_id = e.setup_active_round();
    assert_eq!(e.cleanup_round(CREATOR, round_id), err(Error::RoundNotCleanable));
}

#[test]
fn f8_cleanup_rejects_non_creator() {
    let mut e = Env::new();
    let round_id = e.setup_active_round();
    e.now = 101;
    assert!(e.end_sale(CREATOR, round_id).is_ok());
    assert!(e.withdraw_funds(CREATOR, round_id).is_ok());
    assert_eq!(e.cleanup_round(BUYER, round_id), err(Error::Unauthorized));
}

#[test]
fn f8_cleanup_rejects_funds_not_withdrawn() {
    let mut e = Env::new();
    let round_id = e.setup_active_round();
    e.now = 101;
    assert!(e.end_sale(CREATOR, round_id).is_ok());
    assert_eq!(e.cleanup_round(CREATOR, round_id), err(Error::RoundNotCleanable));
}

#[test]
fn f9_force_batch_refund_works() {
    let mut e = Env::new();
    let round_id = e.setup_active_round();
    assert!(e.subscribe(BUYER, round_id, 100, None).is_ok());
    let before = e.balance(BUYER);
    assert!(e.cancel_sale(CREATOR, round_id).is_ok());
    assert!(e.force_batch_refund(round_id, vec![BUYER]).is_ok());
    assert!(e.sub(round_id, BUYER).unwrap().refunded);
    assert!(e.balance(BUYER) > before);
}

#[test]
fn f9_force_batch_refund_rejects_non_cancelled() {
    let mut e = Env::new();
    let round_id = e.setup_active_round();
    assert_eq!(e.force_batch_refund(round_id, vec![BUYER]), err(Error::SaleNotCancelled));
}

#[test]
fn f9_force_batch_refund_rejects_empty_batch() {
    let mut e = Env::new();
    let round_id = e.setup_active_round();
    assert!(e.cancel_sale(CREATOR, round_id).is_ok());
    assert_eq!(e.force_batch_refund(round_id, vec![]), err(Error::EmptyBatch));
}

#[test]
fn f9_force_batch_refund_skips_already_refunded() {
    let mut e = Env::new();
    let round_id = e.setup_active_round();
    assert!(e.subscribe(BUYER, round_id, 100, None).is_ok());
    assert!(e.cancel_sale(CREATOR, round_id).is_ok());
    assert!(e.force_refund(round_id, BUYER).is_ok());
    let after_single = e.balance(BUYER);
    assert!(e.force_batch_refund(round_id, vec![BUYER]).is_ok());
    assert_eq!(e.balance(BUYER), after_single);
    assert!(matches!(e.last_event(), Some(Event::ForceBatchRefundIssued { refunded_count: 0, .. })));
}

#[test]
fn f11_lottery_mode_rejected() {
    let mut e = Env::new();
    assert_eq!(e.create_sale_round(CREATOR, ENTITY_ID, SaleMode::Lottery, 1_000, 10, 100, false, 0, 0), err(Error::LotteryNotImplemented));
}

#[test]
fn f12_has_active_sale_returns_true_when_active() {
    let mut e = Env::new();
    let _round_id = e.setup_active_round();
    assert!(e.p.has_active_sale(ENTITY_ID));
}

#[test]
fn f12_has_active_sale_returns_false_when_none() {
    let e = Env::new();
    assert!(!e.p.has_active_sale(ENTITY_ID));
}

#[test]
fn f12_has_active_sale_returns_false_after_end() {
    let mut e = Env::new();
    let round_id = e.setup_active_round();
    e.now = 101;
    assert!(e.end_sale(CREATOR, round_id).is_ok());
    assert!(!e.p.has_active_sale(ENTITY_ID));
}

#[test]
fn f12_has_active_sale_true_when_paused() {
    let mut e = Env::new();
    let round_id = e.setup_active_round();
    assert!(e.pause_sale(CREATOR, round_id).is_ok());
    assert!(e.p.has_active_sale(ENTITY_ID));
}

#[test]
fn h1h2_force_batch_refund_unreserves_entity_tokens() {
    let mut e = Env::new();
    let round_id = e.setup_active_round();
    assert!(e.subscribe(BUYER, round_id, 100, None).is_ok());
    assert!(e.get_reserved(ENTITY_ACCOUNT) >= 100);
    assert!(e.cancel_sale(CREATOR, round_id).is_ok());
    assert!(e.force_batch_refund(round_id, vec![BUYER]).is_ok());
    assert_eq!(e.get_reserved(ENTITY_ACCOUNT), 0);
}

#[test]
fn m1_force_batch_refund_updates_total_refunded_tokens() {
    let mut e = Env::new();
    let round_id = e.setup_active_round();
    assert!(e.subscribe(BUYER, round_id, 100, None).is_ok());
    assert!(e.subscribe(BUYER2, round_id, 200, None).is_ok());
    assert!(e.cancel_sale(CREATOR, round_id).is_ok());
    assert!(e.force_batch_refund(round_id, vec![BUYER, BUYER2]).is_ok());
    let round = e.round(round_id).unwrap();
    assert_eq!(round.total_refunded_tokens, 300u128);
    assert!(round.total_refunded_nex > 0);
}

#[test]
fn h1_force_batch_refund_skips_on_transfer_failure() {
    let mut e = Env::new();
    let round_id = e.setup_active_round();
    assert!(e.subscribe(BUYER, round_id, 100, None).is_ok());
    assert!(e.cancel_sale(CREATOR, round_id).is_ok());
    let pallet_account = e.p.pallet_account();
    let pallet_bal = e.balance(pallet_account);
    if pallet_bal > 1 {
        let _ = e.transfer(pallet_account, 99, pallet_bal - 1, true);
    }
    assert!(e.force_batch_refund(round_id, vec![BUYER]).is_ok());
    assert!(!e.sub(round_id, BUYER).unwrap().refunded);
}

/// Sets up a round whose soft cap cannot be reached, with BUYER subscribed.
fn soft_cap_round(e: &mut Env) {
    assert!(e.create_sale_round(CREATOR, ENTITY_ID, SaleMode::FixedPrice, 1_000_000, 10, 100, false, 0, 999_999).is_ok());
    assert!(e.add_payment_option(CREATOR, 0, None, 100, 10, 100_000).is_ok());
    assert!(e.start_sale(CREATOR, 0).is_ok());
    e.now = 10;
}

#[test]
fn h1r6_claim_refund_works_after_end_sale_soft_cap_failure() {
    let mut e = Env::new();
    soft_cap_round(&mut e);
    let buyer_before = e.balance(BUYER);
    assert!(e.subscribe(BUYER, 0, 100, None).is_ok());
    e.now = 101;
    assert!(e.end_sale(CREATOR, 0).is_ok());
    assert_eq!(e.round(0).unwrap().status, RoundStatus::Cancelled);
    assert!(e.claim_refund(BUYER, 0).is_ok());
    assert_eq!(e.balance(BUYER), buyer_before);
    assert_eq!(e.get_reserved(ENTITY_ACCOUNT), 0);
}

#[test]
fn h1r6_claim_refund_works_after_auto_end_soft_cap_failure() {
    let mut e = Env::new();
    soft_cap_round(&mut e);
    let buyer_before = e.balance(BUYER);
    assert!(e.subscribe(BUYER, 0, 100, None).is_ok());
    e.now = 101;
    e.on_initialize(101);
    assert_eq!(e.round(0).unwrap().status, RoundStatus::Cancelled);
    assert!(e.claim_refund(BUYER, 0).is_ok());
    assert_eq!(e.balance(BUYER), buyer_before);
}

#[test]
fn h1r6_reclaim_works_after_soft_cap_cancel() {
    let mut e = Env::new();
    soft_cap_round(&mut e);
    assert!(e.subscribe(BUYER, 0, 100, None).is_ok());
    assert!(e.subscribe(BUYER2, 0, 200, None).is_ok());
    e.now = 101;
    assert!(e.end_sale(CREATOR, 0).is_ok());
    assert!(e.claim_refund(BUYER, 0).is_ok());
    e.now = 210;
    let entity_before = e.balance(ENTITY_ACCOUNT);
    assert!(e.reclaim_unclaimed_tokens(CREATOR, 0).is_ok());
    assert_eq!(e.balance(ENTITY_ACCOUNT) - entity_before, 20_000u128);
    assert_eq!(e.round(0).unwrap().status, RoundStatus::Completed);
}

#[test]
fn m2_dutch_price_no_overflow_with_large_values() {
    let mut e = Env::new();
    assert!(e.create_sale_round(CREATOR, ENTITY_ID, SaleMode::DutchAuction, 1_000, 10, 110, false, 0, 0).is_ok());
    let round_id = 0u64;
    assert!(e.add_payment_option(CREATOR, round_id, None, 1, 1, 100_000).is_ok());
    let large_start: u128 = u128::MAX / 2;
    let large_end: u128 = 1_000_000;
    assert!(e.configure_dutch_auction(CREATOR, round_id, large_start, large_end).is_ok());
    assert!(e.start_sale(CREATOR, round_id).is_ok());
    let round = e.round(round_id).unwrap();
    let price = calculate_dutch_price(&round, 60).unwrap();
    assert!(price >= large_end);
    assert!(price <= large_start);
    let expected_mid = large_start / 2;
    let tolerance = large_start / 10;
    assert!(price > expected_mid.saturating_sub(tolerance) && price < expected_mid.saturating_add(tolerance));
}

#[test]
fn m1r7_cleanup_round_frees_entity_rounds_slot() {
    let mut e = Env::new();
    let round_id = e.setup_active_round();
    assert!(e.subscribe(BUYER, round_id, 100, None).is_ok());
    e.now = 101;
    assert!(e.end_sale(CREATOR, round_id).is_ok());
    assert!(e.withdraw_funds(CREATOR, round_id).is_ok());
    assert!(e.entity_rounds().contains(&round_id));
    assert!(e.cleanup_round(CREATOR, round_id).is_ok());
    assert!(!e.entity_rounds().contains(&round_id));
}

#[test]
fn m1r7_cleanup_allows_new_round_after_slot_freed() {
    let mut e = Env::new();
    let round_id = e.setup_active_round();
    e.now = 101;
    assert!(e.end_sale(CREATOR, round_id).is_ok());
    assert!(e.withdraw_funds(CREATOR, round_id).is_ok());
    assert!(e.cleanup_round(CREATOR, round_id).is_ok());
    assert!(e.create_sale_round(CREATOR, ENTITY_ID, SaleMode::FixedPrice, 500_000, 200, 300, false, 0, 0).is_ok());
    let rounds = e.entity_rounds();
    assert_eq!(rounds.len(), 1);
    assert_eq!(rounds[0], 1u64);
}

#[test]
fn l1r7_force_batch_refund_rereserves_on_partial_unreserve() {
    let mut e = Env::new();
    let round_id = e.setup_active_round();
    assert!(e.subscribe(BUYER, round_id, 100, None).is_ok());
    assert!(e.cancel_sale(CREATOR, round_id).is_ok());
    e.set_reserved(ENTITY_ACCOUNT, 50);
    assert_eq!(e.get_reserved(ENTITY_ACCOUNT), 50);
    assert!(e.force_batch_refund(round_id, vec![BUYER]).is_ok());
    assert!(!e.sub(round_id, BUYER).unwrap().refunded);
    assert_eq!(e.get_reserved(ENTITY_ACCOUNT), 50);
}

#[test]
fn raised_funds_equal_the_sum_of_payments() {
    let mut e = Env::new();
    let round_id = e.setup_active_round();
    assert!(e.subscribe(BUYER, round_id, 100, None).is_ok());
    assert!(e.subscribe(BUYER2, round_id, 250, None).is_ok());
    assert!(e.increase_subscription(BUYER, round_id, 40, None).is_ok());
    let total: u128 = e.participants(round_id).iter().map(|a| e.sub(round_id, *a).unwrap().payment_amount).sum();
    assert_eq!(e.raised(round_id), total);
    assert_eq!(total, (100 + 250 + 40) * 100);
    let round = e.round(round_id).unwrap();
    assert_eq!(round.sold_amount + round.remaining_amount, round.total_supply);
    assert_eq!(round.participants_count as usize, e.participants(round_id).len());
}

#[test]
fn unlockable_grows_with_time() {
    let v = VestingConfig {
        vesting_type: VestingType::Cliff,
        initial_unlock_bps: 1000,
        cliff_duration: 10,
        total_duration: 110,
        unlock_interval: 25,
    };
    let mut last = 0u128;
    for now in 10..130u64 {
        let u = calculate_unlockable(&v, 10_000, 0, 0, now).unwrap();
        assert!(u >= last);
        last = u;
    }
    assert_eq!(last, 10_000);
    assert_eq!(calculate_unlockable(&v, 10_000, 0, 0, 34).unwrap(), 1_000);
    assert_eq!(calculate_unlockable(&v, 10_000, 0, 0, 35).unwrap(), 1_000 + 9_000 * 25 / 100);
}
