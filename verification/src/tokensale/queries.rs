//! Read-only queries, for the runtime API and for other pallets.
use vstd::prelude::*;

use super::{raised_native, Pallet, RoundStatus, SaleRound, Subscription, TokenSaleStatus};
use super::math::{calculate_dutch_price, calculate_unlockable, spec_round_dutch_price, spec_unlockable};
use super::trade::find_option;
use crate::kvmap::seq_or_empty;

verus! {

/// Whether a round of `entity_id` is running (active or paused).
pub open spec fn running_for(rounds: Map<u64, SaleRound>, id: u64, entity_id: u64) -> bool {
    rounds.contains_key(id) && rounds[id].entity_id == entity_id
        && (rounds[id].status is Active || rounds[id].status is Paused)
}

/// The first watched round of `entity_id` that is running.
pub open spec fn first_running(rounds: Map<u64, SaleRound>, ids: Seq<u64>, entity_id: u64) -> Option<u64>
    decreases ids.len(),
{
    if ids.len() == 0 {
        None
    } else if running_for(rounds, ids[0], entity_id) {
        Some(ids[0])
    } else {
        first_running(rounds, ids.drop_first(), entity_id)
    }
}

/// The status of a round as other pallets see it.
pub open spec fn sale_status(s: RoundStatus) -> TokenSaleStatus {
    match s {
        RoundStatus::NotStarted => TokenSaleStatus::NotStarted,
        RoundStatus::Active => TokenSaleStatus::Active,
        RoundStatus::Paused => TokenSaleStatus::Paused,
        RoundStatus::Ended => TokenSaleStatus::Ended,
        RoundStatus::Cancelled => TokenSaleStatus::Cancelled,
        RoundStatus::Completed => TokenSaleStatus::Completed,
    }
}

impl Pallet {
    /// Current price of a round at block `now`: the Dutch-auction price, or the
    /// price of the first enabled option for `asset_id`.
    pub fn get_current_price(&self, now: u64, round_id: u64, asset_id: Option<u64>) -> (r: Option<u128>)
        ensures
            !self.sale_rounds@.contains_key(round_id) ==> r is None,
            self.sale_rounds@.contains_key(round_id) ==> {
                let round = self.sale_rounds@[round_id];
                if round.mode is DutchAuction {
                    r == (match spec_round_dutch_price(round, now) {
                        Ok(p) => Some(p),
                        Err(_) => None::<u128>,
                    })
                } else {
                    r == (match find_option(seq_or_empty(self.round_payment_options@, round_id), asset_id) {
                        Some(o) => Some(o.price),
                        None => None::<u128>,
                    })
                }
            },
    {
        let round = match self.sale_rounds.get(&round_id) {
            Some(r) => *r,
            None => return None,
        };
        if round.mode == super::SaleMode::DutchAuction {
            match calculate_dutch_price(&round, now) {
                Ok(p) => Some(p),
                Err(_) => None,
            }
        } else {
            match self.payment_option_for(round_id, asset_id) {
                Some(o) => Some(o.price),
                None => None,
            }
        }
    }

    /// The subscription of `account` in a round.
    pub fn get_subscription(&self, round_id: u64, account: u64) -> (r: Option<Subscription>)
        ensures
            r == (if self.subscriptions@.contains_key((round_id, account)) {
                Some(self.subscriptions@[(round_id, account)])
            } else {
                None::<Subscription>
            }),
    {
        match self.subscriptions.get(&(round_id, account)) {
            Some(s) => Some(*s),
            None => None,
        }
    }

    /// Total supply, sold, remaining, participants, native funds raised and soft
    /// cap of a round.
    pub fn get_sale_statistics(&self, round_id: u64) -> (r: Option<(u128, u128, u128, u32, u128, u128)>)
        ensures
            !self.sale_rounds@.contains_key(round_id) ==> r is None,
            self.sale_rounds@.contains_key(round_id) ==> {
                let round = self.sale_rounds@[round_id];
                r == Some((round.total_supply, round.sold_amount, round.remaining_amount,
                    round.participants_count, raised_native(*self, round_id), round.soft_cap))
            },
    {
        let round = match self.sale_rounds.get(&round_id) {
            Some(r) => *r,
            None => return None,
        };
        let raised = self.raised_native_of(round_id);
        Some((round.total_supply, round.sold_amount, round.remaining_amount, round.participants_count, raised, round.soft_cap))
    }

    /// The first watched round of an entity that is active or paused.
    pub fn active_sale_round(&self, entity_id: u64) -> (r: Option<u64>)
        ensures
            r == first_running(self.sale_rounds@, self.active_rounds@, entity_id),
    {
        assert(self.active_rounds@.skip(0) =~= self.active_rounds@);
        let mut i: usize = 0;
        while i < self.active_rounds.len()
            invariant
                0 <= i <= self.active_rounds@.len(),
                first_running(self.sale_rounds@, self.active_rounds@, entity_id)
                    == first_running(self.sale_rounds@, self.active_rounds@.skip(i as int), entity_id),
            decreases self.active_rounds@.len() - i,
        {
            let id = self.active_rounds[i];
            let ghost rest = self.active_rounds@.skip(i as int);
            assert(rest[0] == id);
            assert(rest.drop_first() =~= self.active_rounds@.skip(i + 1));
            match self.sale_rounds.get(&id) {
                Some(round) => {
                    if round.entity_id == entity_id
                        && (round.status == RoundStatus::Active || round.status == RoundStatus::Paused) {
                        return Some(id);
                    }
                },
                None => {},
            }
            i = i + 1;
        }
        None
    }

    /// Whether an entity has an active or paused round being watched.
    pub fn has_active_sale(&self, entity_id: u64) -> (r: bool)
        ensures
            r == first_running(self.sale_rounds@, self.active_rounds@, entity_id) is Some,
    {
        self.active_sale_round(entity_id).is_some()
    }

    /// What `account` could unlock at block `now`; zero where there is nothing
    /// to unlock or unlocking would fail.
    pub fn get_unlockable_amount(&self, now: u64, round_id: u64, account: u64) -> (r: u128)
        ensures
            ({
                let key = (round_id, account);
                let sub = self.subscriptions@[key];
                if !self.sale_rounds@.contains_key(round_id) || !self.subscriptions@.contains_key(key) || !sub.claimed {
                    r == 0
                } else {
                    r == (match spec_unlockable(self.sale_rounds@[round_id].vesting_config, sub.amount,
                        sub.unlocked_amount, sub.subscribed_at, now) {
                        Ok(v) => v,
                        Err(_) => 0u128,
                    })
                }
            }),
    {
        let round = match self.sale_rounds.get(&round_id) {
            Some(r) => *r,
            None => return 0,
        };
        let sub = match self.subscriptions.get(&(round_id, account)) {
            Some(s) => *s,
            None => return 0,
        };
        if !sub.claimed {
            return 0;
        }
        match calculate_unlockable(&round.vesting_config, sub.amount, sub.unlocked_amount, sub.subscribed_at, now) {
            Ok(v) => v,
            Err(_) => 0,
        }
    }

    /// Status of a round as other pallets see it.
    pub fn sale_round_status(&self, round_id: u64) -> (r: Option<TokenSaleStatus>)
        ensures
            r == (if self.sale_rounds@.contains_key(round_id) {
                Some(sale_status(self.sale_rounds@[round_id].status))
            } else {
                None::<TokenSaleStatus>
            }),
    {
        match self.sale_rounds.get(&round_id) {
            Some(round) => Some(match round.status {
                RoundStatus::NotStarted => TokenSaleStatus::NotStarted,
                RoundStatus::Active => TokenSaleStatus::Active,
                RoundStatus::Paused => TokenSaleStatus::Paused,
                RoundStatus::Ended => TokenSaleStatus::Ended,
                RoundStatus::Cancelled => TokenSaleStatus::Cancelled,
                RoundStatus::Completed => TokenSaleStatus::Completed,
            }),
            None => None,
        }
    }

    fn round_field(&self, round_id: u64) -> (r: Option<SaleRound>)
        ensures
            r == (if self.sale_rounds@.contains_key(round_id) {
                Some(self.sale_rounds@[round_id])
            } else {
                None::<SaleRound>
            }),
    {
        match self.sale_rounds.get(&round_id) {
            Some(round) => Some(*round),
            None => None,
        }
    }

    /// Tokens sold in a round.
    pub fn sold_amount(&self, round_id: u64) -> (r: Option<u128>)
        ensures
            r == (if self.sale_rounds@.contains_key(round_id) { Some(self.sale_rounds@[round_id].sold_amount) } else { None::<u128> }),
    {
        match self.round_field(round_id) {
            Some(round) => Some(round.sold_amount),
            None => None,
        }
    }

    /// Tokens left for sale in a round.
    pub fn remaining_amount(&self, round_id: u64) -> (r: Option<u128>)
        ensures
            r == (if self.sale_rounds@.contains_key(round_id) { Some(self.sale_rounds@[round_id].remaining_amount) } else { None::<u128> }),
    {
        match self.round_field(round_id) {
            Some(round) => Some(round.remaining_amount),
            None => None,
        }
    }

    /// Number of subscribers of a round.
    pub fn participants_count(&self, round_id: u64) -> (r: Option<u32>)
        ensures
            r == (if self.sale_rounds@.contains_key(round_id) { Some(self.sale_rounds@[round_id].participants_count) } else { None::<u32> }),
    {
        match self.round_field(round_id) {
            Some(round) => Some(round.participants_count),
            None => None,
        }
    }

    /// Tokens offered in a round.
    pub fn sale_total_supply(&self, round_id: u64) -> (r: Option<u128>)
        ensures
            r == (if self.sale_rounds@.contains_key(round_id) { Some(self.sale_rounds@[round_id].total_supply) } else { None::<u128> }),
    {
        match self.round_field(round_id) {
            Some(round) => Some(round.total_supply),
            None => None,
        }
    }

    /// Entity of a round.
    pub fn sale_entity_id(&self, round_id: u64) -> (r: Option<u64>)
        ensures
            r == (if self.sale_rounds@.contains_key(round_id) { Some(self.sale_rounds@[round_id].entity_id) } else { None::<u64> }),
    {
        match self.round_field(round_id) {
            Some(round) => Some(round.entity_id),
            None => None,
        }
    }
}

} // verus!
