//! Properties of the sale that span calls.
use vstd::prelude::*;
use crate::arith::{clamp_u128, clamp_u32};

use crate::kvmap::{get_or, seq_or_empty};
use super::{raised_native, Error, Pallet, SaleRound, Subscription};
use super::refunds::{claim_error, refund_error, round_after_refund, withdraw_error, BatchRefund};
use super::math::spec_initial_unlock;

verus! {

/// A subscriber is refunded at most once: after a successful refund (the
/// storage change that `claim_refund` and `force_refund` state), a second
/// refund of the same subscription is refused as already refunded.
pub proof fn lemma_refund_only_once(p: Pallet, q: Pallet, round_id: u64, subscriber: u64)
    requires
        refund_error(p, round_id, subscriber) is None,
        q.subscriptions@ == p.subscriptions@.insert((round_id, subscriber),
            Subscription { refunded: true, ..p.subscriptions@[(round_id, subscriber)] }),
        q.sale_rounds@ == p.sale_rounds@.insert(round_id,
            round_after_refund(p.sale_rounds@[round_id], p.subscriptions@[(round_id, subscriber)])),
    ensures
        refund_error(q, round_id, subscriber) == Some(Error::AlreadyRefunded),
{
}

/// Raised funds are paid out at most once: after a successful payout (the
/// storage change that `withdraw_funds` and `force_withdraw_funds` state), any
/// further payout of the round is refused.
pub proof fn lemma_withdraw_only_once(p: Pallet, q: Pallet, who: Option<u64>, who2: Option<u64>, round_id: u64,
    entity: super::EntityInfo, entity2: super::EntityInfo)
    requires
        withdraw_error(p, who, round_id, entity) is None,
        q.sale_rounds@ == p.sale_rounds@.insert(round_id, SaleRound { funds_withdrawn: true, ..p.sale_rounds@[round_id] }),
    ensures
        withdraw_error(q, who2, round_id, entity2) is Some,
        who2 is None ==> withdraw_error(q, who2, round_id, entity2) == Some(Error::FundsAlreadyWithdrawn),
{
}

/// Tokens are claimed at most once: after a successful claim (the storage
/// change that `claim_tokens` states), a second claim of the same subscription
/// is refused as already claimed.
pub proof fn lemma_claim_only_once(p: Pallet, q: Pallet, who: u64, round_id: u64)
    requires
        claim_error(p, who, round_id) is None,
        q.sale_rounds == p.sale_rounds,
        q.subscriptions@ == p.subscriptions@.insert((round_id, who), Subscription {
            claimed: true,
            unlocked_amount: spec_initial_unlock(p.sale_rounds@[round_id].vesting_config, p.subscriptions@[(round_id, who)].amount),
            ..p.subscriptions@[(round_id, who)]
        }),
    ensures
        claim_error(q, who, round_id) == Some(Error::AlreadyClaimed),
{
}

/// Sum of the payments of the subscriptions of round `r` held by `accounts`.
pub open spec fn paid_sum(subs: Map<(u64, u64), Subscription>, r: u64, accounts: Seq<u64>) -> int
    decreases accounts.len(),
{
    if accounts.len() == 0 {
        0
    } else {
        paid_sum(subs, r, accounts.drop_last()) + (if subs.contains_key((r, accounts.last())) {
            subs[(r, accounts.last())].payment_amount as int
        } else {
            0
        })
    }
}

/// What a subscription contributes to the funds raised in asset `x`.
pub open spec fn paid_in(s: Subscription, x: Option<u64>) -> int {
    if s.payment_asset == x { s.payment_amount as int } else { 0 }
}

/// Sum of the payments in asset `x` of the subscriptions of round `r` held by
/// `accounts`.
pub open spec fn asset_paid_sum(subs: Map<(u64, u64), Subscription>, r: u64, accounts: Seq<u64>, x: Option<u64>) -> int
    decreases accounts.len(),
{
    if accounts.len() == 0 {
        0
    } else {
        asset_paid_sum(subs, r, accounts.drop_last(), x) + (if subs.contains_key((r, accounts.last())) {
            paid_in(subs[(r, accounts.last())], x)
        } else {
            0
        })
    }
}

/// The books of round `r` balance: sold and remaining tokens add up to the
/// supply, the participants are exactly the round's subscribers, each once, the
/// participant count is their number, and for every payment asset the funds
/// raised in it are the sum of the subscribers' payments made in it.
pub open spec fn round_books(p: Pallet, r: u64) -> bool {
    let parts = seq_or_empty(p.round_participants@, r);
    let round = p.sale_rounds@[r];
    &&& p.sale_rounds@.contains_key(r)
    &&& round.sold_amount + round.remaining_amount == round.total_supply
    &&& round.participants_count == parts.len()
    &&& parts.no_duplicates()
    &&& forall|a: u64| #[trigger] p.subscriptions@.contains_key((r, a)) <==> parts.contains(a)
    &&& forall|x: Option<u64>| #[trigger] get_or(p.raised_funds@, (r, x), 0u128) == asset_paid_sum(p.subscriptions@, r, parts, x)
}

/// In balanced books the native funds raised are the sum of the native payments.
pub proof fn lemma_books_native(p: Pallet, r: u64)
    requires
        round_books(p, r),
    ensures
        raised_native(p, r) == asset_paid_sum(p.subscriptions@, r, seq_or_empty(p.round_participants@, r), None),
{
    assert(get_or(p.raised_funds@, (r, None::<u64>), 0u128)
        == asset_paid_sum(p.subscriptions@, r, seq_or_empty(p.round_participants@, r), None));
}

/// Changing the subscription of an account that is not among `accounts` leaves
/// their sums alone.
pub proof fn lemma_asset_paid_sum_other(subs: Map<(u64, u64), Subscription>, r: u64, accounts: Seq<u64>, a: u64, s: Subscription, x: Option<u64>)
    requires
        !accounts.contains(a),
    ensures
        asset_paid_sum(subs.insert((r, a), s), r, accounts, x) == asset_paid_sum(subs, r, accounts, x),
    decreases accounts.len(),
{
    if accounts.len() > 0 {
        assert(!accounts.drop_last().contains(a)) by {
            if accounts.drop_last().contains(a) {
                let i = choose|i: int| 0 <= i < accounts.drop_last().len() && accounts.drop_last()[i] == a;
                assert(accounts[i] == a);
            }
        }
        assert(accounts.last() != a) by {
            assert(accounts[accounts.len() - 1] == accounts.last());
        }
        lemma_asset_paid_sum_other(subs, r, accounts.drop_last(), a, s, x);
    }
}

/// Sums in asset `x` are never negative.
pub proof fn lemma_asset_paid_sum_nonneg(subs: Map<(u64, u64), Subscription>, r: u64, accounts: Seq<u64>, x: Option<u64>)
    ensures
        asset_paid_sum(subs, r, accounts, x) >= 0,
    decreases accounts.len(),
{
    if accounts.len() > 0 {
        lemma_asset_paid_sum_nonneg(subs, r, accounts.drop_last(), x);
    }
}

/// Replacing the subscription of an account listed once in `accounts` changes
/// their sum in asset `x` by the change of its contribution.
pub proof fn lemma_asset_paid_sum_update(subs: Map<(u64, u64), Subscription>, r: u64, accounts: Seq<u64>, a: u64, s: Subscription, x: Option<u64>)
    requires
        accounts.contains(a),
        accounts.no_duplicates(),
        subs.contains_key((r, a)),
    ensures
        asset_paid_sum(subs.insert((r, a), s), r, accounts, x)
            == asset_paid_sum(subs, r, accounts, x) - paid_in(subs[(r, a)], x) + paid_in(s, x),
        asset_paid_sum(subs, r, accounts, x) >= paid_in(subs[(r, a)], x),
    decreases accounts.len(),
{
    let rest = accounts.drop_last();
    lemma_asset_paid_sum_nonneg(subs, r, rest, x);
    if accounts.last() == a {
        assert(!rest.contains(a)) by {
            if rest.contains(a) {
                let i = choose|i: int| 0 <= i < rest.len() && rest[i] == a;
                assert(accounts[i] == accounts[accounts.len() - 1]);
            }
        }
        lemma_asset_paid_sum_other(subs, r, rest, a, s, x);
    } else {
        assert(rest.contains(a)) by {
            let i = choose|i: int| 0 <= i < accounts.len() && accounts[i] == a;
            assert(i != accounts.len() - 1);
            assert(rest[i] == a);
        }
        assert(rest.no_duplicates()) by {
            assert forall|i: int, j: int| 0 <= i < rest.len() && 0 <= j < rest.len() && i != j implies rest[i] != rest[j] by {
                assert(rest[i] == accounts[i] && rest[j] == accounts[j]);
            }
        }
        lemma_asset_paid_sum_update(subs, r, rest, a, s, x);
    }
}

/// A sum of payments is never negative.
pub proof fn lemma_paid_sum_nonneg(subs: Map<(u64, u64), Subscription>, r: u64, accounts: Seq<u64>)
    ensures
        paid_sum(subs, r, accounts) >= 0,
    decreases accounts.len(),
{
    if accounts.len() > 0 {
        lemma_paid_sum_nonneg(subs, r, accounts.drop_last());
    }
}

/// Sum of the token amounts of the subscriptions of round `r` held by `accounts`.
pub open spec fn amount_sum(subs: Map<(u64, u64), Subscription>, r: u64, accounts: Seq<u64>) -> int
    decreases accounts.len(),
{
    if accounts.len() == 0 {
        0
    } else {
        amount_sum(subs, r, accounts.drop_last()) + (if subs.contains_key((r, accounts.last())) {
            subs[(r, accounts.last())].amount as int
        } else {
            0
        })
    }
}

/// A batch refund that started on subscriptions `s0` and has reached
/// subscriptions `s` has paid back exactly `paid`: each of them once, each
/// unrefunded in `s0` and now marked refunded, every other subscription of the
/// round untouched, and the batch's count and totals are the number of `paid`
/// and the sums of their payments and token amounts.
pub open spec fn batch_books(s0: Map<(u64, u64), Subscription>, s: Map<(u64, u64), Subscription>, batch: BatchRefund, paid: Seq<u64>) -> bool {
    let r = batch.round_id;
    &&& paid.no_duplicates()
    &&& forall|a: u64| #[trigger] paid.contains(a) ==> {
        &&& s0.contains_key((r, a))
        &&& !s0[(r, a)].refunded
        &&& s.contains_key((r, a))
        &&& s[(r, a)] == (Subscription { refunded: true, ..s0[(r, a)] })
    }
    &&& forall|a: u64| !paid.contains(a) ==> (#[trigger] s.contains_key((r, a)) == s0.contains_key((r, a))
        && s[(r, a)] == s0[(r, a)])
    &&& forall|k: (u64, u64)| #![trigger s.contains_key(k)] #![trigger s[k]] k.0 != r ==> (s.contains_key(k) == s0.contains_key(k) && s[k] == s0[k])
    &&& batch.refunded_count == paid.len()
    &&& batch.total_nex == paid_sum(s0, r, paid)
    &&& batch.total_tokens == amount_sum(s0, r, paid)
}

/// One subscriber of a batch refund, given the unreserve deficit and whether the
/// payment went through: the change that `batch_refund_due`,
/// `batch_refund_after_unreserve` and `batch_refund_after_transfer` state
/// together. Only a due subscriber with nothing left reserved and a payment that
/// went through is refunded; every other subscriber leaves all as it was.
pub open spec fn batch_step(
    state: (Map<(u64, u64), Subscription>, BatchRefund, Seq<u64>),
    subscriber: u64,
    deficit: u128,
    paid: bool,
) -> (Map<(u64, u64), Subscription>, BatchRefund, Seq<u64>) {
    let (m, b, l) = state;
    let key = (b.round_id, subscriber);
    if m.contains_key(key) && !m[key].refunded && deficit == 0 && paid {
        (
            m.insert(key, Subscription { refunded: true, ..m[key] }),
            BatchRefund {
                refunded_count: clamp_u32(b.refunded_count + 1),
                total_nex: clamp_u128(b.total_nex + m[key].payment_amount),
                total_tokens: clamp_u128(b.total_tokens + m[key].amount),
                ..b
            },
            l.push(subscriber),
        )
    } else {
        state
    }
}

/// A whole batch refund over `subscribers`, the i-th with unreserve deficit
/// `deficits[i]` and payment outcome `paid[i]`: the steps applied in order,
/// giving the subscriptions, the batch, and the subscribers paid back.
pub open spec fn batch_run(
    s0: Map<(u64, u64), Subscription>,
    b0: BatchRefund,
    subscribers: Seq<u64>,
    deficits: Seq<u128>,
    paid: Seq<bool>,
) -> (Map<(u64, u64), Subscription>, BatchRefund, Seq<u64>)
    decreases subscribers.len(),
{
    if subscribers.len() == 0 {
        (s0, b0, Seq::empty())
    } else {
        let n = subscribers.len() - 1;
        batch_step(
            batch_run(s0, b0, subscribers.drop_last(), deficits.take(n), paid.take(n)),
            subscribers.last(),
            deficits[n],
            paid[n],
        )
    }
}

proof fn lemma_sums_grow(s0: Map<(u64, u64), Subscription>, r: u64, l: Seq<u64>, a: u64)
    ensures
        paid_sum(s0, r, l.push(a)) >= paid_sum(s0, r, l),
        amount_sum(s0, r, l.push(a)) >= amount_sum(s0, r, l),
        paid_sum(s0, r, l.push(a)) == paid_sum(s0, r, l) + (if s0.contains_key((r, a)) { s0[(r, a)].payment_amount as int } else { 0 }),
        amount_sum(s0, r, l.push(a)) == amount_sum(s0, r, l) + (if s0.contains_key((r, a)) { s0[(r, a)].amount as int } else { 0 }),
{
    assert(l.push(a).drop_last() =~= l);
}

/// One step keeps the books of a batch refund, while the totals stay within range.
pub proof fn lemma_batch_step_keeps_totals(
    s0: Map<(u64, u64), Subscription>,
    state: (Map<(u64, u64), Subscription>, BatchRefund, Seq<u64>),
    subscriber: u64,
    deficit: u128,
    paid: bool,
)
    requires
        batch_books(s0, state.0, state.1, state.2),
        state.1.refunded_count + 1 <= u32::MAX,
        paid_sum(s0, state.1.round_id, batch_step(state, subscriber, deficit, paid).2) <= u128::MAX,
        amount_sum(s0, state.1.round_id, batch_step(state, subscriber, deficit, paid).2) <= u128::MAX,
    ensures
        ({
            let next = batch_step(state, subscriber, deficit, paid);
            &&& batch_books(s0, next.0, next.1, next.2)
            &&& next.1.round_id == state.1.round_id
            &&& next.1.entity_id == state.1.entity_id
        }),
{
    let m = state.0;
    let b = state.1;
    let paid_list = state.2;
    let r = b.round_id;
    let key = (r, subscriber);
    if m.contains_key(key) && !m[key].refunded && deficit == 0 && paid {
        assert(!paid_list.contains(subscriber));
        assert(m[key] == s0[key]);
        lemma_sums_grow(s0, r, paid_list, subscriber);
        let q = m.insert(key, Subscription { refunded: true, ..m[key] });
        let np = paid_list.push(subscriber);
        assert(np.no_duplicates()) by {
            assert forall|i: int, j: int| 0 <= i < np.len() && 0 <= j < np.len() && i != j implies np[i] != np[j] by {
                if i < paid_list.len() && j < paid_list.len() {
                    assert(np[i] == paid_list[i] && np[j] == paid_list[j]);
                } else if i < paid_list.len() {
                    assert(np[i] == paid_list[i]);
                    assert(paid_list.contains(paid_list[i]));
                } else if j < paid_list.len() {
                    assert(np[j] == paid_list[j]);
                    assert(paid_list.contains(paid_list[j]));
                }
            }
        }
        assert forall|a: u64| #[trigger] np.contains(a) implies {
            &&& s0.contains_key((r, a))
            &&& !s0[(r, a)].refunded
            &&& q.contains_key((r, a))
            &&& q[(r, a)] == (Subscription { refunded: true, ..s0[(r, a)] })
        } by {
            if a != subscriber {
                let i = choose|i: int| 0 <= i < np.len() && np[i] == a;
                assert(i < paid_list.len());
                assert(paid_list[i] == a);
                assert(paid_list.contains(a));
            }
        }
        assert forall|a: u64| !np.contains(a) implies (#[trigger] q.contains_key((r, a)) == s0.contains_key((r, a))
            && q[(r, a)] == s0[(r, a)]) by {
            assert(a != subscriber) by {
                assert(np[np.len() - 1] == subscriber);
            }
            assert(!paid_list.contains(a)) by {
                if paid_list.contains(a) {
                    let i = choose|i: int| 0 <= i < paid_list.len() && paid_list[i] == a;
                    assert(np[i] == a);
                }
            }
        }
        assert forall|k: (u64, u64)| #![trigger q.contains_key(k)] #![trigger q[k]] k.0 != r implies (q.contains_key(k) == s0.contains_key(k) && q[k] == s0[k]) by {
            assert(k != key);
            assert(m.contains_key(k) == s0.contains_key(k) && m[k] == s0[k]);
        }
    }
}

/// The totals of a whole governance batch refund: started fresh on a round's
/// subscriptions `s0`, whatever the unreserve deficits and payment outcomes,
/// every listed subscriber that was due (subscribed and not refunded) with
/// nothing left reserved and a payment that went through is refunded once,
/// every other subscription is untouched, and the batch's count and totals are
/// the number of those refunded and the sums of their payments and tokens. So
/// `force_batch_refund_finish` adds exactly those sums to the round's totals
/// (see `lemma_batch_finish_adds_totals`). Stated while the totals stay within
/// range.
pub proof fn lemma_batch_run_totals(
    s0: Map<(u64, u64), Subscription>,
    b0: BatchRefund,
    subscribers: Seq<u64>,
    deficits: Seq<u128>,
    paid: Seq<bool>,
)
    requires
        b0.refunded_count == 0,
        b0.total_nex == 0,
        b0.total_tokens == 0,
        deficits.len() == subscribers.len(),
        paid.len() == subscribers.len(),
        subscribers.len() <= u32::MAX,
        paid_sum(s0, b0.round_id, batch_run(s0, b0, subscribers, deficits, paid).2) <= u128::MAX,
        amount_sum(s0, b0.round_id, batch_run(s0, b0, subscribers, deficits, paid).2) <= u128::MAX,
    ensures
        ({
            let res = batch_run(s0, b0, subscribers, deficits, paid);
            &&& batch_books(s0, res.0, res.1, res.2)
            &&& res.1.round_id == b0.round_id
            &&& res.1.entity_id == b0.entity_id
            &&& res.2.len() <= subscribers.len()
        }),
    decreases subscribers.len(),
{
    if subscribers.len() > 0 {
        let n = subscribers.len() - 1;
        let prev_subs = subscribers.drop_last();
        let pd = deficits.take(n as int);
        let pp = paid.take(n as int);
        let prev = batch_run(s0, b0, prev_subs, pd, pp);
        let res = batch_run(s0, b0, subscribers, deficits, paid);
        assert(res == batch_step(prev, subscribers.last(), deficits[n as int], paid[n as int]));
        lemma_sums_grow(s0, b0.round_id, prev.2, subscribers.last());
        if res.2 == prev.2.push(subscribers.last()) {
        } else {
            assert(res == prev);
        }
        assert(paid_sum(s0, b0.round_id, prev.2) <= u128::MAX);
        assert(amount_sum(s0, b0.round_id, prev.2) <= u128::MAX);
        lemma_batch_run_totals(s0, b0, prev_subs, pd, pp);
        lemma_batch_step_keeps_totals(s0, prev, subscribers.last(), deficits[n as int], paid[n as int]);
    }
}

/// The totals a batch refund adds to its round: after the last step, the round's
/// refunded payments and tokens grow by exactly the sums over the subscribers it
/// paid back (the change that `force_batch_refund_finish` states), while those
/// stay within range.
pub proof fn lemma_batch_finish_adds_totals(s0: Map<(u64, u64), Subscription>, s: Map<(u64, u64), Subscription>, batch: BatchRefund, paid: Seq<u64>, round: SaleRound)
    requires
        batch_books(s0, s, batch, paid),
        round.total_refunded_nex + batch.total_nex <= u128::MAX,
        round.total_refunded_tokens + batch.total_tokens <= u128::MAX,
    ensures
        clamp_u128(round.total_refunded_nex + batch.total_nex)
            == round.total_refunded_nex + paid_sum(s0, batch.round_id, paid),
        clamp_u128(round.total_refunded_tokens + batch.total_tokens)
            == round.total_refunded_tokens + amount_sum(s0, batch.round_id, paid),
        batch.refunded_count == paid.len(),
{
}

} // verus!
