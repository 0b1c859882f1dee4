//! Laws that span several operations, stated over the views and spec
//! functions that the operations' own contracts use.
use vstd::prelude::*;

use crate::batch::{batch_run, batch_start, lemma_batch_run_moves_shares, BatchContext, BatchProgress};
use crate::bridge::all_zero;
use crate::dividends::{held_by, paid_out};
use crate::events::{Effect, Event, EventTransfer};
use crate::market::{
    MarketView, RwaMarketplace, FN_BUYBACK, FN_BUY_SHARES, FN_DIVIDEND, FN_SELL_ORDER, FN_TRANSFER,
    FN_TRANSFER_FROM, OPERATION_DELAY,
};
use crate::table::{keys_weight, KeyedTable};
use crate::types::{
    AccountId, AdminAction, AllowanceKey, BatchPurchaseRequest, BatchPurchaseResult, MarketError, SellOrder, TimelockError, UpgradeConfig,
    VestingSchedule,
};
use crate::vesting::{claim_run, claimable, claimable_total, lemma_vested_le_total, vested_amount};

verus! {

/// Where the conservation law holds, the pool never holds more than the
/// supply, and no account holds, or has locked for the bridge, more than the
/// supply.
pub proof fn law_supply_bounds(m: RwaMarketplace, a: AccountId)
    requires
        m.shares_conserved(),
    ensures
        m@.available_shares.unwrap() <= m@.total_shares.unwrap(),
        m@.balance(a) <= m@.total_shares.unwrap(),
        m@.locked_for_bridge(a) <= m@.total_shares.unwrap(),
{
    KeyedTable::<AccountId, u32>::lemma_weight_bound(m.balances, a);
    KeyedTable::<AccountId, u32>::lemma_weight_bound(m.bridge_locked, a);
    KeyedTable::<u64, SellOrder>::lemma_weight_bound(m.sell_orders, 0);
    KeyedTable::<AccountId, Vec<VestingSchedule>>::lemma_weight_bound(m.vesting, a);
}

/// A granted purchase moves shares from the pool to the buyer one for one:
/// the pool plus the buyer's balance stays the same, and the supply with it.
pub proof fn law_purchase_moves_pool_to_buyer(
    v: MarketView,
    buyer: AccountId,
    shares: u32,
    payment_token: AccountId,
    now: u64,
    oracle_reply: Option<i128>,
)
    requires
        v.buy_refusal(buyer, shares, payment_token, now, oracle_reply) is None,
    ensures
        ({
            let after = MarketView {
                available_shares: Some((v.available_shares.unwrap() - shares) as u32),
                balances: v.balances.insert(buyer, (v.balance(buyer) + shares) as u32),
                holders: v.holders_with(buyer),
                reentrancy_guard: true,
                ..v
            };
            &&& after.available_shares.unwrap() + after.balance(buyer)
                == v.available_shares.unwrap() + v.balance(buyer)
            &&& after.balance(buyer) == v.balance(buyer) + shares
            &&& after.total_shares == v.total_shares
            &&& after.holders.contains(buyer)
        }),
{
    assert(v.holders_with(buyer).contains(buyer)) by {
        if !v.holders.contains(buyer) {
            assert(v.holders.push(buyer)[v.holders.len() as int] == buyer);
        }
    }
}

/// While the marketplace is paused no purchase from the pool is granted,
/// single or batched; a request made while the guard is free is refused as
/// `MarketplacePaused`.
pub proof fn law_paused_refuses_purchases(
    v: MarketView,
    buyer: AccountId,
    shares: u32,
    payment_token: AccountId,
    now: u64,
    oracle_reply: Option<i128>,
    batch_len: nat,
)
    requires
        v.paused == Some(true),
    ensures
        v.buy_refusal(buyer, shares, payment_token, now, oracle_reply) is Some,
        v.batch_buy_refusal(buyer, batch_len, now) is Some,
        !v.reentrancy_guard ==> v.buy_refusal(buyer, shares, payment_token, now, oracle_reply)
            == Some(MarketError::MarketplacePaused),
        !v.reentrancy_guard ==> v.batch_buy_refusal(buyer, batch_len, now) == Some(
            MarketError::MarketplacePaused,
        ),
{
}

/// Pausing makes the marketplace read as paused and unpausing makes it read
/// as running; pausing and then unpausing a running marketplace restores it.
pub proof fn law_pause_toggle(v: MarketView)
    ensures
        (MarketView { paused: Some(true), ..v }).paused_now(),
        !(MarketView { paused: Some(false), ..v }).paused_now(),
        v.paused == Some(false) ==> (MarketView {
            paused: Some(false),
            ..MarketView { paused: Some(true), ..v }
        }) == v,
{
}

/// After `approve(owner, spender, amount)` the allowance of the pair reads
/// `amount`, and every other pair reads what it read before.
pub proof fn law_approve_then_allowance(
    v: MarketView,
    owner: AccountId,
    spender: AccountId,
    amount: u32,
    other_owner: AccountId,
    other_spender: AccountId,
)
    ensures
        ({
            let after = MarketView {
                allowances: v.allowances.insert(AllowanceKey { owner, spender }, amount),
                ..v
            };
            &&& after.allowance(owner, spender) == amount
            &&& (other_owner != owner || other_spender != spender) ==> after.allowance(
                other_owner,
                other_spender,
            ) == v.allowance(other_owner, other_spender)
        }),
{
}

/// A granted transfer creates no shares: the sender's and the recipient's
/// balances keep their sum, a transfer to oneself changes no balance, and
/// every other balance stays.
pub proof fn law_transfer_keeps_shares(
    v: MarketView,
    from: AccountId,
    to: AccountId,
    amount: u32,
    other: AccountId,
)
    requires
        v.transfer_refusal(from, to, amount) is None,
    ensures
        ({
            let after = MarketView { balances: v.moved(from, to, amount), ..v };
            &&& from != to ==> after.balance(from) + after.balance(to) == v.balance(from) + v.balance(
                to,
            )
            &&& from != to ==> after.balance(from) == v.balance(from) - amount
            &&& from != to ==> after.balance(to) == v.balance(to) + amount
            &&& from == to ==> after.balances == v.balances
            &&& other != from && other != to ==> after.balance(other) == v.balance(other)
        }),
{
}

/// Unlocking, with a proof that is not all zeros, what was just locked for
/// the bridge is granted and gives every account back its liquid and its
/// locked shares.
pub proof fn law_bridge_round_trip(
    v: MarketView,
    user: AccountId,
    amount: u32,
    proof: [u8; 32],
    other: AccountId,
)
    requires
        v.lock_refusal(user, amount) is None,
        !all_zero(proof),
    ensures
        ({
            let locked = v.after_lock(user, amount);
            let back = locked.after_unlock(user, amount);
            &&& locked.balance(user) == v.balance(user) - amount
            &&& locked.locked_for_bridge(user) == v.locked_for_bridge(user) + amount
            &&& locked.unlock_refusal(user, amount, proof) is None
            &&& back.balances == v.balances
            &&& back.locked_for_bridge(other) == v.locked_for_bridge(other)
            &&& (MarketView { bridge_locked: v.bridge_locked, ..back }) == v
        }),
{
    assert(v.balances.insert(user, (v.balance(user) - amount) as u32).insert(
        user,
        v.balance(user),
    ) =~= v.balances);
}

/// Cancelling an order right after placing it is granted and gives the
/// seller back its shares; only the next order id has moved on.
pub proof fn law_place_then_cancel(
    m: RwaMarketplace,
    seller: AccountId,
    amount: u32,
    price_per_share: i128,
)
    requires
        m.shares_conserved(),
        m@.place_order_refusal(seller, amount, price_per_share) is None,
    ensures
        ({
            let v = m@;
            let order_id = v.next_order_id;
            let placed = MarketView {
                balances: v.balances.insert(seller, (v.balance(seller) - amount) as u32),
                next_order_id: MarketView::following_order_id(order_id),
                sell_orders: v.sell_orders.insert(
                    order_id,
                    SellOrder { seller, amount, price_per_share },
                ),
                ..v
            };
            let order = placed.sell_orders[order_id];
            let back = MarketView {
                balances: placed.balances.insert(
                    order.seller,
                    (placed.balance(order.seller) + order.amount) as u32,
                ),
                sell_orders: placed.sell_orders.remove(order_id),
                ..placed
            };
            &&& placed.cancel_order_refusal(order_id) is None
            &&& back == (MarketView {
                next_order_id: MarketView::following_order_id(order_id),
                ..v
            })
        }),
{
    let v = m@;
    let order_id = v.next_order_id;
    assert(!v.sell_orders.contains_key(order_id));
    assert(v.balances.insert(seller, (v.balance(seller) - amount) as u32).insert(
        seller,
        v.balance(seller),
    ) =~= v.balances);
    assert(v.sell_orders.insert(order_id, SellOrder { seller, amount, price_per_share }).remove(
        order_id,
    ) =~= v.sell_orders);
}

/// Changing the supply keeps the issued shares: what is outside the pool is
/// the same before and after, and the pool stays within the supply.
pub proof fn law_set_total_keeps_issued(v: MarketView, new_total: u32)
    requires
        v.total_shares_refusal(new_total) is None,
    ensures
        ({
            let issued = v.total_shares.unwrap() - v.available_shares.unwrap();
            let after = MarketView {
                total_shares: Some(new_total),
                available_shares: Some((new_total - issued) as u32),
                ..v
            };
            &&& after.total_shares.unwrap() - after.available_shares.unwrap() == issued
            &&& after.available_shares.unwrap() <= after.total_shares.unwrap()
        }),
{
}

/// Adding an account to the whitelist makes it whitelisted at every time at
/// which its entry has not expired; removing it makes it whitelisted at no
/// time.
pub proof fn law_whitelist_add_remove(v: MarketView, a: AccountId, now: u64)
    ensures
        (MarketView { whitelisted: v.whitelisted.insert(a, true), ..v }).whitelisted_at(a, now)
            <==> !v.expired_at(a, now),
        !(MarketView { whitelisted: v.whitelisted.remove(a), ..v }).whitelisted_at(a, now),
{
}

/// Vested shares never decrease as time passes and never exceed the
/// schedule's total.
pub proof fn law_vesting_monotone(s: VestingSchedule, t1: u64, t2: u64)
    requires
        t1 <= t2,
    ensures
        vested_amount(s, t1) <= vested_amount(s, t2),
        vested_amount(s, t2) <= s.total_amount,
{
    lemma_vested_le_total(s, t1);
    lemma_vested_le_total(s, t2);
    let cliff_time = s.start.saturating_add(s.cliff);
    let vesting_end = s.start.saturating_add(s.duration);
    if t1 >= cliff_time && !(t2 >= vesting_end || s.duration <= s.cliff) {
        let total = s.total_amount as int;
        let d = (s.duration - s.cliff) as int;
        let x1 = (t1 - cliff_time) as int;
        let x2 = (t2 - cliff_time) as int;
        assert(x2 < d);
        assert((total * x1) / d <= (total * x2) / d <= total) by (nonlinear_arith)
            requires
                0 <= x1 <= x2 < d,
                total >= 0,
        {
            assert(total * x1 <= total * x2);
            assert(total * x2 <= total * d);
            assert((total * x2) / d <= (total * d) / d);
        }
    }
}

/// An operation scheduled at time `scheduled_at` cannot run before its delay
/// has passed, and one that is not scheduled cannot run at all.
pub proof fn law_timelock_holds(v: MarketView, action: AdminAction, scheduled_at: u64, now: u64)
    requires
        !v.scheduled_operations.contains_key(action),
        scheduled_at + OPERATION_DELAY <= u64::MAX,
    ensures
        v.operation_refusal(action, now) == Some(MarketError::Timelock(TimelockError::NotScheduled)),
        now < scheduled_at + OPERATION_DELAY ==> (MarketView {
            scheduled_operations: v.scheduled_operations.insert(
                action,
                (scheduled_at + OPERATION_DELAY) as u64,
            ),
            ..v
        }).operation_refusal(action, now) == Some(
            MarketError::Timelock(TimelockError::TimelockNotExpired),
        ),
{
}

/// A scheduled upgrade cannot execute before the ledger it was scheduled
/// for, and a cancelled one cannot execute at all.
pub proof fn law_upgrade_timelock_holds(
    v: MarketView,
    new_wasm_hash: [u8; 32],
    scheduled_ledger: u64,
    ledger_sequence: u32,
)
    requires
        v.admin is Some,
    ensures
        ({
            let scheduled = MarketView {
                pending_upgrade: Some(
                    UpgradeConfig { new_wasm_hash, scheduled_ledger, proposer: v.admin.unwrap() },
                ),
                ..v
            };
            &&& ledger_sequence < scheduled_ledger ==> scheduled.upgrade_refusal(ledger_sequence)
                == Some(MarketError::UpgradeTimelockNotElapsed)
            &&& (MarketView { pending_upgrade: None, ..scheduled }).upgrade_refusal(
                ledger_sequence,
            ) == Some(MarketError::NoPendingUpgrade)
        }),
{
}

/// The payouts of a distribution, scaled by the supply, stay within the
/// distributed amount scaled by the shares the paid accounts hold.
proof fn lemma_dividend_paid_bound(
    v: MarketView,
    holders: Seq<AccountId>,
    token: AccountId,
    total_amount: i128,
    total_shares: u32,
)
    requires
        total_amount > 0,
        total_shares > 0,
    ensures
        ({
            let p = v.dividend_run(holders, token, total_amount, total_shares);
            &&& total_shares * paid_out(p.effects) <= total_amount * held_by(v, holders)
            &&& paid_out(p.effects) >= 0
        }),
    decreases holders.len(),
{
    if holders.len() > 0 {
        let init = holders.drop_last();
        lemma_dividend_paid_bound(v, init, token, total_amount, total_shares);
        let p = v.dividend_run(init, token, total_amount, total_shares);
        let h = holders.last();
        let shares = v.balance(h);
        let t = total_amount as int;
        let s = total_shares as int;
        let paid = paid_out(p.effects);
        let held = held_by(v, init);
        assert(t * held <= t * (held + shares)) by (nonlinear_arith)
            requires
                t > 0,
                shares >= 0,
        ;
        if !(p.overflow || shares == 0) && i128::MIN <= total_amount * shares <= i128::MAX {
            let amount = MarketView::pro_rata(total_amount, shares, total_shares);
            assert(0 <= amount && s * amount <= t * shares && amount <= t * shares) by (nonlinear_arith)
                requires
                    amount == (t * shares) / s,
                    t > 0,
                    s > 0,
                    shares >= 0,
            ;
            if amount > 0 {
                let e = Effect::Payout { token, to: h, amount: amount as i128 };
                assert(p.effects.push(e).drop_last() =~= p.effects);
                assert(paid_out(p.effects.push(e)) == paid + amount);
            }
            assert(s * (paid + amount) == s * paid + s * amount) by (nonlinear_arith);
            assert(t * (held + shares) == t * held + t * shares) by (nonlinear_arith);
        }
    }
}

/// A distribution pays out no more than the amount distributed whenever the
/// accounts it pays hold no more than the supply between them.
pub proof fn law_dividends_within_amount(
    v: MarketView,
    holders: Seq<AccountId>,
    token: AccountId,
    total_amount: i128,
    total_shares: u32,
)
    requires
        total_amount > 0,
        total_shares > 0,
        held_by(v, holders) <= total_shares,
    ensures
        0 <= paid_out(v.dividend_run(holders, token, total_amount, total_shares).effects)
            <= total_amount,
{
    lemma_dividend_paid_bound(v, holders, token, total_amount, total_shares);
    let paid = paid_out(v.dividend_run(holders, token, total_amount, total_shares).effects);
    let held = held_by(v, holders);
    let t = total_amount as int;
    let s = total_shares as int;
    assert(paid <= t) by (nonlinear_arith)
        requires
            s * paid <= t * held,
            held <= s,
            s > 0,
            t > 0,
    {
        assert(t * held <= t * s);
        assert(s * paid <= s * t);
    }
}

proof fn lemma_held_by_is_keys_weight(v: MarketView, accounts: Seq<AccountId>)
    ensures
        held_by(v, accounts) == keys_weight(v.balances, accounts),
    decreases accounts.len(),
{
    if accounts.len() > 0 {
        lemma_held_by_is_keys_weight(v, accounts.drop_last());
    }
}

/// Where the conservation law holds, the registered holders hold no more
/// than the supply between them, so a distribution to them pays out no more
/// than the amount distributed.
pub proof fn law_distribution_covered(m: RwaMarketplace, token: AccountId, total_amount: i128)
    requires
        m.shares_conserved(),
        m.balances.wf(),
        total_amount > 0,
        m@.total_shares.unwrap() > 0,
    ensures
        held_by(m@, m@.holders) <= m@.total_shares.unwrap(),
        0 <= paid_out(
            m@.dividend_run(m@.holders, token, total_amount, m@.total_shares.unwrap()).effects,
        ) <= total_amount,
{
    lemma_held_by_is_keys_weight(m@, m@.holders);
    KeyedTable::<AccountId, u32>::lemma_keys_weight_bound(m.balances, m@.holders);
    KeyedTable::<AccountId, u32>::lemma_weight_bound(m.bridge_locked, 0);
    KeyedTable::<u64, SellOrder>::lemma_weight_bound(m.sell_orders, 0);
    KeyedTable::<AccountId, Vec<VestingSchedule>>::lemma_weight_bound(m.vesting, 0);
    law_dividends_within_amount(
        m@,
        m@.holders,
        token,
        total_amount,
        m@.total_shares.unwrap(),
    );
}

/// While a guarded request is in progress (the guard is held), no other
/// guarded request is granted: each is refused as `Reentrancy`.
pub proof fn law_guard_blocks_reentry(
    v: MarketView,
    a: AccountId,
    b: AccountId,
    c: AccountId,
    amount: u32,
    now: u64,
    oracle_reply: Option<i128>,
    batch_len: nat,
)
    requires
        v.reentrancy_guard,
    ensures
        v.buy_refusal(a, amount, b, now, oracle_reply) == Some(MarketError::Reentrancy),
        v.batch_buy_refusal(a, batch_len, now) == Some(MarketError::Reentrancy),
        v.transfer_refusal(a, b, amount) == Some(MarketError::Reentrancy),
        v.transfer_from_refusal(a, b, c, amount, oracle_reply) == Some(
            MarketError::Reentrancy,
        ),
{
}

/// A paused function category grants nothing: purchases, transfers,
/// allowance transfers, dividends, sell orders and buybacks are each refused
/// while their category is paused, and purchases, transfers and sell orders
/// while the circuit breaker is tripped.
pub proof fn law_paused_categories_refuse(
    v: MarketView,
    a: AccountId,
    b: AccountId,
    c: AccountId,
    amount: u32,
    price: i128,
    total_amount: i128,
    now: u64,
    oracle_reply: Option<i128>,
)
    ensures
        v.fn_paused(FN_BUY_SHARES) || v.circuit_breaker_triggered ==> v.buy_refusal(
            a,
            amount,
            b,
            now,
            oracle_reply,
        ) is Some,
        v.fn_paused(FN_TRANSFER) || v.circuit_breaker_triggered ==> v.transfer_refusal(
            a,
            b,
            amount,
        ) is Some,
        v.fn_paused(FN_TRANSFER_FROM) || v.circuit_breaker_triggered ==> v.transfer_from_refusal(
            a,
            b,
            c,
            amount,
            oracle_reply,
        ) is Some,
        v.fn_paused(FN_SELL_ORDER) || v.circuit_breaker_triggered ==> v.place_order_refusal(
            a,
            amount,
            price,
        ) is Some,
        v.fn_paused(FN_DIVIDEND) ==> v.distribute_refusal(total_amount) is Some,
        v.fn_paused(FN_BUYBACK) ==> v.buyback_refusal(a, amount, oracle_reply) is Some,
{
}

/// Two runs of a batch that differ only in whether the total cost is tracked
/// decide every item alike, as long as the tracking run does not overflow.
proof fn lemma_runs_agree(
    quote: BatchContext,
    buy: BatchContext,
    start: BatchProgress,
    reqs: Seq<BatchPurchaseRequest>,
)
    requires
        quote == (BatchContext { tracks_total: false, ..buy }),
        !batch_run(buy, start, reqs).overflow,
    ensures
        !batch_run(quote, start, reqs).overflow,
        batch_run(quote, start, reqs).results == batch_run(buy, start, reqs).results,
        batch_run(quote, start, reqs).available == batch_run(buy, start, reqs).available,
        batch_run(quote, start, reqs).balance == batch_run(buy, start, reqs).balance,
    decreases reqs.len(),
{
    if reqs.len() > 0 {
        let init = reqs.drop_last();
        if batch_run(buy, start, init).overflow {
            assert(batch_run(buy, start, reqs) == batch_run(buy, start, init));
        }
        lemma_runs_agree(quote, buy, start, init);
    }
}

/// For a batch purchase that is granted, a quote made in the same state, at
/// the same time and price, reports exactly the results of the purchase.
pub proof fn law_quote_predicts_purchase(
    v: MarketView,
    buyer: AccountId,
    reqs: Seq<BatchPurchaseRequest>,
    now: u64,
    oracle_reply: Option<i128>,
)
    requires
        v.batch_buy_refusal(buyer, reqs.len(), now) is None,
        !v.batch_buy_run(buyer, reqs, oracle_reply).overflow,
    ensures
        !v.batch_quote_run(buyer, reqs, now, oracle_reply).overflow,
        v.batch_quote_run(buyer, reqs, now, oracle_reply).results == v.batch_buy_run(
            buyer,
            reqs,
            oracle_reply,
        ).results,
{
    let price = v.price_from(oracle_reply).0;
    lemma_runs_agree(
        v.batch_context(buyer, price, false, false),
        v.batch_context(buyer, price, false, true),
        batch_start(v.available_shares.unwrap(), v.balance(buyer)),
        reqs,
    );
}

/// A claim takes everything that can be claimed at that time: right after
/// it, nothing more can be claimed at the same time.
pub proof fn law_claim_takes_all(s: Seq<VestingSchedule>, now: u64)
    ensures
        claimable_total(claim_run(s, now).kept, now) == 0,
    decreases s.len(),
{
    if s.len() > 0 {
        law_claim_takes_all(s.drop_last(), now);
        let p = claim_run(s.drop_last(), now);
        let sched = s.last();
        let available = claimable(sched, now);
        if available > 0 {
            let updated = VestingSchedule {
                claimed_amount: sched.claimed_amount.saturating_add(available),
                ..sched
            };
            assert(claimable(updated, now) == 0);
            if updated.claimed_amount < updated.total_amount {
                assert(p.kept.push(updated).drop_last() =~= p.kept);
            }
        } else {
            assert(p.kept.push(sched).drop_last() =~= p.kept);
        }
    }
}

// ── Batch quotes for buyers who cannot buy ─────────────────────────────

/// A blocked batch run reports every item as failed, bought nothing and cost
/// nothing.
proof fn lemma_blocked_run_fails(ctx: BatchContext, start: BatchProgress, reqs: Seq<BatchPurchaseRequest>)
    requires
        ctx.blocked,
        start.results.len() == 0,
    ensures
        forall|i: int|
            0 <= i < batch_run(ctx, start, reqs).results.len() ==> {
                let r = #[trigger] batch_run(ctx, start, reqs).results[i];
                &&& !r.success
                &&& r.shares_purchased == 0
                &&& r.total_cost == 0
            },
    decreases reqs.len(),
{
    if reqs.len() > 0 {
        lemma_blocked_run_fails(ctx, start, reqs.drop_last());
        let p = batch_run(ctx, start, reqs.drop_last());
        let q = batch_run(ctx, start, reqs);
        assert forall|i: int| 0 <= i < q.results.len() implies {
            let r = #[trigger] q.results[i];
            &&& !r.success
            &&& r.shares_purchased == 0
            &&& r.total_cost == 0
        } by {
            if i < p.results.len() {
                assert(q.results[i] == p.results[i]);
            }
        }
    }
}

/// A buyer who is not whitelisted at `now`, or any buyer while the
/// marketplace is paused, is quoted a failure for every item: nothing
/// bought and nothing to pay.
pub proof fn law_quote_refuses_blocked_buyers(
    v: MarketView,
    buyer: AccountId,
    reqs: Seq<BatchPurchaseRequest>,
    now: u64,
    oracle_reply: Option<i128>,
)
    requires
        v.paused == Some(true) || !v.whitelisted_at(buyer, now),
    ensures
        forall|i: int|
            0 <= i < v.batch_quote_run(buyer, reqs, now, oracle_reply).results.len() ==> {
                let r = #[trigger] v.batch_quote_run(buyer, reqs, now, oracle_reply).results[i];
                &&& !r.success
                &&& r.shares_purchased == 0
                &&& r.total_cost == 0
            },
{
    lemma_blocked_run_fails(
        v.batch_context(buyer, v.price_from(oracle_reply).0, true, false),
        batch_start(v.available_shares.unwrap(), v.balance(buyer)),
        reqs,
    );
}

// ── The transfer fee ───────────────────────────────────────────────────

/// The fee on a transfer of `amount` shares at `price` with a rate of
/// `fee_bps` basis points: the value times the rate over 10000, truncated
/// toward zero as integer division does.
pub open spec fn expected_fee(price: int, amount: int, fee_bps: int) -> int {
    let t = price * amount * fee_bps;
    if t >= 0 {
        t / 10000
    } else {
        -((-t) / 10000)
    }
}

/// The fee due on a transfer of `amount` shares: the value at the price a
/// purchase would pay at the same oracle reply (the oracle's price when an
/// oracle is set and answers a positive price, else the admin price) times
/// the fee rate.
pub open spec fn transfer_fee_due(v: MarketView, amount: u32, oracle_reply: Option<i128>) -> int {
    let admin_price = v.price_per_share.unwrap();
    let p: int = match (v.oracle, oracle_reply) {
        (Some(_), Some(x)) => if x > 0 {
            x as int
        } else {
            admin_price as int
        },
        _ => admin_price as int,
    };
    expected_fee(p, amount as int, v.transfer_fee_bps as int)
}

/// When a fee rate is set, the fee of a transfer through an allowance is
/// charged on the value at the price a purchase would pay at the same
/// oracle reply (the oracle's price when it is positive, else the admin
/// price): exactly one token transfer of that fee, from the spender to the
/// collector, when it is positive, and none otherwise.
pub proof fn law_transfer_fee_at_purchase_price(
    v: MarketView,
    spender: AccountId,
    from: AccountId,
    to: AccountId,
    amount: u32,
    oracle_reply: Option<i128>,
)
    requires
        v.transfer_fee_bps > 0,
        v.transfer_from_refusal(spender, from, to, amount, oracle_reply) is None,
    ensures
        ({
            let fee = transfer_fee_due(v, amount, oracle_reply);
            let effects = v.fee_effects(spender, from, amount, oracle_reply);
            let charge = Effect::Transfer {
                token: v.payment_token.unwrap(),
                from: spender,
                to: v.transfer_fee_collector.unwrap(),
                amount: fee as i128,
            };
            &&& fee > 0 ==> effects.contains(charge)
            &&& forall|i: int|
                0 <= i < effects.len() && (#[trigger] effects[i]) is Transfer ==> fee > 0
                    && effects[i] == charge
        }),
{
    let effects = v.fee_effects(spender, from, amount, oracle_reply);
    let pe = v.price_effects(oracle_reply);
    assert forall|i: int| 0 <= i < pe.len() implies !(#[trigger] pe[i] is Transfer) by {}
    let price = v.price_from(oracle_reply).0;
    let fee = v.fee_for(price, amount);
    if fee > 0 {
        assert(effects[pe.len() as int] is Transfer);
        assert forall|i: int| 0 <= i < effects.len() && (#[trigger] effects[i]) is Transfer implies i
            == pe.len() by {
            if i < pe.len() {
                assert(effects[i] == pe[i]);
            }
        }
    } else {
        assert forall|i: int| 0 <= i < effects.len() implies !(#[trigger] effects[i] is Transfer) by {
            assert(effects[i] == pe[i]);
        }
    }
}

/// The fee charge of a granted transfer through an allowance, stated over
/// the transfer's whole list of effects.
pub proof fn lemma_fee_in_transfer_effects(
    v: MarketView,
    spender: AccountId,
    from: AccountId,
    to: AccountId,
    amount: u32,
    oracle_reply: Option<i128>,
)
    requires
        v.transfer_fee_bps > 0,
        v.transfer_from_refusal(spender, from, to, amount, oracle_reply) is None,
    ensures
        ({
            let effects = seq![Effect::RequireAuth(spender)] + v.fee_effects(
                spender,
                from,
                amount,
                oracle_reply,
            ) + seq![Effect::Emit(Event::Transfer(EventTransfer { from, to, amount }))];
            let fee = transfer_fee_due(v, amount, oracle_reply);
            let charge = Effect::Transfer {
                token: v.payment_token.unwrap(),
                from: spender,
                to: v.transfer_fee_collector.unwrap(),
                amount: fee as i128,
            };
            &&& fee > 0 ==> effects.contains(charge)
            &&& forall|i: int|
                0 <= i < effects.len() && (#[trigger] effects[i]) is Transfer ==> fee > 0 && effects[i]
                    == charge
        }),
{
    law_transfer_fee_at_purchase_price(v, spender, from, to, amount, oracle_reply);
    let fe = v.fee_effects(spender, from, amount, oracle_reply);
    let effects = seq![Effect::RequireAuth(spender)] + fe + seq![
        Effect::Emit(Event::Transfer(EventTransfer { from, to, amount })),
    ];
    let fee = transfer_fee_due(v, amount, oracle_reply);
    let charge = Effect::Transfer {
        token: v.payment_token.unwrap(),
        from: spender,
        to: v.transfer_fee_collector.unwrap(),
        amount: fee as i128,
    };
    if fee > 0 {
        let j = choose|j: int| 0 <= j < fe.len() && fe[j] == charge;
        assert(effects[j + 1] == charge);
    }
    assert forall|i: int| 0 <= i < effects.len() && (#[trigger] effects[i]) is Transfer implies fee > 0
        && effects[i] == charge by {
        if 1 <= i < fe.len() + 1 {
            assert(effects[i] == fe[i - 1]);
        }
    }
}

// ── The batch summary ──────────────────────────────────────────────────

/// Sum of the costs of the successful results of a batch.
pub open spec fn successful_cost(results: Seq<BatchPurchaseResult>) -> int
    decreases results.len(),
{
    if results.len() == 0 {
        0
    } else {
        successful_cost(results.drop_last()) + if results.last().success {
            results.last().total_cost as int
        } else {
            0
        }
    }
}

/// A run that tracks its total has paid, in all, the sum of the costs of
/// its successful items, which is the price times the shares it bought; each
/// successful item costs the price times its shares.
proof fn lemma_run_total_cost(ctx: BatchContext, start: BatchProgress, reqs: Seq<BatchPurchaseRequest>)
    requires
        ctx.tracks_total,
        start.cost == 0,
        start.shares == 0,
        start.successes == 0,
        start.results.len() == 0,
    ensures
        ({
            let p = batch_run(ctx, start, reqs);
            &&& p.cost == successful_cost(p.results)
            &&& p.cost == ctx.price * p.shares
            &&& forall|i: int|
                0 <= i < p.results.len() && (#[trigger] p.results[i]).success ==> p.results[i].total_cost
                    == ctx.price * p.results[i].shares_purchased
        }),
    decreases reqs.len(),
{
    if reqs.len() > 0 {
        let init = reqs.drop_last();
        lemma_run_total_cost(ctx, start, init);
        lemma_batch_run_moves_shares(ctx, start, init);
        let p = batch_run(ctx, start, init);
        let q = batch_run(ctx, start, reqs);
        let req = reqs.last();
        let index = (reqs.len() - 1) as u32;
        if !p.overflow && !(ctx.blocked || req.shares == 0 || req.shares > p.available) && !(p.balance
            + req.shares > u32::MAX) && !(ctx.max_per_user > 0 && p.balance + req.shares
            > ctx.max_per_user) && ctx.accepted.contains(req.payment_token) && (i128::MIN
            <= ctx.price * req.shares <= i128::MAX) && (i128::MIN <= p.cost + ctx.price * req.shares
            <= i128::MAX) {
            let r = BatchPurchaseResult {
                index,
                success: true,
                shares_purchased: req.shares,
                total_cost: (ctx.price * req.shares) as i128,
            };
            assert(q.results == p.results.push(r));
            assert(p.results.push(r).drop_last() =~= p.results);
            assert(ctx.price * (p.shares + req.shares) == ctx.price * p.shares + ctx.price
                * req.shares) by (nonlinear_arith);
            assert forall|i: int|
                0 <= i < q.results.len() && (#[trigger] q.results[i]).success implies q.results[i].total_cost
                == ctx.price * q.results[i].shares_purchased by {
                if i < p.results.len() {
                    assert(q.results[i] == p.results[i]);
                }
            }
        } else if !p.overflow && (ctx.blocked || req.shares == 0 || req.shares > p.available || (
        ctx.max_per_user > 0 && p.balance + req.shares > ctx.max_per_user && !(p.balance
            + req.shares > u32::MAX)) || (!ctx.accepted.contains(req.payment_token) && !(p.balance
            + req.shares > u32::MAX))) {
            let r = BatchPurchaseResult { index, success: false, shares_purchased: 0, total_cost: 0 };
            assert(p.results.push(r).drop_last() =~= p.results);
            assert forall|i: int|
                0 <= i < q.results.len() && (#[trigger] q.results[i]).success implies q.results[i].total_cost
                == ctx.price * q.results[i].shares_purchased by {
                if i < p.results.len() {
                    assert(q.results[i] == p.results[i]);
                }
            }
        }
    }
}

/// The summary of a batch purchase reports as its total cost the sum of
/// the costs of the items it bought, which is the purchase price times the
/// shares bought; each bought item costs the price times its shares.
pub proof fn law_batch_total_is_sum_of_items(
    v: MarketView,
    buyer: AccountId,
    reqs: Seq<BatchPurchaseRequest>,
    oracle_reply: Option<i128>,
)
    ensures
        ({
            let run = v.batch_buy_run(buyer, reqs, oracle_reply);
            let price = v.price_from(oracle_reply).0;
            &&& run.cost == successful_cost(run.results)
            &&& run.cost == price * run.shares
            &&& forall|i: int|
                0 <= i < run.results.len() && (#[trigger] run.results[i]).success ==> run.results[i].total_cost
                    == price * run.results[i].shares_purchased
        }),
{
    lemma_run_total_cost(
        v.batch_context(buyer, v.price_from(oracle_reply).0, false, true),
        batch_start(v.available_shares.unwrap(), v.balance(buyer)),
        reqs,
    );
}

// ── Claimable vested shares ────────────────────────────────────────────

proof fn lemma_saturating_add_assoc(a: u32, b: u32, c: u32)
    ensures
        a.saturating_add(b).saturating_add(c) == a.saturating_add(b.saturating_add(c)),
{
}

/// The claimable shares of a list of schedules are those of each part added
/// up (saturating at the largest `u32`); a single schedule can claim what
/// has vested beyond what it already claimed; and the claimable shares are
/// exactly what a claim at the same time takes.
pub proof fn law_claimable_adds_up(
    a: Seq<VestingSchedule>,
    b: Seq<VestingSchedule>,
    x: VestingSchedule,
    now: u64,
)
    ensures
        claimable_total(a + b, now) == claimable_total(a, now).saturating_add(
            claimable_total(b, now),
        ),
        claimable_total(seq![x], now) == if vested_amount(x, now) > x.claimed_amount {
            vested_amount(x, now) - x.claimed_amount
        } else {
            0
        },
        claimable_total(a, now) == claim_run(a, now).total,
    decreases b.len(),
{
    assert(seq![x].drop_last() =~= Seq::<VestingSchedule>::empty());
    assert(seq![x].last() == x);
    assert(claimable_total(Seq::<VestingSchedule>::empty(), now) == 0);
    assert(claimable_total(seq![x], now) == claimable(x, now));
    lemma_claimable_is_claimed(a, now);
    if b.len() == 0 {
        assert(a + b =~= a);
    } else {
        law_claimable_adds_up(a, b.drop_last(), x, now);
        assert((a + b).drop_last() =~= a + b.drop_last());
        assert((a + b).last() == b.last());
        lemma_saturating_add_assoc(
            claimable_total(a, now),
            claimable_total(b.drop_last(), now),
            claimable(b.last(), now),
        );
    }
}

/// The shares claimable at `now` are exactly what a claim at `now` takes.
pub proof fn lemma_claimable_is_claimed(s: Seq<VestingSchedule>, now: u64)
    ensures
        claimable_total(s, now) == claim_run(s, now).total,
    decreases s.len(),
{
    if s.len() > 0 {
        lemma_claimable_is_claimed(s.drop_last(), now);
    }
}

} // verus!
