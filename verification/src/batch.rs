//! Purchases of several allocations in one request, and quotes for them.
use vstd::prelude::*;

use crate::events::{Effect, Event, EventBatchBuyShares, EventBatchPurchaseItemFailed};
use crate::laws::{law_batch_total_is_sum_of_items, law_quote_refuses_blocked_buyers, successful_cost};
use crate::market::{MarketView, RwaMarketplace, MAX_BATCH_SIZE};
use crate::table::KeyedTable;
use crate::types::{AccountId, BatchPurchaseRequest, BatchPurchaseResult, MarketError};

verus! {

/// What stays fixed while the items of a batch are processed.
pub struct BatchContext {
    pub buyer: AccountId,
    pub admin: AccountId,
    pub nft: Option<AccountId>,
    pub price: i128,
    pub max_per_user: u32,
    pub accepted: Seq<AccountId>,
    /// Every item fails (a quote while paused or not whitelisted).
    pub blocked: bool,
    /// The total cost is accumulated (and may overflow).
    pub tracks_total: bool,
}

/// The running state of a batch after a prefix of its items.
pub struct BatchProgress {
    pub available: u32,
    pub balance: u32,
    pub shares: u32,
    pub cost: i128,
    pub successes: u32,
    pub results: Seq<BatchPurchaseResult>,
    pub effects: Seq<Effect>,
    pub overflow: bool,
}

/// The progress after item `index` failed.
pub open spec fn batch_failed(
    ctx: BatchContext,
    p: BatchProgress,
    req: BatchPurchaseRequest,
    index: u32,
) -> BatchProgress {
    BatchProgress {
        results: p.results.push(
            BatchPurchaseResult { index, success: false, shares_purchased: 0, total_cost: 0 },
        ),
        effects: p.effects.push(
            Effect::Emit(
                Event::BatchPurchaseItemFailed(
                    EventBatchPurchaseItemFailed {
                        buyer: ctx.buyer,
                        index,
                        shares_requested: req.shares,
                    },
                ),
            ),
        ),
        ..p
    }
}

/// The progress after item `index` was bought.
pub open spec fn batch_bought(
    ctx: BatchContext,
    p: BatchProgress,
    req: BatchPurchaseRequest,
    index: u32,
) -> BatchProgress {
    let cost = (ctx.price * req.shares) as i128;
    BatchProgress {
        available: (p.available - req.shares) as u32,
        balance: (p.balance + req.shares) as u32,
        shares: (p.shares + req.shares) as u32,
        cost: if ctx.tracks_total {
            (p.cost + cost) as i128
        } else {
            p.cost
        },
        successes: (p.successes + 1) as u32,
        results: p.results.push(
            BatchPurchaseResult { index, success: true, shares_purchased: req.shares, total_cost: cost },
        ),
        effects: p.effects + seq![
            Effect::Transfer {
                token: req.payment_token,
                from: ctx.buyer,
                to: ctx.admin,
                amount: cost,
            },
        ] + match ctx.nft {
            Some(nft) => seq![Effect::MintCertificates { nft, to: ctx.buyer, count: req.shares }],
            None => seq![],
        },
        ..p
    }
}

/// One item of a batch: it fails (and is reported), is bought, or its
/// arithmetic overflows, which refuses the whole batch.
pub open spec fn batch_item(
    ctx: BatchContext,
    p: BatchProgress,
    req: BatchPurchaseRequest,
    index: u32,
) -> BatchProgress {
    if p.overflow {
        p
    } else if ctx.blocked || req.shares == 0 || req.shares > p.available {
        batch_failed(ctx, p, req, index)
    } else if p.balance + req.shares > u32::MAX {
        BatchProgress { overflow: true, ..p }
    } else if ctx.max_per_user > 0 && p.balance + req.shares > ctx.max_per_user {
        batch_failed(ctx, p, req, index)
    } else if !ctx.accepted.contains(req.payment_token) {
        batch_failed(ctx, p, req, index)
    } else if !(i128::MIN <= ctx.price * req.shares <= i128::MAX) {
        BatchProgress { overflow: true, ..p }
    } else if ctx.tracks_total && !(i128::MIN <= p.cost + ctx.price * req.shares <= i128::MAX) {
        BatchProgress { overflow: true, ..p }
    } else {
        batch_bought(ctx, p, req, index)
    }
}

/// The progress after the items of `reqs`, in order.
pub open spec fn batch_run(
    ctx: BatchContext,
    start: BatchProgress,
    reqs: Seq<BatchPurchaseRequest>,
) -> BatchProgress
    decreases reqs.len(),
{
    if reqs.len() == 0 {
        start
    } else {
        batch_item(ctx, batch_run(ctx, start, reqs.drop_last()), reqs.last(), (reqs.len() - 1) as u32)
    }
}

pub open spec fn batch_start(available: u32, balance: u32) -> BatchProgress {
    BatchProgress {
        available,
        balance,
        shares: 0,
        cost: 0,
        successes: 0,
        results: Seq::empty(),
        effects: Seq::empty(),
        overflow: false,
    }
}

/// Shares bought in a batch leave the pool and reach the buyer one for one.
pub proof fn lemma_batch_run_moves_shares(
    ctx: BatchContext,
    start: BatchProgress,
    reqs: Seq<BatchPurchaseRequest>,
)
    requires
        start.shares == 0,
        start.successes == 0,
        start.results.len() == 0,
    ensures
        ({
            let p = batch_run(ctx, start, reqs);
            &&& p.balance + p.available == start.balance + start.available
            &&& p.shares == p.balance - start.balance
            &&& p.available <= start.available
            &&& p.successes <= p.results.len() <= reqs.len()
        }),
    decreases reqs.len(),
{
    if reqs.len() > 0 {
        lemma_batch_run_moves_shares(ctx, start, reqs.drop_last());
    }
}

impl MarketView {
    /// The context of a batch by `buyer` at price `price`.
    pub open spec fn batch_context(
        self,
        buyer: AccountId,
        price: i128,
        blocked: bool,
        tracks_total: bool,
    ) -> BatchContext {
        BatchContext {
            buyer,
            admin: if self.admin is Some {
                self.admin.unwrap()
            } else {
                0
            },
            nft: self.nft_contract,
            price,
            max_per_user: self.max_shares_per_user,
            accepted: self.accepted_tokens,
            blocked,
            tracks_total,
        }
    }

    /// Why `batch_buy_shares` is refused before any item is looked at.
    pub open spec fn batch_buy_refusal(
        self,
        buyer: AccountId,
        len: nat,
        now: u64,
    ) -> Option<MarketError> {
        if self.reentrancy_guard {
            Some(MarketError::Reentrancy)
        } else if self.paused == Some(true) {
            Some(MarketError::MarketplacePaused)
        } else if !self.whitelisted_at(buyer, now) {
            Some(MarketError::BuyerNotWhitelisted)
        } else if len == 0 {
            Some(MarketError::EmptyBatch)
        } else if len > MAX_BATCH_SIZE {
            Some(MarketError::BatchTooLarge)
        } else if self.admin is None || self.price_per_share is None || self.available_shares
            is None {
            Some(MarketError::NotInitialized)
        } else {
            None
        }
    }

    /// The items of a purchase batch, processed in order.
    pub open spec fn batch_buy_run(
        self,
        buyer: AccountId,
        reqs: Seq<BatchPurchaseRequest>,
        oracle_reply: Option<i128>,
    ) -> BatchProgress {
        batch_run(
            self.batch_context(buyer, self.price_from(oracle_reply).0, false, true),
            batch_start(self.available_shares.unwrap(), self.balance(buyer)),
            reqs,
        )
    }

    /// Why `get_batch_quote` is refused before any item is looked at.
    pub open spec fn batch_quote_refusal(self, len: nat) -> Option<MarketError> {
        if len == 0 {
            Some(MarketError::EmptyBatch)
        } else if len > MAX_BATCH_SIZE {
            Some(MarketError::BatchTooLarge)
        } else if self.price_per_share is None || self.available_shares is None {
            Some(MarketError::NotInitialized)
        } else {
            None
        }
    }

    /// The items of a quote, processed in order.
    pub open spec fn batch_quote_run(
        self,
        buyer: AccountId,
        reqs: Seq<BatchPurchaseRequest>,
        now: u64,
        oracle_reply: Option<i128>,
    ) -> BatchProgress {
        batch_run(
            self.batch_context(
                buyer,
                self.price_from(oracle_reply).0,
                self.paused == Some(true) || !self.whitelisted_at(buyer, now),
                false,
            ),
            batch_start(self.available_shares.unwrap(), self.balance(buyer)),
            reqs,
        )
    }
}

impl RwaMarketplace {
    /// Buys several allocations in one request. Each item is checked on its
    /// own; an item that fails is reported in its result and by an event and
    /// does not stop the others. The reentrancy guard stays held until the host
    /// calls `release_reentrancy_guard`.
    pub fn batch_buy_shares(
        &mut self,
        buyer: AccountId,
        requests: &Vec<BatchPurchaseRequest>,
        now: u64,
        oracle_reply: Option<i128>,
    ) -> (r: Result<(Vec<BatchPurchaseResult>, Vec<Effect>), MarketError>)
        ensures
            ({
                let pre = old(self)@;
                let run = pre.batch_buy_run(buyer, requests@, oracle_reply);
                match r {
                    Err(e) => {
                        &&& final(self)@ == pre
                        &&& (pre.batch_buy_refusal(buyer, requests@.len(), now) == Some(e) || (
                        pre.batch_buy_refusal(buyer, requests@.len(), now) is None && run.overflow
                            && e == MarketError::ArithmeticOverflow))
                    },
                    Ok((results, effects)) => {
                        &&& pre.batch_buy_refusal(buyer, requests@.len(), now) is None
                        &&& !run.overflow
                        &&& results@ == run.results
                        &&& final(self)@ == (MarketView {
                            available_shares: Some(run.available),
                            balances: pre.balances.insert(buyer, run.balance),
                            holders: if run.shares > 0 {
                                pre.holders_with(buyer)
                            } else {
                                pre.holders
                            },
                            reentrancy_guard: true,
                            ..pre
                        })
                        &&& effects@ == seq![Effect::RequireAuth(buyer)] + pre.price_effects(
                            oracle_reply,
                        ) + run.effects + seq![
                            Effect::Emit(
                                Event::BatchBuyShares(
                                    EventBatchBuyShares {
                                        buyer,
                                        total_items: requests@.len() as u32,
                                        successful_items: run.successes,
                                        total_shares: run.shares,
                                        total_cost: run.cost,
                                    },
                                ),
                            ),
                        ]
                    },
                }
            }),
            old(self).shares_conserved() ==> final(self).shares_conserved(),
            old(self).supply_balanced() ==> final(self).supply_balanced(),
            match r {
                Ok((results, effects)) => effects@.last() matches Effect::Emit(
                    Event::BatchBuyShares(summary),
                ) && summary.total_cost == successful_cost(results@) && summary.total_cost
                    == old(self)@.price_from(oracle_reply).0 * summary.total_shares,
                Err(_) => true,
            },
    {
        proof {
            law_batch_total_is_sum_of_items(self@, buyer, requests@, oracle_reply);
        }
        if self.reentrancy_guard {
            return Err(MarketError::Reentrancy);
        }
        if self.paused == Some(true) {
            return Err(MarketError::MarketplacePaused);
        }
        if !self.whitelisted_now(buyer, now) {
            return Err(MarketError::BuyerNotWhitelisted);
        }
        let batch_len = requests.len();
        if batch_len == 0 {
            return Err(MarketError::EmptyBatch);
        }
        if batch_len > 10 {
            return Err(MarketError::BatchTooLarge);
        }
        let admin = match self.admin {
            Some(a) => a,
            None => {
                return Err(MarketError::NotInitialized);
            },
        };
        if self.price_per_share.is_none() {
            return Err(MarketError::NotInitialized);
        }
        let (price, price_event) = self.price_for_purchase(oracle_reply);
        let available = match self.available_shares {
            Some(a) => a,
            None => {
                return Err(MarketError::NotInitialized);
            },
        };
        let buyer_balance = self.balance_of(buyer);
        let ctx = BatchContextExec {
            buyer,
            admin,
            nft: self.nft_contract,
            price,
            max_per_user: self.max_shares_per_user,
            blocked: false,
            tracks_total: true,
        };
        let mut effects: Vec<Effect> = Vec::new();
        effects.push(Effect::RequireAuth(buyer));
        match price_event {
            Some(e) => effects.push(Effect::Emit(e)),
            None => {},
        }
        let ghost effects1 = effects@;
        let ghost pre = *self;
        proof {
            lemma_batch_run_moves_shares(ctx.spec(self@.accepted_tokens), batch_start(available, buyer_balance), requests@);
        }
        let (results, new_available, new_balance, total_shares, total_cost, successes) =
            match self.run_batch(requests, &ctx, available, buyer_balance, &mut effects) {
            Ok(v) => v,
            Err(e) => {
                return Err(e);
            },
        };
        effects.push(Effect::Emit(Event::BatchBuyShares(EventBatchBuyShares {
            buyer,
            total_items: batch_len as u32,
            successful_items: successes,
            total_shares,
            total_cost,
        })));
        self.reentrancy_guard = true;
        self.available_shares = Some(new_available);
        self.balances.insert(buyer, new_balance);
        if total_shares > 0 {
            self.register_holder(buyer);
        }
        proof {
            KeyedTable::<AccountId, u32>::lemma_insert_weight(pre.balances, self.balances, buyer, new_balance);
            assert(effects@ =~= effects1 + pre@.batch_buy_run(buyer, requests@, oracle_reply).effects + seq![
                Effect::Emit(Event::BatchBuyShares(EventBatchBuyShares {
                    buyer,
                    total_items: batch_len as u32,
                    successful_items: successes,
                    total_shares,
                    total_cost,
                })),
            ]);
        }
        Ok((results, effects))
    }

    /// Quotes a batch without buying: what each item would cost and whether it
    /// would succeed. Nothing changes.
    pub fn get_batch_quote(
        &self,
        buyer: AccountId,
        requests: &Vec<BatchPurchaseRequest>,
        now: u64,
        oracle_reply: Option<i128>,
    ) -> (r: Result<Vec<BatchPurchaseResult>, MarketError>)
        ensures
            ({
                let run = self@.batch_quote_run(buyer, requests@, now, oracle_reply);
                match r {
                    Err(e) => self@.batch_quote_refusal(requests@.len()) == Some(e) || (
                    self@.batch_quote_refusal(requests@.len()) is None && run.overflow && e
                        == MarketError::ArithmeticOverflow),
                    Ok(results) => {
                        &&& self@.batch_quote_refusal(requests@.len()) is None
                        &&& !run.overflow
                        &&& results@ == run.results
                    },
                }
            }),
            match r {
                Ok(results) => (self@.paused == Some(true) || !self@.whitelisted_at(buyer, now))
                    ==> forall|i: int|
                    0 <= i < results@.len() ==> {
                        &&& !(#[trigger] results@[i]).success
                        &&& results@[i].shares_purchased == 0
                        &&& results@[i].total_cost == 0
                    },
                Err(_) => true,
            },
    {
        proof {
            if self@.paused == Some(true) || !self@.whitelisted_at(buyer, now) {
                law_quote_refuses_blocked_buyers(self@, buyer, requests@, now, oracle_reply);
            }
        }
        let batch_len = requests.len();
        if batch_len == 0 {
            return Err(MarketError::EmptyBatch);
        }
        if batch_len > 10 {
            return Err(MarketError::BatchTooLarge);
        }
        if self.price_per_share.is_none() {
            return Err(MarketError::NotInitialized);
        }
        let (price, _) = self.price_for_purchase(oracle_reply);
        let whitelisted = self.whitelisted_now(buyer, now);
        let available = match self.available_shares {
            Some(a) => a,
            None => {
                return Err(MarketError::NotInitialized);
            },
        };
        let buyer_balance = self.balance_of(buyer);
        let ctx = BatchContextExec {
            buyer,
            admin: match self.admin {
                Some(a) => a,
                None => 0,
            },
            nft: self.nft_contract,
            price,
            max_per_user: self.max_shares_per_user,
            blocked: self.paused == Some(true) || !whitelisted,
            tracks_total: false,
        };
        let mut effects: Vec<Effect> = Vec::new();
        match self.run_batch(requests, &ctx, available, buyer_balance, &mut effects) {
            Ok((results, _, _, _, _, _)) => {
                proof {
                    let run = self@.batch_quote_run(buyer, requests@, now, oracle_reply);
                    if self@.paused == Some(true) || !self@.whitelisted_at(buyer, now) {
                        assert forall|i: int| 0 <= i < results@.len() implies {
                            &&& !(#[trigger] results@[i]).success
                            &&& results@[i].shares_purchased == 0
                            &&& results@[i].total_cost == 0
                        } by {
                            assert(results@[i] == run.results[i]);
                        }
                    }
                }
                Ok(results)
            },
            Err(e) => Err(e),
        }
    }

    /// Runs the items of a batch; `Err` when the arithmetic of an item overflows.
    fn run_batch(
        &self,
        reqs: &Vec<BatchPurchaseRequest>,
        ctx: &BatchContextExec,
        available: u32,
        balance: u32,
        effects: &mut Vec<Effect>,
    ) -> (r: Result<(Vec<BatchPurchaseResult>, u32, u32, u32, i128, u32), MarketError>)
        requires
            reqs@.len() <= MAX_BATCH_SIZE,
        ensures
            ({
                let p = batch_run(ctx.spec(self@.accepted_tokens), batch_start(available, balance), reqs@);
                match r {
                    Err(e) => p.overflow && e == MarketError::ArithmeticOverflow,
                    Ok((results, av, bal, sh, cost, succ)) => {
                        &&& !p.overflow
                        &&& results@ == p.results
                        &&& av == p.available
                        &&& bal == p.balance
                        &&& sh == p.shares
                        &&& cost == p.cost
                        &&& succ == p.successes
                        &&& final(effects)@ == old(effects)@ + p.effects
                    },
                }
            }),
    {
        let ghost sctx = ctx.spec(self@.accepted_tokens);
        let ghost start = batch_start(available, balance);
        let ghost effects0 = effects@;
        let mut results: Vec<BatchPurchaseResult> = Vec::new();
        let mut avail = available;
        let mut bal = balance;
        let mut shares_total: u32 = 0;
        let mut cost_total: i128 = 0;
        let mut successes: u32 = 0;
        let n = reqs.len();
        let mut i: usize = 0;
        while i < n
            invariant
                n == reqs@.len(),
                n <= MAX_BATCH_SIZE,
                i <= n,
                sctx == ctx.spec(self@.accepted_tokens),
                start == batch_start(available, balance),
                ({
                    let p = batch_run(sctx, start, reqs@.take(i as int));
                    &&& !p.overflow
                    &&& results@ == p.results
                    &&& avail == p.available
                    &&& bal == p.balance
                    &&& shares_total == p.shares
                    &&& cost_total == p.cost
                    &&& successes == p.successes
                    &&& effects@ == effects0 + p.effects
                }),
            decreases n - i,
        {
            let req = reqs[i];
            let idx = i as u32;
            proof {
                assert(reqs@.take(i + 1).drop_last() =~= reqs@.take(i as int));
                assert(reqs@.take(i + 1).last() == req);
                lemma_batch_run_moves_shares(sctx, start, reqs@.take(i as int));
            }
            let ghost p = batch_run(sctx, start, reqs@.take(i as int));
            if ctx.blocked || req.shares == 0 || req.shares > avail {
                results.push(BatchPurchaseResult { index: idx, success: false, shares_purchased: 0, total_cost: 0 });
                effects.push(Effect::Emit(Event::BatchPurchaseItemFailed(EventBatchPurchaseItemFailed {
                    buyer: ctx.buyer,
                    index: idx,
                    shares_requested: req.shares,
                })));
            } else {
                let prospective = match bal.checked_add(req.shares) {
                    Some(v) => v,
                    None => {
                        proof {
                            assert(batch_item(sctx, p, req, idx).overflow);
                            assert(batch_run(sctx, start, reqs@.take(i + 1)).overflow);
                            lemma_batch_run_overflow_sticks(sctx, start, reqs@, i + 1);
                            assert(reqs@.take(n as int) =~= reqs@);
                        }
                        return Err(MarketError::ArithmeticOverflow);
                    },
                };
                if (ctx.max_per_user > 0 && prospective > ctx.max_per_user) || !self.accepts(req.payment_token) {
                    results.push(BatchPurchaseResult { index: idx, success: false, shares_purchased: 0, total_cost: 0 });
                    effects.push(Effect::Emit(Event::BatchPurchaseItemFailed(EventBatchPurchaseItemFailed {
                        buyer: ctx.buyer,
                        index: idx,
                        shares_requested: req.shares,
                    })));
                } else {
                    let item_cost = match ctx.price.checked_mul(req.shares as i128) {
                        Some(c) => c,
                        None => {
                            proof {
                                assert(batch_run(sctx, start, reqs@.take(i + 1)).overflow);
                                lemma_batch_run_overflow_sticks(sctx, start, reqs@, i + 1);
                                assert(reqs@.take(n as int) =~= reqs@);
                            }
                            return Err(MarketError::ArithmeticOverflow);
                        },
                    };
                    let new_cost = if ctx.tracks_total {
                        match cost_total.checked_add(item_cost) {
                            Some(c) => c,
                            None => {
                                proof {
                                    assert(batch_run(sctx, start, reqs@.take(i + 1)).overflow);
                                    lemma_batch_run_overflow_sticks(sctx, start, reqs@, i + 1);
                                    assert(reqs@.take(n as int) =~= reqs@);
                                }
                                return Err(MarketError::ArithmeticOverflow);
                            },
                        }
                    } else {
                        cost_total
                    };
                    effects.push(Effect::Transfer {
                        token: req.payment_token,
                        from: ctx.buyer,
                        to: ctx.admin,
                        amount: item_cost,
                    });
                    match ctx.nft {
                        Some(nft) => effects.push(Effect::MintCertificates { nft, to: ctx.buyer, count: req.shares }),
                        None => {},
                    }
                    avail = avail - req.shares;
                    bal = prospective;
                    shares_total = shares_total + req.shares;
                    cost_total = new_cost;
                    successes = successes + 1;
                    results.push(BatchPurchaseResult {
                        index: idx,
                        success: true,
                        shares_purchased: req.shares,
                        total_cost: item_cost,
                    });
                }
            }
            proof {
                let q = batch_run(sctx, start, reqs@.take(i + 1));
                assert(effects@ =~= effects0 + q.effects);
                assert(results@ =~= q.results);
            }
            i = i + 1;
        }
        proof {
            assert(reqs@.take(n as int) =~= reqs@);
        }
        Ok((results, avail, bal, shares_total, cost_total, successes))
    }
}

/// Once an item overflows, the batch stays overflowed.
pub proof fn lemma_batch_run_overflow_sticks(
    ctx: BatchContext,
    start: BatchProgress,
    reqs: Seq<BatchPurchaseRequest>,
    k: int,
)
    requires
        0 <= k <= reqs.len(),
        batch_run(ctx, start, reqs.take(k)).overflow,
    ensures
        batch_run(ctx, start, reqs).overflow,
    decreases reqs.len() - k,
{
    if k < reqs.len() {
        assert(reqs.take(k + 1).drop_last() =~= reqs.take(k));
        lemma_batch_run_overflow_sticks(ctx, start, reqs, k + 1);
    } else {
        assert(reqs.take(k) =~= reqs);
    }
}

/// The executable counterpart of `BatchContext`.
pub struct BatchContextExec {
    pub buyer: AccountId,
    pub admin: AccountId,
    pub nft: Option<AccountId>,
    pub price: i128,
    pub max_per_user: u32,
    pub blocked: bool,
    pub tracks_total: bool,
}

impl BatchContextExec {
    pub open spec fn spec(&self, accepted: Seq<AccountId>) -> BatchContext {
        BatchContext {
            buyer: self.buyer,
            admin: self.admin,
            nft: self.nft,
            price: self.price,
            max_per_user: self.max_per_user,
            accepted,
            blocked: self.blocked,
            tracks_total: self.tracks_total,
        }
    }
}

} // verus!
